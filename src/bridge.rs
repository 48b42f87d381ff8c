//! The entry points that the host drives: construct the guest once, step it
//! once per frame, and hand it one pose event per tracked detection.

use vstd::prelude::*;

use crate::pose::Pose;

verus! {

/// What a guest simulation provides: a construction without inputs, a
/// per-frame step, and a handler for pose events. A guest also defines its
/// transitions, `initial`, `stepped` and `posed`, and each operation leaves
/// it in the state that its transition gives; the bridge's contracts say
/// which transition the guest goes through, with which arguments.
pub trait Game: Sized {
    /// The scalar type of elapsed time and of pose coordinates.
    type Scalar: Copy;

    /// The state of a newly constructed guest.
    spec fn initial() -> Self;

    /// The state after one frame step of `delta` seconds.
    spec fn stepped(self, delta: Self::Scalar) -> Self;

    /// The state after a pose event for detection `id`.
    spec fn posed(self, id: u32, pose: Option<Pose<Self::Scalar>>) -> Self;

    fn new() -> (r: Self)
        ensures
            r == Self::initial(),
    ;

    /// One frame step; `delta` is the elapsed time since the previous step,
    /// in seconds.
    fn update(&mut self, delta: Self::Scalar)
        ensures
            *final(self) == old(self).stepped(delta),
    ;

    /// A pose event for detection `id`: a snapshot while it is tracked,
    /// `None` once it has been lost.
    fn on_pose_update(&mut self, id: u32, pose: Option<Pose<Self::Scalar>>)
        ensures
            *final(self) == old(self).posed(id, pose),
    ;
}

/// The states of the guest instance's lifecycle.
#[derive(Clone, Copy, Debug, PartialEq, Eq, Structural)]
pub enum Lifecycle {
    Uninitialized,
    Running,
}

/// An entry point invoked out of order.
#[derive(Clone, Copy, Debug, PartialEq, Eq, Structural)]
pub enum LifecycleError {
    /// `initialize` while a guest instance already runs.
    AlreadyInitialized,
    /// `update` or `pose_event` before `initialize`.
    NotInitialized,
}

/// The state after `initialize` from state `s`, and what it returns.
pub open spec fn initialize_outcome(s: Lifecycle) -> (Lifecycle, Result<(), LifecycleError>) {
    match s {
        Lifecycle::Uninitialized => (Lifecycle::Running, Ok(())),
        Lifecycle::Running => (Lifecycle::Running, Err(LifecycleError::AlreadyInitialized)),
    }
}

/// Two initializations in a row, from either state: the second is refused,
/// and a guest runs after both.
pub proof fn lemma_initialize_twice(s: Lifecycle)
    ensures
        initialize_outcome(s).0 == Lifecycle::Running,
        initialize_outcome(initialize_outcome(s).0) == (
        Lifecycle::Running,
        Err::<(), LifecycleError>(LifecycleError::AlreadyInitialized),
        ),
{
}

/// What the guest's pose handler is given for an event on `buffer`: the
/// snapshot of the buffer while the detection is alive, an explicit absence
/// once it is lost.
pub open spec fn pose_arg<T>(alive: bool, buffer: [T; 34]) -> Option<Pose<T>> {
    if alive {
        Some(Pose(buffer))
    } else {
        None
    }
}

/// A lost detection reaches the guest as the same explicit absence whatever
/// the buffer holds: stale or zeroed coordinates never get through.
pub proof fn lemma_lost_detection_ignores_buffer<T>(a: [T; 34], b: [T; 34])
    ensures
        pose_arg(false, a) == pose_arg(false, b),
        pose_arg(false, a) is None,
{
}

/// What the guest receives for one pose event: the decoded buffer while the
/// detection is alive, an explicit absence once it is lost. The buffer is not
/// read when the detection is lost.
pub fn pose_for_event<T: Copy>(alive: bool, buffer: &[T; 34]) -> (r: Option<Pose<T>>)
    ensures
        r == pose_arg(alive, *buffer),
{
    if alive {
        Some(Pose::decode(buffer))
    } else {
        None
    }
}

/// The guest state after one frame step for each of `deltas`, first to last.
pub open spec fn stepped_through<G: Game>(g: G, deltas: Seq<G::Scalar>) -> G
    decreases deltas.len(),
{
    if deltas.len() == 0 {
        g
    } else {
        stepped_through(g.stepped(deltas[0]), deltas.drop_first())
    }
}

/// A run of updates on a running bridge, each related to the next as
/// `update` relates its state before and after: the guest constructed at
/// the start has received every delta once, in order, and runs on.
pub proof fn lemma_updates_in_order<G: Game>(bridges: Seq<Bridge<G>>, deltas: Seq<G::Scalar>)
    requires
        bridges.len() == deltas.len() + 1,
        bridges[0]@ == Lifecycle::Running,
        forall|i: int|
            0 <= i < deltas.len() ==> bridges[i + 1].instance() == Some(
                bridges[i].instance()->Some_0.stepped(#[trigger] deltas[i]),
            ),
    ensures
        bridges.last()@ == Lifecycle::Running,
        bridges.last().instance() == Some(
            stepped_through(bridges[0].instance()->Some_0, deltas),
        ),
    decreases deltas.len(),
{
    reveal_with_fuel(stepped_through, 2);
    if deltas.len() > 0 {
        let rest = bridges.drop_first();
        let later = deltas.drop_first();
        assert(bridges[1].instance() == Some(bridges[0].instance()->Some_0.stepped(deltas[0])));
        assert forall|i: int| 0 <= i < later.len() implies rest[i + 1].instance() == Some(
            rest[i].instance()->Some_0.stepped(#[trigger] later[i]),
        ) by {
            assert(rest[i + 1] == bridges[i + 2]);
            assert(rest[i] == bridges[i + 1]);
            assert(later[i] == deltas[i + 1]);
            assert(bridges[(i + 1) + 1].instance() == Some(
                bridges[i + 1].instance()->Some_0.stepped(deltas[i + 1]),
            ));
        }
        lemma_updates_in_order(rest, later);
        assert(rest.last() == bridges.last());
    }
}

/// The single slot that owns the guest instance.
pub struct Bridge<G> {
    game: Option<G>,
}

impl<G> View for Bridge<G> {
    type V = Lifecycle;

    closed spec fn view(&self) -> Lifecycle {
        if self.game is Some {
            Lifecycle::Running
        } else {
            Lifecycle::Uninitialized
        }
    }
}

impl<G: Game> Bridge<G> {
    /// The guest instance in the slot, if one has been constructed.
    pub closed spec fn instance(&self) -> Option<G> {
        self.game
    }

    /// An empty slot: no guest has been constructed yet.
    pub fn new() -> (r: Self)
        ensures
            r@ == Lifecycle::Uninitialized,
    {
        Bridge { game: None }
    }

    pub fn state(&self) -> (r: Lifecycle)
        ensures
            r == self@,
    {
        if self.game.is_some() {
            Lifecycle::Running
        } else {
            Lifecycle::Uninitialized
        }
    }

    /// The running guest, if it has been constructed.
    pub fn guest(&self) -> (r: Option<&G>)
        ensures
            r is Some <==> self@ == Lifecycle::Running,
    {
        self.game.as_ref()
    }

    /// Constructs the guest, once. A second call is refused and leaves the
    /// running guest in place.
    pub fn initialize(&mut self) -> (r: Result<(), LifecycleError>)
        ensures
            (final(self)@, r) == initialize_outcome(old(self)@),
            old(self)@ == Lifecycle::Uninitialized ==> final(self).instance() == Some(G::initial()),
            old(self)@ == Lifecycle::Running ==> *final(self) == *old(self),
    {
        if self.game.is_some() {
            Err(LifecycleError::AlreadyInitialized)
        } else {
            self.game = Some(G::new());
            Ok(())
        }
    }

    /// Forwards one frame step to the guest.
    pub fn update(&mut self, delta: G::Scalar) -> (r: Result<(), LifecycleError>)
        ensures
            final(self)@ == old(self)@,
            old(self)@ == Lifecycle::Running ==> r == Ok::<(), LifecycleError>(()),
            old(self)@ == Lifecycle::Uninitialized ==> r == Err::<(), LifecycleError>(
                LifecycleError::NotInitialized,
            ) && *final(self) == *old(self),
            old(self)@ == Lifecycle::Running ==> final(self).instance() == Some(
                old(self).instance()->Some_0.stepped(delta),
            ),
    {
        match &mut self.game {
            Some(g) => {
                g.update(delta);
                Ok(())
            },
            None => Err(LifecycleError::NotInitialized),
        }
    }

    /// Forwards one pose event to the guest: the decoded `buffer` when
    /// `alive`, an explicit absence otherwise.
    pub fn pose_event(&mut self, id: u32, alive: bool, buffer: &[G::Scalar; 34]) -> (r: Result<
        (),
        LifecycleError,
    >)
        ensures
            final(self)@ == old(self)@,
            old(self)@ == Lifecycle::Running ==> r == Ok::<(), LifecycleError>(()),
            old(self)@ == Lifecycle::Uninitialized ==> r == Err::<(), LifecycleError>(
                LifecycleError::NotInitialized,
            ) && *final(self) == *old(self),
            old(self)@ == Lifecycle::Running ==> final(self).instance() == Some(
                old(self).instance()->Some_0.posed(id, pose_arg(alive, *buffer)),
            ),
    {
        match &mut self.game {
            Some(g) => {
                let pose = pose_for_event(alive, buffer);
                g.on_pose_update(id, pose);
                Ok(())
            },
            None => Err(LifecycleError::NotInitialized),
        }
    }
}

} // verus!
