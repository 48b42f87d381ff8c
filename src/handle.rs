//! Handles to host-owned resources, and the host-side table they index.
//!
//! A handle is a thin numeric id: copies alias the same host slot, and once
//! an object is deleted every copy of its handle is stale. The id may later
//! be given to a new object. The table checks every access: a handle whose
//! id names no live object is reported as stale. Ids carry no generation, so
//! once an id has been given to a new object, an old copy of the handle reads
//! that new object, as it would on the host.

use vstd::prelude::*;

verus! {

/// A handle to a drawable object. Dropping it leaves the object in place.
#[derive(Clone, Copy, Debug, PartialEq, Eq, Structural)]
pub struct GameObject(u32);

/// A handle to a color material. Materials live as long as the scene.
#[derive(Clone, Copy, Debug, PartialEq, Eq, Structural)]
pub struct Material(u32);

impl GameObject {
    pub closed spec fn spec_id(self) -> u32 {
        self.0
    }

    /// Wraps an id handed out by the host.
    pub fn from_id(id: u32) -> (r: GameObject)
        ensures
            r.spec_id() == id,
    {
        GameObject(id)
    }

    pub fn id(&self) -> (r: u32)
        ensures
            r == self.spec_id(),
    {
        self.0
    }
}

impl Material {
    pub closed spec fn spec_id(self) -> u32 {
        self.0
    }

    /// Wraps an id handed out by the host.
    pub fn from_id(id: u32) -> (r: Material)
        ensures
            r.spec_id() == id,
    {
        Material(id)
    }

    pub fn id(&self) -> (r: u32)
        ensures
            r == self.spec_id(),
    {
        self.0
    }
}

/// An access that the table refused.
#[derive(Clone, Copy, Debug, PartialEq, Eq, Structural)]
pub enum HandleError {
    /// The object handle names no live object: it was deleted, or never made.
    Stale,
    /// The material handle names no material of this scene.
    UnknownMaterial,
    /// Every id is taken.
    Exhausted,
}

/// The host-side state of one object: the top-left corner and the size of
/// its bounding box, and its material's id.
#[derive(Clone, Copy, Debug, PartialEq)]
pub struct ObjectState<T> {
    pub x: T,
    pub y: T,
    pub scale_x: T,
    pub scale_y: T,
    pub material: u32,
}

/// A color material.
#[derive(Clone, Copy, Debug, PartialEq)]
pub struct Color<T> {
    pub r: T,
    pub g: T,
    pub b: T,
}

/// A new object at `(x, y)` with a `unit` by `unit` box.
pub open spec fn fresh_object<T>(x: T, y: T, unit: T, material: u32) -> ObjectState<T> {
    ObjectState { x, y, scale_x: unit, scale_y: unit, material }
}

/// `o` moved to `(x, y)`.
pub open spec fn moved<T>(o: ObjectState<T>, x: T, y: T) -> ObjectState<T> {
    ObjectState { x, y, ..o }
}

/// `o` rescaled to `x` by `y`.
pub open spec fn rescaled<T>(o: ObjectState<T>, x: T, y: T) -> ObjectState<T> {
    ObjectState { scale_x: x, scale_y: y, ..o }
}

/// One change to the live-object table, as the scene's methods make it.
pub enum SceneOp<T> {
    Create { id: u32, x: T, y: T, material: u32 },
    SetPosition { id: u32, x: T, y: T },
    SetScale { id: u32, x: T, y: T },
    Delete { id: u32 },
}

impl<T> SceneOp<T> {
    /// The id of the object that the change is about.
    pub open spec fn target(self) -> u32 {
        match self {
            SceneOp::Create { id, .. } => id,
            SceneOp::SetPosition { id, .. } => id,
            SceneOp::SetScale { id, .. } => id,
            SceneOp::Delete { id } => id,
        }
    }
}

/// The live objects after `op`, for a scene whose new objects have a `unit`
/// by `unit` box. A change to an id that is not live, and a creation under an
/// id that is, change nothing: the scene's methods refuse them.
pub open spec fn apply_op<T>(objs: Map<u32, ObjectState<T>>, unit: T, op: SceneOp<T>) -> Map<
    u32,
    ObjectState<T>,
> {
    match op {
        SceneOp::Create { id, x, y, material } => if objs.contains_key(id) {
            objs
        } else {
            objs.insert(id, fresh_object(x, y, unit, material))
        },
        SceneOp::SetPosition { id, x, y } => if objs.contains_key(id) {
            objs.insert(id, moved(objs[id], x, y))
        } else {
            objs
        },
        SceneOp::SetScale { id, x, y } => if objs.contains_key(id) {
            objs.insert(id, rescaled(objs[id], x, y))
        } else {
            objs
        },
        SceneOp::Delete { id } => objs.remove(id),
    }
}

/// The live objects after each of `ops` in turn.
pub open spec fn apply_ops<T>(objs: Map<u32, ObjectState<T>>, unit: T, ops: Seq<SceneOp<T>>) -> Map<
    u32,
    ObjectState<T>,
>
    decreases ops.len(),
{
    if ops.len() == 0 {
        objs
    } else {
        apply_ops(apply_op(objs, unit, ops[0]), unit, ops.drop_first())
    }
}

/// A newly created object reports the position it was created at, through
/// any later run of changes that neither moves nor deletes it: rescaling it
/// and changes to other objects leave its position alone.
pub proof fn lemma_created_position_kept<T>(
    objs: Map<u32, ObjectState<T>>,
    unit: T,
    id: u32,
    x: T,
    y: T,
    material: u32,
    ops: Seq<SceneOp<T>>,
)
    requires
        !objs.contains_key(id),
        forall|i: int|
            0 <= i < ops.len() && #[trigger] ops[i].target() == id ==> ops[i] is SetScale,
    ensures
        ({
            let after = apply_ops(
                apply_op(objs, unit, SceneOp::Create { id, x, y, material }),
                unit,
                ops,
            );
            after.contains_key(id) && after[id].x == x && after[id].y == y
        }),
{
    let start = objs.insert(id, fresh_object(x, y, unit, material));
    lemma_position_kept(start, unit, id, x, y, ops);
}

proof fn lemma_position_kept<T>(
    objs: Map<u32, ObjectState<T>>,
    unit: T,
    id: u32,
    x: T,
    y: T,
    ops: Seq<SceneOp<T>>,
)
    requires
        objs.contains_key(id),
        objs[id].x == x,
        objs[id].y == y,
        forall|i: int|
            0 <= i < ops.len() && #[trigger] ops[i].target() == id ==> ops[i] is SetScale,
    ensures
        apply_ops(objs, unit, ops).contains_key(id),
        apply_ops(objs, unit, ops)[id].x == x,
        apply_ops(objs, unit, ops)[id].y == y,
    decreases ops.len(),
{
    if ops.len() > 0 {
        let next = apply_op(objs, unit, ops[0]);
        assert(ops[0].target() == id ==> ops[0] is SetScale);
        assert forall|i: int|
            0 <= i < ops.drop_first().len() && #[trigger] ops.drop_first()[i].target()
                == id implies ops.drop_first()[i] is SetScale by {
            assert(ops.drop_first()[i] == ops[i + 1]);
        }
        lemma_position_kept(next, unit, id, x, y, ops.drop_first());
    }
}

/// Deleting an object leaves every copy of its handle stale, and stale it
/// stays through any later run of changes that creates no object under the
/// same id.
pub proof fn lemma_deleted_handle_stale<T>(
    objs: Map<u32, ObjectState<T>>,
    unit: T,
    h: GameObject,
    copy: GameObject,
    ops: Seq<SceneOp<T>>,
)
    requires
        copy == h,
        forall|i: int|
            0 <= i < ops.len() && #[trigger] ops[i].target() == h.spec_id() ==> !(
            ops[i] is Create),
    ensures
        !apply_ops(apply_op(objs, unit, SceneOp::Delete { id: h.spec_id() }), unit, ops).contains_key(
            copy.spec_id(),
        ),
{
    lemma_stays_stale(objs.remove(h.spec_id()), unit, h.spec_id(), ops);
}

proof fn lemma_stays_stale<T>(
    objs: Map<u32, ObjectState<T>>,
    unit: T,
    id: u32,
    ops: Seq<SceneOp<T>>,
)
    requires
        !objs.contains_key(id),
        forall|i: int| 0 <= i < ops.len() && #[trigger] ops[i].target() == id ==> !(ops[i] is Create),
    ensures
        !apply_ops(objs, unit, ops).contains_key(id),
    decreases ops.len(),
{
    if ops.len() > 0 {
        assert(ops[0].target() == id ==> !(ops[0] is Create));
        assert forall|i: int|
            0 <= i < ops.drop_first().len() && #[trigger] ops.drop_first()[i].target()
                == id implies !(ops.drop_first()[i] is Create) by {
            assert(ops.drop_first()[i] == ops[i + 1]);
        }
        lemma_stays_stale(apply_op(objs, unit, ops[0]), unit, id, ops.drop_first());
    }
}

/// A reused id names the new object: whatever a stale copy of the old
/// handle reads now comes from the object created last under that id.
pub proof fn lemma_reused_id_names_new_object<T>(
    objs: Map<u32, ObjectState<T>>,
    unit: T,
    h: GameObject,
    x: T,
    y: T,
    material: u32,
)
    ensures
        ({
            let gone = apply_op(objs, unit, SceneOp::Delete { id: h.spec_id() });
            let after = apply_op(gone, unit, SceneOp::Create { id: h.spec_id(), x, y, material });
            after.contains_key(h.spec_id()) && after[h.spec_id()] == fresh_object(
                x,
                y,
                unit,
                material,
            )
        }),
{
}

/// The host's resource table: objects by id, with ids reused after deletion,
/// and create-only materials.
pub struct Scene<T> {
    unit: T,
    slots: Vec<Option<ObjectState<T>>>,
    colors: Vec<Color<T>>,
}

impl<T: Copy> Scene<T> {
    /// The live objects, by id.
    pub closed spec fn objects(&self) -> Map<u32, ObjectState<T>> {
        Map::new(
            |id: u32| (id as int) < self.slots@.len() && self.slots@[id as int] is Some,
            |id: u32| self.slots@[id as int]->Some_0,
        )
    }

    /// The materials, in the order of creation; a material's id is its index.
    pub closed spec fn materials(&self) -> Seq<Color<T>> {
        self.colors@
    }

    /// The side of a new object's bounding box.
    pub closed spec fn spec_unit(&self) -> T {
        self.unit
    }

    pub closed spec fn wf(&self) -> bool {
        &&& self.slots@.len() <= u32::MAX as int + 1
        &&& self.colors@.len() <= u32::MAX as int + 1
    }

    /// An empty scene whose new objects start with a `unit` by `unit` box.
    pub fn new(unit: T) -> (r: Scene<T>)
        ensures
            r.wf(),
            r.objects() == Map::<u32, ObjectState<T>>::empty(),
            r.materials() == Seq::<Color<T>>::empty(),
            r.spec_unit() == unit,
    {
        let r = Scene { unit, slots: Vec::new(), colors: Vec::new() };
        assert(r.objects() =~= Map::<u32, ObjectState<T>>::empty());
        r
    }

    pub fn unit(&self) -> (r: T)
        ensures
            r == self.spec_unit(),
    {
        self.unit
    }

    /// The state of the object that `h` names, if it is live.
    fn lookup(&self, h: &GameObject) -> (r: Option<ObjectState<T>>)
        ensures
            self.objects().contains_key(h.spec_id()) ==> r == Some(self.objects()[h.spec_id()]),
            !self.objects().contains_key(h.spec_id()) ==> r is None,
    {
        let i = h.0 as usize;
        if i < self.slots.len() {
            match &self.slots[i] {
                Some(o) => Some(*o),
                None => None,
            }
        } else {
            None
        }
    }

    /// The first id whose slot is free, if any.
    fn free_slot(&self) -> (r: Option<usize>)
        ensures
            r matches Some(i) ==> i < self.slots@.len() && self.slots@[i as int] is None,
            r is None ==> forall|j: int| 0 <= j < self.slots@.len() ==> self.slots@[j] is Some,
    {
        let n = self.slots.len();
        let mut i: usize = 0;
        while i < n
            invariant
                n == self.slots@.len(),
                i <= n,
                forall|j: int| 0 <= j < i ==> self.slots@[j] is Some,
            decreases n - i,
        {
            if self.slots[i].is_none() {
                return Some(i);
            }
            i += 1;
        }
        None
    }

    /// The object's whole state: position, box size and material.
    pub fn object(&self, h: &GameObject) -> (r: Result<ObjectState<T>, HandleError>)
        ensures
            self.objects().contains_key(h.spec_id()) ==> r == Ok::<ObjectState<T>, HandleError>(
                self.objects()[h.spec_id()],
            ),
            !self.objects().contains_key(h.spec_id()) ==> r == Err::<ObjectState<T>, HandleError>(
                HandleError::Stale,
            ),
    {
        match self.lookup(h) {
            Some(o) => Ok(o),
            None => Err(HandleError::Stale),
        }
    }

    /// The color of `m`.
    pub fn material(&self, m: &Material) -> (r: Result<Color<T>, HandleError>)
        ensures
            m.spec_id() < self.materials().len() ==> r == Ok::<Color<T>, HandleError>(
                self.materials()[m.spec_id() as int],
            ),
            m.spec_id() >= self.materials().len() ==> r == Err::<Color<T>, HandleError>(
                HandleError::UnknownMaterial,
            ),
    {
        let i = m.0 as usize;
        if i < self.colors.len() {
            Ok(self.colors[i])
        } else {
            Err(HandleError::UnknownMaterial)
        }
    }
}

impl GameObject {
    /// Creates an object at viewport position `(x, y)` with a `unit` by
    /// `unit` box, bound to `material`. Its id is one that no live object
    /// holds; an id freed by a deletion may be given out again.
    pub fn new<T: Copy>(x: T, y: T, material: &Material, scene: &mut Scene<T>) -> (r: Result<
        GameObject,
        HandleError,
    >)
        requires
            old(scene).wf(),
        ensures
            final(scene).wf(),
            final(scene).materials() == old(scene).materials(),
            final(scene).spec_unit() == old(scene).spec_unit(),
            material.spec_id() >= old(scene).materials().len() ==> r == Err::<GameObject, HandleError>(
                HandleError::UnknownMaterial,
            ),
            material.spec_id() < old(scene).materials().len() && (forall|id: u32|
                old(scene).objects().contains_key(id)) ==> r == Err::<GameObject, HandleError>(
                HandleError::Exhausted,
            ),
            material.spec_id() < old(scene).materials().len() && (exists|id: u32|
                !old(scene).objects().contains_key(id)) ==> r is Ok,
            r is Err ==> final(scene).objects() == old(scene).objects(),
            r matches Ok(h) ==> !old(scene).objects().contains_key(h.spec_id()) && final(scene).objects() == old(scene).objects().insert(
                h.spec_id(),
                fresh_object(x, y, old(scene).spec_unit(), material.spec_id()),
            ),
            r matches Ok(h) ==> final(scene).objects() == apply_op(
                old(scene).objects(),
                old(scene).spec_unit(),
                SceneOp::Create { id: h.spec_id(), x, y, material: material.spec_id() },
            ),
    {
        if material.0 as usize >= scene.colors.len() {
            return Err(HandleError::UnknownMaterial);
        }
        let fresh = ObjectState {
            x,
            y,
            scale_x: scene.unit,
            scale_y: scene.unit,
            material: material.0,
        };
        match scene.free_slot() {
            Some(i) => {
                assert(!old(scene).objects().contains_key(i as u32));
                scene.slots.set(i, Some(fresh));
                assert(scene.objects() =~= old(scene).objects().insert(i as u32, fresh));
                Ok(GameObject(i as u32))
            },
            None => {
                let n = scene.slots.len();
                if n > u32::MAX as usize {
                    assert forall|id: u32| old(scene).objects().contains_key(id) by {
                        assert(scene.slots@[id as int] is Some);
                    }
                    return Err(HandleError::Exhausted);
                }
                assert(!old(scene).objects().contains_key(n as u32));
                scene.slots.push(Some(fresh));
                assert(scene.objects() =~= old(scene).objects().insert(n as u32, fresh));
                Ok(GameObject(n as u32))
            },
        }
    }

    /// The x-coordinate of the object's top-left corner.
    pub fn x<T: Copy>(&self, scene: &Scene<T>) -> (r: Result<T, HandleError>)
        ensures
            scene.objects().contains_key(self.spec_id()) ==> r == Ok::<T, HandleError>(
                scene.objects()[self.spec_id()].x,
            ),
            !scene.objects().contains_key(self.spec_id()) ==> r == Err::<T, HandleError>(
                HandleError::Stale,
            ),
    {
        match scene.lookup(self) {
            Some(o) => Ok(o.x),
            None => Err(HandleError::Stale),
        }
    }

    /// The y-coordinate of the object's top-left corner.
    pub fn y<T: Copy>(&self, scene: &Scene<T>) -> (r: Result<T, HandleError>)
        ensures
            scene.objects().contains_key(self.spec_id()) ==> r == Ok::<T, HandleError>(
                scene.objects()[self.spec_id()].y,
            ),
            !scene.objects().contains_key(self.spec_id()) ==> r == Err::<T, HandleError>(
                HandleError::Stale,
            ),
    {
        match scene.lookup(self) {
            Some(o) => Ok(o.y),
            None => Err(HandleError::Stale),
        }
    }

    /// Moves the object's top-left corner to `(x, y)`.
    pub fn set_position<T: Copy>(&self, scene: &mut Scene<T>, x: T, y: T) -> (r: Result<(), HandleError>)
        requires
            old(scene).wf(),
        ensures
            final(scene).objects() == apply_op(
                old(scene).objects(),
                old(scene).spec_unit(),
                SceneOp::SetPosition { id: self.spec_id(), x, y },
            ),
            final(scene).wf(),
            final(scene).materials() == old(scene).materials(),
            final(scene).spec_unit() == old(scene).spec_unit(),
            old(scene).objects().contains_key(self.spec_id()) ==> r == Ok::<(), HandleError>(())
                && final(scene).objects() == old(scene).objects().insert(
                self.spec_id(),
                moved(old(scene).objects()[self.spec_id()], x, y),
            ),
            !old(scene).objects().contains_key(self.spec_id()) ==> r == Err::<(), HandleError>(
                HandleError::Stale,
            ) && final(scene).objects() == old(scene).objects(),
    {
        match scene.lookup(self) {
            Some(o) => {
                let next = ObjectState {
                    x,
                    y,
                    scale_x: o.scale_x,
                    scale_y: o.scale_y,
                    material: o.material,
                };
                scene.slots.set(self.0 as usize, Some(next));
                assert(scene.objects() =~= old(scene).objects().insert(self.spec_id(), next));
                Ok(())
            },
            None => Err(HandleError::Stale),
        }
    }

    /// Sets the size of the object's bounding box.
    pub fn set_scale<T: Copy>(&self, scene: &mut Scene<T>, x: T, y: T) -> (r: Result<(), HandleError>)
        requires
            old(scene).wf(),
        ensures
            final(scene).objects() == apply_op(
                old(scene).objects(),
                old(scene).spec_unit(),
                SceneOp::SetScale { id: self.spec_id(), x, y },
            ),
            final(scene).wf(),
            final(scene).materials() == old(scene).materials(),
            final(scene).spec_unit() == old(scene).spec_unit(),
            old(scene).objects().contains_key(self.spec_id()) ==> r == Ok::<(), HandleError>(())
                && final(scene).objects() == old(scene).objects().insert(
                self.spec_id(),
                rescaled(old(scene).objects()[self.spec_id()], x, y),
            ),
            !old(scene).objects().contains_key(self.spec_id()) ==> r == Err::<(), HandleError>(
                HandleError::Stale,
            ) && final(scene).objects() == old(scene).objects(),
    {
        match scene.lookup(self) {
            Some(o) => {
                let next = ObjectState {
                    x: o.x,
                    y: o.y,
                    scale_x: x,
                    scale_y: y,
                    material: o.material,
                };
                scene.slots.set(self.0 as usize, Some(next));
                assert(scene.objects() =~= old(scene).objects().insert(self.spec_id(), next));
                Ok(())
            },
            None => Err(HandleError::Stale),
        }
    }

    /// Removes the object. Every copy of `h` is stale afterwards, and its id
    /// may be given to a later object.
    pub fn delete<T: Copy>(&self, scene: &mut Scene<T>) -> (r: Result<(), HandleError>)
        requires
            old(scene).wf(),
        ensures
            final(scene).objects() == apply_op(
                old(scene).objects(),
                old(scene).spec_unit(),
                SceneOp::Delete { id: self.spec_id() },
            ),
            final(scene).wf(),
            final(scene).materials() == old(scene).materials(),
            final(scene).spec_unit() == old(scene).spec_unit(),
            final(scene).objects() == old(scene).objects().remove(self.spec_id()),
            old(scene).objects().contains_key(self.spec_id()) ==> r == Ok::<(), HandleError>(()),
            !old(scene).objects().contains_key(self.spec_id()) ==> r == Err::<(), HandleError>(
                HandleError::Stale,
            ),
    {
        match scene.lookup(self) {
            Some(_) => {
                scene.slots.set(self.0 as usize, None);
                assert(scene.objects() =~= old(scene).objects().remove(self.spec_id()));
                Ok(())
            },
            None => {
                assert(scene.objects() =~= old(scene).objects().remove(self.spec_id()));
                Err(HandleError::Stale)
            },
        }
    }
}

impl Material {
    /// Creates a color material. Its id is the number of materials made
    /// before it.
    pub fn new<T: Copy>(r: T, g: T, b: T, scene: &mut Scene<T>) -> (res: Result<Material, HandleError>)
        requires
            old(scene).wf(),
        ensures
            final(scene).wf(),
            final(scene).objects() == old(scene).objects(),
            final(scene).spec_unit() == old(scene).spec_unit(),
            old(scene).materials().len() <= u32::MAX ==> res is Ok,
            old(scene).materials().len() > u32::MAX ==> res == Err::<Material, HandleError>(
                HandleError::Exhausted,
            ) && final(scene).materials() == old(scene).materials(),
            res matches Ok(m) ==> m.spec_id() == old(scene).materials().len() && final(scene).materials() == old(scene).materials().push(Color { r, g, b }),
    {
        let n = scene.colors.len();
        if n > u32::MAX as usize {
            return Err(HandleError::Exhausted);
        }
        scene.colors.push(Color { r, g, b });
        assert(scene.objects() =~= old(scene).objects());
        Ok(Material(n as u32))
    }
}

} // verus!
