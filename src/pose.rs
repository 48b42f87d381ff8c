//! The shared pose channel: a fixed buffer of keypoint scalars, written by
//! the host, decoded by value into named landmarks.

use vstd::prelude::*;

verus! {

/// Number of named landmarks in one pose snapshot.
pub const KEYPOINT_COUNT: usize = 17;

/// Number of scalars in the shared pose buffer: an x then a y per landmark.
pub const POSE_LEN: usize = 34;

/// One 2D landmark coordinate.
#[derive(Clone, Copy, Debug, PartialEq)]
pub struct Keypoint<T> {
    pub x: T,
    pub y: T,
}

/// A point-in-time copy of the pose buffer for one detection. Landmark `k`
/// occupies scalars `2k` (x) and `2k + 1` (y).
#[derive(Clone, Copy, Debug)]
pub struct Pose<T>(pub [T; 34]);

/// The landmark at index `k` of a raw buffer.
pub open spec fn keypoint_of<T>(data: Seq<T>, k: int) -> Keypoint<T> {
    Keypoint { x: data[2 * k], y: data[2 * k + 1] }
}

impl<T: Copy> Pose<T> {
    /// Copies the current buffer contents out into a snapshot, so that the
    /// guest never holds a reference into host-written memory.
    pub fn decode(buffer: &[T; 34]) -> (r: Pose<T>)
        ensures
            r == Pose(*buffer),
    {
        Pose(*buffer)
    }

    /// The landmark at `index`, read at its fixed offset.
    pub fn keypoint(&self, index: usize) -> (r: Keypoint<T>)
        requires
            index < KEYPOINT_COUNT,
        ensures
            r == keypoint_of(self.0@, index as int),
    {
        Keypoint { x: self.0[index * 2], y: self.0[index * 2 + 1] }
    }

    pub fn nose(&self) -> (r: Keypoint<T>)
        ensures
            r == keypoint_of(self.0@, 0),
    {
        self.keypoint(0)
    }

    pub fn left_eye(&self) -> (r: Keypoint<T>)
        ensures
            r == keypoint_of(self.0@, 1),
    {
        self.keypoint(1)
    }

    pub fn right_eye(&self) -> (r: Keypoint<T>)
        ensures
            r == keypoint_of(self.0@, 2),
    {
        self.keypoint(2)
    }

    pub fn left_ear(&self) -> (r: Keypoint<T>)
        ensures
            r == keypoint_of(self.0@, 3),
    {
        self.keypoint(3)
    }

    pub fn right_ear(&self) -> (r: Keypoint<T>)
        ensures
            r == keypoint_of(self.0@, 4),
    {
        self.keypoint(4)
    }

    pub fn left_shoulder(&self) -> (r: Keypoint<T>)
        ensures
            r == keypoint_of(self.0@, 5),
    {
        self.keypoint(5)
    }

    pub fn right_shoulder(&self) -> (r: Keypoint<T>)
        ensures
            r == keypoint_of(self.0@, 6),
    {
        self.keypoint(6)
    }

    pub fn left_elbow(&self) -> (r: Keypoint<T>)
        ensures
            r == keypoint_of(self.0@, 7),
    {
        self.keypoint(7)
    }

    pub fn right_elbow(&self) -> (r: Keypoint<T>)
        ensures
            r == keypoint_of(self.0@, 8),
    {
        self.keypoint(8)
    }

    pub fn left_wrist(&self) -> (r: Keypoint<T>)
        ensures
            r == keypoint_of(self.0@, 9),
    {
        self.keypoint(9)
    }

    pub fn right_wrist(&self) -> (r: Keypoint<T>)
        ensures
            r == keypoint_of(self.0@, 10),
    {
        self.keypoint(10)
    }

    pub fn left_hip(&self) -> (r: Keypoint<T>)
        ensures
            r == keypoint_of(self.0@, 11),
    {
        self.keypoint(11)
    }

    pub fn right_hip(&self) -> (r: Keypoint<T>)
        ensures
            r == keypoint_of(self.0@, 12),
    {
        self.keypoint(12)
    }

    pub fn left_knee(&self) -> (r: Keypoint<T>)
        ensures
            r == keypoint_of(self.0@, 13),
    {
        self.keypoint(13)
    }

    pub fn right_knee(&self) -> (r: Keypoint<T>)
        ensures
            r == keypoint_of(self.0@, 14),
    {
        self.keypoint(14)
    }

    pub fn left_ankle(&self) -> (r: Keypoint<T>)
        ensures
            r == keypoint_of(self.0@, 15),
    {
        self.keypoint(15)
    }

    pub fn right_ankle(&self) -> (r: Keypoint<T>)
        ensures
            r == keypoint_of(self.0@, 16),
    {
        self.keypoint(16)
    }
}

} // verus!
