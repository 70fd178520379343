//! Fixed-size containers for one instance of a feature.

use vstd::prelude::*;
use crate::landmark::Landmark;

verus! {

broadcast use vstd::array::group_array_axioms;

/// The number of landmarks of a pose.
pub const NUM_POSE_LANDMARKS: usize = 33;

/// The number of landmarks of a hand.
pub const NUM_HAND_LANDMARKS: usize = 21;

/// The number of landmarks of a face mesh.
pub const NUM_FACE_LANDMARKS: usize = 478;

/// `n` landmarks that are all zero.
pub open spec fn zeros(n: nat) -> Seq<Landmark> {
    Seq::new(n, |i: int| Landmark::zero())
}

/// An array of landmarks that are all zero.
fn zero_array<const N: usize>() -> (array: [Landmark; N])
    ensures
        array@ == zeros(N as nat),
{
    let zero = Landmark { x: 0, y: 0, z: 0, visibility: 0, presence: 0 };
    let array: [Landmark; N] = [zero;N];
    assert(array == vstd::array::spec_array_fill_for_copy_type::<Landmark, N>(zero));
    assert(array@ =~= zeros(N as nat));
    array
}

/// Copies a run of landmarks into an array, if it has the array's length.
fn to_array<const N: usize>(landmarks: &[Landmark]) -> (array: Option<[Landmark; N]>)
    ensures
        array is Some <==> landmarks@.len() == N,
        array matches Some(a) ==> a@ == landmarks@,
{
    if landmarks.len() != N {
        return None;
    }
    let mut array: [Landmark; N] = zero_array::<N>();
    let mut i: usize = 0;
    while i < N
        invariant
            i <= N,
            landmarks@.len() == N,
            forall|t: int| 0 <= t < i ==> array@[t] == landmarks@[t],
        decreases N - i,
    {
        array[i] = landmarks[i];
        i += 1;
    }
    assert(array@ =~= landmarks@);
    Some(array)
}

/// A detected pose, as 33 landmarks, indexed by `PoseLandmark`.
#[derive(Debug, Clone, Copy, PartialEq, Eq)]
pub struct Pose {
    pub data: [Landmark; 33],
}

impl Pose {
    /// Makes a pose of a run of landmarks, if there are 33 of them.
    pub fn from_landmarks(landmarks: &[Landmark]) -> (pose: Option<Pose>)
        ensures
            pose is Some <==> landmarks@.len() == NUM_POSE_LANDMARKS,
            pose matches Some(p) ==> p.data@ == landmarks@,
    {
        match to_array::<33>(landmarks) {
            Some(data) => Some(Pose { data }),
            None => None,
        }
    }
}

impl Default for Pose {
    fn default() -> (pose: Pose)
        ensures
            pose.data@ == zeros(NUM_POSE_LANDMARKS as nat),
    {
        Pose { data: zero_array::<33>() }
    }
}

/// A detected hand, as 21 landmarks, indexed by `HandLandmark`.
#[derive(Debug, Clone, Copy, PartialEq, Eq)]
pub struct Hand {
    pub data: [Landmark; 21],
}

impl Hand {
    /// Makes a hand of a run of landmarks, if there are 21 of them.
    pub fn from_landmarks(landmarks: &[Landmark]) -> (hand: Option<Hand>)
        ensures
            hand is Some <==> landmarks@.len() == NUM_HAND_LANDMARKS,
            hand matches Some(h) ==> h.data@ == landmarks@,
    {
        match to_array::<21>(landmarks) {
            Some(data) => Some(Hand { data }),
            None => None,
        }
    }
}

impl Default for Hand {
    fn default() -> (hand: Hand)
        ensures
            hand.data@ == zeros(NUM_HAND_LANDMARKS as nat),
    {
        Hand { data: zero_array::<21>() }
    }
}

/// A detected face mesh, as 478 landmarks.
#[derive(Debug, Clone, Copy, PartialEq, Eq)]
pub struct FaceMesh {
    pub data: [Landmark; 478],
}

impl FaceMesh {
    /// Makes a face mesh of a run of landmarks, if there are 478 of them.
    pub fn from_landmarks(landmarks: &[Landmark]) -> (face: Option<FaceMesh>)
        ensures
            face is Some <==> landmarks@.len() == NUM_FACE_LANDMARKS,
            face matches Some(f) ==> f.data@ == landmarks@,
    {
        match to_array::<478>(landmarks) {
            Some(data) => Some(FaceMesh { data }),
            None => None,
        }
    }
}

impl Default for FaceMesh {
    fn default() -> (face: FaceMesh)
        ensures
            face.data@ == zeros(NUM_FACE_LANDMARKS as nat),
    {
        FaceMesh { data: zero_array::<478>() }
    }
}

} // verus!
