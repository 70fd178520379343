//! Feature types, the number of landmarks each one carries, and the
//! declaration of a graph output.

use vstd::prelude::*;

verus! {

/// The kind of visual feature that a graph output yields.
///
/// The engine has an enumeration of its own for the same kinds. The two are
/// one unit: a kind added here is added there, with its landmark count and
/// its engine code.
#[derive(Debug, Clone, Copy, PartialEq, Eq, Hash, Structural)]
pub enum FeatureType {
    Face,
    Faces,
    Hand,
    Hands,
    Pose,
    Poses,
}

impl FeatureType {
    /// The number of landmarks in one instance of this feature.
    pub open spec fn landmark_count(self) -> nat {
        match self {
            FeatureType::Face => 478,
            FeatureType::Faces => 478,
            FeatureType::Hand => 21,
            FeatureType::Hands => 42,
            FeatureType::Pose => 33,
            FeatureType::Poses => 33,
        }
    }

    /// The engine's code for this feature.
    pub open spec fn native_code(self) -> u32 {
        match self {
            FeatureType::Face => 0,
            FeatureType::Faces => 1,
            FeatureType::Hand => 2,
            FeatureType::Hands => 3,
            FeatureType::Pose => 4,
            FeatureType::Poses => 5,
        }
    }

    /// The feature that an engine code stands for, if it stands for one.
    pub open spec fn of_native_code(code: u32) -> Option<FeatureType> {
        if code == 0 {
            Some(FeatureType::Face)
        } else if code == 1 {
            Some(FeatureType::Faces)
        } else if code == 2 {
            Some(FeatureType::Hand)
        } else if code == 3 {
            Some(FeatureType::Hands)
        } else if code == 4 {
            Some(FeatureType::Pose)
        } else if code == 5 {
            Some(FeatureType::Poses)
        } else {
            None
        }
    }

    /// Looks up the number of landmarks in one instance of this feature.
    pub fn num_landmarks(&self) -> (n: usize)
        ensures
            n == self.landmark_count(),
            0 < n <= 478,
    {
        match self {
            FeatureType::Face => 478,
            FeatureType::Faces => 478,
            FeatureType::Hand => 21,
            FeatureType::Hands => 42,
            FeatureType::Pose => 33,
            FeatureType::Poses => 33,
        }
    }

    /// Gives the engine's code for this feature.
    pub fn to_native(self) -> (code: u32)
        ensures
            code == self.native_code(),
            FeatureType::of_native_code(code) == Some(self),
    {
        match self {
            FeatureType::Face => 0,
            FeatureType::Faces => 1,
            FeatureType::Hand => 2,
            FeatureType::Hands => 3,
            FeatureType::Pose => 4,
            FeatureType::Poses => 5,
        }
    }

    /// Reads an engine code back. `None` for a code that the engine does not
    /// define.
    pub fn from_native(code: u32) -> (t: Option<FeatureType>)
        ensures
            t == FeatureType::of_native_code(code),
            t is Some <==> code <= 5,
            t matches Some(f) ==> f.native_code() == code,
    {
        match code {
            0 => Some(FeatureType::Face),
            1 => Some(FeatureType::Faces),
            2 => Some(FeatureType::Hand),
            3 => Some(FeatureType::Hands),
            4 => Some(FeatureType::Pose),
            5 => Some(FeatureType::Poses),
            _ => None,
        }
    }

    /// Every feature comes back from its engine code, and no two features
    /// share a code.
    pub proof fn native_code_round_trip(a: FeatureType, b: FeatureType)
        ensures
            FeatureType::of_native_code(a.native_code()) == Some(a),
            a.native_code() == b.native_code() ==> a == b,
    {
    }
}

/// The declaration of a graph output: what kind of feature it yields, and the
/// name of the node of the graph that it taps.
#[derive(Debug, Clone, PartialEq, Eq)]
pub struct Output {
    pub type_: FeatureType,
    pub name: String,
}

impl Output {
    /// Declares an output of the given kind on the given node.
    pub fn new(type_: FeatureType, name: String) -> (o: Output)
        ensures
            o.type_ == type_,
            o.name == name,
    {
        Output { type_, name }
    }

    /// The kind of feature that this output yields.
    pub fn feature_type(&self) -> (t: FeatureType)
        ensures
            t == self.type_,
    {
        self.type_
    }

    /// The name of the node that this output taps.
    pub fn name(&self) -> (n: &str)
        ensures
            n@ == self.name@,
    {
        self.name.as_str()
    }
}

} // verus!
