//! What the feature detectors share: they fix the declared outputs of a
//! graph and read the nested result into fixed-size containers.

use vstd::prelude::*;
use vstd::utf8::is_ascii_chars_encode_utf8;
use crate::detector::{configuration_error, names_of, names_terminable, Detector, MAX_OUTPUTS};
use crate::effect::effect_error;
use crate::error::{ConfigurationError, ContractViolation};
use crate::feature::{FeatureType, Output};
use crate::instance::{FaceMesh, Hand, Pose};
use crate::landmark::Landmark;
use crate::layout::Detections;
use crate::text::terminable;

verus! {

/// Why a detector with fixed outputs gets no handle, if it gets none: the
/// configuration text holds a zero byte, or the engine returned no graph.
pub open spec fn fixed_error(config: Seq<char>, native: usize) -> Option<ConfigurationError> {
    if !terminable(config) {
        Some(ConfigurationError::InteriorNul)
    } else if native == 0 {
        Some(ConfigurationError::EngineRejected)
    } else {
        None
    }
}

/// Instance `j` of output `i` of a nested result, if there is one.
pub open spec fn instance_at(result: Detections, i: int, j: int) -> Option<Seq<Landmark>> {
    if 0 <= j < result[i].len() {
        Some(result[i][j])
    } else {
        None
    }
}

/// Every instance of the list has `n` landmarks.
pub open spec fn all_fit(instances: Seq<Seq<Landmark>>, n: nat) -> bool {
    forall|j: int| 0 <= j < instances.len() ==> (#[trigger] instances[j]).len() == n
}

/// The pose holds exactly the landmarks, or both are absent.
pub open spec fn holds_pose(pose: Option<Pose>, landmarks: Option<Seq<Landmark>>) -> bool {
    match (pose, landmarks) {
        (Some(p), Some(l)) => p.data@ == l,
        (None, None) => true,
        _ => false,
    }
}

/// The hand holds exactly the landmarks, or both are absent.
pub open spec fn holds_hand(hand: Option<Hand>, landmarks: Option<Seq<Landmark>>) -> bool {
    match (hand, landmarks) {
        (Some(h), Some(l)) => h.data@ == l,
        (None, None) => true,
        _ => false,
    }
}

/// The face mesh holds exactly the landmarks, or both are absent.
pub open spec fn holds_face(face: Option<FaceMesh>, landmarks: Option<Seq<Landmark>>) -> bool {
    match (face, landmarks) {
        (Some(f), Some(l)) => f.data@ == l,
        (None, None) => true,
        _ => false,
    }
}

/// A text of ASCII characters other than the zero character can be handed
/// over as a zero-terminated string.
pub proof fn lemma_ascii_terminable(text: Seq<char>)
    requires
        forall|i: int| 0 <= i < text.len() ==> '\0' < #[trigger] text[i] <= '\u{7f}',
    ensures
        terminable(text),
{
    is_ascii_chars_encode_utf8(text);
}

/// With between one and `MAX_OUTPUTS` outputs whose names hold no zero
/// byte, only the configuration text and the engine decide whether a handle
/// is made.
pub proof fn lemma_fixed_error(config: Seq<char>, names: Seq<Seq<char>>, native: usize)
    requires
        0 < names.len() <= MAX_OUTPUTS,
        names_terminable(names),
    ensures
        configuration_error(config, names, native) == fixed_error(config, native),
{
}

/// With a node name that holds no zero byte, only the configuration text
/// and the engine decide whether an effect handle is made.
pub proof fn lemma_fixed_effect_error(config: Seq<char>, node: Seq<char>, native: usize)
    requires
        terminable(node),
    ensures
        effect_error(config, node, native) == fixed_error(config, native),
{
}

/// Declares an output of the given kind on the node of the given name.
pub fn declare(type_: FeatureType, name: &str) -> (o: Output)
    ensures
        o.type_ == type_,
        o.name@ == name@,
{
    Output { type_, name: name.to_owned() }
}

/// Makes the handle of a graph whose outputs are fixed.
pub(crate) fn open_fixed(graph_config: &str, outputs: Vec<Output>, native: usize) -> (r: Result<
    Detector,
    ConfigurationError,
>)
    requires
        0 < outputs@.len() <= MAX_OUTPUTS,
        names_terminable(names_of(outputs@)),
    ensures
        match r {
            Ok(detector) => {
                &&& fixed_error(graph_config@, native) is None
                &&& *detector.outputs() == outputs
                &&& detector.handle() == native
            },
            Err(e) => fixed_error(graph_config@, native) == Some(e),
        },
{
    proof {
        lemma_fixed_error(graph_config@, names_of(outputs@), native);
    }
    Detector::new(graph_config, outputs, native)
}

/// Reads instance `j` of a list of instances as a pose.
pub fn pose_at(instances: &Vec<Vec<Landmark>>, j: usize) -> (r: Result<
    Option<Pose>,
    ContractViolation,
>)
    ensures
        match r {
            Ok(pose) => {
                &&& j < instances@.len() ==> instances@[j as int]@.len() == 33
                &&& holds_pose(
                    pose,
                    if j < instances@.len() {
                        Some(instances@[j as int]@)
                    } else {
                        None
                    },
                )
            },
            Err(e) => e == ContractViolation::InstanceSize && j < instances@.len()
                && instances@[j as int]@.len() != 33,
        },
{
    if j < instances.len() {
        match Pose::from_landmarks(instances[j].as_slice()) {
            Some(pose) => Ok(Some(pose)),
            None => Err(ContractViolation::InstanceSize),
        }
    } else {
        Ok(None)
    }
}

/// Reads instance `j` of a list of instances as a hand.
pub fn hand_at(instances: &Vec<Vec<Landmark>>, j: usize) -> (r: Result<
    Option<Hand>,
    ContractViolation,
>)
    ensures
        match r {
            Ok(hand) => {
                &&& j < instances@.len() ==> instances@[j as int]@.len() == 21
                &&& holds_hand(
                    hand,
                    if j < instances@.len() {
                        Some(instances@[j as int]@)
                    } else {
                        None
                    },
                )
            },
            Err(e) => e == ContractViolation::InstanceSize && j < instances@.len()
                && instances@[j as int]@.len() != 21,
        },
{
    if j < instances.len() {
        match Hand::from_landmarks(instances[j].as_slice()) {
            Some(hand) => Ok(Some(hand)),
            None => Err(ContractViolation::InstanceSize),
        }
    } else {
        Ok(None)
    }
}

/// Reads instance `j` of a list of instances as a face mesh.
pub fn face_at(instances: &Vec<Vec<Landmark>>, j: usize) -> (r: Result<
    Option<FaceMesh>,
    ContractViolation,
>)
    ensures
        match r {
            Ok(face) => {
                &&& j < instances@.len() ==> instances@[j as int]@.len() == 478
                &&& holds_face(
                    face,
                    if j < instances@.len() {
                        Some(instances@[j as int]@)
                    } else {
                        None
                    },
                )
            },
            Err(e) => e == ContractViolation::InstanceSize && j < instances@.len()
                && instances@[j as int]@.len() != 478,
        },
{
    if j < instances.len() {
        match FaceMesh::from_landmarks(instances[j].as_slice()) {
            Some(face) => Ok(Some(face)),
            None => Err(ContractViolation::InstanceSize),
        }
    } else {
        Ok(None)
    }
}

/// Reads every instance of a list as a hand, in order.
pub fn hands_of(instances: &Vec<Vec<Landmark>>) -> (r: Result<Vec<Hand>, ContractViolation>)
    ensures
        match r {
            Ok(list) => {
                &&& all_fit(instances.deep_view(), 21)
                &&& list@.len() == instances@.len()
                &&& forall|j: int|
                    0 <= j < list@.len() ==> (#[trigger] list@[j]).data@ == instances.deep_view()[j]
            },
            Err(e) => e == ContractViolation::InstanceSize && !all_fit(instances.deep_view(), 21),
        },
{
    let ghost nested = instances.deep_view();
    let mut list: Vec<Hand> = Vec::new();
    let mut j: usize = 0;
    while j < instances.len()
        invariant
            j <= instances@.len(),
            nested == instances.deep_view(),
            list@.len() == j,
            forall|t: int| 0 <= t < j ==> (#[trigger] nested[t]).len() == 21,
            forall|t: int| 0 <= t < j ==> (#[trigger] list@[t]).data@ == nested[t],
        decreases instances@.len() - j,
    {
        assert(nested[j as int] =~= instances@[j as int]@);
        match Hand::from_landmarks(instances[j].as_slice()) {
            Some(one) => {
                list.push(one);
            },
            None => {
                return Err(ContractViolation::InstanceSize);
            },
        }
        j += 1;
    }
    Ok(list)
}

/// Reads every instance of a list as a face mesh, in order.
pub fn faces_of(instances: &Vec<Vec<Landmark>>) -> (r: Result<Vec<FaceMesh>, ContractViolation>)
    ensures
        match r {
            Ok(list) => {
                &&& all_fit(instances.deep_view(), 478)
                &&& list@.len() == instances@.len()
                &&& forall|j: int|
                    0 <= j < list@.len() ==> (#[trigger] list@[j]).data@ == instances.deep_view()[j]
            },
            Err(e) => e == ContractViolation::InstanceSize && !all_fit(instances.deep_view(), 478),
        },
{
    let ghost nested = instances.deep_view();
    let mut list: Vec<FaceMesh> = Vec::new();
    let mut j: usize = 0;
    while j < instances.len()
        invariant
            j <= instances@.len(),
            nested == instances.deep_view(),
            list@.len() == j,
            forall|t: int| 0 <= t < j ==> (#[trigger] nested[t]).len() == 478,
            forall|t: int| 0 <= t < j ==> (#[trigger] list@[t]).data@ == nested[t],
        decreases instances@.len() - j,
    {
        assert(nested[j as int] =~= instances@[j as int]@);
        match FaceMesh::from_landmarks(instances[j].as_slice()) {
            Some(one) => {
                list.push(one);
            },
            None => {
                return Err(ContractViolation::InstanceSize);
            },
        }
        j += 1;
    }
    Ok(list)
}

} // verus!
