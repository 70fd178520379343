//! Pose detection.

use vstd::prelude::*;
use crate::adapter::{
    declare, fixed_error, holds_pose, instance_at, lemma_ascii_terminable, open_fixed, pose_at,
};
use crate::decode::RawResult;
use crate::detector::{
    decode_raw, names_of, names_terminable, raw_violation, result_of, Detector,
};
use crate::error::{ConfigurationError, ContractViolation};
use crate::feature::{FeatureType, Output};
use crate::instance::Pose;
use crate::layout::kinds_of;

verus! {

/// Pose landmark indices.
#[allow(non_camel_case_types)]
#[derive(Debug, Clone, Copy, PartialEq, Eq, Hash, Structural)]
pub enum PoseLandmark {
    NOSE,
    LEFT_EYE_INNER,
    LEFT_EYE,
    LEFT_EYE_OUTER,
    RIGHT_EYE_INNER,
    RIGHT_EYE,
    RIGHT_EYE_OUTER,
    LEFT_EAR,
    RIGHT_EAR,
    MOUTH_LEFT,
    MOUTH_RIGHT,
    LEFT_SHOULDER,
    RIGHT_SHOULDER,
    LEFT_ELBOW,
    RIGHT_ELBOW,
    LEFT_WRIST,
    RIGHT_WRIST,
    LEFT_PINKY,
    RIGHT_PINKY,
    LEFT_INDEX,
    RIGHT_INDEX,
    LEFT_THUMB,
    RIGHT_THUMB,
    LEFT_HIP,
    RIGHT_HIP,
    LEFT_KNEE,
    RIGHT_KNEE,
    LEFT_ANKLE,
    RIGHT_ANKLE,
    LEFT_HEEL,
    RIGHT_HEEL,
    LEFT_FOOT_INDEX,
    RIGHT_FOOT_INDEX,
}

impl PoseLandmark {
    /// The place of the landmark in the data of a `Pose`.
    pub open spec fn position(self) -> nat {
        match self {
            PoseLandmark::NOSE => 0,
            PoseLandmark::LEFT_EYE_INNER => 1,
            PoseLandmark::LEFT_EYE => 2,
            PoseLandmark::LEFT_EYE_OUTER => 3,
            PoseLandmark::RIGHT_EYE_INNER => 4,
            PoseLandmark::RIGHT_EYE => 5,
            PoseLandmark::RIGHT_EYE_OUTER => 6,
            PoseLandmark::LEFT_EAR => 7,
            PoseLandmark::RIGHT_EAR => 8,
            PoseLandmark::MOUTH_LEFT => 9,
            PoseLandmark::MOUTH_RIGHT => 10,
            PoseLandmark::LEFT_SHOULDER => 11,
            PoseLandmark::RIGHT_SHOULDER => 12,
            PoseLandmark::LEFT_ELBOW => 13,
            PoseLandmark::RIGHT_ELBOW => 14,
            PoseLandmark::LEFT_WRIST => 15,
            PoseLandmark::RIGHT_WRIST => 16,
            PoseLandmark::LEFT_PINKY => 17,
            PoseLandmark::RIGHT_PINKY => 18,
            PoseLandmark::LEFT_INDEX => 19,
            PoseLandmark::RIGHT_INDEX => 20,
            PoseLandmark::LEFT_THUMB => 21,
            PoseLandmark::RIGHT_THUMB => 22,
            PoseLandmark::LEFT_HIP => 23,
            PoseLandmark::RIGHT_HIP => 24,
            PoseLandmark::LEFT_KNEE => 25,
            PoseLandmark::RIGHT_KNEE => 26,
            PoseLandmark::LEFT_ANKLE => 27,
            PoseLandmark::RIGHT_ANKLE => 28,
            PoseLandmark::LEFT_HEEL => 29,
            PoseLandmark::RIGHT_HEEL => 30,
            PoseLandmark::LEFT_FOOT_INDEX => 31,
            PoseLandmark::RIGHT_FOOT_INDEX => 32,
        }
    }

    /// The place of the landmark in the data of a `Pose`: less than
    /// 33, and another for each landmark.
    pub fn index(self) -> (i: usize)
        ensures
            i == self.position(),
            i < 33,
    {
        match self {
            PoseLandmark::NOSE => 0,
            PoseLandmark::LEFT_EYE_INNER => 1,
            PoseLandmark::LEFT_EYE => 2,
            PoseLandmark::LEFT_EYE_OUTER => 3,
            PoseLandmark::RIGHT_EYE_INNER => 4,
            PoseLandmark::RIGHT_EYE => 5,
            PoseLandmark::RIGHT_EYE_OUTER => 6,
            PoseLandmark::LEFT_EAR => 7,
            PoseLandmark::RIGHT_EAR => 8,
            PoseLandmark::MOUTH_LEFT => 9,
            PoseLandmark::MOUTH_RIGHT => 10,
            PoseLandmark::LEFT_SHOULDER => 11,
            PoseLandmark::RIGHT_SHOULDER => 12,
            PoseLandmark::LEFT_ELBOW => 13,
            PoseLandmark::RIGHT_ELBOW => 14,
            PoseLandmark::LEFT_WRIST => 15,
            PoseLandmark::RIGHT_WRIST => 16,
            PoseLandmark::LEFT_PINKY => 17,
            PoseLandmark::RIGHT_PINKY => 18,
            PoseLandmark::LEFT_INDEX => 19,
            PoseLandmark::RIGHT_INDEX => 20,
            PoseLandmark::LEFT_THUMB => 21,
            PoseLandmark::RIGHT_THUMB => 22,
            PoseLandmark::LEFT_HIP => 23,
            PoseLandmark::RIGHT_HIP => 24,
            PoseLandmark::LEFT_KNEE => 25,
            PoseLandmark::RIGHT_KNEE => 26,
            PoseLandmark::LEFT_ANKLE => 27,
            PoseLandmark::RIGHT_ANKLE => 28,
            PoseLandmark::LEFT_HEEL => 29,
            PoseLandmark::RIGHT_HEEL => 30,
            PoseLandmark::LEFT_FOOT_INDEX => 31,
            PoseLandmark::RIGHT_FOOT_INDEX => 32,
        }
    }

    /// The landmark at a place, if the place is less than 33.
    pub fn from_index(i: usize) -> (l: Option<PoseLandmark>)
        ensures
            l is Some <==> i < 33,
            l matches Some(landmark) ==> landmark.position() == i,
    {
        match i {
            0 => Some(PoseLandmark::NOSE),
            1 => Some(PoseLandmark::LEFT_EYE_INNER),
            2 => Some(PoseLandmark::LEFT_EYE),
            3 => Some(PoseLandmark::LEFT_EYE_OUTER),
            4 => Some(PoseLandmark::RIGHT_EYE_INNER),
            5 => Some(PoseLandmark::RIGHT_EYE),
            6 => Some(PoseLandmark::RIGHT_EYE_OUTER),
            7 => Some(PoseLandmark::LEFT_EAR),
            8 => Some(PoseLandmark::RIGHT_EAR),
            9 => Some(PoseLandmark::MOUTH_LEFT),
            10 => Some(PoseLandmark::MOUTH_RIGHT),
            11 => Some(PoseLandmark::LEFT_SHOULDER),
            12 => Some(PoseLandmark::RIGHT_SHOULDER),
            13 => Some(PoseLandmark::LEFT_ELBOW),
            14 => Some(PoseLandmark::RIGHT_ELBOW),
            15 => Some(PoseLandmark::LEFT_WRIST),
            16 => Some(PoseLandmark::RIGHT_WRIST),
            17 => Some(PoseLandmark::LEFT_PINKY),
            18 => Some(PoseLandmark::RIGHT_PINKY),
            19 => Some(PoseLandmark::LEFT_INDEX),
            20 => Some(PoseLandmark::RIGHT_INDEX),
            21 => Some(PoseLandmark::LEFT_THUMB),
            22 => Some(PoseLandmark::RIGHT_THUMB),
            23 => Some(PoseLandmark::LEFT_HIP),
            24 => Some(PoseLandmark::RIGHT_HIP),
            25 => Some(PoseLandmark::LEFT_KNEE),
            26 => Some(PoseLandmark::RIGHT_KNEE),
            27 => Some(PoseLandmark::LEFT_ANKLE),
            28 => Some(PoseLandmark::RIGHT_ANKLE),
            29 => Some(PoseLandmark::LEFT_HEEL),
            30 => Some(PoseLandmark::RIGHT_HEEL),
            31 => Some(PoseLandmark::LEFT_FOOT_INDEX),
            32 => Some(PoseLandmark::RIGHT_FOOT_INDEX),
            _ => None,
        }
    }

    /// No two landmarks share a place, and every place is less than 33.
    pub proof fn position_injective(a: PoseLandmark, b: PoseLandmark)
        ensures
            a.position() < 33,
            a.position() == b.position() ==> a == b,
    {
    }
}

/// The features of the outputs that a pose graph declares.
pub open spec fn pose_kinds() -> Seq<FeatureType> {
    seq![FeatureType::Pose]
}

/// A detector of one pose per frame.
#[derive(Debug, PartialEq, Eq)]
pub struct PoseDetector {
    graph: Detector,
}

impl PoseDetector {
    #[verifier::type_invariant]
    spec fn declared(&self) -> bool {
        kinds_of(self.graph.outputs()@) == pose_kinds()
    }

    /// The address of the engine's graph.
    pub closed spec fn spec_handle(&self) -> usize {
        self.graph.handle()
    }

    /// The outputs that a pose graph declares: one pose, on the node
    /// `pose_landmarks`.
    pub fn outputs() -> (o: Vec<Output>)
        ensures
            o@.len() == 1,
            kinds_of(o@) == pose_kinds(),
            names_of(o@) == seq!["pose_landmarks"@],
            names_terminable(names_of(o@)),
    {
        let mut o: Vec<Output> = Vec::new();
        o.push(declare(FeatureType::Pose, "pose_landmarks"));
        proof {
            reveal_strlit("pose_landmarks");
            lemma_ascii_terminable("pose_landmarks"@);
            assert(kinds_of(o@) =~= pose_kinds());
            assert(names_of(o@) =~= seq!["pose_landmarks"@]);
        }
        o
    }

    /// Makes the detector of the graph that the engine created for a pose
    /// configuration and `PoseDetector::outputs()`. `native` is the address
    /// that the engine returned, zero where it returned no graph.
    pub fn new(graph_config: &str, native: usize) -> (r: Result<PoseDetector, ConfigurationError>)
        ensures
            match r {
                Ok(detector) => fixed_error(graph_config@, native) is None && detector.handle()
                    == native,
                Err(e) => fixed_error(graph_config@, native) == Some(e),
            },
    {
        match open_fixed(graph_config, PoseDetector::outputs(), native) {
            Ok(graph) => Ok(PoseDetector { graph }),
            Err(e) => Err(e),
        }
    }

    /// The address of the engine's graph. It is never zero.
    #[verifier::when_used_as_spec(spec_handle)]
    pub fn handle(&self) -> (h: usize)
        ensures
            h == self.spec_handle(),
            h != 0,
    {
        self.graph.handle()
    }

    /// Reads what the engine returned for a frame: the first pose, if one
    /// was detected.
    pub fn process(&mut self, raw: &RawResult) -> (r: Result<Option<Pose>, ContractViolation>)
        ensures
            *final(self) == *old(self),
            match r {
                Ok(pose) => {
                    &&& raw_violation(pose_kinds(), *raw) is None
                    &&& holds_pose(pose, instance_at(result_of(pose_kinds(), *raw), 0, 0))
                },
                Err(e) => raw_violation(pose_kinds(), *raw) == Some(e),
            },
    {
        proof {
            use_type_invariant(&*self);
        }
        let result = decode_raw(self.graph.outputs(), raw)?;
        let instances = &result[0];
        proof {
            let nested = result.deep_view();
            assert(nested[0] == instances.deep_view());
            if instances@.len() > 0 {
                assert(nested[0][0] == instances@[0].deep_view());
                assert(instances@[0].deep_view() =~= instances@[0]@);
            }
        }
        pose_at(instances, 0)
    }

    /// Gives the detector up. Returns the address of the graph, which the
    /// caller hands to the engine to be destroyed.
    pub fn destroy(self) -> (h: usize)
        ensures
            h == self.handle(),
            h != 0,
    {
        self.graph.destroy()
    }
}

} // verus!
