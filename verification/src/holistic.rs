//! Holistic detection: pose, face and both hands of one person, or of
//! several.

use vstd::prelude::*;
use crate::adapter::{
    all_fit, declare, face_at, fixed_error, hand_at, holds_face, holds_hand, holds_pose,
    instance_at, lemma_ascii_terminable, open_fixed, pose_at,
};
use crate::decode::RawResult;
use crate::detector::{
    decode_raw, names_of, names_terminable, raw_violation, result_of, Detector,
};
use crate::error::{ConfigurationError, ContractViolation};
use crate::feature::{FeatureType, Output};
use crate::instance::{FaceMesh, Hand, Pose};
use crate::layout::{kinds_of, shaped, Detections};

verus! {

/// What was detected of one person. A part that was not detected is absent.
#[derive(Debug, Clone, Copy, PartialEq, Eq)]
pub struct HolisticDetection {
    pub pose: Option<Pose>,
    pub face: Option<FaceMesh>,
    pub left_hand: Option<Hand>,
    pub right_hand: Option<Hand>,
}

/// The features of the outputs that a holistic graph declares: pose, face,
/// left hand, right hand.
pub open spec fn holistic_kinds() -> Seq<FeatureType> {
    seq![FeatureType::Pose, FeatureType::Face, FeatureType::Hand, FeatureType::Hand]
}

/// The features of the outputs that a holistic graph for several persons
/// declares: poses, faces, left hands, right hands.
pub open spec fn multi_holistic_kinds() -> Seq<FeatureType> {
    seq![FeatureType::Poses, FeatureType::Faces, FeatureType::Hands, FeatureType::Hands]
}

/// The detection holds person `j` of a nested result of four outputs: each
/// part is instance `j` of its output, and is absent where the output has
/// no such instance.
pub open spec fn holds_person(detection: HolisticDetection, result: Detections, j: int) -> bool {
    &&& holds_pose(detection.pose, instance_at(result, 0, j))
    &&& holds_face(detection.face, instance_at(result, 1, j))
    &&& holds_hand(detection.left_hand, instance_at(result, 2, j))
    &&& holds_hand(detection.right_hand, instance_at(result, 3, j))
}

/// The number of persons in a nested result of four outputs: the largest
/// number of instances that one of the outputs has.
pub open spec fn persons(result: Detections) -> nat {
    let a = result[0].len();
    let b = result[1].len();
    let c = result[2].len();
    let d = result[3].len();
    let ab = if a >= b {
        a
    } else {
        b
    };
    let cd = if c >= d {
        c
    } else {
        d
    };
    if ab >= cd {
        ab
    } else {
        cd
    }
}

/// What is wrong with a raw result of a holistic graph for several persons,
/// if anything: what is wrong with it as a raw result, or else an instance
/// of a hand output that does not have the 21 landmarks of a hand.
pub open spec fn multi_holistic_violation(raw: RawResult) -> Option<ContractViolation> {
    let result = result_of(multi_holistic_kinds(), raw);
    if raw_violation(multi_holistic_kinds(), raw) is Some {
        raw_violation(multi_holistic_kinds(), raw)
    } else if !all_fit(result[2], 21) || !all_fit(result[3], 21) {
        Some(ContractViolation::InstanceSize)
    } else {
        None
    }
}

/// The larger of two numbers.
fn larger(a: usize, b: usize) -> (m: usize)
    ensures
        m == if a >= b {
            a
        } else {
            b
        },
{
    if a >= b {
        a
    } else {
        b
    }
}

/// A detector of the pose, the face and the hands of one person.
#[derive(Debug, PartialEq, Eq)]
pub struct HolisticDetector {
    graph: Detector,
}

impl HolisticDetector {
    #[verifier::type_invariant]
    spec fn declared(&self) -> bool {
        kinds_of(self.graph.outputs()@) == holistic_kinds()
    }

    /// The address of the engine's graph.
    pub closed spec fn spec_handle(&self) -> usize {
        self.graph.handle()
    }

    /// The outputs that a holistic graph declares, in this order: the pose
    /// on `pose_landmarks`, the face on `face_landmarks`, and one hand each
    /// on `left_hand_landmarks` and `right_hand_landmarks`.
    pub fn outputs() -> (o: Vec<Output>)
        ensures
            o@.len() == 4,
            kinds_of(o@) == holistic_kinds(),
            names_of(o@) == seq![
                "pose_landmarks"@,
                "face_landmarks"@,
                "left_hand_landmarks"@,
                "right_hand_landmarks"@,
            ],
            names_terminable(names_of(o@)),
    {
        let mut o: Vec<Output> = Vec::new();
        o.push(declare(FeatureType::Pose, "pose_landmarks"));
        o.push(declare(FeatureType::Face, "face_landmarks"));
        o.push(declare(FeatureType::Hand, "left_hand_landmarks"));
        o.push(declare(FeatureType::Hand, "right_hand_landmarks"));
        proof {
            reveal_strlit("pose_landmarks");
            reveal_strlit("face_landmarks");
            reveal_strlit("left_hand_landmarks");
            reveal_strlit("right_hand_landmarks");
            lemma_ascii_terminable("pose_landmarks"@);
            lemma_ascii_terminable("face_landmarks"@);
            lemma_ascii_terminable("left_hand_landmarks"@);
            lemma_ascii_terminable("right_hand_landmarks"@);
            assert(kinds_of(o@) =~= holistic_kinds());
            assert(names_of(o@) =~= seq![
                "pose_landmarks"@,
                "face_landmarks"@,
                "left_hand_landmarks"@,
                "right_hand_landmarks"@,
            ]);
        }
        o
    }

    /// Makes the detector of the graph that the engine created for a
    /// holistic configuration and `HolisticDetector::outputs()`. `native` is
    /// the address that the engine returned, zero where it returned no graph.
    pub fn new(graph_config: &str, native: usize) -> (r: Result<
        HolisticDetector,
        ConfigurationError,
    >)
        ensures
            match r {
                Ok(detector) => fixed_error(graph_config@, native) is None && detector.handle()
                    == native,
                Err(e) => fixed_error(graph_config@, native) == Some(e),
            },
    {
        match open_fixed(graph_config, HolisticDetector::outputs(), native) {
            Ok(graph) => Ok(HolisticDetector { graph }),
            Err(e) => Err(e),
        }
    }

    /// The address of the engine's graph. It is never zero.
    #[verifier::when_used_as_spec(spec_handle)]
    pub fn handle(&self) -> (h: usize)
        ensures
            h == self.spec_handle(),
            h != 0,
    {
        self.graph.handle()
    }

    /// Reads what the engine returned for a frame: of each of the four
    /// outputs the first instance, where it has one.
    pub fn process(&mut self, raw: &RawResult) -> (r: Result<
        HolisticDetection,
        ContractViolation,
    >)
        ensures
            *final(self) == *old(self),
            match r {
                Ok(detection) => {
                    &&& raw_violation(holistic_kinds(), *raw) is None
                    &&& holds_person(detection, result_of(holistic_kinds(), *raw), 0)
                },
                Err(e) => raw_violation(holistic_kinds(), *raw) == Some(e),
            },
    {
        proof {
            use_type_invariant(&*self);
        }
        let landmarks = decode_raw(self.graph.outputs(), raw)?;
        proof {
            lemma_parts(landmarks, 0);
        }
        let pose = pose_at(&landmarks[0], 0)?;
        let face = face_at(&landmarks[1], 0)?;
        let left_hand = hand_at(&landmarks[2], 0)?;
        let right_hand = hand_at(&landmarks[3], 0)?;
        Ok(HolisticDetection { pose, face, left_hand, right_hand })
    }

    /// Gives the detector up. Returns the address of the graph, which the
    /// caller hands to the engine to be destroyed.
    pub fn destroy(self) -> (h: usize)
        ensures
            h == self.handle(),
            h != 0,
    {
        self.graph.destroy()
    }
}

/// Person `j` of a decoded result, output by output: what the nested lists
/// hold at `j` is what the model has there.
proof fn lemma_parts(landmarks: Vec<Vec<Vec<crate::landmark::Landmark>>>, j: int)
    requires
        landmarks@.len() == 4,
    ensures
        forall|i: int|
            0 <= i < 4 ==> (#[trigger] landmarks.deep_view()[i]).len() == landmarks@[i]@.len(),
        forall|i: int|
            0 <= i < 4 && 0 <= j < landmarks@[i]@.len() ==> (#[trigger] landmarks.deep_view()[i])[j]
                == landmarks@[i]@[j]@,
{
    assert forall|i: int| 0 <= i < 4 && 0 <= j < landmarks@[i]@.len() implies (
    #[trigger] landmarks.deep_view()[i])[j] == landmarks@[i]@[j]@ by {
        assert(landmarks.deep_view()[i] == landmarks@[i].deep_view());
        assert(landmarks@[i].deep_view()[j] == landmarks@[i]@[j].deep_view());
        assert(landmarks@[i]@[j].deep_view() =~= landmarks@[i]@[j]@);
    }
}

/// A detector of the poses, the faces and the hands of several persons.
#[derive(Debug, PartialEq, Eq)]
pub struct MultiPersonHolisticDetector {
    graph: Detector,
}

impl MultiPersonHolisticDetector {
    #[verifier::type_invariant]
    spec fn declared(&self) -> bool {
        kinds_of(self.graph.outputs()@) == multi_holistic_kinds()
    }

    /// The address of the engine's graph.
    pub closed spec fn spec_handle(&self) -> usize {
        self.graph.handle()
    }

    /// The outputs that a holistic graph for several persons declares, in
    /// this order: the poses on `multi_pose_landmarks`, the faces on
    /// `multi_face_landmarks`, and the hands on `multi_left_hand_landmarks`
    /// and `multi_right_hand_landmarks`.
    pub fn outputs() -> (o: Vec<Output>)
        ensures
            o@.len() == 4,
            kinds_of(o@) == multi_holistic_kinds(),
            names_of(o@) == seq![
                "multi_pose_landmarks"@,
                "multi_face_landmarks"@,
                "multi_left_hand_landmarks"@,
                "multi_right_hand_landmarks"@,
            ],
            names_terminable(names_of(o@)),
    {
        let mut o: Vec<Output> = Vec::new();
        o.push(declare(FeatureType::Poses, "multi_pose_landmarks"));
        o.push(declare(FeatureType::Faces, "multi_face_landmarks"));
        o.push(declare(FeatureType::Hands, "multi_left_hand_landmarks"));
        o.push(declare(FeatureType::Hands, "multi_right_hand_landmarks"));
        proof {
            reveal_strlit("multi_pose_landmarks");
            reveal_strlit("multi_face_landmarks");
            reveal_strlit("multi_left_hand_landmarks");
            reveal_strlit("multi_right_hand_landmarks");
            lemma_ascii_terminable("multi_pose_landmarks"@);
            lemma_ascii_terminable("multi_face_landmarks"@);
            lemma_ascii_terminable("multi_left_hand_landmarks"@);
            lemma_ascii_terminable("multi_right_hand_landmarks"@);
            assert(kinds_of(o@) =~= multi_holistic_kinds());
            assert(names_of(o@) =~= seq![
                "multi_pose_landmarks"@,
                "multi_face_landmarks"@,
                "multi_left_hand_landmarks"@,
                "multi_right_hand_landmarks"@,
            ]);
        }
        o
    }

    /// Makes the detector of the graph that the engine created for a
    /// configuration and `MultiPersonHolisticDetector::outputs()`. `native`
    /// is the address that the engine returned, zero where it returned no
    /// graph.
    pub fn new(graph_config: &str, native: usize) -> (r: Result<
        MultiPersonHolisticDetector,
        ConfigurationError,
    >)
        ensures
            match r {
                Ok(detector) => fixed_error(graph_config@, native) is None && detector.handle()
                    == native,
                Err(e) => fixed_error(graph_config@, native) == Some(e),
            },
    {
        match open_fixed(graph_config, MultiPersonHolisticDetector::outputs(), native) {
            Ok(graph) => Ok(MultiPersonHolisticDetector { graph }),
            Err(e) => Err(e),
        }
    }

    /// The address of the engine's graph. It is never zero.
    #[verifier::when_used_as_spec(spec_handle)]
    pub fn handle(&self) -> (h: usize)
        ensures
            h == self.spec_handle(),
            h != 0,
    {
        self.graph.handle()
    }

    /// Reads what the engine returned for a frame: one detection per
    /// person, as many as the longest of the four outputs has instances.
    /// Person `j` has of each output its instance `j`, where there is one.
    ///
    /// A hand is read as a `Hand`, which holds 21 landmarks. The hand
    /// outputs are of the kind `Hands`, whose instances are 42 landmarks
    /// long: such an instance does not fit, and is reported as
    /// `InstanceSize`. So the list comes back only where no hand was
    /// detected.
    pub fn process(&mut self, raw: &RawResult) -> (r: Result<
        Vec<HolisticDetection>,
        ContractViolation,
    >)
        ensures
            *final(self) == *old(self),
            match r {
                Ok(detections) => {
                    &&& multi_holistic_violation(*raw) is None
                    &&& detections@.len() == persons(result_of(multi_holistic_kinds(), *raw))
                    &&& forall|j: int|
                        0 <= j < detections@.len() ==> holds_person(
                            #[trigger] detections@[j],
                            result_of(multi_holistic_kinds(), *raw),
                            j,
                        )
                },
                Err(e) => multi_holistic_violation(*raw) == Some(e),
            },
            r is Ok <==> {
                &&& raw_violation(multi_holistic_kinds(), *raw) is None
                &&& result_of(multi_holistic_kinds(), *raw)[2].len() == 0
                &&& result_of(multi_holistic_kinds(), *raw)[3].len() == 0
            },
    {
        proof {
            use_type_invariant(&*self);
        }
        let landmarks = decode_raw(self.graph.outputs(), raw)?;
        let ghost result = landmarks.deep_view();
        proof {
            lemma_parts(landmarks, 0);
            if result[2].len() > 0 {
                assert(result[2][0].len() == 42);
            }
            if result[3].len() > 0 {
                assert(result[3][0].len() == 42);
            }
        }
        let max_landmarks = larger(
            larger(landmarks[0].len(), landmarks[1].len()),
            larger(landmarks[2].len(), landmarks[3].len()),
        );
        let mut detections: Vec<HolisticDetection> = Vec::new();
        let mut i: usize = 0;
        while i < max_landmarks
            invariant
                i <= max_landmarks,
                max_landmarks == persons(result),
                landmarks@.len() == 4,
                result == landmarks.deep_view(),
                result == result_of(multi_holistic_kinds(), *raw),
                raw_violation(multi_holistic_kinds(), *raw) is None,
                shaped(multi_holistic_kinds(), result),
                detections@.len() == i,
                forall|j: int|
                    0 <= j < i ==> holds_person(#[trigger] detections@[j], result, j),
                forall|j: int| 0 <= j < i && j < result[2].len() ==> (#[trigger] result[2][j]).len()
                    == 21,
                forall|j: int| 0 <= j < i && j < result[3].len() ==> (#[trigger] result[3][j]).len()
                    == 21,
            decreases max_landmarks - i,
        {
            proof {
                lemma_parts(landmarks, i as int);
            }
            let pose = pose_at(&landmarks[0], i)?;
            let face = face_at(&landmarks[1], i)?;
            let left_hand = hand_at(&landmarks[2], i)?;
            let right_hand = hand_at(&landmarks[3], i)?;
            detections.push(HolisticDetection { pose, face, left_hand, right_hand });
            i += 1;
        }
        Ok(detections)
    }

    /// Gives the detector up. Returns the address of the graph, which the
    /// caller hands to the engine to be destroyed.
    pub fn destroy(self) -> (h: usize)
        ensures
            h == self.handle(),
            h != 0,
    {
        self.graph.destroy()
    }
}

} // verus!
