//! Hand detection, and the effect that draws the detected hands.

use vstd::prelude::*;
use crate::adapter::{
    all_fit, declare, fixed_error, hands_of, lemma_ascii_terminable, lemma_fixed_effect_error,
    open_fixed,
};
use crate::decode::RawResult;
use crate::detector::{
    decode_raw, names_of, names_terminable, raw_violation, result_of, Detector,
};
use crate::effect::{Effect, EffectFrame};
use crate::error::{ConfigurationError, ContractViolation};
use crate::feature::{FeatureType, Output};
use crate::frame::Frame;
use crate::instance::Hand;
use crate::layout::kinds_of;

pub use crate::instance::NUM_HAND_LANDMARKS;

verus! {

/// Hand landmark indices.
#[allow(non_camel_case_types)]
#[derive(Debug, Clone, Copy, PartialEq, Eq, Hash, Structural)]
pub enum HandLandmark {
    WRIST,
    THUMB_CMC,
    THUMB_MCP,
    THUMB_IP,
    THUMB_TIP,
    INDEX_FINGER_MCP,
    INDEX_FINGER_PIP,
    INDEX_FINGER_DIP,
    INDEX_FINGER_TIP,
    MIDDLE_FINGER_MCP,
    MIDDLE_FINGER_PIP,
    MIDDLE_FINGER_DIP,
    MIDDLE_FINGER_TIP,
    RING_FINGER_MCP,
    RING_FINGER_PIP,
    RING_FINGER_DIP,
    RING_FINGER_TIP,
    PINKY_MCP,
    PINKY_PIP,
    PINKY_DIP,
    PINKY_TIP,
}

impl HandLandmark {
    /// The place of the landmark in the data of a `Hand`.
    pub open spec fn position(self) -> nat {
        match self {
            HandLandmark::WRIST => 0,
            HandLandmark::THUMB_CMC => 1,
            HandLandmark::THUMB_MCP => 2,
            HandLandmark::THUMB_IP => 3,
            HandLandmark::THUMB_TIP => 4,
            HandLandmark::INDEX_FINGER_MCP => 5,
            HandLandmark::INDEX_FINGER_PIP => 6,
            HandLandmark::INDEX_FINGER_DIP => 7,
            HandLandmark::INDEX_FINGER_TIP => 8,
            HandLandmark::MIDDLE_FINGER_MCP => 9,
            HandLandmark::MIDDLE_FINGER_PIP => 10,
            HandLandmark::MIDDLE_FINGER_DIP => 11,
            HandLandmark::MIDDLE_FINGER_TIP => 12,
            HandLandmark::RING_FINGER_MCP => 13,
            HandLandmark::RING_FINGER_PIP => 14,
            HandLandmark::RING_FINGER_DIP => 15,
            HandLandmark::RING_FINGER_TIP => 16,
            HandLandmark::PINKY_MCP => 17,
            HandLandmark::PINKY_PIP => 18,
            HandLandmark::PINKY_DIP => 19,
            HandLandmark::PINKY_TIP => 20,
        }
    }

    /// The place of the landmark in the data of a `Hand`: less than
    /// 21, and another for each landmark.
    pub fn index(self) -> (i: usize)
        ensures
            i == self.position(),
            i < 21,
    {
        match self {
            HandLandmark::WRIST => 0,
            HandLandmark::THUMB_CMC => 1,
            HandLandmark::THUMB_MCP => 2,
            HandLandmark::THUMB_IP => 3,
            HandLandmark::THUMB_TIP => 4,
            HandLandmark::INDEX_FINGER_MCP => 5,
            HandLandmark::INDEX_FINGER_PIP => 6,
            HandLandmark::INDEX_FINGER_DIP => 7,
            HandLandmark::INDEX_FINGER_TIP => 8,
            HandLandmark::MIDDLE_FINGER_MCP => 9,
            HandLandmark::MIDDLE_FINGER_PIP => 10,
            HandLandmark::MIDDLE_FINGER_DIP => 11,
            HandLandmark::MIDDLE_FINGER_TIP => 12,
            HandLandmark::RING_FINGER_MCP => 13,
            HandLandmark::RING_FINGER_PIP => 14,
            HandLandmark::RING_FINGER_DIP => 15,
            HandLandmark::RING_FINGER_TIP => 16,
            HandLandmark::PINKY_MCP => 17,
            HandLandmark::PINKY_PIP => 18,
            HandLandmark::PINKY_DIP => 19,
            HandLandmark::PINKY_TIP => 20,
        }
    }

    /// The landmark at a place, if the place is less than 21.
    pub fn from_index(i: usize) -> (l: Option<HandLandmark>)
        ensures
            l is Some <==> i < 21,
            l matches Some(landmark) ==> landmark.position() == i,
    {
        match i {
            0 => Some(HandLandmark::WRIST),
            1 => Some(HandLandmark::THUMB_CMC),
            2 => Some(HandLandmark::THUMB_MCP),
            3 => Some(HandLandmark::THUMB_IP),
            4 => Some(HandLandmark::THUMB_TIP),
            5 => Some(HandLandmark::INDEX_FINGER_MCP),
            6 => Some(HandLandmark::INDEX_FINGER_PIP),
            7 => Some(HandLandmark::INDEX_FINGER_DIP),
            8 => Some(HandLandmark::INDEX_FINGER_TIP),
            9 => Some(HandLandmark::MIDDLE_FINGER_MCP),
            10 => Some(HandLandmark::MIDDLE_FINGER_PIP),
            11 => Some(HandLandmark::MIDDLE_FINGER_DIP),
            12 => Some(HandLandmark::MIDDLE_FINGER_TIP),
            13 => Some(HandLandmark::RING_FINGER_MCP),
            14 => Some(HandLandmark::RING_FINGER_PIP),
            15 => Some(HandLandmark::RING_FINGER_DIP),
            16 => Some(HandLandmark::RING_FINGER_TIP),
            17 => Some(HandLandmark::PINKY_MCP),
            18 => Some(HandLandmark::PINKY_PIP),
            19 => Some(HandLandmark::PINKY_DIP),
            20 => Some(HandLandmark::PINKY_TIP),
            _ => None,
        }
    }

    /// No two landmarks share a place, and every place is less than 21.
    pub proof fn position_injective(a: HandLandmark, b: HandLandmark)
        ensures
            a.position() < 21,
            a.position() == b.position() ==> a == b,
    {
    }
}

/// The features of the outputs that a hand graph declares.
pub open spec fn hand_kinds() -> Seq<FeatureType> {
    seq![FeatureType::Hands]
}

/// What is wrong with a raw result of a hand graph, if anything: what is
/// wrong with it as a raw result, or else an instance that does not have
/// the 21 landmarks of a hand.
pub open spec fn hands_violation(raw: RawResult) -> Option<ContractViolation> {
    if raw_violation(hand_kinds(), raw) is Some {
        raw_violation(hand_kinds(), raw)
    } else if !all_fit(result_of(hand_kinds(), raw)[0], 21) {
        Some(ContractViolation::InstanceSize)
    } else {
        None
    }
}

/// A detector of the hands in a frame.
#[derive(Debug, PartialEq, Eq)]
pub struct HandDetector {
    graph: Detector,
}

impl HandDetector {
    #[verifier::type_invariant]
    spec fn declared(&self) -> bool {
        kinds_of(self.graph.outputs()@) == hand_kinds()
    }

    /// The address of the engine's graph.
    pub closed spec fn spec_handle(&self) -> usize {
        self.graph.handle()
    }

    /// The outputs that a hand graph declares: the hands, on the node
    /// `hand_landmarks`.
    pub fn outputs() -> (o: Vec<Output>)
        ensures
            o@.len() == 1,
            kinds_of(o@) == hand_kinds(),
            names_of(o@) == seq!["hand_landmarks"@],
            names_terminable(names_of(o@)),
    {
        let mut o: Vec<Output> = Vec::new();
        o.push(declare(FeatureType::Hands, "hand_landmarks"));
        proof {
            reveal_strlit("hand_landmarks");
            lemma_ascii_terminable("hand_landmarks"@);
            assert(kinds_of(o@) =~= hand_kinds());
            assert(names_of(o@) =~= seq!["hand_landmarks"@]);
        }
        o
    }

    /// Makes the detector of the graph that the engine created for a hand
    /// configuration and `HandDetector::outputs()`. `native` is the address
    /// that the engine returned, zero where it returned no graph.
    pub fn new(graph_config: &str, native: usize) -> (r: Result<HandDetector, ConfigurationError>)
        ensures
            match r {
                Ok(detector) => fixed_error(graph_config@, native) is None && detector.handle()
                    == native,
                Err(e) => fixed_error(graph_config@, native) == Some(e),
            },
    {
        match open_fixed(graph_config, HandDetector::outputs(), native) {
            Ok(graph) => Ok(HandDetector { graph }),
            Err(e) => Err(e),
        }
    }

    /// The address of the engine's graph. It is never zero.
    #[verifier::when_used_as_spec(spec_handle)]
    pub fn handle(&self) -> (h: usize)
        ensures
            h == self.spec_handle(),
            h != 0,
    {
        self.graph.handle()
    }

    /// Reads what the engine returned for a frame: the detected hands, in
    /// the engine's order.
    ///
    /// Every instance is read as a `Hand`, which holds 21 landmarks. The
    /// graph's output is of the kind `Hands`, whose instances are 42
    /// landmarks long: such an instance does not fit, and is reported as
    /// `InstanceSize`. So the list comes back only where it is empty.
    pub fn process(&mut self, raw: &RawResult) -> (r: Result<Vec<Hand>, ContractViolation>)
        ensures
            *final(self) == *old(self),
            match r {
                Ok(hands) => {
                    &&& hands_violation(*raw) is None
                    &&& hands@.len() == result_of(hand_kinds(), *raw)[0].len()
                    &&& forall|j: int|
                        0 <= j < hands@.len() ==> (#[trigger] hands@[j]).data@ == result_of(
                            hand_kinds(),
                            *raw,
                        )[0][j]
                },
                Err(e) => hands_violation(*raw) == Some(e),
            },
            r is Ok <==> raw_violation(hand_kinds(), *raw) is None && result_of(
                hand_kinds(),
                *raw,
            )[0].len() == 0,
    {
        proof {
            use_type_invariant(&*self);
        }
        let result = decode_raw(self.graph.outputs(), raw)?;
        let instances = &result[0];
        proof {
            let nested = result.deep_view();
            assert(nested[0] == instances.deep_view());
            if nested[0].len() > 0 {
                assert(nested[0][0].len() == 42);
            }
        }
        hands_of(instances)
    }

    /// Gives the detector up. Returns the address of the graph, which the
    /// caller hands to the engine to be destroyed.
    pub fn destroy(self) -> (h: usize)
        ensures
            h == self.handle(),
            h != 0,
    {
        self.graph.destroy()
    }
}

/// The effect that draws the detected hands into the frame.
#[derive(Debug, PartialEq, Eq)]
pub struct HandVisualizer {
    graph: Effect,
}

impl HandVisualizer {
    /// The address of the engine's graph.
    pub closed spec fn spec_handle(&self) -> usize {
        self.graph.handle()
    }

    /// Makes the visualizer of the graph that the engine created for a hand
    /// configuration and the node `output_video`. `native` is the address
    /// that the engine returned, zero where it returned no graph.
    pub fn new(graph_config: &str, native: usize) -> (r: Result<
        HandVisualizer,
        ConfigurationError,
    >)
        ensures
            match r {
                Ok(visualizer) => fixed_error(graph_config@, native) is None
                    && visualizer.handle() == native,
                Err(e) => fixed_error(graph_config@, native) == Some(e),
            },
    {
        proof {
            reveal_strlit("output_video");
            lemma_ascii_terminable("output_video"@);
            lemma_fixed_effect_error(graph_config@, "output_video"@, native);
        }
        match Effect::new(graph_config, "output_video", native) {
            Ok(graph) => Ok(HandVisualizer { graph }),
            Err(e) => Err(e),
        }
    }

    /// The address of the engine's graph. It is never zero.
    #[verifier::when_used_as_spec(spec_handle)]
    pub fn handle(&self) -> (h: usize)
        ensures
            h == self.spec_handle(),
            h != 0,
    {
        self.graph.handle()
    }

    /// Takes over the pixel buffer that the engine returned for a frame.
    /// The output frame has the dimensions of the input.
    pub fn process(&mut self, input: &Frame, buffer: usize) -> (r: Result<
        EffectFrame,
        ContractViolation,
    >)
        ensures
            *final(self) == *old(self),
            match r {
                Ok(frame) => {
                    &&& buffer != 0
                    &&& frame.buffer() == buffer
                    &&& frame.width() == input.width()
                    &&& frame.height() == input.height()
                    &&& frame.channels() == input.channels()
                },
                Err(e) => buffer == 0 && e == ContractViolation::NullBuffer,
            },
    {
        self.graph.process(input, buffer)
    }

    /// Gives the visualizer up. Returns the address of the graph, which the
    /// caller hands to the engine to be destroyed.
    pub fn destroy(self) -> (h: usize)
        ensures
            h == self.handle(),
            h != 0,
    {
        self.graph.destroy()
    }
}

} // verus!
