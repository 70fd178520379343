//! The handle of a detection graph.
//!
//! The engine is called by the program around this crate. What is decided
//! about a graph is decided here: whether a configuration may be handed to
//! the engine at all, what the engine's answer makes of it, how a frame's
//! raw result is read, and that a handle is given up once.

use vstd::prelude::*;
use crate::decode::{decode, expected_records, DetectionResult, RawResult};
use crate::error::{ConfigurationError, ContractViolation};
use crate::feature::Output;
use crate::layout::{
    declared_records, decoded, kinds_of, no_detections, shaped, violation, Detections,
};
use crate::feature::FeatureType;
use crate::text::{is_terminable, terminable};

verus! {

/// The largest number of outputs that the engine can be told of.
pub const MAX_OUTPUTS: usize = 255;

/// The node names of a list of outputs, in declared order.
pub open spec fn names_of(outputs: Seq<Output>) -> Seq<Seq<char>> {
    Seq::new(outputs.len(), |i: int| outputs[i].name@)
}

/// Every name can be handed over as a zero-terminated string.
pub open spec fn names_terminable(names: Seq<Seq<char>>) -> bool {
    forall|i: int| 0 <= i < names.len() ==> terminable(#[trigger] names[i])
}

/// What keeps a configuration from being handed to the engine, if anything.
/// `names` are the node names of the declared outputs.
pub open spec fn request_error(config: Seq<char>, names: Seq<Seq<char>>) -> Option<
    ConfigurationError,
> {
    if names.len() == 0 {
        Some(ConfigurationError::NoOutputs)
    } else if names.len() > MAX_OUTPUTS {
        Some(ConfigurationError::TooManyOutputs)
    } else if !terminable(config) || !names_terminable(names) {
        Some(ConfigurationError::InteriorNul)
    } else {
        None
    }
}

/// A configuration is well formed when nothing keeps it from being handed
/// to the engine: it declares at least one and at most `MAX_OUTPUTS`
/// outputs, and neither its text nor a node name holds a zero byte.
pub open spec fn well_formed(config: Seq<char>, names: Seq<Seq<char>>) -> bool {
    request_error(config, names) is None
}

/// Why a configuration and the engine's answer to it give no handle, if
/// they give none. `native` is the address of the graph that the engine
/// returned, zero where it returned none.
pub open spec fn configuration_error(config: Seq<char>, names: Seq<Seq<char>>, native: usize)
    -> Option<ConfigurationError> {
    if request_error(config, names) is Some {
        request_error(config, names)
    } else if native == 0 {
        Some(ConfigurationError::EngineRejected)
    } else {
        None
    }
}

/// The nested result that a raw result stands for.
pub open spec fn result_of(kinds: Seq<FeatureType>, raw: RawResult) -> Detections {
    match raw {
        RawResult::Null => no_detections(kinds.len()),
        RawResult::Flat { records, counts } => decoded(kinds, counts@, records@),
    }
}

/// What is wrong with a raw result, if anything. Nothing is wrong with an
/// absent one.
pub open spec fn raw_violation(kinds: Seq<FeatureType>, raw: RawResult) -> Option<
    ContractViolation,
> {
    match raw {
        RawResult::Null => None,
        RawResult::Flat { records, counts } => violation(kinds, counts@, records@.len()),
    }
}

/// Tells whether every output's name can be handed over as a
/// zero-terminated string.
fn all_names_terminable(outputs: &Vec<Output>) -> (b: bool)
    ensures
        b == names_terminable(names_of(outputs@)),
{
    let ghost names = names_of(outputs@);
    let mut i: usize = 0;
    while i < outputs.len()
        invariant
            i <= outputs@.len(),
            names == names_of(outputs@),
            forall|t: int| 0 <= t < i ==> terminable(#[trigger] names[t]),
        decreases outputs@.len() - i,
    {
        if !is_terminable(outputs[i].name.as_str()) {
            assert(!terminable(names[i as int]));
            return false;
        }
        i += 1;
    }
    true
}

/// Reads a raw result against a list of declared outputs.
///
/// An absent result stands for "nothing detected" on every output and is no
/// error. A flat result is decoded, and fails where its counts or its length
/// disagree with the declaration.
pub fn decode_raw(outputs: &Vec<Output>, raw: &RawResult) -> (r: Result<
    DetectionResult,
    ContractViolation,
>)
    ensures
        match r {
            Ok(result) => {
                &&& raw_violation(kinds_of(outputs@), *raw) is None
                &&& result.deep_view() == result_of(kinds_of(outputs@), *raw)
                &&& shaped(kinds_of(outputs@), result.deep_view())
            },
            Err(e) => raw_violation(kinds_of(outputs@), *raw) == Some(e),
        },
{
    match raw {
        RawResult::Null => {
            let mut result: Vec<Vec<Vec<crate::landmark::Landmark>>> = Vec::new();
            let mut i: usize = 0;
            while i < outputs.len()
                invariant
                    i <= outputs@.len(),
                    result@.len() == i,
                    forall|t: int| 0 <= t < i ==> (#[trigger] result@[t])@.len() == 0,
                decreases outputs@.len() - i,
            {
                result.push(Vec::new());
                i += 1;
            }
            assert(result.deep_view() =~~= no_detections(outputs@.len()));
            Ok(result)
        },
        RawResult::Flat { records, counts } => decode(
            outputs,
            records.as_slice(),
            counts.as_slice(),
        ),
    }
}

/// A detection graph of the engine, with the outputs it was created for.
///
/// A handle is made once, from a configuration and the address of the graph
/// that the engine created for it. The outputs are fixed from then on and
/// drive the decoding of every frame. `destroy` takes the handle by value:
/// after it there is nothing left to process with, or to destroy again.
#[derive(Debug, PartialEq, Eq)]
pub struct Detector {
    graph: usize,
    outputs: Vec<Output>,
}

impl Detector {
    #[verifier::type_invariant]
    spec fn live(&self) -> bool {
        &&& self.graph != 0
        &&& 0 < self.outputs@.len() <= MAX_OUTPUTS
    }

    /// The address of the engine's graph.
    pub closed spec fn spec_handle(&self) -> usize {
        self.graph
    }

    /// The declared outputs, in declared order.
    pub closed spec fn spec_outputs(&self) -> &Vec<Output> {
        &self.outputs
    }

    /// Checks a configuration before it is handed to the engine.
    ///
    /// The engine is to be asked for a graph only where this returns `Ok`.
    pub fn validate(graph_config: &str, output_config: &Vec<Output>) -> (r: Result<
        (),
        ConfigurationError,
    >)
        ensures
            match r {
                Ok(_) => well_formed(graph_config@, names_of(output_config@)),
                Err(e) => request_error(graph_config@, names_of(output_config@)) == Some(e),
            },
    {
        if output_config.len() == 0 {
            Err(ConfigurationError::NoOutputs)
        } else if output_config.len() > MAX_OUTPUTS {
            Err(ConfigurationError::TooManyOutputs)
        } else if !is_terminable(graph_config) || !all_names_terminable(output_config) {
            Err(ConfigurationError::InteriorNul)
        } else {
            Ok(())
        }
    }

    /// Makes the handle of the graph that the engine created for a
    /// configuration.
    ///
    /// `native` is the address that the engine returned, zero where it
    /// returned no graph. The handle is made exactly when at least one and at
    /// most `MAX_OUTPUTS` outputs are declared, the configuration text and
    /// the output names are free of zero bytes, and the engine returned a
    /// graph. It records the outputs as they were declared, in their order.
    pub fn new(graph_config: &str, output_config: Vec<Output>, native: usize) -> (r: Result<
        Detector,
        ConfigurationError,
    >)
        ensures
            match r {
                Ok(detector) => {
                    &&& configuration_error(graph_config@, names_of(output_config@), native)
                        is None
                    &&& *detector.outputs() == output_config
                    &&& detector.handle() == native
                },
                Err(e) => configuration_error(graph_config@, names_of(output_config@), native)
                    == Some(e),
            },
            well_formed(graph_config@, names_of(output_config@)) && native != 0 ==> r is Ok,
    {
        match Detector::validate(graph_config, &output_config) {
            Err(e) => Err(e),
            Ok(_) => {
                if native == 0 {
                    Err(ConfigurationError::EngineRejected)
                } else {
                    Ok(Detector { graph: native, outputs: output_config })
                }
            },
        }
    }

    /// The address of the engine's graph. It is never zero.
    #[verifier::when_used_as_spec(spec_handle)]
    pub fn handle(&self) -> (h: usize)
        ensures
            h == self.spec_handle(),
            h != 0,
    {
        proof {
            use_type_invariant(self);
        }
        self.graph
    }

    /// The declared outputs, in declared order: at least one, at most
    /// `MAX_OUTPUTS`.
    #[verifier::when_used_as_spec(spec_outputs)]
    pub fn outputs(&self) -> (o: &Vec<Output>)
        ensures
            o == self.spec_outputs(),
            0 < o@.len() <= MAX_OUTPUTS,
    {
        proof {
            use_type_invariant(self);
        }
        &self.outputs
    }

    /// The number of records that the engine's buffer holds for the given
    /// counts, where there is one count per output and the number can be
    /// held.
    pub fn expected_records(&self, counts: &[usize]) -> (n: Option<usize>)
        ensures
            n is Some <==> counts@.len() == self.outputs()@.len() && declared_records(
                kinds_of(self.outputs()@),
                counts@,
            ) <= usize::MAX,
            n matches Some(total) ==> total == declared_records(
                kinds_of(self.outputs()@),
                counts@,
            ),
    {
        expected_records(&self.outputs, counts)
    }

    /// Reads what the engine returned for a frame.
    ///
    /// The result has one entry per declared output, in declared order. An
    /// absent raw result gives an empty list for every output. The handle
    /// itself is as it was: a second frame is processed like the first.
    pub fn process(&mut self, raw: &RawResult) -> (r: Result<DetectionResult, ContractViolation>)
        ensures
            *final(self) == *old(self),
            match r {
                Ok(result) => {
                    &&& raw_violation(kinds_of(old(self).outputs()@), *raw) is None
                    &&& result.deep_view() == result_of(kinds_of(old(self).outputs()@), *raw)
                    &&& shaped(kinds_of(old(self).outputs()@), result.deep_view())
                    &&& result@.len() == old(self).outputs()@.len()
                },
                Err(e) => raw_violation(kinds_of(old(self).outputs()@), *raw) == Some(e),
            },
            *raw is Null ==> r is Ok,
    {
        let r = decode_raw(&self.outputs, raw);
        proof {
            if r is Ok {
                assert(r->Ok_0.deep_view().len() == r->Ok_0@.len());
                assert(result_of(kinds_of(self.outputs@), *raw).len() == self.outputs@.len());
            }
        }
        r
    }

    /// Gives the handle up. Returns the address of the graph, which the
    /// caller hands to the engine to be destroyed.
    pub fn destroy(self) -> (h: usize)
        ensures
            h == self.handle(),
            h != 0,
    {
        proof {
            use_type_invariant(&self);
        }
        self.graph
    }
}

} // verus!
