//! Selfie segmentation.

use vstd::prelude::*;
use crate::adapter::{fixed_error, lemma_ascii_terminable, lemma_fixed_effect_error};
use crate::effect::{Effect, EffectFrame};
use crate::error::{ConfigurationError, ContractViolation};
use crate::frame::Frame;

verus! {

/// The effect that cuts the person out of the frame.
#[derive(Debug, PartialEq, Eq)]
pub struct Segmentor {
    graph: Effect,
}

impl Segmentor {
    /// The address of the engine's graph.
    pub closed spec fn spec_handle(&self) -> usize {
        self.graph.handle()
    }

    /// Makes the segmentor of the graph that the engine created for a
    /// segmentation configuration and the node `output_video`. `native` is
    /// the address that the engine returned, zero where it returned no graph.
    pub fn new(graph_config: &str, native: usize) -> (r: Result<Segmentor, ConfigurationError>)
        ensures
            match r {
                Ok(segmentor) => fixed_error(graph_config@, native) is None && segmentor.handle()
                    == native,
                Err(e) => fixed_error(graph_config@, native) == Some(e),
            },
    {
        proof {
            reveal_strlit("output_video");
            lemma_ascii_terminable("output_video"@);
            lemma_fixed_effect_error(graph_config@, "output_video"@, native);
        }
        match Effect::new(graph_config, "output_video", native) {
            Ok(graph) => Ok(Segmentor { graph }),
            Err(e) => Err(e),
        }
    }

    /// The address of the engine's graph. It is never zero.
    #[verifier::when_used_as_spec(spec_handle)]
    pub fn handle(&self) -> (h: usize)
        ensures
            h == self.spec_handle(),
            h != 0,
    {
        self.graph.handle()
    }

    /// Takes over the pixel buffer that the engine returned for a frame.
    /// The output frame has the dimensions of the input.
    pub fn process(&mut self, input: &Frame, buffer: usize) -> (r: Result<
        EffectFrame,
        ContractViolation,
    >)
        ensures
            *final(self) == *old(self),
            match r {
                Ok(frame) => {
                    &&& buffer != 0
                    &&& frame.buffer() == buffer
                    &&& frame.width() == input.width()
                    &&& frame.height() == input.height()
                    &&& frame.channels() == input.channels()
                },
                Err(e) => buffer == 0 && e == ContractViolation::NullBuffer,
            },
    {
        self.graph.process(input, buffer)
    }

    /// Gives the segmentor up. Returns the address of the graph, which the
    /// caller hands to the engine to be destroyed.
    pub fn destroy(self) -> (h: usize)
        ensures
            h == self.handle(),
            h != 0,
    {
        self.graph.destroy()
    }
}

} // verus!
