//! The handle of an effect graph, which turns a frame into a frame.

use vstd::prelude::*;
use crate::error::{ConfigurationError, ContractViolation};
use crate::frame::{dimensions_ok, frame_bytes, Frame};
use crate::text::{is_terminable, terminable};

verus! {

/// Why an effect configuration and the engine's answer to it give no
/// handle, if they give none. `native` is the address of the graph that the
/// engine returned, zero where it returned none.
pub open spec fn effect_error(config: Seq<char>, node: Seq<char>, native: usize) -> Option<
    ConfigurationError,
> {
    if !terminable(config) || !terminable(node) {
        Some(ConfigurationError::InteriorNul)
    } else if native == 0 {
        Some(ConfigurationError::EngineRejected)
    } else {
        None
    }
}

/// A frame whose pixels the engine allocated.
///
/// The value stands for the ownership of the engine's buffer. It cannot be
/// copied, and the one way to be rid of it is `release`, which hands the
/// address out for the engine's own deallocation. The dimensions say how
/// many bytes may be read at the address until then.
#[derive(Debug, PartialEq, Eq)]
pub struct EffectFrame {
    buffer: usize,
    len: usize,
    width: i32,
    height: i32,
    channels: i32,
}

impl EffectFrame {
    #[verifier::type_invariant]
    spec fn consistent(&self) -> bool {
        &&& self.buffer != 0
        &&& dimensions_ok(self.width, self.height, self.channels)
        &&& self.len == frame_bytes(self.width as int, self.height as int, self.channels as int)
    }

    /// The address of the engine's buffer.
    pub closed spec fn spec_buffer(&self) -> usize {
        self.buffer
    }

    /// The number of pixels in a row.
    pub closed spec fn spec_width(&self) -> i32 {
        self.width
    }

    /// The number of rows.
    pub closed spec fn spec_height(&self) -> i32 {
        self.height
    }

    /// The number of bytes in a pixel.
    pub closed spec fn spec_channels(&self) -> i32 {
        self.channels
    }

    /// The address of the engine's buffer. It is never zero.
    #[verifier::when_used_as_spec(spec_buffer)]
    pub fn buffer(&self) -> (b: usize)
        ensures
            b == self.spec_buffer(),
            b != 0,
    {
        proof {
            use_type_invariant(self);
        }
        self.buffer
    }

    /// The number of pixels in a row.
    #[verifier::when_used_as_spec(spec_width)]
    pub fn width(&self) -> (w: i32)
        ensures
            w == self.spec_width(),
            w >= 0,
    {
        proof {
            use_type_invariant(self);
        }
        self.width
    }

    /// The number of rows.
    #[verifier::when_used_as_spec(spec_height)]
    pub fn height(&self) -> (h: i32)
        ensures
            h == self.spec_height(),
            h >= 0,
    {
        proof {
            use_type_invariant(self);
        }
        self.height
    }

    /// The number of bytes in a pixel.
    #[verifier::when_used_as_spec(spec_channels)]
    pub fn channels(&self) -> (c: i32)
        ensures
            c == self.spec_channels(),
            c >= 1,
    {
        proof {
            use_type_invariant(self);
        }
        self.channels
    }

    /// The number of bytes of the frame: `width * height * channels`.
    pub fn byte_len(&self) -> (n: usize)
        ensures
            n == frame_bytes(self.width() as int, self.height() as int, self.channels() as int),
    {
        proof {
            use_type_invariant(self);
        }
        self.len
    }

    /// Gives the frame up. Returns the address of the buffer, which the
    /// caller hands to the engine's deallocation, and to nothing else.
    pub fn release(self) -> (b: usize)
        ensures
            b == self.buffer(),
            b != 0,
    {
        proof {
            use_type_invariant(&self);
        }
        self.buffer
    }
}

/// An effect graph of the engine.
///
/// Made once from a configuration, the name of the node that yields the
/// output frame, and the address of the graph that the engine created for
/// them; given up once, by value.
#[derive(Debug, PartialEq, Eq)]
pub struct Effect {
    graph: usize,
}

impl Effect {
    #[verifier::type_invariant]
    spec fn live(&self) -> bool {
        self.graph != 0
    }

    /// The address of the engine's graph.
    pub closed spec fn spec_handle(&self) -> usize {
        self.graph
    }

    /// Checks a configuration before it is handed to the engine: neither
    /// the text nor the node name may hold a zero byte.
    pub fn validate(graph_config: &str, output_node: &str) -> (r: Result<(), ConfigurationError>)
        ensures
            r is Ok <==> terminable(graph_config@) && terminable(output_node@),
            r is Err ==> r == Err::<(), ConfigurationError>(ConfigurationError::InteriorNul),
    {
        if is_terminable(graph_config) && is_terminable(output_node) {
            Ok(())
        } else {
            Err(ConfigurationError::InteriorNul)
        }
    }

    /// Makes the handle of the graph that the engine created for a
    /// configuration. `native` is the address that the engine returned, zero
    /// where it returned no graph.
    pub fn new(graph_config: &str, output_node: &str, native: usize) -> (r: Result<
        Effect,
        ConfigurationError,
    >)
        ensures
            match r {
                Ok(effect) => effect_error(graph_config@, output_node@, native) is None
                    && effect.handle() == native,
                Err(e) => effect_error(graph_config@, output_node@, native) == Some(e),
            },
    {
        match Effect::validate(graph_config, output_node) {
            Err(e) => Err(e),
            Ok(_) => {
                if native == 0 {
                    Err(ConfigurationError::EngineRejected)
                } else {
                    Ok(Effect { graph: native })
                }
            },
        }
    }

    /// The address of the engine's graph. It is never zero.
    #[verifier::when_used_as_spec(spec_handle)]
    pub fn handle(&self) -> (h: usize)
        ensures
            h == self.spec_handle(),
            h != 0,
    {
        proof {
            use_type_invariant(self);
        }
        self.graph
    }

    /// Takes over the pixel buffer that the engine returned for a frame.
    ///
    /// `buffer` is the address that the engine returned, zero where it
    /// returned none. The output frame has the width, the height and the
    /// channels of the input: the engine is bound to that, and it is not
    /// checked here. The handle itself is as it was.
    pub fn process(&mut self, input: &Frame, buffer: usize) -> (r: Result<
        EffectFrame,
        ContractViolation,
    >)
        ensures
            *final(self) == *old(self),
            match r {
                Ok(frame) => {
                    &&& buffer != 0
                    &&& frame.buffer() == buffer
                    &&& frame.width() == input.width()
                    &&& frame.height() == input.height()
                    &&& frame.channels() == input.channels()
                },
                Err(e) => buffer == 0 && e == ContractViolation::NullBuffer,
            },
    {
        if buffer == 0 {
            return Err(ContractViolation::NullBuffer);
        }
        let width = input.width();
        let height = input.height();
        let channels = input.channels();
        let len = input.data().len();
        Ok(EffectFrame { buffer, len, width, height, channels })
    }

    /// Gives the handle up. Returns the address of the graph, which the
    /// caller hands to the engine to be destroyed.
    pub fn destroy(self) -> (h: usize)
        ensures
            h == self.handle(),
            h != 0,
    {
        proof {
            use_type_invariant(&self);
        }
        self.graph
    }
}

} // verus!
