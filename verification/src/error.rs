//! The two kinds of failure that the core reports.

use vstd::prelude::*;

verus! {

/// Why no handle was produced for a configuration.
#[derive(Debug, Clone, Copy, PartialEq, Eq, Structural)]
pub enum ConfigurationError {
    /// No output was declared.
    NoOutputs,
    /// More outputs were declared than the engine can be told of: it takes
    /// their number as one byte.
    TooManyOutputs,
    /// The configuration text or a node name holds a zero byte, so it cannot
    /// be handed over as a zero-terminated string.
    InteriorNul,
    /// The engine returned no graph for the configuration.
    EngineRejected,
}

/// A disagreement between the declared outputs and what the engine returned.
///
/// It tells a version skew between this layer and the engine, and is never
/// the same thing as "nothing detected".
#[derive(Debug, Clone, Copy, PartialEq, Eq, Structural)]
pub enum ContractViolation {
    /// The engine did not report one instance count per declared output.
    OutputCount,
    /// The buffer holds fewer records than the counts announce.
    Truncated,
    /// The buffer holds more records than the counts announce.
    Trailing,
    /// An instance does not have the number of landmarks of the container
    /// that it was to fill.
    InstanceSize,
    /// The engine returned no pixel buffer.
    NullBuffer,
}

} // verus!
