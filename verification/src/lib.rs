//! Verified core of a binding to a native landmark-detection engine.
//!
//! The engine runs a configured graph over a video frame and returns, for
//! each declared output of the graph, zero or more instances of a feature,
//! each instance a fixed number of landmarks. This crate holds what can be
//! stated and proved of the binding: the table of landmark counts, the
//! decoder of the engine's flat result buffer, the checks made before a
//! graph is created, and the life of a handle. The calls into the engine are
//! made by the program around this crate, which hands their results over as
//! plain values.

pub mod adapter;
pub mod decode;
pub mod detector;
pub mod effect;
pub mod error;
pub mod face_mesh;
pub mod feature;
pub mod frame;
pub mod hands;
pub mod holistic;
pub mod instance;
pub mod landmark;
pub mod layout;
pub mod pose;
pub mod segmentation;
pub mod text;

pub use decode::{DetectionResult, RawResult};
pub use detector::Detector;
pub use effect::{Effect, EffectFrame};
pub use error::{ConfigurationError, ContractViolation};
pub use feature::{FeatureType, Output};
pub use frame::Frame;
pub use instance::{FaceMesh, Hand, Pose};
pub use landmark::Landmark;
