//! The decisions of a DFT-D3 dispersion binding, kept apart from the numerical
//! engine that evaluates the energies.
//!
//! Every operation that needs the engine comes in two halves. The first half
//! checks what can be checked locally and returns a request: a value that says
//! what the engine is to be asked. The second half, `complete`, takes what the
//! engine handed back together with its [`engine::ErrorChannel`] and turns it
//! into the result. The caller sits between the two halves and makes the call.
//! Nothing in this crate reads a coordinate or an energy: arrays pass through
//! untouched, and only their lengths are looked at.

pub mod damping;
pub mod engine;
pub mod error;
pub mod gcp;
pub mod model;
pub mod param;
pub mod prelude;
pub mod scalar;
pub mod structure;
pub mod text;
pub mod version;
