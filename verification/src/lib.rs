//! Verified core of a binding to compiled Stan model libraries.
//!
//! A Stan model is compiled into a shared library that exposes a C interface:
//! construct a model instance from a data payload, evaluate the log density
//! and its derivatives, and map between the constrained and unconstrained
//! parameterizations. This crate holds the part of such a binding that can be
//! reasoned about: version gating, handle bookkeeping and identity checks,
//! parameter-count arithmetic, buffer-shape contracts, and the marshalling of
//! foreign return codes and error messages into typed errors. The caller
//! performs the actual foreign calls and hands their raw outcomes (handles,
//! return codes, decoded strings) to the functions here.

pub mod compile;
pub mod decimal;
pub mod download;
pub mod error;
pub mod library;
pub mod model;
pub mod rng;
pub mod text;
pub mod version;

pub use error::BridgeStanError;
pub use library::StanLibrary;
pub use model::Model;
pub use rng::Rng;
