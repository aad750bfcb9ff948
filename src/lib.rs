//! Request orchestration for a neural machine-translation service: model
//! discovery, language resolution, the translation pipeline, the wire-format
//! adapters and the access guard.
pub mod adapters;
pub mod error;
pub mod guard;
pub mod lang;
pub mod orchestrator;
pub mod registry;
pub mod text;
