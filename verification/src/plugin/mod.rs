//! Game plugin manifests, packages and decoder output rules.

pub mod text;
pub mod manifest;
pub mod runtime;
pub mod sandbox;
pub mod guest;
pub mod wasm;
pub mod laws;
