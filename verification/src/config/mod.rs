//! Dashboard layouts, Host settings and their persistence rules.

pub mod model;
pub mod json;
pub mod layout;
pub mod repository;
pub mod laws;
