//! Generates foreign-call wrapper source text from a resolved class model.
pub mod descriptor;
pub mod dispatch;
pub mod emitter;
pub mod generator;
pub mod laws;
pub mod model;
pub mod naming;
pub mod signature;
pub mod text;
pub mod types;
