//! Code generation core of the `static_test` attribute: a test function is
//! rewritten into global slots plus a guarded, zero-argument unit test whose
//! unreachable markers become link-time traps.
pub mod args;
pub mod laws;
pub mod model;
pub mod names;
pub mod transform;
pub use transform::static_test;
