//! Builds the options of a Rust-to-WebAssembly compilation and renders them
//! into the argument list of a `rustc` invocation.
pub mod configuration;
pub mod configuration_builder;
pub mod version;
