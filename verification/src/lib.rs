//! Packaging pipeline for compiled WebAssembly modules: an ordered build-step
//! orchestrator together with the provisioning and caching of the external
//! tools (bindings generator, optimizer, ahead-of-time compiler) that the
//! steps invoke.

pub mod bindgen;
pub mod cache;
pub mod command;
pub mod error;
pub mod manifest;
pub mod install;
pub mod invoke;
pub mod platform;
pub mod ssvmc;
pub mod strutil;
pub mod wasmedgec;
