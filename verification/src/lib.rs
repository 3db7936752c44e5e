//! Distribution of wasmCloud artifacts through an OCI registry.
//!
//! An artifact is either an actor module (WebAssembly with embedded claims) or a
//! provider archive. This crate decides what a pull or a push has to do: it
//! parses and polices the registry reference, checks the digest that the
//! registry reports, classifies the bytes and packages them. Talking to the
//! registry and to the file system is left to the caller, which is handed a
//! request, performs it and comes back with what it got.

pub mod artifact;
pub mod digest;
pub mod error;
pub mod par;
pub mod reference;
pub mod reg;
pub mod registry;
pub mod text;
