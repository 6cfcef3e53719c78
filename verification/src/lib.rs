//! Host-to-guest memory marshaling for a WebAssembly runtime's Emscripten
//! compatibility shim.
//!
//! A sandboxed guest program executes against a single flat byte buffer
//! ("linear memory") addressed by 32-bit offsets. This crate is the
//! translation boundary between host values and that buffer: it detects
//! Emscripten-produced modules by their import signature, copies host
//! strings and buffers into guest memory, bridges "allocate space" requests
//! to the guest's own exported allocator functions, and re-packs a host
//! `stat` result into the exact field layout the guest C runtime expects.

pub mod bytes;
pub mod error;
pub mod instance;
pub mod memory;
pub mod module;
pub mod stat;
