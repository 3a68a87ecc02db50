//! Termination results of an EVM execution engine, and the ownership bridge
//! that hands their byte payloads to an embedding host runtime.
//!
//! The engine finishes every transaction in exactly one of three ways:
//! success, revert, or exceptional halt. This crate models those outcomes,
//! maps them onto the host-facing taxonomy (a strict subset of the engine's
//! halt reasons), carries gas quantities in a lossless 256-bit representation,
//! and transfers byte buffers to the host without copying them.

pub mod bigint;
pub mod buffer;
pub mod engine;
pub mod result;
