//! Core of a byte-stream proxy that bridges TCP and VSOCK endpoints.
//!
//! The crate holds the verified logic of the proxy: validated endpoint
//! descriptors with their parsers, the per-connection relay engine that
//! copies bytes verbatim in both directions, and the accept-loop protocol
//! that keeps the service alive across recoverable failures. Binding,
//! accepting and dialing sockets is left to the surrounding program, which
//! drives these state machines with the events it observes.

pub mod accept_loop;
pub mod addr;
pub mod relay;
