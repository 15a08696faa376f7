//! Code generation for gRPC services whose messages travel as bincode.
//!
//! `#[service]` turns a trait of RPC methods into the constants that
//! describe each method, a trait of serving methods, a function that builds
//! the service from an implementation, and a client; `#[server]` turns an
//! implementation of such a trait into one that serves each method. The
//! modules here hold the trait and the impl as plain values, check them,
//! and write the generated code as source text, each step with a contract
//! that states that text exactly. `codec` holds the checks that the
//! adapters between bincode and tonic's byte buffers make.
use vstd::prelude::*;

pub mod codec;
pub mod generated;
pub mod laws;
pub mod model;
pub mod names;
pub mod rpc;
pub mod server;
pub mod service;
pub mod text;

verus! {
} // verus!
