//! Typed bindings for the command set of a bitcoind JSON-RPC server.
//!
//! Each command is turned into a positional parameter list, handed to a
//! transport supplied by the caller, and the reply is decoded into the
//! command's result type or classified as an [`error::ClientError`].

pub mod call;
pub mod encode;
pub mod error;
pub mod outside;
pub mod reply;
pub mod rpc;
pub mod text;
