//! Sandboxed code-validation worker protocol and host performance gate.
//!
//! The library holds the decisions of the subsystem: the bounded decompression of
//! untrusted code blobs, the state machine of a worker process and the one-shot
//! performance gate run at node startup. The surrounding program performs the
//! actions these machines ask for and hands back what happened.

pub mod chain;
pub mod decompress;
pub mod error;
pub mod gate;
pub mod message;
pub mod text;
pub mod worker;
