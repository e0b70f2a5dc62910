//! One-step dispute proofs: the wire contract between the host that generates a
//! proof and the guest that replays it, and the decisions each side takes.

pub mod abi;
pub mod codec;
pub mod environment;
pub mod error;
pub mod generator;
pub mod journal;
pub mod lifecycle;
pub mod model;
pub mod replay;
