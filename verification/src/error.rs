//! The ways in which generating or checking a one-step proof fails.

use vstd::prelude::*;

verus! {

/// Why an attempt was given up. The first three arise on the host while the
/// proof is generated, the last three wherever a payload is decoded and replayed.
#[derive(Clone, Copy, Debug, PartialEq, Eq, Structural)]
pub enum ProofError {
    /// The module code is malformed.
    ModuleLoad,
    /// The module exports no function under the entry name.
    MissingExport,
    /// No proof can be anchored: the run ended before the step budget did, or
    /// the execution library could not build a proof at the checkpoint.
    ProofExtraction,
    /// A wire payload has the wrong shape, a wrong fixed width, or is truncated.
    Decode,
    /// The step could not be replayed against the code commitment.
    Replay,
    /// The hash after the step is not the one the payload announced.
    HashMismatch,
}

} // verus!
