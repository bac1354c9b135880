//! Errors surfaced by the claim engine.
//!
//! Every failure is reported synchronously to the caller; the engine performs
//! no retry and commits no partial state on failure.

use vstd::prelude::*;

verus! {

/// Why a claim or a round registration was rejected.
#[derive(Clone, Copy, Debug, PartialEq, Eq, Structural)]
pub enum VestError {
    /// A proof element is not a 64-character hex encoding of 32 bytes.
    InvalidProofEncoding,
    /// A Merkle root is not a 64-character hex encoding of 32 bytes.
    InvalidRootEncoding,
    /// The proof folds to a digest other than the round's root.
    ProofVerificationFailed,
    /// No round is registered under the given stage number.
    NoSuchRound,
    /// The round is flagged as paused; no claim proceeds while it is.
    RoundPaused,
    /// The vesting start time lies in the future.
    NotStarted,
    /// The cliff period has not passed and the record carries no
    /// immediate-unlock entitlement.
    CliffNotPassed,
    /// A claim was already settled for the current day bucket.
    AlreadyVestedForPeriod,
    /// The record's cumulative claims already cover its principal.
    FullyClaimed,
    /// A checked arithmetic step would overflow its 128-bit accumulator.
    ArithmeticOverflow,
    /// A token interface tag was supplied without a token address.
    MissingTokenAddress,
    /// A token address was supplied without a token interface tag.
    MissingTokenCodeHash,
    /// Neither a token address nor a token interface tag was supplied.
    MissingTokenConfig,
}

} // verus!
