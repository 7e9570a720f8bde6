use vstd::prelude::*;

verus! {

/// Which of a vote's signatures failed cryptographic verification.
#[derive(Clone, Copy, PartialEq, Eq, Structural, Debug)]
pub enum SignatureKind {
    /// The commit signature over the ledger info.
    Primary,
    /// The legacy round-timeout signature.
    LegacyTimeout,
    /// The signature over the 2-chain timeout's signing format.
    TwoChainTimeout,
}

/// The reasons a vote is rejected, in the order the checks run.
#[derive(Clone, Copy, PartialEq, Eq, Structural, Debug)]
pub enum VoteError {
    /// The ledger info's consensus data hash is not the hash of the vote data.
    HashMismatch,
    /// Both the legacy timeout signature and the 2-chain timeout are present.
    ConflictingTimeoutAttestations,
    /// A signature did not verify for the vote's author.
    SignatureInvalid(SignatureKind),
    /// The embedded 2-chain timeout's (epoch, round) differs from the vote's.
    TimeoutRoundMismatch,
    /// The embedded 2-chain timeout failed its own consistency check.
    TwoChainTimeoutInvalid,
    /// The vote data failed its own consistency check.
    VoteDataInvalid,
}

/// The reasons vote data is internally inconsistent.
#[derive(Clone, Copy, PartialEq, Eq, Structural, Debug)]
pub enum VoteDataError {
    /// The proposed block and its parent belong to different epochs.
    EpochMismatch,
    /// The proposed block's round is not higher than its parent's.
    RoundNotHigher,
}

/// The reasons a 2-chain timeout is internally inconsistent.
#[derive(Clone, Copy, PartialEq, Eq, Structural, Debug)]
pub enum TimeoutError {
    /// The timeout's round is not higher than the round its high QC certifies.
    HighQcRoundNotLower,
}

} // verus!
