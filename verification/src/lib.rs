//! Vote messages of a leader-based BFT consensus protocol.
//!
//! A replica answers a block proposal with a [`vote::Vote`]: a signed
//! attestation over the ledger info it is prepared to commit.  If the round
//! expires the same vote is augmented with exactly one timeout attestation,
//! either the legacy round signature or the 2-chain timeout, and re-sent.
//! Receivers admit a vote only after [`vote::Vote::verify`] has re-checked,
//! against adversarial inputs, every invariant that honest construction
//! maintains.

pub mod block_info;
pub mod codec;
pub mod crypto;
pub mod errors;
pub mod ledger_info;
pub mod quorum_cert;
pub mod timeout;
pub mod validator;
pub mod vote;
pub mod vote_data;
