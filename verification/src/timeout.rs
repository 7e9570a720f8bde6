use crate::codec;
use crate::errors::TimeoutError;
use crate::quorum_cert::QuorumCert;
use crate::validator::ValidatorVerifier;
use vstd::prelude::*;

verus! {

/// The legacy round-timeout payload: the epoch and round being timed out,
/// derived from the vote's own data and signed on demand.
#[derive(Clone, Copy, PartialEq, Eq, Structural, Debug)]
pub struct Timeout {
    pub epoch: u64,
    pub round: u64,
}

impl Timeout {
    pub fn new(epoch: u64, round: u64) -> (r: Timeout)
        ensures
            r == (Timeout { epoch, round }),
    {
        Timeout { epoch, round }
    }

    pub fn epoch(&self) -> (r: u64)
        ensures
            r == self.epoch,
    {
        self.epoch
    }

    pub fn round(&self) -> (r: u64)
        ensures
            r == self.round,
    {
        self.round
    }
}

/// What `TwoChainTimeout::verify` returns: the round being timed out must lie
/// strictly above the round its high QC certifies.
pub open spec fn spec_timeout_verify(t: TwoChainTimeout) -> Result<(), TimeoutError> {
    if t.quorum_cert.certified.round < t.round {
        Ok(())
    } else {
        Err(TimeoutError::HighQcRoundNotLower)
    }
}

/// The 2-chain timeout payload: the epoch and round being timed out together
/// with the highest quorum certificate the replica has observed.
#[derive(Clone, Copy, PartialEq, Eq, Structural, Debug)]
pub struct TwoChainTimeout {
    pub epoch: u64,
    pub round: u64,
    pub quorum_cert: QuorumCert,
}

impl TwoChainTimeout {
    pub fn new(epoch: u64, round: u64, quorum_cert: QuorumCert) -> (r: TwoChainTimeout)
        ensures
            r == (TwoChainTimeout { epoch, round, quorum_cert }),
    {
        TwoChainTimeout { epoch, round, quorum_cert }
    }

    pub fn epoch(&self) -> (r: u64)
        ensures
            r == self.epoch,
    {
        self.epoch
    }

    pub fn round(&self) -> (r: u64)
        ensures
            r == self.round,
    {
        self.round
    }

    /// Round of the highest quorum certificate carried by this timeout.
    pub fn hqc_round(&self) -> (r: u64)
        ensures
            r == self.quorum_cert.certified.round,
    {
        self.quorum_cert.certified.round
    }

    /// The canonical bytes a 2-chain timeout signature is computed over.
    pub fn signing_format(&self) -> (r: Vec<u8>)
        ensures
            r@ == codec::spec_timeout_signing_format(*self),
    {
        let mut out: Vec<u8> = Vec::new();
        codec::push_u64(&mut out, self.epoch);
        codec::push_u64(&mut out, self.round);
        codec::push_u64(&mut out, self.quorum_cert.certified.round);
        proof {
            assert(out@ =~= codec::spec_timeout_signing_format(*self));
        }
        out
    }

    /// Internal consistency of the timeout: its round must be strictly higher
    /// than the round its high QC certifies.  Checking the QC's aggregate
    /// signatures is certificate aggregation and stays with the verifier
    /// component that owns it; the validator table is taken here to keep the
    /// verification interface uniform.
    pub fn verify(&self, _validator: &ValidatorVerifier) -> (r: Result<(), TimeoutError>)
        ensures
            r == spec_timeout_verify(*self),
    {
        if self.quorum_cert.certified.round < self.round {
            Ok(())
        } else {
            Err(TimeoutError::HighQcRoundNotLower)
        }
    }
}

} // verus!
