use crate::block_info::BlockInfo;
use crate::codec;
use crate::crypto;
use crate::crypto::HashValue;
use crate::errors::VoteDataError;
use vstd::prelude::*;

verus! {

/// Content hash of vote data: the digest of its canonical encoding, so the
/// hash is stable and content-addressed.
pub open spec fn spec_vote_data_hash(vd: VoteData) -> Seq<u8> {
    crypto::sha3_256_of(codec::spec_encode_vote_data(vd))
}

/// Description of the proposed block and of the parent that justifies it.
/// A vote binds to a `VoteData` through the value's content hash.
#[derive(Clone, Copy, PartialEq, Eq, Structural, Debug)]
pub struct VoteData {
    /// Block the vote is cast for.
    pub proposed: BlockInfo,
    /// Parent of the proposed block.
    pub parent: BlockInfo,
}

/// What `VoteData::verify` returns: the proposed block must sit in the same
/// epoch as its parent, in a strictly higher round.
pub open spec fn spec_vote_data_verify(vd: VoteData) -> Result<(), VoteDataError> {
    if vd.proposed.epoch != vd.parent.epoch {
        Err(VoteDataError::EpochMismatch)
    } else if vd.proposed.round <= vd.parent.round {
        Err(VoteDataError::RoundNotHigher)
    } else {
        Ok(())
    }
}

impl VoteData {
    pub fn new(proposed: BlockInfo, parent: BlockInfo) -> (r: VoteData)
        ensures
            r == (VoteData { proposed, parent }),
    {
        VoteData { proposed, parent }
    }

    pub fn proposed(&self) -> (r: &BlockInfo)
        ensures
            *r == self.proposed,
    {
        &self.proposed
    }

    pub fn parent(&self) -> (r: &BlockInfo)
        ensures
            *r == self.parent,
    {
        &self.parent
    }

    /// The content hash a vote binds to.
    pub fn hash(&self) -> (r: HashValue)
        ensures
            r@ == spec_vote_data_hash(*self),
            r@.len() == 32,
    {
        HashValue { bytes: crypto::sha3_256_digest(&codec::encode_vote_data(self)) }
    }

    /// Internal consistency of the vote data alone, checked without keys:
    /// parent and proposed block share an epoch and rounds strictly increase.
    pub fn verify(&self) -> (r: Result<(), VoteDataError>)
        ensures
            r == spec_vote_data_verify(*self),
    {
        if self.proposed.epoch != self.parent.epoch {
            Err(VoteDataError::EpochMismatch)
        } else if self.proposed.round <= self.parent.round {
            Err(VoteDataError::RoundNotHigher)
        } else {
            Ok(())
        }
    }
}

} // verus!
