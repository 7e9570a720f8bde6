use crate::block_info::BlockInfo;
use crate::crypto::HashValue;
use vstd::prelude::*;

verus! {

/// Mathematical model of a ledger info: its commit metadata and the bytes in
/// the consensus data hash slot.
#[verifier::ext_equal]
pub struct LedgerInfoModel {
    pub commit_info: BlockInfo,
    pub consensus_data_hash: Seq<u8>,
}

/// Commit metadata that a vote signs, with a slot for the hash of the vote
/// data.  The slot is written once, just before signing; verification reads
/// it back and holds it against the vote data's own hash.
#[derive(Clone, PartialEq, Eq, Debug)]
pub struct LedgerInfo {
    pub commit_info: BlockInfo,
    pub consensus_data_hash: HashValue,
}

impl View for LedgerInfo {
    type V = LedgerInfoModel;

    open spec fn view(&self) -> LedgerInfoModel {
        LedgerInfoModel {
            commit_info: self.commit_info,
            consensus_data_hash: self.consensus_data_hash@,
        }
    }
}

impl LedgerInfo {
    pub fn new(commit_info: BlockInfo, consensus_data_hash: HashValue) -> (r: LedgerInfo)
        ensures
            r@ == (LedgerInfoModel { commit_info, consensus_data_hash: consensus_data_hash@ }),
    {
        LedgerInfo { commit_info, consensus_data_hash }
    }

    pub fn commit_info(&self) -> (r: &BlockInfo)
        ensures
            *r == self.commit_info,
    {
        &self.commit_info
    }

    pub fn consensus_data_hash(&self) -> (r: &HashValue)
        ensures
            r@ == self@.consensus_data_hash,
    {
        &self.consensus_data_hash
    }

    /// Overwrite the consensus data hash slot.
    pub fn set_consensus_data_hash(&mut self, hash: HashValue)
        ensures
            final(self)@ == (LedgerInfoModel {
                commit_info: old(self)@.commit_info,
                consensus_data_hash: hash@,
            }),
    {
        self.consensus_data_hash = hash;
    }
}

} // verus!
