use crate::block_info::BlockInfo;
use vstd::prelude::*;

verus! {

/// The slice of a quorum certificate that timeouts read: the block it
/// certifies.  Building and checking the aggregate signatures behind a QC is
/// certificate aggregation, outside this library.
#[derive(Clone, Copy, PartialEq, Eq, Structural, Debug)]
pub struct QuorumCert {
    pub certified: BlockInfo,
}

impl QuorumCert {
    pub fn new(certified: BlockInfo) -> (r: QuorumCert)
        ensures
            r == (QuorumCert { certified }),
    {
        QuorumCert { certified }
    }

    pub fn certified_block(&self) -> (r: &BlockInfo)
        ensures
            *r == self.certified,
    {
        &self.certified
    }
}

} // verus!
