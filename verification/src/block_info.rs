use vstd::prelude::*;

verus! {

/// The slice of block metadata that votes and timeouts read: the epoch the
/// block belongs to and the round it was proposed in.
#[derive(Clone, Copy, PartialEq, Eq, Structural, Debug)]
pub struct BlockInfo {
    pub epoch: u64,
    pub round: u64,
}

impl BlockInfo {
    pub fn new(epoch: u64, round: u64) -> (r: BlockInfo)
        ensures
            r == (BlockInfo { epoch, round }),
    {
        BlockInfo { epoch, round }
    }

    pub fn epoch(&self) -> (r: u64)
        ensures
            r == self.epoch,
    {
        self.epoch
    }

    pub fn round(&self) -> (r: u64)
        ensures
            r == self.round,
    {
        self.round
    }
}

} // verus!
