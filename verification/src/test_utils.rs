//! Block progress for scenarios: rounds and epochs that move together.

use crate::amount::Amount;
use vstd::arithmetic::power::pow;
use vstd::prelude::*;

verus! {

/// The round and epoch of the current block.
pub struct BlockInfo {
    pub block_round: u64,
    pub block_epoch: u64,
}

/// The block of a scenario, whose epoch is always its round divided by the
/// rounds per epoch.
pub struct BlockState {
    pub rounds_per_epoch: u64,
    pub info: BlockInfo,
}

impl BlockState {
    /// The epoch is the round divided by the rounds per epoch.
    pub open spec fn wf(&self) -> bool {
        &&& self.rounds_per_epoch > 0
        &&& self.info.block_epoch == self.info.block_round / self.rounds_per_epoch
    }

    /// Starts at round `start_round`.
    pub fn new(start_round: u64, rounds_per_epoch: u64) -> (r: BlockState)
        requires
            rounds_per_epoch > 0,
        ensures
            r.wf(),
            r.rounds_per_epoch == rounds_per_epoch,
            r.info.block_round == start_round,
            r.info.block_epoch == start_round / rounds_per_epoch,
    {
        BlockState {
            rounds_per_epoch,
            info: BlockInfo { block_round: start_round, block_epoch: start_round / rounds_per_epoch },
        }
    }

    /// Moves `blocks` rounds ahead; the epoch follows. Returns the new block.
    pub fn move_block_round(&mut self, blocks: u64) -> (r: BlockInfo)
        requires
            old(self).rounds_per_epoch > 0,
            old(self).info.block_round + blocks <= u64::MAX,
        ensures
            final(self).wf(),
            final(self).rounds_per_epoch == old(self).rounds_per_epoch,
            final(self).info.block_round == old(self).info.block_round + blocks,
            final(self).info.block_epoch == final(self).info.block_round / final(self).rounds_per_epoch,
            r == final(self).info,
    {
        self.info.block_round = self.info.block_round + blocks;
        self.info.block_epoch = self.info.block_round / self.rounds_per_epoch;
        self.set_and_return_step()
    }

    /// The block to put in a state step.
    fn set_and_return_step(&self) -> (r: BlockInfo)
        ensures
            r == self.info,
    {
        BlockInfo { block_round: self.info.block_round, block_epoch: self.info.block_epoch }
    }

    /// Moves `epochs` epochs ahead, to the first round of the new epoch.
    /// Returns the new block.
    pub fn move_block_epoch(&mut self, epochs: u64) -> (r: BlockInfo)
        requires
            old(self).rounds_per_epoch > 0,
            (old(self).info.block_epoch + epochs) * old(self).rounds_per_epoch <= u64::MAX,
        ensures
            final(self).wf(),
            final(self).rounds_per_epoch == old(self).rounds_per_epoch,
            final(self).info.block_epoch == old(self).info.block_epoch + epochs,
            final(self).info.block_round == final(self).info.block_epoch * final(self).rounds_per_epoch,
            r == final(self).info,
    {
        proof {
            let e = (self.info.block_epoch + epochs) as nat;
            assert(e <= e * self.rounds_per_epoch) by (nonlinear_arith)
                requires
                    self.rounds_per_epoch > 0,
            ;
        }
        self.info.block_epoch = self.info.block_epoch + epochs;
        self.info.block_round = self.info.block_epoch * self.rounds_per_epoch;
        proof {
            let e = self.info.block_epoch as int;
            let k = self.rounds_per_epoch as int;
            assert((e * k) / k == e) by (nonlinear_arith)
                requires
                    k > 0,
            ;
        }
        self.set_and_return_step()
    }
}

/// `num` eGLD (or any token with 18 decimals) in its smallest unit.
pub fn big_num_pow_18(num: u32) -> (r: Amount)
    ensures
        r@ == pow(10, 18) * num,
{
    Amount::from_u64(10).pow(18).mul(&Amount::from_u64(num as u64))
}

/// Moving the block forward never moves the epoch back: the epoch of any
/// later round is at least the current one.
pub proof fn block_moves_never_move_epoch_back(s: BlockState, blocks: u64)
    requires
        s.wf(),
    ensures
        (s.info.block_round + blocks) / (s.rounds_per_epoch as int) >= s.info.block_epoch,
{
    let k = s.rounds_per_epoch as int;
    let r = s.info.block_round as int;
    assert(r / k <= (r + blocks) / k) by (nonlinear_arith)
        requires
            k > 0,
            blocks >= 0,
    ;
}

} // verus!
