//! The pool: its operational status and the reach of its own tick bitmap.

use vstd::prelude::*;
use crate::address::Address;

verus! {

/// The operations that a pool's status opens or closes, one bit each.
#[derive(Clone, Copy, Debug, PartialEq, Eq, Structural)]
pub enum PoolStatusBitIndex {
    OpenPositionOrIncreaseLiquidity,
    DecreaseLiquidity,
    CollectFee,
    CollectReward,
    Swap,
}

impl PoolStatusBitIndex {
    /// The status byte with only this operation's bit set. Counted from the
    /// least significant bit, the bits stand for opening or increasing a
    /// position, decreasing one, collecting fees, collecting rewards and
    /// swapping.
    pub open spec fn spec_mask(self) -> u8 {
        match self {
            PoolStatusBitIndex::OpenPositionOrIncreaseLiquidity => 1u8,
            PoolStatusBitIndex::DecreaseLiquidity => 2u8,
            PoolStatusBitIndex::CollectFee => 4u8,
            PoolStatusBitIndex::CollectReward => 8u8,
            PoolStatusBitIndex::Swap => 16u8,
        }
    }

    /// The status byte with only this operation's bit set.
    #[verifier::when_used_as_spec(spec_mask)]
    pub fn mask(self) -> (mask: u8)
        ensures
            mask == self.spec_mask(),
    {
        match self {
            PoolStatusBitIndex::OpenPositionOrIncreaseLiquidity => 1u8,
            PoolStatusBitIndex::DecreaseLiquidity => 2u8,
            PoolStatusBitIndex::CollectFee => 4u8,
            PoolStatusBitIndex::CollectReward => 8u8,
            PoolStatusBitIndex::Swap => 16u8,
        }
    }
}

/// What an increase reads of the pool.
#[derive(Clone, Copy, Debug, PartialEq, Eq)]
pub struct PoolState {
    /// The operations that are open, one bit each (see
    /// [`PoolStatusBitIndex`]): a set bit opens the operation.
    pub status: u8,
    /// The tick at which the pool trades.
    pub tick_current: i32,
    /// The account that holds the pool's first token.
    pub token_vault_0: Address,
    /// The account that holds the pool's second token.
    pub token_vault_1: Address,
    /// The first tick that the pool's own bitmap covers.
    pub bitmap_tick_lower: i32,
    /// The tick after the last one that the pool's own bitmap covers.
    pub bitmap_tick_upper: i32,
}

impl PoolState {
    /// Whether the status opens the operation `bit`: whether the operation's
    /// bit is set in it.
    pub open spec fn permits(self, bit: PoolStatusBitIndex) -> bool {
        (self.status as int / bit.spec_mask() as int) % 2 == 1
    }

    /// Whether the status opens the operation `bit`.
    pub fn get_status_by_bit(&self, bit: PoolStatusBitIndex) -> (open: bool)
        ensures
            open == self.permits(bit),
    {
        proof {
            lemma_status_bits(self.status);
        }
        self.status & bit.mask() != 0
    }

    /// Whether the pool's own bitmap covers `tick`.
    pub open spec fn covers(self, tick: i32) -> bool {
        self.bitmap_tick_lower <= tick < self.bitmap_tick_upper
    }

    /// Whether one of `ticks` lies outside the pool's own bitmap.
    pub open spec fn overflows_default_bitmap(self, ticks: Seq<i32>) -> bool {
        exists|i: int| 0 <= i < ticks.len() && !self.covers(#[trigger] ticks[i])
    }

    /// Whether one of the ticks lies outside the pool's own bitmap, so that
    /// the pool's extension bitmap is needed to look it up.
    pub fn is_overflow_default_tickarray_bitmap(&self, tick_indexs: Vec<i32>) -> (overflow: bool)
        ensures
            overflow == self.overflows_default_bitmap(tick_indexs@),
    {
        let mut i: usize = 0;
        while i < tick_indexs.len()
            invariant
                i <= tick_indexs.len(),
                forall|j: int| 0 <= j < i ==> self.covers(#[trigger] tick_indexs@[j]),
            decreases tick_indexs.len() - i,
        {
            let tick: i32 = tick_indexs[i];
            if tick < self.bitmap_tick_lower || tick >= self.bitmap_tick_upper {
                return true;
            }
            i = i + 1;
        }
        false
    }
}

/// A bit of the status byte is set exactly when the byte, divided by the
/// bit's weight, is odd.
pub proof fn lemma_status_bits(status: u8)
    ensures
        (status & 1u8 != 0) <==> status % 2 == 1,
        (status & 2u8 != 0) <==> (status / 2) % 2 == 1,
        (status & 4u8 != 0) <==> (status / 4) % 2 == 1,
        (status & 8u8 != 0) <==> (status / 8) % 2 == 1,
        (status & 16u8 != 0) <==> (status / 16) % 2 == 1,
{
    assert((status & 1u8 != 0) <==> status % 2 == 1) by (bit_vector);
    assert((status & 2u8 != 0) <==> (status / 2) % 2 == 1) by (bit_vector);
    assert((status & 4u8 != 0) <==> (status / 4) % 2 == 1) by (bit_vector);
    assert((status & 8u8 != 0) <==> (status / 8) % 2 == 1) by (bit_vector);
    assert((status & 16u8 != 0) <==> (status / 16) % 2 == 1) by (bit_vector);
}

/// The tick array of a pool that holds one end of a position's range. An
/// increase reads only which pool it belongs to; its ticks are the liquidity
/// engine's business.
#[derive(Clone, Copy, Debug, PartialEq, Eq)]
pub struct TickArrayState {
    /// The pool that the array belongs to.
    pub pool_id: Address,
}

} // verus!
