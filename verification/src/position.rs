//! Positions, and how a holder's position is brought up to date with the
//! record of its tick range.

use vstd::prelude::*;
use crate::address::Address;
use crate::error::ErrorCode;
use crate::fee_math::{checked_latest_token_fees, latest_token_fees, lemma_no_growth};

verus! {

/// The number of reward tokens that a pool can pay out.
pub const REWARD_NUM: usize = 3;

/// The record of one tick range of a pool, shared by all who hold liquidity
/// in that range. Its growth counters are Q64.64 numbers that wrap at `2^128`.
#[derive(Clone, Copy, Debug, PartialEq, Eq)]
pub struct ProtocolPositionState {
    /// The pool that the range belongs to.
    pub pool_id: Address,
    /// The lower end of the range.
    pub tick_lower_index: i32,
    /// The upper end of the range.
    pub tick_upper_index: i32,
    /// The liquidity that all holders together have in the range.
    pub liquidity: u128,
    /// The fees of the first token earned inside the range per unit of
    /// liquidity.
    pub fee_growth_inside_0_last_x64: u128,
    /// The fees of the second token earned inside the range per unit of
    /// liquidity.
    pub fee_growth_inside_1_last_x64: u128,
    /// Fees of the first token owed to the range.
    pub token_fees_owed_0: u64,
    /// Fees of the second token owed to the range.
    pub token_fees_owed_1: u64,
    /// The rewards earned inside the range per unit of liquidity, one counter
    /// for each reward token.
    pub reward_growth_inside: [u128; REWARD_NUM],
}

/// What a holder's position remembers of one reward token.
#[derive(Clone, Copy, Debug, PartialEq, Eq)]
pub struct PositionRewardInfo {
    /// The range's reward counter as the position saw it last.
    pub growth_inside_last_x64: u128,
    /// The reward owed to the position and not yet collected.
    pub reward_amount_owed: u64,
}

impl PositionRewardInfo {
    /// What is owed once the counter stands at `growth_inside_x64`: with
    /// `accrue`, what was owed plus what the growth earns on `liquidity`;
    /// without, what was owed.
    pub open spec fn owed_after(
        self,
        growth_inside_x64: u128,
        liquidity: u128,
        accrue: bool,
    ) -> nat {
        if accrue {
            latest_token_fees(
                self.reward_amount_owed,
                self.growth_inside_last_x64,
                growth_inside_x64,
                liquidity,
            )
        } else {
            self.reward_amount_owed as nat
        }
    }

    /// The slot once it has seen the counter at `growth_inside_x64`.
    pub open spec fn updated(self, growth_inside_x64: u128, liquidity: u128, accrue: bool) -> Self {
        PositionRewardInfo {
            growth_inside_last_x64: growth_inside_x64,
            reward_amount_owed: self.owed_after(growth_inside_x64, liquidity, accrue) as u64,
        }
    }
}

/// A holder's claim on the record of a tick range: its liquidity, the
/// counters as it saw them last, and what it is owed.
#[derive(Clone, Copy, Debug, PartialEq, Eq)]
pub struct PersonalPositionState {
    /// The mint of the token that stands for the position.
    pub nft_mint: Address,
    /// The pool that the position is in.
    pub pool_id: Address,
    /// The lower end of the position's range.
    pub tick_lower_index: i32,
    /// The upper end of the position's range.
    pub tick_upper_index: i32,
    /// The liquidity that the position holds.
    pub liquidity: u128,
    /// The range's fee counter of the first token as the position saw it
    /// last.
    pub fee_growth_inside_0_last_x64: u128,
    /// The range's fee counter of the second token as the position saw it
    /// last.
    pub fee_growth_inside_1_last_x64: u128,
    /// Fees of the first token owed to the position and not yet collected.
    pub token_fees_owed_0: u64,
    /// Fees of the second token owed to the position and not yet collected.
    pub token_fees_owed_1: u64,
    /// One slot for each reward token.
    pub reward_infos: [PositionRewardInfo; REWARD_NUM],
}

impl PersonalPositionState {
    /// Whether every reward slot can be brought up to `growths` without an
    /// owed amount leaving 64 bits.
    pub open spec fn rewards_fit(self, growths: [u128; REWARD_NUM], accrue: bool) -> bool {
        forall|i: int|
            0 <= i < REWARD_NUM ==> (#[trigger] self.reward_infos[i]).owed_after(
                growths[i],
                self.liquidity,
                accrue,
            ) <= u64::MAX
    }

    /// The position with every reward slot brought up to `growths`, on the
    /// liquidity that the position holds.
    pub open spec fn with_rewards(self, growths: [u128; REWARD_NUM], accrue: bool) -> Self {
        PersonalPositionState {
            reward_infos: [
                self.reward_infos[0].updated(growths[0], self.liquidity, accrue),
                self.reward_infos[1].updated(growths[1], self.liquidity, accrue),
                self.reward_infos[2].updated(growths[2], self.liquidity, accrue),
            ],
            ..self
        }
    }

    /// Brings every reward slot up to the range's counters
    /// `reward_growths_inside`. With `accrue`, each slot is first credited
    /// with what the growth since its last reading earns on the liquidity that
    /// the position holds now; without, only the readings move. Where a
    /// credit would leave 64 bits nothing is changed.
    pub fn update_rewards(
        &mut self,
        reward_growths_inside: [u128; REWARD_NUM],
        accrue: bool,
    ) -> (done: Result<(), ErrorCode>)
        ensures
            old(self).rewards_fit(reward_growths_inside, accrue) ==> {
                &&& done.is_ok()
                &&& *final(self) == old(self).with_rewards(reward_growths_inside, accrue)
            },
            !old(self).rewards_fit(reward_growths_inside, accrue) ==> {
                &&& done == Err::<(), ErrorCode>(ErrorCode::ArithmeticOverflow)
                &&& *final(self) == *old(self)
            },
    {
        let mut infos: [PositionRewardInfo; REWARD_NUM] = self.reward_infos;
        let mut i: usize = 0;
        while i < REWARD_NUM
            invariant
                i <= REWARD_NUM,
                *self == *old(self),
                forall|j: int|
                    0 <= j < i ==> (#[trigger] self.reward_infos[j]).owed_after(
                        reward_growths_inside[j],
                        self.liquidity,
                        accrue,
                    ) <= u64::MAX,
                forall|j: int|
                    0 <= j < i ==> infos[j] == (#[trigger] self.reward_infos[j]).updated(
                        reward_growths_inside[j],
                        self.liquidity,
                        accrue,
                    ),
                forall|j: int| i <= j < REWARD_NUM ==> infos[j] == #[trigger] self.reward_infos[j],
            decreases REWARD_NUM - i,
        {
            let info: PositionRewardInfo = infos[i];
            let growth: u128 = reward_growths_inside[i];
            let owed: u64 = if accrue {
                match checked_latest_token_fees(
                    info.reward_amount_owed,
                    info.growth_inside_last_x64,
                    growth,
                    self.liquidity,
                ) {
                    Some(owed) => owed,
                    None => {
                        assert(self.reward_infos[i as int].owed_after(
                            reward_growths_inside[i as int],
                            self.liquidity,
                            accrue,
                        ) > u64::MAX);
                        return Err(ErrorCode::ArithmeticOverflow);
                    },
                }
            } else {
                info.reward_amount_owed
            };
            infos[i] = PositionRewardInfo {
                growth_inside_last_x64: growth,
                reward_amount_owed: owed,
            };
            i = i + 1;
        }
        self.reward_infos = infos;
        assert(self.reward_infos =~= old(self).with_rewards(
            reward_growths_inside,
            accrue,
        ).reward_infos);
        Ok(())
    }

    /// Whether the position can be brought up to date with `protocol` without
    /// an owed amount leaving 64 bits.
    pub open spec fn can_synchronize(self, protocol: ProtocolPositionState) -> bool {
        &&& latest_token_fees(
            self.token_fees_owed_0,
            self.fee_growth_inside_0_last_x64,
            protocol.fee_growth_inside_0_last_x64,
            self.liquidity,
        ) <= u64::MAX
        &&& latest_token_fees(
            self.token_fees_owed_1,
            self.fee_growth_inside_1_last_x64,
            protocol.fee_growth_inside_1_last_x64,
            self.liquidity,
        ) <= u64::MAX
        &&& self.rewards_fit(protocol.reward_growth_inside, true)
    }

    /// The position brought up to date with `protocol`: the fees of both
    /// tokens and every reward credited on the liquidity that the position
    /// holds, and every reading set to the range's counter.
    pub open spec fn synchronized(self, protocol: ProtocolPositionState) -> Self {
        PersonalPositionState {
            token_fees_owed_0: latest_token_fees(
                self.token_fees_owed_0,
                self.fee_growth_inside_0_last_x64,
                protocol.fee_growth_inside_0_last_x64,
                self.liquidity,
            ) as u64,
            token_fees_owed_1: latest_token_fees(
                self.token_fees_owed_1,
                self.fee_growth_inside_1_last_x64,
                protocol.fee_growth_inside_1_last_x64,
                self.liquidity,
            ) as u64,
            fee_growth_inside_0_last_x64: protocol.fee_growth_inside_0_last_x64,
            fee_growth_inside_1_last_x64: protocol.fee_growth_inside_1_last_x64,
            ..self
        }.with_rewards(protocol.reward_growth_inside, true)
    }

    /// Brings the position up to date with the record of its range, in this
    /// order: the owed fees of both tokens are recomputed on the liquidity
    /// that the position holds, the fee readings are set to the range's
    /// counters, and the rewards are brought up to date on the same
    /// liquidity. It is to run before the liquidity changes. Where an owed
    /// amount would leave 64 bits nothing is changed.
    pub fn synchronize(&mut self, protocol: &ProtocolPositionState) -> (done: Result<(), ErrorCode>)
        ensures
            old(self).can_synchronize(*protocol) ==> {
                &&& done.is_ok()
                &&& *final(self) == old(self).synchronized(*protocol)
            },
            !old(self).can_synchronize(*protocol) ==> {
                &&& done == Err::<(), ErrorCode>(ErrorCode::ArithmeticOverflow)
                &&& *final(self) == *old(self)
            },
            final(self).liquidity == old(self).liquidity,
    {
        let mut position: PersonalPositionState = *self;
        let fees_0: Option<u64> = checked_latest_token_fees(
            position.token_fees_owed_0,
            position.fee_growth_inside_0_last_x64,
            protocol.fee_growth_inside_0_last_x64,
            position.liquidity,
        );
        let fees_1: Option<u64> = checked_latest_token_fees(
            position.token_fees_owed_1,
            position.fee_growth_inside_1_last_x64,
            protocol.fee_growth_inside_1_last_x64,
            position.liquidity,
        );
        match (fees_0, fees_1) {
            (Some(owed_0), Some(owed_1)) => {
                position.token_fees_owed_0 = owed_0;
                position.token_fees_owed_1 = owed_1;
                position.fee_growth_inside_0_last_x64 = protocol.fee_growth_inside_0_last_x64;
                position.fee_growth_inside_1_last_x64 = protocol.fee_growth_inside_1_last_x64;
                // The rewards follow the fees and precede any change of liquidity.
                match position.update_rewards(protocol.reward_growth_inside, true) {
                    Ok(()) => {
                        *self = position;
                        Ok(())
                    },
                    Err(error) => Err(error),
                }
            },
            _ => Err(ErrorCode::ArithmeticOverflow),
        }
    }
}

/// Checkpoint equality: once a position is synchronized, each of its readings
/// is the range's counter, bit for bit.
pub proof fn lemma_checkpoints_after_sync(
    position: PersonalPositionState,
    protocol: ProtocolPositionState,
)
    ensures
        position.synchronized(protocol).fee_growth_inside_0_last_x64
            == protocol.fee_growth_inside_0_last_x64,
        position.synchronized(protocol).fee_growth_inside_1_last_x64
            == protocol.fee_growth_inside_1_last_x64,
        forall|i: int|
            0 <= i < REWARD_NUM ==> (#[trigger] position.synchronized(
                protocol,
            ).reward_infos[i]).growth_inside_last_x64 == protocol.reward_growth_inside[i],
{
}

/// Owed amounts only grow: where a position can be synchronized, none of its
/// owed fees or rewards is lower afterwards.
pub proof fn lemma_sync_never_lowers_owed(
    position: PersonalPositionState,
    protocol: ProtocolPositionState,
)
    requires
        position.can_synchronize(protocol),
    ensures
        position.synchronized(protocol).token_fees_owed_0 >= position.token_fees_owed_0,
        position.synchronized(protocol).token_fees_owed_1 >= position.token_fees_owed_1,
        forall|i: int|
            0 <= i < REWARD_NUM ==> (#[trigger] position.synchronized(
                protocol,
            ).reward_infos[i]).reward_amount_owed >= position.reward_infos[i].reward_amount_owed,
{
    assert(position.reward_infos[0].owed_after(
        protocol.reward_growth_inside[0],
        position.liquidity,
        true,
    ) <= u64::MAX);
    assert(position.reward_infos[1].owed_after(
        protocol.reward_growth_inside[1],
        position.liquidity,
        true,
    ) <= u64::MAX);
    assert(position.reward_infos[2].owed_after(
        protocol.reward_growth_inside[2],
        position.liquidity,
        true,
    ) <= u64::MAX);
}

/// Synchronizing twice is synchronizing once: against a range whose counters
/// have not moved, a synchronized position does not change.
pub proof fn lemma_sync_idempotent(position: PersonalPositionState, protocol: ProtocolPositionState)
    requires
        position.can_synchronize(protocol),
    ensures
        position.synchronized(protocol).can_synchronize(protocol),
        position.synchronized(protocol).synchronized(protocol) == position.synchronized(protocol),
{
    let once = position.synchronized(protocol);
    lemma_no_growth(once.token_fees_owed_0, protocol.fee_growth_inside_0_last_x64, once.liquidity);
    lemma_no_growth(once.token_fees_owed_1, protocol.fee_growth_inside_1_last_x64, once.liquidity);
    assert forall|i: int| 0 <= i < REWARD_NUM implies (#[trigger] once.reward_infos[i]).owed_after(
        protocol.reward_growth_inside[i],
        once.liquidity,
        true,
    ) == once.reward_infos[i].reward_amount_owed by {
        lemma_no_growth(
            once.reward_infos[i].reward_amount_owed,
            protocol.reward_growth_inside[i],
            once.liquidity,
        );
    }
    let twice = once.synchronized(protocol);
    assert(twice.reward_infos =~= once.reward_infos);
}

} // verus!
