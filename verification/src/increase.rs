//! The increase of a position's liquidity.
//!
//! An increase is decided here and carried out elsewhere: the amounts that a
//! liquidity is worth, the bookkeeping of ticks and the transfer of tokens
//! are the work of a liquidity engine that this library does not contain.
//! [`increase_liquidity`] therefore runs twice. Asked first without a report,
//! it checks the pool's status and the extension bitmap and answers with the
//! request to put to the engine. Asked again with the engine's report, it
//! brings the position up to date, adds the liquidity and answers with the
//! event to publish. Whenever it answers with an error it has changed nothing.

use vstd::prelude::*;
use crate::address::{
    bitmap_extension_seeds, is_derived, lemma_address_by_bytes, program_address,
    tickarray_bitmap_extension_key, Address,
};
use crate::error::ErrorCode;
use crate::fee_math::latest_token_fees;
use crate::pool::{PoolState, PoolStatusBitIndex};
use crate::position::{PersonalPositionState, ProtocolPositionState, REWARD_NUM};

verus! {

/// The token standard under which the tokens of an increase move.
#[derive(Clone, Copy, Debug, PartialEq, Eq)]
pub enum TokenStandard {
    /// The primary standard: its program alone moves the tokens.
    Token,
    /// The secondary standard, whose program reads the mints of both vaults.
    Token2022 { token_program_2022: Address, vault_0_mint: Address, vault_1_mint: Address },
}

/// What the orchestrator asks of the liquidity engine.
#[derive(Clone, Copy, Debug, PartialEq, Eq)]
pub struct AddLiquidityRequest {
    /// The liquidity asked for; it may be 0 where `base_flag` sizes by an
    /// amount.
    pub liquidity: u128,
    /// The most of the first token that may be spent.
    pub amount_0_max: u64,
    /// The most of the second token that may be spent.
    pub amount_1_max: u64,
    /// The lower end of the position's range.
    pub tick_lower: i32,
    /// The upper end of the position's range.
    pub tick_upper: i32,
    /// Where set, the increase is sized by an amount of one token and not by
    /// `liquidity`.
    pub base_flag: Option<bool>,
    /// The token standard in use.
    pub token_standard: TokenStandard,
    /// The pool's extension bitmap, where the range needs it.
    pub tickarray_bitmap_extension: Option<Address>,
}

/// What the liquidity engine reports once it has moved the tokens.
#[derive(Clone, Copy, Debug, PartialEq, Eq)]
pub struct AddLiquidityReport {
    /// The pool as the engine left it.
    pub pool_state: PoolState,
    /// The record of the range as the engine left it.
    pub protocol_position: ProtocolPositionState,
    /// The liquidity that the engine applied.
    pub liquidity: u128,
    /// What was spent of the first token, after its transfer fee.
    pub amount_0: u64,
    /// What was spent of the second token, after its transfer fee.
    pub amount_1: u64,
    /// The transfer fee on the first token.
    pub amount_0_transfer_fee: u64,
    /// The transfer fee on the second token.
    pub amount_1_transfer_fee: u64,
}

/// The record of an increase, for those who follow the pool from outside.
#[derive(Clone, Copy, Debug, PartialEq, Eq)]
pub struct IncreaseLiquidityEvent {
    /// The mint of the token that stands for the position.
    pub position_nft_mint: Address,
    /// The liquidity added.
    pub liquidity: u128,
    /// What was spent of the first token.
    pub amount_0: u64,
    /// What was spent of the second token.
    pub amount_1: u64,
    /// The transfer fee on the first token.
    pub amount_0_transfer_fee: u64,
    /// The transfer fee on the second token.
    pub amount_1_transfer_fee: u64,
}

/// What the caller of [`increase_liquidity`] is to do next.
#[derive(Clone, Copy, Debug, PartialEq, Eq)]
pub enum IncreaseAction {
    /// Put the request to the liquidity engine and come back with its report.
    AddLiquidity(AddLiquidityRequest),
    /// The increase is committed: publish the event.
    Emit(IncreaseLiquidityEvent),
}

/// The accounts after a call of [`increase_liquidity`], and its answer.
pub struct IncreaseOutcome {
    pub action: Result<IncreaseAction, ErrorCode>,
    pub pool_state: PoolState,
    pub protocol_position: ProtocolPositionState,
    pub personal_position: PersonalPositionState,
}

/// Whether a range needs the pool's extension bitmap: one of its ends lies
/// outside the pool's own bitmap.
pub open spec fn needs_bitmap_extension(
    pool_state: PoolState,
    tick_lower: i32,
    tick_upper: i32,
) -> bool {
    !pool_state.covers(tick_lower) || !pool_state.covers(tick_upper)
}

/// The extension bitmap that goes to the engine, given the account `supplied`
/// and the address `derived` for the pool: none where the range does not need
/// one, whatever was supplied; else the account supplied, which must be there
/// and sit at the derived address.
pub open spec fn bitmap_extension_for(
    needed: bool,
    supplied: Option<Address>,
    derived: Option<Seq<u8>>,
) -> Result<Option<Address>, ErrorCode> {
    if !needed {
        Ok(None)
    } else {
        match supplied {
            None => Err(ErrorCode::MissingTickArrayBitmapExtensionAccount),
            Some(key) => if is_derived(key, derived) {
                Ok(Some(key))
            } else {
                Err(ErrorCode::RequireKeysEqViolated)
            },
        }
    }
}

/// The request that an increase puts to the engine, or the error that stops
/// it before the engine is asked: the pool's status must open the operation,
/// and the range must have its extension bitmap where it needs one.
pub open spec fn delegation(
    program_id: Address,
    pool_id: Address,
    pool_state: PoolState,
    personal_position: PersonalPositionState,
    token_standard: TokenStandard,
    tickarray_bitmap_extension: Option<Address>,
    liquidity: u128,
    amount_0_max: u64,
    amount_1_max: u64,
    base_flag: Option<bool>,
) -> Result<AddLiquidityRequest, ErrorCode> {
    if !pool_state.permits(PoolStatusBitIndex::OpenPositionOrIncreaseLiquidity) {
        Err(ErrorCode::NotApproved)
    } else {
        match bitmap_extension_for(
            needs_bitmap_extension(
                pool_state,
                personal_position.tick_lower_index,
                personal_position.tick_upper_index,
            ),
            tickarray_bitmap_extension,
            program_address(bitmap_extension_seeds(pool_id), program_id@),
        ) {
            Err(error) => Err(error),
            Ok(extension) => Ok(
                AddLiquidityRequest {
                    liquidity,
                    amount_0_max,
                    amount_1_max,
                    tick_lower: personal_position.tick_lower_index,
                    tick_upper: personal_position.tick_upper_index,
                    base_flag,
                    token_standard,
                    tickarray_bitmap_extension: extension,
                },
            ),
        }
    }
}

/// The position once the engine's report is settled: brought up to date with
/// the range as the engine left it, on the liquidity it held before, and only
/// then holding the liquidity applied as well. `None` where an owed amount or
/// the liquidity would leave its integer range.
pub open spec fn settled(
    personal_position: PersonalPositionState,
    report: AddLiquidityReport,
) -> Option<PersonalPositionState> {
    if personal_position.can_synchronize(report.protocol_position) && personal_position.liquidity
        + report.liquidity <= u128::MAX {
        Some(
            PersonalPositionState {
                liquidity: (personal_position.liquidity + report.liquidity) as u128,
                ..personal_position.synchronized(report.protocol_position)
            },
        )
    } else {
        None
    }
}

/// The event that records a settled report.
pub open spec fn event_of(
    personal_position: PersonalPositionState,
    report: AddLiquidityReport,
) -> IncreaseLiquidityEvent {
    IncreaseLiquidityEvent {
        position_nft_mint: personal_position.nft_mint,
        liquidity: report.liquidity,
        amount_0: report.amount_0,
        amount_1: report.amount_1,
        amount_0_transfer_fee: report.amount_0_transfer_fee,
        amount_1_transfer_fee: report.amount_1_transfer_fee,
    }
}

/// What [`increase_liquidity`] answers and what it leaves in the accounts.
pub open spec fn increase_outcome(
    program_id: Address,
    pool_id: Address,
    pool_state: PoolState,
    protocol_position: ProtocolPositionState,
    personal_position: PersonalPositionState,
    token_standard: TokenStandard,
    tickarray_bitmap_extension: Option<Address>,
    liquidity: u128,
    amount_0_max: u64,
    amount_1_max: u64,
    base_flag: Option<bool>,
    report: Option<Result<AddLiquidityReport, ErrorCode>>,
) -> IncreaseOutcome {
    let untouched = |action: Result<IncreaseAction, ErrorCode>|
        IncreaseOutcome { action, pool_state, protocol_position, personal_position };
    match delegation(
        program_id,
        pool_id,
        pool_state,
        personal_position,
        token_standard,
        tickarray_bitmap_extension,
        liquidity,
        amount_0_max,
        amount_1_max,
        base_flag,
    ) {
        Err(error) => untouched(Err(error)),
        Ok(request) => match report {
            None => untouched(Ok(IncreaseAction::AddLiquidity(request))),
            Some(Err(error)) => untouched(Err(error)),
            Some(Ok(report)) => match settled(personal_position, report) {
                None => untouched(Err(ErrorCode::ArithmeticOverflow)),
                Some(position) => IncreaseOutcome {
                    action: Ok(IncreaseAction::Emit(event_of(personal_position, report))),
                    pool_state: report.pool_state,
                    protocol_position: report.protocol_position,
                    personal_position: position,
                },
            },
        },
    }
}

/// Holds the extension bitmap account `supplied` against the address
/// `derived` for the pool.
pub fn check_bitmap_extension(supplied: &Address, derived: &Option<Address>) -> (checked: Result<
    Address,
    ErrorCode,
>)
    ensures
        *derived == Some(*supplied) ==> checked == Ok::<Address, ErrorCode>(*supplied),
        *derived != Some(*supplied) ==> checked == Err::<Address, ErrorCode>(
            ErrorCode::RequireKeysEqViolated,
        ),
{
    match derived {
        Some(expected) => {
            if supplied.same(expected) {
                Ok(*supplied)
            } else {
                Err(ErrorCode::RequireKeysEqViolated)
            }
        },
        None => Err(ErrorCode::RequireKeysEqViolated),
    }
}

/// Decides what an increase asks of the liquidity engine: checks that the
/// pool's status opens the operation, finds out whether the range needs the
/// extension bitmap, and where it does holds the account supplied against the
/// address derived for the pool. An account supplied without need is passed
/// over.
pub fn prepare_add_liquidity(
    program_id: &Address,
    pool_id: &Address,
    pool_state: &PoolState,
    personal_position: &PersonalPositionState,
    token_standard: TokenStandard,
    tickarray_bitmap_extension: Option<Address>,
    liquidity: u128,
    amount_0_max: u64,
    amount_1_max: u64,
    base_flag: Option<bool>,
) -> (request: Result<AddLiquidityRequest, ErrorCode>)
    ensures
        request == delegation(
            *program_id,
            *pool_id,
            *pool_state,
            *personal_position,
            token_standard,
            tickarray_bitmap_extension,
            liquidity,
            amount_0_max,
            amount_1_max,
            base_flag,
        ),
{
    if !pool_state.get_status_by_bit(PoolStatusBitIndex::OpenPositionOrIncreaseLiquidity) {
        return Err(ErrorCode::NotApproved);
    }
    let tick_lower: i32 = personal_position.tick_lower_index;
    let tick_upper: i32 = personal_position.tick_upper_index;
    let ticks: Vec<i32> = vec![tick_lower, tick_upper];
    assert(pool_state.overflows_default_bitmap(ticks@) == needs_bitmap_extension(
        *pool_state,
        tick_lower,
        tick_upper,
    )) by {
        assert(ticks@[0] == tick_lower && ticks@[1] == tick_upper);
    }
    let use_tickarray_bitmap_extension: bool = pool_state.is_overflow_default_tickarray_bitmap(
        ticks,
    );
    let extension: Option<Address> = if use_tickarray_bitmap_extension {
        match tickarray_bitmap_extension {
            None => {
                return Err(ErrorCode::MissingTickArrayBitmapExtensionAccount);
            },
            Some(supplied) => {
                let derived: Option<Address> = tickarray_bitmap_extension_key(program_id, pool_id);
                proof {
                    if let Some(expected) = derived {
                        lemma_address_by_bytes(supplied, expected);
                    }
                }
                match check_bitmap_extension(&supplied, &derived) {
                    Ok(key) => Some(key),
                    Err(error) => {
                        return Err(error);
                    },
                }
            },
        }
    } else {
        None
    };
    Ok(
        AddLiquidityRequest {
            liquidity,
            amount_0_max,
            amount_1_max,
            tick_lower,
            tick_upper,
            base_flag,
            token_standard,
            tickarray_bitmap_extension: extension,
        },
    )
}

/// Settles the engine's report on a position: brings the position up to date
/// with the range as the engine left it, on the liquidity that the position
/// held before the increase, then adds the liquidity applied, and hands back
/// the event that records it. Where an owed amount or the liquidity would
/// leave its integer range the position is left as it was.
pub fn settle(personal_position: &mut PersonalPositionState, report: &AddLiquidityReport) -> (event:
    Result<IncreaseLiquidityEvent, ErrorCode>)
    ensures
        settled(*old(personal_position), *report) matches Some(position) ==> {
            &&& *final(personal_position) == position
            &&& event == Ok::<IncreaseLiquidityEvent, ErrorCode>(
                event_of(*old(personal_position), *report),
            )
        },
        settled(*old(personal_position), *report).is_none() ==> {
            &&& *final(personal_position) == *old(personal_position)
            &&& event == Err::<IncreaseLiquidityEvent, ErrorCode>(ErrorCode::ArithmeticOverflow)
        },
{
    let mut position: PersonalPositionState = *personal_position;
    match position.synchronize(&report.protocol_position) {
        Err(error) => Err(error),
        Ok(()) => match position.liquidity.checked_add(report.liquidity) {
            None => Err(ErrorCode::ArithmeticOverflow),
            Some(liquidity) => {
                position.liquidity = liquidity;
                *personal_position = position;
                Ok(
                    IncreaseLiquidityEvent {
                        position_nft_mint: position.nft_mint,
                        liquidity: report.liquidity,
                        amount_0: report.amount_0,
                        amount_1: report.amount_1,
                        amount_0_transfer_fee: report.amount_0_transfer_fee,
                        amount_1_transfer_fee: report.amount_1_transfer_fee,
                    },
                )
            },
        },
    }
}

/// Increases the liquidity of a position, one decision at a time.
///
/// The pool's status must open the operation, and a range that reaches
/// outside the pool's own bitmap must come with the pool's extension bitmap,
/// at the address derived for the pool. Then, without a `report`, the answer
/// is the request to put to the liquidity engine. With the engine's failure
/// the answer is that failure. With the engine's report the position is
/// brought up to date on the liquidity it held before, the liquidity applied
/// is added to it, the pool and the range are taken as the engine left them,
/// and the answer is the event to publish.
///
/// The accounts change only in that last case: with any error, and with the
/// request, they are left exactly as they were.
pub fn increase_liquidity(
    program_id: &Address,
    pool_id: &Address,
    pool_state: &mut PoolState,
    protocol_position: &mut ProtocolPositionState,
    personal_position: &mut PersonalPositionState,
    token_standard: TokenStandard,
    tickarray_bitmap_extension: Option<Address>,
    liquidity: u128,
    amount_0_max: u64,
    amount_1_max: u64,
    base_flag: Option<bool>,
    report: Option<Result<AddLiquidityReport, ErrorCode>>,
) -> (action: Result<IncreaseAction, ErrorCode>)
    ensures
        (IncreaseOutcome {
            action,
            pool_state: *final(pool_state),
            protocol_position: *final(protocol_position),
            personal_position: *final(personal_position),
        }) == increase_outcome(
            *program_id,
            *pool_id,
            *old(pool_state),
            *old(protocol_position),
            *old(personal_position),
            token_standard,
            tickarray_bitmap_extension,
            liquidity,
            amount_0_max,
            amount_1_max,
            base_flag,
            report,
        ),
        !(action matches Ok(IncreaseAction::Emit(_))) ==> *final(pool_state) == *old(pool_state)
            && *final(protocol_position) == *old(protocol_position) && *final(personal_position)
            == *old(personal_position),
{
    let request: AddLiquidityRequest = match prepare_add_liquidity(
        program_id,
        pool_id,
        pool_state,
        personal_position,
        token_standard,
        tickarray_bitmap_extension,
        liquidity,
        amount_0_max,
        amount_1_max,
        base_flag,
    ) {
        Ok(request) => request,
        Err(error) => {
            return Err(error);
        },
    };
    match report {
        None => Ok(IncreaseAction::AddLiquidity(request)),
        Some(Err(error)) => Err(error),
        Some(Ok(report)) => match settle(personal_position, &report) {
            Err(error) => Err(error),
            Ok(event) => {
                *pool_state = report.pool_state;
                *protocol_position = report.protocol_position;
                Ok(IncreaseAction::Emit(event))
            },
        },
    }
}

/// Ordering: what a settled increase credits is computed on the liquidity
/// that the position held before the increase, and the liquidity applied is
/// added only afterwards. So the owed fees and rewards of the settled
/// position `after` do not depend on how much liquidity was applied.
pub proof fn lemma_accrual_uses_held_liquidity(
    personal_position: PersonalPositionState,
    report: AddLiquidityReport,
    after: PersonalPositionState,
)
    requires
        settled(personal_position, report) == Some(after),
    ensures
        after.liquidity == personal_position.liquidity + report.liquidity,
        after.token_fees_owed_0 == latest_token_fees(
            personal_position.token_fees_owed_0,
            personal_position.fee_growth_inside_0_last_x64,
            report.protocol_position.fee_growth_inside_0_last_x64,
            personal_position.liquidity,
        ),
        after.token_fees_owed_1 == latest_token_fees(
            personal_position.token_fees_owed_1,
            personal_position.fee_growth_inside_1_last_x64,
            report.protocol_position.fee_growth_inside_1_last_x64,
            personal_position.liquidity,
        ),
        forall|i: int|
            0 <= i < REWARD_NUM ==> (#[trigger] after.reward_infos[i]).reward_amount_owed
                == latest_token_fees(
                personal_position.reward_infos[i].reward_amount_owed,
                personal_position.reward_infos[i].growth_inside_last_x64,
                report.protocol_position.reward_growth_inside[i],
                personal_position.liquidity,
            ),
{
    let range = report.protocol_position;
    assert(personal_position.reward_infos[0].owed_after(
        range.reward_growth_inside[0],
        personal_position.liquidity,
        true,
    ) <= u64::MAX);
    assert(personal_position.reward_infos[1].owed_after(
        range.reward_growth_inside[1],
        personal_position.liquidity,
        true,
    ) <= u64::MAX);
    assert(personal_position.reward_infos[2].owed_after(
        range.reward_growth_inside[2],
        personal_position.liquidity,
        true,
    ) <= u64::MAX);
}

/// Checkpoint equality: once an increase is settled, each reading of the
/// position is the counter of the range as the engine left it, bit for bit.
pub proof fn lemma_checkpoints_after_increase(
    personal_position: PersonalPositionState,
    report: AddLiquidityReport,
    after: PersonalPositionState,
)
    requires
        settled(personal_position, report) == Some(after),
    ensures
        after.fee_growth_inside_0_last_x64 == report.protocol_position.fee_growth_inside_0_last_x64,
        after.fee_growth_inside_1_last_x64 == report.protocol_position.fee_growth_inside_1_last_x64,
        forall|i: int|
            0 <= i < REWARD_NUM ==> (#[trigger] after.reward_infos[i]).growth_inside_last_x64
                == report.protocol_position.reward_growth_inside[i],
{
}

/// Atomicity: whatever stops an increase, be it the pool's status, the
/// extension bitmap, the engine's failure or an integer range, the pool, the
/// range and the position are left exactly as they were. The engine's failure
/// and a closed status always stop it.
pub proof fn lemma_failure_changes_nothing(
    program_id: Address,
    pool_id: Address,
    pool_state: PoolState,
    protocol_position: ProtocolPositionState,
    personal_position: PersonalPositionState,
    token_standard: TokenStandard,
    tickarray_bitmap_extension: Option<Address>,
    liquidity: u128,
    amount_0_max: u64,
    amount_1_max: u64,
    base_flag: Option<bool>,
    report: Option<Result<AddLiquidityReport, ErrorCode>>,
    outcome: IncreaseOutcome,
)
    requires
        outcome == increase_outcome(
            program_id,
            pool_id,
            pool_state,
            protocol_position,
            personal_position,
            token_standard,
            tickarray_bitmap_extension,
            liquidity,
            amount_0_max,
            amount_1_max,
            base_flag,
            report,
        ),
    ensures
        outcome.action.is_err() ==> outcome.pool_state == pool_state,
        outcome.action.is_err() ==> outcome.protocol_position == protocol_position,
        outcome.action.is_err() ==> outcome.personal_position == personal_position,
        (report matches Some(Err(_))) ==> outcome.action.is_err(),
        !pool_state.permits(PoolStatusBitIndex::OpenPositionOrIncreaseLiquidity)
            ==> outcome.action == Err::<IncreaseAction, ErrorCode>(ErrorCode::NotApproved),
{
}

/// The position stays within its range: where the position held no more
/// liquidity than the range, and the engine added to the range what it
/// applied, the settled position holds no more than the range either.
pub proof fn lemma_liquidity_within_range(
    protocol_position: ProtocolPositionState,
    personal_position: PersonalPositionState,
    report: AddLiquidityReport,
)
    requires
        personal_position.liquidity <= protocol_position.liquidity,
        report.protocol_position.liquidity == protocol_position.liquidity + report.liquidity,
        settled(personal_position, report).is_some(),
    ensures
        settled(personal_position, report).unwrap().liquidity <= report.protocol_position.liquidity,
{
}

} // verus!
