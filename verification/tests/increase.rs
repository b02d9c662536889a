use clmm_liquidity::address::{tickarray_bitmap_extension_key, Address};
use clmm_liquidity::error::ErrorCode;
use clmm_liquidity::increase::{
    check_bitmap_extension, increase_liquidity, prepare_add_liquidity, settle, AddLiquidityReport,
    AddLiquidityRequest, IncreaseAction, IncreaseLiquidityEvent, TokenStandard,
};
use clmm_liquidity::pool::PoolState;
use clmm_liquidity::position::{PersonalPositionState, PositionRewardInfo, ProtocolPositionState};

const ONE: u128 = 1u128 << 64;

fn program() -> Address {
    Address::new([9; 32])
}

fn pool_id() -> Address {
    Address::new([4; 32])
}

fn open_pool() -> PoolState {
    PoolState {
        status: 0b0_0001,
        tick_current: 17,
        token_vault_0: Address::new([10; 32]),
        token_vault_1: Address::new([11; 32]),
        bitmap_tick_lower: -30720,
        bitmap_tick_upper: 30720,
    }
}

fn range_before() -> ProtocolPositionState {
    ProtocolPositionState {
        pool_id: pool_id(),
        tick_lower_index: -120,
        tick_upper_index: 360,
        liquidity: 1_000,
        fee_growth_inside_0_last_x64: ONE,
        fee_growth_inside_1_last_x64: 5 * ONE,
        token_fees_owed_0: 0,
        token_fees_owed_1: 0,
        reward_growth_inside: [ONE, 7 * ONE, 0],
    }
}

fn range_after(applied: u128) -> ProtocolPositionState {
    ProtocolPositionState {
        liquidity: 1_000 + applied,
        fee_growth_inside_0_last_x64: 3 * ONE,
        fee_growth_inside_1_last_x64: 5 * ONE + ONE / 2,
        reward_growth_inside: [2 * ONE, 7 * ONE, 4 * ONE],
        ..range_before()
    }
}

fn position_before() -> PersonalPositionState {
    PersonalPositionState {
        nft_mint: Address::new([6; 32]),
        pool_id: pool_id(),
        tick_lower_index: -120,
        tick_upper_index: 360,
        liquidity: 10,
        fee_growth_inside_0_last_x64: ONE,
        fee_growth_inside_1_last_x64: 5 * ONE,
        token_fees_owed_0: 100,
        token_fees_owed_1: 200,
        reward_infos: [
            PositionRewardInfo { growth_inside_last_x64: ONE, reward_amount_owed: 1 },
            PositionRewardInfo { growth_inside_last_x64: 7 * ONE, reward_amount_owed: 2 },
            PositionRewardInfo { growth_inside_last_x64: 0, reward_amount_owed: 3 },
        ],
    }
}

fn engine_report(applied: u128) -> AddLiquidityReport {
    AddLiquidityReport {
        pool_state: PoolState { tick_current: 18, ..open_pool() },
        protocol_position: range_after(applied),
        liquidity: applied,
        amount_0: 700,
        amount_1: 900,
        amount_0_transfer_fee: 7,
        amount_1_transfer_fee: 9,
    }
}

fn run(
    pool: &mut PoolState,
    range: &mut ProtocolPositionState,
    position: &mut PersonalPositionState,
    extension: Option<Address>,
    report: Option<Result<AddLiquidityReport, ErrorCode>>,
) -> Result<IncreaseAction, ErrorCode> {
    increase_liquidity(
        &program(),
        &pool_id(),
        pool,
        range,
        position,
        TokenStandard::Token,
        extension,
        50,
        1_000,
        2_000,
        None,
        report,
    )
}

#[test]
fn first_call_answers_with_the_request() {
    let (mut pool, mut range, mut position) = (open_pool(), range_before(), position_before());
    let action = run(&mut pool, &mut range, &mut position, None, None);
    assert_eq!(
        action,
        Ok(IncreaseAction::AddLiquidity(AddLiquidityRequest {
            liquidity: 50,
            amount_0_max: 1_000,
            amount_1_max: 2_000,
            tick_lower: -120,
            tick_upper: 360,
            base_flag: None,
            token_standard: TokenStandard::Token,
            tickarray_bitmap_extension: None,
        }))
    );
    assert_eq!((pool, range, position), (open_pool(), range_before(), position_before()));
}

#[test]
fn request_carries_standard_and_base_flag() {
    let standard = TokenStandard::Token2022 {
        token_program_2022: Address::new([20; 32]),
        vault_0_mint: Address::new([21; 32]),
        vault_1_mint: Address::new([22; 32]),
    };
    let request = prepare_add_liquidity(
        &program(),
        &pool_id(),
        &open_pool(),
        &position_before(),
        standard,
        None,
        0,
        5,
        6,
        Some(true),
    );
    assert_eq!(
        request,
        Ok(AddLiquidityRequest {
            liquidity: 0,
            amount_0_max: 5,
            amount_1_max: 6,
            tick_lower: -120,
            tick_upper: 360,
            base_flag: Some(true),
            token_standard: standard,
            tickarray_bitmap_extension: None,
        })
    );
}

#[test]
fn closed_status_stops_before_anything_changes() {
    for status in [0u8, 0b1_1110, 0b1000_0000] {
        for report in [None, Some(Ok(engine_report(50))), Some(Err(ErrorCode::PriceSlippageCheck))] {
            let closed = PoolState { status, ..open_pool() };
            let (mut pool, mut range, mut position) = (closed, range_before(), position_before());
            let action = run(&mut pool, &mut range, &mut position, None, report);
            assert_eq!(action, Err(ErrorCode::NotApproved));
            assert_eq!((pool, range, position), (closed, range_before(), position_before()));
        }
    }
}

#[test]
fn range_outside_the_bitmap_needs_the_extension_account() {
    for (lower, upper) in [(-40000, 360), (-120, 30720), (-30721, 30720)] {
        let mut outside = position_before();
        outside.tick_lower_index = lower;
        outside.tick_upper_index = upper;
        for report in [None, Some(Ok(engine_report(50)))] {
            let (mut pool, mut range, mut position) = (open_pool(), range_before(), outside);
            let action = run(&mut pool, &mut range, &mut position, None, report);
            assert_eq!(action, Err(ErrorCode::MissingTickArrayBitmapExtensionAccount));
            assert_eq!((pool, range, position), (open_pool(), range_before(), outside));
        }
    }
}

#[test]
fn wrong_extension_account_is_refused() {
    let mut outside = position_before();
    outside.tick_upper_index = 40000;
    for wrong in [pool_id(), program(), Address::new([0; 32])] {
        let (mut pool, mut range, mut position) = (open_pool(), range_before(), outside);
        let action =
            run(&mut pool, &mut range, &mut position, Some(wrong), Some(Ok(engine_report(50))));
        assert_eq!(action, Err(ErrorCode::RequireKeysEqViolated));
        assert_eq!((pool, range, position), (open_pool(), range_before(), outside));
    }
}

#[test]
fn derived_extension_account_goes_to_the_engine() {
    let mut outside = position_before();
    outside.tick_upper_index = 40000;
    let extension = tickarray_bitmap_extension_key(&program(), &pool_id()).unwrap();
    let (mut pool, mut range, mut position) = (open_pool(), range_before(), outside);
    let action = run(&mut pool, &mut range, &mut position, Some(extension), None);
    match action {
        Ok(IncreaseAction::AddLiquidity(request)) => {
            assert_eq!(request.tickarray_bitmap_extension, Some(extension));
            assert_eq!(request.tick_lower, -120);
            assert_eq!(request.tick_upper, 40000);
        }
        other => panic!("unexpected answer {:?}", other),
    }
    // The extension of another pool is not this pool's.
    let other = tickarray_bitmap_extension_key(&program(), &Address::new([5; 32])).unwrap();
    let action = run(&mut pool, &mut range, &mut position, Some(other), None);
    assert_eq!(action, Err(ErrorCode::RequireKeysEqViolated));
}

#[test]
fn extension_account_without_need_is_passed_over() {
    let (mut pool, mut range, mut position) = (open_pool(), range_before(), position_before());
    let action = run(&mut pool, &mut range, &mut position, Some(Address::new([77; 32])), None);
    match action {
        Ok(IncreaseAction::AddLiquidity(request)) => {
            assert_eq!(request.tickarray_bitmap_extension, None)
        }
        other => panic!("unexpected answer {:?}", other),
    }
}

#[test]
fn bitmap_extension_is_held_against_the_derived_address() {
    let key = Address::new([3; 32]);
    assert_eq!(check_bitmap_extension(&key, &Some(Address::new([3; 32]))), Ok(key));
    assert_eq!(
        check_bitmap_extension(&key, &Some(Address::new([2; 32]))),
        Err(ErrorCode::RequireKeysEqViolated)
    );
    assert_eq!(check_bitmap_extension(&key, &None), Err(ErrorCode::RequireKeysEqViolated));
}

#[test]
fn engine_failure_changes_nothing() {
    for error in [
        ErrorCode::PriceSlippageCheck,
        ErrorCode::InvalidLiquidity,
        ErrorCode::LiquidityEngine(6001),
    ] {
        let (mut pool, mut range, mut position) = (open_pool(), range_before(), position_before());
        let action = run(&mut pool, &mut range, &mut position, None, Some(Err(error)));
        assert_eq!(action, Err(error));
        assert_eq!((pool, range, position), (open_pool(), range_before(), position_before()));
    }
}

#[test]
fn report_is_settled_on_the_liquidity_held_before() {
    let (mut pool, mut range, mut position) = (open_pool(), range_before(), position_before());
    let report = engine_report(50);
    let action = run(&mut pool, &mut range, &mut position, None, Some(Ok(report)));
    assert_eq!(
        action,
        Ok(IncreaseAction::Emit(IncreaseLiquidityEvent {
            position_nft_mint: Address::new([6; 32]),
            liquidity: 50,
            amount_0: 700,
            amount_1: 900,
            amount_0_transfer_fee: 7,
            amount_1_transfer_fee: 9,
        }))
    );
    // Credited on the 10 held before, not on the 60 held now: with 60 the
    // amounts would be 220, 230, 61, 2 and 243.
    assert_eq!(
        position,
        PersonalPositionState {
            liquidity: 60,
            fee_growth_inside_0_last_x64: 3 * ONE,
            fee_growth_inside_1_last_x64: 5 * ONE + ONE / 2,
            token_fees_owed_0: 120,
            token_fees_owed_1: 205,
            reward_infos: [
                PositionRewardInfo { growth_inside_last_x64: 2 * ONE, reward_amount_owed: 11 },
                PositionRewardInfo { growth_inside_last_x64: 7 * ONE, reward_amount_owed: 2 },
                PositionRewardInfo { growth_inside_last_x64: 4 * ONE, reward_amount_owed: 43 },
            ],
            ..position_before()
        }
    );
    // The pool and the range are as the engine left them.
    assert_eq!(pool, report.pool_state);
    assert_eq!(range, report.protocol_position);
    assert!(position.liquidity <= range.liquidity);
}

#[test]
fn owed_amounts_do_not_depend_on_the_liquidity_applied() {
    let mut small = position_before();
    let mut large = position_before();
    assert!(settle(&mut small, &engine_report(1)).is_ok());
    assert!(settle(&mut large, &engine_report(1_000_000_000)).is_ok());
    assert_eq!(small.liquidity, 11);
    assert_eq!(large.liquidity, 1_000_000_010);
    assert_eq!(small.token_fees_owed_0, large.token_fees_owed_0);
    assert_eq!(small.token_fees_owed_1, large.token_fees_owed_1);
    assert_eq!(small.reward_infos, large.reward_infos);
    assert_eq!(small.reward_infos[2].reward_amount_owed, 43);
}

#[test]
fn engine_may_apply_another_liquidity_than_asked() {
    let (mut pool, mut range, mut position) = (open_pool(), range_before(), position_before());
    let action = run(&mut pool, &mut range, &mut position, None, Some(Ok(engine_report(33))));
    match action {
        Ok(IncreaseAction::Emit(event)) => assert_eq!(event.liquidity, 33),
        other => panic!("unexpected answer {:?}", other),
    }
    assert_eq!(position.liquidity, 43);
}

#[test]
fn liquidity_overflow_changes_nothing() {
    let mut full = position_before();
    full.liquidity = u128::MAX - 49;
    // On this much liquidity only the counters that do not move can be settled.
    full.fee_growth_inside_0_last_x64 = 3 * ONE;
    full.fee_growth_inside_1_last_x64 = 5 * ONE + ONE / 2;
    full.reward_infos[0].growth_inside_last_x64 = 2 * ONE;
    full.reward_infos[2].growth_inside_last_x64 = 4 * ONE;
    let (mut pool, mut range, mut position) = (open_pool(), range_before(), full);
    let action = run(&mut pool, &mut range, &mut position, None, Some(Ok(engine_report(50))));
    assert_eq!(action, Err(ErrorCode::ArithmeticOverflow));
    assert_eq!((pool, range, position), (open_pool(), range_before(), full));
    let action = run(&mut pool, &mut range, &mut position, None, Some(Ok(engine_report(49))));
    assert!(action.is_ok());
    assert_eq!(position.liquidity, u128::MAX);
}

#[test]
fn owed_overflow_changes_nothing() {
    let mut rich = position_before();
    rich.token_fees_owed_0 = u64::MAX - 19;
    let (mut pool, mut range, mut position) = (open_pool(), range_before(), rich);
    let action = run(&mut pool, &mut range, &mut position, None, Some(Ok(engine_report(50))));
    assert_eq!(action, Err(ErrorCode::ArithmeticOverflow));
    assert_eq!((pool, range, position), (open_pool(), range_before(), rich));
    let mut rewarded = position_before();
    rewarded.reward_infos[2].reward_amount_owed = u64::MAX - 39;
    let mut position = rewarded;
    assert_eq!(settle(&mut position, &engine_report(50)), Err(ErrorCode::ArithmeticOverflow));
    assert_eq!(position, rewarded);
}
