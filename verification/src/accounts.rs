//! The accounts of an increase, what binds them to one another, and the two
//! instructions that hand them to the orchestrator.

use vstd::prelude::*;
use crate::address::{
    bytes_of, is_derived, lemma_address_by_bytes, position_seeds, program_address,
    protocol_position_key, Address,
};
use crate::error::ErrorCode;
use crate::increase::{
    increase_liquidity, increase_outcome, AddLiquidityReport, IncreaseAction, IncreaseOutcome,
    TokenStandard,
};
use crate::pool::{PoolState, TickArrayState};
use crate::position::{PersonalPositionState, ProtocolPositionState};

verus! {

/// An account of the program: where it sits and what it holds.
#[derive(Clone, Copy, Debug, PartialEq, Eq)]
pub struct Account<T> {
    /// The address of the account.
    pub key: Address,
    /// What the account holds.
    pub data: T,
}

/// What an increase reads of a token account.
#[derive(Clone, Copy, Debug, PartialEq, Eq)]
pub struct TokenAccount {
    /// The address of the account.
    pub key: Address,
    /// The mint of the tokens that it holds.
    pub mint: Address,
    /// The token program that the account belongs to.
    pub token_program: Address,
}

/// What an instruction is called with: the program it is an instruction of,
/// the accounts that it names, and the accounts that trail them.
#[derive(Clone, Debug, PartialEq, Eq)]
pub struct Context<T> {
    /// The address of the program.
    pub program_id: Address,
    /// The accounts that the instruction names.
    pub accounts: T,
    /// The accounts that follow them. An increase looks for the pool's
    /// extension bitmap in the first place.
    pub remaining_accounts: Vec<Address>,
}

/// The accounts of an increase under the primary token standard.
#[derive(Clone, Copy, Debug, PartialEq, Eq)]
pub struct IncreaseLiquidity {
    /// Who pays for the increase.
    pub nft_owner: Address,
    /// The token account that holds the position's token.
    pub nft_account: TokenAccount,
    /// The pool.
    pub pool_state: Account<PoolState>,
    /// The record of the position's tick range.
    pub protocol_position: Account<ProtocolPositionState>,
    /// The position whose liquidity is increased.
    pub personal_position: PersonalPositionState,
    /// The tick array that holds the lower end of the range.
    pub tick_array_lower: TickArrayState,
    /// The tick array that holds the upper end of the range.
    pub tick_array_upper: TickArrayState,
    /// The payer's account of the first token.
    pub token_account_0: TokenAccount,
    /// The payer's account of the second token.
    pub token_account_1: TokenAccount,
    /// The pool's vault of the first token.
    pub token_vault_0: TokenAccount,
    /// The pool's vault of the second token.
    pub token_vault_1: TokenAccount,
    /// The program of the primary token standard.
    pub token_program: Address,
}

/// The accounts of an increase where the secondary token standard may be in
/// use: those of [`IncreaseLiquidity`], the program of the secondary standard
/// and the mints of both vaults.
#[derive(Clone, Copy, Debug, PartialEq, Eq)]
pub struct IncreaseLiquidityV2 {
    /// Who pays for the increase.
    pub nft_owner: Address,
    /// The token account that holds the position's token.
    pub nft_account: TokenAccount,
    /// The pool.
    pub pool_state: Account<PoolState>,
    /// The record of the position's tick range.
    pub protocol_position: Account<ProtocolPositionState>,
    /// The position whose liquidity is increased.
    pub personal_position: PersonalPositionState,
    /// The tick array that holds the lower end of the range.
    pub tick_array_lower: TickArrayState,
    /// The tick array that holds the upper end of the range.
    pub tick_array_upper: TickArrayState,
    /// The payer's account of the first token.
    pub token_account_0: TokenAccount,
    /// The payer's account of the second token.
    pub token_account_1: TokenAccount,
    /// The pool's vault of the first token.
    pub token_vault_0: TokenAccount,
    /// The pool's vault of the second token.
    pub token_vault_1: TokenAccount,
    /// The program of the primary token standard.
    pub token_program: Address,
    /// The program of the secondary token standard.
    pub token_program_2022: Address,
    /// The mint of the first vault.
    pub vault_0_mint: Address,
    /// The mint of the second vault.
    pub vault_1_mint: Address,
}

/// The account that leads the trailing ones, if there is any.
pub open spec fn first_account(remaining_accounts: Seq<Address>) -> Option<Address> {
    if remaining_accounts.len() > 0 {
        Some(remaining_accounts[0])
    } else {
        None
    }
}

/// The account that leads the trailing ones, if there is any.
pub fn first_remaining_account(remaining_accounts: &Vec<Address>) -> (first: Option<Address>)
    ensures
        first == first_account(remaining_accounts@),
{
    if remaining_accounts.len() > 0 {
        Some(remaining_accounts[0])
    } else {
        None
    }
}

impl IncreaseLiquidity {
    /// The first binding that the accounts break, where `derived` is the
    /// address derived for the record of the position's range. In order:
    /// the position's token account holds the position's mint; the record of
    /// the range sits at the derived address and belongs to the pool; the
    /// position and both tick arrays belong to the pool; each paying account
    /// holds the mint of its vault; each vault is the pool's.
    pub open spec fn violation(self, derived: Option<Seq<u8>>) -> Option<ErrorCode> {
        if self.nft_account.mint != self.personal_position.nft_mint {
            Some(ErrorCode::ConstraintRaw)
        } else if !is_derived(self.protocol_position.key, derived) {
            Some(ErrorCode::ConstraintSeeds)
        } else if self.protocol_position.data.pool_id != self.pool_state.key {
            Some(ErrorCode::ConstraintRaw)
        } else if self.personal_position.pool_id != self.pool_state.key {
            Some(ErrorCode::ConstraintRaw)
        } else if self.tick_array_lower.pool_id != self.pool_state.key {
            Some(ErrorCode::ConstraintRaw)
        } else if self.tick_array_upper.pool_id != self.pool_state.key {
            Some(ErrorCode::ConstraintRaw)
        } else if self.token_account_0.mint != self.token_vault_0.mint {
            Some(ErrorCode::ConstraintTokenMint)
        } else if self.token_account_1.mint != self.token_vault_1.mint {
            Some(ErrorCode::ConstraintTokenMint)
        } else if self.token_vault_0.key != self.pool_state.data.token_vault_0 {
            Some(ErrorCode::ConstraintRaw)
        } else if self.token_vault_1.key != self.pool_state.data.token_vault_1 {
            Some(ErrorCode::ConstraintRaw)
        } else {
            None
        }
    }

    /// The address derived for the record of the position's range.
    pub open spec fn derived_position(self, program_id: Address) -> Option<Seq<u8>> {
        program_address(
            position_seeds(
                self.pool_state.key,
                self.personal_position.tick_lower_index,
                self.personal_position.tick_upper_index,
            ),
            program_id@,
        )
    }

    /// Holds the accounts against one another and against `derived`, the
    /// address derived for the record of the position's range, and names the
    /// first binding that is broken.
    pub fn check_bindings(&self, derived: &Option<Address>) -> (checked: Result<(), ErrorCode>)
        ensures
            checked == match self.violation(bytes_of(*derived)) {
                Some(error) => Err::<(), ErrorCode>(error),
                None => Ok::<(), ErrorCode>(()),
            },
    {
        let pool_id: &Address = &self.pool_state.key;
        let derived_here: bool = match derived {
            Some(address) => {
                proof {
                    lemma_address_by_bytes(self.protocol_position.key, *address);
                }
                self.protocol_position.key.same(address)
            },
            None => false,
        };
        if !self.nft_account.mint.same(&self.personal_position.nft_mint) {
            Err(ErrorCode::ConstraintRaw)
        } else if !derived_here {
            Err(ErrorCode::ConstraintSeeds)
        } else if !self.protocol_position.data.pool_id.same(pool_id) {
            Err(ErrorCode::ConstraintRaw)
        } else if !self.personal_position.pool_id.same(pool_id) {
            Err(ErrorCode::ConstraintRaw)
        } else if !self.tick_array_lower.pool_id.same(pool_id) {
            Err(ErrorCode::ConstraintRaw)
        } else if !self.tick_array_upper.pool_id.same(pool_id) {
            Err(ErrorCode::ConstraintRaw)
        } else if !self.token_account_0.mint.same(&self.token_vault_0.mint) {
            Err(ErrorCode::ConstraintTokenMint)
        } else if !self.token_account_1.mint.same(&self.token_vault_1.mint) {
            Err(ErrorCode::ConstraintTokenMint)
        } else if !self.token_vault_0.key.same(&self.pool_state.data.token_vault_0) {
            Err(ErrorCode::ConstraintRaw)
        } else if !self.token_vault_1.key.same(&self.pool_state.data.token_vault_1) {
            Err(ErrorCode::ConstraintRaw)
        } else {
            Ok(())
        }
    }

    /// Checks what binds the accounts of an increase to one another, for the
    /// program at `program_id`, and names the first binding that is broken.
    pub fn validate(&self, program_id: &Address) -> (checked: Result<(), ErrorCode>)
        ensures
            checked == match self.violation(self.derived_position(*program_id)) {
                Some(error) => Err::<(), ErrorCode>(error),
                None => Ok::<(), ErrorCode>(()),
            },
    {
        let derived: Option<Address> = protocol_position_key(
            program_id,
            &self.pool_state.key,
            self.personal_position.tick_lower_index,
            self.personal_position.tick_upper_index,
        );
        self.check_bindings(&derived)
    }
}

impl IncreaseLiquidityV2 {
    /// The accounts that an increase has under either standard.
    pub open spec fn spec_common(&self) -> IncreaseLiquidity {
        IncreaseLiquidity {
            nft_owner: self.nft_owner,
            nft_account: self.nft_account,
            pool_state: self.pool_state,
            protocol_position: self.protocol_position,
            personal_position: self.personal_position,
            tick_array_lower: self.tick_array_lower,
            tick_array_upper: self.tick_array_upper,
            token_account_0: self.token_account_0,
            token_account_1: self.token_account_1,
            token_vault_0: self.token_vault_0,
            token_vault_1: self.token_vault_1,
            token_program: self.token_program,
        }
    }

    /// The accounts that an increase has under either standard.
    #[verifier::when_used_as_spec(spec_common)]
    pub fn common(&self) -> (accounts: IncreaseLiquidity)
        ensures
            accounts == self.spec_common(),
    {
        IncreaseLiquidity {
            nft_owner: self.nft_owner,
            nft_account: self.nft_account,
            pool_state: self.pool_state,
            protocol_position: self.protocol_position,
            personal_position: self.personal_position,
            tick_array_lower: self.tick_array_lower,
            tick_array_upper: self.tick_array_upper,
            token_account_0: self.token_account_0,
            token_account_1: self.token_account_1,
            token_vault_0: self.token_vault_0,
            token_vault_1: self.token_vault_1,
            token_program: self.token_program,
        }
    }

    /// The first binding that the accounts break, where `derived` is the
    /// address derived for the record of the position's range: those of
    /// [`IncreaseLiquidity::violation`] in their order, with two more. The
    /// position's token account, once it holds the position's mint, must
    /// belong to the primary token program; and when all else holds, each
    /// mint account must be the mint of its vault.
    pub open spec fn violation(self, derived: Option<Seq<u8>>) -> Option<ErrorCode> {
        if self.nft_account.mint != self.personal_position.nft_mint {
            Some(ErrorCode::ConstraintRaw)
        } else if self.nft_account.token_program != self.token_program {
            Some(ErrorCode::ConstraintTokenTokenProgram)
        } else if self.spec_common().violation(derived).is_some() {
            self.spec_common().violation(derived)
        } else if self.vault_0_mint != self.token_vault_0.mint {
            Some(ErrorCode::ConstraintAddress)
        } else if self.vault_1_mint != self.token_vault_1.mint {
            Some(ErrorCode::ConstraintAddress)
        } else {
            None
        }
    }

    /// Holds the accounts against one another and against `derived`, the
    /// address derived for the record of the position's range, and names the
    /// first binding that is broken.
    pub fn check_bindings(&self, derived: &Option<Address>) -> (checked: Result<(), ErrorCode>)
        ensures
            checked == match self.violation(bytes_of(*derived)) {
                Some(error) => Err::<(), ErrorCode>(error),
                None => Ok::<(), ErrorCode>(()),
            },
    {
        if !self.nft_account.mint.same(&self.personal_position.nft_mint) {
            return Err(ErrorCode::ConstraintRaw);
        }
        if !self.nft_account.token_program.same(&self.token_program) {
            return Err(ErrorCode::ConstraintTokenTokenProgram);
        }
        match self.common().check_bindings(derived) {
            Err(error) => Err(error),
            Ok(()) => {
                if !self.vault_0_mint.same(&self.token_vault_0.mint) {
                    Err(ErrorCode::ConstraintAddress)
                } else if !self.vault_1_mint.same(&self.token_vault_1.mint) {
                    Err(ErrorCode::ConstraintAddress)
                } else {
                    Ok(())
                }
            },
        }
    }

    /// Checks what binds the accounts of an increase to one another, for the
    /// program at `program_id`, and names the first binding that is broken.
    pub fn validate(&self, program_id: &Address) -> (checked: Result<(), ErrorCode>)
        ensures
            checked == match self.violation(self.spec_common().derived_position(*program_id)) {
                Some(error) => Err::<(), ErrorCode>(error),
                None => Ok::<(), ErrorCode>(()),
            },
    {
        let derived: Option<Address> = protocol_position_key(
            program_id,
            &self.pool_state.key,
            self.personal_position.tick_lower_index,
            self.personal_position.tick_upper_index,
        );
        self.check_bindings(&derived)
    }

    /// The secondary token standard with the accounts that it needs.
    pub open spec fn token_standard(self) -> TokenStandard {
        TokenStandard::Token2022 {
            token_program_2022: self.token_program_2022,
            vault_0_mint: self.vault_0_mint,
            vault_1_mint: self.vault_1_mint,
        }
    }
}

/// What an instruction answers and the accounts that it leaves, given the
/// first binding that the accounts break, if any, and what the orchestrator
/// makes of them otherwise. Broken bindings stop the instruction before
/// anything else is looked at.
pub open spec fn instruction_outcome(
    violation: Option<ErrorCode>,
    pool_state: PoolState,
    protocol_position: ProtocolPositionState,
    personal_position: PersonalPositionState,
    orchestrated: IncreaseOutcome,
) -> IncreaseOutcome {
    match violation {
        Some(error) => IncreaseOutcome {
            action: Err(error),
            pool_state,
            protocol_position,
            personal_position,
        },
        None => orchestrated,
    }
}

/// An increase of liquidity under the primary token standard.
///
/// The accounts must be bound to one another as
/// [`IncreaseLiquidity::violation`] says. They then go to
/// [`increase_liquidity`], with the primary standard and with the first of
/// the trailing accounts as the extension bitmap; what it leaves of the pool,
/// of the range and of the position is written back. Like the orchestrator,
/// the instruction is called once without a `report`, for the request to put
/// to the liquidity engine, and once with it.
pub fn increase_liquidity_v1(
    ctx: &mut Context<IncreaseLiquidity>,
    liquidity: u128,
    amount_0_max: u64,
    amount_1_max: u64,
    base_flag: Option<bool>,
    report: Option<Result<AddLiquidityReport, ErrorCode>>,
) -> (action: Result<IncreaseAction, ErrorCode>)
    ensures
        (IncreaseOutcome {
            action,
            pool_state: final(ctx).accounts.pool_state.data,
            protocol_position: final(ctx).accounts.protocol_position.data,
            personal_position: final(ctx).accounts.personal_position,
        }) == instruction_outcome(
            old(ctx).accounts.violation(old(ctx).accounts.derived_position(old(ctx).program_id)),
            old(ctx).accounts.pool_state.data,
            old(ctx).accounts.protocol_position.data,
            old(ctx).accounts.personal_position,
            increase_outcome(
                old(ctx).program_id,
                old(ctx).accounts.pool_state.key,
                old(ctx).accounts.pool_state.data,
                old(ctx).accounts.protocol_position.data,
                old(ctx).accounts.personal_position,
                TokenStandard::Token,
                first_account(old(ctx).remaining_accounts@),
                liquidity,
                amount_0_max,
                amount_1_max,
                base_flag,
                report,
            ),
        ),
        *final(ctx) == (Context {
            accounts: IncreaseLiquidity {
                pool_state: Account {
                    key: old(ctx).accounts.pool_state.key,
                    data: final(ctx).accounts.pool_state.data,
                },
                protocol_position: Account {
                    key: old(ctx).accounts.protocol_position.key,
                    data: final(ctx).accounts.protocol_position.data,
                },
                personal_position: final(ctx).accounts.personal_position,
                ..old(ctx).accounts
            },
            ..*old(ctx)
        }),
        !(action matches Ok(IncreaseAction::Emit(_))) ==> *final(ctx) == *old(ctx),
{
    match ctx.accounts.validate(&ctx.program_id) {
        Err(error) => Err(error),
        Ok(()) => {
            let tickarray_bitmap_extension: Option<Address> = first_remaining_account(
                &ctx.remaining_accounts,
            );
            let mut pool_state: PoolState = ctx.accounts.pool_state.data;
            let mut protocol_position: ProtocolPositionState = ctx.accounts.protocol_position.data;
            let mut personal_position: PersonalPositionState = ctx.accounts.personal_position;
            let action: Result<IncreaseAction, ErrorCode> = increase_liquidity(
                &ctx.program_id,
                &ctx.accounts.pool_state.key,
                &mut pool_state,
                &mut protocol_position,
                &mut personal_position,
                TokenStandard::Token,
                tickarray_bitmap_extension,
                liquidity,
                amount_0_max,
                amount_1_max,
                base_flag,
                report,
            );
            ctx.accounts.pool_state.data = pool_state;
            ctx.accounts.protocol_position.data = protocol_position;
            ctx.accounts.personal_position = personal_position;
            action
        },
    }
}

/// An increase of liquidity where the secondary token standard may be in use.
///
/// The accounts must be bound to one another as
/// [`IncreaseLiquidityV2::violation`] says. They then go to
/// [`increase_liquidity`], with the secondary standard, its program and the
/// mints of both vaults, and with the first of the trailing accounts as the
/// extension bitmap; what it leaves of the pool, of the range and of the
/// position is written back. Like the orchestrator, the instruction is called
/// once without a `report`, for the request to put to the liquidity engine,
/// and once with it.
pub fn increase_liquidity_v2(
    ctx: &mut Context<IncreaseLiquidityV2>,
    liquidity: u128,
    amount_0_max: u64,
    amount_1_max: u64,
    base_flag: Option<bool>,
    report: Option<Result<AddLiquidityReport, ErrorCode>>,
) -> (action: Result<IncreaseAction, ErrorCode>)
    ensures
        (IncreaseOutcome {
            action,
            pool_state: final(ctx).accounts.pool_state.data,
            protocol_position: final(ctx).accounts.protocol_position.data,
            personal_position: final(ctx).accounts.personal_position,
        }) == instruction_outcome(
            old(ctx).accounts.violation(
                old(ctx).accounts.spec_common().derived_position(old(ctx).program_id),
            ),
            old(ctx).accounts.pool_state.data,
            old(ctx).accounts.protocol_position.data,
            old(ctx).accounts.personal_position,
            increase_outcome(
                old(ctx).program_id,
                old(ctx).accounts.pool_state.key,
                old(ctx).accounts.pool_state.data,
                old(ctx).accounts.protocol_position.data,
                old(ctx).accounts.personal_position,
                old(ctx).accounts.token_standard(),
                first_account(old(ctx).remaining_accounts@),
                liquidity,
                amount_0_max,
                amount_1_max,
                base_flag,
                report,
            ),
        ),
        *final(ctx) == (Context {
            accounts: IncreaseLiquidityV2 {
                pool_state: Account {
                    key: old(ctx).accounts.pool_state.key,
                    data: final(ctx).accounts.pool_state.data,
                },
                protocol_position: Account {
                    key: old(ctx).accounts.protocol_position.key,
                    data: final(ctx).accounts.protocol_position.data,
                },
                personal_position: final(ctx).accounts.personal_position,
                ..old(ctx).accounts
            },
            ..*old(ctx)
        }),
        !(action matches Ok(IncreaseAction::Emit(_))) ==> *final(ctx) == *old(ctx),
{
    match ctx.accounts.validate(&ctx.program_id) {
        Err(error) => Err(error),
        Ok(()) => {
            let tickarray_bitmap_extension: Option<Address> = first_remaining_account(
                &ctx.remaining_accounts,
            );
            let token_standard: TokenStandard = TokenStandard::Token2022 {
                token_program_2022: ctx.accounts.token_program_2022,
                vault_0_mint: ctx.accounts.vault_0_mint,
                vault_1_mint: ctx.accounts.vault_1_mint,
            };
            let mut pool_state: PoolState = ctx.accounts.pool_state.data;
            let mut protocol_position: ProtocolPositionState = ctx.accounts.protocol_position.data;
            let mut personal_position: PersonalPositionState = ctx.accounts.personal_position;
            let action: Result<IncreaseAction, ErrorCode> = increase_liquidity(
                &ctx.program_id,
                &ctx.accounts.pool_state.key,
                &mut pool_state,
                &mut protocol_position,
                &mut personal_position,
                token_standard,
                tickarray_bitmap_extension,
                liquidity,
                amount_0_max,
                amount_1_max,
                base_flag,
                report,
            );
            ctx.accounts.pool_state.data = pool_state;
            ctx.accounts.protocol_position.data = protocol_position;
            ctx.accounts.personal_position = personal_position;
            action
        },
    }
}

} // verus!
