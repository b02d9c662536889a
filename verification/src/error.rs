//! Why an increase is refused.

use vstd::prelude::*;

verus! {

/// The reasons for which an increase of liquidity is abandoned. Whatever the
/// reason, nothing has been changed when one of them is returned.
#[derive(Clone, Copy, Debug, PartialEq, Eq, Structural)]
pub enum ErrorCode {
    /// An account is not bound to the pool, mint or vault that it is presented
    /// for.
    ConstraintRaw,
    /// An account does not sit at the address derived from its seeds.
    ConstraintSeeds,
    /// A token account holds another mint than the vault it pays into.
    ConstraintTokenMint,
    /// A token account belongs to another token program than the one
    /// presented.
    ConstraintTokenTokenProgram,
    /// A mint account is not the mint of its vault.
    ConstraintAddress,
    /// The pool's status does not permit the operation.
    NotApproved,
    /// The tick range lies outside the pool's own bitmap and no extension
    /// bitmap account was supplied.
    MissingTickArrayBitmapExtensionAccount,
    /// The extension bitmap account supplied is not the one derived from the
    /// pool.
    RequireKeysEqViolated,
    /// The liquidity engine found that the amounts exceed the caller's maxima.
    PriceSlippageCheck,
    /// The liquidity engine was asked for no liquidity and given no amount to
    /// size by.
    InvalidLiquidity,
    /// The liquidity engine failed for another reason, which it numbers.
    LiquidityEngine(u32),
    /// An owed amount or the position's liquidity would leave its integer
    /// range.
    ArithmeticOverflow,
}

} // verus!
