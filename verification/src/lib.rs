//! Liquidity increase and fee accrual for positions of a concentrated-liquidity
//! market maker.

pub mod accounts;
pub mod address;
pub mod error;
pub mod fee_math;
pub mod increase;
pub mod pool;
pub mod position;
