//! Verified core of an over-collateralised stable-coin system: vaults that lend
//! a stable coin against collateral, a stability measurer fed by a price
//! oracle, the controllers that turn the stability measure into interest
//! rates, and the profit / shares bookkeeping.
pub mod account;
pub mod errors;
pub mod access;
pub mod arith;
pub mod shares_profit_generating;
pub mod collateralling;
pub mod emitting;
pub mod vault;
pub mod measuring;
pub mod stable_controlling;
pub mod vault_controlling;
pub mod shares_profit_controlling;
pub mod oracling;
pub mod shares_token;
pub mod vault_laws;
