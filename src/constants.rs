use vstd::prelude::*;

verus! {

/// Fixed-point scale of an exchange rate: 1.0 is represented as `RATE_SCALE`.
pub const RATE_SCALE: u64 = 1_000_000_000;

/// Denominator of every basis-point quantity.
pub const BASIS_POINTS_DIVISOR: u64 = 10000;

/// Minimum collateralization ratio for minting, in basis points (110%).
pub const MIN_COLLATERAL_RATIO: u64 = 11000;

/// Ratio below which a position may be liquidated, in basis points (105%).
pub const LIQUIDATION_THRESHOLD: u64 = 10500;

/// Liquidation bonus reported to liquidators, in basis points (5%).
pub const LIQUIDATION_BONUS: u64 = 500;

/// Protocol fee taken from rewards, in basis points (1%).
pub const PROTOCOL_FEE_BPS: u16 = 100;

/// Largest operator fee a vault may charge, in basis points (15%).
pub const MAX_OPERATOR_FEE_BPS: u16 = 1500;

/// Smallest accepted deposit, in lamports (0.1 SOL).
pub const MIN_STAKE_AMOUNT: u64 = 100_000_000;

/// Longest accepted vault name, in bytes.
pub const MAX_VAULT_NAME_LENGTH: usize = 32;

} // verus!
