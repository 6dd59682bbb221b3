use vstd::prelude::*;

use crate::constants::{BASIS_POINTS_DIVISOR, RATE_SCALE};
use crate::errors::ErrorCode;
use crate::identity::Identity;

verus! {

/// Base-asset value of `shares` vault shares at `rate` (scaled by `RATE_SCALE`),
/// rounded down.
pub open spec fn collateral_value_of(shares: int, rate: int) -> int {
    shares * rate / RATE_SCALE as int
}

/// Collateralization ratio in basis points of `value` against `debt`, rounded down.
pub open spec fn ratio_of(value: int, debt: int) -> int {
    value * BASIS_POINTS_DIVISOR as int / debt
}

/// The global aggregate of all collateral positions.
#[derive(Debug, Clone, Copy, PartialEq, Eq)]
pub struct PsolController {
    /// Registry the controller belongs to.
    pub factory: Identity,
    /// The synthetic token.
    pub psol_mint: Identity,
    /// Synthetic tokens outstanding.
    pub total_psol_minted: u64,
    /// Value of the collateral behind them, in the base asset.
    pub total_collateral_value: u64,
    /// Ratio a mint must leave a position at, in basis points.
    pub min_collateral_ratio: u64,
    /// Ratio below which a position may be liquidated, in basis points.
    pub liquidation_threshold: u64,
    /// Bonus reported to liquidators, in basis points.
    pub liquidation_bonus: u64,
    /// Positions that are open.
    pub active_positions: u64,
    /// Address derivation bump of the controller record.
    pub bump: u8,
}

impl PsolController {
    pub open spec fn collateralization_ratio_spec(&self) -> Result<u64, ErrorCode> {
        if self.total_psol_minted == 0 {
            Ok(u64::MAX)
        } else if self.total_collateral_value * BASIS_POINTS_DIVISOR > u64::MAX {
            Err(ErrorCode::ArithmeticOverflow)
        } else {
            Ok(
                ratio_of(
                    self.total_collateral_value as int,
                    self.total_psol_minted as int,
                ) as u64,
            )
        }
    }

    /// Collateralization ratio of the whole protocol, in basis points; unbounded
    /// (`u64::MAX`) while nothing is minted.
    pub fn collateralization_ratio(&self) -> (r: Result<u64, ErrorCode>)
        ensures
            r == self.collateralization_ratio_spec(),
    {
        if self.total_psol_minted == 0 {
            return Ok(u64::MAX);
        }
        match self.total_collateral_value.checked_mul(BASIS_POINTS_DIVISOR) {
            None => Err(ErrorCode::ArithmeticOverflow),
            Some(v) => Ok(v / self.total_psol_minted),
        }
    }
}

/// One user's collateral position against one vault.
#[derive(Debug, Clone, Copy, PartialEq, Eq)]
pub struct UserPosition {
    /// Owner of the position; unset while the position was never opened.
    pub owner: Identity,
    /// Vault whose shares are the collateral.
    pub vault: Identity,
    /// The collateral controller.
    pub psol_controller: Identity,
    /// Vault shares locked as collateral.
    pub collateral_amount: u64,
    /// Synthetic tokens owed.
    pub psol_debt: u64,
    /// Epoch of the last change.
    pub last_update_epoch: u64,
    /// Address derivation bump of the position record.
    pub bump: u8,
}

impl UserPosition {
    pub open spec fn collateralization_ratio_spec(&self, vault_exchange_rate: u64) -> Result<
        u64,
        ErrorCode,
    > {
        if self.psol_debt == 0 {
            Ok(u64::MAX)
        } else if self.collateral_amount * vault_exchange_rate > u64::MAX {
            Err(ErrorCode::ArithmeticOverflow)
        } else if collateral_value_of(self.collateral_amount as int, vault_exchange_rate as int)
            * BASIS_POINTS_DIVISOR > u64::MAX {
            Err(ErrorCode::ArithmeticOverflow)
        } else {
            Ok(
                ratio_of(
                    collateral_value_of(self.collateral_amount as int, vault_exchange_rate as int),
                    self.psol_debt as int,
                ) as u64,
            )
        }
    }

    /// Collateralization ratio of the position in basis points, given the vault's
    /// exchange rate (scaled by `RATE_SCALE`); unbounded (`u64::MAX`) without debt.
    pub fn collateralization_ratio(&self, vault_exchange_rate: u64) -> (r: Result<u64, ErrorCode>)
        ensures
            r == self.collateralization_ratio_spec(vault_exchange_rate),
    {
        if self.psol_debt == 0 {
            return Ok(u64::MAX);
        }
        let collateral_value = match self.collateral_amount.checked_mul(vault_exchange_rate) {
            None => return Err(ErrorCode::ArithmeticOverflow),
            Some(v) => v / RATE_SCALE,
        };
        match collateral_value.checked_mul(BASIS_POINTS_DIVISOR) {
            None => Err(ErrorCode::ArithmeticOverflow),
            Some(v) => Ok(v / self.psol_debt),
        }
    }

    /// Whether the ratio is at least `min_ratio`.
    pub fn is_healthy(&self, vault_exchange_rate: u64, min_ratio: u64) -> (r: Result<bool, ErrorCode>)
        ensures
            match self.collateralization_ratio_spec(vault_exchange_rate) {
                Ok(ratio) => r == Ok::<bool, ErrorCode>(ratio >= min_ratio),
                Err(e) => r == Err::<bool, ErrorCode>(e),
            },
    {
        let ratio = self.collateralization_ratio(vault_exchange_rate)?;
        Ok(ratio >= min_ratio)
    }

    /// Whether the ratio is strictly below `liquidation_threshold`; a position
    /// without debt never is.
    pub fn is_liquidatable(&self, vault_exchange_rate: u64, liquidation_threshold: u64) -> (r:
        Result<bool, ErrorCode>)
        ensures
            match self.collateralization_ratio_spec(vault_exchange_rate) {
                Ok(ratio) => r == Ok::<bool, ErrorCode>(ratio < liquidation_threshold),
                Err(e) => r == Err::<bool, ErrorCode>(e),
            },
            self.psol_debt == 0 ==> r == Ok::<bool, ErrorCode>(false),
    {
        let ratio = self.collateralization_ratio(vault_exchange_rate)?;
        Ok(ratio < liquidation_threshold)
    }
}

} // verus!
