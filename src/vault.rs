use vstd::prelude::*;

use crate::constants::{MAX_OPERATOR_FEE_BPS, MAX_VAULT_NAME_LENGTH, RATE_SCALE};
use crate::errors::ErrorCode;
use crate::identity::Identity;

verus! {

/// Exchange rate of a vault, scaled by `RATE_SCALE`: one share is worth one unit
/// while no shares exist, else floor(assets * scale / shares).
pub open spec fn rate_of(total_assets: int, total_shares: int) -> int {
    if total_shares == 0 {
        RATE_SCALE as int
    } else {
        total_assets * RATE_SCALE / total_shares
    }
}

/// Shares that a deposit of `amount` buys: 1:1 into an empty vault, else
/// floor(amount * shares / assets).
pub open spec fn shares_for(total_assets: int, total_shares: int, amount: int) -> int {
    if total_shares == 0 {
        amount
    } else {
        amount * total_shares / total_assets
    }
}

/// Assets that `shares` are worth: floor(shares * assets / total shares), zero
/// while no shares exist.
pub open spec fn value_of(total_assets: int, total_shares: int, shares: int) -> int {
    if total_shares == 0 {
        0
    } else {
        shares * total_assets / total_shares
    }
}

/// Length in bytes of the UTF-8 encoding of `name`.
pub open spec fn name_byte_len(name: Seq<char>) -> nat {
    vstd::utf8::encode_utf8(name).len()
}

/// One staking pool: its principal and share bookkeeping.
#[derive(Debug, Clone, PartialEq, Eq)]
pub struct Vault {
    /// Registry the vault belongs to.
    pub factory: Identity,
    /// Number of the vault within its registry.
    pub vault_id: u64,
    /// Operator who runs the vault and earns its fee.
    pub operator: Identity,
    /// Token that represents the vault's shares.
    pub vault_token_mint: Identity,
    /// Operator fee on rewards, in basis points.
    pub fee_basis_points: u16,
    /// Largest amount of assets the vault accepts.
    pub max_capacity: u64,
    /// Amount delegated to validators.
    pub total_staked: u64,
    /// Liquidity held by the vault and available for withdrawals.
    pub buffered_sol: u64,
    /// Shares in existence.
    pub total_shares: u64,
    /// Assets the shares are a claim on (staked, buffered and rewards).
    pub total_assets: u64,
    /// Epoch of the last balance report.
    pub last_reward_epoch: u64,
    /// Whether deposits are accepted.
    pub accepting_deposits: bool,
    /// Display name, at most `MAX_VAULT_NAME_LENGTH` bytes.
    pub vault_name: String,
    /// Number of stake delegations made.
    pub active_validators: u16,
    /// Rewards earned over the vault's life.
    pub lifetime_rewards: u64,
    /// Address derivation bump of the vault record.
    pub bump: u8,
}

impl Vault {
    /// The fee and the name are within their bounds, and shares in existence are
    /// always backed by some assets.
    pub open spec fn well_formed(&self) -> bool {
        &&& self.fee_basis_points <= MAX_OPERATOR_FEE_BPS
        &&& name_byte_len(self.vault_name@) <= MAX_VAULT_NAME_LENGTH
        &&& self.total_shares > 0 ==> self.total_assets > 0
    }

    pub open spec fn exchange_rate_spec(&self) -> Result<u64, ErrorCode> {
        if self.total_shares == 0 {
            Ok(RATE_SCALE)
        } else if self.total_assets * RATE_SCALE > u64::MAX {
            Err(ErrorCode::ArithmeticOverflow)
        } else {
            Ok(rate_of(self.total_assets as int, self.total_shares as int) as u64)
        }
    }

    pub open spec fn calculate_shares_spec(&self, sol_amount: u64) -> Result<u64, ErrorCode> {
        if self.total_shares == 0 {
            Ok(sol_amount)
        } else if sol_amount * self.total_shares > u64::MAX {
            Err(ErrorCode::ArithmeticOverflow)
        } else if self.total_assets == 0 {
            Err(ErrorCode::DivisionByZero)
        } else {
            Ok(
                shares_for(
                    self.total_assets as int,
                    self.total_shares as int,
                    sol_amount as int,
                ) as u64,
            )
        }
    }

    pub open spec fn shares_to_sol_spec(&self, shares: u64) -> Result<u64, ErrorCode> {
        if self.total_shares == 0 {
            Ok(0)
        } else if shares * self.total_assets > u64::MAX {
            Err(ErrorCode::ArithmeticOverflow)
        } else {
            Ok(value_of(self.total_assets as int, self.total_shares as int, shares as int) as u64)
        }
    }

    /// Current exchange rate (assets per share), scaled by `RATE_SCALE`.
    pub fn exchange_rate(&self) -> (r: Result<u64, ErrorCode>)
        ensures
            r == self.exchange_rate_spec(),
    {
        if self.total_shares == 0 {
            return Ok(RATE_SCALE);
        }
        match self.total_assets.checked_mul(RATE_SCALE) {
            None => Err(ErrorCode::ArithmeticOverflow),
            Some(v) => Ok(v / self.total_shares),
        }
    }

    /// Shares to mint for a deposit of `sol_amount`, rounded down.
    pub fn calculate_shares(&self, sol_amount: u64) -> (r: Result<u64, ErrorCode>)
        ensures
            r == self.calculate_shares_spec(sol_amount),
    {
        if self.total_shares == 0 {
            return Ok(sol_amount);
        }
        match sol_amount.checked_mul(self.total_shares) {
            None => Err(ErrorCode::ArithmeticOverflow),
            Some(v) => match v.checked_div(self.total_assets) {
                None => Err(ErrorCode::DivisionByZero),
                Some(q) => Ok(q),
            },
        }
    }

    /// Assets that `shares` are worth, rounded down.
    pub fn shares_to_sol(&self, shares: u64) -> (r: Result<u64, ErrorCode>)
        ensures
            r == self.shares_to_sol_spec(shares),
    {
        if self.total_shares == 0 {
            return Ok(0);
        }
        match shares.checked_mul(self.total_assets) {
            None => Err(ErrorCode::ArithmeticOverflow),
            Some(v) => Ok(v / self.total_shares),
        }
    }

    /// Whether `amount` more assets fit under the vault's capacity; an overflowing
    /// total never fits.
    pub fn has_capacity(&self, amount: u64) -> (r: bool)
        ensures
            r == (self.total_assets + amount <= self.max_capacity),
    {
        match self.total_assets.checked_add(amount) {
            None => false,
            Some(new_total) => new_total <= self.max_capacity,
        }
    }
}

} // verus!
