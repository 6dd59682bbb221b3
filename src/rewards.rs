use vstd::prelude::*;

use crate::constants::BASIS_POINTS_DIVISOR;
use crate::errors::ErrorCode;
use crate::factory::Factory;
use crate::ledger::{Asset, Holder, LedgerOp};
use crate::vault::Vault;

verus! {

/// `amount` times `bps` basis points, rounded down.
pub open spec fn bps_of(amount: int, bps: int) -> int {
    amount * bps / BASIS_POINTS_DIVISOR as int
}

/// How a reward is divided between protocol, operator and stakers.
#[derive(Debug, Clone, Copy, PartialEq, Eq, Structural)]
pub struct RewardSplit {
    pub rewards: u64,
    pub protocol_fee: u64,
    pub operator_fee: u64,
    pub staker_rewards: u64,
}

/// The vault shares minted for the fees, and who receives them.
#[derive(Debug, Clone, Copy, PartialEq, Eq, Structural)]
pub struct FeeShares {
    pub fee_shares: u64,
    pub protocol_shares: u64,
    pub operator_shares: u64,
}

pub open spec fn split_rewards_spec(rewards: u64, protocol_fee_bps: u16, vault_fee_bps: u16) -> Result<
    RewardSplit,
    ErrorCode,
> {
    let protocol_fee = bps_of(rewards as int, protocol_fee_bps as int);
    let remaining = rewards - protocol_fee;
    let operator_fee = bps_of(remaining, vault_fee_bps as int);
    if rewards * protocol_fee_bps > u64::MAX {
        Err(ErrorCode::ArithmeticOverflow)
    } else if protocol_fee > rewards {
        Err(ErrorCode::ArithmeticUnderflow)
    } else if remaining * vault_fee_bps > u64::MAX {
        Err(ErrorCode::ArithmeticOverflow)
    } else if operator_fee > remaining {
        Err(ErrorCode::ArithmeticUnderflow)
    } else {
        Ok(
            RewardSplit {
                rewards,
                protocol_fee: protocol_fee as u64,
                operator_fee: operator_fee as u64,
                staker_rewards: (remaining - operator_fee) as u64,
            },
        )
    }
}

/// Splits `rewards`: the protocol takes `protocol_fee_bps` of it, the operator
/// `vault_fee_bps` of what is left, the stakers the rest; each fee rounds down.
pub fn split_rewards(rewards: u64, protocol_fee_bps: u16, vault_fee_bps: u16) -> (r: Result<
    RewardSplit,
    ErrorCode,
>)
    ensures
        r == split_rewards_spec(rewards, protocol_fee_bps, vault_fee_bps),
{
    let protocol_fee = match rewards.checked_mul(protocol_fee_bps as u64) {
        None => return Err(ErrorCode::ArithmeticOverflow),
        Some(v) => v / BASIS_POINTS_DIVISOR,
    };
    let remaining = match rewards.checked_sub(protocol_fee) {
        None => return Err(ErrorCode::ArithmeticUnderflow),
        Some(v) => v,
    };
    let operator_fee = match remaining.checked_mul(vault_fee_bps as u64) {
        None => return Err(ErrorCode::ArithmeticOverflow),
        Some(v) => v / BASIS_POINTS_DIVISOR,
    };
    let staker_rewards = match remaining.checked_sub(operator_fee) {
        None => return Err(ErrorCode::ArithmeticUnderflow),
        Some(v) => v,
    };
    Ok(RewardSplit { rewards, protocol_fee, operator_fee, staker_rewards })
}

pub open spec fn fee_shares_spec(split: RewardSplit, total_shares: u64, total_assets: u64) -> Result<
    FeeShares,
    ErrorCode,
> {
    let total_fee = split.protocol_fee + split.operator_fee;
    let fee_shares = if total_shares == 0 {
        0
    } else {
        total_fee * total_shares / total_assets as int
    };
    let protocol_shares = if fee_shares == 0 {
        0
    } else {
        fee_shares * split.protocol_fee / total_fee
    };
    if total_fee > u64::MAX {
        Err(ErrorCode::ArithmeticOverflow)
    } else if total_shares != 0 && total_fee * total_shares > u64::MAX {
        Err(ErrorCode::ArithmeticOverflow)
    } else if total_shares != 0 && total_assets == 0 {
        Err(ErrorCode::DivisionByZero)
    } else if fee_shares != 0 && fee_shares * split.protocol_fee > u64::MAX {
        Err(ErrorCode::ArithmeticOverflow)
    } else if fee_shares != 0 && total_fee == 0 {
        Err(ErrorCode::DivisionByZero)
    } else if protocol_shares > fee_shares {
        Err(ErrorCode::ArithmeticUnderflow)
    } else {
        Ok(
            FeeShares {
                fee_shares: fee_shares as u64,
                protocol_shares: protocol_shares as u64,
                operator_shares: (fee_shares - protocol_shares) as u64,
            },
        )
    }
}

/// Vault shares minted for the fees of `split`, valued at the exchange rate of
/// `total_assets` and `total_shares` (none while no shares exist), rounded down,
/// and divided between protocol and operator in proportion to their fees.
pub fn calculate_fee_shares(split: RewardSplit, total_shares: u64, total_assets: u64) -> (r: Result<
    FeeShares,
    ErrorCode,
>)
    ensures
        r == fee_shares_spec(split, total_shares, total_assets),
{
    let total_fee = match split.protocol_fee.checked_add(split.operator_fee) {
        None => return Err(ErrorCode::ArithmeticOverflow),
        Some(v) => v,
    };
    let fee_shares = if total_shares > 0 {
        match total_fee.checked_mul(total_shares) {
            None => return Err(ErrorCode::ArithmeticOverflow),
            Some(v) => match v.checked_div(total_assets) {
                None => return Err(ErrorCode::DivisionByZero),
                Some(q) => q,
            },
        }
    } else {
        0
    };
    let protocol_shares = if fee_shares > 0 {
        match fee_shares.checked_mul(split.protocol_fee) {
            None => return Err(ErrorCode::ArithmeticOverflow),
            Some(v) => match v.checked_div(total_fee) {
                None => return Err(ErrorCode::DivisionByZero),
                Some(q) => q,
            },
        }
    } else {
        0
    };
    let operator_shares = match fee_shares.checked_sub(protocol_shares) {
        None => return Err(ErrorCode::ArithmeticUnderflow),
        Some(v) => v,
    };
    Ok(FeeShares { fee_shares, protocol_shares, operator_shares })
}

/// Mints of fee shares to operator and treasury, each left out when zero.
pub open spec fn fee_mints(shares: FeeShares) -> Seq<LedgerOp> {
    (if shares.operator_shares > 0 {
        seq![LedgerOp::MintTo { asset: Asset::VaultShares, to: Holder::Operator, amount: shares.operator_shares }]
    } else {
        Seq::<LedgerOp>::empty()
    }) + (if shares.protocol_shares > 0 {
        seq![LedgerOp::MintTo { asset: Asset::VaultShares, to: Holder::Treasury, amount: shares.protocol_shares }]
    } else {
        Seq::<LedgerOp>::empty()
    })
}

/// The vault after a report of `new_total_staked` that earned `rewards` and
/// minted `fee_shares`.
pub open spec fn rewarded_vault(
    v: Vault,
    new_total_staked: u64,
    rewards: u64,
    fee_shares: u64,
    epoch: u64,
) -> Vault {
    Vault {
        total_staked: new_total_staked,
        total_assets: (v.total_assets + rewards) as u64,
        total_shares: (v.total_shares + fee_shares) as u64,
        lifetime_rewards: (v.lifetime_rewards + rewards) as u64,
        last_reward_epoch: epoch,
        ..v
    }
}

/// Outcome of a balance report that earned rewards: the split, the fee shares,
/// or the first error.
pub open spec fn distribution_spec(protocol_fee_bps: u16, v: Vault, new_total_staked: u64) -> Result<
    (RewardSplit, FeeShares),
    ErrorCode,
> {
    let rewards = (new_total_staked - v.total_staked) as u64;
    match split_rewards_spec(rewards, protocol_fee_bps, v.fee_basis_points) {
        Err(e) => Err(e),
        Ok(split) => match fee_shares_spec(split, v.total_shares, v.total_assets) {
            Err(e) => Err(e),
            Ok(shares) => if v.total_assets + rewards > u64::MAX || v.total_shares
                + shares.fee_shares > u64::MAX || v.lifetime_rewards + rewards > u64::MAX {
                Err(ErrorCode::ArithmeticOverflow)
            } else {
                Ok((split, shares))
            },
        },
    }
}

/// Takes a report of the vault's staked balance and distributes what it gained:
/// a decrease is refused, no gain changes nothing, and a gain raises the assets
/// while fee shares, valued at the rate before the report, go to operator and
/// treasury. Returns the share mints to perform.
pub fn update_vault_balance(factory: &Factory, vault: &mut Vault, new_total_staked: u64, epoch: u64) -> (r:
    Result<Vec<LedgerOp>, ErrorCode>)
    ensures
        old(vault).well_formed() ==> final(vault).well_formed(),
        new_total_staked < old(vault).total_staked ==> r == Err::<Vec<LedgerOp>, ErrorCode>(
            ErrorCode::InvalidVaultState,
        ) && *final(vault) == *old(vault),
        new_total_staked == old(vault).total_staked ==> r is Ok && r->Ok_0@ == Seq::<
            LedgerOp,
        >::empty() && *final(vault) == *old(vault),
        new_total_staked > old(vault).total_staked ==> match distribution_spec(
            factory.protocol_fee_bps,
            *old(vault),
            new_total_staked,
        ) {
            Err(e) => r == Err::<Vec<LedgerOp>, ErrorCode>(e) && *final(vault) == *old(vault),
            Ok((split, shares)) => r is Ok && r->Ok_0@ == fee_mints(shares) && *final(vault)
                == rewarded_vault(
                *old(vault),
                new_total_staked,
                split.rewards,
                shares.fee_shares,
                epoch,
            ),
        },
{
    if new_total_staked < vault.total_staked {
        return Err(ErrorCode::InvalidVaultState);
    }
    let rewards = new_total_staked - vault.total_staked;
    if rewards == 0 {
        return Ok(Vec::new());
    }
    let split = split_rewards(rewards, factory.protocol_fee_bps, vault.fee_basis_points)?;
    let shares = calculate_fee_shares(split, vault.total_shares, vault.total_assets)?;
    let total_assets = match vault.total_assets.checked_add(rewards) {
        None => return Err(ErrorCode::ArithmeticOverflow),
        Some(v) => v,
    };
    let total_shares = match vault.total_shares.checked_add(shares.fee_shares) {
        None => return Err(ErrorCode::ArithmeticOverflow),
        Some(v) => v,
    };
    let lifetime_rewards = match vault.lifetime_rewards.checked_add(rewards) {
        None => return Err(ErrorCode::ArithmeticOverflow),
        Some(v) => v,
    };
    vault.total_staked = new_total_staked;
    vault.total_assets = total_assets;
    vault.total_shares = total_shares;
    vault.lifetime_rewards = lifetime_rewards;
    vault.last_reward_epoch = epoch;

    let mut ops: Vec<LedgerOp> = Vec::new();
    if shares.operator_shares > 0 {
        ops.push(
            LedgerOp::MintTo {
                asset: Asset::VaultShares,
                to: Holder::Operator,
                amount: shares.operator_shares,
            },
        );
    }
    if shares.protocol_shares > 0 {
        ops.push(
            LedgerOp::MintTo {
                asset: Asset::VaultShares,
                to: Holder::Treasury,
                amount: shares.protocol_shares,
            },
        );
    }
    assert(ops@ =~= fee_mints(shares));
    Ok(ops)
}

} // verus!
