use vstd::prelude::*;

use crate::constants::{MAX_OPERATOR_FEE_BPS, MAX_VAULT_NAME_LENGTH, MIN_STAKE_AMOUNT};
use crate::errors::ErrorCode;
use crate::factory::Factory;
use crate::identity::Identity;
use crate::ledger::{Asset, Holder, LedgerOp};
use crate::vault::{name_byte_len, Vault};

verus! {

/// Identities a vault is created with.
#[derive(Debug, Clone, Copy, PartialEq, Eq)]
pub struct VaultKeys {
    pub factory: Identity,
    pub operator: Identity,
    pub vault_token_mint: Identity,
    pub bump: u8,
}

pub open spec fn create_vault_error(
    factory: Factory,
    fee_basis_points: u16,
    vault_name: Seq<char>,
) -> Option<ErrorCode> {
    if factory.paused {
        Some(ErrorCode::VaultPaused)
    } else if fee_basis_points > MAX_OPERATOR_FEE_BPS {
        Some(ErrorCode::OperatorFeeTooHigh)
    } else if name_byte_len(vault_name) > MAX_VAULT_NAME_LENGTH {
        Some(ErrorCode::VaultNameTooLong)
    } else if factory.vault_count + 1 > u64::MAX {
        Some(ErrorCode::ArithmeticOverflow)
    } else {
        None
    }
}

/// Creates an empty vault, numbered by the registry's vault count, which it
/// increments.
pub fn create_vault(
    factory: &mut Factory,
    keys: VaultKeys,
    fee_basis_points: u16,
    max_capacity: u64,
    vault_name: String,
    epoch: u64,
) -> (r: Result<Vault, ErrorCode>)
    ensures
        r is Ok ==> r->Ok_0.well_formed(),
        match create_vault_error(*old(factory), fee_basis_points, vault_name@) {
            Some(e) => r == Err::<Vault, ErrorCode>(e) && *final(factory) == *old(factory),
            None => r == Ok::<Vault, ErrorCode>(
                Vault {
                    factory: keys.factory,
                    vault_id: old(factory).vault_count,
                    operator: keys.operator,
                    vault_token_mint: keys.vault_token_mint,
                    fee_basis_points,
                    max_capacity,
                    total_staked: 0,
                    buffered_sol: 0,
                    total_shares: 0,
                    total_assets: 0,
                    last_reward_epoch: epoch,
                    accepting_deposits: true,
                    vault_name,
                    active_validators: 0,
                    lifetime_rewards: 0,
                    bump: keys.bump,
                },
            ) && *final(factory) == (Factory {
                vault_count: (old(factory).vault_count + 1) as u64,
                ..*old(factory)
            }),
        },
{
    if factory.paused {
        return Err(ErrorCode::VaultPaused);
    }
    if fee_basis_points > MAX_OPERATOR_FEE_BPS {
        return Err(ErrorCode::OperatorFeeTooHigh);
    }
    if vault_name.as_str().as_bytes().len() > MAX_VAULT_NAME_LENGTH {
        return Err(ErrorCode::VaultNameTooLong);
    }
    let vault_id = factory.vault_count;
    let vault_count = match vault_id.checked_add(1) {
        None => return Err(ErrorCode::ArithmeticOverflow),
        Some(v) => v,
    };
    factory.vault_count = vault_count;
    Ok(
        Vault {
            factory: keys.factory,
            vault_id,
            operator: keys.operator,
            vault_token_mint: keys.vault_token_mint,
            fee_basis_points,
            max_capacity,
            total_staked: 0,
            buffered_sol: 0,
            total_shares: 0,
            total_assets: 0,
            last_reward_epoch: epoch,
            accepting_deposits: true,
            vault_name,
            active_validators: 0,
            lifetime_rewards: 0,
            bump: keys.bump,
        },
    )
}

/// The vault after a successful deposit of `amount`, with the shares minted, or
/// the first error.
pub open spec fn deposit_spec(factory: Factory, v: Vault, amount: u64) -> Result<
    (Vault, u64),
    ErrorCode,
> {
    let shares = v.calculate_shares_spec(amount);
    if factory.paused || !v.accepting_deposits {
        Err(ErrorCode::VaultPaused)
    } else if amount < MIN_STAKE_AMOUNT {
        Err(ErrorCode::DepositTooSmall)
    } else if v.total_assets + amount > v.max_capacity {
        Err(ErrorCode::VaultCapacityReached)
    } else if shares is Err {
        Err(shares->Err_0)
    } else if v.buffered_sol + amount > u64::MAX || v.total_shares + shares->Ok_0 > u64::MAX {
        Err(ErrorCode::ArithmeticOverflow)
    } else {
        Ok(
            (
                Vault {
                    buffered_sol: (v.buffered_sol + amount) as u64,
                    total_assets: (v.total_assets + amount) as u64,
                    total_shares: (v.total_shares + shares->Ok_0) as u64,
                    ..v
                },
                shares->Ok_0,
            ),
        )
    }
}

/// Deposits `amount` into the vault for newly minted shares, rounded down in the
/// vault's favour (1:1 into a vault without shares). Returns the transfer in and
/// the share mint to perform.
pub fn deposit_to_vault(factory: &Factory, vault: &mut Vault, amount: u64) -> (r: Result<
    Vec<LedgerOp>,
    ErrorCode,
>)
    ensures
        old(vault).well_formed() ==> final(vault).well_formed(),
        match deposit_spec(*factory, *old(vault), amount) {
            Err(e) => r == Err::<Vec<LedgerOp>, ErrorCode>(e) && *final(vault) == *old(vault),
            Ok((v, shares)) => r is Ok && r->Ok_0@ == seq![
                LedgerOp::Transfer {
                    asset: Asset::Sol,
                    from: Holder::User,
                    to: Holder::Vault,
                    amount,
                },
                LedgerOp::MintTo { asset: Asset::VaultShares, to: Holder::User, amount: shares },
            ] && *final(vault) == v,
        },
{
    if factory.paused || !vault.accepting_deposits {
        return Err(ErrorCode::VaultPaused);
    }
    if amount < MIN_STAKE_AMOUNT {
        return Err(ErrorCode::DepositTooSmall);
    }
    if !vault.has_capacity(amount) {
        return Err(ErrorCode::VaultCapacityReached);
    }
    let shares = vault.calculate_shares(amount)?;
    let buffered_sol = match vault.buffered_sol.checked_add(amount) {
        None => return Err(ErrorCode::ArithmeticOverflow),
        Some(v) => v,
    };
    let total_shares = match vault.total_shares.checked_add(shares) {
        None => return Err(ErrorCode::ArithmeticOverflow),
        Some(v) => v,
    };
    vault.buffered_sol = buffered_sol;
    vault.total_assets = vault.total_assets + amount;
    vault.total_shares = total_shares;

    let mut ops: Vec<LedgerOp> = Vec::new();
    ops.push(LedgerOp::Transfer { asset: Asset::Sol, from: Holder::User, to: Holder::Vault, amount });
    ops.push(LedgerOp::MintTo { asset: Asset::VaultShares, to: Holder::User, amount: shares });
    Ok(ops)
}

pub open spec fn stake_error(factory: Factory, v: Vault, operator: Identity, amount: u64) -> Option<
    ErrorCode,
> {
    if v.operator != operator {
        Some(ErrorCode::Unauthorized)
    } else if factory.paused {
        Some(ErrorCode::VaultPaused)
    } else if v.buffered_sol < amount {
        Some(ErrorCode::InsufficientVaultBalance)
    } else if v.total_staked + amount > u64::MAX || v.active_validators + 1 > u16::MAX {
        Some(ErrorCode::ArithmeticOverflow)
    } else {
        None
    }
}

/// The vault after `amount` of its buffered liquidity was delegated.
pub open spec fn staked_vault(v: Vault, amount: u64) -> Vault {
    Vault {
        buffered_sol: (v.buffered_sol - amount) as u64,
        total_staked: (v.total_staked + amount) as u64,
        active_validators: (v.active_validators + 1) as u16,
        ..v
    }
}

/// Records the delegation of `amount` buffered liquidity to a validator, on the
/// operator's request. Shares and assets are unchanged.
pub fn stake_from_vault(factory: &Factory, vault: &mut Vault, operator: Identity, amount: u64) -> (r:
    Result<(), ErrorCode>)
    ensures
        old(vault).well_formed() ==> final(vault).well_formed(),
        match stake_error(*factory, *old(vault), operator, amount) {
            Some(e) => r == Err::<(), ErrorCode>(e) && *final(vault) == *old(vault),
            None => r is Ok && *final(vault) == staked_vault(*old(vault), amount),
        },
{
    if !(vault.operator == operator) {
        return Err(ErrorCode::Unauthorized);
    }
    if factory.paused {
        return Err(ErrorCode::VaultPaused);
    }
    if vault.buffered_sol < amount {
        return Err(ErrorCode::InsufficientVaultBalance);
    }
    let total_staked = match vault.total_staked.checked_add(amount) {
        None => return Err(ErrorCode::ArithmeticOverflow),
        Some(v) => v,
    };
    let active_validators = match vault.active_validators.checked_add(1) {
        None => return Err(ErrorCode::ArithmeticOverflow),
        Some(v) => v,
    };
    vault.buffered_sol = vault.buffered_sol - amount;
    vault.total_staked = total_staked;
    vault.active_validators = active_validators;
    Ok(())
}

} // verus!
