use vstd::prelude::*;

use crate::constants::{BASIS_POINTS_DIVISOR, RATE_SCALE};
use crate::errors::ErrorCode;
use crate::factory::Factory;
use crate::identity::Identity;
use crate::ledger::{Asset, Holder, LedgerOp};
use crate::psol_controller::{collateral_value_of, ratio_of, PsolController, UserPosition};
use crate::vault::Vault;

verus! {

/// Identities a position is opened with on its first mint.
#[derive(Debug, Clone, Copy, PartialEq, Eq)]
pub struct PositionKeys {
    /// The user minting, who owns the position.
    pub owner: Identity,
    /// The vault whose shares are the collateral.
    pub vault: Identity,
    /// The collateral controller.
    pub psol_controller: Identity,
    /// Address derivation bump of the position record.
    pub bump: u8,
}

/// What a liquidation asks of the ledger, and the bonus it reports.
#[derive(Debug, Clone, PartialEq, Eq)]
pub struct Liquidation {
    pub ops: Vec<LedgerOp>,
    /// Liquidation bonus in vault shares; reported only, never paid separately.
    pub bonus_amount: u64,
}

/// Whether the position record was never opened.
pub open spec fn is_new_position(position: UserPosition) -> bool {
    position.owner.is_unset_spec()
}

/// The controller and the position after a successful mint, or the first error.
pub open spec fn mint_psol_spec(
    factory: Factory,
    vault: Vault,
    controller: PsolController,
    position: UserPosition,
    keys: PositionKeys,
    collateral_amount: u64,
    psol_amount: u64,
    epoch: u64,
) -> Result<(PsolController, UserPosition), ErrorCode> {
    let is_new = is_new_position(position);
    let rate = vault.exchange_rate_spec()->Ok_0;
    let collateral_value = collateral_value_of(collateral_amount as int, rate as int);
    let new_collateral = position.collateral_amount + collateral_amount;
    let new_debt = position.psol_debt + psol_amount;
    let new_value = collateral_value_of(new_collateral, rate as int);
    if !is_new && position.owner != keys.owner {
        Err(ErrorCode::Unauthorized)
    } else if factory.paused {
        Err(ErrorCode::VaultPaused)
    } else if collateral_amount == 0 {
        Err(ErrorCode::InvalidCollateralAmount)
    } else if psol_amount == 0 {
        Err(ErrorCode::InvalidPsolAmount)
    } else if is_new && controller.active_positions + 1 > u64::MAX {
        Err(ErrorCode::ArithmeticOverflow)
    } else if vault.exchange_rate_spec() is Err {
        Err(vault.exchange_rate_spec()->Err_0)
    } else if collateral_amount * rate > u64::MAX || new_collateral > u64::MAX || new_debt
        > u64::MAX || new_collateral * rate > u64::MAX || new_value * BASIS_POINTS_DIVISOR
        > u64::MAX {
        Err(ErrorCode::ArithmeticOverflow)
    } else if ratio_of(new_value, new_debt) < controller.min_collateral_ratio {
        Err(ErrorCode::InsufficientCollateral)
    } else if controller.total_psol_minted + psol_amount > u64::MAX
        || controller.total_collateral_value + collateral_value > u64::MAX {
        Err(ErrorCode::ArithmeticOverflow)
    } else {
        let opened = if is_new {
            UserPosition {
                owner: keys.owner,
                vault: keys.vault,
                psol_controller: keys.psol_controller,
                bump: keys.bump,
                ..position
            }
        } else {
            position
        };
        Ok(
            (
                PsolController {
                    total_psol_minted: (controller.total_psol_minted + psol_amount) as u64,
                    total_collateral_value: (controller.total_collateral_value
                        + collateral_value) as u64,
                    active_positions: if is_new {
                        (controller.active_positions + 1) as u64
                    } else {
                        controller.active_positions
                    },
                    ..controller
                },
                UserPosition {
                    collateral_amount: new_collateral as u64,
                    psol_debt: new_debt as u64,
                    last_update_epoch: epoch,
                    ..opened
                },
            ),
        )
    }
}

/// Locks `collateral_amount` vault shares in the user's position and mints
/// `psol_amount` synthetic tokens to the user, provided the position then stands
/// at least at the minimum collateral ratio. Opens the position on first use.
/// Returns the transfer and the mint to perform.
pub fn mint_psol(
    factory: &Factory,
    vault: &Vault,
    controller: &mut PsolController,
    position: &mut UserPosition,
    keys: PositionKeys,
    collateral_amount: u64,
    psol_amount: u64,
    epoch: u64,
) -> (r: Result<Vec<LedgerOp>, ErrorCode>)
    ensures
        match mint_psol_spec(
            *factory,
            *vault,
            *old(controller),
            *old(position),
            keys,
            collateral_amount,
            psol_amount,
            epoch,
        ) {
            Err(e) => r == Err::<Vec<LedgerOp>, ErrorCode>(e) && *final(controller) == *old(
                controller,
            ) && *final(position) == *old(position),
            Ok((c, p)) => r is Ok && r->Ok_0@ == seq![
                LedgerOp::Transfer {
                    asset: Asset::VaultShares,
                    from: Holder::User,
                    to: Holder::Position,
                    amount: collateral_amount,
                },
                LedgerOp::MintTo { asset: Asset::Psol, to: Holder::User, amount: psol_amount },
            ] && *final(controller) == c && *final(position) == p,
        },
{
    let is_new = position.owner.is_unset();
    if !is_new && !(position.owner == keys.owner) {
        return Err(ErrorCode::Unauthorized);
    }
    if factory.paused {
        return Err(ErrorCode::VaultPaused);
    }
    if collateral_amount == 0 {
        return Err(ErrorCode::InvalidCollateralAmount);
    }
    if psol_amount == 0 {
        return Err(ErrorCode::InvalidPsolAmount);
    }
    let active_positions = if is_new {
        match controller.active_positions.checked_add(1) {
            None => return Err(ErrorCode::ArithmeticOverflow),
            Some(v) => v,
        }
    } else {
        controller.active_positions
    };
    let rate = vault.exchange_rate()?;
    let collateral_value = match collateral_amount.checked_mul(rate) {
        None => return Err(ErrorCode::ArithmeticOverflow),
        Some(v) => v / RATE_SCALE,
    };
    let new_collateral = match position.collateral_amount.checked_add(collateral_amount) {
        None => return Err(ErrorCode::ArithmeticOverflow),
        Some(v) => v,
    };
    let new_debt = match position.psol_debt.checked_add(psol_amount) {
        None => return Err(ErrorCode::ArithmeticOverflow),
        Some(v) => v,
    };
    let new_value = match new_collateral.checked_mul(rate) {
        None => return Err(ErrorCode::ArithmeticOverflow),
        Some(v) => v / RATE_SCALE,
    };
    let ratio = match new_value.checked_mul(BASIS_POINTS_DIVISOR) {
        None => return Err(ErrorCode::ArithmeticOverflow),
        Some(v) => v / new_debt,
    };
    if ratio < controller.min_collateral_ratio {
        return Err(ErrorCode::InsufficientCollateral);
    }
    let total_minted = match controller.total_psol_minted.checked_add(psol_amount) {
        None => return Err(ErrorCode::ArithmeticOverflow),
        Some(v) => v,
    };
    let total_value = match controller.total_collateral_value.checked_add(collateral_value) {
        None => return Err(ErrorCode::ArithmeticOverflow),
        Some(v) => v,
    };

    if is_new {
        position.owner = keys.owner;
        position.vault = keys.vault;
        position.psol_controller = keys.psol_controller;
        position.bump = keys.bump;
    }
    position.collateral_amount = new_collateral;
    position.psol_debt = new_debt;
    position.last_update_epoch = epoch;
    controller.total_psol_minted = total_minted;
    controller.total_collateral_value = total_value;
    controller.active_positions = active_positions;

    let mut ops: Vec<LedgerOp> = Vec::new();
    ops.push(
        LedgerOp::Transfer {
            asset: Asset::VaultShares,
            from: Holder::User,
            to: Holder::Position,
            amount: collateral_amount,
        },
    );
    ops.push(LedgerOp::MintTo { asset: Asset::Psol, to: Holder::User, amount: psol_amount });
    Ok(ops)
}

/// Collateral shares that repaying `psol_amount` of the position's debt releases:
/// all of it on full repayment, else the same fraction as of the debt, rounded down.
pub open spec fn release_of(position: UserPosition, psol_amount: u64) -> int {
    if psol_amount == position.psol_debt {
        position.collateral_amount as int
    } else {
        position.collateral_amount * psol_amount / position.psol_debt as int
    }
}

/// The controller and the position after a successful repayment, or the first
/// error.
pub open spec fn burn_psol_spec(
    factory: Factory,
    vault: Vault,
    controller: PsolController,
    position: UserPosition,
    user: Identity,
    psol_amount: u64,
    epoch: u64,
) -> Result<(PsolController, UserPosition, u64), ErrorCode> {
    let release = release_of(position, psol_amount);
    let rate = vault.exchange_rate_spec()->Ok_0;
    let released_value = collateral_value_of(release, rate as int);
    let collateral_left = position.collateral_amount - release;
    let debt_left = position.psol_debt - psol_amount;
    let closes = collateral_left == 0 && debt_left == 0;
    if position.owner != user {
        Err(ErrorCode::Unauthorized)
    } else if factory.paused {
        Err(ErrorCode::VaultPaused)
    } else if psol_amount == 0 || position.psol_debt < psol_amount {
        Err(ErrorCode::InvalidPsolAmount)
    } else if psol_amount != position.psol_debt && position.collateral_amount * psol_amount
        > u64::MAX {
        Err(ErrorCode::ArithmeticOverflow)
    } else if vault.exchange_rate_spec() is Err {
        Err(vault.exchange_rate_spec()->Err_0)
    } else if release * rate > u64::MAX {
        Err(ErrorCode::ArithmeticOverflow)
    } else if collateral_left < 0 || controller.total_psol_minted < psol_amount
        || controller.total_collateral_value < released_value || (closes
        && controller.active_positions == 0) {
        Err(ErrorCode::ArithmeticUnderflow)
    } else {
        Ok(
            (
                PsolController {
                    total_psol_minted: (controller.total_psol_minted - psol_amount) as u64,
                    total_collateral_value: (controller.total_collateral_value
                        - released_value) as u64,
                    active_positions: if closes {
                        (controller.active_positions - 1) as u64
                    } else {
                        controller.active_positions
                    },
                    ..controller
                },
                UserPosition {
                    collateral_amount: collateral_left as u64,
                    psol_debt: debt_left as u64,
                    last_update_epoch: epoch,
                    ..position
                },
                release as u64,
            ),
        )
    }
}

/// Repays `psol_amount` of the user's debt: burns that many synthetic tokens from
/// the user and hands back the collateral that it releases. A position left with
/// neither debt nor collateral is closed. Returns the burn and the transfer to
/// perform.
pub fn burn_psol(
    factory: &Factory,
    vault: &Vault,
    controller: &mut PsolController,
    position: &mut UserPosition,
    user: Identity,
    psol_amount: u64,
    epoch: u64,
) -> (r: Result<Vec<LedgerOp>, ErrorCode>)
    ensures
        match burn_psol_spec(
            *factory,
            *vault,
            *old(controller),
            *old(position),
            user,
            psol_amount,
            epoch,
        ) {
            Err(e) => r == Err::<Vec<LedgerOp>, ErrorCode>(e) && *final(controller) == *old(
                controller,
            ) && *final(position) == *old(position),
            Ok((c, p, release)) => r is Ok && r->Ok_0@ == seq![
                LedgerOp::Burn { asset: Asset::Psol, from: Holder::User, amount: psol_amount },
                LedgerOp::Transfer {
                    asset: Asset::VaultShares,
                    from: Holder::Position,
                    to: Holder::User,
                    amount: release,
                },
            ] && *final(controller) == c && *final(position) == p,
        },
{
    if !(position.owner == user) {
        return Err(ErrorCode::Unauthorized);
    }
    if factory.paused {
        return Err(ErrorCode::VaultPaused);
    }
    if psol_amount == 0 || position.psol_debt < psol_amount {
        return Err(ErrorCode::InvalidPsolAmount);
    }
    let release = if position.psol_debt == psol_amount {
        position.collateral_amount
    } else {
        match position.collateral_amount.checked_mul(psol_amount) {
            None => return Err(ErrorCode::ArithmeticOverflow),
            Some(v) => v / position.psol_debt,
        }
    };
    let rate = vault.exchange_rate()?;
    let released_value = match release.checked_mul(rate) {
        None => return Err(ErrorCode::ArithmeticOverflow),
        Some(v) => v / RATE_SCALE,
    };
    let collateral_left = match position.collateral_amount.checked_sub(release) {
        None => return Err(ErrorCode::ArithmeticUnderflow),
        Some(v) => v,
    };
    let debt_left = position.psol_debt - psol_amount;
    let total_minted = match controller.total_psol_minted.checked_sub(psol_amount) {
        None => return Err(ErrorCode::ArithmeticUnderflow),
        Some(v) => v,
    };
    let total_value = match controller.total_collateral_value.checked_sub(released_value) {
        None => return Err(ErrorCode::ArithmeticUnderflow),
        Some(v) => v,
    };
    let active_positions = if debt_left == 0 && collateral_left == 0 {
        match controller.active_positions.checked_sub(1) {
            None => return Err(ErrorCode::ArithmeticUnderflow),
            Some(v) => v,
        }
    } else {
        controller.active_positions
    };

    position.collateral_amount = collateral_left;
    position.psol_debt = debt_left;
    position.last_update_epoch = epoch;
    controller.total_psol_minted = total_minted;
    controller.total_collateral_value = total_value;
    controller.active_positions = active_positions;

    let mut ops: Vec<LedgerOp> = Vec::new();
    ops.push(LedgerOp::Burn { asset: Asset::Psol, from: Holder::User, amount: psol_amount });
    ops.push(
        LedgerOp::Transfer {
            asset: Asset::VaultShares,
            from: Holder::Position,
            to: Holder::User,
            amount: release,
        },
    );
    Ok(ops)
}

/// The controller and the position after a successful liquidation, with the
/// reported bonus, or the first error.
pub open spec fn liquidate_position_spec(
    factory: Factory,
    vault: Vault,
    controller: PsolController,
    position: UserPosition,
    epoch: u64,
) -> Result<(PsolController, UserPosition, u64), ErrorCode> {
    let rate = vault.exchange_rate_spec()->Ok_0;
    let ratio = position.collateralization_ratio_spec(rate);
    let collateral = position.collateral_amount;
    let debt = position.psol_debt;
    let value = collateral_value_of(collateral as int, rate as int);
    if factory.paused {
        Err(ErrorCode::VaultPaused)
    } else if vault.exchange_rate_spec() is Err {
        Err(vault.exchange_rate_spec()->Err_0)
    } else if ratio is Err {
        Err(ratio->Err_0)
    } else if ratio->Ok_0 >= controller.liquidation_threshold {
        Err(ErrorCode::PositionHealthy)
    } else if collateral * controller.liquidation_bonus > u64::MAX || collateral * rate
        > u64::MAX {
        Err(ErrorCode::ArithmeticOverflow)
    } else if controller.total_psol_minted < debt || controller.total_collateral_value < value
        || controller.active_positions == 0 {
        Err(ErrorCode::ArithmeticUnderflow)
    } else {
        Ok(
            (
                PsolController {
                    total_psol_minted: (controller.total_psol_minted - debt) as u64,
                    total_collateral_value: (controller.total_collateral_value - value) as u64,
                    active_positions: (controller.active_positions - 1) as u64,
                    ..controller
                },
                UserPosition {
                    collateral_amount: 0,
                    psol_debt: 0,
                    last_update_epoch: epoch,
                    ..position
                },
                (collateral * controller.liquidation_bonus / BASIS_POINTS_DIVISOR as int) as u64,
            ),
        )
    }
}

/// Liquidates a position whose ratio is strictly below the liquidation threshold:
/// the liquidator repays the whole debt and receives all of the collateral. The
/// position is zeroed and closed. Returns the burn and the transfer to perform,
/// and the bonus (for reporting only).
pub fn liquidate_position(
    factory: &Factory,
    vault: &Vault,
    controller: &mut PsolController,
    position: &mut UserPosition,
    epoch: u64,
) -> (r: Result<Liquidation, ErrorCode>)
    ensures
        match liquidate_position_spec(*factory, *vault, *old(controller), *old(position), epoch) {
            Err(e) => r == Err::<Liquidation, ErrorCode>(e) && *final(controller) == *old(
                controller,
            ) && *final(position) == *old(position),
            Ok((c, p, bonus)) => r is Ok && r->Ok_0.ops@ == seq![
                LedgerOp::Burn {
                    asset: Asset::Psol,
                    from: Holder::Liquidator,
                    amount: old(position).psol_debt,
                },
                LedgerOp::Transfer {
                    asset: Asset::VaultShares,
                    from: Holder::Position,
                    to: Holder::Liquidator,
                    amount: old(position).collateral_amount,
                },
            ] && r->Ok_0.bonus_amount == bonus && *final(controller) == c && *final(position)
                == p,
        },
{
    if factory.paused {
        return Err(ErrorCode::VaultPaused);
    }
    let rate = vault.exchange_rate()?;
    let liquidatable = position.is_liquidatable(rate, controller.liquidation_threshold)?;
    if !liquidatable {
        return Err(ErrorCode::PositionHealthy);
    }
    let debt = position.psol_debt;
    let collateral = position.collateral_amount;
    let bonus_amount = match collateral.checked_mul(controller.liquidation_bonus) {
        None => return Err(ErrorCode::ArithmeticOverflow),
        Some(v) => v / BASIS_POINTS_DIVISOR,
    };
    let value = match collateral.checked_mul(rate) {
        None => return Err(ErrorCode::ArithmeticOverflow),
        Some(v) => v / RATE_SCALE,
    };
    let total_minted = match controller.total_psol_minted.checked_sub(debt) {
        None => return Err(ErrorCode::ArithmeticUnderflow),
        Some(v) => v,
    };
    let total_value = match controller.total_collateral_value.checked_sub(value) {
        None => return Err(ErrorCode::ArithmeticUnderflow),
        Some(v) => v,
    };
    let active_positions = match controller.active_positions.checked_sub(1) {
        None => return Err(ErrorCode::ArithmeticUnderflow),
        Some(v) => v,
    };

    position.collateral_amount = 0;
    position.psol_debt = 0;
    position.last_update_epoch = epoch;
    controller.total_psol_minted = total_minted;
    controller.total_collateral_value = total_value;
    controller.active_positions = active_positions;

    let mut ops: Vec<LedgerOp> = Vec::new();
    ops.push(LedgerOp::Burn { asset: Asset::Psol, from: Holder::Liquidator, amount: debt });
    ops.push(
        LedgerOp::Transfer {
            asset: Asset::VaultShares,
            from: Holder::Position,
            to: Holder::Liquidator,
            amount: collateral,
        },
    );
    Ok(Liquidation { ops, bonus_amount })
}

} // verus!
