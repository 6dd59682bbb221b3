use vstd::prelude::*;

use vstd::arithmetic::div_mod::{lemma_fundamental_div_mod, lemma_mod_pos_bound};

use crate::errors::ErrorCode;
use crate::factory::Factory;
use crate::identity::Identity;
use crate::ledger::{Asset, Holder, LedgerOp};
use crate::vault::Vault;
use crate::withdrawal_ticket::WithdrawalTicket;

verus! {

/// Burning fewer than all shares pays out less than all assets.
proof fn lemma_partial_value_below_assets(shares: int, total_assets: int, total_shares: int)
    requires
        0 <= shares < total_shares,
        0 < total_assets,
    ensures
        shares * total_assets / total_shares < total_assets,
{
    let x = shares * total_assets;
    assert(0 <= shares * total_assets) by (nonlinear_arith)
        requires
            0 <= shares,
            0 < total_assets,
    ;
    lemma_fundamental_div_mod(x, total_shares);
    lemma_mod_pos_bound(x, total_shares);
    let q = x / total_shares;
    assert(q < total_assets) by (nonlinear_arith)
        requires
            x == total_shares * q + x % total_shares,
            0 <= x % total_shares,
            x == shares * total_assets,
            0 <= shares < total_shares,
            0 < total_assets,
    ;
}

/// Identities a withdrawal ticket is issued with.
#[derive(Debug, Clone, Copy, PartialEq, Eq)]
pub struct TicketKeys {
    /// The vault the shares are burned from.
    pub vault: Identity,
    /// The user who burns them and is owed the liquidity.
    pub user: Identity,
    /// Address derivation bump of the ticket record.
    pub bump: u8,
}

/// The vault and the ticket after a successful request to burn `shares`, or the
/// first error.
pub open spec fn request_withdrawal_spec(
    factory: Factory,
    v: Vault,
    keys: TicketKeys,
    shares: u64,
    epoch: u64,
) -> Result<(Vault, WithdrawalTicket), ErrorCode> {
    let value = v.shares_to_sol_spec(shares);
    if factory.paused {
        Err(ErrorCode::VaultPaused)
    } else if shares == 0 {
        Err(ErrorCode::InvalidCollateralAmount)
    } else if value is Err {
        Err(value->Err_0)
    } else if v.total_shares < shares || v.total_assets < value->Ok_0 {
        Err(ErrorCode::ArithmeticUnderflow)
    } else {
        Ok(
            (
                Vault {
                    total_shares: (v.total_shares - shares) as u64,
                    total_assets: (v.total_assets - value->Ok_0) as u64,
                    ..v
                },
                WithdrawalTicket {
                    vault: keys.vault,
                    user: keys.user,
                    ticket_id: epoch,
                    vault_tokens_burned: shares,
                    expected_sol_amount: value->Ok_0,
                    request_epoch: epoch,
                    ready_to_claim: v.buffered_sol >= value->Ok_0,
                    claimed: false,
                    bump: keys.bump,
                },
            ),
        )
    }
}

/// Burns `vault_token_amount` of the user's shares and issues a ticket for their
/// value at the rate before the burn, rounded down. The value leaves the vault's
/// assets at once; the liquidity is paid when the ticket is claimed. The ticket
/// is numbered by the epoch of the request.
pub fn request_withdrawal(
    factory: &Factory,
    vault: &mut Vault,
    keys: TicketKeys,
    vault_token_amount: u64,
    epoch: u64,
) -> (r: Result<(WithdrawalTicket, Vec<LedgerOp>), ErrorCode>)
    ensures
        old(vault).well_formed() ==> final(vault).well_formed(),
        match request_withdrawal_spec(*factory, *old(vault), keys, vault_token_amount, epoch) {
            Err(e) => r == Err::<(WithdrawalTicket, Vec<LedgerOp>), ErrorCode>(e) && *final(vault)
                == *old(vault),
            Ok((v, ticket)) => r is Ok && r->Ok_0.0 == ticket && r->Ok_0.1@ == seq![
                LedgerOp::Burn {
                    asset: Asset::VaultShares,
                    from: Holder::User,
                    amount: vault_token_amount,
                },
            ] && *final(vault) == v,
        },
{
    if factory.paused {
        return Err(ErrorCode::VaultPaused);
    }
    if vault_token_amount == 0 {
        return Err(ErrorCode::InvalidCollateralAmount);
    }
    let expected_sol = vault.shares_to_sol(vault_token_amount)?;
    let total_shares = match vault.total_shares.checked_sub(vault_token_amount) {
        None => return Err(ErrorCode::ArithmeticUnderflow),
        Some(v) => v,
    };
    let total_assets = match vault.total_assets.checked_sub(expected_sol) {
        None => return Err(ErrorCode::ArithmeticUnderflow),
        Some(v) => v,
    };
    proof {
        if total_shares > 0 && vault.total_assets > 0 {
            lemma_partial_value_below_assets(
                vault_token_amount as int,
                vault.total_assets as int,
                vault.total_shares as int,
            );
        }
    }
    vault.total_shares = total_shares;
    vault.total_assets = total_assets;
    let ticket = WithdrawalTicket {
        vault: keys.vault,
        user: keys.user,
        ticket_id: epoch,
        vault_tokens_burned: vault_token_amount,
        expected_sol_amount: expected_sol,
        request_epoch: epoch,
        ready_to_claim: vault.buffered_sol >= expected_sol,
        claimed: false,
        bump: keys.bump,
    };
    let mut ops: Vec<LedgerOp> = Vec::new();
    ops.push(
        LedgerOp::Burn { asset: Asset::VaultShares, from: Holder::User, amount: vault_token_amount },
    );
    Ok((ticket, ops))
}

pub open spec fn claim_withdrawal_error(
    factory: Factory,
    v: Vault,
    ticket: WithdrawalTicket,
    user: Identity,
) -> Option<ErrorCode> {
    if ticket.user != user {
        Some(ErrorCode::Unauthorized)
    } else if ticket.claimed {
        Some(ErrorCode::InvalidWithdrawalTicket)
    } else if factory.paused {
        Some(ErrorCode::VaultPaused)
    } else if v.buffered_sol < ticket.expected_sol_amount {
        Some(ErrorCode::WithdrawalNotReady)
    } else {
        None
    }
}

/// The vault after paying out `ticket`.
pub open spec fn paid_vault(v: Vault, ticket: WithdrawalTicket) -> Vault {
    Vault { buffered_sol: (v.buffered_sol - ticket.expected_sol_amount) as u64, ..v }
}

/// `ticket` once paid out.
pub open spec fn claimed_ticket(ticket: WithdrawalTicket) -> WithdrawalTicket {
    WithdrawalTicket { claimed: true, ready_to_claim: true, ..ticket }
}

/// Pays out a ticket to its user from the vault's buffered liquidity and marks it
/// claimed. A ticket is paid at most once; while the buffer is short the claim
/// fails and may be retried later.
pub fn claim_withdrawal(
    factory: &Factory,
    vault: &mut Vault,
    ticket: &mut WithdrawalTicket,
    user: Identity,
) -> (r: Result<Vec<LedgerOp>, ErrorCode>)
    ensures
        old(vault).well_formed() ==> final(vault).well_formed(),
        match claim_withdrawal_error(*factory, *old(vault), *old(ticket), user) {
            Some(e) => r == Err::<Vec<LedgerOp>, ErrorCode>(e) && *final(vault) == *old(vault)
                && *final(ticket) == *old(ticket),
            None => r is Ok && r->Ok_0@ == seq![
                LedgerOp::Transfer {
                    asset: Asset::Sol,
                    from: Holder::Vault,
                    to: Holder::User,
                    amount: old(ticket).expected_sol_amount,
                },
            ] && *final(vault) == paid_vault(*old(vault), *old(ticket)) && *final(ticket)
                == claimed_ticket(*old(ticket)),
        },
{
    if !(ticket.user == user) {
        return Err(ErrorCode::Unauthorized);
    }
    if ticket.claimed {
        return Err(ErrorCode::InvalidWithdrawalTicket);
    }
    if factory.paused {
        return Err(ErrorCode::VaultPaused);
    }
    if vault.buffered_sol < ticket.expected_sol_amount {
        return Err(ErrorCode::WithdrawalNotReady);
    }
    let amount = ticket.expected_sol_amount;
    vault.buffered_sol = vault.buffered_sol - amount;
    ticket.claimed = true;
    ticket.ready_to_claim = true;
    let mut ops: Vec<LedgerOp> = Vec::new();
    ops.push(LedgerOp::Transfer { asset: Asset::Sol, from: Holder::Vault, to: Holder::User, amount });
    Ok(ops)
}

} // verus!
