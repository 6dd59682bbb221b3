use vstd::prelude::*;

use crate::identity::Identity;

verus! {

/// A promise of liquidity, issued when shares are burned for withdrawal.
#[derive(Debug, Clone, Copy, PartialEq, Eq)]
pub struct WithdrawalTicket {
    /// Vault the shares were burned from.
    pub vault: Identity,
    /// User the liquidity is owed to.
    pub user: Identity,
    /// Number of the ticket (the epoch of the request).
    pub ticket_id: u64,
    /// Shares burned.
    pub vault_tokens_burned: u64,
    /// Liquidity owed, valued when the ticket was issued.
    pub expected_sol_amount: u64,
    /// Epoch of the request.
    pub request_epoch: u64,
    /// Whether the vault held enough liquidity when last looked at.
    pub ready_to_claim: bool,
    /// Whether the liquidity was paid out.
    pub claimed: bool,
    /// Address derivation bump of the ticket record.
    pub bump: u8,
}

} // verus!
