//! Accounting and state-transition engine of a liquid-staking vault protocol with
//! a collateralized synthetic token: share and exchange-rate arithmetic, reward
//! and fee distribution, the mint / repay / liquidate lifecycle of collateral
//! positions, and withdrawal tickets.
//!
//! Every operation takes the records it touches, checks its preconditions, and
//! either fails with no change at all or updates the records and returns the
//! token-ledger movements (`LedgerOp`) that the host must then perform.
pub mod cdp;
pub mod constants;
pub mod errors;
pub mod factory;
pub mod identity;
pub mod laws;
pub mod ledger;
pub mod psol_controller;
pub mod rewards;
pub mod vault;
pub mod vault_ops;
pub mod withdrawal;
pub mod withdrawal_ticket;

pub use cdp::{burn_psol, liquidate_position, mint_psol, Liquidation, PositionKeys};
pub use errors::ErrorCode;
pub use factory::{initialize_factory, Factory, ProtocolKeys};
pub use identity::Identity;
pub use ledger::{Asset, Holder, LedgerOp};
pub use psol_controller::{PsolController, UserPosition};
pub use rewards::{calculate_fee_shares, split_rewards, update_vault_balance, FeeShares, RewardSplit};
pub use vault::Vault;
pub use vault_ops::{create_vault, deposit_to_vault, stake_from_vault, VaultKeys};
pub use withdrawal::{claim_withdrawal, request_withdrawal, TicketKeys};
pub use withdrawal_ticket::WithdrawalTicket;
