use vstd::prelude::*;

use crate::constants::{LIQUIDATION_BONUS, LIQUIDATION_THRESHOLD, MIN_COLLATERAL_RATIO, PROTOCOL_FEE_BPS};
use crate::identity::Identity;
use crate::psol_controller::PsolController;

verus! {

/// Protocol-wide parameters, consulted by every operation.
#[derive(Debug, Clone, Copy, PartialEq, Eq)]
pub struct Factory {
    /// Authority that may change protocol parameters.
    pub authority: Identity,
    /// Receiver of the protocol's fee shares.
    pub treasury: Identity,
    /// Number of vaults created so far.
    pub vault_count: u64,
    /// Protocol fee on rewards, in basis points.
    pub protocol_fee_bps: u16,
    /// Whether the protocol is paused.
    pub paused: bool,
    /// The synthetic token.
    pub psol_mint: Identity,
    /// The collateral controller.
    pub psol_controller: Identity,
    /// Address derivation bump of the registry record.
    pub bump: u8,
}

/// Identities that the registry and the controller are created with.
#[derive(Debug, Clone, Copy, PartialEq, Eq)]
pub struct ProtocolKeys {
    pub factory: Identity,
    pub authority: Identity,
    pub treasury: Identity,
    pub psol_mint: Identity,
    pub psol_controller: Identity,
    pub factory_bump: u8,
    pub controller_bump: u8,
}

/// Creates the registry and the collateral controller with the default
/// parameters: nothing minted, no vaults, not paused.
pub fn initialize_factory(keys: ProtocolKeys) -> (r: (Factory, PsolController))
    ensures
        r.0 == (Factory {
            authority: keys.authority,
            treasury: keys.treasury,
            vault_count: 0,
            protocol_fee_bps: PROTOCOL_FEE_BPS,
            paused: false,
            psol_mint: keys.psol_mint,
            psol_controller: keys.psol_controller,
            bump: keys.factory_bump,
        }),
        r.1 == (PsolController {
            factory: keys.factory,
            psol_mint: keys.psol_mint,
            total_psol_minted: 0,
            total_collateral_value: 0,
            min_collateral_ratio: MIN_COLLATERAL_RATIO,
            liquidation_threshold: LIQUIDATION_THRESHOLD,
            liquidation_bonus: LIQUIDATION_BONUS,
            active_positions: 0,
            bump: keys.controller_bump,
        }),
{
    let factory = Factory {
        authority: keys.authority,
        treasury: keys.treasury,
        vault_count: 0,
        protocol_fee_bps: PROTOCOL_FEE_BPS,
        paused: false,
        psol_mint: keys.psol_mint,
        psol_controller: keys.psol_controller,
        bump: keys.factory_bump,
    };
    let controller = PsolController {
        factory: keys.factory,
        psol_mint: keys.psol_mint,
        total_psol_minted: 0,
        total_collateral_value: 0,
        min_collateral_ratio: MIN_COLLATERAL_RATIO,
        liquidation_threshold: LIQUIDATION_THRESHOLD,
        liquidation_bonus: LIQUIDATION_BONUS,
        active_positions: 0,
        bump: keys.controller_bump,
    };
    (factory, controller)
}

} // verus!
