use penguin_finance::{
    burn_psol, initialize_factory, liquidate_position, mint_psol, Asset, ErrorCode, Factory, Holder,
    Identity, LedgerOp, PositionKeys, ProtocolKeys, PsolController, UserPosition, Vault,
};

fn id(b: u8) -> Identity {
    Identity { bytes: [b; 32] }
}

fn protocol() -> (Factory, PsolController) {
    initialize_factory(ProtocolKeys {
        factory: id(1),
        authority: id(2),
        treasury: id(3),
        psol_mint: id(4),
        psol_controller: id(5),
        factory_bump: 254,
        controller_bump: 253,
    })
}

fn vault(total_assets: u64, total_shares: u64) -> Vault {
    Vault {
        factory: id(1),
        vault_id: 0,
        operator: id(6),
        vault_token_mint: id(7),
        fee_basis_points: 500,
        max_capacity: u64::MAX,
        total_staked: 0,
        buffered_sol: total_assets,
        total_shares,
        total_assets,
        last_reward_epoch: 0,
        accepting_deposits: true,
        vault_name: String::from("cdp"),
        active_validators: 0,
        lifetime_rewards: 0,
        bump: 255,
    }
}

fn empty_position() -> UserPosition {
    UserPosition {
        owner: Identity::unset(),
        vault: Identity::unset(),
        psol_controller: Identity::unset(),
        collateral_amount: 0,
        psol_debt: 0,
        last_update_epoch: 0,
        bump: 0,
    }
}

fn keys(owner: u8) -> PositionKeys {
    PositionKeys { owner: id(owner), vault: id(10), psol_controller: id(5), bump: 77 }
}

fn position(collateral_amount: u64, psol_debt: u64) -> UserPosition {
    UserPosition {
        owner: id(20),
        vault: id(10),
        psol_controller: id(5),
        collateral_amount,
        psol_debt,
        last_update_epoch: 0,
        bump: 77,
    }
}

#[test]
fn mint_at_minimum_ratio_succeeds() {
    let (f, mut c) = protocol();
    let v = vault(1_000_000_000, 1_000_000_000);
    let mut p = empty_position();
    let ops = mint_psol(&f, &v, &mut c, &mut p, keys(20), 11_000, 10_000, 4).unwrap();
    assert_eq!(
        ops,
        vec![
            LedgerOp::Transfer { asset: Asset::VaultShares, from: Holder::User, to: Holder::Position, amount: 11_000 },
            LedgerOp::MintTo { asset: Asset::Psol, to: Holder::User, amount: 10_000 },
        ]
    );
    assert_eq!(p, UserPosition { last_update_epoch: 4, ..position(11_000, 10_000) });
    assert_eq!(c.total_psol_minted, 10_000);
    assert_eq!(c.total_collateral_value, 11_000);
    assert_eq!(c.active_positions, 1);
    assert_eq!(p.collateralization_ratio(v.exchange_rate().unwrap()), Ok(11_000));
}

#[test]
fn mint_just_below_minimum_ratio_fails() {
    let (f, mut c) = protocol();
    let v = vault(1_000_000_000, 1_000_000_000);
    let mut p = empty_position();
    let c0 = c;
    assert_eq!(
        mint_psol(&f, &v, &mut c, &mut p, keys(20), 10_999, 10_000, 4),
        Err(ErrorCode::InsufficientCollateral)
    );
    assert_eq!(c, c0);
    assert_eq!(p, empty_position());
}

#[test]
fn mint_values_collateral_at_exchange_rate() {
    let (f, mut c) = protocol();
    let v = vault(2_000_000_000, 1_000_000_000);
    let mut p = empty_position();
    assert!(mint_psol(&f, &v, &mut c, &mut p, keys(20), 5_500, 10_000, 1).is_ok());
    assert_eq!(c.total_collateral_value, 11_000);
}

#[test]
fn second_mint_keeps_position_count() {
    let (f, mut c) = protocol();
    let v = vault(1_000_000_000, 1_000_000_000);
    let mut p = empty_position();
    mint_psol(&f, &v, &mut c, &mut p, keys(20), 11_000, 10_000, 1).unwrap();
    mint_psol(&f, &v, &mut c, &mut p, keys(20), 2_200, 2_000, 2).unwrap();
    assert_eq!(c.active_positions, 1);
    assert_eq!(p.collateral_amount, 13_200);
    assert_eq!(p.psol_debt, 12_000);
    assert_eq!(c.total_psol_minted, 12_000);
}

#[test]
fn mint_input_errors() {
    let (f, mut c) = protocol();
    let v = vault(1_000_000_000, 1_000_000_000);
    let mut p = empty_position();
    assert_eq!(mint_psol(&f, &v, &mut c, &mut p, keys(20), 0, 1, 1), Err(ErrorCode::InvalidCollateralAmount));
    assert_eq!(mint_psol(&f, &v, &mut c, &mut p, keys(20), 1, 0, 1), Err(ErrorCode::InvalidPsolAmount));
    let mut paused = f;
    paused.paused = true;
    assert_eq!(mint_psol(&paused, &v, &mut c, &mut p, keys(20), 11, 10, 1), Err(ErrorCode::VaultPaused));
    let mut other = position(11_000, 10_000);
    assert_eq!(mint_psol(&f, &v, &mut c, &mut other, keys(21), 11, 10, 1), Err(ErrorCode::Unauthorized));
    assert_eq!(
        mint_psol(&f, &v, &mut c, &mut p, keys(20), u64::MAX, 1, 1),
        Err(ErrorCode::ArithmeticOverflow)
    );
}

#[test]
fn partial_repayment_releases_proportional_collateral() {
    let (f, mut c) = protocol();
    let v = vault(1_000_000_000, 1_000_000_000);
    let mut p = empty_position();
    mint_psol(&f, &v, &mut c, &mut p, keys(20), 11_000, 10_000, 1).unwrap();
    let ops = burn_psol(&f, &v, &mut c, &mut p, id(20), 3_000, 2).unwrap();
    assert_eq!(
        ops,
        vec![
            LedgerOp::Burn { asset: Asset::Psol, from: Holder::User, amount: 3_000 },
            LedgerOp::Transfer { asset: Asset::VaultShares, from: Holder::Position, to: Holder::User, amount: 3_300 },
        ]
    );
    assert_eq!(p.collateral_amount, 7_700);
    assert_eq!(p.psol_debt, 7_000);
    assert_eq!(c.total_psol_minted, 7_000);
    assert_eq!(c.total_collateral_value, 7_700);
    assert_eq!(c.active_positions, 1);
}

#[test]
fn full_repayment_releases_everything_and_closes() {
    let (f, mut c) = protocol();
    let v = vault(1_000_000_000, 1_000_000_000);
    let mut p = empty_position();
    mint_psol(&f, &v, &mut c, &mut p, keys(20), 11_001, 10_000, 1).unwrap();
    let ops = burn_psol(&f, &v, &mut c, &mut p, id(20), 10_000, 2).unwrap();
    assert_eq!(ops[1], LedgerOp::Transfer { asset: Asset::VaultShares, from: Holder::Position, to: Holder::User, amount: 11_001 });
    assert_eq!(p.collateral_amount, 0);
    assert_eq!(p.psol_debt, 0);
    assert_eq!(c.active_positions, 0);
    assert_eq!(c.total_psol_minted, 0);
    assert_eq!(c.total_collateral_value, 0);
}

#[test]
fn repayment_errors() {
    let (f, mut c) = protocol();
    let v = vault(1_000_000_000, 1_000_000_000);
    let mut p = empty_position();
    mint_psol(&f, &v, &mut c, &mut p, keys(20), 11_000, 10_000, 1).unwrap();
    assert_eq!(burn_psol(&f, &v, &mut c, &mut p, id(20), 10_001, 2), Err(ErrorCode::InvalidPsolAmount));
    assert_eq!(burn_psol(&f, &v, &mut c, &mut p, id(20), 0, 2), Err(ErrorCode::InvalidPsolAmount));
    assert_eq!(burn_psol(&f, &v, &mut c, &mut p, id(21), 1, 2), Err(ErrorCode::Unauthorized));
    assert_eq!(p.psol_debt, 10_000);
}

#[test]
fn debt_free_position_is_never_liquidatable() {
    let (f, mut c) = protocol();
    let v = vault(1, 1_000_000_000);
    let start = position(5, 0);
    assert_eq!(start.collateralization_ratio(1), Ok(u64::MAX));
    assert_eq!(start.is_liquidatable(0, u64::MAX), Ok(false));
    let mut p = start;
    assert_eq!(liquidate_position(&f, &v, &mut c, &mut p, 3), Err(ErrorCode::PositionHealthy));
}

#[test]
fn ratio_at_threshold_is_not_liquidatable() {
    let (f, mut c) = protocol();
    let v = vault(1_000_000_000, 1_000_000_000);
    let start = position(10_500, 10_000);
    assert_eq!(start.collateralization_ratio(1_000_000_000), Ok(10_500));
    assert_eq!(start.is_liquidatable(1_000_000_000, 10_500), Ok(false));
    let mut p = start;
    assert_eq!(liquidate_position(&f, &v, &mut c, &mut p, 3), Err(ErrorCode::PositionHealthy));
    assert_eq!(position(10_499, 10_000).is_liquidatable(1_000_000_000, 10_500), Ok(true));
}

#[test]
fn is_healthy_at_minimum() {
    assert_eq!(position(11_000, 10_000).is_healthy(1_000_000_000, 11_000), Ok(true));
    assert_eq!(position(10_999, 10_000).is_healthy(1_000_000_000, 11_000), Ok(false));
    assert_eq!(position(u64::MAX, 1).is_healthy(2, 11_000), Err(ErrorCode::ArithmeticOverflow));
}

#[test]
fn liquidation_seizes_all_collateral() {
    let (f, mut c) = protocol();
    let healthy = vault(1_000_000_000, 1_000_000_000);
    let mut p = empty_position();
    mint_psol(&f, &healthy, &mut c, &mut p, keys(20), 11_000, 10_000, 1).unwrap();
    let fallen = vault(950_000_000, 1_000_000_000);
    assert_eq!(p.collateralization_ratio(fallen.exchange_rate().unwrap()), Ok(10_450));
    let l = liquidate_position(&f, &fallen, &mut c, &mut p, 8).unwrap();
    assert_eq!(
        l.ops,
        vec![
            LedgerOp::Burn { asset: Asset::Psol, from: Holder::Liquidator, amount: 10_000 },
            LedgerOp::Transfer { asset: Asset::VaultShares, from: Holder::Position, to: Holder::Liquidator, amount: 11_000 },
        ]
    );
    assert_eq!(l.bonus_amount, 550);
    assert_eq!(p.collateral_amount, 0);
    assert_eq!(p.psol_debt, 0);
    assert_eq!(p.last_update_epoch, 8);
    assert_eq!(c.total_psol_minted, 0);
    assert_eq!(c.total_collateral_value, 550);
    assert_eq!(c.active_positions, 0);
}

#[test]
fn controller_ratio() {
    let (_, mut c) = protocol();
    assert_eq!(c.collateralization_ratio(), Ok(u64::MAX));
    c.total_psol_minted = 10_000;
    c.total_collateral_value = 11_000;
    assert_eq!(c.collateralization_ratio(), Ok(11_000));
    c.total_collateral_value = u64::MAX;
    assert_eq!(c.collateralization_ratio(), Err(ErrorCode::ArithmeticOverflow));
}

#[test]
fn protocol_defaults() {
    let (f, c) = protocol();
    assert_eq!(f.protocol_fee_bps, 100);
    assert!(!f.paused);
    assert_eq!(f.vault_count, 0);
    assert_eq!(c.min_collateral_ratio, 11_000);
    assert_eq!(c.liquidation_threshold, 10_500);
    assert_eq!(c.liquidation_bonus, 500);
    assert_eq!(c.factory, id(1));
}
