use penguin_finance::{
    calculate_fee_shares, initialize_factory, split_rewards, update_vault_balance, Asset, ErrorCode,
    Factory, FeeShares, Holder, Identity, LedgerOp, ProtocolKeys, RewardSplit, Vault,
};

fn id(b: u8) -> Identity {
    Identity { bytes: [b; 32] }
}

fn factory() -> Factory {
    initialize_factory(ProtocolKeys {
        factory: id(1),
        authority: id(2),
        treasury: id(3),
        psol_mint: id(4),
        psol_controller: id(5),
        factory_bump: 254,
        controller_bump: 253,
    })
    .0
}

fn staked_vault(total_assets: u64, total_shares: u64, total_staked: u64) -> Vault {
    Vault {
        factory: id(1),
        vault_id: 3,
        operator: id(6),
        vault_token_mint: id(7),
        fee_basis_points: 500,
        max_capacity: u64::MAX,
        total_staked,
        buffered_sol: 0,
        total_shares,
        total_assets,
        last_reward_epoch: 0,
        accepting_deposits: true,
        vault_name: String::from("reward"),
        active_validators: 1,
        lifetime_rewards: 0,
        bump: 255,
    }
}

#[test]
fn split_rewards_one_percent_and_five_percent() {
    assert_eq!(
        split_rewards(1000, 100, 500),
        Ok(RewardSplit { rewards: 1000, protocol_fee: 10, operator_fee: 49, staker_rewards: 941 })
    );
}

#[test]
fn split_rewards_errors() {
    assert_eq!(split_rewards(10_000, 10001, 0), Err(ErrorCode::ArithmeticUnderflow));
    assert_eq!(split_rewards(u64::MAX, 2, 0), Err(ErrorCode::ArithmeticOverflow));
    assert_eq!(split_rewards(10_000, 0, 10001), Err(ErrorCode::ArithmeticUnderflow));
}

#[test]
fn fee_shares_valued_at_pre_report_rate() {
    let split = split_rewards(1000, 100, 500).unwrap();
    assert_eq!(
        calculate_fee_shares(split, 2_000_000, 4_000_000),
        Ok(FeeShares { fee_shares: 29, protocol_shares: 4, operator_shares: 25 })
    );
    assert_eq!(
        calculate_fee_shares(split, 0, 4_000_000),
        Ok(FeeShares { fee_shares: 0, protocol_shares: 0, operator_shares: 0 })
    );
    assert_eq!(calculate_fee_shares(split, 5, 0), Err(ErrorCode::DivisionByZero));
}

#[test]
fn zero_reward_report_changes_nothing() {
    let f = factory();
    let mut v = staked_vault(1_000_000, 1_000_000, 5_000);
    assert_eq!(update_vault_balance(&f, &mut v, 5_000, 9), Ok(vec![]));
    assert_eq!(v, staked_vault(1_000_000, 1_000_000, 5_000));
}

#[test]
fn decreasing_report_is_refused() {
    let f = factory();
    let mut v = staked_vault(1_000_000, 1_000_000, 5_000);
    assert_eq!(update_vault_balance(&f, &mut v, 4_999, 9), Err(ErrorCode::InvalidVaultState));
    assert_eq!(v, staked_vault(1_000_000, 1_000_000, 5_000));
}

#[test]
fn report_distributes_fees_as_shares() {
    let f = factory();
    let mut v = staked_vault(1_000_000, 1_000_000, 0);
    let ops = update_vault_balance(&f, &mut v, 1_000, 9).unwrap();
    assert_eq!(
        ops,
        vec![
            LedgerOp::MintTo { asset: Asset::VaultShares, to: Holder::Operator, amount: 49 },
            LedgerOp::MintTo { asset: Asset::VaultShares, to: Holder::Treasury, amount: 10 },
        ]
    );
    assert_eq!(v.total_staked, 1_000);
    assert_eq!(v.total_assets, 1_001_000);
    assert_eq!(v.total_shares, 1_000_059);
    assert_eq!(v.lifetime_rewards, 1_000);
    assert_eq!(v.last_reward_epoch, 9);
}

#[test]
fn report_with_rewards_raises_exchange_rate() {
    let f = factory();
    let mut v = staked_vault(1_000_000_000, 1_000_000_000, 0);
    let before = v.exchange_rate().unwrap();
    update_vault_balance(&f, &mut v, 10_000_000, 1).unwrap();
    assert!(v.exchange_rate().unwrap() > before);
}

#[test]
fn report_without_shares_mints_nothing() {
    let f = factory();
    let mut v = staked_vault(0, 0, 0);
    assert_eq!(update_vault_balance(&f, &mut v, 1_000, 2), Ok(vec![]));
    assert_eq!(v.total_assets, 1_000);
    assert_eq!(v.total_shares, 0);
    assert_eq!(v.total_staked, 1_000);
}

#[test]
fn report_overflowing_assets_is_refused() {
    let f = factory();
    let mut v = staked_vault(u64::MAX - 10, 1, 0);
    v.fee_basis_points = 0;
    let mut g = f;
    g.protocol_fee_bps = 0;
    assert_eq!(update_vault_balance(&g, &mut v, 11, 2), Err(ErrorCode::ArithmeticOverflow));
    assert_eq!(v.total_assets, u64::MAX - 10);
}
