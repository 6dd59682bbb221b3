use penguin_finance::{
    claim_withdrawal, deposit_to_vault, initialize_factory, request_withdrawal, Asset, ErrorCode,
    Factory, Holder, Identity, LedgerOp, ProtocolKeys, TicketKeys, Vault, WithdrawalTicket,
};

fn id(b: u8) -> Identity {
    Identity { bytes: [b; 32] }
}

fn factory() -> Factory {
    initialize_factory(ProtocolKeys {
        factory: id(1),
        authority: id(2),
        treasury: id(3),
        psol_mint: id(4),
        psol_controller: id(5),
        factory_bump: 254,
        controller_bump: 253,
    })
    .0
}

fn vault(total_assets: u64, total_shares: u64, buffered_sol: u64) -> Vault {
    Vault {
        factory: id(1),
        vault_id: 0,
        operator: id(6),
        vault_token_mint: id(7),
        fee_basis_points: 500,
        max_capacity: u64::MAX,
        total_staked: 0,
        buffered_sol,
        total_shares,
        total_assets,
        last_reward_epoch: 0,
        accepting_deposits: true,
        vault_name: String::from("queue"),
        active_validators: 0,
        lifetime_rewards: 0,
        bump: 255,
    }
}

fn keys() -> TicketKeys {
    TicketKeys { vault: id(10), user: id(20), bump: 66 }
}

#[test]
fn request_burns_shares_and_issues_ticket() {
    let f = factory();
    let mut v = vault(3_000_000_000, 2_000_000_000, 3_000_000_000);
    let (ticket, ops) = request_withdrawal(&f, &mut v, keys(), 500_000_000, 7).unwrap();
    assert_eq!(ops, vec![LedgerOp::Burn { asset: Asset::VaultShares, from: Holder::User, amount: 500_000_000 }]);
    assert_eq!(
        ticket,
        WithdrawalTicket {
            vault: id(10),
            user: id(20),
            ticket_id: 7,
            vault_tokens_burned: 500_000_000,
            expected_sol_amount: 750_000_000,
            request_epoch: 7,
            ready_to_claim: true,
            claimed: false,
            bump: 66,
        }
    );
    assert_eq!(v.total_shares, 1_500_000_000);
    assert_eq!(v.total_assets, 2_250_000_000);
    assert_eq!(v.buffered_sol, 3_000_000_000);
}

#[test]
fn request_against_short_buffer_is_not_ready() {
    let f = factory();
    let mut v = vault(1_000, 1_000, 10);
    let (ticket, _) = request_withdrawal(&f, &mut v, keys(), 11, 1).unwrap();
    assert!(!ticket.ready_to_claim);
}

#[test]
fn request_errors() {
    let f = factory();
    let mut v = vault(1_000, 1_000, 1_000);
    assert_eq!(request_withdrawal(&f, &mut v, keys(), 0, 1), Err(ErrorCode::InvalidCollateralAmount));
    assert_eq!(request_withdrawal(&f, &mut v, keys(), 1_001, 1), Err(ErrorCode::ArithmeticUnderflow));
    let mut paused = f;
    paused.paused = true;
    assert_eq!(request_withdrawal(&paused, &mut v, keys(), 1, 1), Err(ErrorCode::VaultPaused));
    assert_eq!(v, vault(1_000, 1_000, 1_000));
}

#[test]
fn claim_pays_out_once() {
    let f = factory();
    let mut v = vault(1_000, 1_000, 1_000);
    let (mut ticket, _) = request_withdrawal(&f, &mut v, keys(), 400, 1).unwrap();
    let ops = claim_withdrawal(&f, &mut v, &mut ticket, id(20)).unwrap();
    assert_eq!(ops, vec![LedgerOp::Transfer { asset: Asset::Sol, from: Holder::Vault, to: Holder::User, amount: 400 }]);
    assert_eq!(v.buffered_sol, 600);
    assert!(ticket.claimed);
    assert!(ticket.ready_to_claim);
    v.buffered_sol = u64::MAX;
    assert_eq!(claim_withdrawal(&f, &mut v, &mut ticket, id(20)), Err(ErrorCode::InvalidWithdrawalTicket));
    assert_eq!(v.buffered_sol, u64::MAX);
}

#[test]
fn claim_by_other_user_is_unauthorized() {
    let f = factory();
    let mut v = vault(1_000, 1_000, 1_000);
    let (mut ticket, _) = request_withdrawal(&f, &mut v, keys(), 400, 1).unwrap();
    assert_eq!(claim_withdrawal(&f, &mut v, &mut ticket, id(21)), Err(ErrorCode::Unauthorized));
    assert!(!ticket.claimed);
}

#[test]
fn claim_waits_for_liquidity() {
    let f = factory();
    let mut v = vault(1_000, 1_000, 100);
    let (mut ticket, _) = request_withdrawal(&f, &mut v, keys(), 400, 1).unwrap();
    assert_eq!(claim_withdrawal(&f, &mut v, &mut ticket, id(20)), Err(ErrorCode::WithdrawalNotReady));
    assert!(!ticket.claimed);
    v.buffered_sol = 400;
    assert!(claim_withdrawal(&f, &mut v, &mut ticket, id(20)).is_ok());
    assert_eq!(v.buffered_sol, 0);
}

#[test]
fn deposit_then_withdraw_all_returns_at_most_deposit() {
    let f = factory();
    let mut v = vault(3_000_000_001, 2_000_000_000, 0);
    let ops = deposit_to_vault(&f, &mut v, 100_000_007).unwrap();
    let shares = match ops[1] {
        LedgerOp::MintTo { amount, .. } => amount,
        _ => panic!("expected a share mint"),
    };
    let (ticket, _) = request_withdrawal(&f, &mut v, keys(), shares, 2).unwrap();
    assert!(ticket.expected_sol_amount <= 100_000_007);
    assert_eq!(ticket.expected_sol_amount, 100_000_006);
}

#[test]
fn withdrawal_keeps_exchange_rate() {
    let f = factory();
    let mut v = vault(3_000_000_001, 2_000_000_000, 0);
    let before = v.exchange_rate().unwrap();
    request_withdrawal(&f, &mut v, keys(), 777_777, 2).unwrap();
    assert!(v.exchange_rate().unwrap() >= before);
}
