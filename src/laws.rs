use vstd::prelude::*;

use vstd::arithmetic::div_mod::{lemma_fundamental_div_mod, lemma_mod_pos_bound};

use crate::cdp::liquidate_position_spec;
use crate::constants::{MIN_STAKE_AMOUNT, RATE_SCALE};
use crate::errors::ErrorCode;
use crate::factory::Factory;
use crate::identity::Identity;
use crate::psol_controller::{PsolController, UserPosition};
use crate::rewards::{distribution_spec, rewarded_vault};
use crate::vault::{rate_of, value_of, Vault};
use crate::vault_ops::{deposit_spec, stake_error, staked_vault};
use crate::withdrawal::{
    claim_withdrawal_error, claimed_ticket, paid_vault, request_withdrawal_spec, TicketKeys,
};
use crate::withdrawal_ticket::WithdrawalTicket;

verus! {

proof fn lemma_div_bounds(x: int, d: int)
    requires
        0 <= x,
        0 < d,
    ensures
        (x / d) * d <= x,
        x < (x / d + 1) * d,
{
    lemma_fundamental_div_mod(x, d);
    lemma_mod_pos_bound(x, d);
    let q = x / d;
    assert(q * d == d * q) by (nonlinear_arith);
    assert((q + 1) * d == d * q + d) by (nonlinear_arith);
}

/// A multiple of `d` that does not exceed `x` is at most `x / d` times `d`.
proof fn lemma_le_div(f: int, x: int, d: int)
    requires
        0 <= x,
        0 < d,
        f * d <= x,
    ensures
        f <= x / d,
{
    lemma_div_bounds(x, d);
    let q = x / d;
    assert(f * d < (q + 1) * d);
    assert(f < q + 1) by (nonlinear_arith)
        requires
            f * d < (q + 1) * d,
            0 < d,
    ;
}

/// Below `a` times `d`, the quotient by `d` is at most `a`.
proof fn lemma_div_le(x: int, d: int, a: int)
    requires
        0 <= x,
        0 < d,
        x <= a * d,
    ensures
        x / d <= a,
{
    lemma_div_bounds(x, d);
    let q = x / d;
    assert(q * d <= a * d);
    assert(q <= a) by (nonlinear_arith)
        requires
            q * d <= a * d,
            0 < d,
    ;
}

/// The scaled, rounded-down rate follows the exact ratio of assets to shares.
proof fn lemma_rate_monotone(a1: int, s1: int, a2: int, s2: int)
    requires
        0 <= a1,
        0 < s1,
        0 <= a2,
        0 < s2,
        a1 * s2 <= a2 * s1,
    ensures
        rate_of(a1, s1) <= rate_of(a2, s2),
{
    let k = RATE_SCALE as int;
    assert(0 <= a1 * k) by (nonlinear_arith)
        requires
            0 <= a1,
            0 < k,
    ;
    assert(0 <= a2 * k) by (nonlinear_arith)
        requires
            0 <= a2,
            0 < k,
    ;
    let f = a1 * k / s1;
    lemma_div_bounds(a1 * k, s1);
    assert(f * s2 <= a2 * k) by (nonlinear_arith)
        requires
            f * s1 <= a1 * k,
            a1 * s2 <= a2 * s1,
            0 < s1,
            0 < s2,
            0 < k,
    ;
    lemma_le_div(f, a2 * k, s2);
}

/// A deposit never lowers the vault's exchange rate: the shares it mints round
/// down in the vault's favour.
pub proof fn lemma_deposit_keeps_rate(factory: Factory, v: Vault, amount: u64)
    requires
        deposit_spec(factory, v, amount) is Ok,
    ensures
        rate_of(v.total_assets as int, v.total_shares as int) <= rate_of(
            deposit_spec(factory, v, amount)->Ok_0.0.total_assets as int,
            deposit_spec(factory, v, amount)->Ok_0.0.total_shares as int,
        ),
{
    let (w, shares) = deposit_spec(factory, v, amount)->Ok_0;
    let a = v.total_assets as int;
    let s = v.total_shares as int;
    let x = amount as int;
    if s == 0 {
        assert(w.total_shares == amount && amount >= MIN_STAKE_AMOUNT);
        assert(x * x <= (a + x) * x) by (nonlinear_arith)
            requires
                0 <= a,
                0 < x,
        ;
        lemma_rate_monotone(x, x, a + x, x);
        assert(rate_of(x, x) == RATE_SCALE as int) by {
            let k = RATE_SCALE as int;
            assert(x * k == k * x) by (nonlinear_arith);
            lemma_div_bounds(x * k, x);
            let q = x * k / x;
            assert(q == k) by (nonlinear_arith)
                requires
                    q * x <= x * k,
                    x * k < (q + 1) * x,
                    0 < x,
            ;
        }
    } else {
        assert(a > 0);
        let m = shares as int;
        assert(0 <= x * s) by (nonlinear_arith)
            requires
                0 <= x,
                0 <= s,
        ;
        lemma_div_bounds(x * s, a);
        assert(a * (s + m) <= (a + x) * s) by (nonlinear_arith)
            requires
                m * a <= x * s,
        ;
        lemma_rate_monotone(a, s, a + x, s + m);
    }
}

/// A balance report never lowers the vault's exchange rate (fee shares are valued
/// at the rate before the report and round down), and while shares exist and
/// stakers keep part of the reward, assets per share strictly rise.
pub proof fn lemma_report_raises_rate(protocol_fee_bps: u16, v: Vault, new_total_staked: u64, epoch: u64)
    requires
        new_total_staked > v.total_staked,
        distribution_spec(protocol_fee_bps, v, new_total_staked) is Ok,
    ensures
        ({
            let (split, shares) = distribution_spec(protocol_fee_bps, v, new_total_staked)->Ok_0;
            let w = rewarded_vault(v, new_total_staked, split.rewards, shares.fee_shares, epoch);
            &&& rate_of(v.total_assets as int, v.total_shares as int) <= rate_of(
                w.total_assets as int,
                w.total_shares as int,
            )
            &&& v.total_shares > 0 && split.staker_rewards > 0 ==> v.total_assets * w.total_shares
                < w.total_assets * v.total_shares
        }),
{
    let (split, shares) = distribution_spec(protocol_fee_bps, v, new_total_staked)->Ok_0;
    let w = rewarded_vault(v, new_total_staked, split.rewards, shares.fee_shares, epoch);
    let a = v.total_assets as int;
    let s = v.total_shares as int;
    let r = split.rewards as int;
    let fee = split.protocol_fee + split.operator_fee;
    let f = shares.fee_shares as int;
    assert(r == fee + split.staker_rewards);
    if s > 0 {
        assert(a > 0);
        assert(0 <= fee * s) by (nonlinear_arith)
            requires
                0 <= fee,
                0 <= s,
        ;
        lemma_div_bounds(fee * s, a);
        assert(f * a <= fee * s);
        assert(a * (s + f) + split.staker_rewards * s <= (a + r) * s) by (nonlinear_arith)
            requires
                f * a <= fee * s,
                r == fee + split.staker_rewards,
        ;
        assert(0 <= split.staker_rewards * s) by (nonlinear_arith)
            requires
                0 <= split.staker_rewards,
                0 <= s,
        ;
        if split.staker_rewards > 0 {
            assert(0 < split.staker_rewards * s) by (nonlinear_arith)
                requires
                    0 < split.staker_rewards,
                    0 < s,
            ;
        }
        lemma_rate_monotone(a, s, a + r, s + f);
    }
}

/// A withdrawal request that leaves shares outstanding never lowers the vault's
/// exchange rate: the value paid for the burned shares rounds down.
pub proof fn lemma_withdrawal_keeps_rate(
    factory: Factory,
    v: Vault,
    keys: TicketKeys,
    shares: u64,
    epoch: u64,
)
    requires
        request_withdrawal_spec(factory, v, keys, shares, epoch) is Ok,
        shares < v.total_shares,
    ensures
        rate_of(v.total_assets as int, v.total_shares as int) <= rate_of(
            request_withdrawal_spec(factory, v, keys, shares, epoch)->Ok_0.0.total_assets as int,
            request_withdrawal_spec(factory, v, keys, shares, epoch)->Ok_0.0.total_shares as int,
        ),
{
    let (w, ticket) = request_withdrawal_spec(factory, v, keys, shares, epoch)->Ok_0;
    let a = v.total_assets as int;
    let s = v.total_shares as int;
    let b = shares as int;
    let e = ticket.expected_sol_amount as int;
    assert(0 <= b * a) by (nonlinear_arith)
        requires
            0 <= a,
            0 <= b,
    ;
    lemma_div_bounds(b * a, s);
    assert(e == value_of(a, s, b));
    assert(a * (s - b) <= (a - e) * s) by (nonlinear_arith)
        requires
            e * s <= b * a,
    ;
    lemma_rate_monotone(a, s, a - e, s - b);
}

/// Staking buffered liquidity leaves the exchange rate as it was.
pub proof fn lemma_stake_keeps_rate(factory: Factory, v: Vault, operator: Identity, amount: u64)
    requires
        stake_error(factory, v, operator, amount) is None,
    ensures
        ({
            let w = staked_vault(v, amount);
            rate_of(w.total_assets as int, w.total_shares as int) == rate_of(
                v.total_assets as int,
                v.total_shares as int,
            )
        }),
{
}

/// Paying out a ticket leaves the exchange rate as it was.
pub proof fn lemma_claim_keeps_rate(
    factory: Factory,
    v: Vault,
    ticket: WithdrawalTicket,
    user: Identity,
)
    requires
        claim_withdrawal_error(factory, v, ticket, user) is None,
    ensures
        ({
            let w = paid_vault(v, ticket);
            rate_of(w.total_assets as int, w.total_shares as int) == rate_of(
                v.total_assets as int,
                v.total_shares as int,
            )
        }),
{
}

/// Depositing `amount` and at once requesting the withdrawal of every share it
/// minted never yields more than `amount`, unless the vault held assets without
/// any shares (the first depositor then receives them).
pub proof fn lemma_deposit_withdraw_round_trip(
    factory: Factory,
    v: Vault,
    amount: u64,
    keys: TicketKeys,
    epoch: u64,
)
    requires
        deposit_spec(factory, v, amount) is Ok,
        !(v.total_shares == 0 && v.total_assets > 0),
    ensures
        ({
            let (w, shares) = deposit_spec(factory, v, amount)->Ok_0;
            &&& value_of(w.total_assets as int, w.total_shares as int, shares as int) <= amount
            &&& request_withdrawal_spec(factory, w, keys, shares, epoch) is Ok
                ==> request_withdrawal_spec(factory, w, keys, shares, epoch)->Ok_0.1.expected_sol_amount
                <= amount
        }),
{
    let (w, shares) = deposit_spec(factory, v, amount)->Ok_0;
    let a = v.total_assets as int;
    let s = v.total_shares as int;
    let x = amount as int;
    let m = shares as int;
    assert(0 <= m * (a + x)) by (nonlinear_arith)
        requires
            0 <= m,
            0 <= a + x,
    ;
    if s == 0 {
        assert(a == 0 && m == x && x > 0);
        lemma_div_le(m * (a + x), s + m, x);
    } else {
        assert(a > 0);
        assert(0 <= x * s) by (nonlinear_arith)
            requires
                0 <= x,
                0 <= s,
        ;
        lemma_div_bounds(x * s, a);
        assert(m * (a + x) <= x * (s + m)) by (nonlinear_arith)
            requires
                m * a <= x * s,
        ;
        lemma_div_le(m * (a + x), s + m, x);
    }
}

/// A ticket that was claimed is refused with `InvalidWithdrawalTicket` whenever
/// its user claims it again, whatever the vault's buffered liquidity.
pub proof fn lemma_claimed_ticket_refused(
    factory: Factory,
    v: Vault,
    ticket: WithdrawalTicket,
    user: Identity,
)
    requires
        ticket.claimed,
        ticket.user == user,
    ensures
        claim_withdrawal_error(factory, v, ticket, user) == Some(ErrorCode::InvalidWithdrawalTicket),
{
}

/// After a successful claim, a second claim of the same ticket by its user fails
/// with `InvalidWithdrawalTicket`, whatever the vault and the registry then hold.
pub proof fn lemma_claim_only_once(
    factory: Factory,
    v: Vault,
    ticket: WithdrawalTicket,
    user: Identity,
    later_factory: Factory,
    later_vault: Vault,
)
    requires
        claim_withdrawal_error(factory, v, ticket, user) is None,
    ensures
        claim_withdrawal_error(later_factory, later_vault, claimed_ticket(ticket), user) == Some(
            ErrorCode::InvalidWithdrawalTicket,
        ),
{
}

/// A position without debt is never liquidated: where the protocol runs and the
/// vault's rate is defined, the attempt fails with `PositionHealthy`.
pub proof fn lemma_debt_free_position_not_liquidatable(
    factory: Factory,
    v: Vault,
    controller: PsolController,
    position: UserPosition,
    epoch: u64,
)
    requires
        position.psol_debt == 0,
    ensures
        liquidate_position_spec(factory, v, controller, position, epoch) is Err,
        !factory.paused && v.exchange_rate_spec() is Ok ==> liquidate_position_spec(
            factory,
            v,
            controller,
            position,
            epoch,
        ) == Err::<(PsolController, UserPosition, u64), ErrorCode>(ErrorCode::PositionHealthy),
{
}

} // verus!
