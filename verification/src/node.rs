use vstd::prelude::*;

use vstd::arithmetic::div_mod::{lemma_div_is_ordered, lemma_div_multiples_vanish};
use vstd::arithmetic::mul::lemma_mul_inequality;

verus! {

/// The denominator of an uptime in basis points: 10000 stands for 100%.
pub const BPS_SCALE: i128 = 10000;

/// The service terms and payout record of a registered node.
#[derive(Clone, Copy, Debug, PartialEq, Eq)]
pub struct NodeInfo {
    /// The least uptime, in basis points, that earns a payout.
    pub uptime_threshold: u64,
    /// The amount paid for a report of 100% uptime.
    pub escrow_amount: i128,
    /// The timestamp of the latest verified report.
    pub last_report_time: u64,
    /// The sum of the uptimes of all verified reports.
    pub cumulative_uptime: u64,
    /// The sum of all payouts made to the node.
    pub total_paid: i128,
}

/// The record of a node that was just registered.
pub open spec fn fresh_node(uptime_threshold: u64, escrow_amount: i128) -> NodeInfo {
    NodeInfo {
        uptime_threshold,
        escrow_amount,
        last_report_time: 0,
        cumulative_uptime: 0,
        total_paid: 0,
    }
}

/// `escrow_amount * uptime / 10000`, with the division truncated toward zero.
pub open spec fn gross_payout(escrow_amount: int, uptime: int) -> int {
    let product = escrow_amount * uptime;
    if product >= 0 {
        product / (BPS_SCALE as int)
    } else {
        -((-product) / (BPS_SCALE as int))
    }
}

/// What a verified report of `uptime` earns a node before the balance caps it:
/// nothing below the node's threshold, else its escrow scaled by the uptime.
pub open spec fn payout_due(info: NodeInfo, uptime: u64) -> int {
    if uptime >= info.uptime_threshold {
        gross_payout(info.escrow_amount as int, uptime as int)
    } else {
        0
    }
}

/// Whether the scaled escrow of a report fits the ledger's integers.
pub open spec fn product_fits(info: NodeInfo, uptime: u64) -> bool {
    uptime >= info.uptime_threshold ==> i128::MIN <= info.escrow_amount * uptime <= i128::MAX
}

/// What is actually paid for a payout of `due` out of a balance of `balance`:
/// the smaller of the two, and nothing unless that is positive.
pub open spec fn paid_amount(due: int, balance: int) -> int {
    if due > 0 {
        let capped = if due > balance {
            balance
        } else {
            due
        };
        if capped > 0 {
            capped
        } else {
            0
        }
    } else {
        0
    }
}

/// The record of a node after a verified report at `timestamp` of `uptime`
/// that paid `paid`.
pub open spec fn reported_node(info: NodeInfo, uptime: u64, timestamp: u64, paid: int) -> NodeInfo {
    NodeInfo {
        last_report_time: timestamp,
        cumulative_uptime: (info.cumulative_uptime + uptime) as u64,
        total_paid: (info.total_paid + paid) as i128,
        ..info
    }
}

/// A report never pays a node a negative amount, nor more than the
/// contract's balance, nor more than the report earned.
pub proof fn lemma_payout_never_overdraws(due: int, balance: int)
    ensures
        paid_amount(due, balance) >= 0,
        paid_amount(due, balance) > 0 ==> paid_amount(due, balance) <= balance
            && paid_amount(due, balance) <= due,
        due > 0 && balance >= due ==> paid_amount(due, balance) == due,
        due > 0 && 0 < balance < due ==> paid_amount(due, balance) == balance,
        due <= 0 || balance <= 0 ==> paid_amount(due, balance) == 0,
{
}

/// For a non-negative escrow and an uptime of at most 100%, what a report
/// earns lies between nothing and the whole escrow.
pub proof fn lemma_payout_within_escrow(info: NodeInfo, uptime: u64)
    requires
        info.escrow_amount >= 0,
        uptime <= 10000,
    ensures
        0 <= payout_due(info, uptime) <= info.escrow_amount,
{
    let e = info.escrow_amount as int;
    let u = uptime as int;
    if uptime >= info.uptime_threshold {
        lemma_mul_inequality(0, u, e);
        lemma_mul_inequality(u, 10000, e);
        assert(0 <= u * e <= 10000 * e);
        assert(e * u == u * e) by (nonlinear_arith);
        lemma_div_is_ordered(0, e * u, 10000);
        lemma_div_is_ordered(e * u, 10000 * e, 10000);
        lemma_div_multiples_vanish(e, 10000);
    }
}

/// A report of 100% uptime about a node whose threshold it meets earns the
/// whole escrow, and a balance that covers the escrow pays all of it.
pub proof fn lemma_full_uptime_pays_escrow(info: NodeInfo, balance: int)
    requires
        info.uptime_threshold <= 10000,
        info.escrow_amount > 0,
        balance >= info.escrow_amount,
    ensures
        payout_due(info, 10000) == info.escrow_amount,
        paid_amount(payout_due(info, 10000), balance) == info.escrow_amount,
{
    let e = info.escrow_amount as int;
    assert(e * 10000 == 10000 * e) by (nonlinear_arith);
    lemma_div_multiples_vanish(e, 10000);
}

/// A report below the node's threshold pays nothing, whatever the balance.
pub proof fn lemma_below_threshold_pays_nothing(info: NodeInfo, uptime: u64, balance: int)
    requires
        uptime < info.uptime_threshold,
    ensures
        payout_due(info, uptime) == 0,
        paid_amount(payout_due(info, uptime), balance) == 0,
{
}

/// Successive reports add up: the record keeps the node's terms, the latest
/// timestamp, the sum of the uptimes and the sum of the payouts.
pub proof fn lemma_reports_accumulate(
    info: NodeInfo,
    uptime1: u64,
    timestamp1: u64,
    paid1: int,
    uptime2: u64,
    timestamp2: u64,
    paid2: int,
)
    requires
        info.cumulative_uptime + uptime1 + uptime2 <= u64::MAX,
        i128::MIN <= info.total_paid + paid1 <= i128::MAX,
        i128::MIN <= info.total_paid + paid1 + paid2 <= i128::MAX,
    ensures
        ({
            let after = reported_node(
                reported_node(info, uptime1, timestamp1, paid1),
                uptime2,
                timestamp2,
                paid2,
            );
            &&& after.uptime_threshold == info.uptime_threshold
            &&& after.escrow_amount == info.escrow_amount
            &&& after.last_report_time == timestamp2
            &&& after.cumulative_uptime == info.cumulative_uptime + uptime1 + uptime2
            &&& after.total_paid == info.total_paid + paid1 + paid2
        }),
{
}

/// What a node has been paid never decreases with a report.
pub proof fn lemma_total_paid_never_decreases(
    info: NodeInfo,
    uptime: u64,
    timestamp: u64,
    balance: int,
)
    requires
        info.total_paid + paid_amount(payout_due(info, uptime), balance) <= i128::MAX,
    ensures
        reported_node(info, uptime, timestamp, paid_amount(payout_due(info, uptime), balance)).total_paid
            >= info.total_paid,
{
}

} // verus!
