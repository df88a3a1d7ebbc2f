use vstd::prelude::*;
use crate::error::ErrorCode;
use crate::produce::{Produce, ProduceStatus};

verus! {

/// From this verified quality on, both parties earn a bonus.
pub const QUALITY_THRESHOLD_HIGH: u8 = 80;

/// Below this verified quality, both parties take a penalty.
pub const QUALITY_THRESHOLD_LOW: u8 = 50;

/// Above this transport temperature, the transporter takes a penalty.
pub const TEMP_THRESHOLD: i16 = 30;

/// Above this transport humidity, the transporter takes a penalty.
pub const HUMIDITY_THRESHOLD: u8 = 90;

/// No reward that is paid out is smaller than this.
pub const MIN_REWARD: u64 = 10;

/// The escrow vault: the pooled balance from which settlements are paid.
#[derive(Debug, Clone, Copy, PartialEq, Eq, Structural)]
pub struct Vault {
    /// Bump of the address that owns the vault's funds.
    pub bump: u8,
    pub balance: u64,
}

/// What a settlement attempt did.
#[derive(Debug, Clone, Copy, PartialEq, Eq, Structural)]
pub enum SettlementOutcome {
    /// The vault was debited by both amounts, owed to farmer and transporter.
    Paid { farmer_amount: u64, transporter_amount: u64 },
    /// A dispute is open: nothing was paid.
    Deferred,
    /// The record was paid before: nothing was paid again.
    AlreadySettled,
}

/// The farmer's reward after the quality adjustment, in unbounded arithmetic.
pub open spec fn farmer_reward(p: Produce) -> int {
    let price = p.farmer_price as int;
    if p.verified_quality >= QUALITY_THRESHOLD_HIGH {
        price + price / 5
    } else if p.verified_quality < QUALITY_THRESHOLD_LOW && !p.dispute_raised {
        price - price * 3 / 10
    } else {
        price
    }
}

/// The transporter's reward after the quality adjustment alone, in unbounded arithmetic.
pub open spec fn transporter_quality_reward(p: Produce) -> int {
    let fee = p.transporter_fee as int;
    if p.verified_quality >= QUALITY_THRESHOLD_HIGH {
        fee + fee / 10
    } else if p.verified_quality < QUALITY_THRESHOLD_LOW && !p.dispute_raised {
        fee - fee * 15 / 100
    } else {
        fee
    }
}

/// Whether a quality bonus does not fit in 64 bits: the computation fails there.
pub open spec fn rewards_overflow(p: Produce) -> bool {
    farmer_reward(p) > u64::MAX || transporter_quality_reward(p) > u64::MAX
}

/// Whether the recorded temperature was too high.
pub open spec fn too_hot(p: Produce) -> bool {
    p.transport_temp matches Some(t) && t > TEMP_THRESHOLD
}

/// Whether the recorded humidity was too high.
pub open spec fn too_humid(p: Produce) -> bool {
    p.transport_humidity matches Some(h) && h > HUMIDITY_THRESHOLD
}

/// `c` after the temperature penalty, where it applies.
pub open spec fn after_heat(p: Produce, c: int) -> int {
    if too_hot(p) {
        c - c / 5
    } else {
        c
    }
}

/// `c` after the humidity penalty, where it applies.
pub open spec fn after_humidity(p: Produce, c: int) -> int {
    if too_humid(p) {
        c - c / 10
    } else {
        c
    }
}

/// The transporter's reward: quality adjustment first, then each environment penalty
/// on what the previous step left.
pub open spec fn transporter_reward(p: Produce) -> int {
    after_humidity(p, after_heat(p, transporter_quality_reward(p)))
}

/// A reward raised to the minimum.
pub open spec fn floored(x: int) -> int {
    if x < MIN_REWARD {
        MIN_REWARD as int
    } else {
        x
    }
}

/// What settling `p` decides with `balance` in the vault, once the record's status
/// permits settlement: the rewards are computed first, then an open dispute defers payment.
pub open spec fn settlement_plan(p: Produce, balance: u64) -> Result<SettlementOutcome, ErrorCode> {
    if p.settled {
        Ok(SettlementOutcome::AlreadySettled)
    } else if rewards_overflow(p) {
        Err(ErrorCode::Overflow)
    } else if p.dispute_raised {
        Ok(SettlementOutcome::Deferred)
    } else {
        let f = floored(farmer_reward(p));
        let t = floored(transporter_reward(p));
        if f + t > u64::MAX {
            Err(ErrorCode::Overflow)
        } else if balance < f + t {
            Err(ErrorCode::InsufficientFunds)
        } else {
            Ok(SettlementOutcome::Paid { farmer_amount: f as u64, transporter_amount: t as u64 })
        }
    }
}

/// Whether the record's status permits settlement: delivered, with delivery confirmed.
pub open spec fn settleable(p: Produce) -> bool {
    p.delivery_confirmed && p.status == ProduceStatus::Delivered
}

/// The result of a settlement attempt, the record after it, and the vault balance after it.
/// A record in the wrong state is refused before anything else is looked at.
pub open spec fn settlement_effect(p: Produce, balance: u64) -> (
    Result<SettlementOutcome, ErrorCode>,
    Produce,
    u64,
) {
    if !settleable(p) {
        (Err(ErrorCode::InvalidStatus), p, balance)
    } else {
        let r = settlement_plan(p, balance);
        match r {
            Ok(SettlementOutcome::Paid { farmer_amount, transporter_amount }) => (
                r,
                Produce { settled: true, ..p },
                (balance - farmer_amount - transporter_amount) as u64,
            ),
            _ => (r, p, balance),
        }
    }
}

/// `x` less three tenths of it, rounded down in the deduction.
fn minus_three_tenths(x: u64) -> (r: u64)
    ensures
        r == x - x * 3 / 10,
{
    let cut: u128 = (x as u128) * 3 / 10;
    assert(cut <= x) by (nonlinear_arith)
        requires
            cut == (x as int) * 3 / 10,
    ;
    x - cut as u64
}

/// `x` less fifteen hundredths of it, rounded down in the deduction.
fn minus_fifteen_percent(x: u64) -> (r: u64)
    ensures
        r == x - x * 15 / 100,
{
    let cut: u128 = (x as u128) * 15 / 100;
    assert(cut <= x) by (nonlinear_arith)
        requires
            cut == (x as int) * 15 / 100,
    ;
    x - cut as u64
}

/// The two rewards before the minimum: quality adjustment, then environment penalties.
/// A bonus that does not fit in 64 bits is an `Overflow` error.
pub fn compute_rewards(p: &Produce) -> (r: Result<(u64, u64), ErrorCode>)
    ensures
        r is Err <==> rewards_overflow(*p),
        r is Err ==> r == Err::<(u64, u64), ErrorCode>(ErrorCode::Overflow),
        r matches Ok((f, t)) ==> f == farmer_reward(*p) && t == transporter_reward(*p),
{
    let mut farmer = p.farmer_price;
    let mut transporter = p.transporter_fee;
    if p.verified_quality >= QUALITY_THRESHOLD_HIGH {
        farmer = match farmer.checked_add(farmer / 5) {
            Some(v) => v,
            None => return Err(ErrorCode::Overflow),
        };
        transporter = match transporter.checked_add(transporter / 10) {
            Some(v) => v,
            None => return Err(ErrorCode::Overflow),
        };
    } else if p.verified_quality < QUALITY_THRESHOLD_LOW && !p.dispute_raised {
        farmer = minus_three_tenths(farmer);
        transporter = minus_fifteen_percent(transporter);
    }
    if let Some(t) = p.transport_temp {
        if t > TEMP_THRESHOLD {
            transporter = transporter - transporter / 5;
        }
    }
    if let Some(h) = p.transport_humidity {
        if h > HUMIDITY_THRESHOLD {
            transporter = transporter - transporter / 10;
        }
    }
    Ok((farmer, transporter))
}

/// Decides a settlement of `p` against `balance`, without changing anything and without
/// looking at the record's status.
pub fn plan_settlement(p: &Produce, balance: u64) -> (r: Result<SettlementOutcome, ErrorCode>)
    ensures
        r == settlement_plan(*p, balance),
{
    if p.settled {
        return Ok(SettlementOutcome::AlreadySettled);
    }
    let (farmer, transporter) = match compute_rewards(p) {
        Ok(rewards) => rewards,
        Err(e) => return Err(e),
    };
    if p.dispute_raised {
        return Ok(SettlementOutcome::Deferred);
    }
    let farmer_amount = if farmer < MIN_REWARD {
        MIN_REWARD
    } else {
        farmer
    };
    let transporter_amount = if transporter < MIN_REWARD {
        MIN_REWARD
    } else {
        transporter
    };
    let total = match farmer_amount.checked_add(transporter_amount) {
        Some(t) => t,
        None => return Err(ErrorCode::Overflow),
    };
    if balance < total {
        return Err(ErrorCode::InsufficientFunds);
    }
    Ok(SettlementOutcome::Paid { farmer_amount, transporter_amount })
}

/// The settlement engine: refuses a record that is not delivered and confirmed, then
/// debits both rewards at once and marks the record settled, or defers while a dispute
/// is open, or does nothing on a settled record.
pub fn process_delivery_payment(produce: &mut Produce, vault: &mut Vault) -> (r: Result<
    SettlementOutcome,
    ErrorCode,
>)
    requires
        old(produce).wf(),
    ensures
        final(produce).wf(),
        (r, *final(produce), final(vault).balance) == settlement_effect(
            *old(produce),
            old(vault).balance,
        ),
        final(vault).bump == old(vault).bump,
{
    if !(produce.delivery_confirmed && produce.status == ProduceStatus::Delivered) {
        return Err(ErrorCode::InvalidStatus);
    }
    let r = plan_settlement(produce, vault.balance);
    if let Ok(SettlementOutcome::Paid { farmer_amount, transporter_amount }) = r {
        vault.balance = vault.balance - farmer_amount - transporter_amount;
        produce.settled = true;
    }
    r
}

/// Creates the vault, empty.
pub fn initialize_vault(bump: u8) -> (v: Vault)
    ensures
        v.bump == bump,
        v.balance == 0,
{
    Vault { bump, balance: 0 }
}

/// The buyer funds the vault for `produce`; the amount must cover the batch's price and
/// fee, whose sum must fit in 64 bits.
pub fn fund_vault(vault: &mut Vault, produce: &Produce, amount: u64) -> (r: Result<(), ErrorCode>)
    ensures
        produce.farmer_price + produce.transporter_fee > u64::MAX ==> r == Err::<(), ErrorCode>(
            ErrorCode::Overflow,
        ),
        produce.farmer_price + produce.transporter_fee <= u64::MAX && amount
            < produce.farmer_price + produce.transporter_fee ==> r == Err::<(), ErrorCode>(
            ErrorCode::InsufficientFunds,
        ),
        produce.farmer_price + produce.transporter_fee <= amount && old(vault).balance + amount
            > u64::MAX ==> r == Err::<(), ErrorCode>(ErrorCode::Overflow),
        r is Ok <==> produce.farmer_price + produce.transporter_fee <= amount && old(
            vault,
        ).balance + amount <= u64::MAX,
        r is Ok ==> final(vault).balance == old(vault).balance + amount,
        r is Err ==> *final(vault) == *old(vault),
        final(vault).bump == old(vault).bump,
{
    let total_required = match produce.farmer_price.checked_add(produce.transporter_fee) {
        Some(t) => t,
        None => return Err(ErrorCode::Overflow),
    };
    if amount < total_required {
        return Err(ErrorCode::InsufficientFunds);
    }
    match vault.balance.checked_add(amount) {
        Some(b) => {
            vault.balance = b;
            Ok(())
        },
        None => Err(ErrorCode::Overflow),
    }
}

/// The independently callable settlement: the same engine that delivery confirmation
/// runs. A settled record is never paid twice.
pub fn process_payment(produce: &mut Produce, vault: &mut Vault) -> (r: Result<
    SettlementOutcome,
    ErrorCode,
>)
    requires
        old(produce).wf(),
    ensures
        final(produce).wf(),
        (r, *final(produce), final(vault).balance) == settlement_effect(
            *old(produce),
            old(vault).balance,
        ),
        final(vault).bump == old(vault).bump,
{
    process_delivery_payment(produce, vault)
}

/// The rewards depend on price, fee, verified quality, dispute flag and transport
/// readings alone: two records that agree on these get the same rewards.
pub proof fn lemma_rewards_depend_on_terms(p: Produce, q: Produce)
    requires
        p.farmer_price == q.farmer_price,
        p.transporter_fee == q.transporter_fee,
        p.verified_quality == q.verified_quality,
        p.dispute_raised == q.dispute_raised,
        p.transport_temp == q.transport_temp,
        p.transport_humidity == q.transport_humidity,
    ensures
        farmer_reward(p) == farmer_reward(q),
        transporter_reward(p) == transporter_reward(q),
        rewards_overflow(p) == rewards_overflow(q),
{
}

/// Rewards stay within bounds: never negative, never above the bonus on the base amount,
/// and the penalties compound as a product of discounts (0.7 for the farmer; 0.85, 0.8
/// and 0.9 for the transporter), so the transporter keeps at least 72% of its
/// quality-adjusted fee.
pub proof fn lemma_reward_bounds(p: Produce)
    ensures
        0 <= farmer_reward(p) <= p.farmer_price + p.farmer_price / 5,
        0 <= transporter_quality_reward(p) <= p.transporter_fee + p.transporter_fee / 10,
        10 * farmer_reward(p) >= 7 * p.farmer_price,
        100 * transporter_quality_reward(p) >= 85 * p.transporter_fee,
        0 <= transporter_reward(p) <= transporter_quality_reward(p),
        100 * transporter_reward(p) >= 72 * transporter_quality_reward(p),
{
    let price = p.farmer_price as int;
    let fee = p.transporter_fee as int;
    assert(price - price * 3 / 10 >= 0 && 10 * (price - price * 3 / 10) >= 7 * price)
        by (nonlinear_arith)
        requires
            price >= 0,
    ;
    assert(fee - fee * 15 / 100 >= 0 && 100 * (fee - fee * 15 / 100) >= 85 * fee)
        by (nonlinear_arith)
        requires
            fee >= 0,
    ;
    let c = transporter_quality_reward(p);
    let d = after_heat(p, c);
    assert(0 <= d <= c && 5 * d >= 4 * c) by (nonlinear_arith)
        requires
            c >= 0,
            d == c || d == c - c / 5,
    ;
    let e = after_humidity(p, d);
    assert(0 <= e <= d && 10 * e >= 9 * d) by (nonlinear_arith)
        requires
            d >= 0,
            e == d || e == d - d / 10,
    ;
}

/// A paid reward is at least the minimum, and above the minimum it is the computed reward;
/// nothing is paid where a bonus does not fit in 64 bits.
pub proof fn lemma_paid_amounts(p: Produce, balance: u64)
    ensures
        settlement_plan(p, balance) matches Ok(
            SettlementOutcome::Paid { farmer_amount, transporter_amount },
        ) ==> {
            &&& !rewards_overflow(p)
            &&& farmer_amount >= MIN_REWARD
            &&& transporter_amount >= MIN_REWARD
            &&& farmer_amount == floored(farmer_reward(p))
            &&& transporter_amount == floored(transporter_reward(p))
            &&& farmer_amount + transporter_amount <= balance
        },
{
}

/// Settlement never touches the vault while a dispute is open.
pub proof fn lemma_no_debit_while_disputed(p: Produce, balance: u64)
    requires
        p.dispute_raised,
    ensures
        settlement_effect(p, balance).2 == balance,
        !(settlement_effect(p, balance).0 matches Ok(SettlementOutcome::Paid { .. })),
        !p.settled ==> !settlement_effect(p, balance).1.settled,
{
}

/// Settling again after a payment pays nothing, whatever the vault holds then.
pub proof fn lemma_settlement_idempotent(p: Produce, balance: u64, later_balance: u64)
    ensures
        ({
            let (r, q, b) = settlement_effect(p, balance);
            r matches Ok(SettlementOutcome::Paid { .. }) ==> settlement_effect(q, later_balance)
                == (
                Ok::<SettlementOutcome, ErrorCode>(SettlementOutcome::AlreadySettled),
                q,
                later_balance,
            )
        }),
{
}

} // verus!
