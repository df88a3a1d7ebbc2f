use vstd::prelude::*;
use crate::error::ErrorCode;
use crate::participant::{Participant, ParticipantRole, Principal};
use crate::participant::utf8_len;
use crate::payment::{
    floored, farmer_reward, rewards_overflow, settlement_effect, transporter_reward,
    SettlementOutcome,
};
use crate::produce::{resolution_step, Produce, ProduceStatus};

verus! {

/// Longest dispute description, in bytes.
pub const MAX_DESCRIPTION_LEN: usize = 128;

/// A dispute against one produce record.
#[derive(Debug)]
pub struct Dispute {
    /// Id of the produce record disputed.
    pub produce: u64,
    pub raiser: Principal,
    pub description: String,
    pub created_at: i64,
    pub resolved: bool,
    /// Meaningful once resolved: true where the agreed terms stand.
    pub resolution: bool,
}

/// The record after a dispute on it is resolved with `resolution`.
/// In favour of the agreed terms, the record is delivered again and settlement is free
/// to proceed; otherwise it stays disputed and flagged.
pub open spec fn resolved_record(p: Produce, resolution: bool) -> Produce {
    if resolution {
        Produce { status: ProduceStatus::Delivered, dispute_raised: false, ..p }
    } else {
        Produce { status: ProduceStatus::Disputed, dispute_raised: true, ..p }
    }
}

/// Anyone raises a dispute against `produce`, with a description of bounded length in
/// bytes, unless one is open on it already.
pub fn raise_dispute(
    produce: &mut Produce,
    raiser: Principal,
    description: String,
    now: i64,
) -> (r: Result<Dispute, ErrorCode>)
    requires
        old(produce).wf(),
    ensures
        final(produce).wf(),
        utf8_len(description@) > MAX_DESCRIPTION_LEN ==> r == Err::<Dispute, ErrorCode>(
            ErrorCode::DescriptionTooLong,
        ),
        utf8_len(description@) <= MAX_DESCRIPTION_LEN && old(produce).dispute_raised ==> r
            == Err::<Dispute, ErrorCode>(ErrorCode::DisputeAlreadyOpen),
        r is Ok <==> utf8_len(description@) <= MAX_DESCRIPTION_LEN && !old(produce).dispute_raised,
        r is Err ==> *final(produce) == *old(produce),
        r is Ok ==> *final(produce) == (Produce { dispute_raised: true, ..*old(produce) }),
        r matches Ok(d) ==> {
            &&& d.produce == old(produce).produce_id
            &&& d.raiser == raiser
            &&& d.description@ == description@
            &&& d.created_at == now
            &&& !d.resolved
            &&& !d.resolution
        },
{
    if description.as_str().len() > MAX_DESCRIPTION_LEN {
        return Err(ErrorCode::DescriptionTooLong);
    }
    if produce.dispute_raised {
        return Err(ErrorCode::DisputeAlreadyOpen);
    }
    produce.dispute_raised = true;
    Ok(
        Dispute {
            produce: produce.produce_id,
            raiser,
            description,
            created_at: now,
            resolved: false,
            resolution: false,
        },
    )
}

/// An arbitrator resolves `dispute`, once, and the disputed record follows the outcome.
pub fn resolve_dispute(
    dispute: &mut Dispute,
    produce: &mut Produce,
    caller: &Participant,
    resolution: bool,
) -> (r: Result<(), ErrorCode>)
    requires
        old(produce).wf(),
    ensures
        final(produce).wf(),
        caller.role != ParticipantRole::Arbitrator ==> r == Err::<(), ErrorCode>(
            ErrorCode::Unauthorized,
        ),
        caller.role == ParticipantRole::Arbitrator && old(dispute).resolved ==> r == Err::<
            (),
            ErrorCode,
        >(ErrorCode::AlreadyResolved),
        caller.role == ParticipantRole::Arbitrator && !old(dispute).resolved && old(
            dispute,
        ).produce != old(produce).produce_id ==> r == Err::<(), ErrorCode>(ErrorCode::NotFound),
        r is Ok <==> caller.role == ParticipantRole::Arbitrator && !old(dispute).resolved && old(
            dispute,
        ).produce == old(produce).produce_id,
        r is Err ==> *final(dispute) == *old(dispute) && *final(produce) == *old(produce),
        r is Ok ==> *final(dispute) == (Dispute { resolved: true, resolution, ..*old(dispute) })
            && *final(produce) == resolved_record(*old(produce), resolution),
        r is Ok ==> resolution_step(old(produce).status, final(produce).status),
{
    if caller.role != ParticipantRole::Arbitrator {
        return Err(ErrorCode::Unauthorized);
    }
    if dispute.resolved {
        return Err(ErrorCode::AlreadyResolved);
    }
    if dispute.produce != produce.produce_id {
        return Err(ErrorCode::NotFound);
    }
    dispute.resolved = true;
    dispute.resolution = resolution;
    if resolution {
        produce.status = ProduceStatus::Delivered;
        produce.dispute_raised = false;
    } else {
        produce.status = ProduceStatus::Disputed;
        produce.dispute_raised = true;
    }
    Ok(())
}

/// While a dispute is open on a delivered record, a settlement attempt pays nothing and
/// leaves the vault alone. Once the dispute is resolved in favour of the agreed terms,
/// the next attempt pays (where the vault holds enough), and any attempt after it pays
/// nothing more.
pub proof fn lemma_dispute_defers_then_pays_once(p: Produce, balance: u64)
    requires
        p.wf(),
        p.dispute_raised,
        p.delivery_confirmed,
        !p.settled,
        !rewards_overflow(resolved_record(p, true)),
        ({
            let q = resolved_record(p, true);
            floored(farmer_reward(q)) + floored(transporter_reward(q)) <= balance
        }),
    ensures
        settlement_effect(p, balance).2 == balance,
        !(settlement_effect(p, balance).0 matches Ok(SettlementOutcome::Paid { .. })),
        ({
            let (r1, q1, b1) = settlement_effect(resolved_record(p, true), balance);
            let (r2, q2, b2) = settlement_effect(q1, b1);
            &&& r1 matches Ok(SettlementOutcome::Paid { farmer_amount, transporter_amount })
            &&& b1 == balance - farmer_amount - transporter_amount
            &&& farmer_amount == floored(farmer_reward(resolved_record(p, true)))
            &&& transporter_amount == floored(transporter_reward(resolved_record(p, true)))
            &&& q1.settled
            &&& r2 == Ok::<SettlementOutcome, ErrorCode>(SettlementOutcome::AlreadySettled)
            &&& q2 == q1
            &&& b2 == b1
        }),
{
}

} // verus!
