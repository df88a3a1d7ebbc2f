use vstd::prelude::*;
use crate::dispute::Dispute;
use crate::error::ErrorCode;
use crate::participant::{Participant, ParticipantRole, Principal};
use crate::payment::{plan_settlement, process_delivery_payment, settlement_effect, SettlementOutcome, Vault};

verus! {

/// Highest quality score.
pub const MAX_QUALITY: u8 = 100;

/// Highest relative humidity reading.
pub const MAX_HUMIDITY: u8 = 100;

/// A verified quality below this score opens a dispute automatically.
pub const AUTO_DISPUTE_QUALITY: u8 = 50;

/// The states of a produce batch.
#[derive(Debug, Clone, Copy, PartialEq, Eq, Structural)]
pub enum ProduceStatus {
    Harvested,
    PickedUp,
    InTransit,
    Delivered,
    QualityVerified,
    Disputed,
}

/// One shipment, tracked from harvest to settlement.
#[derive(Debug)]
pub struct Produce {
    pub produce_id: u64,
    pub farmer: Principal,
    pub produce_type: String,
    pub quantity: u64,
    pub harvest_date: i64,
    /// Quality declared at harvest, 0 to 100.
    pub quality: u8,
    pub status: ProduceStatus,
    pub last_updated: i64,
    /// Temperature at pickup, absent until recorded.
    pub transport_temp: Option<i16>,
    /// Relative humidity at pickup, 0 to 100, absent until recorded.
    pub transport_humidity: Option<u8>,
    pub pickup_confirmed: bool,
    pub delivery_confirmed: bool,
    /// An unresolved dispute freezes settlement.
    pub dispute_raised: bool,
    /// Quality found on verification, 0 to 100.
    pub verified_quality: u8,
    pub qr_code_uri: String,
    pub farmer_price: u64,
    pub transporter_fee: u64,
    /// Set once both parties have been paid.
    pub settled: bool,
}

/// The edges of the lifecycle that the operations (other than dispute resolution) may take.
/// Staying in place is allowed for operations that only set flags; a dispute may be
/// entered from any state, the harvested one included.
pub open spec fn lifecycle_step(from: ProduceStatus, to: ProduceStatus) -> bool {
    ||| from == to
    ||| from == ProduceStatus::Harvested && to == ProduceStatus::PickedUp
    ||| from == ProduceStatus::PickedUp && to == ProduceStatus::InTransit
    ||| from == ProduceStatus::InTransit && to == ProduceStatus::Delivered
    ||| from == ProduceStatus::Delivered && to == ProduceStatus::QualityVerified
    ||| to == ProduceStatus::Disputed
}

/// The edges that dispute resolution may take: back to delivered, or on to disputed.
pub open spec fn resolution_step(from: ProduceStatus, to: ProduceStatus) -> bool {
    to == ProduceStatus::Delivered || to == ProduceStatus::Disputed
}

/// Position of a status in the lifecycle order.
pub open spec fn stage(s: ProduceStatus) -> int {
    match s {
        ProduceStatus::Harvested => 0,
        ProduceStatus::PickedUp => 1,
        ProduceStatus::InTransit => 2,
        ProduceStatus::Delivered => 3,
        ProduceStatus::QualityVerified => 4,
        ProduceStatus::Disputed => 5,
    }
}

/// Outside dispute resolution a record never moves backwards, advances by at most one
/// stage except into a dispute, and never returns to the harvested state.
pub proof fn lemma_lifecycle_only_advances(from: ProduceStatus, to: ProduceStatus)
    requires
        lifecycle_step(from, to),
    ensures
        stage(from) <= stage(to),
        to != ProduceStatus::Disputed ==> stage(to) <= stage(from) + 1,
        to == ProduceStatus::Harvested ==> from == ProduceStatus::Harvested,
{
}

impl Produce {
    /// The record's invariant.
    pub open spec fn wf(&self) -> bool {
        &&& self.quality <= MAX_QUALITY
        &&& self.verified_quality <= MAX_QUALITY
        &&& (self.transport_humidity matches Some(h) ==> h <= MAX_HUMIDITY)
        &&& (self.settled ==> self.delivery_confirmed)
        &&& (self.delivery_confirmed ==> (self.status == ProduceStatus::Delivered
            || self.status == ProduceStatus::QualityVerified || self.status
            == ProduceStatus::Disputed))
    }

    /// Whether the record meets its invariant; records read from storage are checked
    /// with this before any operation.
    pub fn is_well_formed(&self) -> (r: bool)
        ensures
            r == self.wf(),
    {
        let humidity_ok = match self.transport_humidity {
            Some(h) => h <= MAX_HUMIDITY,
            None => true,
        };
        self.quality <= MAX_QUALITY && self.verified_quality <= MAX_QUALITY && humidity_ok && (
        !self.settled || self.delivery_confirmed) && (!self.delivery_confirmed || self.status
            == ProduceStatus::Delivered || self.status == ProduceStatus::QualityVerified
            || self.status == ProduceStatus::Disputed)
    }
}

/// Whether `role` may verify quality.
pub open spec fn may_verify(role: ParticipantRole) -> bool {
    role == ParticipantRole::Wholesaler || role == ParticipantRole::Retailer
}

/// The record after a successful quality verification.
pub open spec fn verified_record(p: Produce, verified_quality: u8, now: i64) -> Produce {
    if verified_quality < AUTO_DISPUTE_QUALITY {
        Produce {
            verified_quality,
            last_updated: now,
            status: ProduceStatus::Disputed,
            dispute_raised: true,
            ..p
        }
    } else {
        Produce { verified_quality, last_updated: now, status: ProduceStatus::QualityVerified, ..p }
    }
}

/// Creates the record of a harvest; only a farmer may log one.
pub fn log_harvest(
    caller: &Participant,
    produce_id: u64,
    produce_type: String,
    quantity: u64,
    harvest_date: i64,
    quality: u8,
    qr_code_uri: String,
    farmer_price: u64,
    transporter_fee: u64,
    now: i64,
) -> (r: Result<Produce, ErrorCode>)
    ensures
        caller.role != ParticipantRole::Farmer ==> r == Err::<Produce, ErrorCode>(
            ErrorCode::Unauthorized,
        ),
        caller.role == ParticipantRole::Farmer && quality > MAX_QUALITY ==> r == Err::<
            Produce,
            ErrorCode,
        >(ErrorCode::InvalidQuality),
        r is Ok <==> caller.role == ParticipantRole::Farmer && quality <= MAX_QUALITY,
        r matches Ok(p) ==> {
            &&& p.wf()
            &&& p.produce_id == produce_id
            &&& p.farmer == caller.owner
            &&& p.produce_type@ == produce_type@
            &&& p.quantity == quantity
            &&& p.harvest_date == harvest_date
            &&& p.quality == quality
            &&& p.verified_quality == quality
            &&& p.status == ProduceStatus::Harvested
            &&& p.last_updated == now
            &&& p.transport_temp is None
            &&& p.transport_humidity is None
            &&& !p.pickup_confirmed && !p.delivery_confirmed && !p.dispute_raised && !p.settled
            &&& p.qr_code_uri@ == qr_code_uri@
            &&& p.farmer_price == farmer_price
            &&& p.transporter_fee == transporter_fee
        },
{
    if caller.role != ParticipantRole::Farmer {
        return Err(ErrorCode::Unauthorized);
    }
    if quality > MAX_QUALITY {
        return Err(ErrorCode::InvalidQuality);
    }
    Ok(
        Produce {
            produce_id,
            farmer: caller.owner,
            produce_type,
            quantity,
            harvest_date,
            quality,
            status: ProduceStatus::Harvested,
            last_updated: now,
            transport_temp: None,
            transport_humidity: None,
            pickup_confirmed: false,
            delivery_confirmed: false,
            dispute_raised: false,
            verified_quality: quality,
            qr_code_uri,
            farmer_price,
            transporter_fee,
            settled: false,
        },
    )
}

/// A transporter takes a harvested batch and records the transport conditions.
pub fn record_pickup(
    produce: &mut Produce,
    caller: &Participant,
    temperature: i16,
    humidity: u8,
    now: i64,
) -> (r: Result<(), ErrorCode>)
    requires
        old(produce).wf(),
    ensures
        final(produce).wf(),
        caller.role != ParticipantRole::Transporter ==> r == Err::<(), ErrorCode>(
            ErrorCode::Unauthorized,
        ),
        caller.role == ParticipantRole::Transporter && old(produce).status
            != ProduceStatus::Harvested ==> r == Err::<(), ErrorCode>(ErrorCode::InvalidStatus),
        caller.role == ParticipantRole::Transporter && old(produce).status
            == ProduceStatus::Harvested && humidity > MAX_HUMIDITY ==> r == Err::<(), ErrorCode>(
            ErrorCode::InvalidReading,
        ),
        r is Err ==> *final(produce) == *old(produce),
        r is Ok ==> *final(produce) == (Produce {
            status: ProduceStatus::PickedUp,
            last_updated: now,
            transport_temp: Some(temperature),
            transport_humidity: Some(humidity),
            ..*old(produce)
        }),
        r is Ok <==> caller.role == ParticipantRole::Transporter && old(produce).status
            == ProduceStatus::Harvested && humidity <= MAX_HUMIDITY,
        r is Ok ==> lifecycle_step(old(produce).status, final(produce).status),
{
    if caller.role != ParticipantRole::Transporter {
        return Err(ErrorCode::Unauthorized);
    }
    if produce.status != ProduceStatus::Harvested {
        return Err(ErrorCode::InvalidStatus);
    }
    if humidity > MAX_HUMIDITY {
        return Err(ErrorCode::InvalidReading);
    }
    produce.status = ProduceStatus::PickedUp;
    produce.last_updated = now;
    produce.transport_temp = Some(temperature);
    produce.transport_humidity = Some(humidity);
    Ok(())
}

/// The record's own farmer confirms that the batch was picked up.
pub fn confirm_pickup(produce: &mut Produce, caller: &Participant, now: i64) -> (r: Result<
    (),
    ErrorCode,
>)
    requires
        old(produce).wf(),
    ensures
        final(produce).wf(),
        !(caller.role == ParticipantRole::Farmer && caller.owner == old(produce).farmer) ==> r
            == Err::<(), ErrorCode>(ErrorCode::Unauthorized),
        caller.role == ParticipantRole::Farmer && caller.owner == old(produce).farmer
            && old(produce).status != ProduceStatus::PickedUp ==> r == Err::<(), ErrorCode>(
            ErrorCode::InvalidStatus,
        ),
        r is Err ==> *final(produce) == *old(produce),
        r is Ok <==> caller.role == ParticipantRole::Farmer && caller.owner == old(produce).farmer
            && old(produce).status == ProduceStatus::PickedUp,
        r is Ok ==> *final(produce) == (Produce {
            pickup_confirmed: true,
            last_updated: now,
            ..*old(produce)
        }),
        r is Ok ==> lifecycle_step(old(produce).status, final(produce).status),
{
    if !(caller.role == ParticipantRole::Farmer && caller.owner == produce.farmer) {
        return Err(ErrorCode::Unauthorized);
    }
    if produce.status != ProduceStatus::PickedUp {
        return Err(ErrorCode::InvalidStatus);
    }
    produce.pickup_confirmed = true;
    produce.last_updated = now;
    Ok(())
}

/// A transporter reports the batch under way.
pub fn record_delivery(produce: &mut Produce, caller: &Participant, now: i64) -> (r: Result<
    (),
    ErrorCode,
>)
    requires
        old(produce).wf(),
    ensures
        final(produce).wf(),
        caller.role != ParticipantRole::Transporter ==> r == Err::<(), ErrorCode>(
            ErrorCode::Unauthorized,
        ),
        caller.role == ParticipantRole::Transporter && old(produce).status
            != ProduceStatus::PickedUp ==> r == Err::<(), ErrorCode>(ErrorCode::InvalidStatus),
        r is Err ==> *final(produce) == *old(produce),
        r is Ok <==> caller.role == ParticipantRole::Transporter && old(produce).status
            == ProduceStatus::PickedUp,
        r is Ok ==> *final(produce) == (Produce {
            status: ProduceStatus::InTransit,
            last_updated: now,
            ..*old(produce)
        }),
        r is Ok ==> lifecycle_step(old(produce).status, final(produce).status),
{
    if caller.role != ParticipantRole::Transporter {
        return Err(ErrorCode::Unauthorized);
    }
    if produce.status != ProduceStatus::PickedUp {
        return Err(ErrorCode::InvalidStatus);
    }
    produce.status = ProduceStatus::InTransit;
    produce.last_updated = now;
    Ok(())
}

/// The record as delivery confirmation leaves it, before settlement.
pub open spec fn delivered_record(p: Produce, now: i64) -> Produce {
    Produce { status: ProduceStatus::Delivered, delivery_confirmed: true, last_updated: now, ..p }
}

/// A retailer confirms delivery, and the batch is settled from the vault in the same step.
/// Either both happen or neither does: a settlement error leaves record and vault untouched.
pub fn confirm_delivery(
    produce: &mut Produce,
    caller: &Participant,
    vault: &mut Vault,
    now: i64,
) -> (r: Result<SettlementOutcome, ErrorCode>)
    requires
        old(produce).wf(),
    ensures
        final(produce).wf(),
        caller.role != ParticipantRole::Retailer ==> r == Err::<SettlementOutcome, ErrorCode>(
            ErrorCode::Unauthorized,
        ),
        caller.role == ParticipantRole::Retailer && old(produce).status
            != ProduceStatus::InTransit ==> r == Err::<SettlementOutcome, ErrorCode>(
            ErrorCode::InvalidStatus,
        ),
        caller.role == ParticipantRole::Retailer && old(produce).status
            == ProduceStatus::InTransit ==> {
            let (res, q, balance) = settlement_effect(
                delivered_record(*old(produce), now),
                old(vault).balance,
            );
            &&& r == res
            &&& (r is Ok ==> *final(produce) == q && final(vault).balance == balance)
        },
        r is Err ==> *final(produce) == *old(produce) && final(vault).balance == old(
            vault,
        ).balance,
        final(vault).bump == old(vault).bump,
        r is Ok ==> lifecycle_step(old(produce).status, final(produce).status),
{
    if caller.role != ParticipantRole::Retailer {
        return Err(ErrorCode::Unauthorized);
    }
    if produce.status != ProduceStatus::InTransit {
        return Err(ErrorCode::InvalidStatus);
    }
    let ghost before = *produce;
    let planned = plan_settlement(&*produce, vault.balance);
    if let Err(e) = planned {
        return Err(e);
    }
    produce.status = ProduceStatus::Delivered;
    produce.delivery_confirmed = true;
    produce.last_updated = now;
    assert(*produce == delivered_record(before, now));
    process_delivery_payment(produce, vault)
}

/// A wholesaler or retailer records the verified quality. A score below the threshold
/// moves the batch, whatever its state, to disputed and opens a dispute, raised by the
/// verifier with an empty description, unless one is open already. A higher score is
/// accepted on a delivered or quality-verified batch only, which becomes quality-verified.
pub fn verify_quality(
    produce: &mut Produce,
    caller: &Participant,
    verified_quality: u8,
    now: i64,
) -> (r: Result<Option<Dispute>, ErrorCode>)
    requires
        old(produce).wf(),
    ensures
        final(produce).wf(),
        !may_verify(caller.role) ==> r == Err::<Option<Dispute>, ErrorCode>(
            ErrorCode::Unauthorized,
        ),
        may_verify(caller.role) && verified_quality > MAX_QUALITY ==> r == Err::<
            Option<Dispute>,
            ErrorCode,
        >(ErrorCode::InvalidQuality),
        may_verify(caller.role) && AUTO_DISPUTE_QUALITY <= verified_quality <= MAX_QUALITY
            && !(old(produce).status == ProduceStatus::Delivered || old(produce).status
            == ProduceStatus::QualityVerified) ==> r == Err::<Option<Dispute>, ErrorCode>(
            ErrorCode::InvalidStatus,
        ),
        r is Ok <==> may_verify(caller.role) && verified_quality <= MAX_QUALITY && (
        verified_quality < AUTO_DISPUTE_QUALITY || old(produce).status == ProduceStatus::Delivered
            || old(produce).status == ProduceStatus::QualityVerified),
        r is Err ==> *final(produce) == *old(produce),
        r is Ok ==> *final(produce) == verified_record(*old(produce), verified_quality, now),
        r matches Ok(opened) ==> (opened is Some <==> verified_quality < AUTO_DISPUTE_QUALITY
            && !old(produce).dispute_raised),
        r matches Ok(Some(d)) ==> {
            &&& d.produce == old(produce).produce_id
            &&& d.raiser == caller.owner
            &&& d.description@ == Seq::<char>::empty()
            &&& d.created_at == now
            &&& !d.resolved
            &&& !d.resolution
        },
        r is Ok ==> lifecycle_step(old(produce).status, final(produce).status),
{
    if !(caller.role == ParticipantRole::Wholesaler || caller.role == ParticipantRole::Retailer) {
        return Err(ErrorCode::Unauthorized);
    }
    if verified_quality > MAX_QUALITY {
        return Err(ErrorCode::InvalidQuality);
    }
    if verified_quality < AUTO_DISPUTE_QUALITY {
        let opened = if produce.dispute_raised {
            None
        } else {
            Some(
                Dispute {
                    produce: produce.produce_id,
                    raiser: caller.owner,
                    description: String::new(),
                    created_at: now,
                    resolved: false,
                    resolution: false,
                },
            )
        };
        produce.verified_quality = verified_quality;
        produce.last_updated = now;
        produce.status = ProduceStatus::Disputed;
        produce.dispute_raised = true;
        Ok(opened)
    } else {
        if !(produce.status == ProduceStatus::Delivered || produce.status
            == ProduceStatus::QualityVerified) {
            return Err(ErrorCode::InvalidStatus);
        }
        produce.verified_quality = verified_quality;
        produce.last_updated = now;
        produce.status = ProduceStatus::QualityVerified;
        Ok(None)
    }
}

} // verus!
