use vstd::prelude::*;

use crate::telemetry::{
    spec_operational, spec_risk_level, push_evicting, zero_reading, InverterData, MeterData,
    ReadingHistory, RiskLevel, HISTORY_CAPACITY,
};

verus! {

/// A device whose last contact is more than this many time units old is
/// considered offline.
pub const OFFLINE_THRESHOLD: u64 = 300;

/// A non-operational device must have been out of contact for more than this
/// many time units before underperformance is claim-worthy.
pub const DOWNTIME_THRESHOLD: u64 = 14400;

/// One registered energy-generation device: identity and metadata fixed at
/// registration, connectivity and derived state recomputed by accepted
/// readings and liveness checks, and a bounded rolling telemetry history.
pub struct Inverter {
    pub device_id: String,
    /// Foreign reference into the policy collaborator; never validated here.
    pub policy_id: String,
    /// Timestamp of the last accepted contact; monotonic, written only by
    /// accepted readings, never by liveness checks.
    pub last_ping: u64,
    pub operational_status: bool,
    pub online_status: bool,
    pub risk_level: RiskLevel,
    pub device_type: String,
    pub manufacturer: String,
    pub model: String,
    /// W; positive for every registered device.
    pub rated_power: u32,
    /// Snapshot of the newest accepted reading; it outlives its eviction from
    /// the history window.
    pub last_reading: InverterData,
    pub hourly_readings: ReadingHistory,
}

/// A registered energy meter: the consumption-side counterpart of an
/// inverter's record.
pub struct EnergyMeter {
    pub meter_id: String,
    pub last_ping: u64,
    pub operational_status: bool,
    pub online_status: bool,
    pub manufacturer: String,
    pub model: String,
    pub last_reading: MeterData,
    pub hourly_readings: Vec<MeterData>,
}

impl Inverter {
    /// Every registered device has positive rated power, a history within
    /// capacity, and — once the history is non-empty — a latest reading that
    /// is exactly the newest history entry.
    pub open spec fn wf(&self) -> bool {
        &&& self.rated_power > 0
        &&& self.hourly_readings@.len() <= HISTORY_CAPACITY
        &&& self.hourly_readings@.len() > 0 ==> self.hourly_readings@.last() == self.last_reading
    }

    /// A field-for-field copy of the record.
    pub fn duplicate(&self) -> (copy: Inverter)
        ensures
            device_like(*self, copy),
    {
        Inverter {
            device_id: self.device_id.clone(),
            policy_id: self.policy_id.clone(),
            last_ping: self.last_ping,
            operational_status: self.operational_status,
            online_status: self.online_status,
            risk_level: self.risk_level,
            device_type: self.device_type.clone(),
            manufacturer: self.manufacturer.clone(),
            model: self.model.clone(),
            rated_power: self.rated_power,
            last_reading: self.last_reading,
            hourly_readings: self.hourly_readings.duplicate(),
        }
    }
}

/// Two device records agree on every field (string fields by their
/// character sequences, the history by its contents).
pub open spec fn device_like(a: Inverter, b: Inverter) -> bool {
    &&& a.device_id@ == b.device_id@
    &&& a.policy_id@ == b.policy_id@
    &&& a.last_ping == b.last_ping
    &&& a.operational_status == b.operational_status
    &&& a.online_status == b.online_status
    &&& a.risk_level == b.risk_level
    &&& a.device_type@ == b.device_type@
    &&& a.manufacturer@ == b.manufacturer@
    &&& a.model@ == b.model@
    &&& a.rated_power == b.rated_power
    &&& a.last_reading == b.last_reading
    &&& a.hourly_readings@ == b.hourly_readings@
}

/// What a freshly registered device looks like: online, operational, low
/// risk, an empty history, and a zeroed placeholder reading stamped with the
/// registration time.
pub open spec fn registered_device(
    d: Inverter,
    device_id: Seq<char>,
    policy_id: Seq<char>,
    manufacturer: Seq<char>,
    model: Seq<char>,
    rated_power: u32,
    now: u64,
) -> bool {
    &&& d.device_id@ == device_id
    &&& d.policy_id@ == policy_id
    &&& d.last_ping == now
    &&& d.operational_status == true
    &&& d.online_status == true
    &&& d.risk_level == RiskLevel::Low
    &&& d.device_type@ == "INVERTER"@
    &&& d.manufacturer@ == manufacturer
    &&& d.model@ == model
    &&& d.rated_power == rated_power
    &&& d.last_reading == zero_reading(now)
    &&& d.hourly_readings@ == Seq::<InverterData>::empty()
}

/// How one accepted reading rewrites a device record: identity and metadata
/// are untouched; the device comes online with the reading's timestamp as its
/// last contact; operational status and risk level are recomputed from the
/// reading against the rated power; the reading becomes the latest snapshot
/// and is appended to the bounded history.
pub open spec fn updated_device(before: Inverter, after: Inverter, r: InverterData) -> bool {
    &&& after.device_id@ == before.device_id@
    &&& after.policy_id@ == before.policy_id@
    &&& after.device_type@ == before.device_type@
    &&& after.manufacturer@ == before.manufacturer@
    &&& after.model@ == before.model@
    &&& after.rated_power == before.rated_power
    &&& after.last_ping == r.timestamp
    &&& after.online_status == true
    &&& after.operational_status == spec_operational(r.peak_power, before.rated_power)
    &&& after.risk_level == spec_risk_level(after.operational_status, r.efficiency)
    &&& after.last_reading == r
    &&& after.hourly_readings@ == push_evicting(before.hourly_readings@, r)
}

/// How a liveness check rewrites a stale device's record: the online flag is
/// cleared and every other field — the contact timestamp included — is kept.
pub open spec fn offline_copy(before: Inverter, after: Inverter) -> bool {
    &&& after.device_id@ == before.device_id@
    &&& after.policy_id@ == before.policy_id@
    &&& after.last_ping == before.last_ping
    &&& after.operational_status == before.operational_status
    &&& after.online_status == false
    &&& after.risk_level == before.risk_level
    &&& after.device_type@ == before.device_type@
    &&& after.manufacturer@ == before.manufacturer@
    &&& after.model@ == before.model@
    &&& after.rated_power == before.rated_power
    &&& after.last_reading == before.last_reading
    &&& after.hourly_readings@ == before.hourly_readings@
}

/// A device is stale when more than `OFFLINE_THRESHOLD` time units have
/// passed since its last contact.
pub open spec fn spec_stale(now: u64, last_contact: u64) -> bool {
    now - last_contact > OFFLINE_THRESHOLD as int
}

/// The claim-trigger decision: sustained underperformance is claim-worthy
/// when the device is not operational and has been out of contact for more
/// than `DOWNTIME_THRESHOLD` time units. Ingestion evaluates this against the
/// contact timestamp written in the same update, so there the elapsed term is
/// zero; that quirk of the decision is kept as it stands.
pub open spec fn spec_claim_suggested(operational: bool, now: u64, last_contact: u64) -> bool {
    !operational && now - last_contact > DOWNTIME_THRESHOLD as int
}

} // verus!
