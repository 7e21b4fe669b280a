use vstd::prelude::*;

use vstd::hash_map::StringHashMap;

use crate::device::{
    device_like, offline_copy, registered_device, spec_claim_suggested, spec_stale, updated_device,
    Inverter, DOWNTIME_THRESHOLD, OFFLINE_THRESHOLD,
};
use crate::errors::Error;
use crate::telemetry::{operational_status, risk_level_for, InverterData, ReadingHistory, RiskLevel};

verus! {

/// One completed maintenance intervention on a registered device; the log of
/// these is append-only.
pub struct MaintenanceRecord {
    pub timestamp: u64,
    pub report_hash: String,
    pub technician: String,
    pub status: String,
    pub maintenance_type: String,
    pub issues_found: Vec<String>,
    pub parts_replaced: Vec<String>,
}

/// What a freshly appended maintenance record holds: the completion time, the
/// report as handed in, and the fixed completed status.
pub open spec fn maintenance_entry(
    rec: MaintenanceRecord,
    now: u64,
    report_hash: Seq<char>,
    technician: Seq<char>,
    maintenance_type: Seq<char>,
    issues_found: Seq<String>,
    parts_replaced: Seq<String>,
) -> bool {
    &&& rec.timestamp == now
    &&& rec.report_hash@ == report_hash
    &&& rec.technician@ == technician
    &&& rec.status@ == "COMPLETED"@
    &&& rec.maintenance_type@ == maintenance_type
    &&& rec.issues_found@ == issues_found
    &&& rec.parts_replaced@ == parts_replaced
}

/// The telemetry ingestion and derived-state engine: one authoritative record
/// per registered device, an allow-list of telemetry providers, and an
/// append-only maintenance log. Every operation is a whole-record
/// read-modify-write against this value, with the current time passed in; a
/// failed operation leaves all state unchanged.
pub struct ViryaIntegrationContract {
    devices: StringHashMap<Inverter>,
    authorized_providers: StringHashMap<()>,
    maintenance: Vec<MaintenanceRecord>,
}

impl ViryaIntegrationContract {
    /// The registry: each device record keyed by its device id.
    pub closed spec fn devices_view(&self) -> Map<Seq<char>, Inverter> {
        self.devices@
    }

    /// The set of actors allowed to submit telemetry.
    pub closed spec fn authorized_view(&self) -> Set<Seq<char>> {
        self.authorized_providers@.dom()
    }

    /// The maintenance log, oldest first.
    pub closed spec fn maintenance_view(&self) -> Seq<MaintenanceRecord> {
        self.maintenance@
    }

    /// Every registered record is well formed and filed under its own id.
    pub open spec fn wf(&self) -> bool {
        forall|id: Seq<char>|
            self.devices_view().contains_key(id) ==> {
                &&& (#[trigger] self.devices_view()[id]).wf()
                &&& self.devices_view()[id].device_id@ == id
            }
    }

    /// Creates the engine with no devices, no authorized providers and an
    /// empty maintenance log.
    pub fn initialize() -> (engine: ViryaIntegrationContract)
        ensures
            engine.devices_view() == Map::<Seq<char>, Inverter>::empty(),
            engine.authorized_view() == Set::<Seq<char>>::empty(),
            engine.maintenance_view() == Seq::<MaintenanceRecord>::empty(),
            engine.wf(),
    {
        let engine = ViryaIntegrationContract {
            devices: StringHashMap::new(),
            authorized_providers: StringHashMap::new(),
            maintenance: Vec::new(),
        };
        proof {
            assert(engine.authorized_view() =~= Set::<Seq<char>>::empty());
        }
        engine
    }

    /// Adds an actor to the telemetry allow-list. The list is append-only:
    /// there is no removal, re-adding an actor is harmless, and the call
    /// never fails. Only telemetry submission consults this list;
    /// registration and liveness checks are deliberately not gated.
    pub fn authorize_provider(&mut self, provider: String) -> (result: Result<(), Error>)
        ensures
            result == Ok::<(), Error>(()),
            final(self).authorized_view() == old(self).authorized_view().insert(provider@),
            final(self).devices_view() == old(self).devices_view(),
            final(self).maintenance_view() == old(self).maintenance_view(),
    {
        self.authorized_providers.insert(provider, ());
        proof {
            assert(self.authorized_providers@.dom() =~= old(
                self,
            ).authorized_providers@.dom().insert(provider@));
        }
        Ok(())
    }

    /// Membership test of the telemetry allow-list.
    pub fn is_authorized(&self, actor: &str) -> (authorized: bool)
        ensures
            authorized == self.authorized_view().contains(actor@),
    {
        self.authorized_providers.contains_key(actor)
    }

    /// Registers a device under a fresh id, associated with a policy and
    /// described by its metadata; fails with `AlreadyExists`, changing
    /// nothing, when the id is already taken. A new device starts online,
    /// operational and at low risk, with an empty history and a zeroed
    /// placeholder reading stamped with the registration time.
    pub fn register_inverter(
        &mut self,
        device_id: String,
        policy_id: String,
        manufacturer: String,
        model: String,
        rated_power: u32,
        now: u64,
    ) -> (result: Result<(), Error>)
        requires
            old(self).wf(),
            rated_power > 0,
        ensures
            final(self).wf(),
            final(self).authorized_view() == old(self).authorized_view(),
            final(self).maintenance_view() == old(self).maintenance_view(),
            result is Ok <==> !old(self).devices_view().contains_key(device_id@),
            match result {
                Ok(()) => {
                    &&& final(self).devices_view().contains_key(device_id@)
                    &&& registered_device(
                        final(self).devices_view()[device_id@],
                        device_id@,
                        policy_id@,
                        manufacturer@,
                        model@,
                        rated_power,
                        now,
                    )
                    &&& final(self).devices_view() == old(self).devices_view().insert(
                        device_id@,
                        final(self).devices_view()[device_id@],
                    )
                },
                Err(e) => {
                    &&& e == Error::AlreadyExists
                    &&& final(self).devices_view() == old(self).devices_view()
                },
            },
    {
        if self.devices.contains_key(device_id.as_str()) {
            return Err(Error::AlreadyExists);
        }
        let device = Inverter {
            device_id: device_id.clone(),
            policy_id,
            last_ping: now,
            operational_status: true,
            online_status: true,
            risk_level: RiskLevel::Low,
            device_type: "INVERTER".to_owned(),
            manufacturer,
            model,
            rated_power,
            last_reading: InverterData {
                timestamp: now,
                energy_produced: 0,
                peak_power: 0,
                dc_voltage: 0,
                dc_current: 0,
                ac_voltage: 0,
                ac_frequency: 0,
                internal_temp: 0,
                efficiency: 0,
                power_factor: 0,
                daily_yield: 0,
                total_yield: 0,
                operating_hours: 0,
            },
            hourly_readings: ReadingHistory::new(),
        };
        let ghost fresh = device;
        self.devices.insert(device_id, device);
        proof {
            let m0 = old(self).devices_view();
            let m1 = self.devices_view();
            assert forall|id: Seq<char>| m1.contains_key(id) implies {
                &&& (#[trigger] m1[id]).wf()
                &&& m1[id].device_id@ == id
            } by {
                if id != fresh.device_id@ {
                    assert(m0.contains_key(id));
                    assert(m1[id] == m0[id]);
                }
            }
        }
        Ok(())
    }

    /// Ingests one telemetry reading for a device, submitted by an actor:
    /// fails with `Unauthorized` when the actor is not allow-listed, then
    /// with `NotFound` when the device id is unknown, in both cases changing
    /// nothing. Otherwise the device record is replaced as one atomic update
    /// — online, contact time, operational status, risk level, latest reading
    /// and bounded history all recomputed from the reading — and the call
    /// returns whether the update makes the underperformance claim-worthy.
    /// No measurement is range-validated beyond its type width; out-of-range
    /// values are accepted as given.
    pub fn update_inverter_data(
        &mut self,
        device_id: String,
        auth_provider: String,
        now: u64,
        energy_produced: u64,
        peak_power: u32,
        dc_voltage: u32,
        dc_current: u32,
        ac_voltage: u32,
        ac_frequency: u32,
        internal_temp: i32,
        efficiency: u32,
        power_factor: u32,
        daily_yield: u64,
        total_yield: u64,
        operating_hours: u32,
    ) -> (result: Result<bool, Error>)
        requires
            old(self).wf(),
        ensures
            final(self).wf(),
            final(self).authorized_view() == old(self).authorized_view(),
            final(self).maintenance_view() == old(self).maintenance_view(),
            result is Ok <==> (old(self).authorized_view().contains(auth_provider@) && old(
                self,
            ).devices_view().contains_key(device_id@)),
            match result {
                Ok(claim) => {
                    &&& final(self).devices_view().contains_key(device_id@)
                    &&& updated_device(
                        old(self).devices_view()[device_id@],
                        final(self).devices_view()[device_id@],
                        InverterData {
                            timestamp: now,
                            energy_produced,
                            peak_power,
                            dc_voltage,
                            dc_current,
                            ac_voltage,
                            ac_frequency,
                            internal_temp,
                            efficiency,
                            power_factor,
                            daily_yield,
                            total_yield,
                            operating_hours,
                        },
                    )
                    &&& final(self).devices_view() == old(self).devices_view().insert(
                        device_id@,
                        final(self).devices_view()[device_id@],
                    )
                    &&& claim == spec_claim_suggested(
                        final(self).devices_view()[device_id@].operational_status,
                        now,
                        now,
                    )
                },
                Err(e) => {
                    &&& final(self).devices_view() == old(self).devices_view()
                    &&& e == (if !old(self).authorized_view().contains(auth_provider@) {
                        Error::Unauthorized
                    } else {
                        Error::NotFound
                    })
                },
            },
    {
        if !self.authorized_providers.contains_key(auth_provider.as_str()) {
            return Err(Error::Unauthorized);
        }
        let found = self.devices.get(device_id.as_str());
        match found {
            None => Err(Error::NotFound),
            Some(device) => {
                let new_reading = InverterData {
                    timestamp: now,
                    energy_produced,
                    peak_power,
                    dc_voltage,
                    dc_current,
                    ac_voltage,
                    ac_frequency,
                    internal_temp,
                    efficiency,
                    power_factor,
                    daily_yield,
                    total_yield,
                    operating_hours,
                };
                let operational = operational_status(peak_power, device.rated_power);
                let risk = risk_level_for(operational, efficiency);
                proof {
                    assert(old(self).devices_view().contains_key(device_id@));
                    assert(old(self).devices_view()[device_id@].wf());
                }
                let mut history = device.hourly_readings.duplicate();
                history.push(new_reading);
                let updated = Inverter {
                    device_id: device.device_id.clone(),
                    policy_id: device.policy_id.clone(),
                    last_ping: now,
                    operational_status: operational,
                    online_status: true,
                    risk_level: risk,
                    device_type: device.device_type.clone(),
                    manufacturer: device.manufacturer.clone(),
                    model: device.model.clone(),
                    rated_power: device.rated_power,
                    last_reading: new_reading,
                    hourly_readings: history,
                };
                // The claim decision reads the contact timestamp written in
                // this same update, so the elapsed-downtime term is zero.
                let claim = !operational && (now - now) > DOWNTIME_THRESHOLD;
                let ghost fresh = updated;
                self.devices.insert(device_id, updated);
                proof {
                    let m0 = old(self).devices_view();
                    let m1 = self.devices_view();
                    assert forall|id: Seq<char>| m1.contains_key(id) implies {
                        &&& (#[trigger] m1[id]).wf()
                        &&& m1[id].device_id@ == id
                    } by {
                        if id != fresh.device_id@ {
                            assert(m0.contains_key(id));
                            assert(m1[id] == m0[id]);
                        }
                    }
                }
                Ok(claim)
            },
        }
    }

    /// Observes a device's staleness: fails with `NotFound` for an unknown
    /// id; otherwise, when the last contact is more than `OFFLINE_THRESHOLD`
    /// time units old, clears the online flag and keeps every other field,
    /// the contact timestamp included — so the check is idempotent and a
    /// fresh device is left untouched.
    pub fn check_device_status(&mut self, device_id: &str, now: u64) -> (result: Result<
        (),
        Error,
    >)
        requires
            old(self).wf(),
        ensures
            final(self).wf(),
            final(self).authorized_view() == old(self).authorized_view(),
            final(self).maintenance_view() == old(self).maintenance_view(),
            result is Ok <==> old(self).devices_view().contains_key(device_id@),
            match result {
                Ok(()) => {
                    if spec_stale(now, old(self).devices_view()[device_id@].last_ping) {
                        &&& final(self).devices_view().contains_key(device_id@)
                        &&& offline_copy(
                            old(self).devices_view()[device_id@],
                            final(self).devices_view()[device_id@],
                        )
                        &&& final(self).devices_view() == old(self).devices_view().insert(
                            device_id@,
                            final(self).devices_view()[device_id@],
                        )
                    } else {
                        final(self).devices_view() == old(self).devices_view()
                    }
                },
                Err(e) => {
                    &&& e == Error::NotFound
                    &&& final(self).devices_view() == old(self).devices_view()
                },
            },
    {
        let found = self.devices.get(device_id);
        match found {
            None => Err(Error::NotFound),
            Some(device) => {
                if now >= device.last_ping && now - device.last_ping > OFFLINE_THRESHOLD {
                    proof {
                        assert(old(self).devices_view()[device_id@].wf());
                    }
                    let mut offline = device.duplicate();
                    offline.online_status = false;
                    let ghost fresh = offline;
                    self.devices.insert(device_id.to_owned(), offline);
                    proof {
                        let m0 = old(self).devices_view();
                        let m1 = self.devices_view();
                        assert forall|id: Seq<char>| m1.contains_key(id) implies {
                            &&& (#[trigger] m1[id]).wf()
                            &&& m1[id].device_id@ == id
                        } by {
                            if id != fresh.device_id@ {
                                assert(m0.contains_key(id));
                                assert(m1[id] == m0[id]);
                            }
                        }
                    }
                }
                Ok(())
            },
        }
    }

    /// Returns a copy of the device's bounded history of accepted readings,
    /// oldest first, or `NotFound` for an unknown id.
    pub fn get_hourly_performance(&self, device_id: &str) -> (result: Result<
        Vec<InverterData>,
        Error,
    >)
        ensures
            result is Ok <==> self.devices_view().contains_key(device_id@),
            match result {
                Ok(readings) => readings@ == self.devices_view()[device_id@].hourly_readings@,
                Err(e) => e == Error::NotFound,
            },
    {
        match self.devices.get(device_id) {
            Some(device) => Ok(device.hourly_readings.to_vec()),
            None => Err(Error::NotFound),
        }
    }

    /// Returns a copy of the device's current record, or `NotFound` for an
    /// unknown id.
    pub fn get_device_status(&self, device_id: &str) -> (result: Result<Inverter, Error>)
        ensures
            result is Ok <==> self.devices_view().contains_key(device_id@),
            match result {
                Ok(device) => device_like(self.devices_view()[device_id@], device),
                Err(e) => e == Error::NotFound,
            },
    {
        match self.devices.get(device_id) {
            Some(device) => Ok(device.duplicate()),
            None => Err(Error::NotFound),
        }
    }

    /// Appends a completed maintenance intervention for a registered device
    /// to the append-only log; fails with `NotFound`, changing nothing, for
    /// an unknown id. The log itself is written by no other operation.
    pub fn add_maintenance_record(
        &mut self,
        device_id: &str,
        report_hash: String,
        technician: String,
        maintenance_type: String,
        issues_found: Vec<String>,
        parts_replaced: Vec<String>,
        now: u64,
    ) -> (result: Result<(), Error>)
        ensures
            final(self).devices_view() == old(self).devices_view(),
            final(self).authorized_view() == old(self).authorized_view(),
            result is Ok <==> old(self).devices_view().contains_key(device_id@),
            match result {
                Ok(()) => {
                    &&& final(self).maintenance_view().len() == old(
                        self,
                    ).maintenance_view().len() + 1
                    &&& final(self).maintenance_view() == old(self).maintenance_view().push(
                        final(self).maintenance_view().last(),
                    )
                    &&& maintenance_entry(
                        final(self).maintenance_view().last(),
                        now,
                        report_hash@,
                        technician@,
                        maintenance_type@,
                        issues_found@,
                        parts_replaced@,
                    )
                },
                Err(e) => {
                    &&& e == Error::NotFound
                    &&& final(self).maintenance_view() == old(self).maintenance_view()
                },
            },
    {
        if !self.devices.contains_key(device_id) {
            return Err(Error::NotFound);
        }
        let record = MaintenanceRecord {
            timestamp: now,
            report_hash,
            technician,
            status: "COMPLETED".to_owned(),
            maintenance_type,
            issues_found,
            parts_replaced,
        };
        self.maintenance.push(record);
        Ok(())
    }
}

/// Once a registration under an id has succeeded the id is present in the
/// registry, so by `register_inverter`'s contract every later registration
/// under the same id returns `AlreadyExists` and leaves the engine unchanged.
pub proof fn lemma_reregistration_rejected(
    devices: Map<Seq<char>, Inverter>,
    device_id: Seq<char>,
    device: Inverter,
)
    ensures
        devices.insert(device_id, device).contains_key(device_id),
{
}

/// Authorizing a provider admits that provider alone: any other actor stays
/// outside the allow-list. The list starts empty and nothing removes from it,
/// so an actor that was never authorized is never on it, and by
/// `update_inverter_data`'s contract every submission from such an actor
/// returns `Unauthorized` and leaves the engine unchanged.
pub proof fn lemma_authorization_admits_only_the_named_actor(
    authorized: Set<Seq<char>>,
    provider: Seq<char>,
    actor: Seq<char>,
)
    requires
        actor != provider,
        !authorized.contains(actor),
    ensures
        !authorized.insert(provider).contains(actor),
{
}

/// A liveness check never touches the contact timestamp, so a device found
/// stale stays stale, and a second check right after the first rewrites the
/// record to one that agrees with the first rewrite field for field: once
/// offline, repeated checks with no new reading leave the state unchanged.
pub proof fn lemma_liveness_check_idempotent(d0: Inverter, d1: Inverter, d2: Inverter, now: u64)
    requires
        spec_stale(now, d0.last_ping),
        offline_copy(d0, d1),
        offline_copy(d1, d2),
    ensures
        spec_stale(now, d1.last_ping),
        d1.online_status == false,
        device_like(d1, d2),
{
}

} // verus!
