use sunereum::errors::Error;
use sunereum::oracle::ViryaIntegrationContract;
use sunereum::telemetry::{operational_status, risk_level_for, RiskLevel};

fn registered_engine(rated_power: u32, now: u64) -> ViryaIntegrationContract {
    let mut engine = ViryaIntegrationContract::initialize();
    let result = engine.register_inverter(
        String::from("INV001"),
        String::from("POL001"),
        String::from("SolarEdge"),
        String::from("SE7600H"),
        rated_power,
        now,
    );
    assert_eq!(result, Ok(()));
    engine
}

fn submit(
    engine: &mut ViryaIntegrationContract,
    provider: &str,
    now: u64,
    energy_produced: u64,
    peak_power: u32,
    efficiency: u32,
) -> Result<bool, Error> {
    engine.update_inverter_data(
        String::from("INV001"),
        String::from(provider),
        now,
        energy_produced,
        peak_power,
        400,
        15000,
        240,
        60000,
        450,
        efficiency,
        980,
        45000,
        1000000,
        12000,
    )
}

#[test]
fn test_inverter_registration_and_data() {
    let mut client = ViryaIntegrationContract::initialize();

    let device_id = String::from("INV001");
    let policy_id = String::from("POL001");
    let manufacturer = String::from("SolarEdge");
    let model = String::from("SE7600H");
    let rated_power = 7600;

    let result = client.register_inverter(
        device_id.clone(),
        policy_id,
        manufacturer,
        model,
        rated_power,
        0,
    );
    assert!(result.is_ok());

    let provider = String::from("PROVIDER");
    assert_eq!(client.authorize_provider(provider.clone()), Ok(()));

    let result = client.update_inverter_data(
        device_id,
        provider,
        100,     // now
        5000,    // energy_produced
        6000,    // peak_power
        400,     // dc_voltage
        15000,   // dc_current
        240,     // ac_voltage
        60000,   // ac_frequency
        450,     // internal_temp
        960,     // efficiency
        980,     // power_factor
        45000,   // daily_yield
        1000000, // total_yield
        12000,   // operating_hours
    );
    assert!(result.is_ok());

    let device = client.get_device_status("INV001").ok().unwrap();
    assert_eq!(device.online_status, true);
    assert_eq!(device.operational_status, true);
    assert_eq!(device.last_reading.energy_produced, 5000);
}

#[test]
fn duplicate_registration_fails_and_changes_nothing() {
    let mut engine = registered_engine(7600, 0);
    let result = engine.register_inverter(
        String::from("INV001"),
        String::from("POL999"),
        String::from("Other"),
        String::from("Model"),
        123,
        42,
    );
    assert_eq!(result, Err(Error::AlreadyExists));

    let device = engine.get_device_status("INV001").ok().unwrap();
    assert_eq!(device.policy_id, String::from("POL001"));
    assert_eq!(device.manufacturer, String::from("SolarEdge"));
    assert_eq!(device.model, String::from("SE7600H"));
    assert_eq!(device.rated_power, 7600);
    assert_eq!(device.last_ping, 0);
}

#[test]
fn fresh_device_state() {
    let engine = registered_engine(7600, 9);
    let device = engine.get_device_status("INV001").ok().unwrap();
    assert_eq!(device.device_id, String::from("INV001"));
    assert_eq!(device.device_type, String::from("INVERTER"));
    assert_eq!(device.online_status, true);
    assert_eq!(device.operational_status, true);
    assert_eq!(device.risk_level, RiskLevel::Low);
    assert_eq!(device.last_ping, 9);
    assert_eq!(device.last_reading.timestamp, 9);
    assert_eq!(device.last_reading.energy_produced, 0);
    assert_eq!(device.last_reading.peak_power, 0);
    assert_eq!(engine.get_hourly_performance("INV001").ok().unwrap().len(), 0);
}

#[test]
fn history_is_bounded_to_24_and_evicts_oldest() {
    let mut engine = registered_engine(7600, 0);
    assert_eq!(engine.authorize_provider(String::from("P")), Ok(()));

    for k in 1..=25u64 {
        let result = submit(&mut engine, "P", k, 1000 + k, 6000, 960);
        assert_eq!(result, Ok(false));
        let history = engine.get_hourly_performance("INV001").ok().unwrap();
        assert!(history.len() <= 24);
    }

    let history = engine.get_hourly_performance("INV001").ok().unwrap();
    assert_eq!(history.len(), 24);
    // The first reading (energy 1001) was evicted by the 25th.
    assert_eq!(history[0].energy_produced, 1002);
    assert_eq!(history[23].energy_produced, 1025);

    // The latest reading equals the newest history entry.
    let device = engine.get_device_status("INV001").ok().unwrap();
    assert_eq!(device.last_reading.energy_produced, 1025);
    assert_eq!(device.last_reading.timestamp, 25);
    assert_eq!(device.hourly_readings.len(), 24);
    assert_eq!(device.hourly_readings.get(0).energy_produced, 1002);
    assert_eq!(device.hourly_readings.get(23).energy_produced, 1025);
}

#[test]
fn performance_ratio_decides_operational_status() {
    // 6000 / 7600 is about 78.9%, at or above the 70% threshold.
    assert!(operational_status(6000, 7600));
    // 5000 / 7600 is about 65.8%, below the threshold.
    assert!(!operational_status(5000, 7600));
    // The boundary: 5320 / 7600 is exactly 70%.
    assert!(operational_status(5320, 7600));
    assert!(!operational_status(5319, 7600));

    let mut engine = registered_engine(7600, 0);
    assert_eq!(engine.authorize_provider(String::from("P")), Ok(()));
    assert_eq!(submit(&mut engine, "P", 1, 5000, 6000, 960), Ok(false));
    let device = engine.get_device_status("INV001").ok().unwrap();
    assert_eq!(device.operational_status, true);

    assert_eq!(submit(&mut engine, "P", 2, 5000, 5000, 960), Ok(false));
    let device = engine.get_device_status("INV001").ok().unwrap();
    assert_eq!(device.operational_status, false);
}

#[test]
fn risk_level_from_operational_status_and_efficiency() {
    assert_eq!(risk_level_for(true, 96), RiskLevel::Low);
    assert_eq!(risk_level_for(true, 90), RiskLevel::Low);
    assert_eq!(risk_level_for(true, 89), RiskLevel::Medium);
    assert_eq!(risk_level_for(true, 80), RiskLevel::Medium);
    assert_eq!(risk_level_for(true, 75), RiskLevel::Medium);
    assert_eq!(risk_level_for(true, 74), RiskLevel::High);
    assert_eq!(risk_level_for(false, 96), RiskLevel::High);
    assert_eq!(risk_level_for(false, 0), RiskLevel::High);

    let mut engine = registered_engine(7600, 0);
    assert_eq!(engine.authorize_provider(String::from("P")), Ok(()));

    assert_eq!(submit(&mut engine, "P", 1, 5000, 6000, 96), Ok(false));
    let device = engine.get_device_status("INV001").ok().unwrap();
    assert_eq!(device.risk_level, RiskLevel::Low);

    assert_eq!(submit(&mut engine, "P", 2, 5000, 6000, 80), Ok(false));
    let device = engine.get_device_status("INV001").ok().unwrap();
    assert_eq!(device.risk_level, RiskLevel::Medium);

    // Not operational: high risk whatever the efficiency.
    assert_eq!(submit(&mut engine, "P", 3, 5000, 5000, 96), Ok(false));
    let device = engine.get_device_status("INV001").ok().unwrap();
    assert_eq!(device.risk_level, RiskLevel::High);
}

#[test]
fn unauthorized_submission_fails_and_changes_nothing() {
    let mut engine = registered_engine(7600, 0);
    assert!(!engine.is_authorized("NOBODY"));

    let result = submit(&mut engine, "NOBODY", 50, 5000, 6000, 960);
    assert_eq!(result, Err(Error::Unauthorized));

    let device = engine.get_device_status("INV001").ok().unwrap();
    assert_eq!(device.last_ping, 0);
    assert_eq!(device.last_reading.energy_produced, 0);
    assert_eq!(engine.get_hourly_performance("INV001").ok().unwrap().len(), 0);
}

#[test]
fn authorization_gates_only_telemetry() {
    let mut engine = ViryaIntegrationContract::initialize();
    // Registration and liveness checks are not gated.
    let result = engine.register_inverter(
        String::from("INV001"),
        String::from("POL001"),
        String::from("SolarEdge"),
        String::from("SE7600H"),
        7600,
        0,
    );
    assert_eq!(result, Ok(()));
    assert_eq!(engine.check_device_status("INV001", 1), Ok(()));

    assert_eq!(engine.authorize_provider(String::from("P")), Ok(()));
    assert!(engine.is_authorized("P"));
    assert!(!engine.is_authorized("Q"));
    assert_eq!(submit(&mut engine, "P", 2, 5000, 6000, 960), Ok(false));
}

#[test]
fn stale_device_goes_offline_and_stays_offline() {
    let mut engine = registered_engine(7600, 0);

    // Exactly at the threshold: not yet stale.
    assert_eq!(engine.check_device_status("INV001", 300), Ok(()));
    let device = engine.get_device_status("INV001").ok().unwrap();
    assert_eq!(device.online_status, true);

    // One past the threshold: offline.
    assert_eq!(engine.check_device_status("INV001", 301), Ok(()));
    let device = engine.get_device_status("INV001").ok().unwrap();
    assert_eq!(device.online_status, false);
    assert_eq!(device.last_ping, 0);

    // Idempotent: a second check right after leaves everything as it is.
    assert_eq!(engine.check_device_status("INV001", 301), Ok(()));
    let device = engine.get_device_status("INV001").ok().unwrap();
    assert_eq!(device.online_status, false);
    assert_eq!(device.last_ping, 0);

    // An accepted reading brings the device back online.
    assert_eq!(engine.authorize_provider(String::from("P")), Ok(()));
    assert_eq!(submit(&mut engine, "P", 400, 5000, 6000, 960), Ok(false));
    let device = engine.get_device_status("INV001").ok().unwrap();
    assert_eq!(device.online_status, true);
    assert_eq!(device.last_ping, 400);
}

#[test]
fn claim_is_never_suggested_at_ingestion_time() {
    // The decision compares against the contact timestamp written in the
    // same update, so even a non-operational reading suggests no claim.
    let mut engine = registered_engine(7600, 0);
    assert_eq!(engine.authorize_provider(String::from("P")), Ok(()));
    assert_eq!(submit(&mut engine, "P", 100000, 5000, 100, 10), Ok(false));
    let device = engine.get_device_status("INV001").ok().unwrap();
    assert_eq!(device.operational_status, false);
    assert_eq!(device.risk_level, RiskLevel::High);
}

#[test]
fn unknown_device_reports_not_found() {
    let mut engine = ViryaIntegrationContract::initialize();
    assert_eq!(engine.authorize_provider(String::from("P")), Ok(()));
    assert_eq!(submit(&mut engine, "P", 1, 5000, 6000, 960), Err(Error::NotFound));
    assert_eq!(engine.check_device_status("INV001", 1), Err(Error::NotFound));
    assert_eq!(engine.get_device_status("INV001").err(), Some(Error::NotFound));
    assert_eq!(engine.get_hourly_performance("INV001").err(), Some(Error::NotFound));
}

#[test]
fn maintenance_records_need_a_registered_device() {
    let mut engine = registered_engine(7600, 0);
    let result = engine.add_maintenance_record(
        "INV001",
        String::from("HASH"),
        String::from("TECH"),
        String::from("SCHEDULED"),
        vec![String::from("loose cable")],
        vec![String::from("fuse")],
        77,
    );
    assert_eq!(result, Ok(()));

    let result = engine.add_maintenance_record(
        "INV999",
        String::from("HASH"),
        String::from("TECH"),
        String::from("EMERGENCY"),
        vec![],
        vec![],
        78,
    );
    assert_eq!(result, Err(Error::NotFound));
}

#[test]
fn end_to_end_scenario() {
    let mut engine = ViryaIntegrationContract::initialize();
    let result = engine.register_inverter(
        String::from("INV001"),
        String::from("POL001"),
        String::from("SolarEdge"),
        String::from("SE7600H"),
        7600,
        0,
    );
    assert_eq!(result, Ok(()));
    assert_eq!(engine.authorize_provider(String::from("P")), Ok(()));
    assert_eq!(submit(&mut engine, "P", 3600, 5000, 6000, 960), Ok(false));

    let device = engine.get_device_status("INV001").ok().unwrap();
    assert_eq!(device.online_status, true);
    assert_eq!(device.operational_status, true);
    assert_eq!(device.risk_level, RiskLevel::Low);
    assert_eq!(device.last_reading.energy_produced, 5000);
    assert_eq!(device.last_reading.efficiency, 960);
    assert_eq!(device.last_ping, 3600);

    let history = engine.get_hourly_performance("INV001").ok().unwrap();
    assert_eq!(history.len(), 1);
    assert_eq!(history[0].energy_produced, 5000);
}
