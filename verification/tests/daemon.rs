use bme680_exporter::config::{
    daemon_sensor_config, resolve_poll_interval, CollectorTarget, ConfigError, DaemonConfig,
    FilterSize, Oversampling,
};
use bme680_exporter::exporter::{build_samples, summary_line, Acknowledgment, ExportOutcome};
use bme680_exporter::num::{centi_string, dec_string, parse_decimal};
use bme680_exporter::poll::{PollDirective, PollEvent, PollLoop};
use bme680_exporter::reading::{Centi, Reading};
use bme680_exporter::session::{MeasurementError, RawSample, SensorSession, SessionPhase};

fn scenario_reading() -> Reading {
    // 22.5 degC, 1013.2 hPa, 45.0 %, 50000 ohm
    Reading::new(
        Centi::new(2250),
        Centi::new(101320),
        Centi::new(4500),
        Centi::new(5000000),
    )
}

#[test]
fn centi_rendering_trims_trailing_zeros() {
    assert_eq!(centi_string(2250), "22.5");
    assert_eq!(centi_string(101320), "1013.2");
    assert_eq!(centi_string(4500), "45");
    assert_eq!(centi_string(5000000), "50000");
    assert_eq!(centi_string(0), "0");
    assert_eq!(centi_string(5), "0.05");
    assert_eq!(centi_string(50), "0.5");
    assert_eq!(centi_string(55), "0.55");
    assert_eq!(centi_string(-220), "-2.2");
    assert_eq!(centi_string(-5), "-0.05");
    assert_eq!(centi_string(-100), "-1");
    assert_eq!(centi_string(i64::MAX), "92233720368547758.07");
}

#[test]
fn dec_string_renders_decimal() {
    assert_eq!(dec_string(0), "0");
    assert_eq!(dec_string(7), "7");
    assert_eq!(dec_string(10051), "10051");
    assert_eq!(dec_string(u64::MAX), "18446744073709551615");
}

#[test]
fn parse_decimal_accepts_exactly_digit_strings() {
    assert_eq!(parse_decimal("0"), Some(0));
    assert_eq!(parse_decimal("10051"), Some(10051));
    assert_eq!(parse_decimal("005000"), Some(5000));
    assert_eq!(parse_decimal("18446744073709551615"), Some(u64::MAX));
    assert_eq!(parse_decimal(""), None);
    assert_eq!(parse_decimal("12a"), None);
    assert_eq!(parse_decimal("-1"), None);
    assert_eq!(parse_decimal("+1"), None);
    assert_eq!(parse_decimal(" 1"), None);
    assert_eq!(parse_decimal("18446744073709551616"), None);
    assert_eq!(parse_decimal("99999999999999999999999"), None);
}

#[test]
fn collector_port_defaults_to_10051() {
    let target = CollectorTarget::resolve(
        Some("zabbix.example.net".to_string()),
        Some("weatherstation".to_string()),
        None,
    )
    .unwrap();
    assert_eq!(target.port, 10051);
    assert_eq!(target.host, "zabbix.example.net");
    assert_eq!(target.identity, "weatherstation");
}

#[test]
fn collector_port_is_parsed_when_present() {
    let target = CollectorTarget::resolve(
        Some("zabbix.example.net".to_string()),
        Some("weatherstation".to_string()),
        Some("10052".to_string()),
    )
    .unwrap();
    assert_eq!(target.port, 10052);
}

#[test]
fn collector_port_rejects_bad_values() {
    let bad = |port: &str| {
        CollectorTarget::resolve(
            Some("zabbix.example.net".to_string()),
            Some("weatherstation".to_string()),
            Some(port.to_string()),
        )
    };
    assert_eq!(bad("abc").unwrap_err(), ConfigError::InvalidPort);
    assert_eq!(bad("").unwrap_err(), ConfigError::InvalidPort);
    assert_eq!(bad("65536").unwrap_err(), ConfigError::InvalidPort);
    assert_eq!(bad("65535").unwrap().port, 65535);
}

#[test]
fn missing_required_variables_are_fatal_before_any_bus_access() {
    // The driver resolves the collector target before it opens the bus;
    // a missing required variable therefore ends the process with a
    // configuration error and no device was ever touched.
    let missing_host = CollectorTarget::resolve(None, Some("weatherstation".to_string()), None);
    assert_eq!(missing_host.unwrap_err(), ConfigError::MissingHost);

    let missing_identity = CollectorTarget::resolve(
        Some("zabbix.example.net".to_string()),
        None,
        Some("10051".to_string()),
    );
    assert_eq!(missing_identity.unwrap_err(), ConfigError::MissingIdentity);
}

#[test]
fn poll_interval_defaults_to_5000_ms() {
    assert_eq!(resolve_poll_interval(None), Ok(5000));
    let (_poll, directive) = PollLoop::new(resolve_poll_interval(None).unwrap());
    assert!(matches!(directive, PollDirective::Rest(5000)));
}

#[test]
fn poll_interval_is_parsed_when_present() {
    assert_eq!(resolve_poll_interval(Some("250".to_string())), Ok(250));
    assert_eq!(
        resolve_poll_interval(Some("abc".to_string())),
        Err(ConfigError::InvalidInterval)
    );
    assert_eq!(
        resolve_poll_interval(Some("4294967296".to_string())),
        Err(ConfigError::InvalidInterval)
    );
}

#[test]
fn daemon_config_resolves_in_one_step_with_defaults() {
    let c = DaemonConfig::resolve(
        Some("zabbix.example.net".to_string()),
        Some("weatherstation".to_string()),
        None,
        None,
    )
    .unwrap();
    assert_eq!(c.target.host, "zabbix.example.net");
    assert_eq!(c.target.identity, "weatherstation");
    assert_eq!(c.target.port, 10051);
    assert_eq!(c.poll_interval_ms, 5000);

    let missing = DaemonConfig::resolve(None, None, None, None);
    assert!(matches!(missing, Err(ConfigError::MissingHost)));
    let bad_interval = DaemonConfig::resolve(
        Some("zabbix.example.net".to_string()),
        Some("weatherstation".to_string()),
        None,
        Some("soon".to_string()),
    );
    assert!(matches!(bad_interval, Err(ConfigError::InvalidInterval)));
}

#[test]
fn daemon_sensor_config_matches_design() {
    let c = daemon_sensor_config();
    assert_eq!(c.humidity_oversampling, Oversampling::X2);
    assert_eq!(c.pressure_oversampling, Oversampling::X4);
    assert_eq!(c.temperature_oversampling, Oversampling::X8);
    assert_eq!(c.temperature_filter, FilterSize::Size3);
    assert_eq!(c.gas_heater_duration_ms, 1500);
    assert_eq!(c.gas_heater_temperature_c, 320);
    assert_eq!(c.gas_ambient_temperature_c, 25);
    assert_eq!(c.temperature_offset_centi, -220);
    assert!(c.run_gas);
}

#[test]
fn build_samples_emits_the_exact_batch() {
    let samples = build_samples(&scenario_reading(), "weatherstation");
    assert_eq!(samples.len(), 4);
    for s in &samples {
        assert_eq!(s.host, "weatherstation");
    }
    let pairs: Vec<(&str, &str)> = samples
        .iter()
        .map(|s| (s.key.as_str(), s.value.as_str()))
        .collect();
    assert!(pairs.contains(&("bme680.temperature", "22.5")));
    assert!(pairs.contains(&("bme680.pressure", "1013.2")));
    assert!(pairs.contains(&("bme680.humidity", "45")));
    assert!(pairs.contains(&("bme680.gas-resistance", "50000")));
}

#[test]
fn build_samples_uses_the_given_identity() {
    let samples = build_samples(&scenario_reading(), "balcony");
    assert_eq!(samples.len(), 4);
    for s in &samples {
        assert_eq!(s.host, "balcony");
    }
}

#[test]
fn summary_line_is_verbatim_when_all_fields_present() {
    let ack = Acknowledgment {
        processed: Some(4),
        failed: Some(0),
        total: Some(4),
        seconds_spent: Some(format!("{}", 0.01f32)),
    };
    assert_eq!(
        summary_line(&ack).unwrap(),
        "processed: 4; failed: 0; total: 4; seconds spent: 0.01"
    );
}

#[test]
fn summary_line_refuses_a_partial_acknowledgment() {
    let full = Acknowledgment {
        processed: Some(4),
        failed: Some(0),
        total: Some(4),
        seconds_spent: Some("0.01".to_string()),
    };
    let mut no_processed = full.clone();
    no_processed.processed = None;
    assert!(summary_line(&no_processed).is_none());
    let mut no_failed = full.clone();
    no_failed.failed = None;
    assert!(summary_line(&no_failed).is_none());
    let mut no_total = full.clone();
    no_total.total = None;
    assert!(summary_line(&no_total).is_none());
    let mut no_seconds = full.clone();
    no_seconds.seconds_spent = None;
    assert!(summary_line(&no_seconds).is_none());
}

#[test]
fn profile_duration_covers_conversion_and_heater_soak() {
    // 8 + 4 + 2 oversampling cycles at 1963 us plus fixed overheads is
    // 33 ms rounded up; the 1500 ms heater soak is added on top.
    let c = daemon_sensor_config();
    assert_eq!(c.profile_duration_ms(), 1533);
    let mut no_gas = c;
    no_gas.run_gas = false;
    assert_eq!(no_gas.profile_duration_ms(), 33);
}

fn session_at_data_ready() -> SensorSession {
    let mut session = SensorSession::new(daemon_sensor_config());
    let wait_ms = session.begin_measurement();
    assert_eq!(wait_ms, 1533);
    session.settling_elapsed();
    session
}

#[test]
fn fresh_sample_becomes_a_reading() {
    let mut session = session_at_data_ready();
    let raw = RawSample {
        temperature_celsius: Centi::new(2250),
        pressure_hpa: Centi::new(101320),
        humidity_percent: Centi::new(4500),
        gas_resistance_ohm: Centi::new(5000000),
        fresh: true,
    };
    let reading = session.complete_measurement(Some(raw)).unwrap();
    assert_eq!(reading, scenario_reading());
    assert_eq!(session.phase, SessionPhase::Idle);
}

#[test]
fn stale_data_never_becomes_a_reading() {
    // Device reports "new data: false": the registers still hold the
    // previous cycle's values and must not be returned as fresh.
    let mut session = session_at_data_ready();
    let raw = RawSample {
        temperature_celsius: Centi::new(2250),
        pressure_hpa: Centi::new(101320),
        humidity_percent: Centi::new(4500),
        gas_resistance_ohm: Centi::new(5000000),
        fresh: false,
    };
    let r = session.complete_measurement(Some(raw));
    assert_eq!(r, Err(MeasurementError::StaleData));
    assert_eq!(session.phase, SessionPhase::Idle);
}

#[test]
fn failed_bus_read_never_becomes_a_reading() {
    // A sensor that fails mid-read yields a measurement error, never a
    // partially filled reading.
    let mut session = session_at_data_ready();
    let r = session.complete_measurement(None);
    assert_eq!(r, Err(MeasurementError::BusRead));
    assert_eq!(session.phase, SessionPhase::Idle);
}

#[test]
fn transport_failure_is_followed_by_the_next_rest() {
    // One full cycle whose export fails: the loop still ends the cycle
    // with the full interval rest and a fresh attempt thereafter.
    let (mut poll, first) = PollLoop::new(5000);
    assert!(matches!(first, PollDirective::Rest(5000)));

    let d = poll.next_directive(PollEvent::IntervalElapsed);
    assert!(matches!(d, PollDirective::Measure));

    let d = poll.next_directive(PollEvent::Measured(Ok(scenario_reading())));
    match d {
        PollDirective::Export(r) => assert_eq!(r, scenario_reading()),
        _ => panic!("a successful measurement must be exported"),
    }

    let d = poll.next_directive(PollEvent::Delivered(ExportOutcome::TransportFailed));
    assert!(matches!(d, PollDirective::Rest(5000)));
}

#[test]
fn delivered_batch_is_followed_by_the_next_rest() {
    let (mut poll, _) = PollLoop::new(700);
    let d = poll.next_directive(PollEvent::IntervalElapsed);
    assert!(matches!(d, PollDirective::Measure));
    let d = poll.next_directive(PollEvent::Measured(Ok(scenario_reading())));
    assert!(matches!(d, PollDirective::Export(_)));
    let ack = Acknowledgment {
        processed: Some(4),
        failed: Some(0),
        total: Some(4),
        seconds_spent: Some("0.01".to_string()),
    };
    let d = poll.next_directive(PollEvent::Delivered(ExportOutcome::Delivered(ack)));
    assert!(matches!(d, PollDirective::Rest(700)));
}

#[test]
fn measurement_failure_is_followed_by_the_next_rest() {
    let (mut poll, _) = PollLoop::new(5000);
    let d = poll.next_directive(PollEvent::IntervalElapsed);
    assert!(matches!(d, PollDirective::Measure));
    let d = poll.next_directive(PollEvent::Measured(Err(MeasurementError::BusRead)));
    assert!(matches!(d, PollDirective::Rest(5000)));
}
