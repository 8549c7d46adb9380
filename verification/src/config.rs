//! Startup configuration: the collector target resolved once from the
//! environment, the poll interval, and the immutable sensor sampling
//! configuration applied once before the measurement loop starts.

use vstd::prelude::*;

use crate::num::{all_dec_digits, dec_value};

verus! {

/// Default collector port used when none is configured.
pub const DEFAULT_COLLECTOR_PORT: u16 = 10051;

/// Default delay between measurement cycles, in milliseconds.
pub const DEFAULT_POLL_INTERVAL_MS: u32 = 5000;

/// A startup configuration fault; each one is fatal to the process.
#[derive(Debug, PartialEq, Eq, Structural, Clone, Copy)]
pub enum ConfigError {
    /// The collector host variable is absent.
    MissingHost,
    /// The logical host-identity variable is absent.
    MissingIdentity,
    /// The collector port variable is present but not a valid port number.
    InvalidPort,
    /// The poll interval variable is present but not a valid duration.
    InvalidInterval,
}

/// Where metrics are delivered: the network destination and the logical
/// host identity under which samples are reported (the identity may
/// differ from the network destination).
#[derive(Debug, Clone)]
pub struct CollectorTarget {
    pub host: String,
    pub port: u16,
    pub identity: String,
}

/// Whether an optional raw port string resolves: absence resolves to the
/// default, presence must be a decimal number that fits a `u16`.
pub open spec fn port_resolvable(raw: Option<String>) -> bool {
    match raw {
        Option::None => true,
        Option::Some(p) => p@.len() > 0 && all_dec_digits(p@) && dec_value(p@) <= u16::MAX,
    }
}

/// The port an optional raw port string resolves to.
pub open spec fn resolved_port(raw: Option<String>) -> int {
    match raw {
        Option::None => DEFAULT_COLLECTOR_PORT as int,
        Option::Some(p) => dec_value(p@),
    }
}

impl CollectorTarget {
    /// Builds the collector target from the raw environment values, read
    /// once at startup. Host and identity are required; the port defaults
    /// to `DEFAULT_COLLECTOR_PORT` when absent and must otherwise be a
    /// decimal `u16`.
    pub fn resolve(host: Option<String>, identity: Option<String>, port: Option<String>) -> (r:
        Result<CollectorTarget, ConfigError>)
        ensures
            r is Ok <==> (host is Some && identity is Some && port_resolvable(port)),
            r matches Ok(t) ==> {
                &&& t.host@ == host->0@
                &&& t.identity@ == identity->0@
                &&& t.port as int == resolved_port(port)
            },
            host is None ==> r == Err::<CollectorTarget, ConfigError>(ConfigError::MissingHost),
            host is Some && identity is None ==> r == Err::<CollectorTarget, ConfigError>(
                ConfigError::MissingIdentity,
            ),
            host is Some && identity is Some && !port_resolvable(port) ==> r == Err::<
                CollectorTarget,
                ConfigError,
            >(ConfigError::InvalidPort),
    {
        let host = match host {
            Option::Some(h) => h,
            Option::None => {
                return Err(ConfigError::MissingHost);
            },
        };
        let identity = match identity {
            Option::Some(i) => i,
            Option::None => {
                return Err(ConfigError::MissingIdentity);
            },
        };
        let port: u16 = match port {
            Option::None => DEFAULT_COLLECTOR_PORT,
            Option::Some(p) => {
                match crate::num::parse_decimal(p.as_str()) {
                    Option::Some(v) if v <= u16::MAX as u64 => v as u16,
                    _ => {
                        return Err(ConfigError::InvalidPort);
                    },
                }
            },
        };
        Ok(CollectorTarget { host, port, identity })
    }
}

/// Whether an optional raw interval string resolves: absence resolves to
/// the default, presence must be a decimal number of milliseconds that
/// fits a `u32`.
pub open spec fn interval_resolvable(raw: Option<String>) -> bool {
    match raw {
        Option::None => true,
        Option::Some(p) => p@.len() > 0 && all_dec_digits(p@) && dec_value(p@) <= u32::MAX,
    }
}

/// The poll interval an optional raw interval string resolves to.
pub open spec fn resolved_interval(raw: Option<String>) -> int {
    match raw {
        Option::None => DEFAULT_POLL_INTERVAL_MS as int,
        Option::Some(p) => dec_value(p@),
    }
}

/// Resolves the delay between measurement cycles from the raw
/// environment value, read once at startup; absent means the default of
/// `DEFAULT_POLL_INTERVAL_MS` milliseconds.
pub fn resolve_poll_interval(raw: Option<String>) -> (r: Result<u32, ConfigError>)
    ensures
        r is Ok <==> interval_resolvable(raw),
        r matches Ok(ms) ==> ms as int == resolved_interval(raw),
        r is Err ==> r == Err::<u32, ConfigError>(ConfigError::InvalidInterval),
{
    match raw {
        Option::None => Ok(DEFAULT_POLL_INTERVAL_MS),
        Option::Some(p) => {
            match crate::num::parse_decimal(p.as_str()) {
                Option::Some(v) if v <= u32::MAX as u64 => Ok(v as u32),
                _ => Err(ConfigError::InvalidInterval),
            }
        },
    }
}

/// Everything the daemon takes from its environment, gathered into one
/// immutable object at startup: where and as whom to report, and how
/// often to measure.
#[derive(Debug, Clone)]
pub struct DaemonConfig {
    pub target: CollectorTarget,
    /// Delay between measurement cycles, in milliseconds.
    pub poll_interval_ms: u32,
}

impl DaemonConfig {
    /// Builds the whole environment-derived configuration in one step,
    /// with the faults checked in a fixed order: missing host, missing
    /// identity, bad port, bad interval.
    pub fn resolve(
        host: Option<String>,
        identity: Option<String>,
        port: Option<String>,
        interval: Option<String>,
    ) -> (r: Result<DaemonConfig, ConfigError>)
        ensures
            r is Ok <==> (host is Some && identity is Some && port_resolvable(port)
                && interval_resolvable(interval)),
            r matches Ok(c) ==> {
                &&& c.target.host@ == host->0@
                &&& c.target.identity@ == identity->0@
                &&& c.target.port as int == resolved_port(port)
                &&& c.poll_interval_ms as int == resolved_interval(interval)
            },
            host is None ==> r == Err::<DaemonConfig, ConfigError>(ConfigError::MissingHost),
            host is Some && identity is None ==> r == Err::<DaemonConfig, ConfigError>(
                ConfigError::MissingIdentity,
            ),
            host is Some && identity is Some && !port_resolvable(port) ==> r == Err::<
                DaemonConfig,
                ConfigError,
            >(ConfigError::InvalidPort),
            host is Some && identity is Some && port_resolvable(port) && !interval_resolvable(
                interval,
            ) ==> r == Err::<DaemonConfig, ConfigError>(ConfigError::InvalidInterval),
    {
        let target = match CollectorTarget::resolve(host, identity, port) {
            Result::Ok(t) => t,
            Result::Err(e) => {
                return Err(e);
            },
        };
        let poll_interval_ms: u32 = match resolve_poll_interval(interval) {
            Result::Ok(ms) => ms,
            Result::Err(e) => {
                return Err(e);
            },
        };
        Ok(DaemonConfig { target, poll_interval_ms })
    }
}

/// Discrete oversampling levels a sensor channel can be sampled at.
#[derive(Debug, PartialEq, Eq, Structural, Clone, Copy)]
pub enum Oversampling {
    Skipped,
    X1,
    X2,
    X4,
    X8,
    X16,
}

/// Discrete window sizes of the sensor's IIR smoothing filter.
#[derive(Debug, PartialEq, Eq, Structural, Clone, Copy)]
pub enum FilterSize {
    Size0,
    Size1,
    Size3,
    Size7,
    Size15,
    Size31,
    Size63,
    Size127,
}

/// The sensor sampling configuration, computed once at startup and
/// reused unchanged for every forced measurement.
#[derive(Debug, PartialEq, Eq, Structural, Clone, Copy)]
pub struct SensorConfig {
    pub humidity_oversampling: Oversampling,
    pub pressure_oversampling: Oversampling,
    pub temperature_oversampling: Oversampling,
    pub temperature_filter: FilterSize,
    /// Gas-heater target duration, in milliseconds.
    pub gas_heater_duration_ms: u64,
    /// Gas-heater target temperature, in whole degrees Celsius.
    pub gas_heater_temperature_c: u16,
    /// Ambient temperature assumed for the heater, in whole degrees Celsius.
    pub gas_ambient_temperature_c: i8,
    /// Calibration offset applied to temperature, in hundredths of a
    /// degree Celsius.
    pub temperature_offset_centi: i64,
    /// Whether gas resistance is measured at all.
    pub run_gas: bool,
}

/// The number of internal measurement cycles an oversampling level
/// stands for.
pub open spec fn spec_meas_cycles(o: Oversampling) -> int {
    match o {
        Oversampling::Skipped => 0,
        Oversampling::X1 => 1,
        Oversampling::X2 => 2,
        Oversampling::X4 => 4,
        Oversampling::X8 => 8,
        Oversampling::X16 => 16,
    }
}

/// The profile duration of a configuration, in milliseconds: the
/// temperature, pressure and humidity conversion time implied by the
/// summed oversampling cycles (1963 us per cycle plus fixed setup and
/// wake-up overheads, rounded up to the next millisecond), plus the
/// gas-heater soak when gas measurement runs.
pub open spec fn spec_profile_duration_ms(c: SensorConfig) -> int {
    let cycles = spec_meas_cycles(c.temperature_oversampling) + spec_meas_cycles(
        c.pressure_oversampling,
    ) + spec_meas_cycles(c.humidity_oversampling);
    let tph_us = cycles * 1963 + 477 * 4 + 477 * 5 + 500;
    let tph_ms = tph_us / 1000 + 1;
    if c.run_gas {
        tph_ms + c.gas_heater_duration_ms
    } else {
        tph_ms
    }
}

fn meas_cycles(o: Oversampling) -> (n: u32)
    ensures
        n as int == spec_meas_cycles(o),
{
    match o {
        Oversampling::Skipped => 0,
        Oversampling::X1 => 1,
        Oversampling::X2 => 2,
        Oversampling::X4 => 4,
        Oversampling::X8 => 8,
        Oversampling::X16 => 16,
    }
}

impl SensorConfig {
    /// The minimum physical time one forced measurement under this
    /// configuration takes before the data registers are valid.
    pub fn profile_duration_ms(&self) -> (ms: u64)
        requires
            self.gas_heater_duration_ms <= u64::MAX - 100,
        ensures
            ms as int == spec_profile_duration_ms(*self),
    {
        let cycles: u32 = meas_cycles(self.temperature_oversampling) + meas_cycles(
            self.pressure_oversampling,
        ) + meas_cycles(self.humidity_oversampling);
        let tph_us: u32 = cycles * 1963 + 477 * 4 + 477 * 5 + 500;
        let tph_ms: u64 = (tph_us / 1000 + 1) as u64;
        if self.run_gas {
            tph_ms + self.gas_heater_duration_ms
        } else {
            tph_ms
        }
    }
}

/// The sampling configuration this daemon programs into the sensor.
pub open spec fn spec_daemon_sensor_config() -> SensorConfig {
    SensorConfig {
        humidity_oversampling: Oversampling::X2,
        pressure_oversampling: Oversampling::X4,
        temperature_oversampling: Oversampling::X8,
        temperature_filter: FilterSize::Size3,
        gas_heater_duration_ms: 1500,
        gas_heater_temperature_c: 320,
        gas_ambient_temperature_c: 25,
        temperature_offset_centi: -220i64,
        run_gas: true,
    }
}

/// Builds the one sampling configuration the daemon uses: moderate
/// oversampling on each channel, a small smoothing filter, a 1.5 s gas
/// heater soak at 320 °C from 25 °C ambient, and a -2.2 °C temperature
/// calibration offset.
pub fn daemon_sensor_config() -> (c: SensorConfig)
    ensures
        c == spec_daemon_sensor_config(),
{
    SensorConfig {
        humidity_oversampling: Oversampling::X2,
        pressure_oversampling: Oversampling::X4,
        temperature_oversampling: Oversampling::X8,
        temperature_filter: FilterSize::Size3,
        gas_heater_duration_ms: 1500,
        gas_heater_temperature_c: 320,
        gas_ambient_temperature_c: 25,
        temperature_offset_centi: -220,
        run_gas: true,
    }
}

} // verus!
