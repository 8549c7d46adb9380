//! The sensor session: it owns the sampling configuration and the
//! per-cycle measurement protocol `Idle -> Measuring -> DataReady ->
//! Idle`. The driver outside the library commands the device and hands
//! back what the bus returned; every decision — how long to wait, and
//! whether a register read may become a `Reading` — is made and
//! verified here.

use vstd::prelude::*;

use crate::config::SensorConfig;
use crate::reading::{Centi, Reading};

verus! {

/// Why one measurement cycle produced no `Reading`. Both causes are
/// recoverable: the next cycle is attempted regardless.
#[derive(Debug, Clone, Copy, PartialEq, Eq, Structural)]
pub enum MeasurementError {
    /// The bus read of the data registers failed.
    BusRead,
    /// The device did not flag the registers as fresh: returning them
    /// would replay the previous cycle's values.
    StaleData,
}

/// What the driver read back from the device's data registers: the four
/// compensated quantities and the device's "new data" flag.
#[derive(Debug, Clone, Copy, PartialEq, Eq, Structural)]
pub struct RawSample {
    pub temperature_celsius: Centi,
    pub pressure_hpa: Centi,
    pub humidity_percent: Centi,
    pub gas_resistance_ohm: Centi,
    /// Whether the device reports these registers as a fresh
    /// measurement rather than leftovers of an earlier one.
    pub fresh: bool,
}

impl RawSample {
    pub open spec fn wf(self) -> bool {
        &&& self.temperature_celsius.wf()
        &&& self.pressure_hpa.wf()
        &&& self.humidity_percent.wf()
        &&& self.gas_resistance_ohm.wf()
    }
}

/// The measurement protocol phase within one cycle.
#[derive(Debug, Clone, Copy, PartialEq, Eq, Structural)]
pub enum SessionPhase {
    /// No measurement in flight.
    Idle,
    /// The device was commanded into forced mode; the physical
    /// measurement is running and the settling time has not elapsed.
    Measuring,
    /// The settling time has elapsed; the data registers may be read.
    DataReady,
}

/// One sensor session: the sampling configuration, the settling time the
/// device needs per forced measurement, and the protocol phase.
/// Configuration and settling time never change after construction.
pub struct SensorSession {
    pub config: SensorConfig,
    /// Minimum physical time one forced measurement takes, in
    /// milliseconds; the data registers are not valid earlier.
    pub profile_duration_ms: u64,
    pub phase: SessionPhase,
}

impl SensorSession {
    /// Opens a session over a device configured with `config`; the
    /// settling time is the configuration's profile duration.
    pub fn new(config: SensorConfig) -> (s: SensorSession)
        requires
            config.gas_heater_duration_ms <= u64::MAX - 100,
        ensures
            s.config == config,
            s.profile_duration_ms as int == crate::config::spec_profile_duration_ms(config),
            s.phase is Idle,
    {
        let profile_duration_ms: u64 = config.profile_duration_ms();
        SensorSession { config, profile_duration_ms, phase: SessionPhase::Idle }
    }

    /// Starts one forced (single-shot) measurement: the driver must now
    /// command forced power mode and then wait the returned number of
    /// milliseconds before reading the data registers — the physical
    /// measurement cannot complete faster.
    pub fn begin_measurement(&mut self) -> (wait_ms: u64)
        requires
            old(self).phase is Idle,
        ensures
            final(self).phase is Measuring,
            final(self).config == old(self).config,
            final(self).profile_duration_ms == old(self).profile_duration_ms,
            wait_ms == old(self).profile_duration_ms,
    {
        self.phase = SessionPhase::Measuring;
        self.profile_duration_ms
    }

    /// The timer gate of the protocol: the settling wait has elapsed, so
    /// the data registers may now be read.
    pub fn settling_elapsed(&mut self)
        requires
            old(self).phase is Measuring,
        ensures
            final(self).phase is DataReady,
            final(self).config == old(self).config,
            final(self).profile_duration_ms == old(self).profile_duration_ms,
    {
        self.phase = SessionPhase::DataReady;
    }

    /// Ends the cycle with what the driver read back; `raw` is `None`
    /// when the bus read itself failed. A `Reading` is produced exactly
    /// when the read succeeded and the device flagged the registers as
    /// fresh; a stale or failed read never yields a `Reading`, and the
    /// session returns to idle either way.
    pub fn complete_measurement(&mut self, raw: Option<RawSample>) -> (r: Result<
        Reading,
        MeasurementError,
    >)
        requires
            old(self).phase is DataReady,
            raw matches Some(s) ==> s.wf(),
        ensures
            final(self).phase is Idle,
            final(self).config == old(self).config,
            final(self).profile_duration_ms == old(self).profile_duration_ms,
            r is Ok <==> (raw matches Some(s) && s.fresh),
            (match raw {
                Option::None => r == Err::<Reading, MeasurementError>(MeasurementError::BusRead),
                Option::Some(s) => if s.fresh {
                    r == Ok::<Reading, MeasurementError>(
                        Reading {
                            temperature_celsius: s.temperature_celsius,
                            pressure_hpa: s.pressure_hpa,
                            humidity_percent: s.humidity_percent,
                            gas_resistance_ohm: s.gas_resistance_ohm,
                        },
                    )
                } else {
                    r == Err::<Reading, MeasurementError>(MeasurementError::StaleData)
                },
            }),
            r matches Ok(reading) ==> reading.wf(),
    {
        self.phase = SessionPhase::Idle;
        match raw {
            Option::None => Err(MeasurementError::BusRead),
            Option::Some(s) => {
                if s.fresh {
                    Ok(
                        Reading {
                            temperature_celsius: s.temperature_celsius,
                            pressure_hpa: s.pressure_hpa,
                            humidity_percent: s.humidity_percent,
                            gas_resistance_ohm: s.gas_resistance_ohm,
                        },
                    )
                } else {
                    Err(MeasurementError::StaleData)
                }
            },
        }
    }
}

} // verus!
