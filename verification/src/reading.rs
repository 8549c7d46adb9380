//! The immutable value object carrying the four physical quantities of
//! one sensor sample.

use vstd::prelude::*;

use crate::num::centi_chars;

verus! {

/// A physical quantity as a fixed-point decimal counted in hundredths
/// of its unit; 2250 stands for 22.50.
#[derive(Debug, Clone, Copy, PartialEq, Eq, Structural)]
pub struct Centi {
    pub hundredths: i64,
}

impl Centi {
    /// Every quantity this daemon handles stays clear of the one value
    /// whose magnitude has no `i64` counterpart.
    pub open spec fn wf(self) -> bool {
        self.hundredths > i64::MIN
    }

    /// The characters of this value's decimal textual representation.
    pub open spec fn chars(self) -> Seq<char> {
        centi_chars(self.hundredths as int)
    }

    pub fn new(hundredths: i64) -> (c: Centi)
        requires
            hundredths > i64::MIN,
        ensures
            c.hundredths == hundredths,
            c.wf(),
    {
        Centi { hundredths }
    }

    /// Renders the value as its decimal textual representation with
    /// trailing fractional zeros removed, e.g. "22.5", "45", "-2.2".
    pub fn render(&self) -> (r: String)
        requires
            self.wf(),
        ensures
            r@ == self.chars(),
    {
        crate::num::centi_string(self.hundredths)
    }
}

/// One validated sensor sample: all four quantities are populated
/// together or no `Reading` exists at all — a partial reading is not
/// representable.
#[derive(Debug, Clone, Copy, PartialEq, Eq, Structural)]
pub struct Reading {
    pub temperature_celsius: Centi,
    pub pressure_hpa: Centi,
    pub humidity_percent: Centi,
    pub gas_resistance_ohm: Centi,
}

impl Reading {
    pub open spec fn wf(self) -> bool {
        &&& self.temperature_celsius.wf()
        &&& self.pressure_hpa.wf()
        &&& self.humidity_percent.wf()
        &&& self.gas_resistance_ohm.wf()
    }

    pub fn new(
        temperature_celsius: Centi,
        pressure_hpa: Centi,
        humidity_percent: Centi,
        gas_resistance_ohm: Centi,
    ) -> (r: Reading)
        requires
            temperature_celsius.wf(),
            pressure_hpa.wf(),
            humidity_percent.wf(),
            gas_resistance_ohm.wf(),
        ensures
            r == (Reading { temperature_celsius, pressure_hpa, humidity_percent, gas_resistance_ohm }),
            r.wf(),
    {
        Reading { temperature_celsius, pressure_hpa, humidity_percent, gas_resistance_ohm }
    }
}

} // verus!
