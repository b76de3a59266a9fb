//! The value type for one sensor snapshot.

use vstd::prelude::*;

verus! {

/// One snapshot of sensor output: CO2 concentration in parts per million,
/// temperature and relative humidity.
///
/// Temperature and humidity are carried as fixed-point hundredths
/// (centi-degrees Celsius and centi-percent), so a snapshot is made of plain
/// integers end to end.  A snapshot is immutable once constructed and is
/// always replaced wholesale in the shared store, never field by field.
#[derive(Clone, Copy, PartialEq, Eq, Structural, Debug)]
pub struct Reading {
    pub co2_ppm: u16,
    pub temperature_centi: i32,
    pub humidity_centi: i32,
}

impl Reading {
    /// The all-zero startup value.  The store holds it until the first
    /// successful poll, and handlers may legitimately serve it during that
    /// startup transient.
    pub open spec fn spec_sentinel() -> Reading {
        Reading { co2_ppm: 0, temperature_centi: 0, humidity_centi: 0 }
    }

    /// Builds the all-zero startup value.
    pub fn sentinel() -> (r: Reading)
        ensures
            r == Reading::spec_sentinel(),
    {
        Reading { co2_ppm: 0, temperature_centi: 0, humidity_centi: 0 }
    }

    /// Builds a snapshot from its three field values.
    pub fn new(co2_ppm: u16, temperature_centi: i32, humidity_centi: i32) -> (r: Reading)
        ensures
            r == (Reading { co2_ppm, temperature_centi, humidity_centi }),
    {
        Reading { co2_ppm, temperature_centi, humidity_centi }
    }
}

} // verus!
