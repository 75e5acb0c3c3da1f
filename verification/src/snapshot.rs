//! What one telegram reports, as plain numbers.
//!
//! A meter sends its measurements as decimals with a fixed number of places.
//! They are held here as whole thousandths of the unit they are sent in, so
//! that nothing is rounded on the way to the instruments. Counts are counts.

use vstd::prelude::*;

verus! {

/// The energy registers of one tariff, in thousandths of a kilowatt-hour.
#[derive(Debug, Clone, Copy, PartialEq, Eq)]
pub struct MeterReading {
    /// Energy delivered to the client.
    pub to: Option<u32>,
    /// Energy delivered by the client.
    pub by: Option<u32>,
}

/// The readings of one phase.
#[derive(Debug, Clone, Copy, PartialEq, Eq)]
pub struct Line {
    pub voltage_sags: Option<u64>,
    pub voltage_swells: Option<u64>,
    /// Thousandths of a volt.
    pub voltage: Option<u32>,
    /// Whole amperes.
    pub current: Option<u32>,
    /// Thousandths of a kilowatt.
    pub active_power_plus: Option<u32>,
    /// Thousandths of a kilowatt.
    pub active_power_neg: Option<u32>,
}

/// A meter attached to the main one.
#[derive(Debug, Clone, Copy, PartialEq, Eq)]
pub struct Slave {
    pub device_type: Option<u64>,
    /// The cumulative reading, in thousandths of the sub-device's unit.
    pub meter_reading: Option<u32>,
}

/// The state a telegram reports. Any field may be missing from a telegram.
#[derive(Debug, Clone, PartialEq, Eq)]
pub struct Snapshot {
    /// One entry per tariff, the first for tariff 1.
    pub meterreadings: Vec<MeterReading>,
    /// The active tariff as the meter sends it: two bytes, high byte first.
    pub tariff_indicator: Option<[u8; 2]>,
    /// Thousandths of a kilowatt.
    pub power_delivered: Option<u32>,
    /// Thousandths of a kilowatt.
    pub power_received: Option<u32>,
    pub power_failures: Option<u64>,
    pub long_power_failures: Option<u64>,
    /// One entry per phase, the first for phase 1.
    pub lines: Vec<Line>,
    pub slaves: Vec<Slave>,
}

impl MeterReading {
    /// A tariff of which the telegram says nothing.
    pub fn empty() -> (r: Self)
        ensures
            r == (MeterReading { to: None, by: None }),
    {
        MeterReading { to: None, by: None }
    }
}

impl Line {
    /// A phase of which the telegram says nothing.
    pub fn empty() -> (r: Self)
        ensures
            r == (Line {
                voltage_sags: None,
                voltage_swells: None,
                voltage: None,
                current: None,
                active_power_plus: None,
                active_power_neg: None,
            }),
    {
        Line {
            voltage_sags: None,
            voltage_swells: None,
            voltage: None,
            current: None,
            active_power_plus: None,
            active_power_neg: None,
        }
    }
}

impl Snapshot {
    /// The snapshot of a telegram that reports nothing.
    pub fn empty() -> (r: Self)
        ensures
            r.meterreadings@.len() == 0,
            r.tariff_indicator is None,
            r.power_delivered is None,
            r.power_received is None,
            r.power_failures is None,
            r.long_power_failures is None,
            r.lines@.len() == 0,
            r.slaves@.len() == 0,
    {
        Snapshot {
            meterreadings: Vec::new(),
            tariff_indicator: None,
            power_delivered: None,
            power_received: None,
            power_failures: None,
            long_power_failures: None,
            lines: Vec::new(),
            slaves: Vec::new(),
        }
    }
}

} // verus!
