//! The metric store: every instrument that is exported, and the rules by
//! which a snapshot moves them.
//!
//! A meter reports absolute values. A counter is therefore not added to: it
//! is raised to the value reported, and a report below what the counter
//! already holds leaves it where it is. A counter never falls, and a report
//! that repeats the last one changes nothing. A gauge takes whatever is
//! reported.
//!
//! Instruments that count whole things hold that count. All others hold
//! thousandths of the unit in their name, so `power_delivered_watts` holds
//! `1_500_000` for a load of 1.5 kW.
//!
//! Time is a count of milliseconds from an origin that the caller picks and
//! keeps.

use crate::instruments::{Instrument, Kind};
use crate::snapshot::{Line, MeterReading, Slave, Snapshot};
use vstd::prelude::*;

verus! {

/// For how many milliseconds after an update the store counts as fresh.
pub const METRICS_TTL: u64 = 10_000;

/// Thousandths of a joule in a thousandth of a kilowatt-hour.
pub const JOULES_PER_KWH: u64 = 3_600_000;

/// Thousandths of a watt in a thousandth of a kilowatt.
pub const WATTS_PER_KW: u64 = 1000;

/// Thousandths in a whole.
pub const THOUSANDTHS: u64 = 1000;

/// The device type by which a gas meter announces itself.
pub const GAS_DEVICE_TYPE: u64 = 3;

/// The instruments of one tariff. `None` until a telegram reports a value.
#[derive(Debug, Clone, Copy, PartialEq, Eq)]
pub struct TariffSeries {
    pub energy_delivered_joules_total: Option<u64>,
    pub energy_received_joules_total: Option<u64>,
}

/// The instruments of one phase. `None` until a telegram reports a value.
#[derive(Debug, Clone, Copy, PartialEq, Eq)]
pub struct PhaseSeries {
    pub phase_voltage_sags_total: Option<u64>,
    pub phase_voltage_swells_total: Option<u64>,
    pub phase_voltage_volts: Option<u64>,
    pub phase_current_amperes: Option<u64>,
    pub phase_active_power_positive_watts: Option<u64>,
    pub phase_active_power_negative_watts: Option<u64>,
}

/// The store.
pub struct Metrics {
    /// When the last snapshot was applied; `None` before the first.
    pub last_update: Option<u64>,
    tariffs: Vec<TariffSeries>,
    energy_tariff: u64,
    power_delivered_watts: u64,
    power_received_watts: u64,
    power_failures_total: u64,
    power_long_failures_total: u64,
    phases: Vec<PhaseSeries>,
    gas_delivered_cubic_meters_total: u64,
}

/// What the store holds. Entry `i` of `tariffs` and of `phases` belongs to
/// the label `i + 1`.
pub struct MetricsView {
    pub last_update: Option<u64>,
    pub tariffs: Seq<TariffSeries>,
    pub energy_tariff: u64,
    pub power_delivered_watts: u64,
    pub power_received_watts: u64,
    pub power_failures_total: u64,
    pub power_long_failures_total: u64,
    pub phases: Seq<PhaseSeries>,
    pub gas_delivered_cubic_meters_total: u64,
}

impl View for Metrics {
    type V = MetricsView;

    closed spec fn view(&self) -> MetricsView {
        MetricsView {
            last_update: self.last_update,
            tariffs: self.tariffs@,
            energy_tariff: self.energy_tariff,
            power_delivered_watts: self.power_delivered_watts,
            power_received_watts: self.power_received_watts,
            power_failures_total: self.power_failures_total,
            power_long_failures_total: self.power_long_failures_total,
            phases: self.phases@,
            gas_delivered_cubic_meters_total: self.gas_delivered_cubic_meters_total,
        }
    }
}

/// A tariff of which no telegram has said anything yet.
pub open spec fn no_tariff_series() -> TariffSeries {
    TariffSeries { energy_delivered_joules_total: None, energy_received_joules_total: None }
}

/// A phase of which no telegram has said anything yet.
pub open spec fn no_phase_series() -> PhaseSeries {
    PhaseSeries {
        phase_voltage_sags_total: None,
        phase_voltage_swells_total: None,
        phase_voltage_volts: None,
        phase_current_amperes: None,
        phase_active_power_positive_watts: None,
        phase_active_power_negative_watts: None,
    }
}

/// The store before the first telegram.
pub open spec fn initial() -> MetricsView {
    MetricsView {
        last_update: None,
        tariffs: Seq::empty(),
        energy_tariff: 0,
        power_delivered_watts: 0,
        power_received_watts: 0,
        power_failures_total: 0,
        power_long_failures_total: 0,
        phases: Seq::empty(),
        gas_delivered_cubic_meters_total: 0,
    }
}

/// A reading in the instrument's unit: `factor` times what was reported.
pub open spec fn scaled(reading: Option<u32>, factor: u64) -> Option<u64> {
    match reading {
        None => None,
        Some(v) => Some((v * factor) as u64),
    }
}

/// The rule for a counter: raised to the reading, never lowered.
pub open spec fn raised(before: u64, reading: Option<u64>) -> u64 {
    match reading {
        None => before,
        Some(v) => if v > before {
            v
        } else {
            before
        },
    }
}

/// The rule for a gauge: the reading, if there is one.
pub open spec fn moved(before: u64, reading: Option<u64>) -> u64 {
    match reading {
        None => before,
        Some(v) => v,
    }
}

/// The counter rule for a labelled instrument, which starts at zero with its
/// first reading.
pub open spec fn series_raised(before: Option<u64>, reading: Option<u64>) -> Option<u64> {
    match reading {
        None => before,
        Some(v) => Some(
            raised(
                match before {
                    None => 0,
                    Some(b) => b,
                },
                reading,
            ),
        ),
    }
}

/// The gauge rule for a labelled instrument.
pub open spec fn series_moved(before: Option<u64>, reading: Option<u64>) -> Option<u64> {
    match reading {
        None => before,
        Some(v) => reading,
    }
}

/// One tariff's instruments after its registers were read.
pub open spec fn tariff_applied(before: TariffSeries, reading: MeterReading) -> TariffSeries {
    TariffSeries {
        energy_delivered_joules_total: series_raised(
            before.energy_delivered_joules_total,
            scaled(reading.to, JOULES_PER_KWH),
        ),
        energy_received_joules_total: series_raised(
            before.energy_received_joules_total,
            scaled(reading.by, JOULES_PER_KWH),
        ),
    }
}

/// One phase's instruments after the phase was read.
pub open spec fn phase_applied(before: PhaseSeries, line: Line) -> PhaseSeries {
    PhaseSeries {
        phase_voltage_sags_total: series_raised(before.phase_voltage_sags_total, line.voltage_sags),
        phase_voltage_swells_total: series_raised(
            before.phase_voltage_swells_total,
            line.voltage_swells,
        ),
        phase_voltage_volts: series_moved(before.phase_voltage_volts, scaled(line.voltage, 1)),
        phase_current_amperes: series_moved(
            before.phase_current_amperes,
            scaled(line.current, THOUSANDTHS),
        ),
        phase_active_power_positive_watts: series_moved(
            before.phase_active_power_positive_watts,
            scaled(line.active_power_plus, WATTS_PER_KW),
        ),
        phase_active_power_negative_watts: series_moved(
            before.phase_active_power_negative_watts,
            scaled(line.active_power_neg, WATTS_PER_KW),
        ),
    }
}

/// The larger of two lengths.
pub open spec fn longer(a: nat, b: nat) -> nat {
    if a >= b {
        a
    } else {
        b
    }
}

/// All tariffs after a telegram's registers were read. A tariff that the
/// telegram does not list stays as it is; one that the store did not know
/// joins it.
pub open spec fn tariffs_applied(before: Seq<TariffSeries>, readings: Seq<MeterReading>) -> Seq<
    TariffSeries,
> {
    Seq::new(
        longer(before.len(), readings.len()),
        |i: int|
            {
                let known = if i < before.len() {
                    before[i]
                } else {
                    no_tariff_series()
                };
                if i < readings.len() {
                    tariff_applied(known, readings[i])
                } else {
                    known
                }
            },
    )
}

/// All phases after a telegram's phases were read.
pub open spec fn phases_applied(before: Seq<PhaseSeries>, lines: Seq<Line>) -> Seq<PhaseSeries> {
    Seq::new(
        longer(before.len(), lines.len()),
        |i: int|
            {
                let known = if i < before.len() {
                    before[i]
                } else {
                    no_phase_series()
                };
                if i < lines.len() {
                    phase_applied(known, lines[i])
                } else {
                    known
                }
            },
    )
}

/// The reading of the gas meter: that of the first sub-device that
/// announces itself as one.
pub open spec fn gas_reading(slaves: Seq<Slave>) -> Option<u32>
    decreases slaves.len(),
{
    if slaves.len() == 0 {
        None
    } else if slaves[0].device_type == Some(GAS_DEVICE_TYPE) {
        slaves[0].meter_reading
    } else {
        gas_reading(slaves.skip(1))
    }
}

/// The active tariff as a number: the two bytes read high byte first.
pub open spec fn tariff_number(indicator: [u8; 2]) -> u64 {
    (indicator[0] * 256 + indicator[1]) as u64
}

/// The store after `snapshot` was applied at time `now`.
pub open spec fn applied(before: MetricsView, snapshot: Snapshot, now: u64) -> MetricsView {
    MetricsView {
        last_update: Some(now),
        tariffs: tariffs_applied(before.tariffs, snapshot.meterreadings@),
        energy_tariff: match snapshot.tariff_indicator {
            None => before.energy_tariff,
            Some(indicator) => tariff_number(indicator),
        },
        power_delivered_watts: moved(
            before.power_delivered_watts,
            scaled(snapshot.power_delivered, WATTS_PER_KW),
        ),
        power_received_watts: moved(
            before.power_received_watts,
            scaled(snapshot.power_received, WATTS_PER_KW),
        ),
        power_failures_total: raised(before.power_failures_total, snapshot.power_failures),
        power_long_failures_total: raised(
            before.power_long_failures_total,
            snapshot.long_power_failures,
        ),
        phases: phases_applied(before.phases, snapshot.lines@),
        gas_delivered_cubic_meters_total: raised(
            before.gas_delivered_cubic_meters_total,
            scaled(gas_reading(snapshot.slaves@), 1),
        ),
    }
}

/// Whether a store last updated at `last_update` is fresh at `now`: it was
/// updated, and no more than `METRICS_TTL` milliseconds have passed since.
/// At a time before the update none have passed.
pub open spec fn fresh(last_update: Option<u64>, now: u64) -> bool {
    match last_update {
        None => false,
        Some(at) => now - at <= METRICS_TTL,
    }
}

/// The series of label `label` in a labelled instrument's list.
pub open spec fn labelled<T>(series: Seq<T>, label: int) -> Option<T> {
    if 1 <= label <= series.len() {
        Some(series[label - 1])
    } else {
        None
    }
}

/// The series that `label` picks from a labelled instrument's list: none
/// without a label.
pub open spec fn picked<T>(series: Seq<T>, label: Option<int>) -> Option<T> {
    match label {
        None => None,
        Some(l) => labelled(series, l),
    }
}

/// The one series of an instrument without labels: none under a label.
pub open spec fn single(value: u64, label: Option<int>) -> Option<u64> {
    match label {
        None => Some(value),
        Some(_) => None,
    }
}

/// What an instrument holds in the series with this label: what a scrape
/// shows of it. `None` where the instrument has no such series.
pub open spec fn reading(view: MetricsView, instrument: Instrument, label: Option<int>) -> Option<
    u64,
> {
    match instrument {
        Instrument::EnergyDeliveredJoulesTotal => match picked(view.tariffs, label) {
            Some(series) => series.energy_delivered_joules_total,
            None => None,
        },
        Instrument::EnergyReceivedJoulesTotal => match picked(view.tariffs, label) {
            Some(series) => series.energy_received_joules_total,
            None => None,
        },
        Instrument::EnergyTariff => single(view.energy_tariff, label),
        Instrument::PowerDeliveredWatts => single(view.power_delivered_watts, label),
        Instrument::PowerReceivedWatts => single(view.power_received_watts, label),
        Instrument::PowerFailuresTotal => single(view.power_failures_total, label),
        Instrument::PowerLongFailuresTotal => single(view.power_long_failures_total, label),
        Instrument::PhaseVoltageSagsTotal => match picked(view.phases, label) {
            Some(series) => series.phase_voltage_sags_total,
            None => None,
        },
        Instrument::PhaseVoltageSwellsTotal => match picked(view.phases, label) {
            Some(series) => series.phase_voltage_swells_total,
            None => None,
        },
        Instrument::PhaseVoltageVolts => match picked(view.phases, label) {
            Some(series) => series.phase_voltage_volts,
            None => None,
        },
        Instrument::PhaseCurrentAmperes => match picked(view.phases, label) {
            Some(series) => series.phase_current_amperes,
            None => None,
        },
        Instrument::PhaseActivePowerPositiveWatts => match picked(view.phases, label) {
            Some(series) => series.phase_active_power_positive_watts,
            None => None,
        },
        Instrument::PhaseActivePowerNegativeWatts => match picked(view.phases, label) {
            Some(series) => series.phase_active_power_negative_watts,
            None => None,
        },
        Instrument::GasDeliveredCubicMetersTotal => single(
            view.gas_delivered_cubic_meters_total,
            label,
        ),
    }
}

/// The label as the specifications count it.
pub open spec fn label_number(label: Option<usize>) -> Option<int> {
    match label {
        None => None,
        Some(l) => Some(l as int),
    }
}

fn scale(reading: Option<u32>, factor: u64) -> (r: Option<u64>)
    requires
        factor <= JOULES_PER_KWH,
    ensures
        r == scaled(reading, factor),
{
    match reading {
        None => None,
        Some(v) => {
            assert(v * factor <= 0xffff_ffff * 3_600_000) by (nonlinear_arith)
                requires
                    v <= 0xffff_ffff,
                    factor <= 3_600_000,
            ;
            Some(v as u64 * factor)
        },
    }
}

fn raise(before: u64, reading: Option<u64>) -> (r: u64)
    ensures
        r == raised(before, reading),
{
    match reading {
        None => before,
        Some(v) => if v > before {
            v
        } else {
            before
        },
    }
}

fn raise_series(before: Option<u64>, reading: Option<u64>) -> (r: Option<u64>)
    ensures
        r == series_raised(before, reading),
{
    match reading {
        None => before,
        Some(_) => {
            let held: u64 = match before {
                None => 0,
                Some(b) => b,
            };
            Some(raise(held, reading))
        },
    }
}

fn move_series(before: Option<u64>, reading: Option<u64>) -> (r: Option<u64>)
    ensures
        r == series_moved(before, reading),
{
    match reading {
        None => before,
        Some(_) => reading,
    }
}

fn apply_tariff(before: TariffSeries, reading: &MeterReading) -> (r: TariffSeries)
    ensures
        r == tariff_applied(before, *reading),
{
    TariffSeries {
        energy_delivered_joules_total: raise_series(
            before.energy_delivered_joules_total,
            scale(reading.to, JOULES_PER_KWH),
        ),
        energy_received_joules_total: raise_series(
            before.energy_received_joules_total,
            scale(reading.by, JOULES_PER_KWH),
        ),
    }
}

fn apply_phase(before: PhaseSeries, line: &Line) -> (r: PhaseSeries)
    ensures
        r == phase_applied(before, *line),
{
    PhaseSeries {
        phase_voltage_sags_total: raise_series(before.phase_voltage_sags_total, line.voltage_sags),
        phase_voltage_swells_total: raise_series(
            before.phase_voltage_swells_total,
            line.voltage_swells,
        ),
        phase_voltage_volts: move_series(before.phase_voltage_volts, scale(line.voltage, 1)),
        phase_current_amperes: move_series(
            before.phase_current_amperes,
            scale(line.current, THOUSANDTHS),
        ),
        phase_active_power_positive_watts: move_series(
            before.phase_active_power_positive_watts,
            scale(line.active_power_plus, WATTS_PER_KW),
        ),
        phase_active_power_negative_watts: move_series(
            before.phase_active_power_negative_watts,
            scale(line.active_power_neg, WATTS_PER_KW),
        ),
    }
}

fn apply_tariffs(tariffs: &mut Vec<TariffSeries>, readings: &Vec<MeterReading>)
    ensures
        final(tariffs)@ == tariffs_applied(old(tariffs)@, readings@),
{
    let mut i: usize = 0;
    assert(tariffs@ =~= tariffs_applied(old(tariffs)@, readings@.take(0)));
    while i < readings.len()
        invariant
            i <= readings.len(),
            tariffs@ == tariffs_applied(old(tariffs)@, readings@.take(i as int)),
        decreases readings.len() - i,
    {
        if tariffs.len() <= i {
            tariffs.push(
                TariffSeries {
                    energy_delivered_joules_total: None,
                    energy_received_joules_total: None,
                },
            );
        }
        let before = tariffs[i];
        tariffs.set(i, apply_tariff(before, &readings[i]));
        i += 1;
        assert(tariffs@ =~= tariffs_applied(old(tariffs)@, readings@.take(i as int)));
    }
    assert(readings@.take(i as int) =~= readings@);
}

fn apply_phases(phases: &mut Vec<PhaseSeries>, lines: &Vec<Line>)
    ensures
        final(phases)@ == phases_applied(old(phases)@, lines@),
{
    let mut i: usize = 0;
    assert(phases@ =~= phases_applied(old(phases)@, lines@.take(0)));
    while i < lines.len()
        invariant
            i <= lines.len(),
            phases@ == phases_applied(old(phases)@, lines@.take(i as int)),
        decreases lines.len() - i,
    {
        if phases.len() <= i {
            phases.push(
                PhaseSeries {
                    phase_voltage_sags_total: None,
                    phase_voltage_swells_total: None,
                    phase_voltage_volts: None,
                    phase_current_amperes: None,
                    phase_active_power_positive_watts: None,
                    phase_active_power_negative_watts: None,
                },
            );
        }
        let before = phases[i];
        phases.set(i, apply_phase(before, &lines[i]));
        i += 1;
        assert(phases@ =~= phases_applied(old(phases)@, lines@.take(i as int)));
    }
    assert(lines@.take(i as int) =~= lines@);
}

/// What has to be added to a counter that holds `held` to bring it to
/// `target`: the difference, or nothing where the counter is not behind.
pub fn increment(held: u64, target: u64) -> (add: u64)
    ensures
        held + add == raised(held, Some(target)),
{
    if target > held {
        target - held
    } else {
        0
    }
}

/// The reading of the first sub-device that announces itself as a gas meter.
pub fn find_gas_reading(slaves: &Vec<Slave>) -> (r: Option<u32>)
    ensures
        r == gas_reading(slaves@),
{
    let mut i: usize = 0;
    assert(slaves@.skip(0) =~= slaves@);
    while i < slaves.len()
        invariant
            i <= slaves.len(),
            gas_reading(slaves@) == gas_reading(slaves@.skip(i as int)),
        decreases slaves.len() - i,
    {
        let slave = &slaves[i];
        assert(slaves@.skip(i as int)[0] == slaves@[i as int]);
        assert(slaves@.skip(i as int).skip(1) =~= slaves@.skip(i + 1));
        match slave.device_type {
            Some(device) => {
                if device == GAS_DEVICE_TYPE {
                    return slave.meter_reading;
                }
            },
            None => {},
        }
        i += 1;
    }
    None
}

impl Metrics {
    /// The store before the first telegram: counters and gauges at zero, no
    /// tariff or phase known, never updated.
    pub fn new() -> (metrics: Self)
        ensures
            metrics@ == initial(),
    {
        Metrics {
            last_update: None,
            tariffs: Vec::new(),
            energy_tariff: 0,
            power_delivered_watts: 0,
            power_received_watts: 0,
            power_failures_total: 0,
            power_long_failures_total: 0,
            phases: Vec::new(),
            gas_delivered_cubic_meters_total: 0,
        }
    }

    /// Applies what a telegram reports, at time `now`.
    ///
    /// Counters are raised to the value reported and never lowered; gauges
    /// take the value reported; a field that the telegram lacks leaves its
    /// instrument as it is. The store is fresh from `now` on.
    pub fn update(&mut self, snapshot: &Snapshot, now: u64)
        ensures
            final(self)@ == applied(old(self)@, *snapshot, now),
    {
        apply_tariffs(&mut self.tariffs, &snapshot.meterreadings);
        match snapshot.tariff_indicator {
            Some(indicator) => {
                self.energy_tariff = indicator[0] as u64 * 256 + indicator[1] as u64;
            },
            None => {},
        }
        self.power_delivered_watts =
        match scale(snapshot.power_delivered, WATTS_PER_KW) {
            Some(v) => v,
            None => self.power_delivered_watts,
        };
        self.power_received_watts =
        match scale(snapshot.power_received, WATTS_PER_KW) {
            Some(v) => v,
            None => self.power_received_watts,
        };
        self.power_failures_total = raise(self.power_failures_total, snapshot.power_failures);
        self.power_long_failures_total =
        raise(self.power_long_failures_total, snapshot.long_power_failures);
        apply_phases(&mut self.phases, &snapshot.lines);
        self.gas_delivered_cubic_meters_total =
        raise(
            self.gas_delivered_cubic_meters_total,
            scale(find_gas_reading(&snapshot.slaves), 1),
        );
        self.last_update = Some(now);
    }

    /// Whether the store may be served at time `now`.
    pub fn is_fresh(&self, now: u64) -> (r: bool)
        ensures
            r == fresh(self@.last_update, now),
    {
        match self.last_update {
            None => false,
            Some(at) => now <= at || now - at <= METRICS_TTL,
        }
    }

    /// The answer to a scrape at time `now`, given the outcome of encoding
    /// the instruments: an empty body while the store is not fresh, whatever
    /// the encoding gave; else the encoded text, or the encoder's failure.
    pub fn scrape<E>(&self, now: u64, encoded: Result<String, E>) -> (r: Result<String, E>)
        ensures
            fresh(self@.last_update, now) ==> r == encoded,
            !fresh(self@.last_update, now) ==> (r matches Ok(body) && body@.len() == 0),
    {
        if self.is_fresh(now) {
            encoded
        } else {
            Ok(String::new())
        }
    }

    /// How many tariffs the store knows: the labels `1` to this number.
    pub fn tariff_count(&self) -> (n: usize)
        ensures
            n == self@.tariffs.len(),
    {
        self.tariffs.len()
    }

    /// The instruments of the tariff with this label.
    pub fn tariff(&self, label: usize) -> (r: Option<TariffSeries>)
        ensures
            r == labelled(self@.tariffs, label as int),
    {
        if 1 <= label && label <= self.tariffs.len() {
            Some(self.tariffs[label - 1])
        } else {
            None
        }
    }

    /// How many phases the store knows: the labels `1` to this number.
    pub fn phase_count(&self) -> (n: usize)
        ensures
            n == self@.phases.len(),
    {
        self.phases.len()
    }

    /// The instruments of the phase with this label.
    pub fn phase(&self, label: usize) -> (r: Option<PhaseSeries>)
        ensures
            r == labelled(self@.phases, label as int),
    {
        if 1 <= label && label <= self.phases.len() {
            Some(self.phases[label - 1])
        } else {
            None
        }
    }

    /// What an instrument holds in the series with this label, or without
    /// a label: what a scrape shows of it.
    pub fn read(&self, instrument: Instrument, label: Option<usize>) -> (r: Option<u64>)
        ensures
            r == reading(self@, instrument, label_number(label)),
    {
        let tariff = match label {
            Some(l) => self.tariff(l),
            None => None,
        };
        let phase = match label {
            Some(l) => self.phase(l),
            None => None,
        };
        let unlabelled = label.is_none();
        match instrument {
            Instrument::EnergyDeliveredJoulesTotal => match tariff {
                Some(series) => series.energy_delivered_joules_total,
                None => None,
            },
            Instrument::EnergyReceivedJoulesTotal => match tariff {
                Some(series) => series.energy_received_joules_total,
                None => None,
            },
            Instrument::EnergyTariff => if unlabelled {
                Some(self.energy_tariff)
            } else {
                None
            },
            Instrument::PowerDeliveredWatts => if unlabelled {
                Some(self.power_delivered_watts)
            } else {
                None
            },
            Instrument::PowerReceivedWatts => if unlabelled {
                Some(self.power_received_watts)
            } else {
                None
            },
            Instrument::PowerFailuresTotal => if unlabelled {
                Some(self.power_failures_total)
            } else {
                None
            },
            Instrument::PowerLongFailuresTotal => if unlabelled {
                Some(self.power_long_failures_total)
            } else {
                None
            },
            Instrument::PhaseVoltageSagsTotal => match phase {
                Some(series) => series.phase_voltage_sags_total,
                None => None,
            },
            Instrument::PhaseVoltageSwellsTotal => match phase {
                Some(series) => series.phase_voltage_swells_total,
                None => None,
            },
            Instrument::PhaseVoltageVolts => match phase {
                Some(series) => series.phase_voltage_volts,
                None => None,
            },
            Instrument::PhaseCurrentAmperes => match phase {
                Some(series) => series.phase_current_amperes,
                None => None,
            },
            Instrument::PhaseActivePowerPositiveWatts => match phase {
                Some(series) => series.phase_active_power_positive_watts,
                None => None,
            },
            Instrument::PhaseActivePowerNegativeWatts => match phase {
                Some(series) => series.phase_active_power_negative_watts,
                None => None,
            },
            Instrument::GasDeliveredCubicMetersTotal => if unlabelled {
                Some(self.gas_delivered_cubic_meters_total)
            } else {
                None
            },
        }
    }
}

/// A labelled counter holds at least what it held before.
pub open spec fn series_at_least(after: Option<u64>, before: Option<u64>) -> bool {
    match before {
        None => true,
        Some(b) => after matches Some(a) && a >= b,
    }
}

/// Every series of every counter holds in `after` at least what it holds in
/// `before`, and none that `before` shows is missing from `after`.
pub open spec fn counters_at_least(after: MetricsView, before: MetricsView) -> bool {
    forall|instrument: Instrument, label: Option<int>|
        instrument.kind_of() == Kind::Counter ==> series_at_least(
            #[trigger] reading(after, instrument, label),
            reading(before, instrument, label),
        )
}

/// A snapshot and the time at which it is applied.
pub struct Report {
    pub snapshot: Snapshot,
    pub at: u64,
}

/// The store after each of `reports` was applied, first to last.
pub open spec fn applied_all(before: MetricsView, reports: Seq<Report>) -> MetricsView
    decreases reports.len(),
{
    if reports.len() == 0 {
        before
    } else {
        applied_all(applied(before, reports[0].snapshot, reports[0].at), reports.skip(1))
    }
}

/// The instruments of `a` and `b` hold the same values; the two may differ
/// in when they were last updated.
pub open spec fn same_values(a: MetricsView, b: MetricsView) -> bool {
    a == (MetricsView { last_update: a.last_update, ..b })
}

/// No snapshot lowers a counter, whatever it reports: a value below what a
/// counter holds is not applied.
pub proof fn lemma_counters_never_fall(before: MetricsView, snapshot: Snapshot, now: u64)
    ensures
        counters_at_least(applied(before, snapshot, now), before),
{
    let after = applied(before, snapshot, now);
    assert forall|instrument: Instrument, label: Option<int>|
        instrument.kind_of() == Kind::Counter implies series_at_least(
        #[trigger] reading(after, instrument, label),
        reading(before, instrument, label),
    ) by {
        if let Some(l) = label {
            if 1 <= l <= before.tariffs.len() {
                assert(after.tariffs[l - 1] == if l - 1 < snapshot.meterreadings@.len() {
                    tariff_applied(before.tariffs[l - 1], snapshot.meterreadings@[l - 1])
                } else {
                    before.tariffs[l - 1]
                });
            }
            if 1 <= l <= before.phases.len() {
                assert(after.phases[l - 1] == if l - 1 < snapshot.lines@.len() {
                    phase_applied(before.phases[l - 1], snapshot.lines@[l - 1])
                } else {
                    before.phases[l - 1]
                });
            }
        }
    }
}

/// Counters that have not fallen twice have not fallen.
pub proof fn lemma_counters_at_least_chains(a: MetricsView, b: MetricsView, c: MetricsView)
    requires
        counters_at_least(b, a),
        counters_at_least(c, b),
    ensures
        counters_at_least(c, a),
{
    assert forall|instrument: Instrument, label: Option<int>|
        instrument.kind_of() == Kind::Counter implies series_at_least(
        #[trigger] reading(c, instrument, label),
        reading(a, instrument, label),
    ) by {
        assert(series_at_least(reading(b, instrument, label), reading(a, instrument, label)));
    }
}

/// Over any sequence of snapshots, no counter ever falls: after each of
/// them every counter holds at least what it held at any earlier point.
pub proof fn lemma_counters_never_fall_over(before: MetricsView, reports: Seq<Report>, n: int)
    requires
        0 <= n <= reports.len(),
    ensures
        counters_at_least(applied_all(before, reports), applied_all(before, reports.take(n))),
    decreases reports.len(),
{
    if n == 0 {
        assert(reports.take(0) =~= Seq::<Report>::empty());
        lemma_counters_never_fall_from(before, reports);
    } else {
        let next = applied(before, reports[0].snapshot, reports[0].at);
        assert(reports.take(n).skip(1) =~= reports.skip(1).take(n - 1));
        assert(reports.take(n)[0] == reports[0]);
        lemma_counters_never_fall_over(next, reports.skip(1), n - 1);
    }
}

/// Over any sequence of snapshots, every counter ends at least where it
/// began.
pub proof fn lemma_counters_never_fall_from(before: MetricsView, reports: Seq<Report>)
    ensures
        counters_at_least(applied_all(before, reports), before),
    decreases reports.len(),
{
    if reports.len() > 0 {
        let next = applied(before, reports[0].snapshot, reports[0].at);
        lemma_counters_never_fall(before, reports[0].snapshot, reports[0].at);
        lemma_counters_never_fall_from(next, reports.skip(1));
        lemma_counters_at_least_chains(before, next, applied_all(before, reports));
    }
}

/// A field that a snapshot repeats from the snapshot before it leaves its
/// instruments where that one put them.
pub proof fn lemma_repeated_field_changes_nothing(
    before: MetricsView,
    first: Snapshot,
    second: Snapshot,
    first_at: u64,
    second_at: u64,
)
    ensures
        ({
            let once = applied(before, first, first_at);
            let twice = applied(once, second, second_at);
            &&& second.meterreadings@ == first.meterreadings@ ==> twice.tariffs == once.tariffs
            &&& forall|i: int|
                0 <= i < first.meterreadings@.len() && i < second.meterreadings@.len()
                    && second.meterreadings@[i] == first.meterreadings@[i]
                    ==> #[trigger] twice.tariffs[i] == once.tariffs[i]
            &&& second.tariff_indicator == first.tariff_indicator ==> twice.energy_tariff
                == once.energy_tariff
            &&& second.power_delivered == first.power_delivered ==> twice.power_delivered_watts
                == once.power_delivered_watts
            &&& second.power_received == first.power_received ==> twice.power_received_watts
                == once.power_received_watts
            &&& second.power_failures == first.power_failures ==> twice.power_failures_total
                == once.power_failures_total
            &&& second.long_power_failures == first.long_power_failures
                ==> twice.power_long_failures_total == once.power_long_failures_total
            &&& second.lines@ == first.lines@ ==> twice.phases == once.phases
            &&& forall|i: int|
                0 <= i < first.lines@.len() && i < second.lines@.len() && second.lines@[i]
                    == first.lines@[i] ==> #[trigger] twice.phases[i] == once.phases[i]
            &&& gas_reading(second.slaves@) == gas_reading(first.slaves@)
                ==> twice.gas_delivered_cubic_meters_total
                == once.gas_delivered_cubic_meters_total
        }),
{
    let once = applied(before, first, first_at);
    let twice = applied(once, second, second_at);
    if second.meterreadings@ == first.meterreadings@ {
        assert(twice.tariffs =~= once.tariffs);
    }
    if second.lines@ == first.lines@ {
        assert(twice.phases =~= once.phases);
    }
}

/// Applying a snapshot a second time changes no instrument.
pub proof fn lemma_reapplying_changes_nothing(
    before: MetricsView,
    snapshot: Snapshot,
    first_at: u64,
    second_at: u64,
)
    ensures
        same_values(
            applied(applied(before, snapshot, first_at), snapshot, second_at),
            applied(before, snapshot, first_at),
        ),
{
    lemma_repeated_field_changes_nothing(before, snapshot, snapshot, first_at, second_at);
}

/// A snapshot that reports nothing changes no instrument.
pub proof fn lemma_absent_changes_nothing(before: MetricsView, snapshot: Snapshot, now: u64)
    requires
        snapshot.meterreadings@.len() == 0,
        snapshot.tariff_indicator is None,
        snapshot.power_delivered is None,
        snapshot.power_received is None,
        snapshot.power_failures is None,
        snapshot.long_power_failures is None,
        snapshot.lines@.len() == 0,
        gas_reading(snapshot.slaves@) is None,
    ensures
        same_values(applied(before, snapshot, now), before),
{
    let after = applied(before, snapshot, now);
    assert(after.tariffs =~= before.tariffs);
    assert(after.phases =~= before.phases);
}

/// After an update the store is fresh for exactly `METRICS_TTL`
/// milliseconds: a scrape within them is answered with the instruments, a
/// later one with an empty body.
pub proof fn lemma_fresh_for_the_window(
    before: MetricsView,
    snapshot: Snapshot,
    at: u64,
    now: u64,
)
    requires
        at <= now,
    ensures
        fresh(applied(before, snapshot, at).last_update, now) <==> now - at <= METRICS_TTL,
{
}

} // verus!
