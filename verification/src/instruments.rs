//! The instruments that are exported: their names, what they are, and by
//! which label their series are told apart.

use vstd::prelude::*;

verus! {

/// An exported instrument.
#[derive(Debug, Clone, Copy, PartialEq, Eq, Hash, Structural)]
pub enum Instrument {
    EnergyDeliveredJoulesTotal,
    EnergyReceivedJoulesTotal,
    EnergyTariff,
    PowerDeliveredWatts,
    PowerReceivedWatts,
    PowerFailuresTotal,
    PowerLongFailuresTotal,
    PhaseVoltageSagsTotal,
    PhaseVoltageSwellsTotal,
    PhaseVoltageVolts,
    PhaseCurrentAmperes,
    PhaseActivePowerPositiveWatts,
    PhaseActivePowerNegativeWatts,
    GasDeliveredCubicMetersTotal,
}

/// How an instrument moves.
#[derive(Debug, Clone, Copy, PartialEq, Eq, Structural)]
pub enum Kind {
    /// Never falls.
    Counter,
    /// Moves freely.
    Gauge,
}

/// What the series of an instrument are labelled by.
#[derive(Debug, Clone, Copy, PartialEq, Eq, Structural)]
pub enum Dimension {
    /// The instrument has one series, without a label.
    Single,
    /// One series per tariff, labelled `tariff`.
    Tariff,
    /// One series per phase, labelled `phase`.
    Phase,
}

/// All instruments, in the order in which they are registered.
pub open spec fn all_instruments() -> Seq<Instrument> {
    seq![
        Instrument::EnergyDeliveredJoulesTotal,
        Instrument::EnergyReceivedJoulesTotal,
        Instrument::EnergyTariff,
        Instrument::PowerDeliveredWatts,
        Instrument::PowerReceivedWatts,
        Instrument::PowerFailuresTotal,
        Instrument::PowerLongFailuresTotal,
        Instrument::PhaseVoltageSagsTotal,
        Instrument::PhaseVoltageSwellsTotal,
        Instrument::PhaseVoltageVolts,
        Instrument::PhaseCurrentAmperes,
        Instrument::PhaseActivePowerPositiveWatts,
        Instrument::PhaseActivePowerNegativeWatts,
        Instrument::GasDeliveredCubicMetersTotal,
    ]
}

impl Instrument {
    /// The name under which the instrument is exported.
    pub open spec fn name_of(self) -> Seq<char> {
        match self {
            Instrument::EnergyDeliveredJoulesTotal => "energy_delivered_joules_total"@,
            Instrument::EnergyReceivedJoulesTotal => "energy_received_joules_total"@,
            Instrument::EnergyTariff => "energy_tariff"@,
            Instrument::PowerDeliveredWatts => "power_delivered_watts"@,
            Instrument::PowerReceivedWatts => "power_received_watts"@,
            Instrument::PowerFailuresTotal => "power_failures_total"@,
            Instrument::PowerLongFailuresTotal => "power_long_failures_total"@,
            Instrument::PhaseVoltageSagsTotal => "phase_voltage_sags_total"@,
            Instrument::PhaseVoltageSwellsTotal => "phase_voltage_swells_total"@,
            Instrument::PhaseVoltageVolts => "phase_voltage_volts"@,
            Instrument::PhaseCurrentAmperes => "phase_current_amperes"@,
            Instrument::PhaseActivePowerPositiveWatts => "phase_active_power_positive_watts"@,
            Instrument::PhaseActivePowerNegativeWatts => "phase_active_power_negative_watts"@,
            Instrument::GasDeliveredCubicMetersTotal => "gas_delivered_cubic_meters_total"@,
        }
    }

    /// What the instrument is said to measure where it is exported.
    pub open spec fn help_of(self) -> Seq<char> {
        match self {
            Instrument::EnergyDeliveredJoulesTotal => "The amount of energy delivered to client in joules"@,
            Instrument::EnergyReceivedJoulesTotal => "The amount of energy delivered by client in joules"@,
            Instrument::EnergyTariff => "The currently active tariff"@,
            Instrument::PowerDeliveredWatts => "The amount of power that is currently being delivered to client in Watts"@,
            Instrument::PowerReceivedWatts => "The amount of power that is currently being delivered by client in Watts"@,
            Instrument::PowerFailuresTotal => "Number of power failures in any phase"@,
            Instrument::PowerLongFailuresTotal => "Number of long power failures in any phase"@,
            Instrument::PhaseVoltageSagsTotal => "Number of voltage sags in specified phase"@,
            Instrument::PhaseVoltageSwellsTotal => "Number of voltage swells in specified phase"@,
            Instrument::PhaseVoltageVolts => "Instantaneous voltage in specified phase in Volts"@,
            Instrument::PhaseCurrentAmperes => "Instantaneous current in specified phase in Amp\u{e8}res"@,
            Instrument::PhaseActivePowerPositiveWatts => "Instantaneous active power (+P) in specified phase in Watts"@,
            Instrument::PhaseActivePowerNegativeWatts => "Instantaneous active power (-P) in specified phase in Watts"@,
            Instrument::GasDeliveredCubicMetersTotal => "Amount of natural gas delivered to client in cubic meters"@,
        }
    }

    /// Whether the instrument is a counter or a gauge.
    pub open spec fn kind_of(self) -> Kind {
        match self {
            Instrument::EnergyDeliveredJoulesTotal
            | Instrument::EnergyReceivedJoulesTotal
            | Instrument::PowerFailuresTotal
            | Instrument::PowerLongFailuresTotal
            | Instrument::PhaseVoltageSagsTotal
            | Instrument::PhaseVoltageSwellsTotal
            | Instrument::GasDeliveredCubicMetersTotal => Kind::Counter,
            Instrument::EnergyTariff
            | Instrument::PowerDeliveredWatts
            | Instrument::PowerReceivedWatts
            | Instrument::PhaseVoltageVolts
            | Instrument::PhaseCurrentAmperes
            | Instrument::PhaseActivePowerPositiveWatts
            | Instrument::PhaseActivePowerNegativeWatts => Kind::Gauge,
        }
    }

    /// What the instrument's series are labelled by.
    pub open spec fn dimension_of(self) -> Dimension {
        match self {
            Instrument::EnergyDeliveredJoulesTotal
            | Instrument::EnergyReceivedJoulesTotal => Dimension::Tariff,
            Instrument::PhaseVoltageSagsTotal
            | Instrument::PhaseVoltageSwellsTotal
            | Instrument::PhaseVoltageVolts
            | Instrument::PhaseCurrentAmperes
            | Instrument::PhaseActivePowerPositiveWatts
            | Instrument::PhaseActivePowerNegativeWatts => Dimension::Phase,
            Instrument::EnergyTariff
            | Instrument::PowerDeliveredWatts
            | Instrument::PowerReceivedWatts
            | Instrument::PowerFailuresTotal
            | Instrument::PowerLongFailuresTotal
            | Instrument::GasDeliveredCubicMetersTotal => Dimension::Single,
        }
    }

    /// Whether the instrument counts whole things. One that does not holds
    /// thousandths of the unit in its name.
    pub open spec fn is_whole(self) -> bool {
        match self {
            Instrument::EnergyTariff
            | Instrument::PowerFailuresTotal
            | Instrument::PowerLongFailuresTotal
            | Instrument::PhaseVoltageSagsTotal
            | Instrument::PhaseVoltageSwellsTotal => true,
            Instrument::EnergyDeliveredJoulesTotal
            | Instrument::EnergyReceivedJoulesTotal
            | Instrument::PowerDeliveredWatts
            | Instrument::PowerReceivedWatts
            | Instrument::PhaseVoltageVolts
            | Instrument::PhaseCurrentAmperes
            | Instrument::PhaseActivePowerPositiveWatts
            | Instrument::PhaseActivePowerNegativeWatts
            | Instrument::GasDeliveredCubicMetersTotal => false,
        }
    }

    /// All instruments, in the order in which they are registered.
    pub fn all() -> (r: Vec<Instrument>)
        ensures
            r@ == all_instruments(),
    {
        let r = vec![
            Instrument::EnergyDeliveredJoulesTotal,
            Instrument::EnergyReceivedJoulesTotal,
            Instrument::EnergyTariff,
            Instrument::PowerDeliveredWatts,
            Instrument::PowerReceivedWatts,
            Instrument::PowerFailuresTotal,
            Instrument::PowerLongFailuresTotal,
            Instrument::PhaseVoltageSagsTotal,
            Instrument::PhaseVoltageSwellsTotal,
            Instrument::PhaseVoltageVolts,
            Instrument::PhaseCurrentAmperes,
            Instrument::PhaseActivePowerPositiveWatts,
            Instrument::PhaseActivePowerNegativeWatts,
            Instrument::GasDeliveredCubicMetersTotal,
        ];
        assert(r@ =~= all_instruments());
        r
    }

    /// The name under which the instrument is exported.
    pub fn name(&self) -> (r: &'static str)
        ensures
            r@ == self.name_of(),
    {
        match self {
            Instrument::EnergyDeliveredJoulesTotal => "energy_delivered_joules_total",
            Instrument::EnergyReceivedJoulesTotal => "energy_received_joules_total",
            Instrument::EnergyTariff => "energy_tariff",
            Instrument::PowerDeliveredWatts => "power_delivered_watts",
            Instrument::PowerReceivedWatts => "power_received_watts",
            Instrument::PowerFailuresTotal => "power_failures_total",
            Instrument::PowerLongFailuresTotal => "power_long_failures_total",
            Instrument::PhaseVoltageSagsTotal => "phase_voltage_sags_total",
            Instrument::PhaseVoltageSwellsTotal => "phase_voltage_swells_total",
            Instrument::PhaseVoltageVolts => "phase_voltage_volts",
            Instrument::PhaseCurrentAmperes => "phase_current_amperes",
            Instrument::PhaseActivePowerPositiveWatts => "phase_active_power_positive_watts",
            Instrument::PhaseActivePowerNegativeWatts => "phase_active_power_negative_watts",
            Instrument::GasDeliveredCubicMetersTotal => "gas_delivered_cubic_meters_total",
        }
    }

    /// What the instrument is said to measure where it is exported.
    pub fn help(&self) -> (r: &'static str)
        ensures
            r@ == self.help_of(),
    {
        match self {
            Instrument::EnergyDeliveredJoulesTotal => "The amount of energy delivered to client in joules",
            Instrument::EnergyReceivedJoulesTotal => "The amount of energy delivered by client in joules",
            Instrument::EnergyTariff => "The currently active tariff",
            Instrument::PowerDeliveredWatts => "The amount of power that is currently being delivered to client in Watts",
            Instrument::PowerReceivedWatts => "The amount of power that is currently being delivered by client in Watts",
            Instrument::PowerFailuresTotal => "Number of power failures in any phase",
            Instrument::PowerLongFailuresTotal => "Number of long power failures in any phase",
            Instrument::PhaseVoltageSagsTotal => "Number of voltage sags in specified phase",
            Instrument::PhaseVoltageSwellsTotal => "Number of voltage swells in specified phase",
            Instrument::PhaseVoltageVolts => "Instantaneous voltage in specified phase in Volts",
            Instrument::PhaseCurrentAmperes => "Instantaneous current in specified phase in Amp\u{e8}res",
            Instrument::PhaseActivePowerPositiveWatts => "Instantaneous active power (+P) in specified phase in Watts",
            Instrument::PhaseActivePowerNegativeWatts => "Instantaneous active power (-P) in specified phase in Watts",
            Instrument::GasDeliveredCubicMetersTotal => "Amount of natural gas delivered to client in cubic meters",
        }
    }

    /// Whether the instrument is a counter or a gauge.
    pub fn kind(&self) -> (r: Kind)
        ensures
            r == self.kind_of(),
    {
        match self {
            Instrument::EnergyDeliveredJoulesTotal
            | Instrument::EnergyReceivedJoulesTotal
            | Instrument::PowerFailuresTotal
            | Instrument::PowerLongFailuresTotal
            | Instrument::PhaseVoltageSagsTotal
            | Instrument::PhaseVoltageSwellsTotal
            | Instrument::GasDeliveredCubicMetersTotal => Kind::Counter,
            _ => Kind::Gauge,
        }
    }

    /// What the instrument's series are labelled by.
    pub fn dimension(&self) -> (r: Dimension)
        ensures
            r == self.dimension_of(),
    {
        match self {
            Instrument::EnergyDeliveredJoulesTotal
            | Instrument::EnergyReceivedJoulesTotal => Dimension::Tariff,
            Instrument::PhaseVoltageSagsTotal
            | Instrument::PhaseVoltageSwellsTotal
            | Instrument::PhaseVoltageVolts
            | Instrument::PhaseCurrentAmperes
            | Instrument::PhaseActivePowerPositiveWatts
            | Instrument::PhaseActivePowerNegativeWatts => Dimension::Phase,
            _ => Dimension::Single,
        }
    }

    /// Whether the instrument counts whole things rather than thousandths.
    pub fn counts_whole(&self) -> (r: bool)
        ensures
            r == self.is_whole(),
    {
        match self {
            Instrument::EnergyTariff
            | Instrument::PowerFailuresTotal
            | Instrument::PowerLongFailuresTotal
            | Instrument::PhaseVoltageSagsTotal
            | Instrument::PhaseVoltageSwellsTotal => true,
            _ => false,
        }
    }
}

impl Dimension {
    /// The name of the label, if the instrument has one.
    pub open spec fn label_of(self) -> Option<Seq<char>> {
        match self {
            Dimension::Single => None,
            Dimension::Tariff => Some("tariff"@),
            Dimension::Phase => Some("phase"@),
        }
    }

    /// The name of the label, if the instrument has one.
    pub fn label(&self) -> (r: Option<&'static str>)
        ensures
            match r {
                Some(name) => self.label_of() == Some(name@),
                None => self.label_of() is None,
            },
    {
        match self {
            Dimension::Single => None,
            Dimension::Tariff => Some("tariff"),
            Dimension::Phase => Some("phase"),
        }
    }
}

} // verus!
