//! One decoded telemetry sample of the electricity meter: cumulative energy
//! exported and imported, and the power drawn at that instant.

use crate::numeric::Double;
use vstd::prelude::*;

verus! {

/// Energy exported to the grid.
#[derive(Clone, Debug, PartialEq)]
pub struct EnergyExport {
    pub cumulative: Double,
    pub units: String,
}

/// The prices that the supplier charges for imported energy.
#[derive(Clone, Debug, PartialEq)]
pub struct ImportPrice {
    pub unitrate: Double,
    pub standingcharge: Double,
}

/// Energy imported from the grid, in total and over the running day, week
/// and month, with the meter point and the supplier it is billed by.
#[derive(Clone, Debug, PartialEq)]
pub struct EnergyImport {
    pub cumulative: Double,
    pub day: Double,
    pub week: Double,
    pub month: Double,
    pub units: String,
    pub mpan: String,
    pub supplier: String,
    pub price: ImportPrice,
}

/// Both directions of energy flow.
#[derive(Clone, Debug, PartialEq)]
pub struct Energy {
    pub export: EnergyExport,
    pub import: EnergyImport,
}

/// Instantaneous power.
#[derive(Clone, Debug, PartialEq)]
pub struct Power {
    pub value: Double,
    pub units: String,
}

/// A reading as the meter reports it; the timestamp is still text.
#[derive(Clone, Debug, PartialEq)]
pub struct ElectricityMeter {
    pub timestamp: String,
    pub energy: Energy,
    pub power: Power,
}

/// The envelope in which the broker delivers a reading.
#[derive(Clone, Debug, PartialEq)]
pub struct ElectricityMeterMessage {
    pub electricitymeter: ElectricityMeter,
}

/// A reading together with the liveness of its source.
#[derive(Clone, Debug, PartialEq)]
pub struct ElectricityUpdate {
    is_active: bool,
    message: ElectricityMeterMessage,
}

/// The mathematical content of a reading: every field by its value, texts as
/// sequences of characters.
pub struct Reading {
    pub timestamp: Seq<char>,
    pub export_cumulative: Double,
    pub export_units: Seq<char>,
    pub import_cumulative: Double,
    pub import_day: Double,
    pub import_week: Double,
    pub import_month: Double,
    pub import_units: Seq<char>,
    pub import_mpan: Seq<char>,
    pub import_supplier: Seq<char>,
    pub import_unitrate: Double,
    pub import_standingcharge: Double,
    pub power_value: Double,
    pub power_units: Seq<char>,
}

impl View for ElectricityMeter {
    type V = Reading;

    open spec fn view(&self) -> Reading {
        Reading {
            timestamp: self.timestamp@,
            export_cumulative: self.energy.export.cumulative,
            export_units: self.energy.export.units@,
            import_cumulative: self.energy.import.cumulative,
            import_day: self.energy.import.day,
            import_week: self.energy.import.week,
            import_month: self.energy.import.month,
            import_units: self.energy.import.units@,
            import_mpan: self.energy.import.mpan@,
            import_supplier: self.energy.import.supplier@,
            import_unitrate: self.energy.import.price.unitrate,
            import_standingcharge: self.energy.import.price.standingcharge,
            power_value: self.power.value,
            power_units: self.power.units@,
        }
    }
}

impl View for ElectricityMeterMessage {
    type V = Reading;

    open spec fn view(&self) -> Reading {
        self.electricitymeter@
    }
}

/// The content of an [`ElectricityUpdate`].
pub struct Update {
    pub is_active: bool,
    pub reading: Reading,
}

impl View for ElectricityUpdate {
    type V = Update;

    closed spec fn view(&self) -> Update {
        Update { is_active: self.is_active, reading: self.message@ }
    }
}

impl ElectricityUpdate {
    /// Pairs a reading with the liveness of its source.
    pub fn new(is_active: bool, message: ElectricityMeterMessage) -> (update: ElectricityUpdate)
        ensures
            update@ == (Update { is_active, reading: message@ }),
    {
        ElectricityUpdate { is_active, message }
    }

    /// Whether the source was live when the reading arrived.
    pub fn is_active(&self) -> (active: bool)
        ensures
            active == self@.is_active,
    {
        self.is_active
    }

    /// The reading.
    pub fn message(&self) -> (message: &ElectricityMeterMessage)
        ensures
            message@ == self@.reading,
    {
        &self.message
    }
}

} // verus!
