//! The rows of the four tables that hold one record set: the parent row of
//! a reading and its three children.

use crate::numeric::Single;
use crate::reading::{ElectricityMeter, Reading};
use crate::timestamp::Timestamp;
use vstd::prelude::*;

verus! {

/// A parent row before it is stored.
#[derive(Clone, Copy, Debug, PartialEq, Eq, Structural)]
pub struct NewElectricityMeterMessage {
    pub timestamp: Timestamp,
}

/// A stored parent row, with the identifier that storage gave it.
#[derive(Clone, Copy, Debug, PartialEq, Eq, Structural)]
pub struct ElectricityMeterMessage {
    pub electricity_meter_message_id: i32,
    pub timestamp: Timestamp,
}

/// The export row of a record set, before it is stored.
#[derive(Clone, Debug, PartialEq)]
pub struct NewEnergyExportData {
    pub electricity_meter_message_id: i32,
    pub cumulative: Single,
    pub units: String,
}

/// A stored export row.
#[derive(Clone, Debug, PartialEq)]
pub struct EnergyExportData {
    pub energy_export_data_id: i32,
    pub electricity_meter_message_id: i32,
    pub cumulative: Single,
    pub units: String,
}

/// The import row of a record set, before it is stored.
#[derive(Clone, Debug, PartialEq)]
pub struct NewEnergyImportData {
    pub electricity_meter_message_id: i32,
    pub cumulative: Single,
    pub day: Single,
    pub week: Single,
    pub month: Single,
    pub units: String,
    pub mpan: String,
    pub supplier: String,
    pub unitrate: Single,
    pub standingcharge: Single,
}

/// The power row of a record set, before it is stored.
#[derive(Clone, Debug, PartialEq)]
pub struct NewPowerReading {
    pub electricity_meter_message_id: i32,
    pub value: Single,
    pub units: String,
}

/// The content of an export row.
pub struct ExportRow {
    pub message_id: i32,
    pub cumulative: Single,
    pub units: Seq<char>,
}

/// The content of an import row.
pub struct ImportRow {
    pub message_id: i32,
    pub cumulative: Single,
    pub day: Single,
    pub week: Single,
    pub month: Single,
    pub units: Seq<char>,
    pub mpan: Seq<char>,
    pub supplier: Seq<char>,
    pub unitrate: Single,
    pub standingcharge: Single,
}

/// The content of a power row.
pub struct PowerRow {
    pub message_id: i32,
    pub value: Single,
    pub units: Seq<char>,
}

impl View for NewEnergyExportData {
    type V = ExportRow;

    open spec fn view(&self) -> ExportRow {
        ExportRow {
            message_id: self.electricity_meter_message_id,
            cumulative: self.cumulative,
            units: self.units@,
        }
    }
}

impl View for EnergyExportData {
    type V = ExportRow;

    open spec fn view(&self) -> ExportRow {
        ExportRow {
            message_id: self.electricity_meter_message_id,
            cumulative: self.cumulative,
            units: self.units@,
        }
    }
}

impl View for NewEnergyImportData {
    type V = ImportRow;

    open spec fn view(&self) -> ImportRow {
        ImportRow {
            message_id: self.electricity_meter_message_id,
            cumulative: self.cumulative,
            day: self.day,
            week: self.week,
            month: self.month,
            units: self.units@,
            mpan: self.mpan@,
            supplier: self.supplier@,
            unitrate: self.unitrate,
            standingcharge: self.standingcharge,
        }
    }
}

impl View for NewPowerReading {
    type V = PowerRow;

    open spec fn view(&self) -> PowerRow {
        PowerRow { message_id: self.electricity_meter_message_id, value: self.value, units: self.units@ }
    }
}

/// The export row that a reading gives rise to under the parent `message_id`:
/// the cumulative value narrowed to single precision.
pub open spec fn export_row(message_id: i32, reading: Reading) -> ExportRow {
    ExportRow {
        message_id,
        cumulative: reading.export_cumulative.narrowed(),
        units: reading.export_units,
    }
}

/// The import row that a reading gives rise to under the parent `message_id`:
/// every number narrowed to single precision.
pub open spec fn import_row(message_id: i32, reading: Reading) -> ImportRow {
    ImportRow {
        message_id,
        cumulative: reading.import_cumulative.narrowed(),
        day: reading.import_day.narrowed(),
        week: reading.import_week.narrowed(),
        month: reading.import_month.narrowed(),
        units: reading.import_units,
        mpan: reading.import_mpan,
        supplier: reading.import_supplier,
        unitrate: reading.import_unitrate.narrowed(),
        standingcharge: reading.import_standingcharge.narrowed(),
    }
}

/// The power row that a reading gives rise to under the parent `message_id`:
/// the value narrowed to single precision.
pub open spec fn power_row(message_id: i32, reading: Reading) -> PowerRow {
    PowerRow { message_id, value: reading.power_value.narrowed(), units: reading.power_units }
}

impl NewEnergyExportData {
    /// Builds the export row of a reading under the parent `message_id`.
    pub fn for_reading(message_id: i32, reading: &ElectricityMeter) -> (row: NewEnergyExportData)
        ensures
            row@ == export_row(message_id, reading@),
    {
        NewEnergyExportData {
            electricity_meter_message_id: message_id,
            cumulative: reading.energy.export.cumulative.narrow(),
            units: reading.energy.export.units.clone(),
        }
    }
}

impl NewEnergyImportData {
    /// Builds the import row of a reading under the parent `message_id`.
    pub fn for_reading(message_id: i32, reading: &ElectricityMeter) -> (row: NewEnergyImportData)
        ensures
            row@ == import_row(message_id, reading@),
    {
        let energy_import = &reading.energy.import;
        NewEnergyImportData {
            electricity_meter_message_id: message_id,
            cumulative: energy_import.cumulative.narrow(),
            day: energy_import.day.narrow(),
            week: energy_import.week.narrow(),
            month: energy_import.month.narrow(),
            units: energy_import.units.clone(),
            mpan: energy_import.mpan.clone(),
            supplier: energy_import.supplier.clone(),
            unitrate: energy_import.price.unitrate.narrow(),
            standingcharge: energy_import.price.standingcharge.narrow(),
        }
    }
}

impl NewPowerReading {
    /// Builds the power row of a reading under the parent `message_id`.
    pub fn for_reading(message_id: i32, reading: &ElectricityMeter) -> (row: NewPowerReading)
        ensures
            row@ == power_row(message_id, reading@),
    {
        NewPowerReading {
            electricity_meter_message_id: message_id,
            value: reading.power.value.narrow(),
            units: reading.power.units.clone(),
        }
    }
}

} // verus!
