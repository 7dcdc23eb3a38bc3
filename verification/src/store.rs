//! The relational store as the ingestion pipeline sees it: four append-only
//! tables, a unique timestamp per parent row, and savepoints to which a
//! failed transaction returns.
//!
//! The store keeps its rows in memory. It answers each statement of the write
//! transaction the way the relational engine does, so the transaction can be
//! run, and its laws stated, without one.

use crate::models::{
    ElectricityMeterMessage, EnergyExportData, ExportRow, ImportRow, NewElectricityMeterMessage,
    NewEnergyExportData, NewEnergyImportData, NewPowerReading, PowerRow,
};
use crate::timestamp::Timestamp;
use vstd::prelude::*;

verus! {

/// The largest identifier a row can get, and so the most rows of a table.
pub const MAX_ROWS: usize = 0x7fff_ffff;

/// How many rows each table can hold.
#[derive(Clone, Copy, Debug, PartialEq, Eq, Structural)]
pub struct Capacity {
    pub messages: usize,
    pub exports: usize,
    pub imports: usize,
    pub powers: usize,
}

/// Why the store refused a statement.
#[derive(Clone, Copy, Debug, PartialEq, Eq, Structural)]
pub enum StoreError {
    /// A parent row with that timestamp is stored already.
    DuplicateTimestamp,
    /// The table has no room for another row.
    Full,
}

/// The lengths of the four tables at the start of a transaction.
#[derive(Clone, Copy, Debug, PartialEq, Eq, Structural)]
pub struct Savepoint {
    pub messages: usize,
    pub exports: usize,
    pub imports: usize,
    pub powers: usize,
}

/// The content of the four tables, each in the order of insertion.
pub struct Tables {
    pub messages: Seq<ElectricityMeterMessage>,
    pub exports: Seq<ExportRow>,
    pub imports: Seq<ImportRow>,
    pub powers: Seq<PowerRow>,
}

/// The first `n` rows of a table, or all of them if it has no more.
pub open spec fn first_rows<T>(rows: Seq<T>, n: nat) -> Seq<T> {
    if n < rows.len() {
        rows.subrange(0, n as int)
    } else {
        rows
    }
}

/// True when exactly one of the child rows names this parent; the rows are
/// given by the parents they name.
pub open spec fn names_once(parents: Seq<i32>, parent: i32) -> bool {
    exists|c: int|
        {
            &&& 0 <= c < parents.len()
            &&& #[trigger] parents[c] == parent
            &&& forall|d: int| 0 <= d < parents.len() && #[trigger] parents[d] == parent ==> d == c
        }
}

impl Tables {
    /// The tables of a store that holds nothing.
    pub open spec fn empty() -> Tables {
        Tables { messages: Seq::empty(), exports: Seq::empty(), imports: Seq::empty(), powers: Seq::empty() }
    }

    /// True when a parent row with this timestamp is stored.
    pub open spec fn holds_timestamp(self, timestamp: Timestamp) -> bool {
        exists|i: int| 0 <= i < self.messages.len() && (#[trigger] self.messages[i]).timestamp == timestamp
    }

    /// True when a parent row with this identifier is stored.
    pub open spec fn holds_message(self, id: i32) -> bool {
        exists|i: int|
            0 <= i < self.messages.len() && (#[trigger] self.messages[i]).electricity_meter_message_id == id
    }

    /// No two parent rows share an identifier or a timestamp.
    pub open spec fn distinct(self) -> bool {
        forall|i: int, j: int|
            0 <= i < j < self.messages.len() ==> {
                &&& (#[trigger] self.messages[i]).electricity_meter_message_id != (
                #[trigger] self.messages[j]).electricity_meter_message_id
                &&& self.messages[i].timestamp != self.messages[j].timestamp
            }
    }

    /// The parent rows are numbered from 1 in the order of insertion.
    pub open spec fn numbered(self) -> bool {
        forall|i: int|
            0 <= i < self.messages.len() ==> (#[trigger] self.messages[i]).electricity_meter_message_id == i + 1
    }

    /// The identifier that the next parent row gets.
    pub open spec fn next_id(self) -> int {
        (self.messages.len() + 1) as int
    }

    /// The parent that each export row names, in the order of the rows.
    pub open spec fn export_parents(self) -> Seq<i32> {
        self.exports.map_values(|row: ExportRow| row.message_id)
    }

    /// The parent that each import row names, in the order of the rows.
    pub open spec fn import_parents(self) -> Seq<i32> {
        self.imports.map_values(|row: ImportRow| row.message_id)
    }

    /// The parent that each power row names, in the order of the rows.
    pub open spec fn power_parents(self) -> Seq<i32> {
        self.powers.map_values(|row: PowerRow| row.message_id)
    }

    /// The tables hold whole record sets and nothing else: each parent row
    /// has exactly one child in each of the three child tables, and each
    /// child row has its parent.
    pub open spec fn whole(self) -> bool {
        &&& forall|m: int|
            0 <= m < self.messages.len() ==> {
                &&& names_once(
                    self.export_parents(),
                    (#[trigger] self.messages[m]).electricity_meter_message_id,
                )
                &&& names_once(self.import_parents(), self.messages[m].electricity_meter_message_id)
                &&& names_once(self.power_parents(), self.messages[m].electricity_meter_message_id)
            }
        &&& forall|c: int|
            0 <= c < self.exports.len() ==> self.holds_message(#[trigger] self.export_parents()[c])
        &&& forall|c: int|
            0 <= c < self.imports.len() ==> self.holds_message(#[trigger] self.import_parents()[c])
        &&& forall|c: int| 0 <= c < self.powers.len() ==> self.holds_message(#[trigger] self.power_parents()[c])
    }

    /// The tables cut back to the lengths of a savepoint.
    pub open spec fn back_to(self, savepoint: Savepoint) -> Tables {
        Tables {
            messages: first_rows(self.messages, savepoint.messages as nat),
            exports: first_rows(self.exports, savepoint.exports as nat),
            imports: first_rows(self.imports, savepoint.imports as nat),
            powers: first_rows(self.powers, savepoint.powers as nat),
        }
    }
}

/// An in-memory relational store of record sets.
pub struct Store {
    messages: Vec<ElectricityMeterMessage>,
    exports: Vec<NewEnergyExportData>,
    imports: Vec<NewEnergyImportData>,
    powers: Vec<NewPowerReading>,
    last_rowid: i32,
    capacity: Capacity,
}

impl View for Store {
    type V = Tables;

    closed spec fn view(&self) -> Tables {
        Tables {
            messages: self.messages@,
            exports: self.exports@.map_values(|row: NewEnergyExportData| row@),
            imports: self.imports@.map_values(|row: NewEnergyImportData| row@),
            powers: self.powers@.map_values(|row: NewPowerReading| row@),
        }
    }
}

impl Store {
    /// How many rows each table can hold.
    pub closed spec fn capacity(&self) -> Capacity {
        self.capacity
    }

    /// The identifier of the row that was inserted last, 0 before the first.
    pub closed spec fn last_rowid(&self) -> i32 {
        self.last_rowid
    }

    /// The invariant of the store: the parent rows are numbered from 1 in
    /// the order of insertion, no timestamp occurs twice, and no table
    /// holds more rows than it has room for.
    pub closed spec fn wf(&self) -> bool {
        &&& self.messages.len() <= self.capacity.messages <= MAX_ROWS
        &&& self.exports.len() <= self.capacity.exports <= MAX_ROWS
        &&& self.imports.len() <= self.capacity.imports <= MAX_ROWS
        &&& self.powers.len() <= self.capacity.powers <= MAX_ROWS
        &&& forall|i: int|
            0 <= i < self.messages.len() ==> (#[trigger] self.messages[i]).electricity_meter_message_id == i + 1
        &&& forall|i: int, j: int|
            0 <= i < j < self.messages.len() ==> (#[trigger] self.messages[i]).timestamp != (
            #[trigger] self.messages[j]).timestamp
    }

    /// What the invariant says of the tables.
    pub proof fn lemma_wf(&self)
        requires
            self.wf(),
        ensures
            self@.distinct(),
            self@.numbered(),
            self@.messages.len() <= self.capacity().messages <= MAX_ROWS,
            self@.exports.len() <= self.capacity().exports <= MAX_ROWS,
            self@.imports.len() <= self.capacity().imports <= MAX_ROWS,
            self@.powers.len() <= self.capacity().powers <= MAX_ROWS,
    {
    }

    /// An empty store whose tables are bounded only by the identifier space.
    pub fn new() -> (store: Store)
        ensures
            store.wf(),
            store@ == Tables::empty(),
            store@.whole(),
            store.last_rowid() == 0,
            store.capacity() == (Capacity {
                messages: MAX_ROWS,
                exports: MAX_ROWS,
                imports: MAX_ROWS,
                powers: MAX_ROWS,
            }),
    {
        Store::with_capacity(
            Capacity { messages: MAX_ROWS, exports: MAX_ROWS, imports: MAX_ROWS, powers: MAX_ROWS },
        )
    }

    /// An empty store with room for `capacity` rows; a bound beyond the
    /// identifier space is cut back to it.
    pub fn with_capacity(capacity: Capacity) -> (store: Store)
        ensures
            store.wf(),
            store@ == Tables::empty(),
            store@.whole(),
            store.last_rowid() == 0,
            store.capacity() == (Capacity {
                messages: if capacity.messages <= MAX_ROWS { capacity.messages } else { MAX_ROWS },
                exports: if capacity.exports <= MAX_ROWS { capacity.exports } else { MAX_ROWS },
                imports: if capacity.imports <= MAX_ROWS { capacity.imports } else { MAX_ROWS },
                powers: if capacity.powers <= MAX_ROWS { capacity.powers } else { MAX_ROWS },
            }),
    {
        let store = Store {
            messages: Vec::new(),
            exports: Vec::new(),
            imports: Vec::new(),
            powers: Vec::new(),
            last_rowid: 0,
            capacity: Capacity {
                messages: if capacity.messages <= MAX_ROWS { capacity.messages } else { MAX_ROWS },
                exports: if capacity.exports <= MAX_ROWS { capacity.exports } else { MAX_ROWS },
                imports: if capacity.imports <= MAX_ROWS { capacity.imports } else { MAX_ROWS },
                powers: if capacity.powers <= MAX_ROWS { capacity.powers } else { MAX_ROWS },
            },
        };
        assert(store@.exports =~= Seq::empty());
        assert(store@.imports =~= Seq::empty());
        assert(store@.powers =~= Seq::empty());
        store
    }

    /// The number of parent rows.
    pub fn message_count(&self) -> (count: usize)
        ensures
            count == self@.messages.len(),
    {
        self.messages.len()
    }

    /// The number of export rows.
    pub fn export_count(&self) -> (count: usize)
        ensures
            count == self@.exports.len(),
    {
        self.exports.len()
    }

    /// The number of import rows.
    pub fn import_count(&self) -> (count: usize)
        ensures
            count == self@.imports.len(),
    {
        self.imports.len()
    }

    /// The number of power rows.
    pub fn power_count(&self) -> (count: usize)
        ensures
            count == self@.powers.len(),
    {
        self.powers.len()
    }

    /// The parent row at `index`, in the order of insertion.
    pub fn message(&self, index: usize) -> (row: Option<ElectricityMeterMessage>)
        ensures
            row == if index < self@.messages.len() {
                Some(self@.messages[index as int])
            } else {
                None
            },
    {
        if index < self.messages.len() {
            Some(self.messages[index])
        } else {
            None
        }
    }

    /// The export row at `index`, in the order of insertion, with the
    /// identifier that its position gives it.
    pub fn export(&self, index: usize) -> (row: Option<EnergyExportData>)
        requires
            self.wf(),
        ensures
            index < self@.exports.len() <==> row is Some,
            row matches Some(stored) ==> stored@ == self@.exports[index as int]
                && stored.energy_export_data_id == index + 1,
    {
        if index < self.exports.len() {
            let row = &self.exports[index];
            Some(
                EnergyExportData {
                    energy_export_data_id: (index + 1) as i32,
                    electricity_meter_message_id: row.electricity_meter_message_id,
                    cumulative: row.cumulative,
                    units: row.units.clone(),
                },
            )
        } else {
            None
        }
    }

    /// The import row at `index`, in the order of insertion.
    pub fn import(&self, index: usize) -> (row: Option<NewEnergyImportData>)
        ensures
            index < self@.imports.len() <==> row is Some,
            row matches Some(stored) ==> stored@ == self@.imports[index as int],
    {
        if index < self.imports.len() {
            let row = &self.imports[index];
            Some(
                NewEnergyImportData {
                    electricity_meter_message_id: row.electricity_meter_message_id,
                    cumulative: row.cumulative,
                    day: row.day,
                    week: row.week,
                    month: row.month,
                    units: row.units.clone(),
                    mpan: row.mpan.clone(),
                    supplier: row.supplier.clone(),
                    unitrate: row.unitrate,
                    standingcharge: row.standingcharge,
                },
            )
        } else {
            None
        }
    }

    /// The power row at `index`, in the order of insertion.
    pub fn power(&self, index: usize) -> (row: Option<NewPowerReading>)
        ensures
            index < self@.powers.len() <==> row is Some,
            row matches Some(stored) ==> stored@ == self@.powers[index as int],
    {
        if index < self.powers.len() {
            let row = &self.powers[index];
            Some(
                NewPowerReading {
                    electricity_meter_message_id: row.electricity_meter_message_id,
                    value: row.value,
                    units: row.units.clone(),
                },
            )
        } else {
            None
        }
    }

    /// Looks for the parent row with this timestamp.
    pub fn find_by_timestamp(&self, timestamp: Timestamp) -> (found: Option<ElectricityMeterMessage>)
        ensures
            found is Some <==> self@.holds_timestamp(timestamp),
            found matches Some(row) ==> row.timestamp == timestamp && self@.messages.contains(row),
    {
        let mut i: usize = 0;
        while i < self.messages.len()
            invariant
                i <= self.messages.len(),
                forall|k: int| 0 <= k < i ==> (#[trigger] self.messages[k]).timestamp != timestamp,
            decreases self.messages.len() - i,
        {
            let row = self.messages[i];
            if row.timestamp == timestamp {
                assert(self@.messages[i as int] == row);
                return Some(row);
            }
            i += 1;
        }
        None
    }

    /// Looks for the parent row with this identifier.
    pub fn find_by_id(&self, id: i32) -> (found: Option<ElectricityMeterMessage>)
        requires
            self.wf(),
        ensures
            found == if 1 <= id <= self@.messages.len() {
                Some(self@.messages[id - 1])
            } else {
                None
            },
            found is Some <==> self@.holds_message(id),
    {
        if 1 <= id && (id as usize) <= self.messages.len() {
            let row = self.messages[(id - 1) as usize];
            assert(self@.messages[id - 1].electricity_meter_message_id == id);
            Some(row)
        } else {
            None
        }
    }

    /// The identifier of the row that was inserted last.
    pub fn last_insert_rowid(&self) -> (id: i32)
        ensures
            id == self.last_rowid(),
    {
        self.last_rowid
    }

    /// Appends a parent row and gives it the next identifier, unless its
    /// timestamp is stored already or the table is full.
    pub fn insert_message(&mut self, row: NewElectricityMeterMessage) -> (done: Result<(), StoreError>)
        requires
            old(self).wf(),
        ensures
            final(self).wf(),
            final(self).capacity() == old(self).capacity(),
            done == if old(self)@.holds_timestamp(row.timestamp) {
                Err::<(), StoreError>(StoreError::DuplicateTimestamp)
            } else if old(self)@.messages.len() >= old(self).capacity().messages {
                Err::<(), StoreError>(StoreError::Full)
            } else {
                Ok::<(), StoreError>(())
            },
            done is Err ==> final(self)@ == old(self)@ && final(self).last_rowid() == old(self).last_rowid(),
            done is Ok ==> {
                &&& final(self).last_rowid() == old(self)@.next_id()
                &&& final(self)@ == (Tables {
                    messages: old(self)@.messages.push(
                        ElectricityMeterMessage {
                            electricity_meter_message_id: old(self)@.next_id() as i32,
                            timestamp: row.timestamp,
                        },
                    ),
                    ..old(self)@
                })
            },
    {
        if self.find_by_timestamp(row.timestamp).is_some() {
            return Err(StoreError::DuplicateTimestamp);
        }
        if self.messages.len() >= self.capacity.messages {
            return Err(StoreError::Full);
        }
        let id: i32 = (self.messages.len() + 1) as i32;
        self.messages.push(ElectricityMeterMessage { electricity_meter_message_id: id, timestamp: row.timestamp });
        self.last_rowid = id;
        Ok(())
    }

    /// Appends an export row, unless the table is full.
    pub fn insert_export(&mut self, row: NewEnergyExportData) -> (done: Result<(), StoreError>)
        requires
            old(self).wf(),
        ensures
            final(self).wf(),
            final(self).capacity() == old(self).capacity(),
            done == if old(self)@.exports.len() >= old(self).capacity().exports {
                Err::<(), StoreError>(StoreError::Full)
            } else {
                Ok::<(), StoreError>(())
            },
            done is Err ==> final(self)@ == old(self)@ && final(self).last_rowid() == old(self).last_rowid(),
            done is Ok ==> {
                &&& final(self).last_rowid() == old(self)@.exports.len() + 1
                &&& final(self)@ == (Tables { exports: old(self)@.exports.push(row@), ..old(self)@ })
            },
    {
        if self.exports.len() >= self.capacity.exports {
            return Err(StoreError::Full);
        }
        self.exports.push(row);
        self.last_rowid = self.exports.len() as i32;
        assert(self@.exports =~= old(self)@.exports.push(row@));
        Ok(())
    }

    /// Appends an import row, unless the table is full.
    pub fn insert_import(&mut self, row: NewEnergyImportData) -> (done: Result<(), StoreError>)
        requires
            old(self).wf(),
        ensures
            final(self).wf(),
            final(self).capacity() == old(self).capacity(),
            done == if old(self)@.imports.len() >= old(self).capacity().imports {
                Err::<(), StoreError>(StoreError::Full)
            } else {
                Ok::<(), StoreError>(())
            },
            done is Err ==> final(self)@ == old(self)@ && final(self).last_rowid() == old(self).last_rowid(),
            done is Ok ==> {
                &&& final(self).last_rowid() == old(self)@.imports.len() + 1
                &&& final(self)@ == (Tables { imports: old(self)@.imports.push(row@), ..old(self)@ })
            },
    {
        if self.imports.len() >= self.capacity.imports {
            return Err(StoreError::Full);
        }
        self.imports.push(row);
        self.last_rowid = self.imports.len() as i32;
        assert(self@.imports =~= old(self)@.imports.push(row@));
        Ok(())
    }

    /// Appends a power row, unless the table is full.
    pub fn insert_power(&mut self, row: NewPowerReading) -> (done: Result<(), StoreError>)
        requires
            old(self).wf(),
        ensures
            final(self).wf(),
            final(self).capacity() == old(self).capacity(),
            done == if old(self)@.powers.len() >= old(self).capacity().powers {
                Err::<(), StoreError>(StoreError::Full)
            } else {
                Ok::<(), StoreError>(())
            },
            done is Err ==> final(self)@ == old(self)@ && final(self).last_rowid() == old(self).last_rowid(),
            done is Ok ==> {
                &&& final(self).last_rowid() == old(self)@.powers.len() + 1
                &&& final(self)@ == (Tables { powers: old(self)@.powers.push(row@), ..old(self)@ })
            },
    {
        if self.powers.len() >= self.capacity.powers {
            return Err(StoreError::Full);
        }
        self.powers.push(row);
        self.last_rowid = self.powers.len() as i32;
        assert(self@.powers =~= old(self)@.powers.push(row@));
        Ok(())
    }

    /// Marks the start of a transaction.
    pub fn begin(&self) -> (savepoint: Savepoint)
        ensures
            savepoint.messages == self@.messages.len(),
            savepoint.exports == self@.exports.len(),
            savepoint.imports == self@.imports.len(),
            savepoint.powers == self@.powers.len(),
    {
        Savepoint {
            messages: self.messages.len(),
            exports: self.exports.len(),
            imports: self.imports.len(),
            powers: self.powers.len(),
        }
    }

    /// Undoes every insertion made since the savepoint was taken.
    pub fn rollback(&mut self, savepoint: Savepoint)
        requires
            old(self).wf(),
        ensures
            final(self).wf(),
            final(self).capacity() == old(self).capacity(),
            final(self).last_rowid() == old(self).last_rowid(),
            final(self)@ == old(self)@.back_to(savepoint),
    {
        self.messages.truncate(savepoint.messages);
        self.exports.truncate(savepoint.exports);
        self.imports.truncate(savepoint.imports);
        self.powers.truncate(savepoint.powers);
        assert(self@.messages =~= first_rows(old(self)@.messages, savepoint.messages as nat));
        assert(self@.exports =~= first_rows(old(self)@.exports, savepoint.exports as nat));
        assert(self@.imports =~= first_rows(old(self)@.imports, savepoint.imports as nat));
        assert(self@.powers =~= first_rows(old(self)@.powers, savepoint.powers as nat));
    }
}

impl StoreError {
    /// The characters of the message that tells of this refusal.
    pub open spec fn text(self) -> Seq<char> {
        match self {
            StoreError::DuplicateTimestamp => "UNIQUE constraint failed: electricity_meter_messages.timestamp"@,
            StoreError::Full => "database or disk is full"@,
        }
    }

    /// The message that tells of this refusal.
    pub fn message(self) -> (message: String)
        ensures
            message@ == self.text(),
    {
        match self {
            StoreError::DuplicateTimestamp => {
                "UNIQUE constraint failed: electricity_meter_messages.timestamp".to_owned()
            },
            StoreError::Full => "database or disk is full".to_owned(),
        }
    }
}

} // verus!
