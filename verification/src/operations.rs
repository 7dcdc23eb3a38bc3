//! Recording a reading exactly once: the deduplicating transaction that
//! turns one decoded message into a parent row and its three children.
//!
//! The transaction is a state machine. It names the statement to run next,
//! takes the answer of storage, and decides how to go on, until it commits
//! or aborts. Whoever owns the connection runs the statements;
//! [`insert_electricity_meter_message`] does so against a [`Store`].

use crate::models::{
    export_row, import_row, power_row, ElectricityMeterMessage as MessageRow, NewElectricityMeterMessage,
    NewEnergyExportData, NewEnergyImportData, NewPowerReading,
};
use crate::reading::{ElectricityMeter, ElectricityMeterMessage, Reading};
use crate::store::{first_rows, names_once, Capacity, Savepoint, Store, StoreError, Tables};
use crate::timestamp::Timestamp;
use vstd::prelude::*;

verus! {

/// Why a reading could not be recorded.
#[derive(Clone, Debug, PartialEq)]
pub enum InsertError {
    /// Storage refused or failed a statement; the text is its message.
    DbError(String),
    /// The timestamp of the reading is not in the meter's format; the text
    /// is the parser's message.
    TimeParseError(String),
}

/// The content of an [`InsertError`].
pub enum InsertErrorView {
    DbError(Seq<char>),
    TimeParseError(Seq<char>),
}

impl View for InsertError {
    type V = InsertErrorView;

    open spec fn view(&self) -> InsertErrorView {
        match self {
            InsertError::DbError(message) => InsertErrorView::DbError(message@),
            InsertError::TimeParseError(message) => InsertErrorView::TimeParseError(message@),
        }
    }
}

/// The words that precede the message of a storage error.
pub open spec fn db_error_prefix() -> Seq<char> {
    "Database Error: "@
}

/// The words that precede the message of a timestamp error.
pub open spec fn time_parse_error_prefix() -> Seq<char> {
    "Timestamp Parse Error: "@
}

impl InsertErrorView {
    /// The line that reports the error.
    pub open spec fn message(self) -> Seq<char> {
        match self {
            InsertErrorView::DbError(message) => db_error_prefix() + message,
            InsertErrorView::TimeParseError(message) => time_parse_error_prefix() + message,
        }
    }
}

impl InsertError {
    /// The error that a refusal of the store amounts to.
    pub fn from_store_error(error: StoreError) -> (converted: InsertError)
        ensures
            converted@ == InsertErrorView::DbError(error.text()),
    {
        InsertError::DbError(error.message())
    }

    /// The line that reports the error: its kind, then the message of its
    /// source.
    pub fn message(&self) -> (line: String)
        ensures
            line@ == self@.message(),
    {
        match self {
            InsertError::DbError(message) => "Database Error: ".to_owned().concat(message.as_str()),
            InsertError::TimeParseError(message) => "Timestamp Parse Error: ".to_owned().concat(
                message.as_str(),
            ),
        }
    }
}

/// One request to storage.
#[derive(Clone, Copy, Debug, PartialEq, Eq, Structural)]
pub enum Statement {
    /// Look for the parent row with this timestamp.
    SelectMessageByTimestamp(Timestamp),
    /// Insert this parent row.
    InsertMessage(NewElectricityMeterMessage),
    /// Ask for the identifier that the last insertion generated.
    SelectLastInsertRowId,
    /// Load the parent row with this identifier.
    SelectMessageById(i32),
    /// Insert the export row of the reading under this parent.
    InsertExport(i32),
    /// Insert the import row of the reading under this parent.
    InsertImport(i32),
    /// Insert the power row of the reading under this parent.
    InsertPower(i32),
}

/// What storage returns for a statement that it ran.
#[derive(Clone, Copy, Debug, PartialEq, Eq, Structural)]
pub enum Answer {
    /// The parent row that a selection found, if any.
    Message(Option<MessageRow>),
    /// The identifier of the last inserted row.
    RowId(i32),
    /// An insertion went through.
    Done,
}

/// How the transaction goes on.
#[derive(Clone, Debug, PartialEq)]
pub enum Progress {
    /// Run this statement and come back with its answer.
    Run(Statement),
    /// Commit; the flag tells whether a record set was written.
    Commit(bool),
    /// Roll everything back and report the error.
    Abort(InsertError),
}

/// The content of a [`Progress`].
pub enum ProgressView {
    Run(Statement),
    Commit(bool),
    Abort(InsertErrorView),
}

impl View for Progress {
    type V = ProgressView;

    open spec fn view(&self) -> ProgressView {
        match self {
            Progress::Run(statement) => ProgressView::Run(*statement),
            Progress::Commit(inserted) => ProgressView::Commit(*inserted),
            Progress::Abort(error) => ProgressView::Abort(error@),
        }
    }
}

/// Where a transaction stands: the statement whose answer it waits for.
#[derive(Clone, Copy, Debug, PartialEq, Eq, Structural)]
pub enum Stage {
    /// The search for a parent row with the timestamp of the reading.
    FindingDuplicate(Timestamp),
    /// The insertion of the parent row.
    InsertingMessage,
    /// The query for the identifier of the parent row.
    ReadingRowId,
    /// The reading back of the parent row.
    LoadingMessage,
    /// The insertion of the export row under this parent.
    InsertingExport(i32),
    /// The insertion of the import row under this parent.
    InsertingImport(i32),
    /// The insertion of the power row under this parent.
    InsertingPower(i32),
    /// Committed or aborted: no statement is pending.
    Finished,
}

/// The message of the error that an answer of the wrong kind leads to.
pub open spec fn unexpected_answer_text() -> Seq<char> {
    "unexpected answer from storage"@
}

/// The message of the error that a vanished parent row leads to.
pub open spec fn not_found_text() -> Seq<char> {
    "Record not found"@
}

/// The message of the error that an answer to a finished transaction leads
/// to.
pub open spec fn nothing_pending_text() -> Seq<char> {
    "no statement is pending"@
}

/// An answer of storage, with the message of a failure by its characters.
pub open spec fn answer_view(answer: Result<Answer, String>) -> Result<Answer, Seq<char>> {
    match answer {
        Ok(answer) => Ok(answer),
        Err(message) => Err(message@),
    }
}

impl Stage {
    /// How many statements a transaction at this stage has yet to get
    /// answered, at most.
    pub open spec fn remaining(self) -> nat {
        match self {
            Stage::FindingDuplicate(_) => 7,
            Stage::InsertingMessage => 6,
            Stage::ReadingRowId => 5,
            Stage::LoadingMessage => 4,
            Stage::InsertingExport(_) => 3,
            Stage::InsertingImport(_) => 2,
            Stage::InsertingPower(_) => 1,
            Stage::Finished => 0,
        }
    }

    /// How a transaction opens: with the search for a duplicate, or, where
    /// the timestamp of the reading cannot be read, with an abort.
    pub open spec fn opening(reading: Reading) -> (Stage, ProgressView) {
        Stage::opening_with(Timestamp::of_text(reading.timestamp))
    }

    /// How a transaction opens, given what the timestamp of the reading was
    /// parsed to.
    pub open spec fn opening_with(parsed: Result<Timestamp, Seq<char>>) -> (Stage, ProgressView) {
        match parsed {
            Ok(timestamp) => (
                Stage::FindingDuplicate(timestamp),
                ProgressView::Run(Statement::SelectMessageByTimestamp(timestamp)),
            ),
            Err(message) => (Stage::Finished, ProgressView::Abort(InsertErrorView::TimeParseError(message))),
        }
    }

    /// The stage that follows and the way to go on, given the answer to
    /// the pending statement.
    ///
    /// A duplicate ends the transaction with nothing written. Otherwise the
    /// parent row is inserted, its identifier asked for and the row read
    /// back, and the children go in under that identifier: export, import,
    /// power. A failure of storage, at whatever stage, aborts.
    pub open spec fn next(self, answer: Result<Answer, Seq<char>>) -> (Stage, ProgressView) {
        match (self, answer) {
            (Stage::Finished, _) => (
                Stage::Finished,
                ProgressView::Abort(InsertErrorView::DbError(nothing_pending_text())),
            ),
            (_, Err(message)) => (Stage::Finished, ProgressView::Abort(InsertErrorView::DbError(message))),
            (Stage::FindingDuplicate(_), Ok(Answer::Message(Some(_)))) => (
                Stage::Finished,
                ProgressView::Commit(false),
            ),
            (Stage::FindingDuplicate(timestamp), Ok(Answer::Message(None))) => (
                Stage::InsertingMessage,
                ProgressView::Run(Statement::InsertMessage(NewElectricityMeterMessage { timestamp })),
            ),
            (Stage::InsertingMessage, Ok(Answer::Done)) => (
                Stage::ReadingRowId,
                ProgressView::Run(Statement::SelectLastInsertRowId),
            ),
            (Stage::ReadingRowId, Ok(Answer::RowId(id))) => (
                Stage::LoadingMessage,
                ProgressView::Run(Statement::SelectMessageById(id)),
            ),
            (Stage::LoadingMessage, Ok(Answer::Message(Some(row)))) => (
                Stage::InsertingExport(row.electricity_meter_message_id),
                ProgressView::Run(Statement::InsertExport(row.electricity_meter_message_id)),
            ),
            (Stage::LoadingMessage, Ok(Answer::Message(None))) => (
                Stage::Finished,
                ProgressView::Abort(InsertErrorView::DbError(not_found_text())),
            ),
            (Stage::InsertingExport(id), Ok(Answer::Done)) => (
                Stage::InsertingImport(id),
                ProgressView::Run(Statement::InsertImport(id)),
            ),
            (Stage::InsertingImport(id), Ok(Answer::Done)) => (
                Stage::InsertingPower(id),
                ProgressView::Run(Statement::InsertPower(id)),
            ),
            (Stage::InsertingPower(_), Ok(Answer::Done)) => (Stage::Finished, ProgressView::Commit(true)),
            _ => (Stage::Finished, ProgressView::Abort(InsertErrorView::DbError(unexpected_answer_text()))),
        }
    }
}

/// A write transaction in progress.
#[derive(Clone, Copy, Debug, PartialEq, Eq)]
pub struct InsertTransaction {
    stage: Stage,
}

impl View for InsertTransaction {
    type V = Stage;

    closed spec fn view(&self) -> Stage {
        self.stage
    }
}

impl InsertTransaction {
    /// Opens the transaction for a reading and names its first step.
    pub fn begin(message: &ElectricityMeterMessage) -> (opened: (InsertTransaction, Progress))
        ensures
            (opened.0@, opened.1@) == Stage::opening(message@),
    {
        InsertTransaction::open(Timestamp::parse(message.electricitymeter.timestamp.as_str()))
    }

    /// Opens the transaction for a reading whose timestamp was parsed with
    /// this result: with the search for a duplicate where it was read, with
    /// an abort where it was not.
    pub fn open(parsed: Result<Timestamp, String>) -> (opened: (InsertTransaction, Progress))
        ensures
            (opened.0@, opened.1@) == Stage::opening_with(crate::timestamp::parse_outcome(parsed)),
    {
        match parsed {
            Ok(timestamp) => (
                InsertTransaction { stage: Stage::FindingDuplicate(timestamp) },
                Progress::Run(Statement::SelectMessageByTimestamp(timestamp)),
            ),
            Err(text) => (
                InsertTransaction { stage: Stage::Finished },
                Progress::Abort(InsertError::TimeParseError(text)),
            ),
        }
    }

    /// The stage at which the transaction stands.
    pub fn stage(&self) -> (stage: Stage)
        ensures
            stage == self@,
    {
        self.stage
    }

    /// Takes the answer to the pending statement and names the next step.
    pub fn advance(&mut self, answer: Result<Answer, String>) -> (progress: Progress)
        ensures
            (final(self)@, progress@) == old(self)@.next(answer_view(answer)),
    {
        let stage = self.stage;
        self.stage = Stage::Finished;
        if let Stage::Finished = stage {
            return Progress::Abort(InsertError::DbError("no statement is pending".to_owned()));
        }
        let answer = match answer {
            Ok(answer) => answer,
            Err(text) => {
                return Progress::Abort(InsertError::DbError(text));
            },
        };
        match (stage, answer) {
            (Stage::FindingDuplicate(_), Answer::Message(Some(_))) => Progress::Commit(false),
            (Stage::FindingDuplicate(timestamp), Answer::Message(None)) => {
                self.stage = Stage::InsertingMessage;
                Progress::Run(Statement::InsertMessage(NewElectricityMeterMessage { timestamp }))
            },
            (Stage::InsertingMessage, Answer::Done) => {
                self.stage = Stage::ReadingRowId;
                Progress::Run(Statement::SelectLastInsertRowId)
            },
            (Stage::ReadingRowId, Answer::RowId(id)) => {
                self.stage = Stage::LoadingMessage;
                Progress::Run(Statement::SelectMessageById(id))
            },
            (Stage::LoadingMessage, Answer::Message(Some(row))) => {
                self.stage = Stage::InsertingExport(row.electricity_meter_message_id);
                Progress::Run(Statement::InsertExport(row.electricity_meter_message_id))
            },
            (Stage::LoadingMessage, Answer::Message(None)) => Progress::Abort(
                InsertError::DbError("Record not found".to_owned()),
            ),
            (Stage::InsertingExport(id), Answer::Done) => {
                self.stage = Stage::InsertingImport(id);
                Progress::Run(Statement::InsertImport(id))
            },
            (Stage::InsertingImport(id), Answer::Done) => {
                self.stage = Stage::InsertingPower(id);
                Progress::Run(Statement::InsertPower(id))
            },
            (Stage::InsertingPower(_), Answer::Done) => Progress::Commit(true),
            _ => Progress::Abort(InsertError::DbError("unexpected answer from storage".to_owned())),
        }
    }
}

impl Tables {
    /// True when each table has room for one more row.
    pub open spec fn has_room(self, capacity: Capacity) -> bool {
        &&& self.messages.len() < capacity.messages
        &&& self.exports.len() < capacity.exports
        &&& self.imports.len() < capacity.imports
        &&& self.powers.len() < capacity.powers
    }

    /// The tables with the parent row of a new record set.
    pub open spec fn with_message(self, timestamp: Timestamp) -> Tables {
        Tables {
            messages: self.messages.push(
                MessageRow { electricity_meter_message_id: self.next_id() as i32, timestamp },
            ),
            ..self
        }
    }

    /// The tables with the record set of a reading: the parent row under the
    /// next identifier, and one child row in each child table.
    pub open spec fn with_record_set(self, timestamp: Timestamp, reading: Reading) -> Tables {
        Tables {
            messages: self.messages.push(
                MessageRow { electricity_meter_message_id: self.next_id() as i32, timestamp },
            ),
            exports: self.exports.push(export_row(self.next_id() as i32, reading)),
            imports: self.imports.push(import_row(self.next_id() as i32, reading)),
            powers: self.powers.push(power_row(self.next_id() as i32, reading)),
        }
    }

    /// The lengths of the tables, as a savepoint holds them.
    pub open spec fn mark(self) -> Savepoint {
        Savepoint {
            messages: self.messages.len() as usize,
            exports: self.exports.len() as usize,
            imports: self.imports.len() as usize,
            powers: self.powers.len() as usize,
        }
    }
}

/// What recording a reading does to the tables, and what it returns.
///
/// A reading whose timestamp cannot be read is refused. One whose
/// timestamp is stored already is a duplicate: nothing is written and the
/// answer is `false`. Otherwise its record set is written as a whole and
/// the answer is `true`, unless a table has no room for its row: then
/// nothing is written and the error of storage is returned.
pub open spec fn recorded(tables: Tables, capacity: Capacity, reading: Reading) -> (
    Tables,
    Result<bool, InsertErrorView>,
) {
    match Timestamp::of_text(reading.timestamp) {
        Err(message) => (tables, Err(InsertErrorView::TimeParseError(message))),
        Ok(timestamp) => if tables.holds_timestamp(timestamp) {
            (tables, Ok(false))
        } else if !tables.has_room(capacity) {
            (tables, Err(InsertErrorView::DbError(StoreError::Full.text())))
        } else {
            (tables.with_record_set(timestamp, reading), Ok(true))
        },
    }
}

/// The outcome of a recording, with the error by its content.
pub open spec fn outcome_view(outcome: Result<bool, InsertError>) -> Result<bool, InsertErrorView> {
    match outcome {
        Ok(inserted) => Ok(inserted),
        Err(error) => Err(error@),
    }
}

/// The invariant of a transaction that runs against a store: at every
/// stage the tables hold what was there before and the rows that the
/// statements so far have added, and the step that is due leads to the
/// outcome that `recorded` gives.
spec fn on_track(
    stage: Stage,
    progress: ProgressView,
    now: Tables,
    last_rowid: i32,
    before: Tables,
    capacity: Capacity,
    reading: Reading,
) -> bool {
    let id = before.next_id() as i32;
    match progress {
        ProgressView::Commit(inserted) => stage == Stage::Finished && recorded(before, capacity, reading) == (
            now,
            Ok::<bool, InsertErrorView>(inserted),
        ),
        ProgressView::Abort(error) => {
            &&& stage == Stage::Finished
            &&& recorded(before, capacity, reading) == (before, Err::<bool, InsertErrorView>(error))
            &&& now.back_to(before.mark()) == before
        },
        ProgressView::Run(statement) => {
            &&& Timestamp::of_text(reading.timestamp) matches Ok(timestamp)
            &&& match stage {
                Stage::FindingDuplicate(sought) => {
                    &&& sought == timestamp
                    &&& statement == Statement::SelectMessageByTimestamp(timestamp)
                    &&& now == before
                },
                Stage::InsertingMessage => {
                    &&& statement == Statement::InsertMessage(NewElectricityMeterMessage { timestamp })
                    &&& now == before
                    &&& !before.holds_timestamp(timestamp)
                },
                Stage::ReadingRowId => {
                    &&& statement == Statement::SelectLastInsertRowId
                    &&& now == before.with_message(timestamp)
                    &&& last_rowid == id
                    &&& !before.holds_timestamp(timestamp)
                    &&& before.messages.len() < capacity.messages
                },
                Stage::LoadingMessage => {
                    &&& statement == Statement::SelectMessageById(id)
                    &&& now == before.with_message(timestamp)
                    &&& !before.holds_timestamp(timestamp)
                    &&& before.messages.len() < capacity.messages
                },
                Stage::InsertingExport(parent) => {
                    &&& parent == id
                    &&& statement == Statement::InsertExport(id)
                    &&& now == before.with_message(timestamp)
                    &&& !before.holds_timestamp(timestamp)
                    &&& before.messages.len() < capacity.messages
                },
                Stage::InsertingImport(parent) => {
                    &&& parent == id
                    &&& statement == Statement::InsertImport(id)
                    &&& now == (Tables {
                        exports: before.exports.push(export_row(id, reading)),
                        ..before.with_message(timestamp)
                    })
                    &&& !before.holds_timestamp(timestamp)
                    &&& before.messages.len() < capacity.messages
                    &&& before.exports.len() < capacity.exports
                },
                Stage::InsertingPower(parent) => {
                    &&& parent == id
                    &&& statement == Statement::InsertPower(id)
                    &&& now == (Tables {
                        exports: before.exports.push(export_row(id, reading)),
                        imports: before.imports.push(import_row(id, reading)),
                        ..before.with_message(timestamp)
                    })
                    &&& !before.holds_timestamp(timestamp)
                    &&& before.messages.len() < capacity.messages
                    &&& before.exports.len() < capacity.exports
                    &&& before.imports.len() < capacity.imports
                },
                Stage::Finished => false,
            }
        },
    }
}

/// Cutting a table back to its length, with or without one more row, gives
/// the table.
proof fn lemma_first_rows<T>(rows: Seq<T>, row: T)
    ensures
        first_rows(rows, rows.len()) == rows,
        first_rows(rows.push(row), rows.len()) == rows,
{
    assert(rows.push(row).subrange(0, rows.len() as int) =~= rows);
}

/// What storage does with a statement: the answer it gives, and what the
/// tables and the last generated identifier are afterwards.
///
/// A selection changes nothing. An insertion appends its row, or fails
/// and changes nothing: a parent row fails on a timestamp that is stored
/// already, and any row on a table without room.
pub open spec fn answers(
    statement: Statement,
    reading: Reading,
    earlier: Tables,
    earlier_rowid: i32,
    capacity: Capacity,
    answer: Result<Answer, Seq<char>>,
    later: Tables,
    later_rowid: i32,
) -> bool {
    match statement {
        Statement::SelectMessageByTimestamp(timestamp) => {
            &&& later == earlier
            &&& later_rowid == earlier_rowid
            &&& answer matches Ok(Answer::Message(found))
            &&& found is Some <==> earlier.holds_timestamp(timestamp)
            &&& found matches Some(row) ==> row.timestamp == timestamp && earlier.messages.contains(row)
        },
        Statement::InsertMessage(row) => if earlier.holds_timestamp(row.timestamp) {
            &&& later == earlier
            &&& later_rowid == earlier_rowid
            &&& answer == Err::<Answer, Seq<char>>(StoreError::DuplicateTimestamp.text())
        } else if earlier.messages.len() >= capacity.messages {
            &&& later == earlier
            &&& later_rowid == earlier_rowid
            &&& answer == Err::<Answer, Seq<char>>(StoreError::Full.text())
        } else {
            &&& later == earlier.with_message(row.timestamp)
            &&& later_rowid == earlier.next_id()
            &&& answer == Ok::<Answer, Seq<char>>(Answer::Done)
        },
        Statement::SelectLastInsertRowId => {
            &&& later == earlier
            &&& later_rowid == earlier_rowid
            &&& answer == Ok::<Answer, Seq<char>>(Answer::RowId(earlier_rowid))
        },
        Statement::SelectMessageById(id) => {
            &&& later == earlier
            &&& later_rowid == earlier_rowid
            &&& answer == Ok::<Answer, Seq<char>>(
                Answer::Message(
                    if 1 <= id <= earlier.messages.len() {
                        Some(earlier.messages[id - 1])
                    } else {
                        None
                    },
                ),
            )
        },
        Statement::InsertExport(id) => if earlier.exports.len() >= capacity.exports {
            &&& later == earlier
            &&& later_rowid == earlier_rowid
            &&& answer == Err::<Answer, Seq<char>>(StoreError::Full.text())
        } else {
            &&& later == (Tables { exports: earlier.exports.push(export_row(id, reading)), ..earlier })
            &&& later_rowid == earlier.exports.len() + 1
            &&& answer == Ok::<Answer, Seq<char>>(Answer::Done)
        },
        Statement::InsertImport(id) => if earlier.imports.len() >= capacity.imports {
            &&& later == earlier
            &&& later_rowid == earlier_rowid
            &&& answer == Err::<Answer, Seq<char>>(StoreError::Full.text())
        } else {
            &&& later == (Tables { imports: earlier.imports.push(import_row(id, reading)), ..earlier })
            &&& later_rowid == earlier.imports.len() + 1
            &&& answer == Ok::<Answer, Seq<char>>(Answer::Done)
        },
        Statement::InsertPower(id) => if earlier.powers.len() >= capacity.powers {
            &&& later == earlier
            &&& later_rowid == earlier_rowid
            &&& answer == Err::<Answer, Seq<char>>(StoreError::Full.text())
        } else {
            &&& later == (Tables { powers: earlier.powers.push(power_row(id, reading)), ..earlier })
            &&& later_rowid == earlier.powers.len() + 1
            &&& answer == Ok::<Answer, Seq<char>>(Answer::Done)
        },
    }
}

/// One step of a transaction that is on track leaves it on track.
proof fn lemma_step_on_track(
    stage: Stage,
    statement: Statement,
    earlier: Tables,
    earlier_rowid: i32,
    before: Tables,
    capacity: Capacity,
    reading: Reading,
    answer: Result<Answer, Seq<char>>,
    later: Tables,
    later_rowid: i32,
)
    requires
        before.numbered(),
        before.messages.len() <= capacity.messages <= crate::store::MAX_ROWS,
        before.exports.len() <= capacity.exports <= crate::store::MAX_ROWS,
        before.imports.len() <= capacity.imports <= crate::store::MAX_ROWS,
        before.powers.len() <= capacity.powers <= crate::store::MAX_ROWS,
        on_track(stage, ProgressView::Run(statement), earlier, earlier_rowid, before, capacity, reading),
        answers(statement, reading, earlier, earlier_rowid, capacity, answer, later, later_rowid),
    ensures
        on_track(stage.next(answer).0, stage.next(answer).1, later, later_rowid, before, capacity, reading),
        stage.next(answer).0.remaining() < stage.remaining(),
{
    let timestamp = Timestamp::of_text(reading.timestamp)->Ok_0;
    let id = before.next_id() as i32;
    lemma_first_rows(before.messages, MessageRow { electricity_meter_message_id: id, timestamp });
    lemma_first_rows(before.exports, export_row(id, reading));
    lemma_first_rows(before.imports, import_row(id, reading));
    lemma_first_rows(before.powers, power_row(id, reading));
    assert(earlier.back_to(before.mark()) == before);
    assert(later.back_to(before.mark()) == before || stage.next(answer).1 !is Abort);
    match stage {
        Stage::FindingDuplicate(_) => {},
        Stage::InsertingMessage => {},
        Stage::ReadingRowId => {},
        Stage::LoadingMessage => {
            assert(earlier.messages[id - 1].electricity_meter_message_id == id);
        },
        Stage::InsertingExport(_) => {},
        Stage::InsertingImport(_) => {},
        Stage::InsertingPower(_) => {},
        Stage::Finished => {},
    }
}

/// Runs one statement of the transaction against the store. The rows of
/// the three child tables are built from the reading.
pub fn execute(store: &mut Store, statement: Statement, reading: &ElectricityMeter) -> (answer: Result<
    Answer,
    String,
>)
    requires
        old(store).wf(),
    ensures
        final(store).wf(),
        final(store).capacity() == old(store).capacity(),
        answers(
            statement,
            reading@,
            old(store)@,
            old(store).last_rowid(),
            old(store).capacity(),
            answer_view(answer),
            final(store)@,
            final(store).last_rowid(),
        ),
{
    let done = match statement {
        Statement::SelectMessageByTimestamp(timestamp) => {
            return Ok(Answer::Message(store.find_by_timestamp(timestamp)));
        },
        Statement::InsertMessage(row) => store.insert_message(row),
        Statement::SelectLastInsertRowId => {
            return Ok(Answer::RowId(store.last_insert_rowid()));
        },
        Statement::SelectMessageById(id) => {
            return Ok(Answer::Message(store.find_by_id(id)));
        },
        Statement::InsertExport(id) => store.insert_export(NewEnergyExportData::for_reading(id, reading)),
        Statement::InsertImport(id) => store.insert_import(NewEnergyImportData::for_reading(id, reading)),
        Statement::InsertPower(id) => store.insert_power(NewPowerReading::for_reading(id, reading)),
    };
    match done {
        Ok(()) => Ok(Answer::Done),
        Err(error) => Err(error.message()),
    }
}

/// Records a reading in the store, exactly once.
///
/// The whole record set is written, or nothing: on an error the store is
/// back at what it held before the call.
pub fn insert_electricity_meter_message(store: &mut Store, message: &ElectricityMeterMessage) -> (outcome:
    Result<bool, InsertError>)
    requires
        old(store).wf(),
    ensures
        final(store).wf(),
        final(store).capacity() == old(store).capacity(),
        (final(store)@, outcome_view(outcome)) == recorded(old(store)@, old(store).capacity(), message@),
        old(store)@.whole() ==> final(store)@.whole(),
{
    let savepoint = store.begin();
    let (mut transaction, mut progress) = InsertTransaction::begin(message);
    proof {
        store.lemma_wf();
        assert(store@.back_to(store@.mark()) =~= store@);
        if store@.whole() {
            law_record_sets_stay_whole(store@, store.capacity(), message@);
        }
    }
    loop
        invariant
            store.wf(),
            store.capacity() == old(store).capacity(),
            savepoint == old(store)@.mark(),
            old(store)@.whole() ==> recorded(old(store)@, old(store).capacity(), message@).0.whole(),
            old(store)@.numbered(),
            old(store)@.messages.len() <= old(store).capacity().messages <= crate::store::MAX_ROWS,
            old(store)@.exports.len() <= old(store).capacity().exports <= crate::store::MAX_ROWS,
            old(store)@.imports.len() <= old(store).capacity().imports <= crate::store::MAX_ROWS,
            old(store)@.powers.len() <= old(store).capacity().powers <= crate::store::MAX_ROWS,
            on_track(
                transaction@,
                progress@,
                store@,
                store.last_rowid(),
                old(store)@,
                old(store).capacity(),
                message@,
            ),
        decreases transaction@.remaining(),
    {
        let step = progress;
        match step {
            Progress::Run(statement) => {
                let ghost earlier = store@;
                let ghost earlier_rowid = store.last_rowid();
                let ghost stage = transaction@;
                let answer = execute(store, statement, &message.electricitymeter);
                let ghost answered = answer_view(answer);
                progress = transaction.advance(answer);
                proof {
                    lemma_step_on_track(
                        stage,
                        statement,
                        earlier,
                        earlier_rowid,
                        old(store)@,
                        old(store).capacity(),
                        message@,
                        answered,
                        store@,
                        store.last_rowid(),
                    );
                }
            },
            Progress::Commit(inserted) => {
                return Ok(inserted);
            },
            Progress::Abort(error) => {
                store.rollback(savepoint);
                return Err(error);
            },
        }
    }
}

/// Recording is idempotent: once a reading has been recorded, or found to
/// be a duplicate, recording it again writes nothing and answers `false`.
/// After a refusal the tables are as they were, so the next attempt meets
/// what the first one met.
pub proof fn law_recording_twice_stores_once(tables: Tables, capacity: Capacity, reading: Reading)
    ensures
        ({
            let (after, first) = recorded(tables, capacity, reading);
            let (again, second) = recorded(after, capacity, reading);
            &&& again == after
            &&& first is Ok ==> second == Ok::<bool, InsertErrorView>(false)
            &&& first is Err ==> after == tables && second == first
        }),
{
    let (after, first) = recorded(tables, capacity, reading);
    if first == Ok::<bool, InsertErrorView>(true) {
        let timestamp = Timestamp::of_text(reading.timestamp)->Ok_0;
        lemma_record_set_holds_timestamp(tables, timestamp, reading);
    }
}

/// A record set is written as a whole or not at all: recording either
/// leaves every table as it was, or answers `true` and adds exactly one row
/// to each of the four tables. On an error nothing is written.
pub proof fn law_record_set_is_atomic(tables: Tables, capacity: Capacity, reading: Reading)
    ensures
        ({
            let (after, outcome) = recorded(tables, capacity, reading);
            &&& outcome != Ok::<bool, InsertErrorView>(true) ==> after == tables
            &&& outcome == Ok::<bool, InsertErrorView>(true) ==> {
                &&& after.messages.len() == tables.messages.len() + 1
                &&& after.exports.len() == tables.exports.len() + 1
                &&& after.imports.len() == tables.imports.len() + 1
                &&& after.powers.len() == tables.powers.len() + 1
                &&& after.messages.drop_last() == tables.messages
                &&& after.exports.drop_last() == tables.exports
                &&& after.imports.drop_last() == tables.imports
                &&& after.powers.drop_last() == tables.powers
            }
        }),
{
    let (after, outcome) = recorded(tables, capacity, reading);
    if outcome == Ok::<bool, InsertErrorView>(true) {
        assert(after.messages.drop_last() =~= tables.messages);
        assert(after.exports.drop_last() =~= tables.exports);
        assert(after.imports.drop_last() =~= tables.imports);
        assert(after.powers.drop_last() =~= tables.powers);
    }
}

/// Where the row of one table cannot be stored, none of the four is: a
/// new reading that meets a table without room is refused with the error
/// of storage, and the tables stay as they were.
pub proof fn law_failed_insert_stores_nothing(tables: Tables, capacity: Capacity, reading: Reading)
    requires
        Timestamp::of_text(reading.timestamp) matches Ok(timestamp) && !tables.holds_timestamp(timestamp),
        !tables.has_room(capacity),
    ensures
        recorded(tables, capacity, reading) == (
            tables,
            Err::<bool, InsertErrorView>(InsertErrorView::DbError(StoreError::Full.text())),
        ),
{
}

/// A failure of storage aborts the transaction at whatever stage it
/// strikes, with the message of storage as the error.
pub proof fn law_storage_failure_aborts(stage: Stage, message: Seq<char>)
    requires
        stage != Stage::Finished,
    ensures
        stage.next(Err(message)) == (Stage::Finished, ProgressView::Abort(InsertErrorView::DbError(message))),
{
}

/// A transaction comes to its end: every answer takes it to a stage with
/// fewer statements left, so it asks for seven statements at most, and it
/// asks for another statement exactly as long as it is not finished.
pub proof fn law_transaction_ends(stage: Stage, answer: Result<Answer, Seq<char>>)
    ensures
        stage.remaining() <= 7,
        stage != Stage::Finished ==> stage.next(answer).0.remaining() < stage.remaining(),
        stage.next(answer).1 is Run <==> stage.next(answer).0 != Stage::Finished,
{
}

/// Of two readings with the same timestamp the one that is recorded first
/// is kept: once it is stored, the other is a duplicate, whatever its
/// numbers are, and leaves the tables as the first one left them.
pub proof fn law_first_reading_wins(tables: Tables, capacity: Capacity, first: Reading, second: Reading)
    requires
        Timestamp::of_text(first.timestamp) is Ok,
        Timestamp::of_text(first.timestamp) == Timestamp::of_text(second.timestamp),
    ensures
        ({
            let (after, outcome) = recorded(tables, capacity, first);
            outcome is Ok ==> recorded(after, capacity, second) == (after, Ok::<bool, InsertErrorView>(false))
        }),
{
    let (after, outcome) = recorded(tables, capacity, first);
    if outcome == Ok::<bool, InsertErrorView>(true) {
        let timestamp = Timestamp::of_text(first.timestamp)->Ok_0;
        lemma_record_set_holds_timestamp(tables, timestamp, first);
    }
}

/// Tables that hold nothing hold whole record sets.
pub proof fn law_empty_tables_are_whole()
    ensures
        Tables::empty().whole(),
        Tables::empty().numbered(),
        Tables::empty().distinct(),
{
}

/// Recording keeps the tables sound: where the parent rows are numbered in
/// order with distinct timestamps, and every parent row has exactly one
/// child in each child table and every child its parent, the same holds
/// after a reading has been recorded.
pub proof fn law_record_sets_stay_whole(tables: Tables, capacity: Capacity, reading: Reading)
    requires
        tables.numbered(),
        tables.distinct(),
        tables.whole(),
        capacity.messages <= crate::store::MAX_ROWS,
    ensures
        recorded(tables, capacity, reading).0.numbered(),
        recorded(tables, capacity, reading).0.distinct(),
        recorded(tables, capacity, reading).0.whole(),
{
    let (after, outcome) = recorded(tables, capacity, reading);
    if outcome == Ok::<bool, InsertErrorView>(true) {
        let timestamp = Timestamp::of_text(reading.timestamp)->Ok_0;
        let id = tables.next_id() as i32;
        let count = tables.messages.len() as int;
        assert(after.messages[count].electricity_meter_message_id == id);
        assert(after.messages.drop_last() =~= tables.messages);
        assert forall|i: int, j: int| 0 <= i < j < after.messages.len() implies {
            &&& (#[trigger] after.messages[i]).electricity_meter_message_id != (
            #[trigger] after.messages[j]).electricity_meter_message_id
            &&& after.messages[i].timestamp != after.messages[j].timestamp
        } by {
            if j == count {
                assert(tables.messages[i].timestamp != timestamp);
            }
        }
        assert(after.export_parents() =~= tables.export_parents().push(id));
        assert(after.import_parents() =~= tables.import_parents().push(id));
        assert(after.power_parents() =~= tables.power_parents().push(id));
        lemma_new_parent_is_named_once(tables, tables.export_parents());
        lemma_new_parent_is_named_once(tables, tables.import_parents());
        lemma_new_parent_is_named_once(tables, tables.power_parents());
        assert forall|m: int| 0 <= m < after.messages.len() implies {
            &&& names_once(after.export_parents(), (#[trigger] after.messages[m]).electricity_meter_message_id)
            &&& names_once(after.import_parents(), after.messages[m].electricity_meter_message_id)
            &&& names_once(after.power_parents(), after.messages[m].electricity_meter_message_id)
        } by {
            if m < count {
                let parent = tables.messages[m].electricity_meter_message_id;
                lemma_named_once_still(tables.export_parents(), parent, id);
                lemma_named_once_still(tables.import_parents(), parent, id);
                lemma_named_once_still(tables.power_parents(), parent, id);
            }
        }
        assert forall|c: int| 0 <= c < after.exports.len() implies after.holds_message(
            #[trigger] after.export_parents()[c],
        ) by {
            lemma_parent_stays(tables, after, tables.export_parents(), c);
        }
        assert forall|c: int| 0 <= c < after.imports.len() implies after.holds_message(
            #[trigger] after.import_parents()[c],
        ) by {
            lemma_parent_stays(tables, after, tables.import_parents(), c);
        }
        assert forall|c: int| 0 <= c < after.powers.len() implies after.holds_message(
            #[trigger] after.power_parents()[c],
        ) by {
            lemma_parent_stays(tables, after, tables.power_parents(), c);
        }
    }
}

/// A parent that is named once is still named once when a row for
/// another parent is added.
proof fn lemma_named_once_still(parents: Seq<i32>, parent: i32, added: i32)
    requires
        names_once(parents, parent),
        added != parent,
    ensures
        names_once(parents.push(added), parent),
{
    let c = choose|c: int|
        {
            &&& 0 <= c < parents.len()
            &&& #[trigger] parents[c] == parent
            &&& forall|d: int| 0 <= d < parents.len() && #[trigger] parents[d] == parent ==> d == c
        };
    let longer = parents.push(added);
    assert(longer[c] == parent);
    assert forall|d: int| 0 <= d < longer.len() && #[trigger] longer[d] == parent implies d == c by {
        if d < parents.len() {
            assert(parents[d] == parent);
        }
    }
}

/// Where every child row has its parent and the parents are numbered, the
/// parent with the next identifier is named by no row yet, and by exactly
/// one once its row is added.
proof fn lemma_new_parent_is_named_once(tables: Tables, parents: Seq<i32>)
    requires
        tables.numbered(),
        tables.messages.len() < crate::store::MAX_ROWS,
        forall|c: int| 0 <= c < parents.len() ==> tables.holds_message(#[trigger] parents[c]),
    ensures
        names_once(parents.push(tables.next_id() as i32), tables.next_id() as i32),
{
    let id = tables.next_id() as i32;
    let longer = parents.push(id);
    let last = parents.len() as int;
    assert(longer[last] == id);
    assert forall|d: int| 0 <= d < longer.len() && #[trigger] longer[d] == id implies d == last by {
        if d < last {
            assert(tables.holds_message(parents[d]));
        }
    }
}

/// Every row of a child table has its parent after a record set was added:
/// the earlier rows the parents they had, the new row the new parent.
proof fn lemma_parent_stays(tables: Tables, after: Tables, parents: Seq<i32>, child: int)
    requires
        after.messages == tables.messages.push(after.messages.last()),
        0 <= child <= parents.len(),
        forall|c: int| 0 <= c < parents.len() ==> tables.holds_message(#[trigger] parents[c]),
    ensures
        after.holds_message(parents.push(after.messages.last().electricity_meter_message_id)[child]),
{
    let last = tables.messages.len() as int;
    if child < parents.len() {
        let parent = parents[child];
        assert(tables.holds_message(parent));
        let i = choose|i: int|
            0 <= i < tables.messages.len() && (#[trigger] tables.messages[i]).electricity_meter_message_id
                == parent;
        assert(after.messages[i].electricity_meter_message_id == parent);
    } else {
        assert(after.messages[last] == after.messages.last());
    }
}

/// The timestamp of a record set is stored once the record set is.
proof fn lemma_record_set_holds_timestamp(tables: Tables, timestamp: Timestamp, reading: Reading)
    ensures
        tables.with_record_set(timestamp, reading).holds_timestamp(timestamp),
{
    let after = tables.with_record_set(timestamp, reading);
    assert(after.messages[tables.messages.len() as int].timestamp == timestamp);
}

} // verus!
