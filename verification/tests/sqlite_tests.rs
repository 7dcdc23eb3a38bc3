use chrono::{Datelike, NaiveDate, NaiveDateTime, Timelike};
use diesel::connection::SimpleConnection;
use diesel::sql_types::{BigInt, Float, Integer, Text};
use diesel::{Connection, OptionalExtension, RunQueryDsl, SqliteConnection};
use glowmarkt_logger::decode::decode_reading;
use glowmarkt_logger::models::{
    ElectricityMeterMessage as MessageRow, NewEnergyExportData, NewEnergyImportData, NewPowerReading,
};
use glowmarkt_logger::operations::{
    insert_electricity_meter_message, Answer, InsertError, InsertTransaction, Progress, Statement,
};
use glowmarkt_logger::reading::{ElectricityMeter, ElectricityMeterMessage};
use glowmarkt_logger::store::Store;
use glowmarkt_logger::timestamp::Timestamp;

const PARENT_TABLE: &str = "CREATE TABLE electricity_meter_messages (
    electricity_meter_message_id INTEGER PRIMARY KEY AUTOINCREMENT NOT NULL,
    timestamp TIMESTAMP NOT NULL UNIQUE);";

const EXPORT_TABLE: &str = "CREATE TABLE energy_export_data (
    energy_export_data_id INTEGER PRIMARY KEY AUTOINCREMENT NOT NULL,
    electricity_meter_message_id INTEGER NOT NULL REFERENCES electricity_meter_messages,
    cumulative FLOAT NOT NULL, units TEXT NOT NULL);";

const IMPORT_TABLE: &str = "CREATE TABLE energy_import_data (
    energy_import_data_id INTEGER PRIMARY KEY AUTOINCREMENT NOT NULL,
    electricity_meter_message_id INTEGER NOT NULL REFERENCES electricity_meter_messages,
    cumulative FLOAT NOT NULL, day FLOAT NOT NULL, week FLOAT NOT NULL, month FLOAT NOT NULL,
    units TEXT NOT NULL, mpan TEXT NOT NULL, supplier TEXT NOT NULL,
    unitrate FLOAT NOT NULL, standingcharge FLOAT NOT NULL);";

const POWER_TABLE: &str = "CREATE TABLE power_readings (
    power_reading_id INTEGER PRIMARY KEY AUTOINCREMENT NOT NULL,
    electricity_meter_message_id INTEGER NOT NULL REFERENCES electricity_meter_messages,
    value FLOAT NOT NULL, units TEXT NOT NULL);";

const BROKEN_POWER_TABLE: &str = "CREATE TABLE power_readings (
    power_reading_id INTEGER PRIMARY KEY AUTOINCREMENT NOT NULL,
    electricity_meter_message_id INTEGER NOT NULL REFERENCES electricity_meter_messages,
    value FLOAT NOT NULL CHECK (value < 0), units TEXT NOT NULL);";

fn database(power_table: &str) -> SqliteConnection {
    let mut conn = SqliteConnection::establish(":memory:").unwrap();
    conn.batch_execute(PARENT_TABLE).unwrap();
    conn.batch_execute(EXPORT_TABLE).unwrap();
    conn.batch_execute(IMPORT_TABLE).unwrap();
    conn.batch_execute(power_table).unwrap();
    conn
}

fn moment(timestamp: Timestamp) -> NaiveDateTime {
    NaiveDate::from_ymd_opt(timestamp.year, timestamp.month, timestamp.day)
        .unwrap()
        .and_hms_nano_opt(timestamp.hour, timestamp.minute, timestamp.second, timestamp.nanosecond)
        .unwrap()
}

fn row(found: (i32, NaiveDateTime)) -> MessageRow {
    MessageRow {
        electricity_meter_message_id: found.0,
        timestamp: Timestamp {
            year: found.1.year(),
            month: found.1.month(),
            day: found.1.day(),
            hour: found.1.hour(),
            minute: found.1.minute(),
            second: found.1.second(),
            nanosecond: found.1.nanosecond(),
        },
    }
}

fn run(conn: &mut SqliteConnection, statement: Statement, reading: &ElectricityMeter) -> Result<Answer, String> {
    let answer = match statement {
        Statement::SelectMessageByTimestamp(timestamp) => diesel::dsl::sql::<(
            Integer,
            diesel::sql_types::Timestamp,
        )>(
            "SELECT electricity_meter_message_id, timestamp FROM electricity_meter_messages WHERE timestamp = ",
        )
        .bind::<diesel::sql_types::Timestamp, _>(moment(timestamp))
        .sql(" LIMIT 1")
        .get_result::<(i32, NaiveDateTime)>(conn)
        .optional()
        .map(|found| Answer::Message(found.map(row))),
        Statement::InsertMessage(new) => {
            diesel::sql_query("INSERT INTO electricity_meter_messages (timestamp) VALUES (?)")
                .bind::<diesel::sql_types::Timestamp, _>(moment(new.timestamp))
                .execute(conn)
                .map(|_| Answer::Done)
        }
        Statement::SelectLastInsertRowId => diesel::dsl::sql::<Integer>("SELECT last_insert_rowid()")
            .get_result::<i32>(conn)
            .map(Answer::RowId),
        Statement::SelectMessageById(id) => diesel::dsl::sql::<(Integer, diesel::sql_types::Timestamp)>(
            "SELECT electricity_meter_message_id, timestamp FROM electricity_meter_messages \
             WHERE electricity_meter_message_id = ",
        )
        .bind::<Integer, _>(id)
        .sql(" LIMIT 1")
        .get_result::<(i32, NaiveDateTime)>(conn)
        .optional()
        .map(|found| Answer::Message(found.map(row))),
        Statement::InsertExport(id) => {
            let new = NewEnergyExportData::for_reading(id, reading);
            diesel::sql_query(
                "INSERT INTO energy_export_data (electricity_meter_message_id, cumulative, units) VALUES (?, ?, ?)",
            )
            .bind::<Integer, _>(new.electricity_meter_message_id)
            .bind::<Float, _>(f32::from_bits(new.cumulative.to_bits()))
            .bind::<Text, _>(new.units)
            .execute(conn)
            .map(|_| Answer::Done)
        }
        Statement::InsertImport(id) => {
            let new = NewEnergyImportData::for_reading(id, reading);
            diesel::sql_query(
                "INSERT INTO energy_import_data (electricity_meter_message_id, cumulative, day, week, month, \
                 units, mpan, supplier, unitrate, standingcharge) VALUES (?, ?, ?, ?, ?, ?, ?, ?, ?, ?)",
            )
            .bind::<Integer, _>(new.electricity_meter_message_id)
            .bind::<Float, _>(f32::from_bits(new.cumulative.to_bits()))
            .bind::<Float, _>(f32::from_bits(new.day.to_bits()))
            .bind::<Float, _>(f32::from_bits(new.week.to_bits()))
            .bind::<Float, _>(f32::from_bits(new.month.to_bits()))
            .bind::<Text, _>(new.units)
            .bind::<Text, _>(new.mpan)
            .bind::<Text, _>(new.supplier)
            .bind::<Float, _>(f32::from_bits(new.unitrate.to_bits()))
            .bind::<Float, _>(f32::from_bits(new.standingcharge.to_bits()))
            .execute(conn)
            .map(|_| Answer::Done)
        }
        Statement::InsertPower(id) => {
            let new = NewPowerReading::for_reading(id, reading);
            diesel::sql_query("INSERT INTO power_readings (electricity_meter_message_id, value, units) VALUES (?, ?, ?)")
                .bind::<Integer, _>(new.electricity_meter_message_id)
                .bind::<Float, _>(f32::from_bits(new.value.to_bits()))
                .bind::<Text, _>(new.units)
                .execute(conn)
                .map(|_| Answer::Done)
        }
    };
    answer.map_err(|error| error.to_string())
}

enum Failure {
    Database(diesel::result::Error),
    Aborted(InsertError),
}

impl From<diesel::result::Error> for Failure {
    fn from(error: diesel::result::Error) -> Failure {
        Failure::Database(error)
    }
}

fn record(conn: &mut SqliteConnection, message: &ElectricityMeterMessage) -> Result<bool, InsertError> {
    conn.transaction::<bool, Failure, _>(|conn| {
        let (mut transaction, mut progress) = InsertTransaction::begin(message);
        loop {
            match progress {
                Progress::Run(statement) => {
                    progress = transaction.advance(run(conn, statement, &message.electricitymeter));
                }
                Progress::Commit(inserted) => return Ok(inserted),
                Progress::Abort(error) => return Err(Failure::Aborted(error)),
            }
        }
    })
    .map_err(|failure| match failure {
        Failure::Database(error) => InsertError::DbError(error.to_string()),
        Failure::Aborted(error) => error,
    })
}

fn count(conn: &mut SqliteConnection, table: &str) -> i64 {
    diesel::dsl::sql::<BigInt>(&format!("SELECT COUNT(*) FROM {}", table)).get_result::<i64>(conn).unwrap()
}

fn counts(conn: &mut SqliteConnection) -> (i64, i64, i64, i64) {
    (
        count(conn, "electricity_meter_messages"),
        count(conn, "energy_export_data"),
        count(conn, "energy_import_data"),
        count(conn, "power_readings"),
    )
}

fn payload(timestamp: &str, power: f64) -> String {
    format!(
        "{{\"electricitymeter\":{{\"timestamp\":\"{}\",\"energy\":{{\"export\":{{\"cumulative\":12.5,\"units\":\"kWh\"}},\
         \"import\":{{\"cumulative\":340.25,\"day\":1.2,\"week\":8.4,\"month\":30.1,\"units\":\"kWh\",\
         \"mpan\":\"1234567890123\",\"supplier\":\"Octopus\",\"price\":{{\"unitrate\":0.2862,\"standingcharge\":0.4201}}}}}},\
         \"power\":{{\"value\":{:?},\"units\":\"kW\"}}}}}}",
        timestamp, power
    )
}

fn reading(timestamp: &str, power: f64) -> ElectricityMeterMessage {
    decode_reading(&payload(timestamp, power)).unwrap()
}

fn messages(conn: &mut SqliteConnection) -> Vec<(i32, NaiveDateTime)> {
    diesel::dsl::sql::<(Integer, diesel::sql_types::Timestamp)>(
        "SELECT electricity_meter_message_id, timestamp FROM electricity_meter_messages \
         ORDER BY electricity_meter_message_id",
    )
    .load::<(i32, NaiveDateTime)>(conn)
    .unwrap()
}

fn exports(conn: &mut SqliteConnection) -> Vec<(i32, i32, f32, String)> {
    diesel::dsl::sql::<(Integer, Integer, Float, Text)>(
        "SELECT energy_export_data_id, electricity_meter_message_id, cumulative, units FROM energy_export_data \
         ORDER BY energy_export_data_id",
    )
    .load::<(i32, i32, f32, String)>(conn)
    .unwrap()
}

fn imports(conn: &mut SqliteConnection) -> Vec<(i32, f32, f32, f32, f32, String, String, String, f32, f32)> {
    diesel::dsl::sql::<(Integer, Float, Float, Float, Float, Text, Text, Text, Float, Float)>(
        "SELECT electricity_meter_message_id, cumulative, day, week, month, units, mpan, supplier, unitrate, \
         standingcharge FROM energy_import_data ORDER BY energy_import_data_id",
    )
    .load::<(i32, f32, f32, f32, f32, String, String, String, f32, f32)>(conn)
    .unwrap()
}

fn powers(conn: &mut SqliteConnection) -> Vec<(i32, f32, String)> {
    diesel::dsl::sql::<(Integer, Float, Text)>(
        "SELECT electricity_meter_message_id, value, units FROM power_readings ORDER BY power_reading_id",
    )
    .load::<(i32, f32, String)>(conn)
    .unwrap()
}

#[test]
fn sqlite_round_trip_gives_one_row_per_table() {
    let mut conn = database(POWER_TABLE);
    assert_eq!(record(&mut conn, &reading("2024-01-01T00:00:00Z", 450.0)), Ok(true));
    assert_eq!(counts(&mut conn), (1, 1, 1, 1));
    let midnight = NaiveDate::from_ymd_opt(2024, 1, 1).unwrap().and_hms_opt(0, 0, 0).unwrap();
    assert_eq!(messages(&mut conn), vec![(1, midnight)]);
    assert_eq!(exports(&mut conn), vec![(1, 1, 12.5f64 as f32, "kWh".to_string())]);
    assert_eq!(
        imports(&mut conn),
        vec![(
            1,
            340.25f64 as f32,
            1.2f64 as f32,
            8.4f64 as f32,
            30.1f64 as f32,
            "kWh".to_string(),
            "1234567890123".to_string(),
            "Octopus".to_string(),
            0.2862f64 as f32,
            0.4201f64 as f32
        )]
    );
    assert_eq!(powers(&mut conn), vec![(1, 450.0f64 as f32, "kW".to_string())]);
}

#[test]
fn sqlite_recording_twice_stores_once() {
    let mut conn = database(POWER_TABLE);
    let message = reading("2024-01-01T00:00:00Z", 450.0);
    assert_eq!(record(&mut conn, &message), Ok(true));
    assert_eq!(record(&mut conn, &message), Ok(false));
    assert_eq!(counts(&mut conn), (1, 1, 1, 1));
}

#[test]
fn sqlite_failing_power_insert_leaves_none_of_the_four_rows() {
    let mut conn = database(BROKEN_POWER_TABLE);
    let before = counts(&mut conn);
    let outcome = record(&mut conn, &reading("2024-01-01T00:00:00Z", 450.0));
    assert!(matches!(outcome, Err(InsertError::DbError(_))), "{:?}", outcome);
    assert_eq!(counts(&mut conn), before);
    assert_eq!(counts(&mut conn), (0, 0, 0, 0));
    // The transaction is over: the next reading is handled on its own terms.
    assert_eq!(record(&mut conn, &reading("2024-01-01T00:00:10Z", -1.0)), Ok(true));
    assert_eq!(counts(&mut conn), (1, 1, 1, 1));
}

#[test]
fn sqlite_keeps_the_first_of_two_readings_with_one_timestamp() {
    let one = reading("2024-01-01T00:00:00Z", 450.0);
    let other = reading("2024-01-01T00:00:00Z", 99.0);
    let mut conn = database(POWER_TABLE);
    assert_eq!(record(&mut conn, &one), Ok(true));
    assert_eq!(record(&mut conn, &other), Ok(false));
    assert_eq!(powers(&mut conn), vec![(1, 450.0, "kW".to_string())]);
    let mut conn = database(POWER_TABLE);
    assert_eq!(record(&mut conn, &other), Ok(true));
    assert_eq!(record(&mut conn, &one), Ok(false));
    assert_eq!(powers(&mut conn), vec![(1, 99.0, "kW".to_string())]);
}

#[test]
fn sqlite_enforces_the_unique_timestamp_itself() {
    let mut conn = database(POWER_TABLE);
    let message = reading("2024-01-01T00:00:00Z", 450.0);
    assert_eq!(record(&mut conn, &message), Ok(true));
    let insert = Statement::InsertMessage(glowmarkt_logger::models::NewElectricityMeterMessage {
        timestamp: Timestamp { year: 2024, month: 1, day: 1, hour: 0, minute: 0, second: 0, nanosecond: 0 },
    });
    assert_eq!(
        run(&mut conn, insert, &message.electricitymeter),
        Err("UNIQUE constraint failed: electricity_meter_messages.timestamp".to_string())
    );
    assert_eq!(counts(&mut conn), (1, 1, 1, 1));
}

#[test]
fn sqlite_and_the_store_hold_the_same_rows() {
    let mut conn = database(POWER_TABLE);
    let mut store = Store::new();
    let deliveries = [
        ("2024-01-01T00:00:00Z", 450.0),
        ("2024-01-01T00:00:10Z", 451.5),
        ("2024-01-01T00:00:00Z", 17.0),
        ("2024-01-01T00:00:20Z", 0.1),
        ("2024-01-01T00:00:10Z", 451.5),
        ("2023-12-31T23:59:59Z", 1e-50),
    ];
    for (timestamp, power) in deliveries {
        let message = reading(timestamp, power);
        let stored = insert_electricity_meter_message(&mut store, &message);
        assert_eq!(record(&mut conn, &message), stored);
    }
    assert_eq!(counts(&mut conn), (4, 4, 4, 4));
    let found = messages(&mut conn);
    assert_eq!(found.len(), store.message_count());
    for (index, message) in found.into_iter().enumerate() {
        assert_eq!(Some(row(message)), store.message(index));
    }
    for (index, export) in exports(&mut conn).into_iter().enumerate() {
        let stored = store.export(index).unwrap();
        assert_eq!(export.0, stored.energy_export_data_id);
        assert_eq!(export.1, stored.electricity_meter_message_id);
        assert_eq!(export.2.to_bits(), stored.cumulative.to_bits());
        assert_eq!(export.3, stored.units);
    }
    for (index, import) in imports(&mut conn).into_iter().enumerate() {
        let stored = store.import(index).unwrap();
        assert_eq!(import.0, stored.electricity_meter_message_id);
        assert_eq!(import.1.to_bits(), stored.cumulative.to_bits());
        assert_eq!(import.4.to_bits(), stored.month.to_bits());
        assert_eq!(import.7, stored.supplier);
        assert_eq!(import.9.to_bits(), stored.standingcharge.to_bits());
    }
    for (index, power) in powers(&mut conn).into_iter().enumerate() {
        let stored = store.power(index).unwrap();
        assert_eq!(power.0, stored.electricity_meter_message_id);
        assert_eq!(power.1.to_bits(), stored.value.to_bits());
        assert_eq!(power.2, stored.units);
    }
}

#[test]
fn sqlite_answers_statements_as_the_store_does() {
    let message = reading("2024-01-01T00:00:00Z", 450.0);
    let meter = &message.electricitymeter;
    let midnight = Timestamp { year: 2024, month: 1, day: 1, hour: 0, minute: 0, second: 0, nanosecond: 0 };
    let statements = [
        Statement::SelectMessageByTimestamp(midnight),
        Statement::SelectMessageById(1),
        Statement::InsertMessage(glowmarkt_logger::models::NewElectricityMeterMessage { timestamp: midnight }),
        Statement::SelectLastInsertRowId,
        Statement::SelectMessageById(1),
        Statement::SelectMessageById(2),
        Statement::SelectMessageByTimestamp(midnight),
        Statement::InsertMessage(glowmarkt_logger::models::NewElectricityMeterMessage { timestamp: midnight }),
        Statement::InsertExport(1),
        Statement::SelectLastInsertRowId,
        Statement::InsertImport(1),
        Statement::InsertPower(1),
        Statement::SelectLastInsertRowId,
    ];
    let mut conn = database(POWER_TABLE);
    let mut store = Store::new();
    for statement in statements {
        assert_eq!(
            run(&mut conn, statement, meter),
            glowmarkt_logger::operations::execute(&mut store, statement, meter),
            "{:?}",
            statement
        );
    }
}
