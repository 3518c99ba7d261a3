use vstd::prelude::*;

use crate::dates::{date_le, parse_iso_date, spec_parse_iso_date, Date};
use crate::readings::Reading;

verus! {

/// SQLite connection handle of the `sqlite` crate, held opaquely.
#[verifier::external_type_specification]
#[verifier::external_body]
pub struct ExConnection(sqlite::Connection);

/// Prepared statement of the `sqlite` crate, held opaquely.
#[verifier::external_type_specification]
#[verifier::external_body]
pub struct ExStatement<'l>(sqlite::Statement<'l>);

/// Error type of the `sqlite` crate, held opaquely.
#[verifier::external_type_specification]
#[verifier::external_body]
pub struct ExSqliteError(sqlite::Error);

/// Relies on sqlite::open: opens a read-write connection to a new or
/// existing database file, reporting failure as an error value.
#[verifier::external_body]
fn open_connection(path: &str) -> Result<sqlite::Connection, sqlite::Error> {
    sqlite::open(path)
}

/// Relies on sqlite::Connection::execute: runs the statements in the
/// given text, reporting failure as an error value.
#[verifier::external_body]
fn execute_sql(conn: &sqlite::Connection, sql: &str) -> Result<(), sqlite::Error> {
    conn.execute(sql)
}

/// Relies on sqlite::Connection::prepare: compiles one statement,
/// reporting failure as an error value.
#[verifier::external_body]
fn prepare_statement<'l>(conn: &'l sqlite::Connection, sql: &str) -> Result<
    sqlite::Statement<'l>,
    sqlite::Error,
> {
    conn.prepare(sql)
}

/// Relies on sqlite::Statement::bind: binds text to the parameter with
/// the given index, the first parameter having index 1.
#[verifier::external_body]
fn bind_text(stmt: &mut sqlite::Statement<'_>, index: usize, value: &str) -> Result<
    (),
    sqlite::Error,
> {
    stmt.bind((index, value))
}

/// Relies on sqlite::Statement::bind: binds an integer to the parameter
/// with the given index, the first parameter having index 1.
#[verifier::external_body]
fn bind_integer(stmt: &mut sqlite::Statement<'_>, index: usize, value: i64) -> Result<
    (),
    sqlite::Error,
> {
    stmt.bind((index, value))
}

/// Relies on sqlite::Statement::next: advances the statement, telling a
/// row available for reading apart from a finished evaluation.
#[verifier::external_body]
fn step_statement(stmt: &mut sqlite::Statement<'_>) -> Result<bool, sqlite::Error> {
    match stmt.next() {
        Ok(sqlite::State::Row) => Ok(true),
        Ok(sqlite::State::Done) => Ok(false),
        Err(e) => Err(e),
    }
}

/// Relies on sqlite::Statement::read: reads the column with the given
/// index of the current row as text, the first column having index 0.
#[verifier::external_body]
fn read_text_column(stmt: &sqlite::Statement<'_>, column: usize) -> Result<String, sqlite::Error> {
    stmt.read::<String, _>(column)
}

/// Relies on sqlite::Statement::read: reads the column with the given
/// index of the current row as an integer, the first column having
/// index 0.
#[verifier::external_body]
fn read_integer_column(stmt: &sqlite::Statement<'_>, column: usize) -> Result<i64, sqlite::Error> {
    stmt.read::<i64, _>(column)
}

/// A failure of the reading store, distinguishable from the normal
/// empty outcome of a lookup.
#[derive(Clone, Copy, PartialEq, Eq, Structural, Debug)]
pub enum StoreError {
    /// The underlying SQLite engine reported a failure, or behaved in a
    /// way the store does not expect.
    Sqlite,
    /// A stored row could not be read back as a well-formed reading for
    /// the date it was filed under.
    BadRow,
}

/// The reading that a stored row denotes: a date in ISO text, and the
/// three energies in thousandths of a kilowatt-hour. A row whose date
/// does not parse, or whose energies leave the accepted magnitude, is a
/// bad row.
pub open spec fn spec_row_to_reading(
    date_text: Seq<char>,
    generation: i64,
    imports: i64,
    exports: i64,
) -> Result<Reading, StoreError> {
    match spec_parse_iso_date(date_text) {
        Some(date) => {
            let reading = Reading { date, generation, exports, imports };
            if reading.wf() {
                Ok(reading)
            } else {
                Err(StoreError::BadRow)
            }
        },
        None => Err(StoreError::BadRow),
    }
}

/// Take the fields of a stored row, get a reading.
pub fn row_to_reading(date_text: &str, generation: i64, imports: i64, exports: i64) -> (r: Result<
    Reading,
    StoreError,
>)
    ensures
        r == spec_row_to_reading(date_text@, generation, imports, exports),
{
    let date = match parse_iso_date(date_text) {
        Some(d) => d,
        None => { return Err(StoreError::BadRow) },
    };
    let reading = Reading { date, generation, exports, imports };
    if -crate::readings::MAX_READING_MILLIKWH <= generation && generation
        <= crate::readings::MAX_READING_MILLIKWH && -crate::readings::MAX_READING_MILLIKWH
        <= exports && exports <= crate::readings::MAX_READING_MILLIKWH
        && -crate::readings::MAX_READING_MILLIKWH <= imports && imports
        <= crate::readings::MAX_READING_MILLIKWH {
        Ok(reading)
    } else {
        Err(StoreError::BadRow)
    }
}

/// The reading with the latest date among those given: nothing when
/// there are none, and otherwise one of them that no other is later
/// than. Among readings sharing the latest date, the first given wins.
pub fn most_recent_of(readings: &Vec<Reading>) -> (r: Option<Reading>)
    ensures
        r is None <==> readings@.len() == 0,
        match r {
            Some(best) => exists|i: int|
                {
                    &&& 0 <= i < readings@.len()
                    &&& readings@[i] == best
                    &&& forall|j: int|
                        0 <= j < i ==> crate::dates::date_lt(
                            (#[trigger] readings@[j]).date,
                            best.date,
                        )
                    &&& forall|j: int|
                        0 <= j < readings@.len() ==> date_le(
                            (#[trigger] readings@[j]).date,
                            best.date,
                        )
                },
            None => true,
        },
{
    if readings.len() == 0 {
        return None;
    }
    let mut best: Reading = readings[0];
    let ghost mut best_at: int = 0;
    let mut idx: usize = 1;
    while idx < readings.len()
        invariant
            1 <= idx <= readings@.len(),
            0 <= best_at < idx,
            readings@[best_at] == best,
            forall|j: int|
                0 <= j < best_at ==> crate::dates::date_lt((#[trigger] readings@[j]).date,
                best.date),
            forall|j: int| 0 <= j < idx ==> date_le((#[trigger] readings@[j]).date, best.date),
        decreases readings@.len() - idx,
    {
        let candidate = readings[idx];
        if best.date.is_before(&candidate.date) {
            best = candidate;
            proof {
                best_at = idx as int;
            }
        }
        idx = idx + 1;
    }
    Some(best)
}

/// Storing, then retrieving: a well-formed reading, filed under its date
/// rendered as ISO text and its energies kept as integers, is read back
/// from that row with every field equal.
pub proof fn lemma_reading_row_round_trip(reading: Reading)
    requires
        reading.wf(),
    ensures
        spec_row_to_reading(
            crate::dates::iso_date_seq(reading.date),
            reading.generation,
            reading.imports,
            reading.exports,
        ) == Ok::<Reading, StoreError>(reading),
{
    crate::dates::lemma_iso_round_trip(reading.date);
}

/// Access to readings stored in a SQLite database, one row per reading,
/// keyed by the reading's date in ISO text.
pub struct Database {
    connection: sqlite::Connection,
}

impl Database {
    /// Get a connection to a database with the given filename, creating
    /// the reading table if this database does not have it yet.
    pub fn open(file: &str) -> (r: Result<Database, StoreError>)
        ensures
            r is Err ==> r->Err_0 == StoreError::Sqlite,
    {
        let connection = match open_connection(file) {
            Ok(c) => c,
            Err(_) => { return Err(StoreError::Sqlite) },
        };
        let db = Database { connection };
        let have_table = match db.table_exists("reading") {
            Ok(b) => b,
            Err(_) => { return Err(StoreError::Sqlite) },
        };
        if !have_table {
            match db.create_tables() {
                Ok(()) => {},
                Err(_) => { return Err(StoreError::Sqlite) },
            }
        }
        Ok(db)
    }

    /// Create all needed tables. Each reading's date is its key, so a
    /// second row for the same date is refused by the store.
    pub fn create_tables(&self) -> (r: Result<(), StoreError>)
        ensures
            r is Err ==> r->Err_0 == StoreError::Sqlite,
    {
        match execute_sql(
            &self.connection,
            "CREATE TABLE reading (\
             date TEXT NOT NULL UNIQUE,\
             generation INTEGER NOT NULL,\
             imports INTEGER NOT NULL,\
             exports INTEGER NOT NULL)",
        ) {
            Ok(()) => Ok(()),
            Err(_) => Err(StoreError::Sqlite),
        }
    }

    /// True if a table with the given name exists.
    pub fn table_exists(&self, name: &str) -> (r: Result<bool, StoreError>)
        ensures
            r is Err ==> r->Err_0 == StoreError::Sqlite,
    {
        let mut statement = match prepare_statement(
            &self.connection,
            "SELECT COUNT(*) FROM sqlite_master WHERE type='table' AND name=?",
        ) {
            Ok(s) => s,
            Err(_) => { return Err(StoreError::Sqlite) },
        };
        match bind_text(&mut statement, 1, name) {
            Ok(()) => {},
            Err(_) => { return Err(StoreError::Sqlite) },
        }
        match step_statement(&mut statement) {
            Ok(true) => {},
            Ok(false) => { return Err(StoreError::Sqlite) },
            Err(_) => { return Err(StoreError::Sqlite) },
        }
        let count = match read_integer_column(&statement, 0) {
            Ok(n) => n,
            Err(_) => { return Err(StoreError::Sqlite) },
        };
        Ok(count == 1)
    }

    /// Add a new reading to the database, its date stored as ISO text
    /// and its energies stored losslessly as integer counts of
    /// thousandths of a kilowatt-hour.
    pub fn add_reading(&self, reading: &Reading) -> (r: Result<(), StoreError>)
        requires
            reading.wf(),
        ensures
            r is Err ==> r->Err_0 == StoreError::Sqlite,
    {
        let mut statement = match prepare_statement(
            &self.connection,
            "INSERT INTO reading (date, generation, imports, exports) VALUES (?, ?, ?, ?)",
        ) {
            Ok(s) => s,
            Err(_) => { return Err(StoreError::Sqlite) },
        };
        let date_text = reading.date.iso_string();
        match bind_text(&mut statement, 1, date_text.as_str()) {
            Ok(()) => {},
            Err(_) => { return Err(StoreError::Sqlite) },
        }
        match bind_integer(&mut statement, 2, reading.generation) {
            Ok(()) => {},
            Err(_) => { return Err(StoreError::Sqlite) },
        }
        match bind_integer(&mut statement, 3, reading.imports) {
            Ok(()) => {},
            Err(_) => { return Err(StoreError::Sqlite) },
        }
        match bind_integer(&mut statement, 4, reading.exports) {
            Ok(()) => {},
            Err(_) => { return Err(StoreError::Sqlite) },
        }
        match step_statement(&mut statement) {
            Ok(_) => Ok(()),
            Err(_) => Err(StoreError::Sqlite),
        }
    }

    /// Get the reading for a given date, or nothing if there is none.
    /// A row filed under the date that does not come back as that very
    /// date, well-formed, is reported as a bad row.
    pub fn get_reading_for_date(&self, date: Date) -> (r: Result<Option<Reading>, StoreError>)
        requires
            date.wf(),
        ensures
            match r {
                Ok(Some(reading)) => reading.wf() && reading.date == date,
                Ok(None) => true,
                Err(e) => e == StoreError::Sqlite || e == StoreError::BadRow,
            },
    {
        let mut statement = match prepare_statement(
            &self.connection,
            "SELECT date, generation, imports, exports FROM reading WHERE date = ?",
        ) {
            Ok(s) => s,
            Err(_) => { return Err(StoreError::Sqlite) },
        };
        let date_text = date.iso_string();
        match bind_text(&mut statement, 1, date_text.as_str()) {
            Ok(()) => {},
            Err(_) => { return Err(StoreError::Sqlite) },
        }
        match step_statement(&mut statement) {
            Ok(true) => {},
            Ok(false) => { return Ok(None) },
            Err(_) => { return Err(StoreError::Sqlite) },
        }
        let reading = match Self::read_row(&statement) {
            Ok(rd) => rd,
            Err(e) => { return Err(e) },
        };
        if reading.date == date {
            Ok(Some(reading))
        } else {
            Err(StoreError::BadRow)
        }
    }

    /// The stored reading with the latest date, or nothing if the store
    /// is empty.
    pub fn most_recent_reading(&self) -> (r: Result<Option<Reading>, StoreError>)
        ensures
            match r {
                Ok(Some(reading)) => reading.wf(),
                Ok(None) => true,
                Err(e) => e == StoreError::Sqlite || e == StoreError::BadRow,
            },
    {
        let all = match self.all_readings() {
            Ok(v) => v,
            Err(e) => { return Err(e) },
        };
        Ok(most_recent_of(&all))
    }

    /// The number of stored readings.
    pub fn number_of_readings(&self) -> (r: Result<i64, StoreError>)
        ensures
            match r {
                Ok(n) => n >= 0,
                Err(e) => e == StoreError::Sqlite,
            },
    {
        let mut statement = match prepare_statement(
            &self.connection,
            "SELECT COUNT(*) FROM reading",
        ) {
            Ok(s) => s,
            Err(_) => { return Err(StoreError::Sqlite) },
        };
        match step_statement(&mut statement) {
            Ok(true) => {},
            Ok(false) => { return Err(StoreError::Sqlite) },
            Err(_) => { return Err(StoreError::Sqlite) },
        }
        let count = match read_integer_column(&statement, 0) {
            Ok(n) => n,
            Err(_) => { return Err(StoreError::Sqlite) },
        };
        if count >= 0 {
            Ok(count)
        } else {
            Err(StoreError::Sqlite)
        }
    }

    /// Every stored reading, in the order the engine hands the rows out.
    fn all_readings(&self) -> (r: Result<Vec<Reading>, StoreError>)
        ensures
            match r {
                Ok(v) => forall|i: int| 0 <= i < v@.len() ==> (#[trigger] v@[i]).wf(),
                Err(e) => e == StoreError::Sqlite || e == StoreError::BadRow,
            },
    {
        let mut statement = match prepare_statement(
            &self.connection,
            "SELECT date, generation, imports, exports FROM reading",
        ) {
            Ok(s) => s,
            Err(_) => { return Err(StoreError::Sqlite) },
        };
        let mut readings: Vec<Reading> = Vec::new();
        let mut more = true;
        let mut fuel: u64 = u64::MAX;
        while more && fuel > 0
            invariant
                forall|i: int| 0 <= i < readings@.len() ==> (#[trigger] readings@[i]).wf(),
            decreases fuel,
        {
            match step_statement(&mut statement) {
                Ok(true) => {
                    let reading = match Self::read_row(&statement) {
                        Ok(rd) => rd,
                        Err(e) => { return Err(e) },
                    };
                    readings.push(reading);
                },
                Ok(false) => {
                    more = false;
                },
                Err(_) => { return Err(StoreError::Sqlite) },
            }
            fuel = fuel - 1;
        }
        if more {
            return Err(StoreError::Sqlite);
        }
        Ok(readings)
    }

    /// One row of the reading table, read back as a reading.
    fn read_row(statement: &sqlite::Statement<'_>) -> (r: Result<Reading, StoreError>)
        ensures
            match r {
                Ok(reading) => reading.wf(),
                Err(e) => e == StoreError::Sqlite || e == StoreError::BadRow,
            },
    {
        let date_text = match read_text_column(statement, 0) {
            Ok(t) => t,
            Err(_) => { return Err(StoreError::Sqlite) },
        };
        let generation = match read_integer_column(statement, 1) {
            Ok(n) => n,
            Err(_) => { return Err(StoreError::Sqlite) },
        };
        let imports = match read_integer_column(statement, 2) {
            Ok(n) => n,
            Err(_) => { return Err(StoreError::Sqlite) },
        };
        let exports = match read_integer_column(statement, 3) {
            Ok(n) => n,
            Err(_) => { return Err(StoreError::Sqlite) },
        };
        row_to_reading(date_text.as_str(), generation, imports, exports)
    }
}

} // verus!
