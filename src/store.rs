//! The registry table in an SQLite database: opening it, and running one
//! `StoreOp` as a prepared statement with bound parameters.

use crate::registry::{ConfigEntry, StoreOp};
use vstd::prelude::*;

verus! {

#[verifier::external_type_specification]
#[verifier::external_body]
pub struct ExConnection(sqlite::Connection);

#[verifier::external_type_specification]
#[verifier::external_body]
pub struct ExStatement<'l>(sqlite::Statement<'l>);

#[verifier::external_type_specification]
#[verifier::external_body]
pub struct ExSqliteError(sqlite::Error);

/// Why a store step failed, with the error SQLite gave.
#[derive(Debug)]
pub enum StoreError {
    /// The database file could not be opened or created.
    Open(sqlite::Error),
    /// The table could not be created.
    Schema(sqlite::Error),
    /// The statement text was refused.
    Prepare(sqlite::Error),
    /// A parameter could not be bound.
    Bind(sqlite::Error),
    /// Evaluating the statement failed.
    Step(sqlite::Error),
    /// A column of the found row could not be read as text.
    Read(sqlite::Error),
}

/// The file name of the database, in the working directory.
pub const DATABASE_FILE: &'static str = "config.db";

/// Creates the registry table unless it exists.
pub const CREATE_TABLE_SQL: &'static str = "CREATE TABLE IF NOT EXISTS config (name TEXT, server TEXT)";

pub const INSERT_SQL: &'static str = "INSERT INTO config (name, server) VALUES (?, ?)";

pub const UPDATE_SQL: &'static str = "UPDATE config SET server = ? WHERE name = ?";

pub const SELECT_SQL: &'static str = "SELECT name, server FROM config WHERE name = ?";

pub const DELETE_SQL: &'static str = "DELETE FROM config WHERE name = ?";

/// Relies on sqlite::Connection::open: opens the database file at `path`,
/// creating it if absent.
#[verifier::external_body]
fn open_connection(path: &str) -> (r: Result<sqlite::Connection, sqlite::Error>) {
    sqlite::Connection::open(path)
}

/// Relies on sqlite::Connection::execute: runs `sql` as one or more statements.
#[verifier::external_body]
fn execute(conn: &sqlite::Connection, sql: &str) -> (r: Result<(), sqlite::Error>) {
    conn.execute(sql)
}

/// Relies on sqlite::Connection::prepare: compiles `sql` into a statement.
/// It takes only the four statements of the registry, whose result columns
/// have plain names (the crate unwraps each result column's name as UTF-8).
#[verifier::external_body]
fn prepare<'a>(conn: &'a sqlite::Connection, sql: &str) -> (r: Result<
    sqlite::Statement<'a>,
    sqlite::Error,
>)
    requires
        sql@ == INSERT_SQL@ || sql@ == UPDATE_SQL@ || sql@ == SELECT_SQL@ || sql@ == DELETE_SQL@,
{
    conn.prepare(sql)
}

/// Relies on sqlite::Statement::bind with an `(index, &str)` pair: binds
/// `value` as text to the parameter at `index` (the first is 1).
#[verifier::external_body]
fn bind_text(stmt: &mut sqlite::Statement, index: usize, value: &str) -> (r: Result<
    (),
    sqlite::Error,
>) {
    stmt.bind((index, value))
}

/// Relies on sqlite::Statement::next: takes one evaluation step, and tells
/// whether it stopped at a row (`State::Row`) rather than at the end
/// (`State::Done`).
#[verifier::external_body]
fn step(stmt: &mut sqlite::Statement) -> (r: Result<bool, sqlite::Error>) {
    match stmt.next() {
        Ok(sqlite::State::Row) => Ok(true),
        Ok(sqlite::State::Done) => Ok(false),
        Err(e) => Err(e),
    }
}

/// Relies on sqlite::Statement::read as `String`: the text in column
/// `column` (the first is 0) of the current row.
#[verifier::external_body]
fn read_text(stmt: &sqlite::Statement, column: usize) -> (r: Result<String, sqlite::Error>) {
    stmt.read::<String, usize>(column)
}

/// Opens (or creates) the database at `path` and makes sure the registry
/// table exists.
pub fn open_store(path: &str) -> (r: Result<sqlite::Connection, StoreError>)
    ensures
        r matches Err(e) ==> (e is Open || e is Schema),
{
    match open_connection(path) {
        Err(e) => Err(StoreError::Open(e)),
        Ok(conn) => match execute(&conn, CREATE_TABLE_SQL) {
            Err(e) => Err(StoreError::Schema(e)),
            Ok(()) => Ok(conn),
        },
    }
}

/// The statement text that runs `op`.
pub open spec fn sql_text(op: StoreOp) -> Seq<char> {
    match op {
        StoreOp::Insert { .. } => INSERT_SQL@,
        StoreOp::Update { .. } => UPDATE_SQL@,
        StoreOp::Lookup { .. } => SELECT_SQL@,
        StoreOp::Delete { .. } => DELETE_SQL@,
    }
}

/// The values bound to the statement's parameters, in parameter order.
pub open spec fn params(op: StoreOp) -> Seq<Seq<char>> {
    match op {
        StoreOp::Insert { name, server } => seq![name@, server@],
        StoreOp::Update { name, server } => seq![server@, name@],
        StoreOp::Lookup { name } => seq![name@],
        StoreOp::Delete { name } => seq![name@],
    }
}

/// The statement text for `op`.
pub fn sql_of(op: &StoreOp) -> (r: &'static str)
    ensures
        r@ == sql_text(*op),
{
    match op {
        StoreOp::Insert { .. } => INSERT_SQL,
        StoreOp::Update { .. } => UPDATE_SQL,
        StoreOp::Lookup { .. } => SELECT_SQL,
        StoreOp::Delete { .. } => DELETE_SQL,
    }
}

/// The parameter values for `op`, in the order the statement numbers them.
pub fn params_of(op: &StoreOp) -> (r: Vec<&str>)
    ensures
        r@.map_values(|s: &str| s@) == params(*op),
{
    let r: Vec<&str> = match op {
        StoreOp::Insert { name, server } => vec![name.as_str(), server.as_str()],
        StoreOp::Update { name, server } => vec![server.as_str(), name.as_str()],
        StoreOp::Lookup { name } => vec![name.as_str()],
        StoreOp::Delete { name } => vec![name.as_str()],
    };
    assert(r@.map_values(|s: &str| s@) =~= params(*op));
    r
}

/// The `(index, value)` pairs to bind for `op`: the parameter values in
/// statement order, numbered from 1.
pub fn bindings_of<'a>(op: &'a StoreOp) -> (r: Vec<(usize, &'a str)>)
    ensures
        r@.len() == params(*op).len(),
        forall|i: int| 0 <= i < r@.len() ==> #[trigger] r@[i].0 == i + 1 && r@[i].1@ == params(*op)[i],
{
    let values = params_of(op);
    let mut r: Vec<(usize, &str)> = Vec::new();
    let mut i: usize = 0;
    while i < values.len()
        invariant
            i <= values.len(),
            values@.map_values(|s: &str| s@) == params(*op),
            r@.len() == i,
            forall|j: int| 0 <= j < i ==> #[trigger] r@[j].0 == j + 1 && r@[j].1@ == params(*op)[j],
        decreases values.len() - i,
    {
        assert(values@.map_values(|s: &str| s@)[i as int] == values@[i as int]@);
        r.push((i + 1, values[i]));
        i = i + 1;
    }
    r
}

/// What a run of `op` found, given whether its step stopped at a row and
/// the `(name, server)` columns read from that row, if any were read. Only
/// a lookup that stopped at a row and read it finds an entry: that row.
pub fn row_outcome(op: &StoreOp, at_row: bool, row: Option<(String, String)>) -> (r: Option<
    ConfigEntry,
>)
    ensures
        r is Some <==> (op is Lookup && at_row && row is Some),
        r matches Some(e) ==> (row matches Some(c) && e.name@ == c.0@ && e.server@ == c.1@),
{
    match op {
        StoreOp::Lookup { .. } => {
            if at_row {
                match row {
                    Some((name, server)) => Some(ConfigEntry { name, server }),
                    None => None,
                }
            } else {
                None
            }
        },
        _ => None,
    }
}

/// Runs `op` against the table: prepares its statement (`sql_of`), binds
/// the pairs of `bindings_of`, and takes one step. When `op` is a lookup and
/// the step stopped at a row, the row's name and server are read; what was
/// found is then `row_outcome` of those answers.
pub fn run_op(conn: &sqlite::Connection, op: &StoreOp) -> (r: Result<Option<ConfigEntry>, StoreError>)
    ensures
        r matches Ok(Some(_)) ==> op is Lookup,
        r matches Err(e) ==> (e is Prepare || e is Bind || e is Step || e is Read),
{
    let mut stmt = match prepare(conn, sql_of(op)) {
        Ok(s) => s,
        Err(e) => return Err(StoreError::Prepare(e)),
    };
    let bindings = bindings_of(op);
    let mut i: usize = 0;
    while i < bindings.len()
        invariant
            i <= bindings.len(),
        decreases bindings.len() - i,
    {
        let pair = bindings[i];
        if let Err(e) = bind_text(&mut stmt, pair.0, pair.1) {
            return Err(StoreError::Bind(e));
        }
        i = i + 1;
    }
    let at_row = match step(&mut stmt) {
        Ok(b) => b,
        Err(e) => return Err(StoreError::Step(e)),
    };
    let is_lookup = matches!(op, StoreOp::Lookup { .. });
    let row = if is_lookup && at_row {
        let name = match read_text(&stmt, 0) {
            Ok(s) => s,
            Err(e) => return Err(StoreError::Read(e)),
        };
        let server = match read_text(&stmt, 1) {
            Ok(s) => s,
            Err(e) => return Err(StoreError::Read(e)),
        };
        Some((name, server))
    } else {
        None
    };
    Ok(row_outcome(op, at_row, row))
}

} // verus!
