//! The storage boundary: a connection handle, a dynamic value type for
//! parameter binding and returned cells, and the small set of operations the
//! rest of the crate performs against the relational engine.
//!
//! Every call into the engine goes through one of the wrappers here. The
//! wrappers promise nothing about the data they return: what a statement
//! yields depends on the store's state, so the callers state what holds of
//! every outcome instead.

use vstd::prelude::*;

verus! {

/// A failure surfaced to the caller of a store operation.
#[derive(Clone, Debug, PartialEq)]
pub enum Error {
    /// The storage engine reported a failure; the message is passed through.
    Storage(String),
    /// An operation that needs a persisted record was handed one that was
    /// never inserted.
    NotPersisted,
}

impl Error {
    /// A short textual form of the failure.
    pub fn message(&self) -> (r: String)
        ensures
            self is Storage ==> r@ == self->Storage_0@,
            self is NotPersisted ==> r@ == "record has not been persisted"@,
    {
        match self {
            Error::Storage(m) => m.clone(),
            Error::NotPersisted => "record has not been persisted".to_owned(),
        }
    }
}

/// A dynamically typed cell: either a bound parameter handed to the engine or
/// a column value handed back from it.
#[derive(Clone, Debug)]
pub enum SqlValue {
    Null,
    Int(i64),
    Text(String),
}

#[verifier::external_type_specification]
#[verifier::external_body]
pub struct ExConnection(rusqlite::Connection);

#[verifier::external_type_specification]
#[verifier::external_body]
pub struct ExValue(rusqlite::types::Value);

/// An open handle to one database.
pub struct Db {
    conn: rusqlite::Connection,
}

/// Relies on rusqlite::types::Value: rebinds each cell of ours as the
/// engine's own dynamic value, one variant at a time.
#[verifier::external_body]
fn to_sql_params(params: &Vec<SqlValue>) -> Vec<rusqlite::types::Value> {
    let mut out: Vec<rusqlite::types::Value> = Vec::new();
    for p in params.iter() {
        out.push(match p {
            SqlValue::Null => rusqlite::types::Value::Null,
            SqlValue::Int(i) => rusqlite::types::Value::Integer(*i),
            SqlValue::Text(s) => rusqlite::types::Value::Text(s.clone()),
        });
    }
    out
}

/// Relies on rusqlite::types::Value: reads one returned cell back into a
/// plain value. Real and blob cells do not occur in this schema and are
/// read as null.
#[verifier::external_body]
fn from_sql_value(v: rusqlite::types::Value) -> SqlValue {
    match v {
        rusqlite::types::Value::Null => SqlValue::Null,
        rusqlite::types::Value::Integer(i) => SqlValue::Int(i),
        rusqlite::types::Value::Text(s) => SqlValue::Text(s),
        rusqlite::types::Value::Real(_) => SqlValue::Null,
        rusqlite::types::Value::Blob(_) => SqlValue::Null,
    }
}

/// Relies on rusqlite::Connection::open_in_memory: opens a fresh private
/// database.
#[verifier::external_body]
fn open_memory() -> (r: Result<Db, Error>)
    ensures
        r matches Err(e) ==> e is Storage,
{
    match rusqlite::Connection::open_in_memory() {
        Ok(conn) => Ok(Db { conn }),
        Err(e) => Err(Error::Storage(e.to_string())),
    }
}

/// Relies on rusqlite::Connection::open: opens (creating if absent) the
/// database file at the given path.
#[verifier::external_body]
fn open_path(path: &str) -> (r: Result<Db, Error>)
    ensures
        r matches Err(e) ==> e is Storage,
{
    match rusqlite::Connection::open(path) {
        Ok(conn) => Ok(Db { conn }),
        Err(e) => Err(Error::Storage(e.to_string())),
    }
}

/// Relies on rusqlite::Connection::execute: runs one parameterized statement
/// and reports the number of affected rows.
#[verifier::external_body]
pub(crate) fn db_execute(db: &Db, sql: &str, params: &Vec<SqlValue>) -> (r: Result<usize, Error>)
    ensures
        r matches Err(e) ==> e is Storage,
{
    db.conn.execute(sql, rusqlite::params_from_iter(to_sql_params(params))).map_err(
        |e| Error::Storage(e.to_string()),
    )
}

/// Relies on rusqlite::Statement::query and Row::get: runs one parameterized
/// query and reads every returned row cell by cell.
#[verifier::external_body]
pub(crate) fn db_query(db: &Db, sql: &str, params: &Vec<SqlValue>) -> (r: Result<
    Vec<Vec<SqlValue>>,
    Error,
>)
    ensures
        r matches Err(e) ==> e is Storage,
{
    let mut stmt = db.conn.prepare(sql).map_err(|e| Error::Storage(e.to_string()))?;
    let ncols = stmt.column_count();
    let mut rows = stmt.query(rusqlite::params_from_iter(to_sql_params(params))).map_err(
        |e| Error::Storage(e.to_string()),
    )?;
    let mut out: Vec<Vec<SqlValue>> = Vec::new();
    while let Some(row) = rows.next().map_err(|e| Error::Storage(e.to_string()))? {
        let mut vals: Vec<SqlValue> = Vec::new();
        for i in 0..ncols {
            vals.push(from_sql_value(row.get(i).map_err(|e| Error::Storage(e.to_string()))?));
        }
        out.push(vals);
    }
    Ok(out)
}

/// Relies on rusqlite::Statement::exists: reports whether a parameterized
/// query returns at least one row.
#[verifier::external_body]
pub(crate) fn db_exists(db: &Db, sql: &str, params: &Vec<SqlValue>) -> (r: Result<bool, Error>)
    ensures
        r matches Err(e) ==> e is Storage,
{
    let mut stmt = db.conn.prepare(sql).map_err(|e| Error::Storage(e.to_string()))?;
    stmt.exists(rusqlite::params_from_iter(to_sql_params(params))).map_err(
        |e| Error::Storage(e.to_string()),
    )
}

/// Opens a database — the file at `path`, or a fresh in-memory one when no
/// path is given — and creates the catalog schema if it is not there yet.
pub fn init(path: Option<&str>) -> (r: Result<Db, Error>)
    ensures
        r matches Err(e) ==> e is Storage,
{
    let opened = match path {
        Some(p) => open_path(p),
        None => open_memory(),
    };
    let db = match opened {
        Ok(db) => db,
        Err(e) => {
            return Err(e);
        },
    };
    let no_params: Vec<SqlValue> = Vec::new();
    let music = db_execute(
        &db,
        "CREATE TABLE IF NOT EXISTS music (id INTEGER PRIMARY KEY AUTOINCREMENT, title TEXT NOT NULL, source TEXT NOT NULL, composer TEXT, arranger TEXT, notes TEXT, runtime INTEGER);",
        &no_params,
    );
    if let Err(e) = music {
        return Err(e);
    }
    let keywords = db_execute(
        &db,
        "CREATE TABLE IF NOT EXISTS keywords (id INTEGER PRIMARY KEY AUTOINCREMENT, category TEXT, keyword TEXT NOT NULL);",
        &no_params,
    );
    if let Err(e) = keywords {
        return Err(e);
    }
    let assoc = db_execute(
        &db,
        "CREATE TABLE IF NOT EXISTS music_keywords (mid INTEGER NOT NULL, kid INTEGER NOT NULL, UNIQUE(mid, kid));",
        &no_params,
    );
    if let Err(e) = assoc {
        return Err(e);
    }
    Ok(db)
}

} // verus!
