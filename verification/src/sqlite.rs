//! The calls into SQLite. Nothing in this file is proved: each function hands
//! its arguments to `rusqlite` and its result back. None of them promises
//! anything, because what SQLite answers depends on what the database holds.

use vstd::prelude::*;

verus! {

/// `rusqlite::Connection`, carried as it is.
#[verifier::external_type_specification]
#[verifier::external_body]
pub struct ExConnection(rusqlite::Connection);

/// `rusqlite::Error`, carried as it is.
#[verifier::external_type_specification]
#[verifier::external_body]
pub struct ExError(rusqlite::Error);

/// A value bound to a parameter of a statement.
#[derive(Clone, Debug, PartialEq, Eq)]
pub enum SqlValue {
    Integer(i64),
    Text(String),
}

/// A bound value as a plain value.
pub enum ValueView {
    Integer(int),
    Text(Seq<char>),
}

impl View for SqlValue {
    type V = ValueView;

    open spec fn view(&self) -> ValueView {
        match self {
            SqlValue::Integer(n) => ValueView::Integer(*n as int),
            SqlValue::Text(t) => ValueView::Text(t@),
        }
    }
}

/// Bound values as plain values, in their order.
pub open spec fn value_views(values: Seq<SqlValue>) -> Seq<ValueView> {
    Seq::new(values.len(), |i: int| values[i]@)
}

/// One row of the table `tasks`, column by column.
#[derive(Clone, Debug, PartialEq, Eq)]
pub struct TaskRow {
    pub id: i32,
    pub title: String,
    pub description: String,
    pub completed: bool,
    pub priority: u8,
}

/// `rusqlite::Connection::open`: opens the database file at `path`, creating
/// it where there is none. Whether that succeeds is up to the file system.
#[verifier::external_body]
pub(crate) fn open_file(path: &str) -> (r: Result<rusqlite::Connection, rusqlite::Error>) {
    rusqlite::Connection::open(path)
}

/// `rusqlite::Connection::open_in_memory`: opens a database that lives in
/// memory and goes away with the connection.
#[verifier::external_body]
pub(crate) fn open_memory() -> (r: Result<rusqlite::Connection, rusqlite::Error>) {
    rusqlite::Connection::open_in_memory()
}

/// `rusqlite::Connection::execute`: runs one statement with `params` bound to
/// its parameters in order and tells how many rows it changed. What the
/// statement does to the table is SQLite's business and is not stated.
#[verifier::external_body]
pub(crate) fn execute(
    connection: &rusqlite::Connection,
    sql: &str,
    params: &Vec<SqlValue>,
) -> (r: Result<usize, rusqlite::Error>) {
    let values = params.iter().map(|p| match p {
        SqlValue::Integer(n) => rusqlite::types::Value::Integer(*n),
        SqlValue::Text(t) => rusqlite::types::Value::Text(t.clone()),
    });
    connection.execute(sql, rusqlite::params_from_iter(values))
}

/// `rusqlite::Connection::last_insert_rowid`: the row id of the latest
/// successful insert on this connection.
#[verifier::external_body]
pub(crate) fn last_insert_rowid(connection: &rusqlite::Connection) -> (r: i64) {
    connection.last_insert_rowid()
}

/// `rusqlite::Statement::query_map` on a statement that
/// `rusqlite::Connection::prepare` made: runs a query of five columns (id,
/// title, description, completed, priority) with `params` bound to its
/// parameters in order, and hands back its rows in the order in which SQLite
/// gave them. Which rows those are is not stated.
#[verifier::external_body]
pub(crate) fn query_rows(
    connection: &rusqlite::Connection,
    sql: &str,
    params: &Vec<SqlValue>,
) -> (r: Result<Vec<TaskRow>, rusqlite::Error>) {
    let values = params.iter().map(|p| match p {
        SqlValue::Integer(n) => rusqlite::types::Value::Integer(*n),
        SqlValue::Text(t) => rusqlite::types::Value::Text(t.clone()),
    });
    let mut statement = connection.prepare(sql)?;
    let rows = statement.query_map(rusqlite::params_from_iter(values), |row| {
        let (id, title, description) = (row.get(0)?, row.get(1)?, row.get(2)?);
        let (completed, priority) = (row.get(3)?, row.get(4)?);
        Ok(TaskRow { id, title, description, completed, priority })
    })?;
    rows.collect()
}

/// `rusqlite::Connection::query_row`: runs a query without parameters and
/// hands back the integer in the first column of its first row.
#[verifier::external_body]
pub(crate) fn query_integer(connection: &rusqlite::Connection, sql: &str) -> (r: Result<
    i64,
    rusqlite::Error,
>) {
    connection.query_row(sql, [], |row| row.get(0))
}

} // verus!
