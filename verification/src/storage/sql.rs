//! Trusted access to SQLite through rusqlite: each item below wraps one
//! rusqlite function. What SQLite does with a statement, and what rows it
//! returns, depends on the database on disk; nothing is stated of it.
use vstd::prelude::*;

use crate::error::CtxError;

verus! {

#[verifier::external_type_specification]
#[verifier::external_body]
pub struct ExConnection(rusqlite::Connection);

#[verifier::external_type_specification]
#[verifier::external_body]
pub struct ExSqlError(rusqlite::Error);

#[verifier::external_type_specification]
#[verifier::external_body]
pub struct ExStatement<'conn>(rusqlite::Statement<'conn>);

#[verifier::external_type_specification]
#[verifier::external_body]
pub struct ExRows<'stmt>(rusqlite::Rows<'stmt>);

#[verifier::external_type_specification]
#[verifier::external_body]
pub struct ExRow<'stmt>(rusqlite::Row<'stmt>);

/// `rusqlite::Connection::open`: opens (creating where missing) the
/// database file at `path`. Nothing is stated of the outcome.
#[verifier::external_body]
fn sql_open(path: &str) -> (r: Result<rusqlite::Connection, rusqlite::Error>) {
    rusqlite::Connection::open(path)
}

/// `rusqlite::Connection::execute_batch`: runs the statements of `sql`.
/// Nothing is stated of the outcome.
#[verifier::external_body]
fn sql_execute_batch(conn: &rusqlite::Connection, sql: &str) -> (r: Result<(), rusqlite::Error>) {
    conn.execute_batch(sql)
}

/// `rusqlite::Connection::execute`: runs one statement with the given
/// text (or NULL) parameters. Nothing is stated of the outcome.
#[verifier::external_body]
fn sql_execute(conn: &rusqlite::Connection, sql: &str, params: &Vec<Option<String>>) -> (r: Result<
    usize,
    rusqlite::Error,
>) {
    conn.execute(sql, rusqlite::params_from_iter(params.iter()))
}

/// `rusqlite::Connection::prepare`: compiles one statement. Nothing is
/// stated of the outcome.
#[verifier::external_body]
fn sql_prepare<'c>(conn: &'c rusqlite::Connection, sql: &str) -> (r: Result<
    rusqlite::Statement<'c>,
    rusqlite::Error,
>) {
    conn.prepare(sql)
}

/// `rusqlite::Statement::query`: starts the statement with the given text
/// (or NULL) parameters. Nothing is stated of the outcome.
#[verifier::external_body]
fn sql_query<'s>(stmt: &'s mut rusqlite::Statement<'_>, params: &Vec<Option<String>>) -> (r: Result<
    rusqlite::Rows<'s>,
    rusqlite::Error,
>) {
    stmt.query(rusqlite::params_from_iter(params.iter()))
}

/// `rusqlite::Rows::next`: the next result row, if any. Nothing is stated
/// of the outcome.
#[verifier::external_body]
fn sql_next<'r, 's>(rows: &'r mut rusqlite::Rows<'s>) -> (r: Result<
    Option<&'r rusqlite::Row<'s>>,
    rusqlite::Error,
>) {
    rows.next()
}

/// `rusqlite::Row::get` as an optional text: column `i` of the row, `None`
/// for NULL. It fails for a column that is not text or NULL; nothing more
/// is stated.
#[verifier::external_body]
fn sql_text(row: &rusqlite::Row<'_>, i: usize) -> (r: Result<Option<String>, rusqlite::Error>) {
    row.get(i)
}

/// `rusqlite::Row::get` as an optional integer: column `i` of the row,
/// `None` for NULL. It fails for a column that is not an integer or NULL;
/// nothing more is stated.
#[verifier::external_body]
fn sql_integer(row: &rusqlite::Row<'_>, i: usize) -> (r: Result<Option<i64>, rusqlite::Error>) {
    row.get(i)
}

/// The `Display` text of a `rusqlite::Error`. Nothing is stated of it.
#[verifier::external_body]
fn sql_error_message(e: &rusqlite::Error) -> (r: String) {
    e.to_string()
}

/// The library error for a SQLite failure.
pub fn storage_error(e: rusqlite::Error) -> (r: CtxError)
    ensures
        r is Storage,
{
    CtxError::Storage(sql_error_message(&e))
}

/// Opens the database file at `path`.
pub fn open(path: &str) -> (r: Result<rusqlite::Connection, CtxError>)
    ensures
        r matches Err(e) ==> e is Storage,
{
    match sql_open(path) {
        Ok(c) => Ok(c),
        Err(e) => Err(storage_error(e)),
    }
}

/// Runs a batch of statements.
pub fn execute_batch(conn: &rusqlite::Connection, sql: &str) -> (r: Result<(), CtxError>)
    ensures
        r matches Err(e) ==> e is Storage,
{
    match sql_execute_batch(conn, sql) {
        Ok(()) => Ok(()),
        Err(e) => Err(storage_error(e)),
    }
}

/// Runs one statement with text (or NULL) parameters.
pub fn execute(conn: &rusqlite::Connection, sql: &str, params: &Vec<Option<String>>) -> (r: Result<
    usize,
    CtxError,
>)
    ensures
        r matches Err(e) ==> e is Storage,
{
    match sql_execute(conn, sql, params) {
        Ok(n) => Ok(n),
        Err(e) => Err(storage_error(e)),
    }
}

/// Compiles one statement.
pub fn prepare<'c>(conn: &'c rusqlite::Connection, sql: &str) -> (r: Result<
    rusqlite::Statement<'c>,
    CtxError,
>)
    ensures
        r matches Err(e) ==> e is Storage,
{
    match sql_prepare(conn, sql) {
        Ok(s) => Ok(s),
        Err(e) => Err(storage_error(e)),
    }
}

/// Starts a compiled statement with text (or NULL) parameters.
pub fn query<'s>(stmt: &'s mut rusqlite::Statement<'_>, params: &Vec<Option<String>>) -> (r: Result<
    rusqlite::Rows<'s>,
    CtxError,
>)
    ensures
        r matches Err(e) ==> e is Storage,
{
    match sql_query(stmt, params) {
        Ok(rows) => Ok(rows),
        Err(e) => Err(storage_error(e)),
    }
}

/// The next result row, if any.
pub fn next_row<'r, 's>(rows: &'r mut rusqlite::Rows<'s>) -> (r: Result<
    Option<&'r rusqlite::Row<'s>>,
    CtxError,
>)
    ensures
        r matches Err(e) ==> e is Storage,
{
    match sql_next(rows) {
        Ok(row) => Ok(row),
        Err(e) => Err(storage_error(e)),
    }
}

/// Column `i` as optional text.
pub fn opt_text(row: &rusqlite::Row<'_>, i: usize) -> (r: Result<Option<String>, CtxError>)
    ensures
        r matches Err(e) ==> e is Storage,
{
    match sql_text(row, i) {
        Ok(v) => Ok(v),
        Err(e) => Err(storage_error(e)),
    }
}

/// Column `i` as text; NULL is refused.
pub fn text(row: &rusqlite::Row<'_>, i: usize) -> (r: Result<String, CtxError>)
    ensures
        r matches Err(e) ==> e is Storage || e == CtxError::NullColumn(i),
{
    match opt_text(row, i)? {
        Some(v) => Ok(v),
        None => Err(CtxError::NullColumn(i)),
    }
}

/// Column `i` as an optional integer.
pub fn opt_integer(row: &rusqlite::Row<'_>, i: usize) -> (r: Result<Option<i64>, CtxError>)
    ensures
        r matches Err(e) ==> e is Storage,
{
    match sql_integer(row, i) {
        Ok(v) => Ok(v),
        Err(e) => Err(storage_error(e)),
    }
}

/// Column `i` as an integer; NULL is refused.
pub fn integer(row: &rusqlite::Row<'_>, i: usize) -> (r: Result<i64, CtxError>)
    ensures
        r matches Err(e) ==> e is Storage || e == CtxError::NullColumn(i),
{
    match opt_integer(row, i)? {
        Some(v) => Ok(v),
        None => Err(CtxError::NullColumn(i)),
    }
}

} // verus!
