//! The database file behind the configuration store.
//!
//! Everything here is a thin call into the `sqlite` crate. Nothing is
//! claimed about what the database holds or answers: it lives outside the
//! program, and whatever comes back is handled by verified code.

use vstd::prelude::*;
use crate::statements::{is_query_text, is_write_text};

verus! {

/// `sqlite::Connection`, an open database. Opaque here.
#[verifier::external_type_specification]
#[verifier::external_body]
pub struct ExConnection(sqlite::Connection);

/// `sqlite::Error`, what a failed database call reports. Opaque here.
#[verifier::external_type_specification]
#[verifier::external_body]
pub struct ExError(sqlite::Error);

/// `sqlite::Statement`, a prepared statement and its position among the
/// rows it yields. Opaque here.
#[verifier::external_type_specification]
#[verifier::external_body]
pub struct ExStatement<'l>(sqlite::Statement<'l>);

/// Calls `sqlite::Connection::open`: opens the database at `location`,
/// creating it if there is none. Nothing is claimed of the outcome.
#[verifier::external_body]
pub(crate) fn open_database(location: &str) -> (opened: Result<sqlite::Connection, sqlite::Error>) {
    sqlite::Connection::open(location)
}

/// Calls `sqlite::Connection::execute`: runs a statement and discards its
/// rows. Only the store's own statements are admitted. Nothing is claimed
/// of the outcome.
#[verifier::external_body]
pub(crate) fn execute(db: &sqlite::Connection, statement: &str) -> (done: Result<(), sqlite::Error>)
    requires
        is_write_text(statement@),
{
    db.execute(statement)
}

/// Calls `sqlite::Connection::prepare`: compiles a statement for reading
/// its rows one by one. Only the store's own queries are admitted: the
/// call takes the names of the result columns for text in UTF-8 and
/// panics where one is not, and each of those queries has one result
/// column, called `auto_scan` or `role_id`. Nothing is claimed of the
/// outcome.
#[verifier::external_body]
pub(crate) fn prepare<'l>(db: &'l sqlite::Connection, statement: &str) -> (prepared: Result<
    sqlite::Statement<'l>,
    sqlite::Error,
>)
    requires
        is_query_text(statement@),
{
    db.prepare(statement)
}

/// Calls `sqlite::Statement::next`: moves to the next row. `Ok(true)` says
/// that a row is there to be read, `Ok(false)` that the rows are exhausted.
/// Nothing is claimed of the outcome.
#[verifier::external_body]
pub(crate) fn advance(statement: &mut sqlite::Statement<'_>) -> (row: Result<bool, sqlite::Error>) {
    match statement.next() {
        Ok(sqlite::State::Row) => Ok(true),
        Ok(sqlite::State::Done) => Ok(false),
        Err(error) => Err(error),
    }
}

/// Calls `sqlite::Statement::read` for an integer column of the current
/// row, where a stored null reads as `None`. Nothing is claimed of the
/// outcome.
#[verifier::external_body]
pub(crate) fn read_integer(statement: &sqlite::Statement<'_>, column: &str) -> (value: Result<
    Option<i64>,
    sqlite::Error,
>) {
    statement.read::<Option<i64>, _>(column)
}

/// Calls the `Display` of `sqlite::Error` through `to_string`: the
/// database's own words for a failure. Nothing is claimed of the text.
#[verifier::external_body]
pub(crate) fn describe(error: &sqlite::Error) -> (detail: String) {
    error.to_string()
}

} // verus!
