//! The durable configuration store: one row per registered server in a
//! database file, holding the server's primary role and whether
//! enforcement is on.

use vstd::prelude::*;
use vstd::string::*;
use crate::statements::{
    auto_scan_query, auto_scan_statement, decode_flag, decode_role, is_query_text,
    primary_role_query, primary_role_statement, register_statement, schema_statement, stored_flag,
    stored_role,
};
use crate::storage::{advance, describe, execute, open_database, prepare, read_integer};

verus! {

/// A failure of the database underneath the store, in the database's words.
#[derive(Clone, Debug, PartialEq, Eq)]
pub struct StorageError {
    pub detail: String,
}

/// What a write reports once the database has answered: success as it is,
/// a failure as a `StorageError`.
pub fn storage_outcome(answer: Result<(), sqlite::Error>) -> (outcome: Result<(), StorageError>)
    ensures
        outcome is Ok <==> answer is Ok,
{
    match answer {
        Ok(()) => Ok(()),
        Err(error) => Err(StorageError { detail: describe(&error) }),
    }
}

/// Whether enforcement is on, given what a query for a server's
/// enforcement column found: `None` where no row was found or the query
/// failed, else the column of the first row. Off unless a row says on.
pub open spec fn auto_scan_found(found: Option<Option<i64>>) -> bool {
    found matches Some(column) && stored_flag(column)
}

/// The primary role, given what a query for a server's role column found:
/// `None` where no row was found or the query failed, else the column of
/// the first row. None unless a row holds a role above zero.
pub open spec fn primary_role_found(found: Option<Option<i64>>) -> Option<u64> {
    match found {
        Some(column) => stored_role(column),
        None => None,
    }
}

/// Answers a read of the enforcement switch from what the query found.
pub fn auto_scan_answer(found: Option<Option<i64>>) -> (enabled: bool)
    ensures
        enabled == auto_scan_found(found),
{
    match found {
        Some(column) => decode_flag(column),
        None => false,
    }
}

/// Answers a read of the primary role from what the query found.
pub fn primary_role_answer(found: Option<Option<i64>>) -> (role: Option<u64>)
    ensures
        role == primary_role_found(found),
{
    match found {
        Some(column) => decode_role(column),
        None => None,
    }
}

/// A read is safe by default: where no row is found, or the query fails,
/// enforcement reads as off and the primary role as none; and no read ever
/// yields the role zero.
pub proof fn lemma_reads_default_safely(found: Option<Option<i64>>)
    ensures
        found is None ==> !auto_scan_found(found) && primary_role_found(found) == None::<u64>,
        found == Some(None::<i64>) ==> !auto_scan_found(found) && primary_role_found(found)
            == None::<u64>,
        primary_role_found(found) matches Some(role) ==> 0 < role <= i64::MAX,
{
}

/// The configuration store. Every read and every write goes to the
/// database.
pub struct AppData {
    db: sqlite::Connection,
}

impl AppData {
    /// Opens the store on the database at `db_location`, creating the
    /// database and its table where there is none. Fails if the database
    /// fails.
    pub fn new(db_location: &str) -> (opened: Result<AppData, StorageError>) {
        let db = match open_database(db_location) {
            Ok(db) => db,
            Err(error) => {
                return Err(StorageError { detail: describe(&error) });
            },
        };
        let schema = schema_statement();
        match storage_outcome(execute(&db, schema.as_str())) {
            Ok(()) => Ok(AppData { db }),
            Err(error) => Err(error),
        }
    }

    /// Runs a query and hands back the named column of its first row:
    /// `None` where there is no row or the database fails.
    fn first_column(&self, statement: &str, column: &str) -> (found: Option<Option<i64>>)
        requires
            is_query_text(statement@),
    {
        let mut prepared = match prepare(&self.db, statement) {
            Ok(prepared) => prepared,
            Err(_) => {
                return None;
            },
        };
        match advance(&mut prepared) {
            Ok(true) => {},
            _ => {
                return None;
            },
        }
        match read_integer(&prepared, column) {
            Ok(value) => Some(value),
            Err(_) => None,
        }
    }

    /// Registers a server: it gets a row if it has none, and keeps the one
    /// it has. Fails if the database fails.
    pub fn new_server(&mut self, server_id: u64) -> (outcome: Result<(), StorageError>) {
        let statement = register_statement(server_id);
        storage_outcome(execute(&self.db, statement.as_str()))
    }

    /// Sets the primary role of a registered server; for a server without
    /// a row this changes nothing and is no failure. Fails if the database
    /// fails.
    pub fn update_server_primary_role(&mut self, server_id: u64, role_id: u64) -> (outcome: Result<
        (),
        StorageError,
    >) {
        let statement = primary_role_statement(server_id, role_id);
        storage_outcome(execute(&self.db, statement.as_str()))
    }

    /// Whether enforcement is on for a server. Off where the server has no
    /// row and where the database fails.
    pub fn is_auto_scan_enabled(&self, server_id: u64) -> (enabled: bool) {
        let statement = auto_scan_query(server_id);
        auto_scan_answer(self.first_column(statement.as_str(), "auto_scan"))
    }

    /// Switches enforcement off for a registered server; for a server
    /// without a row this changes nothing and is no failure. Fails if the
    /// database fails.
    pub fn disable_auto_scan(&self, server_id: u64) -> (outcome: Result<(), StorageError>) {
        let statement = auto_scan_statement(server_id, false);
        storage_outcome(execute(&self.db, statement.as_str()))
    }

    /// Switches enforcement on for a registered server; for a server
    /// without a row this changes nothing and is no failure. Fails if the
    /// database fails.
    pub fn enable_auto_scan(&self, server_id: u64) -> (outcome: Result<(), StorageError>) {
        let statement = auto_scan_statement(server_id, true);
        storage_outcome(execute(&self.db, statement.as_str()))
    }

    /// The primary role of a server. None where the server has no row,
    /// where its row holds no role or the role zero, and where the
    /// database fails.
    pub fn get_primary_role(&self, server_id: u64) -> (role: Option<u64>)
        ensures
            role matches Some(role_id) ==> 0 < role_id <= i64::MAX,
    {
        let statement = primary_role_query(server_id);
        primary_role_answer(self.first_column(statement.as_str(), "role_id"))
    }
}

} // verus!
