//! The text of the statements that the store gives to the database, and
//! the reading of the columns that come back.

use vstd::prelude::*;
use vstd::string::*;
use crate::text::{decimal, render_u64};

verus! {

/// Creates the table if the database has none.
pub open spec fn schema_text() -> Seq<char> {
    "CREATE TABLE IF NOT EXISTS roles (guild_id INTEGER PRIMARY KEY, role_id INTEGER, auto_scan BOOLEAN DEFAULT(TRUE));"@
}

/// Adds a row for a server unless it has one.
pub open spec fn register_text(server_id: u64) -> Seq<char> {
    "INSERT OR IGNORE INTO roles (guild_id, role_id) VALUES("@ + decimal(server_id as nat)
        + ", NULL);"@
}

/// Sets the primary role in a server's row.
pub open spec fn primary_role_text(server_id: u64, role_id: u64) -> Seq<char> {
    "UPDATE OR IGNORE roles SET role_id = "@ + decimal(role_id as nat) + " WHERE guild_id = "@
        + decimal(server_id as nat) + ";"@
}

/// Switches enforcement in a server's row.
pub open spec fn auto_scan_text(server_id: u64, enabled: bool) -> Seq<char> {
    if enabled {
        "UPDATE OR IGNORE roles SET auto_scan = TRUE WHERE guild_id = "@ + decimal(server_id as nat)
    } else {
        "UPDATE OR IGNORE roles SET auto_scan = FALSE WHERE guild_id = "@ + decimal(
            server_id as nat,
        )
    }
}

/// Asks for the enforcement column of a server's row.
pub open spec fn auto_scan_query_text(server_id: u64) -> Seq<char> {
    "SELECT auto_scan FROM roles WHERE guild_id = "@ + decimal(server_id as nat) + ";"@
}

/// Asks for the role column of a server's row.
pub open spec fn primary_role_query_text(server_id: u64) -> Seq<char> {
    "SELECT role_id FROM roles where guild_id = "@ + decimal(server_id as nat) + ";"@
}

/// The statements that change the database: the store runs these and no
/// others.
pub open spec fn is_write_text(statement: Seq<char>) -> bool {
    ||| statement == schema_text()
    ||| exists|server_id: u64| statement == #[trigger] register_text(server_id)
    ||| exists|server_id: u64, role_id: u64|
        statement == #[trigger] primary_role_text(server_id, role_id)
    ||| exists|server_id: u64, enabled: bool|
        statement == #[trigger] auto_scan_text(server_id, enabled)
}

/// The statements that read the database: the store prepares these and no
/// others. Each names one column of the table `roles`.
pub open spec fn is_query_text(statement: Seq<char>) -> bool {
    ||| exists|server_id: u64| statement == #[trigger] auto_scan_query_text(server_id)
    ||| exists|server_id: u64| statement == #[trigger] primary_role_query_text(server_id)
}

/// Writes the statement that creates the table.
pub fn schema_statement() -> (statement: String)
    ensures
        statement@ == schema_text(),
        is_write_text(statement@),
{
    String::from_str(
        "CREATE TABLE IF NOT EXISTS roles (guild_id INTEGER PRIMARY KEY, role_id INTEGER, auto_scan BOOLEAN DEFAULT(TRUE));",
    )
}

/// Writes the statement that registers a server.
pub fn register_statement(server_id: u64) -> (statement: String)
    ensures
        statement@ == register_text(server_id),
        is_write_text(statement@),
{
    let mut statement = String::from_str("INSERT OR IGNORE INTO roles (guild_id, role_id) VALUES(");
    let id = render_u64(server_id);
    statement.append(id.as_str());
    statement.append(", NULL);");
    assert(statement@ =~= register_text(server_id));
    statement
}

/// Writes the statement that sets a server's primary role.
pub fn primary_role_statement(server_id: u64, role_id: u64) -> (statement: String)
    ensures
        statement@ == primary_role_text(server_id, role_id),
        is_write_text(statement@),
{
    let mut statement = String::from_str("UPDATE OR IGNORE roles SET role_id = ");
    let role = render_u64(role_id);
    statement.append(role.as_str());
    statement.append(" WHERE guild_id = ");
    let id = render_u64(server_id);
    statement.append(id.as_str());
    statement.append(";");
    assert(statement@ =~= primary_role_text(server_id, role_id));
    statement
}

/// Writes the statement that switches enforcement for a server.
pub fn auto_scan_statement(server_id: u64, enabled: bool) -> (statement: String)
    ensures
        statement@ == auto_scan_text(server_id, enabled),
        is_write_text(statement@),
{
    let mut statement = if enabled {
        String::from_str("UPDATE OR IGNORE roles SET auto_scan = TRUE WHERE guild_id = ")
    } else {
        String::from_str("UPDATE OR IGNORE roles SET auto_scan = FALSE WHERE guild_id = ")
    };
    let id = render_u64(server_id);
    statement.append(id.as_str());
    assert(statement@ =~= auto_scan_text(server_id, enabled));
    statement
}

/// Writes the statement that asks for a server's enforcement column.
pub fn auto_scan_query(server_id: u64) -> (statement: String)
    ensures
        statement@ == auto_scan_query_text(server_id),
        is_query_text(statement@),
{
    let mut statement = String::from_str("SELECT auto_scan FROM roles WHERE guild_id = ");
    let id = render_u64(server_id);
    statement.append(id.as_str());
    statement.append(";");
    assert(statement@ =~= auto_scan_query_text(server_id));
    statement
}

/// Writes the statement that asks for a server's role column.
pub fn primary_role_query(server_id: u64) -> (statement: String)
    ensures
        statement@ == primary_role_query_text(server_id),
        is_query_text(statement@),
{
    let mut statement = String::from_str("SELECT role_id FROM roles where guild_id = ");
    let id = render_u64(server_id);
    statement.append(id.as_str());
    statement.append(";");
    assert(statement@ =~= primary_role_query_text(server_id));
    statement
}

/// The role that a stored role column stands for: none for a null, none
/// for zero, none for a negative number.
pub open spec fn stored_role(column: Option<i64>) -> Option<u64> {
    match column {
        Some(value) if value > 0 => Some(value as u64),
        _ => None,
    }
}

/// Whether a stored enforcement column stands for on: anything but null
/// and zero does.
pub open spec fn stored_flag(column: Option<i64>) -> bool {
    column matches Some(value) && value != 0
}

/// Reads a stored role column.
pub fn decode_role(column: Option<i64>) -> (role: Option<u64>)
    ensures
        role == stored_role(column),
{
    match column {
        Some(value) => if value > 0 {
            Some(value as u64)
        } else {
            None
        },
        None => None,
    }
}

/// Reads a stored enforcement column.
pub fn decode_flag(column: Option<i64>) -> (enabled: bool)
    ensures
        enabled == stored_flag(column),
{
    match column {
        Some(value) => value != 0,
        None => false,
    }
}

} // verus!
