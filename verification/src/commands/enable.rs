//! `enable` as a pair of plain functions.

use vstd::prelude::*;
use vstd::string::*;
use crate::commands::bot_management::{enable_message, enable_registration, enable_text};
use crate::commands::commands::CommandSpec;
use crate::data::AppData;

verus! {

/// Switches reactive enforcement on for the given server.
pub fn run(app_data: &AppData, guild_id: Option<u64>) -> (text: String)
    ensures
        match guild_id {
            None => text@ == "No server ID found, unable to enable auto scanning"@,
            Some(_) => text@ == enable_text(true) || text@ == enable_text(false),
        },
{
    match guild_id {
        None => String::from_str("No server ID found, unable to enable auto scanning"),
        Some(server_id) => {
            let outcome = app_data.enable_auto_scan(server_id);
            enable_message(&outcome)
        },
    }
}

/// The description under which `enable` is registered.
pub fn register() -> (spec: CommandSpec)
    ensures
        enable_registration(spec),
{
    CommandSpec {
        name: String::from_str("enable"),
        description: String::from_str("Enables the automatic role scanner"),
        administrators_only: true,
        options: Vec::new(),
    }
}

} // verus!
