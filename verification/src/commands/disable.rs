//! `disable` as a pair of plain functions.

use vstd::prelude::*;
use vstd::string::*;
use crate::commands::bot_management::{disable_message, disable_registration, disable_text};
use crate::commands::commands::CommandSpec;
use crate::data::AppData;

verus! {

/// Switches reactive enforcement off for the given server.
pub fn run(data: &AppData, guild_id: Option<u64>) -> (text: String)
    ensures
        match guild_id {
            None => text@ == "No server ID given, unable to disable auto scanning"@,
            Some(_) => text@ == disable_text(true) || text@ == disable_text(false),
        },
{
    match guild_id {
        None => String::from_str("No server ID given, unable to disable auto scanning"),
        Some(server_id) => {
            let outcome = data.disable_auto_scan(server_id);
            disable_message(&outcome)
        },
    }
}

/// The description under which `disable` is registered.
pub fn register() -> (spec: CommandSpec)
    ensures
        disable_registration(spec),
{
    CommandSpec {
        name: String::from_str("disable"),
        description: String::from_str("Disables the automatic role scanner"),
        administrators_only: true,
        options: Vec::new(),
    }
}

} // verus!
