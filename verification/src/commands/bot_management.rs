//! Switching reactive enforcement on and off, and asking which it is.

use vstd::prelude::*;
use vstd::string::*;
use crate::commands::commands::{
    plain_registration, CommandReply, CommandReplyView, CommandRequest, CommandSpec,
    DiscordCommand,
};
use crate::data::{AppData, StorageError};

verus! {

/// What `enable` answers, for a store that took the change or did not.
pub open spec fn enable_text(stored: bool) -> Seq<char> {
    if stored {
        "Automatic role scanning is now active"@
    } else {
        "Failed updating the database, unable to enable auto scanning"@
    }
}

/// What `disable` answers, for a store that took the change or did not.
pub open spec fn disable_text(stored: bool) -> Seq<char> {
    if stored {
        "Automatic Role Scanning is no longer active"@
    } else {
        "A database error occurred, unable to disable auto scanning"@
    }
}

/// What `status` answers.
pub open spec fn status_text(enabled: bool) -> Seq<char> {
    if enabled {
        "Automatic role scanning is currently enabled"@
    } else {
        "Automatic role scanning is currently disabled"@
    }
}

/// What `enable` may come to: without a server a refusal; with one, the
/// answer for a store that took the change or for one that did not.
pub open spec fn enable_result(guild_id: Option<u64>, reply: CommandReplyView) -> bool {
    match guild_id {
        None => reply == CommandReplyView::Text(
            "No server ID found, unable to enable auto scanning"@,
        ),
        Some(_) => reply == CommandReplyView::Text(enable_text(true)) || reply
            == CommandReplyView::Text(enable_text(false)),
    }
}

/// What `disable` may come to: without a server a refusal; with one, the
/// answer for a store that took the change or for one that did not.
pub open spec fn disable_result(guild_id: Option<u64>, reply: CommandReplyView) -> bool {
    match guild_id {
        None => reply == CommandReplyView::Text(
            "No server ID given, unable to disable auto scanning"@,
        ),
        Some(_) => reply == CommandReplyView::Text(disable_text(true)) || reply
            == CommandReplyView::Text(disable_text(false)),
    }
}

/// What `status` may come to: without a server a refusal; with one, the
/// answer for enforcement on or the answer for enforcement off.
pub open spec fn status_result(guild_id: Option<u64>, reply: CommandReplyView) -> bool {
    match guild_id {
        None => reply == CommandReplyView::Text("No server ID found, unable to check status"@),
        Some(_) => reply == CommandReplyView::Text(status_text(true)) || reply
            == CommandReplyView::Text(status_text(false)),
    }
}

/// The description under which `enable` is registered.
pub open spec fn enable_registration(spec: CommandSpec) -> bool {
    plain_registration(spec, "enable"@, "Enables the automatic role scanner"@)
}

/// The description under which `disable` is registered.
pub open spec fn disable_registration(spec: CommandSpec) -> bool {
    plain_registration(spec, "disable"@, "Disables the automatic role scanner"@)
}

/// The description under which `status` is registered.
pub open spec fn status_registration(spec: CommandSpec) -> bool {
    plain_registration(
        spec,
        "status"@,
        "Check if the automatic role scanner is enabled or disabled"@,
    )
}

/// Writes the answer of `enable`.
pub fn enable_message(outcome: &Result<(), StorageError>) -> (text: String)
    ensures
        text@ == enable_text(outcome is Ok),
{
    if outcome.is_ok() {
        String::from_str("Automatic role scanning is now active")
    } else {
        String::from_str("Failed updating the database, unable to enable auto scanning")
    }
}

/// Writes the answer of `disable`.
pub fn disable_message(outcome: &Result<(), StorageError>) -> (text: String)
    ensures
        text@ == disable_text(outcome is Ok),
{
    if outcome.is_ok() {
        String::from_str("Automatic Role Scanning is no longer active")
    } else {
        String::from_str("A database error occurred, unable to disable auto scanning")
    }
}

/// Writes the answer of `status`.
pub fn status_message(enabled: bool) -> (text: String)
    ensures
        text@ == status_text(enabled),
{
    if enabled {
        String::from_str("Automatic role scanning is currently enabled")
    } else {
        String::from_str("Automatic role scanning is currently disabled")
    }
}

/// Switches reactive enforcement on for the server it is given in.
#[derive(Clone, Copy, Debug)]
pub struct EnableCommand;

impl DiscordCommand for EnableCommand {
    fn register(&self) -> (spec: CommandSpec)
        ensures
            enable_registration(spec),
    {
        CommandSpec {
            name: String::from_str("enable"),
            description: String::from_str("Enables the automatic role scanner"),
            administrators_only: true,
            options: Vec::new(),
        }
    }

    fn run(&self, request: &CommandRequest, data: &mut AppData) -> (reply: CommandReply)
        ensures
            enable_result(request.guild_id, reply@),
    {
        match request.guild_id {
            None => CommandReply::Text(
                String::from_str("No server ID found, unable to enable auto scanning"),
            ),
            Some(server_id) => {
                let outcome = data.enable_auto_scan(server_id);
                CommandReply::Text(enable_message(&outcome))
            },
        }
    }
}

/// Switches reactive enforcement off for the server it is given in.
#[derive(Clone, Copy, Debug)]
pub struct DisableCommand;

impl DiscordCommand for DisableCommand {
    fn register(&self) -> (spec: CommandSpec)
        ensures
            disable_registration(spec),
    {
        CommandSpec {
            name: String::from_str("disable"),
            description: String::from_str("Disables the automatic role scanner"),
            administrators_only: true,
            options: Vec::new(),
        }
    }

    fn run(&self, request: &CommandRequest, data: &mut AppData) -> (reply: CommandReply)
        ensures
            disable_result(request.guild_id, reply@),
    {
        match request.guild_id {
            None => CommandReply::Text(
                String::from_str("No server ID given, unable to disable auto scanning"),
            ),
            Some(server_id) => {
                let outcome = data.disable_auto_scan(server_id);
                CommandReply::Text(disable_message(&outcome))
            },
        }
    }
}

/// Says whether reactive enforcement is on for the server it is given in.
#[derive(Clone, Copy, Debug)]
pub struct StatusCommand;

impl DiscordCommand for StatusCommand {
    fn register(&self) -> (spec: CommandSpec)
        ensures
            status_registration(spec),
    {
        CommandSpec {
            name: String::from_str("status"),
            description: String::from_str(
                "Check if the automatic role scanner is enabled or disabled",
            ),
            administrators_only: true,
            options: Vec::new(),
        }
    }

    fn run(&self, request: &CommandRequest, data: &mut AppData) -> (reply: CommandReply)
        ensures
            status_result(request.guild_id, reply@),
    {
        match request.guild_id {
            None => CommandReply::Text(String::from_str("No server ID found, unable to check status")),
            Some(server_id) => CommandReply::Text(
                status_message(data.is_auto_scan_enabled(server_id)),
            ),
        }
    }
}

} // verus!
