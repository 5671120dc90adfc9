//! Finding the command that a name stands for, and running it.

use vstd::prelude::*;
use vstd::string::*;
use crate::commands::bot_management::{
    disable_registration, disable_result, enable_registration, enable_result, status_registration,
    status_result, DisableCommand, EnableCommand, StatusCommand,
};
use crate::commands::commands::{
    CommandDataOption, CommandReply, CommandReplyView, CommandRequest, CommandSpec, DiscordCommand,
};
use crate::commands::primary_role::{
    primary_role_registration, primary_role_result, PrimaryRoleCommands,
};
use crate::commands::sweep::{sweep_registration, sweep_reply, SweepCommand};
use crate::data::AppData;

verus! {

/// The commands there are.
#[derive(Clone, Copy, Debug, PartialEq, Eq, Structural)]
pub enum CommandKind {
    Enable,
    Disable,
    Status,
    Sweep,
    PrimaryRole,
}

/// The name under which each command is registered.
pub open spec fn command_name(kind: CommandKind) -> Seq<char> {
    match kind {
        CommandKind::Enable => "enable"@,
        CommandKind::Disable => "disable"@,
        CommandKind::Status => "status"@,
        CommandKind::Sweep => "sweep"@,
        CommandKind::PrimaryRole => "primaryrole"@,
    }
}

/// The command that a name stands for, if any.
pub open spec fn command_named(name: Seq<char>) -> Option<CommandKind> {
    if name == "enable"@ {
        Some(CommandKind::Enable)
    } else if name == "disable"@ {
        Some(CommandKind::Disable)
    } else if name == "status"@ {
        Some(CommandKind::Status)
    } else if name == "sweep"@ {
        Some(CommandKind::Sweep)
    } else if name == "primaryrole"@ {
        Some(CommandKind::PrimaryRole)
    } else {
        None
    }
}

/// Every command is found under the name it is registered with.
pub proof fn lemma_commands_found_by_name(kind: CommandKind)
    ensures
        command_named(command_name(kind)) == Some(kind),
{
    reveal_strlit("enable");
    reveal_strlit("disable");
    reveal_strlit("status");
    reveal_strlit("sweep");
    reveal_strlit("primaryrole");
    assert("enable"@.len() == 6);
    assert("disable"@.len() == 7);
    assert("status"@[1] == 't');
    assert("sweep"@.len() == 5);
    assert("primaryrole"@.len() == 11);
}

/// What running a command may come to, by command. Where the store is
/// asked, the reply is the one for what the store said, whichever that is.
pub open spec fn command_result(
    kind: CommandKind,
    guild_id: Option<u64>,
    user_id: u64,
    options: Seq<CommandDataOption>,
    reply: CommandReplyView,
) -> bool {
    match kind {
        CommandKind::Enable => enable_result(guild_id, reply),
        CommandKind::Disable => disable_result(guild_id, reply),
        CommandKind::Status => status_result(guild_id, reply),
        CommandKind::Sweep => exists|primary_role: Option<u64>|
            reply == #[trigger] sweep_reply(primary_role, guild_id, user_id),
        CommandKind::PrimaryRole => primary_role_result(guild_id, options, reply),
    }
}

/// The description under which each command is registered.
pub open spec fn registration_of(kind: CommandKind, spec: CommandSpec) -> bool {
    match kind {
        CommandKind::Enable => enable_registration(spec),
        CommandKind::Disable => disable_registration(spec),
        CommandKind::Status => status_registration(spec),
        CommandKind::Sweep => sweep_registration(spec),
        CommandKind::PrimaryRole => primary_role_registration(spec),
    }
}

impl CommandKind {
    /// Looks a command up by name.
    pub fn from_name(name: &str) -> (found: Option<CommandKind>)
        ensures
            found == command_named(name@),
    {
        let wanted = String::from_str(name);
        if wanted == String::from_str("enable") {
            Some(CommandKind::Enable)
        } else if wanted == String::from_str("disable") {
            Some(CommandKind::Disable)
        } else if wanted == String::from_str("status") {
            Some(CommandKind::Status)
        } else if wanted == String::from_str("sweep") {
            Some(CommandKind::Sweep)
        } else if wanted == String::from_str("primaryrole") {
            Some(CommandKind::PrimaryRole)
        } else {
            None
        }
    }

    /// The description to register the command with.
    pub fn register(&self) -> (spec: CommandSpec)
        ensures
            registration_of(*self, spec),
            spec.name@ == command_name(*self),
            spec.administrators_only,
    {
        match self {
            CommandKind::Enable => EnableCommand.register(),
            CommandKind::Disable => DisableCommand.register(),
            CommandKind::Status => StatusCommand.register(),
            CommandKind::Sweep => SweepCommand.register(),
            CommandKind::PrimaryRole => PrimaryRoleCommands.register(),
        }
    }

    /// Runs the command on a request.
    pub fn run(&self, request: &CommandRequest, data: &mut AppData) -> (reply: CommandReply)
        ensures
            command_result(
                *self,
                request.guild_id,
                request.user_id,
                request.options@,
                reply@,
            ),
            reply matches CommandReply::Sweep(run) ==> run@.wf(),
    {
        match self {
            CommandKind::Enable => EnableCommand.run(request, data),
            CommandKind::Disable => DisableCommand.run(request, data),
            CommandKind::Status => StatusCommand.run(request, data),
            CommandKind::Sweep => SweepCommand.run(request, data),
            CommandKind::PrimaryRole => PrimaryRoleCommands.run(request, data),
        }
    }
}

/// The descriptions of all commands, to be registered with each server.
pub fn registrations() -> (specs: Vec<CommandSpec>)
    ensures
        specs@.len() == 5,
        registration_of(CommandKind::Enable, specs@[0]),
        registration_of(CommandKind::Disable, specs@[1]),
        registration_of(CommandKind::Status, specs@[2]),
        registration_of(CommandKind::Sweep, specs@[3]),
        registration_of(CommandKind::PrimaryRole, specs@[4]),
{
    let mut specs: Vec<CommandSpec> = Vec::new();
    specs.push(CommandKind::Enable.register());
    specs.push(CommandKind::Disable.register());
    specs.push(CommandKind::Status.register());
    specs.push(CommandKind::Sweep.register());
    specs.push(CommandKind::PrimaryRole.register());
    specs
}

/// Runs the command called `name`, if there is one. An unknown name gets
/// no reply, and the store is not touched.
pub fn dispatch(name: &str, request: &CommandRequest, data: &mut AppData) -> (reply: Option<
    CommandReply,
>)
    ensures
        match command_named(name@) {
            None => reply is None,
            Some(kind) => reply matches Some(given) && command_result(
                kind,
                request.guild_id,
                request.user_id,
                request.options@,
                given@,
            ),
        },
        reply matches Some(CommandReply::Sweep(run)) ==> run@.wf(),
{
    match CommandKind::from_name(name) {
        Some(kind) => Some(kind.run(request, data)),
        None => None,
    }
}

} // verus!
