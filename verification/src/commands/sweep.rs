//! Starting a sweep of the server a command is given in.

use vstd::prelude::*;
use vstd::string::*;
use crate::commands::commands::{
    plain_registration, CommandReply, CommandReplyView, CommandRequest, CommandSpec,
    DiscordCommand,
};
use crate::data::AppData;
use crate::sweep::{SweepRun, SweepView, DISCORD_BATCH_SIZE};

verus! {

/// What `sweep` comes to, given the server's primary role as the store
/// has it now: a refusal without a server, else a sweep that has yet to
/// start, with that role and the platform's page size.
pub open spec fn sweep_reply(primary_role: Option<u64>, guild_id: Option<u64>, user_id: u64)
    -> CommandReplyView {
    match guild_id {
        None => CommandReplyView::Text("No server ID was given"@),
        Some(server_id) => CommandReplyView::Sweep(
            SweepView::initial(server_id, user_id, primary_role, DISCORD_BATCH_SIZE),
        ),
    }
}

/// The description under which `sweep` is registered.
pub open spec fn sweep_registration(spec: CommandSpec) -> bool {
    plain_registration(
        spec,
        "sweep"@,
        "Sweep the current server and remove roles from members without the mandatory role."@,
    )
}

/// Sweeps through all members of the server and strips the roles of
/// everyone without the primary role.
#[derive(Clone, Copy, Debug)]
pub struct SweepCommand;

impl SweepCommand {
    /// Makes the sweep that the command asks for, given the server's
    /// primary role.
    pub fn start(guild_id: Option<u64>, user_id: u64, primary_role: Option<u64>) -> (reply:
        CommandReply)
        ensures
            reply@ == sweep_reply(primary_role, guild_id, user_id),
            reply matches CommandReply::Sweep(run) ==> run@.wf(),
    {
        match guild_id {
            None => CommandReply::Text(String::from_str("No server ID was given")),
            Some(server_id) => CommandReply::Sweep(
                SweepRun::new(server_id, user_id, primary_role, DISCORD_BATCH_SIZE),
            ),
        }
    }
}

impl DiscordCommand for SweepCommand {
    fn register(&self) -> (spec: CommandSpec)
        ensures
            sweep_registration(spec),
    {
        CommandSpec {
            name: String::from_str("sweep"),
            description: String::from_str(
                "Sweep the current server and remove roles from members without the mandatory role.",
            ),
            administrators_only: true,
            options: Vec::new(),
        }
    }

    /// Reads the server's primary role from the store, once, and makes the
    /// sweep with it. Without a server the store is not asked.
    fn run(&self, request: &CommandRequest, data: &mut AppData) -> (reply: CommandReply)
        ensures
            exists|primary_role: Option<u64>|
                reply@ == #[trigger] sweep_reply(primary_role, request.guild_id, request.user_id),
            reply matches CommandReply::Sweep(run) ==> run@.wf(),
    {
        match request.guild_id {
            None => {
                let reply = SweepCommand::start(None, request.user_id, None);
                assert(reply@ == sweep_reply(None, request.guild_id, request.user_id));
                reply
            },
            Some(server_id) => {
                let primary_role = data.get_primary_role(server_id);
                let reply = SweepCommand::start(request.guild_id, request.user_id, primary_role);
                assert(reply@ == sweep_reply(primary_role, request.guild_id, request.user_id));
                reply
            },
        }
    }
}

} // verus!
