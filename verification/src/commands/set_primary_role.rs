//! Setting the primary role with the role given as the command's own
//! option, as a pair of plain functions.

use vstd::prelude::*;
use vstd::string::*;
use crate::commands::commands::{
    CommandDataOption, CommandOptionKind, CommandOptionSpec, CommandReply, CommandSpec,
};
use crate::commands::primary_role::{read_role_request, role_request};

verus! {

/// Looks through the request for the role to set. What remains is to
/// check the role against the server's roles and to store it, in
/// `PrimaryRoleCommands::finish_set`.
pub fn run(guild_id: Option<u64>, options: &Vec<CommandDataOption>) -> (reply: CommandReply)
    ensures
        reply@ == role_request(guild_id, options@),
{
    read_role_request(guild_id, options)
}

/// The description under which the command is registered.
pub fn register() -> (spec: CommandSpec)
    ensures
        spec.name@ == "primaryrole"@,
        spec.description@
            == "Set the primary role for this server that all members must have in order to be given another role."@,
        spec.administrators_only,
        spec.options@.len() == 1,
        spec.options@[0].kind == CommandOptionKind::Role,
        spec.options@[0].name@ == "role_id"@,
        spec.options@[0].description@ == "Role to become the new primary role"@,
        spec.options@[0].required,
        spec.options@[0].sub_options@.len() == 0,
{
    let mut options: Vec<CommandOptionSpec> = Vec::new();
    options.push(
        CommandOptionSpec {
            kind: CommandOptionKind::Role,
            name: String::from_str("role_id"),
            description: String::from_str("Role to become the new primary role"),
            required: true,
            sub_options: Vec::new(),
        },
    );
    CommandSpec {
        name: String::from_str("primaryrole"),
        description: String::from_str(
            "Set the primary role for this server that all members must have in order to be given another role.",
        ),
        administrators_only: true,
        options,
    }
}

} // verus!
