//! Setting and showing a server's primary role.

use vstd::prelude::*;
use vstd::string::*;
use crate::classifier::holds_role;
use crate::commands::commands::{
    get_option, option_position, CommandDataOption, CommandDataOptionValue, CommandOptionKind,
    CommandOptionSpec, CommandReply, CommandReplyView, CommandRequest, CommandSpec, DiscordCommand,
};
use crate::data::{AppData, StorageError};
use crate::text::{decimal, render_u64};

verus! {

/// The answer to a successful `set`.
pub open spec fn updated_text(role_id: u64) -> Seq<char> {
    "Updated primary role to "@ + decimal(role_id as nat)
}

/// The answer to `get`.
pub open spec fn primary_role_text(role: Option<u64>) -> Seq<char> {
    match role {
        None => "No primary role set for this server"@,
        Some(role_id) => "The primary role for this server is "@ + decimal(role_id as nat),
    }
}

/// What the options of a `set` come to, once looked through: a refusal,
/// or the role to check against the server's roles.
pub open spec fn role_request(guild_id: Option<u64>, options: Seq<CommandDataOption>)
    -> CommandReplyView {
    let at = option_position("role_id"@, options, 0);
    if at >= options.len() {
        CommandReplyView::Text("No role ID given"@)
    } else {
        match options[at as int].value {
            CommandDataOptionValue::Role(role_id) => match guild_id {
                None => CommandReplyView::Text("No server ID found"@),
                Some(server_id) => CommandReplyView::CheckRole { server_id, role_id },
            },
            _ => CommandReplyView::Text("Given role ID is invalid"@),
        }
    }
}

/// What a `set` comes to before the server is asked for its roles.
pub open spec fn set_request(guild_id: Option<u64>, command: CommandDataOptionValue)
    -> CommandReplyView {
    match command {
        CommandDataOptionValue::SubCommand(options) => role_request(guild_id, options@),
        _ => CommandReplyView::Text("Invalid command data"@),
    }
}

/// What a `set` answers at the end. `server_roles` is the list of the
/// server's roles, or `None` if it could not be fetched; `stored` says
/// whether the store took the change.
pub open spec fn set_text(role_id: u64, server_roles: Option<Seq<u64>>, stored: bool) -> Seq<char> {
    match server_roles {
        None => "Failed to get list of roles from the server"@,
        Some(roles) => if !roles.contains(role_id) {
            "Given role is not in this server"@
        } else if !stored {
            "Failed to update primary role in the database"@
        } else {
            updated_text(role_id)
        },
    }
}

/// The roles that a fetched list holds, as contracts see them.
pub open spec fn roles_view(server_roles: Option<&Vec<u64>>) -> Option<Seq<u64>> {
    match server_roles {
        Some(roles) => Some(roles@),
        None => None,
    }
}

/// Looks through the options of a `set` given directly.
pub fn read_role_request(guild_id: Option<u64>, options: &Vec<CommandDataOption>) -> (reply:
    CommandReply)
    ensures
        reply@ == role_request(guild_id, options@),
{
    let Some(option) = get_option("role_id", options) else {
        return CommandReply::Text(String::from_str("No role ID given"));
    };
    let Some(role_id) = option.value.as_role_id() else {
        return CommandReply::Text(String::from_str("Given role ID is invalid"));
    };
    let Some(server_id) = guild_id else {
        return CommandReply::Text(String::from_str("No server ID found"));
    };
    CommandReply::CheckRole { server_id, role_id }
}

/// The commands on a server's primary role: `set` and `get`.
#[derive(Clone, Copy, Debug)]
pub struct PrimaryRoleCommands;

impl PrimaryRoleCommands {
    /// The first half of `set`: looks through the request. What remains is
    /// to check the role against the server's roles, in `finish_set`.
    pub fn set(guild_id: Option<u64>, command: &CommandDataOptionValue) -> (reply: CommandReply)
        ensures
            reply@ == set_request(guild_id, *command),
    {
        match command {
            CommandDataOptionValue::SubCommand(options) => read_role_request(guild_id, options),
            _ => CommandReply::Text(String::from_str("Invalid command data")),
        }
    }

    /// The second half of `set`: with the server's roles at hand (`None`:
    /// they could not be fetched), stores the role if the server has it.
    /// The store is asked only then, and decides whether the change is
    /// taken.
    pub fn finish_set(
        server_id: u64,
        role_id: u64,
        server_roles: Option<&Vec<u64>>,
        data: &mut AppData,
    ) -> (text: String)
        ensures
            text@ == set_text(role_id, roles_view(server_roles), true) || text@ == set_text(
                role_id,
                roles_view(server_roles),
                false,
            ),
    {
        let Some(roles) = server_roles else {
            return String::from_str("Failed to get list of roles from the server");
        };
        if !holds_role(roles, role_id) {
            return String::from_str("Given role is not in this server");
        }
        let outcome = data.update_server_primary_role(server_id, role_id);
        Self::stored_message(role_id, &outcome)
    }

    /// Writes the answer of a `set` for what the store reported.
    pub fn stored_message(role_id: u64, outcome: &Result<(), StorageError>) -> (text: String)
        ensures
            text@ == if outcome is Ok {
                updated_text(role_id)
            } else {
                "Failed to update primary role in the database"@
            },
    {
        if outcome.is_ok() {
            Self::updated_message(role_id)
        } else {
            String::from_str("Failed to update primary role in the database")
        }
    }

    /// Writes the answer to a successful `set`.
    pub fn updated_message(role_id: u64) -> (text: String)
        ensures
            text@ == updated_text(role_id),
    {
        let mut text = String::from_str("Updated primary role to ");
        let number = render_u64(role_id);
        text.append(number.as_str());
        text
    }

    /// Writes the answer to `get` for a primary role read from the store.
    pub fn primary_role_message(role: Option<u64>) -> (text: String)
        ensures
            text@ == primary_role_text(role),
    {
        match role {
            None => String::from_str("No primary role set for this server"),
            Some(role_id) => {
                let mut text = String::from_str("The primary role for this server is ");
                let number = render_u64(role_id);
                text.append(number.as_str());
                text
            },
        }
    }

    /// `get`: shows the server's primary role as the store has it.
    /// Without a server the store is not asked.
    pub fn get(guild_id: Option<u64>, data: &AppData) -> (text: String)
        ensures
            get_result(guild_id, text@),
    {
        match guild_id {
            None => String::from_str("No server ID found"),
            Some(server_id) => {
                let role = data.get_primary_role(server_id);
                let text = Self::primary_role_message(role);
                assert(text@ == primary_role_text(role));
                text
            },
        }
    }
}

/// What `get` may come to: without a server a refusal; with one, the
/// answer for the primary role that the store gave, whichever that is.
pub open spec fn get_result(guild_id: Option<u64>, text: Seq<char>) -> bool {
    match guild_id {
        None => text == "No server ID found"@,
        Some(_) => exists|role: Option<u64>| text == #[trigger] primary_role_text(role),
    }
}

/// What `primaryrole` may come to before the platform is asked anything:
/// the first option names the subcommand.
pub open spec fn primary_role_result(
    guild_id: Option<u64>,
    options: Seq<CommandDataOption>,
    reply: CommandReplyView,
) -> bool {
    if options.len() == 0 {
        reply == CommandReplyView::Text("No subcommand given"@)
    } else if options[0].name@ == "set"@ {
        reply == set_request(guild_id, options[0].value)
    } else if options[0].name@ == "get"@ {
        reply matches CommandReplyView::Text(text) && get_result(guild_id, text)
    } else {
        reply == CommandReplyView::Text("Unknown subcommand"@)
    }
}

/// The description under which `primaryrole` is registered: two
/// subcommands, `set` with the role to set, and `get`.
pub open spec fn primary_role_registration(spec: CommandSpec) -> bool {
    &&& spec.name@ == "primaryrole"@
    &&& spec.description@ == "Commands to manage the primary role for this server"@
    &&& spec.administrators_only
    &&& spec.options@.len() == 2
    &&& spec.options@[0].kind == CommandOptionKind::SubCommand
    &&& spec.options@[0].name@ == "set"@
    &&& spec.options@[0].description@ == "Set the primary role for this server"@
    &&& !spec.options@[0].required
    &&& spec.options@[0].sub_options@.len() == 1
    &&& spec.options@[0].sub_options@[0].kind == CommandOptionKind::Role
    &&& spec.options@[0].sub_options@[0].name@ == "role_id"@
    &&& spec.options@[0].sub_options@[0].description@ == "Role to become the new primary role"@
    &&& spec.options@[0].sub_options@[0].required
    &&& spec.options@[0].sub_options@[0].sub_options@.len() == 0
    &&& spec.options@[1].kind == CommandOptionKind::SubCommand
    &&& spec.options@[1].name@ == "get"@
    &&& spec.options@[1].description@ == "Get the current primary role for this server"@
    &&& !spec.options@[1].required
    &&& spec.options@[1].sub_options@.len() == 0
}

impl DiscordCommand for PrimaryRoleCommands {
    fn register(&self) -> (spec: CommandSpec)
        ensures
            primary_role_registration(spec),
    {
        let mut set_options: Vec<CommandOptionSpec> = Vec::new();
        set_options.push(
            CommandOptionSpec {
                kind: CommandOptionKind::Role,
                name: String::from_str("role_id"),
                description: String::from_str("Role to become the new primary role"),
                required: true,
                sub_options: Vec::new(),
            },
        );
        let mut options: Vec<CommandOptionSpec> = Vec::new();
        options.push(
            CommandOptionSpec {
                kind: CommandOptionKind::SubCommand,
                name: String::from_str("set"),
                description: String::from_str("Set the primary role for this server"),
                required: false,
                sub_options: set_options,
            },
        );
        options.push(
            CommandOptionSpec {
                kind: CommandOptionKind::SubCommand,
                name: String::from_str("get"),
                description: String::from_str("Get the current primary role for this server"),
                required: false,
                sub_options: Vec::new(),
            },
        );
        CommandSpec {
            name: String::from_str("primaryrole"),
            description: String::from_str("Commands to manage the primary role for this server"),
            administrators_only: true,
            options,
        }
    }

    fn run(&self, request: &CommandRequest, data: &mut AppData) -> (reply: CommandReply)
        ensures
            primary_role_result(request.guild_id, request.options@, reply@),
    {
        if request.options.len() == 0 {
            return CommandReply::Text(String::from_str("No subcommand given"));
        }
        let subcommand = &request.options[0];
        if subcommand.name == String::from_str("set") {
            PrimaryRoleCommands::set(request.guild_id, &subcommand.value)
        } else if subcommand.name == String::from_str("get") {
            CommandReply::Text(PrimaryRoleCommands::get(request.guild_id, data))
        } else {
            CommandReply::Text(String::from_str("Unknown subcommand"))
        }
    }
}

} // verus!
