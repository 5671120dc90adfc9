//! What every command has in common: the request it answers, the reply it
//! gives, and the description under which it is registered.

use vstd::prelude::*;
use vstd::string::*;
use crate::data::AppData;
use crate::sweep::{SweepRun, SweepView};

verus! {

/// The value that came with one option of a command.
#[derive(Debug)]
pub enum CommandDataOptionValue {
    /// A role of the server.
    Role(u64),
    /// A subcommand with options of its own.
    SubCommand(Vec<CommandDataOption>),
    /// Anything else.
    Other,
}

/// One option of a command as the user gave it.
#[derive(Debug)]
pub struct CommandDataOption {
    pub name: String,
    pub value: CommandDataOptionValue,
}

impl CommandDataOptionValue {
    /// The role, where the value is one.
    pub fn as_role_id(&self) -> (role: Option<u64>)
        ensures
            role == match *self {
                CommandDataOptionValue::Role(id) => Some(id),
                _ => None,
            },
    {
        match self {
            CommandDataOptionValue::Role(id) => Some(*id),
            _ => None,
        }
    }
}

/// The position of the first option called `name`, or the number of
/// options if none is.
pub open spec fn option_position(name: Seq<char>, options: Seq<CommandDataOption>, from: nat) -> nat
    decreases options.len() - from,
{
    if from >= options.len() {
        options.len()
    } else if options[from as int].name@ == name {
        from
    } else {
        option_position(name, options, from + 1)
    }
}

/// The first option called `name`.
pub fn get_option<'a>(name: &str, vec: &'a Vec<CommandDataOption>) -> (found: Option<
    &'a CommandDataOption,
>)
    ensures
        found is Some <==> option_position(name@, vec@, 0) < vec@.len(),
        found matches Some(option) ==> *option == vec@[option_position(name@, vec@, 0) as int],
        found is None <==> forall|i: int| 0 <= i < vec@.len() ==> vec@[i].name@ != name@,
{
    let wanted = String::from_str(name);
    let mut i: usize = 0;
    while i < vec.len()
        invariant
            i <= vec.len(),
            wanted@ == name@,
            option_position(name@, vec@, 0) == option_position(name@, vec@, i as nat),
            forall|j: int| 0 <= j < i ==> vec@[j].name@ != name@,
        decreases vec.len() - i,
    {
        if vec[i].name == wanted {
            return Some(&vec[i]);
        }
        i += 1;
    }
    None
}

/// A command as it arrives: where it was given, by whom, with what.
#[derive(Debug)]
pub struct CommandRequest {
    /// The server the command was given in, if any.
    pub guild_id: Option<u64>,
    /// The user who gave it.
    pub user_id: u64,
    pub options: Vec<CommandDataOption>,
}

/// What a command comes to.
pub enum CommandReply {
    /// The answer, ready to be shown.
    Text(String),
    /// The answer depends on whether the server has the role: fetch the
    /// server's roles and finish with `PrimaryRoleCommands::finish_set`.
    CheckRole { server_id: u64, role_id: u64 },
    /// A sweep, not yet started: drive it with `SweepRun::step`.
    Sweep(SweepRun),
}

/// What a `CommandReply` stands for in contracts.
pub enum CommandReplyView {
    Text(Seq<char>),
    CheckRole { server_id: u64, role_id: u64 },
    Sweep(SweepView),
}

impl View for CommandReply {
    type V = CommandReplyView;

    open spec fn view(&self) -> CommandReplyView {
        match self {
            CommandReply::Text(text) => CommandReplyView::Text(text@),
            CommandReply::CheckRole { server_id, role_id } => CommandReplyView::CheckRole {
                server_id: *server_id,
                role_id: *role_id,
            },
            CommandReply::Sweep(run) => CommandReplyView::Sweep(run@),
        }
    }
}

/// The kind of value an option takes.
#[derive(Clone, Copy, Debug, PartialEq, Eq, Structural)]
pub enum CommandOptionKind {
    SubCommand,
    Role,
}

/// An option in a command's description.
#[derive(Debug, PartialEq, Eq)]
pub struct CommandOptionSpec {
    pub kind: CommandOptionKind,
    pub name: String,
    pub description: String,
    pub required: bool,
    pub sub_options: Vec<CommandOptionSpec>,
}

/// The description under which a command is registered with the platform.
#[derive(Debug, PartialEq, Eq)]
pub struct CommandSpec {
    pub name: String,
    pub description: String,
    /// Whether only administrators may give the command.
    pub administrators_only: bool,
    pub options: Vec<CommandOptionSpec>,
}

/// A description without options, for administrators only.
pub open spec fn plain_registration(spec: CommandSpec, name: Seq<char>, description: Seq<char>) -> bool {
    &&& spec.name@ == name
    &&& spec.description@ == description
    &&& spec.administrators_only
    &&& spec.options@.len() == 0
}

/// A command: something that can be registered and run.
pub trait DiscordCommand {
    /// The description to register.
    fn register(&self) -> CommandSpec;

    /// Answers a request, reading and writing the store as it must.
    fn run(&self, request: &CommandRequest, data: &mut AppData) -> CommandReply;
}

} // verus!
