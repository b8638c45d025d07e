//! The commands declared server by server: `swole` and `noot`.

use crate::declaration::declared;
use crate::declaration::payload;
use crate::declaration::payload_of;
use crate::declaration::CommandDecl;
use crate::declaration::Declared;
use crate::event::Action;
use crate::event::ActionView;
use serenity::model::application::interaction::application_command::CommandDataOption;
use vstd::prelude::*;
use vstd::string::StringExecFns;

verus! {

/// The reply to `swole`.
pub open spec fn swole_reply() -> Seq<char> {
    "Too bad you're not as swole as swolebro"@
}

/// The reply to `noot`.
pub open spec fn noot_reply() -> Seq<char> {
    "noot noot"@
}

/// The commands declared for each server, in the order of their declaration.
pub open spec fn guild_set() -> Seq<Declared> {
    seq![
        Declared { name: "swole"@, description: "are u swole"@ },
        Declared { name: "noot"@, description: "noot noot"@ },
    ]
}

/// Answers `swole`. The options are not read.
pub fn run_swole(_options: &[CommandDataOption]) -> (reply: String)
    ensures
        reply@ == swole_reply(),
{
    String::from_str("Too bad you're not as swole as swolebro")
}

/// Answers `noot`. The options are not read.
pub fn run_noot(_options: &[CommandDataOption]) -> (reply: String)
    ensures
        reply@ == noot_reply(),
{
    String::from_str("noot noot")
}

/// The commands declared for each server.
pub fn guild_commands() -> (commands: Vec<CommandDecl>)
    ensures
        declared(commands@) == guild_set(),
{
    let mut commands: Vec<CommandDecl> = Vec::new();
    commands.push(CommandDecl::new("swole", "are u swole"));
    commands.push(CommandDecl::new("noot", "noot noot"));
    assert(declared(commands@) =~= guild_set());
    commands
}

/// What to do when a server is discovered: declare the server's commands,
/// scoped to that server.
pub fn register_on_guild_create(guild_id: u64) -> (action: Action)
    ensures
        action@ == (ActionView::RegisterGuild { guild_id, payload: payload_of(guild_set()) }),
{
    let commands = guild_commands();
    Action::RegisterGuild { guild_id, payload: payload(&commands) }
}

} // verus!
