//! The commands every server gets: `ping` and `help`.

use crate::declaration::declared;
use crate::declaration::payload;
use crate::declaration::payload_of;
use crate::declaration::CommandDecl;
use crate::declaration::Declared;
use crate::event::Action;
use crate::event::ActionView;
use serenity::model::application::interaction::application_command::CommandDataOption;
use vstd::prelude::*;
use vstd::string::StringExecFns;

verus! {

/// The reply to `help`.
pub open spec fn help_reply() -> Seq<char> {
    "Not yet implemented!"@
}

/// The reply to `ping`.
pub open spec fn ping_reply() -> Seq<char> {
    "Pong!"@
}

/// The commands declared for all servers, in the order of their declaration.
pub open spec fn global_set() -> Seq<Declared> {
    seq![
        Declared { name: "ping"@, description: "Checks for a bot response."@ },
        Declared { name: "help"@, description: "Displays command help."@ },
    ]
}

/// Answers `help`. The options are not read.
pub fn run_help(_options: &[CommandDataOption]) -> (reply: String)
    ensures
        reply@ == help_reply(),
{
    String::from_str("Not yet implemented!")
}

/// Answers `ping`. The options are not read.
pub fn run_ping(_options: &[CommandDataOption]) -> (reply: String)
    ensures
        reply@ == ping_reply(),
{
    String::from_str("Pong!")
}

/// The commands declared for all servers.
pub fn global_commands() -> (commands: Vec<CommandDecl>)
    ensures
        declared(commands@) == global_set(),
{
    let mut commands: Vec<CommandDecl> = Vec::new();
    commands.push(CommandDecl::new("ping", "Checks for a bot response."));
    commands.push(CommandDecl::new("help", "Displays command help."));
    assert(declared(commands@) =~= global_set());
    commands
}

/// What to do once the connection is ready: declare the global commands.
pub fn register_on_ready() -> (action: Action)
    ensures
        action@ == ActionView::RegisterGlobal(payload_of(global_set())),
{
    let commands = global_commands();
    Action::RegisterGlobal(payload(&commands))
}

} // verus!
