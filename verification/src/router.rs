//! The event router: from each gateway event to the actions it calls for,
//! and from the outcome of an action to the console line that reports it.

use crate::core_commands::global_set;
use crate::core_commands::help_reply;
use crate::core_commands::ping_reply;
use crate::core_commands::register_on_ready;
use crate::core_commands::run_help;
use crate::core_commands::run_ping;
use crate::declaration::payload_of;
use crate::event::action_views;
use crate::event::Action;
use crate::event::ActionView;
use crate::event::Event;
use crate::event::EventView;
use crate::event::Interaction;
use crate::event::InteractionView;
use crate::event::PresenceKind;
use crate::jcfdiscord::guild_set;
use crate::jcfdiscord::noot_reply;
use crate::jcfdiscord::register_on_guild_create;
use crate::jcfdiscord::run_noot;
use crate::jcfdiscord::run_swole;
use crate::jcfdiscord::swole_reply;
use crate::logger::message_line;
use crate::logger::message_line_text;
use crate::text::decimal_text;
use crate::text::push_decimal;
use crate::text::text_equals;
use serenity::model::application::interaction::application_command::CommandDataOption;
use vstd::prelude::*;
use vstd::string::StringExecFns;

verus! {

/// Whether `name` is one of the commands that have a handler.
pub open spec fn known_command(name: Seq<char>) -> bool {
    name == "help"@ || name == "ping"@ || name == "swole"@ || name == "noot"@
}

/// The reply to a command that has no handler.
pub open spec fn fallback_reply() -> Seq<char> {
    "This interaction is not implemented."@
}

/// The reply to the command `name`.
pub open spec fn reply_text(name: Seq<char>) -> Seq<char> {
    if name == "help"@ {
        help_reply()
    } else if name == "ping"@ {
        ping_reply()
    } else if name == "swole"@ {
        swole_reply()
    } else if name == "noot"@ {
        noot_reply()
    } else {
        fallback_reply()
    }
}

/// The status shown once the connection is ready.
pub open spec fn ready_presence() -> ActionView {
    ActionView::SetPresence { kind: PresenceKind::Watching, name: "u sleep"@ }
}

/// The actions that `event` calls for, in the order in which they are to be
/// carried out.
pub open spec fn plan(event: EventView) -> Seq<ActionView> {
    match event {
        EventView::Ready { user_name, shard_id } => seq![
            ActionView::Log("Discovered Username: "@ + user_name),
            ActionView::Log("Discovered Shard ID: "@ + decimal_text(shard_id as nat)),
            ActionView::RegisterGlobal(payload_of(global_set())),
            ready_presence(),
        ],
        EventView::GuildDiscovered { guild_id, guild_name } => seq![
            ActionView::Log("Discovered Guild: "@ + guild_name),
            ActionView::RegisterGuild { guild_id, payload: payload_of(guild_set()) },
        ],
        EventView::InteractionReceived(InteractionView::Command { name, dump }) => seq![
            ActionView::Log("Received command interaction: "@ + dump),
            ActionView::Reply(reply_text(name)),
        ],
        EventView::InteractionReceived(InteractionView::Other) => Seq::empty(),
        EventView::MessageReceived(message) => seq![ActionView::Log(message_line_text(message))],
    }
}

/// Answers the command `name`: the reply of its handler where it has one, the
/// fallback otherwise.
pub fn command_reply(name: &str, options: &[CommandDataOption]) -> (reply: String)
    ensures
        reply@ == reply_text(name@),
        !known_command(name@) ==> reply@ == fallback_reply(),
{
    if text_equals(name, "help") {
        run_help(options)
    } else if text_equals(name, "ping") {
        run_ping(options)
    } else if text_equals(name, "swole") {
        run_swole(options)
    } else if text_equals(name, "noot") {
        run_noot(options)
    } else {
        String::from_str("This interaction is not implemented.")
    }
}

/// `prefix` followed by `rest`.
fn joined(prefix: &str, rest: &str) -> (text: String)
    ensures
        text@ == prefix@ + rest@,
{
    let mut text = String::from_str(prefix);
    text.append(rest);
    text
}

/// Decides what to do about `event`. The router keeps no state: the actions
/// depend on the event alone.
pub fn handle_event(event: &Event) -> (actions: Vec<Action>)
    ensures
        action_views(actions@) == plan(event@),
{
    let mut actions: Vec<Action> = Vec::new();
    match event {
        Event::Ready { user_name, shard_id } => {
            actions.push(Action::Log(joined("Discovered Username: ", user_name.as_str())));
            let mut shard_line = String::from_str("Discovered Shard ID: ");
            push_decimal(&mut shard_line, *shard_id);
            actions.push(Action::Log(shard_line));
            actions.push(register_on_ready());
            actions.push(
                Action::SetPresence {
                    kind: PresenceKind::Watching,
                    name: String::from_str("u sleep"),
                },
            );
        },
        Event::GuildDiscovered { guild_id, guild_name } => {
            actions.push(Action::Log(joined("Discovered Guild: ", guild_name.as_str())));
            actions.push(register_on_guild_create(*guild_id));
        },
        Event::InteractionReceived(Interaction::Command { name, options, dump }) => {
            actions.push(Action::Log(joined("Received command interaction: ", dump.as_str())));
            actions.push(Action::Reply(command_reply(name.as_str(), options.as_slice())));
        },
        Event::InteractionReceived(Interaction::Other) => {},
        Event::MessageReceived(message) => {
            actions.push(Action::Log(message_line(message)));
        },
    }
    assert(action_views(actions@) =~= plan(event@));
    actions
}

} // verus!
