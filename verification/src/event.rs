//! What the gateway reports to the bot and what the bot asks to be done.

use crate::declaration::payload_view;
use serenity::builder::CreateApplicationCommand;
use serenity::model::application::interaction::application_command::CommandDataOption;
use vstd::prelude::*;

verus! {

/// Makes serenity's `CommandDataOption` known to the verifier as an opaque
/// type. Nothing is claimed of its contents.
#[verifier::external_type_specification]
#[verifier::external_body]
pub struct ExCommandDataOption(CommandDataOption);

/// A chat message that the bot can see.
#[derive(Clone, Debug)]
pub struct Message {
    /// The display name of the channel, where it could be resolved.
    pub channel_name: Option<String>,
    pub author_name: String,
    pub author_discriminator: u16,
    pub content: String,
}

/// The mathematical value of a [`Message`].
pub ghost struct MessageView {
    pub channel_name: Option<Seq<char>>,
    pub author_name: Seq<char>,
    pub author_discriminator: u16,
    pub content: Seq<char>,
}

/// The characters of an optional text.
pub open spec fn optional_text(text: Option<String>) -> Option<Seq<char>> {
    match text {
        Some(t) => Some(t@),
        None => None,
    }
}

impl View for Message {
    type V = MessageView;

    open spec fn view(&self) -> MessageView {
        MessageView {
            channel_name: optional_text(self.channel_name),
            author_name: self.author_name@,
            author_discriminator: self.author_discriminator,
            content: self.content@,
        }
    }
}

/// Something a user did that asks the bot for an answer.
#[derive(Clone, Debug)]
pub enum Interaction {
    /// A slash command, with a printable dump of the whole invocation.
    Command { name: String, options: Vec<CommandDataOption>, dump: String },
    /// Any other kind of interaction; the bot does not answer these.
    Other,
}

/// The mathematical value of an [`Interaction`]. The options are left out:
/// no command reads them.
pub ghost enum InteractionView {
    Command { name: Seq<char>, dump: Seq<char> },
    Other,
}

impl View for Interaction {
    type V = InteractionView;

    open spec fn view(&self) -> InteractionView {
        match self {
            Interaction::Command { name, options, dump } => InteractionView::Command {
                name: name@,
                dump: dump@,
            },
            Interaction::Other => InteractionView::Other,
        }
    }
}

/// An event delivered by the gateway.
#[derive(Clone, Debug)]
pub enum Event {
    /// The connection is established.
    Ready { user_name: String, shard_id: u64 },
    /// A server the bot is a member of, seen at connect time or on join.
    GuildDiscovered { guild_id: u64, guild_name: String },
    /// A user invoked something.
    InteractionReceived(Interaction),
    /// A chat message arrived.
    MessageReceived(Message),
}

/// The mathematical value of an [`Event`].
pub ghost enum EventView {
    Ready { user_name: Seq<char>, shard_id: u64 },
    GuildDiscovered { guild_id: u64, guild_name: Seq<char> },
    InteractionReceived(InteractionView),
    MessageReceived(MessageView),
}

impl View for Event {
    type V = EventView;

    open spec fn view(&self) -> EventView {
        match self {
            Event::Ready { user_name, shard_id } => EventView::Ready {
                user_name: user_name@,
                shard_id: *shard_id,
            },
            Event::GuildDiscovered { guild_id, guild_name } => EventView::GuildDiscovered {
                guild_id: *guild_id,
                guild_name: guild_name@,
            },
            Event::InteractionReceived(interaction) => EventView::InteractionReceived(
                interaction@,
            ),
            Event::MessageReceived(message) => EventView::MessageReceived(message@),
        }
    }
}

/// How a presence status reads before its text.
#[derive(Clone, Copy, Debug, PartialEq, Eq, Structural)]
pub enum PresenceKind {
    Playing,
    Listening,
    Watching,
    Competing,
}

/// Something for the caller to carry out on the bot's behalf.
#[derive(Clone, Debug)]
pub enum Action {
    /// Print a line on the console.
    Log(String),
    /// Declare commands for all servers.
    RegisterGlobal(Vec<CreateApplicationCommand>),
    /// Declare commands for one server.
    RegisterGuild { guild_id: u64, payload: Vec<CreateApplicationCommand> },
    /// Show a presence status.
    SetPresence { kind: PresenceKind, name: String },
    /// Answer the interaction at hand with a channel message.
    Reply(String),
}

/// The mathematical value of an [`Action`]; a payload is given by the fields
/// of its entries.
pub ghost enum ActionView {
    Log(Seq<char>),
    RegisterGlobal(Seq<Map<Seq<char>, Seq<char>>>),
    RegisterGuild { guild_id: u64, payload: Seq<Map<Seq<char>, Seq<char>>> },
    SetPresence { kind: PresenceKind, name: Seq<char> },
    Reply(Seq<char>),
}

impl View for Action {
    type V = ActionView;

    open spec fn view(&self) -> ActionView {
        match self {
            Action::Log(line) => ActionView::Log(line@),
            Action::RegisterGlobal(payload) => ActionView::RegisterGlobal(payload_view(payload@)),
            Action::RegisterGuild { guild_id, payload } => ActionView::RegisterGuild {
                guild_id: *guild_id,
                payload: payload_view(payload@),
            },
            Action::SetPresence { kind, name } => ActionView::SetPresence {
                kind: *kind,
                name: name@,
            },
            Action::Reply(content) => ActionView::Reply(content@),
        }
    }
}

/// The values of a list of actions, in order.
pub open spec fn action_views(actions: Seq<Action>) -> Seq<ActionView> {
    Seq::new(actions.len(), |i: int| actions[i]@)
}

} // verus!
