//! How the outcome of an action is reported on the console.
//!
//! No outcome is fatal and none is retried: a failure is reported and the
//! bot goes on with the next event.

use crate::event::optional_text;
use vstd::prelude::*;
use vstd::string::StringExecFns;

verus! {

/// How an action ended; `error` holds the text of the failure, if it failed.
#[derive(Clone, Debug)]
pub enum Outcome {
    /// The global commands were declared, or could not be.
    GlobalRegistration { error: Option<String> },
    /// The commands of one server were declared, or could not be.
    GuildRegistration { guild_name: String, error: Option<String> },
    /// A reply was delivered, or could not be.
    ReplySent { error: Option<String> },
    /// The connection ended.
    ConnectionClosed { error: Option<String> },
}

/// The mathematical value of an [`Outcome`].
pub ghost enum OutcomeView {
    GlobalRegistration { error: Option<Seq<char>> },
    GuildRegistration { guild_name: Seq<char>, error: Option<Seq<char>> },
    ReplySent { error: Option<Seq<char>> },
    ConnectionClosed { error: Option<Seq<char>> },
}

impl View for Outcome {
    type V = OutcomeView;

    open spec fn view(&self) -> OutcomeView {
        match self {
            Outcome::GlobalRegistration { error } => OutcomeView::GlobalRegistration {
                error: optional_text(*error),
            },
            Outcome::GuildRegistration { guild_name, error } => OutcomeView::GuildRegistration {
                guild_name: guild_name@,
                error: optional_text(*error),
            },
            Outcome::ReplySent { error } => OutcomeView::ReplySent { error: optional_text(*error) },
            Outcome::ConnectionClosed { error } => OutcomeView::ConnectionClosed {
                error: optional_text(*error),
            },
        }
    }
}

/// The console line that reports `outcome`, if it calls for one. Every
/// failure is reported; of the successes, only the registrations are.
pub open spec fn report_text(outcome: OutcomeView) -> Option<Seq<char>> {
    match outcome {
        OutcomeView::GlobalRegistration { error: None } => Some(
            "Registered `core` global commands."@,
        ),
        OutcomeView::GlobalRegistration { error: Some(e) } => Some(
            "Error registering `core` global commands: "@ + e,
        ),
        OutcomeView::GuildRegistration { guild_name, error: None } => Some(
            "Registered `core` guild commands for guild: "@ + guild_name,
        ),
        OutcomeView::GuildRegistration { guild_name, error: Some(e) } => Some(
            "Error registering `jcfdiscord` guild commands: "@ + e,
        ),
        OutcomeView::ReplySent { error: None } => None,
        OutcomeView::ReplySent { error: Some(e) } => Some("Cannot respond to slash command: "@ + e),
        OutcomeView::ConnectionClosed { error: None } => None,
        OutcomeView::ConnectionClosed { error: Some(e) } => Some(
            "An error occurred while running the client: "@ + e,
        ),
    }
}

/// `prefix` followed by `rest`.
fn prefixed(prefix: &str, rest: &String) -> (text: String)
    ensures
        text@ == prefix@ + rest@,
{
    let mut text = String::from_str(prefix);
    text.append(rest.as_str());
    text
}

/// The console line that reports `outcome`, if it calls for one.
pub fn report(outcome: &Outcome) -> (line: Option<String>)
    ensures
        optional_text(line) == report_text(outcome@),
{
    match outcome {
        Outcome::GlobalRegistration { error: None } => Some(
            String::from_str("Registered `core` global commands."),
        ),
        Outcome::GlobalRegistration { error: Some(e) } => Some(
            prefixed("Error registering `core` global commands: ", e),
        ),
        Outcome::GuildRegistration { guild_name, error: None } => Some(
            prefixed("Registered `core` guild commands for guild: ", guild_name),
        ),
        Outcome::GuildRegistration { guild_name: _, error: Some(e) } => Some(
            prefixed("Error registering `jcfdiscord` guild commands: ", e),
        ),
        Outcome::ReplySent { error: None } => None,
        Outcome::ReplySent { error: Some(e) } => Some(
            prefixed("Cannot respond to slash command: ", e),
        ),
        Outcome::ConnectionClosed { error: None } => None,
        Outcome::ConnectionClosed { error: Some(e) } => Some(
            prefixed("An error occurred while running the client: ", e),
        ),
    }
}

} // verus!
