//! The console line written for each chat message.

use crate::event::optional_text;
use crate::event::Message;
use crate::event::MessageView;
use crate::text::decimal_text;
use crate::text::push_decimal;
use vstd::prelude::*;
use vstd::string::StringExecFns;

verus! {

/// What stands for a channel whose name could not be resolved.
pub open spec fn no_channel_name() -> Seq<char> {
    "(no channel name)"@
}

/// The name a channel is logged under: its display name where there is one,
/// the placeholder otherwise.
pub open spec fn channel_label_text(resolved: Option<Seq<char>>) -> Seq<char> {
    match resolved {
        Some(name) => name,
        None => no_channel_name(),
    }
}

/// The console line for a message: `#channel [author#discriminator]: content`.
pub open spec fn message_line_text(message: MessageView) -> Seq<char> {
    "#"@ + channel_label_text(message.channel_name) + " ["@ + message.author_name + "#"@
        + decimal_text(message.author_discriminator as nat) + "]: "@ + message.content
}

/// The name to log a channel under, given the outcome of resolving its
/// display name.
pub fn channel_label(resolved: &Option<String>) -> (label: String)
    ensures
        label@ == channel_label_text(optional_text(*resolved)),
        *resolved is None ==> label@ == no_channel_name(),
{
    match resolved {
        Some(name) => name.clone(),
        None => String::from_str("(no channel name)"),
    }
}

/// The console line for `message`. There is one for every message, whether
/// or not the channel's name was resolved.
pub fn message_line(message: &Message) -> (line: String)
    ensures
        line@ == message_line_text(message@),
{
    let label = channel_label(&message.channel_name);
    let mut line = String::from_str("#");
    line.append(label.as_str());
    line.append(" [");
    line.append(message.author_name.as_str());
    line.append("#");
    push_decimal(&mut line, message.author_discriminator as u64);
    line.append("]: ");
    line.append(message.content.as_str());
    assert(line@ =~= message_line_text(message@));
    line
}

} // verus!
