//! Properties of the router that hold for every input.

use crate::core_commands::global_set;
use crate::declaration::payload_fields;
use crate::declaration::payload_of;
use crate::declaration::Declared;
use crate::event::ActionView;
use crate::event::EventView;
use crate::event::MessageView;
use crate::jcfdiscord::guild_set;
use crate::logger::no_channel_name;
use crate::router::fallback_reply;
use crate::router::known_command;
use crate::router::plan;
use crate::router::reply_text;
use crate::text::decimal_text;
use vstd::prelude::*;

verus! {

/// The four command names differ from one another.
proof fn lemma_names_differ()
    ensures
        "help"@ != "ping"@,
        "help"@ != "swole"@,
        "help"@ != "noot"@,
        "ping"@ != "swole"@,
        "ping"@ != "noot"@,
        "swole"@ != "noot"@,
{
    reveal_strlit("help");
    reveal_strlit("ping");
    reveal_strlit("swole");
    reveal_strlit("noot");
    assert("help"@[0] != "ping"@[0]);
    assert("help"@[0] != "noot"@[0]);
    assert("ping"@[0] != "noot"@[0]);
}

/// Each of the four commands is answered with its own fixed text.
pub proof fn lemma_known_replies()
    ensures
        reply_text("help"@) == "Not yet implemented!"@,
        reply_text("ping"@) == "Pong!"@,
        reply_text("swole"@) == "Too bad you're not as swole as swolebro"@,
        reply_text("noot"@) == "noot noot"@,
        known_command("help"@),
        known_command("ping"@),
        known_command("swole"@),
        known_command("noot"@),
{
    lemma_names_differ();
}

/// A command is answered with the fallback text exactly when it is not one
/// of the four: no handler's reply can be taken for the fallback.
pub proof fn lemma_fallback_iff_unknown(name: Seq<char>)
    ensures
        reply_text(name) == fallback_reply() <==> !known_command(name),
{
    reveal_strlit("This interaction is not implemented.");
    reveal_strlit("Not yet implemented!");
    reveal_strlit("Pong!");
    reveal_strlit("Too bad you're not as swole as swolebro");
    reveal_strlit("noot noot");
    assert("This interaction is not implemented."@.len() == 36);
    assert("Not yet implemented!"@.len() == 20);
    assert("Pong!"@.len() == 5);
    assert("Too bad you're not as swole as swolebro"@.len() == 39);
    assert("noot noot"@.len() == 9);
}

/// A message whose channel name could not be resolved is still logged, under
/// the placeholder.
pub proof fn lemma_unresolved_channel_is_logged(message: MessageView)
    requires
        message.channel_name is None,
    ensures
        plan(EventView::MessageReceived(message)) == seq![
            ActionView::Log(
                "#"@ + no_channel_name() + " ["@ + message.author_name + "#"@ + decimal_text(
                    message.author_discriminator as nat,
                ) + "]: "@ + message.content,
            ),
        ],
{
}

/// Whether no two entries of `commands` have the same name.
pub open spec fn names_distinct(commands: Seq<Declared>) -> bool {
    forall|i: int, j: int|
        0 <= i < j < commands.len() ==> (#[trigger] commands[i]).name != (
        #[trigger] commands[j]).name
}

/// Whether some entry of `commands` is named `name`.
pub open spec fn declares(commands: Seq<Declared>, name: Seq<char>) -> bool {
    exists|i: int| 0 <= i < commands.len() && (#[trigger] commands[i]).name == name
}

/// Within each scope the declared names are pairwise distinct, so that no
/// entry of a declaration overwrites another; no name is declared in both
/// scopes; and the declared commands are exactly those that have a handler.
pub proof fn lemma_declared_names(name: Seq<char>)
    ensures
        names_distinct(global_set()),
        names_distinct(guild_set()),
        !(declares(global_set(), name) && declares(guild_set(), name)),
        known_command(name) <==> declares(global_set(), name) || declares(guild_set(), name),
{
    lemma_names_differ();
    assert(global_set()[0].name == "ping"@);
    assert(global_set()[1].name == "help"@);
    assert(guild_set()[0].name == "swole"@);
    assert(guild_set()[1].name == "noot"@);
}

/// Every ready event asks for the same global declaration, whatever it
/// carries: declaring again sends what was sent before.
pub proof fn lemma_global_declaration_repeats(first: EventView, second: EventView)
    requires
        first is Ready,
        second is Ready,
    ensures
        plan(first)[2] == ActionView::RegisterGlobal(payload_of(global_set())),
        plan(second)[2] == plan(first)[2],
{
}

/// Two discoveries of one server ask for the same declaration in that
/// server, whatever name the server goes by.
pub proof fn lemma_guild_declaration_repeats(first: EventView, second: EventView)
    requires
        first is GuildDiscovered,
        second is GuildDiscovered,
        first->guild_id == second->guild_id,
    ensures
        plan(first)[1] == (ActionView::RegisterGuild {
            guild_id: first->guild_id,
            payload: payload_of(guild_set()),
        }),
        plan(second)[1] == plan(first)[1],
{
}

/// An entry of a payload holds the command's name under `name`, its
/// description under `description`, and nothing else.
pub proof fn lemma_payload_entry(command: Declared)
    ensures
        payload_fields(command).dom() == set!["name"@, "description"@],
        payload_fields(command)["name"@] == command.name,
        payload_fields(command)["description"@] == command.description,
{
    reveal_strlit("name");
    reveal_strlit("description");
    assert("name"@.len() != "description"@.len());
    assert(payload_fields(command).dom() =~= set!["name"@, "description"@]);
}

} // verus!
