use jcfbot::core_commands::{global_commands, register_on_ready, run_help, run_ping};
use jcfbot::declaration::{payload, CommandDecl};
use jcfbot::event::Action;
use jcfbot::jcfdiscord::{guild_commands, register_on_guild_create, run_noot, run_swole};
use jcfbot::router::command_reply;
use serenity::builder::CreateApplicationCommand;
use serenity::model::application::interaction::application_command::CommandDataOption;

fn some_options() -> Vec<CommandDataOption> {
    let first: CommandDataOption =
        serde_json::from_str("{\"name\":\"target\",\"type\":3,\"value\":\"everyone\"}").unwrap();
    let second: CommandDataOption =
        serde_json::from_str("{\"name\":\"loud\",\"type\":5,\"value\":true}").unwrap();
    vec![first, second]
}

fn text_field(entry: &CreateApplicationCommand, key: &str) -> Option<String> {
    entry.0.get(key).and_then(|value| value.as_str()).map(|text| text.to_string())
}

fn names_and_descriptions(entries: &[CreateApplicationCommand]) -> Vec<(String, String)> {
    let mut pairs = Vec::new();
    for entry in entries {
        assert_eq!(entry.0.len(), 2);
        pairs.push((text_field(entry, "name").unwrap(), text_field(entry, "description").unwrap()));
    }
    pairs
}

#[test]
fn help_returns_its_fixed_text() {
    assert_eq!(run_help(&[]), "Not yet implemented!");
}

#[test]
fn ping_returns_its_fixed_text() {
    assert_eq!(run_ping(&[]), "Pong!");
}

#[test]
fn swole_returns_its_fixed_text() {
    assert_eq!(run_swole(&[]), "Too bad you're not as swole as swolebro");
}

#[test]
fn noot_returns_its_fixed_text() {
    assert_eq!(run_noot(&[]), "noot noot");
}

#[test]
fn handlers_ignore_their_options() {
    let options = some_options();
    assert_eq!(options.len(), 2);
    assert_eq!(options[0].name, "target");
    assert_eq!(run_help(&options), run_help(&[]));
    assert_eq!(run_ping(&options), "Pong!");
    assert_eq!(run_swole(&options), "Too bad you're not as swole as swolebro");
    assert_eq!(run_noot(&options), "noot noot");
}

#[test]
fn router_answers_the_four_commands() {
    let options = some_options();
    assert_eq!(command_reply("help", &[]), "Not yet implemented!");
    assert_eq!(command_reply("ping", &[]), "Pong!");
    assert_eq!(command_reply("swole", &[]), "Too bad you're not as swole as swolebro");
    assert_eq!(command_reply("noot", &[]), "noot noot");
    assert_eq!(command_reply("ping", &options), "Pong!");
    assert_eq!(command_reply("noot", &options), "noot noot");
}

#[test]
fn router_falls_back_on_unknown_names() {
    let fallback = "This interaction is not implemented.";
    assert_eq!(command_reply("functions", &[]), fallback);
    assert_eq!(command_reply("", &[]), fallback);
    assert_eq!(command_reply("Ping", &[]), fallback);
    assert_eq!(command_reply("ping ", &[]), fallback);
    assert_eq!(command_reply("pin", &[]), fallback);
    assert_eq!(command_reply("nööt", &some_options()), fallback);
}

#[test]
fn global_commands_are_ping_and_help() {
    let commands = global_commands();
    assert_eq!(commands.len(), 2);
    assert_eq!(commands[0].name, "ping");
    assert_eq!(commands[0].description, "Checks for a bot response.");
    assert_eq!(commands[1].name, "help");
    assert_eq!(commands[1].description, "Displays command help.");
}

#[test]
fn guild_commands_are_swole_and_noot() {
    let commands = guild_commands();
    assert_eq!(commands.len(), 2);
    assert_eq!(commands[0].name, "swole");
    assert_eq!(commands[0].description, "are u swole");
    assert_eq!(commands[1].name, "noot");
    assert_eq!(commands[1].description, "noot noot");
}

#[test]
fn declaration_keeps_name_and_description() {
    let command = CommandDecl::new("swole", "are u swole");
    assert_eq!(command.name, "swole");
    assert_eq!(command.description, "are u swole");
}

#[test]
fn builder_holds_name_and_description() {
    let entry = CommandDecl::new("ping", "Checks for a bot response.").to_builder();
    assert_eq!(entry.0.len(), 2);
    assert_eq!(text_field(&entry, "name"), Some("ping".to_string()));
    assert_eq!(text_field(&entry, "description"), Some("Checks for a bot response.".to_string()));
}

#[test]
fn builder_of_an_empty_declaration_holds_empty_texts() {
    let entry = CommandDecl::new("", "").to_builder();
    assert_eq!(text_field(&entry, "name"), Some(String::new()));
    assert_eq!(text_field(&entry, "description"), Some(String::new()));
}

#[test]
fn payload_has_one_entry_per_command_in_order() {
    let commands = vec![
        CommandDecl::new("a", "first"),
        CommandDecl::new("b", "second"),
        CommandDecl::new("c", "third"),
    ];
    let pairs = names_and_descriptions(&payload(&commands));
    assert_eq!(
        pairs,
        vec![
            ("a".to_string(), "first".to_string()),
            ("b".to_string(), "second".to_string()),
            ("c".to_string(), "third".to_string()),
        ]
    );
    assert!(payload(&Vec::new()).is_empty());
}

#[test]
fn ready_registration_declares_ping_and_help() {
    match register_on_ready() {
        Action::RegisterGlobal(entries) => assert_eq!(
            names_and_descriptions(&entries),
            vec![
                ("ping".to_string(), "Checks for a bot response.".to_string()),
                ("help".to_string(), "Displays command help.".to_string()),
            ]
        ),
        other => panic!("unexpected action: {:?}", other),
    }
}

#[test]
fn guild_registration_declares_swole_and_noot_in_that_guild() {
    match register_on_guild_create(77) {
        Action::RegisterGuild { guild_id, payload } => {
            assert_eq!(guild_id, 77);
            assert_eq!(
                names_and_descriptions(&payload),
                vec![
                    ("swole".to_string(), "are u swole".to_string()),
                    ("noot".to_string(), "noot noot".to_string()),
                ]
            );
        },
        other => panic!("unexpected action: {:?}", other),
    }
}

#[test]
fn registering_twice_declares_the_same_commands() {
    let first = match register_on_ready() {
        Action::RegisterGlobal(entries) => names_and_descriptions(&entries),
        other => panic!("unexpected action: {:?}", other),
    };
    let second = match register_on_ready() {
        Action::RegisterGlobal(entries) => names_and_descriptions(&entries),
        other => panic!("unexpected action: {:?}", other),
    };
    assert_eq!(first, second);
    let mut names: Vec<String> = first.into_iter().map(|pair| pair.0).collect();
    names.sort();
    names.dedup();
    assert_eq!(names.len(), 2);
}

#[test]
fn every_declared_command_has_a_handler() {
    let fallback = "This interaction is not implemented.";
    for command in global_commands().iter().chain(guild_commands().iter()) {
        assert_ne!(command_reply(&command.name, &[]), fallback);
    }
}
