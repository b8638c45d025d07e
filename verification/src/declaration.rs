//! Command declarations and the payload that announces them to the platform.

use serenity::builder::CreateApplicationCommand;
use vstd::prelude::*;
use vstd::string::StringExecFns;

verus! {

/// Makes serenity's `CreateApplicationCommand` known to the verifier. The
/// builder is a map from field keys to JSON values; it stays opaque here and
/// is spoken of through [`builder_fields`].
#[verifier::external_type_specification]
#[verifier::external_body]
pub struct ExCreateApplicationCommand(CreateApplicationCommand);

/// The text fields that a command builder holds: each key whose value is a
/// JSON string, with that string.
pub uninterp spec fn builder_fields(builder: CreateApplicationCommand) -> Map<Seq<char>, Seq<char>>;

/// No field at all.
pub open spec fn no_fields() -> Map<Seq<char>, Seq<char>> {
    Map::empty()
}

/// `CreateApplicationCommand::default()`: a builder that holds no field.
#[verifier::external_body]
fn empty_builder() -> (builder: CreateApplicationCommand)
    ensures
        builder_fields(builder) == no_fields(),
{
    CreateApplicationCommand::default()
}

/// `CreateApplicationCommand::name`: stores `name` as a JSON string under the
/// key `name`, in place of what was there, and leaves the other fields.
#[verifier::external_body]
fn set_name(builder: &mut CreateApplicationCommand, name: &str)
    ensures
        builder_fields(*final(builder)) == builder_fields(*old(builder)).insert("name"@, name@),
{
    builder.name(name);
}

/// `CreateApplicationCommand::description`: stores `description` as a JSON
/// string under the key `description`, in place of what was there, and leaves
/// the other fields.
#[verifier::external_body]
fn set_description(builder: &mut CreateApplicationCommand, description: &str)
    ensures
        builder_fields(*final(builder)) == builder_fields(*old(builder)).insert(
            "description"@,
            description@,
        ),
{
    builder.description(description);
}

/// A command as the platform lists it: its name and a one-line description.
#[derive(Clone, Debug)]
pub struct CommandDecl {
    pub name: String,
    pub description: String,
}

/// The mathematical value of a [`CommandDecl`].
pub ghost struct Declared {
    pub name: Seq<char>,
    pub description: Seq<char>,
}

impl View for CommandDecl {
    type V = Declared;

    open spec fn view(&self) -> Declared {
        Declared { name: self.name@, description: self.description@ }
    }
}

/// The fields of the payload entry that announces `command`.
pub open spec fn payload_fields(command: Declared) -> Map<Seq<char>, Seq<char>> {
    no_fields().insert("name"@, command.name).insert("description"@, command.description)
}

/// The values of a list of declarations, in order.
pub open spec fn declared(commands: Seq<CommandDecl>) -> Seq<Declared> {
    Seq::new(commands.len(), |i: int| commands[i]@)
}

/// The fields of each entry of a payload, in order.
pub open spec fn payload_view(payload: Seq<CreateApplicationCommand>) -> Seq<
    Map<Seq<char>, Seq<char>>,
> {
    Seq::new(payload.len(), |i: int| builder_fields(payload[i]))
}

/// The payload that announces `commands`: one entry each, in order.
pub open spec fn payload_of(commands: Seq<Declared>) -> Seq<Map<Seq<char>, Seq<char>>> {
    Seq::new(commands.len(), |i: int| payload_fields(commands[i]))
}

impl CommandDecl {
    /// A declaration with the given name and description.
    pub fn new(name: &str, description: &str) -> (command: CommandDecl)
        ensures
            command@ == (Declared { name: name@, description: description@ }),
    {
        CommandDecl { name: String::from_str(name), description: String::from_str(description) }
    }

    /// The payload entry that announces this command.
    pub fn to_builder(&self) -> (builder: CreateApplicationCommand)
        ensures
            builder_fields(builder) == payload_fields(self@),
    {
        let mut builder = empty_builder();
        set_name(&mut builder, self.name.as_str());
        set_description(&mut builder, self.description.as_str());
        builder
    }
}

/// Builds the payload that announces `commands`.
pub fn payload(commands: &Vec<CommandDecl>) -> (entries: Vec<CreateApplicationCommand>)
    ensures
        payload_view(entries@) == payload_of(declared(commands@)),
{
    let mut entries: Vec<CreateApplicationCommand> = Vec::new();
    let mut i: usize = 0;
    while i < commands.len()
        invariant
            i <= commands@.len(),
            entries@.len() == i,
            forall|k: int| 0 <= k < i ==> builder_fields(entries@[k]) == payload_fields(commands@[k]@),
        decreases commands@.len() - i,
    {
        let builder = commands[i].to_builder();
        entries.push(builder);
        i = i + 1;
    }
    assert(payload_view(entries@) =~= payload_of(declared(commands@)));
    entries
}

} // verus!
