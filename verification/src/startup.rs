//! What is settled before the bot connects: the credential and the events it
//! asks the gateway for.

use serenity::model::gateway::GatewayIntents;
use vstd::prelude::*;
use vstd::string::StringExecFns;

verus! {

/// The intents that the platform does not count as privileged, as a bit set:
/// every intent it defines (bits 0 to 16, 20 and 21) but for guild members
/// (bit 1), guild presences (bit 8) and message content (bit 15).
pub open spec fn non_privileged_set() -> u64 {
    0x31_7EFD
}

/// The intent that delivers the text of messages: bit 15.
pub open spec fn message_content_bit() -> u64 {
    0x8000
}

/// The intents that the bot connects with: the non-privileged ones and
/// message content.
pub open spec fn declared_intents() -> u64 {
    0x31_FEFD
}

/// `GatewayIntents::non_privileged()`, as bits: the complement of the three
/// privileged intents within the set of all intents that serenity defines.
#[verifier::external_body]
fn non_privileged_bits() -> (bits: u64)
    ensures
        bits == non_privileged_set(),
{
    GatewayIntents::non_privileged().bits()
}

/// `GatewayIntents::MESSAGE_CONTENT`, as bits: the single bit 15.
#[verifier::external_body]
fn message_content_bits() -> (bits: u64)
    ensures
        bits == message_content_bit(),
{
    GatewayIntents::MESSAGE_CONTENT.bits()
}

/// The intents to connect with, as bits.
pub fn gateway_intents() -> (bits: u64)
    ensures
        bits == declared_intents(),
        bits == non_privileged_set() | message_content_bit(),
{
    let base: u64 = non_privileged_bits();
    let content: u64 = message_content_bits();
    assert(0x31_7EFDu64 | 0x8000u64 == 0x31_FEFDu64) by (bit_vector);
    base | content
}

/// Why the bot could not start.
#[derive(Clone, Copy, Debug, PartialEq, Eq, Structural)]
pub enum StartupError {
    /// The environment holds no credential.
    MissingCredential,
    /// The connection could not be set up.
    ClientCreation,
}

impl StartupError {
    /// The diagnostic that the process ends with.
    pub open spec fn message_text(self) -> Seq<char> {
        match self {
            StartupError::MissingCredential => "token"@,
            StartupError::ClientCreation => "Error creating client"@,
        }
    }

    /// The diagnostic that the process ends with.
    pub fn message(&self) -> (text: String)
        ensures
            text@ == self.message_text(),
    {
        match self {
            StartupError::MissingCredential => String::from_str("token"),
            StartupError::ClientCreation => String::from_str("Error creating client"),
        }
    }
}

/// All that is needed to open the connection.
#[derive(Clone, Debug)]
pub struct ConnectionPlan {
    pub token: String,
    pub intents: u64,
}

/// The name of the environment variable that holds the credential.
pub fn credential_variable() -> (name: &'static str)
    ensures
        name@ == "DISCORD_TOKEN"@,
{
    "DISCORD_TOKEN"
}

/// Plans the connection from what the environment holds under
/// [`credential_variable`]. Without a credential there is no plan, so that
/// nothing can be connected.
pub fn connection_plan(credential: Option<String>) -> (plan: Result<ConnectionPlan, StartupError>)
    ensures
        credential is None <==> plan is Err,
        plan is Err ==> plan->Err_0 == StartupError::MissingCredential,
        plan is Ok ==> plan->Ok_0.token == credential->Some_0 && plan->Ok_0.intents
            == declared_intents(),
{
    match credential {
        Some(token) => Ok(ConnectionPlan { token, intents: gateway_intents() }),
        None => Err(StartupError::MissingCredential),
    }
}

} // verus!
