//! A command router for a small chat bot: canned replies to slash commands,
//! the command sets to declare, and the console lines to print.
//!
//! The library decides; the process around it talks to the gateway. An
//! [`event::Event`] goes in, a list of [`event::Action`]s comes out, and the
//! outcome of an action is turned into its console line by
//! [`outcome::report`].

pub mod core_commands;
pub mod declaration;
pub mod event;
pub mod jcfdiscord;
pub mod laws;
pub mod logger;
pub mod outcome;
pub mod router;
pub mod startup;
pub mod text;
