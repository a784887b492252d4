//! The decision core of a small peer-to-peer chat node.
//!
//! The node merges two sources, the events of its network layer and the
//! commands of its operator, into one ordered stream of reactions. This crate
//! holds the rules of that merge: how an operator's line becomes a command,
//! which protocol handler an event belongs to, and what the event loop logs
//! and does for each thing that reaches it. Performing an effect (dialling,
//! publishing, writing a log line) is left to the program around the crate.

pub mod address;
pub mod behaviour;
pub mod command;
pub mod event;
pub mod event_loop;
pub mod record;
pub mod text;
