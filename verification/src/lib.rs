//! Synchronisation between the threads of a chat channel and the tickets of
//! a ticket system: a message becomes a ticket, a reply becomes a comment,
//! and changes of a ticket are told to its thread.
//!
//! The library decides; it never touches the network. Whatever needs it is
//! written as a flow: a state, and a step function that takes the outcome of
//! the last action and hands out the next. The caller performs the actions.
//! Time is passed in by the caller as well.

pub mod cfg;
pub mod encoding;
pub mod ident;
pub mod jira_api;
pub mod markup;
pub mod ms_graph_api;
pub mod pattern;
pub mod server;
pub mod sorting;
pub mod text;
