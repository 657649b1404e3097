//! PunchChat: two endpoints exchange short lines of text as datagrams,
//! directly and without a server.
//!
//! This crate holds the rules of the exchange and performs no I/O. A driver
//! owns the terminal, the socket and the clock; it offers each line that it
//! reads to the `queue`, carries out each command that the `event_loop`
//! issues, reports what came of it, and writes out what the loop gives it
//! to show.
//!
//! - `message`: a line of 1 to 255 bytes, the unit that is sent.
//! - `wire`: what a datagram carries, and how an arriving one is read.
//! - `input`: what becomes of each line that the operator types.
//! - `queue`: the way from the input source to the event loop.
//! - `event_loop`: the loop itself, as a state machine.
//! - `screen`: the texts that the operator sees.
//! - `config`: the startup parameters.
//! - `decimal`: port numbers written out.
//! - `conversation`, `endpoint`: what holds of whole runs of the loop, of
//!   an endpoint with its queue, and of two endpoints that talk.

pub mod config;
pub mod conversation;
pub mod decimal;
pub mod endpoint;
pub mod event_loop;
pub mod input;
pub mod message;
pub mod queue;
pub mod screen;
pub mod wire;

pub use crate::config::Cli;
