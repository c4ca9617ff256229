//! Dust: a broker and an adapter that connect an MCP client to Roblox Studio.
//!
//! The library holds the rules of the two processes as functions on plain
//! state; sockets, files, clocks and the async runtime live around it.
//!
//! - [`protocol`]: the messages that every process exchanges.
//! - [`discovery`]: where the broker leaves its rendezvous file, and who owns it.
//! - [`broker`]: the session registry, the command queues and the HTTP rules.
//! - [`adapter`]: session choice, tool calls and the requests to the broker.
//! - [`setup`]: the guidance for setting the programs up.
//! - [`laws`]: what each operation does, said of its calls.
//! - [`json`] and [`text`]: JSON values and strings with their meaning stated.
//!
//! Every point in time is a number of nanoseconds on one monotonic clock, and
//! every duration is a number of nanoseconds.
pub mod adapter;
pub mod broker;
pub mod discovery;
pub mod json;
pub mod laws;
pub mod protocol;
pub mod setup;
pub mod text;
