//! What each operation does, said of its calls.
//!
//! A law here takes a call that was made and what it returned, and says in terms
//! of the two what must hold. Where a call changes a value, the law speaks of it
//! before and after.
pub mod broker;
pub mod client;
pub mod discovery;
pub mod json;
pub mod queue;
pub mod registry;
pub mod resolve;
pub mod routes;
pub mod server;
pub mod session;
pub mod setup;
pub mod spawn;
pub mod text;
pub mod tools;
