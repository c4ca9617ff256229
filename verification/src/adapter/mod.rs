//! The stdio adapter: it attaches to the broker, or has one forked, and turns
//! tool calls into broker commands.
pub mod broker_client;
pub mod laws;
pub mod resolve;
pub mod server;
pub mod spawn;
pub mod tools;

pub use broker_client::BrokerClient;
pub use resolve::resolve_session;
