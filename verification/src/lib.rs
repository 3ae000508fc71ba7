//! Phoenix channels over websockets: the message model, the JSON framing, and the
//! decisions of the connection, channel and registry tasks.

pub mod channel;
pub mod conn;
pub mod endpoint;
pub mod examples;
pub mod json;
pub mod laws;
pub mod message;
pub mod parser;
pub mod pubsub;
pub mod registry;
pub mod table;
pub mod text;
pub mod types;

pub use conn::{Conn, Error, ReaderSubscriptions};
pub use parser::{ConnFormat, ParseError, PhoenixParser};
