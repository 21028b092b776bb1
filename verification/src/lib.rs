//! Client-side GELF encoding: log messages are normalised against the
//! reserved GELF fields and a logger's default fields, rendered as one flat
//! JSON object and optionally compressed before a backend ships them.

pub mod backends;
pub mod errors;
pub mod json;
pub mod level;
pub mod logger;
pub mod message;
pub mod text;

pub use backends::Backend;
pub use errors::Error;
pub use level::{Level, RecordLevel};
pub use logger::Logger;
pub use message::compression::MessageCompression;
pub use message::metadata::Metadata;
pub use message::timestamp::Timestamp;
pub use message::wire_message::WireMessage;
pub use message::Message;
