pub mod buffer;
pub mod constants;
pub mod content_length;
pub mod laws;
pub mod media_type;
pub mod msgpack;
pub mod msgpack_config;
pub mod msgpack_error;
pub mod msgpack_message;

pub use constants::DEFAULT_PAYLOAD_LIMIT;
pub use msgpack::{MsgPack, Reply};
pub use msgpack_config::{effective_limit, MsgPackConfig};
pub use msgpack_error::{FailureKind, MsgPackError};
pub use msgpack_message::{decoded, Accumulator, Event, MsgPackMessage, Step};
