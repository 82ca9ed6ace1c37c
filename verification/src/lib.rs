//! The Supervisor's control gateway wire protocol: transaction and header words, messages,
//! the frame codec on a `bytes::BytesMut` stream buffer, and the protocol types that it
//! carries about services.

pub mod buffer;
pub mod codec;
pub mod header;
pub mod message;
pub mod protocols;
pub mod text;
pub mod txn;
pub mod wire;

pub use codec::SrvCodec;
pub use header::SrvHeader;
pub use message::SrvMessage;
pub use txn::{SrvTxn, MAX_TXN_ID};
