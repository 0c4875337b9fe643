//! Codec for the transaction payload record of a replication log: a
//! self-describing header of tagged fields followed by an opaque, optionally
//! compressed payload.

pub mod accounting;
pub mod compression;
pub mod consts;
pub mod error;
pub mod event;
pub mod header;
pub mod laws;
pub mod lenenc;
pub mod parse_buf;

pub use consts::{TransactionPayloadCompressionType, TransactionPayloadFields};
pub use error::TransactionPayloadError;
pub use event::{TransactionPayloadEvent, TransactionPayloadEventView};
pub use parse_buf::ParseBuf;
