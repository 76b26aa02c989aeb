//! Client library for a QUIC event stream: wire-format models, compression,
//! event classification, reconnection policy, batching and buffering.

pub mod client;
pub mod clock;
pub mod compression;
pub mod config;
pub mod event_parser;
pub mod json;
pub mod message;
pub mod performance;
pub mod protocol;
pub mod session;
pub mod text;

pub use client::ConnectionStatus;
pub use compression::{compress_data, decompress_data};
pub use protocol::{
    CompressionLevel, CompressionType, EventMessage, EventMetadata, SerializationProtocol,
    TransactionEvent,
};
pub use session::ClientStats;
