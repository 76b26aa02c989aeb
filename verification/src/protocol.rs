//! The data that the stream server and this client exchange.
use crate::json::JsonValue;
use vstd::prelude::*;

verus! {

/// How an event's payload is serialized.
#[derive(Debug, Clone, Copy, PartialEq, Eq, Structural)]
pub enum SerializationProtocol {
    JSON,
    Bincode,
    /// Chosen per message.
    Auto,
}

/// Compression presets, each an algorithm and a level.
#[derive(Debug, Clone, Copy, PartialEq, Eq, Structural)]
pub enum CompressionLevel {
    /// No compression.
    Off,
    LZ4Fast,
    LZ4High,
    ZstdFast,
    ZstdMedium,
    ZstdHigh,
    ZstdMax,
}

/// A compression algorithm.
#[derive(Debug, Clone, Copy, PartialEq, Eq, Structural)]
pub enum CompressionType {
    /// Data left as it is.
    Uncompressed,
    LZ4,
    Zstd,
}

/// Metadata of a chain event.
#[derive(Debug, Clone)]
pub struct EventMetadata {
    pub block_time: Option<u64>,
    pub slot: Option<u64>,
    pub signature: Option<String>,
    pub source: Option<String>,
    pub priority: Option<u32>,
}

/// A transaction event as the server sends it: a type name, an identifier, a timestamp,
/// a JSON payload and optional metadata.
#[derive(Debug)]
pub struct TransactionEvent {
    pub event_id: String,
    pub event_type: String,
    pub timestamp: u64,
    pub data: JsonValue,
    pub metadata: Option<EventMetadata>,
}

/// What the client reads of an event message: its identifier, its payload bytes and how
/// they are serialized and compressed.
#[derive(Debug, Clone)]
pub struct EventMessage {
    pub event_id: String,
    pub data: Vec<u8>,
    pub serialization_format: SerializationProtocol,
    pub compression_format: CompressionType,
    pub is_compressed: bool,
}

} // verus!
