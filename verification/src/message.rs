//! What the client does with an event message's payload before decoding it.
use crate::compression::{
    compressed_form, decompress_data, lz4_capacity, lz4_max_input, lz4_unblock, zstd_content,
    zstd_frame, zstd_regular_level, CompressionError,
};
use crate::protocol::{CompressionType, EventMessage, SerializationProtocol};
use vstd::prelude::*;
use vstd::slice::slice_to_vec;

verus! {

/// How to decode a payload: as JSON, as a typed chain event, or as a typed chain event
/// with JSON as the fallback.
#[derive(Debug, Clone, Copy, PartialEq, Eq, Structural)]
pub enum PayloadDecoding {
    Json,
    ChainEvent,
    ChainEventThenJson,
}

/// The decoding that a serialization format calls for.
pub open spec fn decoding_for(format: SerializationProtocol) -> PayloadDecoding {
    match format {
        SerializationProtocol::JSON => PayloadDecoding::Json,
        SerializationProtocol::Bincode => PayloadDecoding::ChainEvent,
        SerializationProtocol::Auto => PayloadDecoding::ChainEventThenJson,
    }
}

/// The decoding that a serialization format calls for.
pub fn payload_decoding(format: SerializationProtocol) -> (r: PayloadDecoding)
    ensures
        r == decoding_for(format),
{
    match format {
        SerializationProtocol::JSON => PayloadDecoding::Json,
        SerializationProtocol::Bincode => PayloadDecoding::ChainEvent,
        SerializationProtocol::Auto => PayloadDecoding::ChainEventThenJson,
    }
}

impl EventMessage {
    /// The payload, decompressed with the message's algorithm when it is marked compressed,
    /// and as it came otherwise.
    pub fn get_decompressed_data(&self) -> (r: Result<Vec<u8>, CompressionError>)
        requires
            self.data@.len() * 4 <= usize::MAX,
        ensures
            (!self.is_compressed || self.compression_format == CompressionType::Uncompressed) ==> (r matches Ok(v)
                && v@ == self.data@),
            self.is_compressed && self.compression_format == CompressionType::LZ4 ==> (r is Ok
                <==> lz4_unblock(self.data@, lz4_capacity(self.data@.len())) is Some),
            self.is_compressed && self.compression_format == CompressionType::LZ4 ==> (r matches Ok(v)
                ==> lz4_unblock(self.data@, lz4_capacity(self.data@.len())) == Some(v@)),
            self.is_compressed && self.compression_format == CompressionType::Zstd ==> (r matches Ok(v)
                ==> v@ == zstd_content(self.data@)),
            forall|x: Seq<u8>|
                self.is_compressed && self.data@ == compressed_form(x, self.compression_format) && (
                self.compression_format == CompressionType::LZ4 ==> x.len() <= lz4_capacity(
                    self.data@.len(),
                ) <= lz4_max_input()) ==> (r matches Ok(v) && v@ == x),
            forall|x: Seq<u8>, level: i32|
                self.is_compressed && self.compression_format == CompressionType::Zstd && self.data@
                    == zstd_frame(x, level) && zstd_regular_level(level) ==> (r matches Ok(v) && v@ == x),
    {
        if self.is_compressed {
            decompress_data(self.data.as_slice(), &self.compression_format)
        } else {
            Ok(slice_to_vec(self.data.as_slice()))
        }
    }
}

} // verus!
