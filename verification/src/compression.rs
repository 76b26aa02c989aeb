//! Compression of payloads with LZ4 (block format) or Zstd (frame format, level 1).
use crate::protocol::CompressionType;
use vstd::prelude::*;
use vstd::slice::slice_to_vec;

verus! {

/// `std::io::Error`, the error of the compression libraries.
#[verifier::external_type_specification]
#[verifier::external_body]
pub struct ExIoError(std::io::Error);

/// The largest input that the LZ4 block format takes (`LZ4_MAX_INPUT_SIZE`).
pub open spec fn lz4_max_input() -> int {
    0x7E00_0000
}

/// The LZ4 block that `lz4::block::compress` makes of `src` (default mode, no size prefix).
pub uninterp spec fn lz4_block(src: Seq<u8>) -> Seq<u8>;

/// What `lz4::block::decompress` makes of `src` with room for `capacity` bytes, if it succeeds.
pub uninterp spec fn lz4_unblock(src: Seq<u8>, capacity: i32) -> Option<Seq<u8>>;

/// The Zstd frame that `zstd::encode_all` makes of `src` at `level`.
pub uninterp spec fn zstd_frame(src: Seq<u8>, level: i32) -> Seq<u8>;

/// What `zstd::decode_all` makes of `src` when it succeeds.
pub uninterp spec fn zstd_content(src: Seq<u8>) -> Seq<u8>;

/// The largest block that LZ4 makes of `len` bytes (`LZ4_COMPRESSBOUND`, within the input
/// limit).
pub open spec fn lz4_bound(len: nat) -> nat {
    len + len / 255 + 16
}

/// Calls `lz4::block::compress(src, None, false)`. It fails exactly on inputs longer than
/// `LZ4_MAX_INPUT_SIZE`; otherwise the output buffer is the block bound, in which the C
/// library's compression always succeeds, and the block is cut to what was written.
#[verifier::external_body]
fn lz4_compress(src: &[u8]) -> (r: Result<Vec<u8>, std::io::Error>)
    ensures
        r is Ok <==> src@.len() <= lz4_max_input(),
        r matches Ok(v) ==> v@ == lz4_block(src@),
        r matches Ok(v) ==> v@.len() <= lz4_bound(src@.len()),
{
    lz4::block::compress(src, None, false)
}

/// Calls `lz4::block::decompress(src, Some(capacity))`. A block made from `x` decodes to
/// `x` when `x` fits in `capacity` and `capacity` is within the format's input limit.
#[verifier::external_body]
fn lz4_decompress(src: &[u8], capacity: i32) -> (r: Result<Vec<u8>, std::io::Error>)
    ensures
        r is Ok <==> lz4_unblock(src@, capacity) is Some,
        r matches Ok(v) ==> lz4_unblock(src@, capacity) == Some(v@),
        (exists|x: Seq<u8>|
            src@ == lz4_block(x) && x.len() <= capacity && capacity <= lz4_max_input()) ==> r is Ok,
        r matches Ok(v) ==> forall|x: Seq<u8>|
            src@ == lz4_block(x) && x.len() <= capacity && capacity <= lz4_max_input() ==> v@ == x,
{
    lz4::block::decompress(src, Some(capacity))
}

/// Zstd's regular compression levels, `1` to `19`.
pub open spec fn zstd_regular_level(level: i32) -> bool {
    1 <= level <= 19
}

/// Calls `zstd::encode_all(src, level)`. Reading a slice and writing a `Vec` cannot fail,
/// and zstd accepts every regular level, so at those levels it succeeds (a context that
/// cannot be allocated panics rather than failing).
#[verifier::external_body]
fn zstd_encode(src: &[u8], level: i32) -> (r: Result<Vec<u8>, std::io::Error>)
    ensures
        r matches Ok(v) ==> v@ == zstd_frame(src@, level),
        zstd_regular_level(level) ==> r is Ok,
{
    zstd::encode_all(src, level)
}

/// Calls `zstd::decode_all(src)`. A frame that it made from `x` at a regular level decodes,
/// and gives back `x`.
#[verifier::external_body]
fn zstd_decode(src: &[u8]) -> (r: Result<Vec<u8>, std::io::Error>)
    ensures
        r matches Ok(v) ==> v@ == zstd_content(src@),
        r matches Ok(v) ==> forall|x: Seq<u8>, level: i32| src@ == zstd_frame(x, level) ==> v@ == x,
        (exists|x: Seq<u8>, level: i32| src@ == zstd_frame(x, level) && zstd_regular_level(level))
            ==> r is Ok,
{
    zstd::decode_all(src)
}

/// The failure of a compression library.
#[derive(Debug)]
pub enum CompressionError {
    Lz4(std::io::Error),
    Zstd(std::io::Error),
}

/// The Zstd level that payloads are compressed at.
pub open spec fn zstd_level() -> i32 {
    1
}

/// What compressing `data` with `t` gives when it succeeds.
pub open spec fn compressed_form(data: Seq<u8>, t: CompressionType) -> Seq<u8> {
    match t {
        CompressionType::Uncompressed => data,
        CompressionType::LZ4 => lz4_block(data),
        CompressionType::Zstd => zstd_frame(data, zstd_level()),
    }
}

/// The room given to an LZ4 block of `len` bytes: four times its length, as an `i32`.
pub open spec fn lz4_capacity(len: nat) -> i32 {
    (len * 4) as i32
}

/// Compresses `data` with the algorithm `compression_type`. Uncompressed data is copied;
/// LZ4 fails exactly on inputs beyond its limit; Zstd always succeeds.
pub fn compress_data(data: &[u8], compression_type: &CompressionType) -> (r: Result<
    Vec<u8>,
    CompressionError,
>)
    ensures
        r matches Ok(v) ==> v@ == compressed_form(data@, *compression_type),
        *compression_type == CompressionType::Uncompressed ==> r is Ok,
        *compression_type == CompressionType::Zstd ==> r is Ok,
        *compression_type == CompressionType::LZ4 ==> (r is Ok <==> data@.len() <= lz4_max_input()),
        *compression_type == CompressionType::Uncompressed ==> (r matches Ok(v) && v@.len() == data@.len()),
        *compression_type == CompressionType::LZ4 ==> (r matches Ok(v) ==> v@.len() <= lz4_bound(
            data@.len(),
        )),
        r matches Err(e) ==> (e is Lz4 <==> *compression_type == CompressionType::LZ4),
{
    match compression_type {
        CompressionType::Uncompressed => Ok(slice_to_vec(data)),
        CompressionType::LZ4 => match lz4_compress(data) {
            Ok(compressed) => Ok(compressed),
            Err(e) => Err(CompressionError::Lz4(e)),
        },
        CompressionType::Zstd => match zstd_encode(data, 1) {
            Ok(compressed) => Ok(compressed),
            Err(e) => Err(CompressionError::Zstd(e)),
        },
    }
}

/// Decompresses `data` with the algorithm `compression_type`. An LZ4 block is given room
/// for four times its length. Data compressed by `compress_data` comes back as it was:
/// always when uncompressed or Zstd; for LZ4 when the uncompressed data fits in that room.
pub fn decompress_data(data: &[u8], compression_type: &CompressionType) -> (r: Result<
    Vec<u8>,
    CompressionError,
>)
    requires
        data@.len() * 4 <= usize::MAX,
    ensures
        *compression_type == CompressionType::Uncompressed ==> (r matches Ok(v) && v@ == data@),
        *compression_type == CompressionType::LZ4 ==> (r is Ok <==> lz4_unblock(
            data@,
            lz4_capacity(data@.len()),
        ) is Some),
        *compression_type == CompressionType::LZ4 ==> (r matches Ok(v) ==> lz4_unblock(
            data@,
            lz4_capacity(data@.len()),
        ) == Some(v@)),
        *compression_type == CompressionType::Zstd ==> (r matches Ok(v) ==> v@ == zstd_content(
            data@,
        )),
        forall|x: Seq<u8>|
            data@ == compressed_form(x, *compression_type) && (*compression_type
                == CompressionType::LZ4 ==> x.len() <= lz4_capacity(data@.len()) <= lz4_max_input())
                ==> (r matches Ok(v) ==> v@ == x),
        forall|x: Seq<u8>|
            data@ == compressed_form(x, *compression_type) && (*compression_type
                == CompressionType::LZ4 ==> x.len() <= lz4_capacity(data@.len()) <= lz4_max_input())
                ==> r is Ok,
        forall|x: Seq<u8>, level: i32|
            *compression_type == CompressionType::Zstd && data@ == zstd_frame(x, level)
                && zstd_regular_level(level) ==> (r matches Ok(v) && v@ == x),
        r matches Err(e) ==> (e is Lz4 <==> *compression_type == CompressionType::LZ4),
{
    match compression_type {
        CompressionType::Uncompressed => Ok(slice_to_vec(data)),
        CompressionType::LZ4 => {
            let capacity = (data.len() * 4) as i32;
            match lz4_decompress(data, capacity) {
                Ok(decompressed) => Ok(decompressed),
                Err(e) => Err(CompressionError::Lz4(e)),
            }
        },
        CompressionType::Zstd => match zstd_decode(data) {
            Ok(decompressed) => Ok(decompressed),
            Err(e) => Err(CompressionError::Zstd(e)),
        },
    }
}

} // verus!
