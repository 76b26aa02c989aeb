use fzstream_client::compression::{compress_data, decompress_data, CompressionError};
use fzstream_client::protocol::CompressionType;

#[test]
fn test_lz4_compression() {
    let data = b"Hello, World! This is a test string for compression.";

    let compressed = compress_data(data, &CompressionType::LZ4).unwrap();
    let decompressed = decompress_data(&compressed, &CompressionType::LZ4).unwrap();

    assert_eq!(data, decompressed.as_slice());
}

#[test]
fn test_zstd_compression() {
    let data = b"Hello, World! This is a test string for compression.";

    let compressed = compress_data(data, &CompressionType::Zstd).unwrap();
    let decompressed = decompress_data(&compressed, &CompressionType::Zstd).unwrap();

    assert_eq!(data, decompressed.as_slice());
}

#[test]
fn test_no_compression() {
    let data = b"Hello, World!";

    let compressed = compress_data(data, &CompressionType::Uncompressed).unwrap();
    let decompressed = decompress_data(&compressed, &CompressionType::Uncompressed).unwrap();

    assert_eq!(data, decompressed.as_slice());
    assert_eq!(data, compressed.as_slice());
}

#[test]
fn lz4_and_zstd_change_the_bytes() {
    let data = vec![7u8; 200];
    let lz4 = compress_data(&data, &CompressionType::LZ4).unwrap();
    let zstd = compress_data(&data, &CompressionType::Zstd).unwrap();
    assert_ne!(lz4, data);
    assert_ne!(zstd, data);
    assert!(lz4.len() < data.len());
    assert!(zstd.len() < data.len());
}

#[test]
fn lz4_fails_when_the_data_exceeds_four_times_the_block() {
    let data = vec![0u8; 4096];
    let compressed = compress_data(&data, &CompressionType::LZ4).unwrap();
    assert!(compressed.len() * 4 < data.len());
    match decompress_data(&compressed, &CompressionType::LZ4) {
        Err(CompressionError::Lz4(_)) => {}
        other => panic!("expected an LZ4 error, got {:?}", other),
    }
}

#[test]
fn zstd_rejects_garbage() {
    match decompress_data(b"not a zstd frame", &CompressionType::Zstd) {
        Err(CompressionError::Zstd(_)) => {}
        other => panic!("expected a Zstd error, got {:?}", other),
    }
}

#[test]
fn empty_and_large_payloads_round_trip_with_zstd() {
    for data in [Vec::new(), vec![7u8; 1 << 20]] {
        let c = compress_data(&data, &CompressionType::Zstd).unwrap();
        assert_eq!(decompress_data(&c, &CompressionType::Zstd).unwrap(), data);
    }
}

#[test]
fn lz4_blocks_stay_within_the_bound() {
    for n in [0usize, 1, 254, 255, 10_000] {
        let data: Vec<u8> = (0..n).map(|i| (i * 7919 % 251) as u8).collect();
        let c = compress_data(&data, &CompressionType::LZ4).unwrap();
        assert!(c.len() <= n + n / 255 + 16);
        assert_eq!(compress_data(&data, &CompressionType::Uncompressed).unwrap().len(), n);
    }
}
