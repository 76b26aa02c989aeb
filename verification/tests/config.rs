use fzstream_client::config::{ClientConfig, ConfigBuilder};
use fzstream_client::protocol::{CompressionLevel, SerializationProtocol};

#[test]
fn default_config_is_balanced() {
    let c = ClientConfig::default();
    assert_eq!(c.client_id(), "default_client");
    assert_eq!(c.inner().current_profile, "balanced");
    assert_eq!(c.custom_settings().serialization_protocol, SerializationProtocol::Auto);
    assert_eq!(c.custom_settings().compression_level, CompressionLevel::LZ4Fast);
    assert_eq!(c.custom_settings().latency_target_us, Some(1000));
    assert_eq!(c.custom_settings().message_size_threshold, 256);
    assert!(c.auto_optimization().enabled);
    assert_eq!(c.auto_optimization().switch_threshold_basis_points, 1500);
    assert_eq!(c.auto_optimization().min_samples, 10);
    assert_eq!(c.auto_optimization().evaluation_window_secs, 60);
    let keys: Vec<&str> = c.inner().available_profiles.iter().map(|(k, _)| k.as_str()).collect();
    assert_eq!(keys, vec!["ultra_low_latency", "bandwidth_optimized", "balanced", "high_throughput"]);
    assert_eq!(c.inner().available_profiles[1].1.compression, CompressionLevel::ZstdHigh);
    assert_eq!(c.get_compression_algorithm(), "lz4");
    assert_eq!(c.get_compression_level(), 1);
}

#[test]
fn auto_protocol_uses_bincode_for_large_or_complex_messages() {
    let c = ClientConfig::new("c1");
    assert_eq!(c.client_id(), "c1");
    assert!(!c.should_use_bincode_for_message(256, false));
    assert!(c.should_use_bincode_for_message(257, false));
    assert!(c.should_use_bincode_for_message(1, true));
    let json = ConfigBuilder::new("c").protocol(SerializationProtocol::JSON).build();
    assert!(!json.should_use_bincode_for_message(100_000, true));
    let bin = ConfigBuilder::new("c").protocol(SerializationProtocol::Bincode).build();
    assert!(bin.should_use_bincode_for_message(0, false));
}

#[test]
fn compression_presets_name_algorithm_and_level() {
    let cases = [
        (CompressionLevel::Off, "none", 0),
        (CompressionLevel::LZ4Fast, "lz4", 1),
        (CompressionLevel::LZ4High, "lz4", 4),
        (CompressionLevel::ZstdFast, "zstd", 1),
        (CompressionLevel::ZstdMedium, "zstd", 5),
        (CompressionLevel::ZstdHigh, "zstd", 8),
        (CompressionLevel::ZstdMax, "zstd", 15),
    ];
    for (level, name, n) in cases {
        let c = ConfigBuilder::new("c").compression(level).build();
        assert_eq!(c.get_compression_algorithm(), name);
        assert_eq!(c.get_compression_level(), n);
    }
}

#[test]
fn builder_sets_each_setting() {
    let c = ConfigBuilder::new("x")
        .latency_target(5)
        .bandwidth_limit(64)
        .adaptive(false)
        .auto_optimization(false)
        .build();
    assert_eq!(c.custom_settings().latency_target_us, Some(5));
    assert_eq!(c.custom_settings().bandwidth_limit_kbps, Some(64));
    assert!(!c.custom_settings().adaptive_protocol);
    assert!(!c.auto_optimization().enabled);
    assert_eq!(c.client_id(), "x");
}

#[test]
fn larger_messages_stay_bincode() {
    let c = ClientConfig::default();
    for size in [257usize, 1_000, 65_536, usize::MAX] {
        assert!(c.should_use_bincode_for_message(size, false));
    }
    for size in [0usize, 1, 256, usize::MAX] {
        assert!(c.should_use_bincode_for_message(size, true));
    }
}
