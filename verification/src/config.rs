//! Serialization and compression settings of a client, with predefined profiles.
use crate::protocol::{CompressionLevel, SerializationProtocol};
use vstd::prelude::*;
use vstd::string::StringExecFns;

verus! {

/// A named preset of serialization and compression for a kind of use.
#[derive(Debug, Clone)]
pub struct PerformanceProfile {
    pub name: String,
    pub description: String,
    pub serialization: SerializationProtocol,
    pub compression: CompressionLevel,
    pub priority: u8,
    pub use_cases: Vec<String>,
}

/// The settings in force.
#[derive(Debug, Clone)]
pub struct CustomSettings {
    pub serialization_protocol: SerializationProtocol,
    pub compression_level: CompressionLevel,
    pub enable_metrics: bool,
    pub adaptive_protocol: bool,
    pub latency_target_us: Option<u64>,
    pub bandwidth_limit_kbps: Option<u64>,
    /// Above this size in bytes, `Auto` serializes a message with Bincode.
    pub message_size_threshold: usize,
}

/// When to switch profiles on observed performance.
#[derive(Debug, Clone)]
pub struct AutoOptimizationConfig {
    pub enabled: bool,
    /// The difference in performance, in hundredths of a percent, at which to switch.
    pub switch_threshold_basis_points: u32,
    pub min_samples: u32,
    pub evaluation_window_secs: u64,
}

/// A client's configuration: its identity, its profile, its settings and the profiles
/// available, each under its key.
#[derive(Debug, Clone)]
pub struct CommonClientConfig {
    pub client_id: String,
    pub current_profile: String,
    pub custom_settings: CustomSettings,
    pub available_profiles: Vec<(String, PerformanceProfile)>,
    pub auto_optimization: AutoOptimizationConfig,
}

/// A client configuration.
#[derive(Debug, Clone)]
pub struct ClientConfig {
    inner: CommonClientConfig,
}

impl View for ClientConfig {
    type V = CommonClientConfig;

    closed spec fn view(&self) -> CommonClientConfig {
        self.inner
    }
}

/// The profile `p` has the given name, description, serialization, compression, priority
/// and use cases.
pub open spec fn profile_is(
    p: PerformanceProfile,
    name: Seq<char>,
    description: Seq<char>,
    serialization: SerializationProtocol,
    compression: CompressionLevel,
    priority: u8,
    use_cases: Seq<Seq<char>>,
) -> bool {
    &&& p.name@ == name
    &&& p.description@ == description
    &&& p.serialization == serialization
    &&& p.compression == compression
    &&& p.priority == priority
    &&& p.use_cases@.len() == use_cases.len()
    &&& forall|i: int| 0 <= i < use_cases.len() ==> #[trigger] p.use_cases@[i]@ == use_cases[i]
}

/// The settings and profiles a configuration starts with.
pub open spec fn is_default_config(c: CommonClientConfig) -> bool {
    let profiles = c.available_profiles@;
    &&& c.current_profile@ == "balanced"@
    &&& c.custom_settings.serialization_protocol == SerializationProtocol::Auto
    &&& c.custom_settings.compression_level == CompressionLevel::LZ4Fast
    &&& c.custom_settings.enable_metrics
    &&& c.custom_settings.adaptive_protocol
    &&& c.custom_settings.latency_target_us == Some(1000u64)
    &&& c.custom_settings.bandwidth_limit_kbps is None
    &&& c.custom_settings.message_size_threshold == 256
    &&& c.auto_optimization.enabled
    &&& c.auto_optimization.switch_threshold_basis_points == 1500
    &&& c.auto_optimization.min_samples == 10
    &&& c.auto_optimization.evaluation_window_secs == 60
    &&& profiles.len() == 4
    &&& profiles[0].0@ == "ultra_low_latency"@
    &&& profile_is(
        profiles[0].1,
        "Ultra Low Latency"@,
        "For latency-sensitive real-time trading scenarios, prioritize fastest serialization"@,
        SerializationProtocol::JSON,
        CompressionLevel::Off,
        0,
        seq!["Real-time trading signals"@, "High-frequency order book updates"@, "Price alerts"@],
    )
    &&& profiles[1].0@ == "bandwidth_optimized"@
    &&& profile_is(
        profiles[1].1,
        "Bandwidth Optimized"@,
        "For bandwidth-constrained environments, maximize data compression efficiency"@,
        SerializationProtocol::Bincode,
        CompressionLevel::ZstdHigh,
        1,
        seq![
            "Mobile network environments"@,
            "Large historical data transfer"@,
            "Batch event synchronization"@,
        ],
    )
    &&& profiles[2].0@ == "balanced"@
    &&& profile_is(
        profiles[2].1,
        "Balanced Mode"@,
        "Balance between latency and bandwidth"@,
        SerializationProtocol::Auto,
        CompressionLevel::LZ4Fast,
        2,
        seq![
            "General web applications"@,
            "Medium frequency data updates"@,
            "Development and testing environments"@,
        ],
    )
    &&& profiles[3].0@ == "high_throughput"@
    &&& profile_is(
        profiles[3].1,
        "High Throughput"@,
        "For large data transfer scenarios, optimize overall throughput"@,
        SerializationProtocol::Bincode,
        CompressionLevel::LZ4Fast,
        3,
        seq![
            "Large batch event processing"@,
            "Data backup and synchronization"@,
            "Log aggregation"@,
        ],
    )
}

fn text(s: &str) -> (r: String)
    ensures
        r@ == s@,
{
    String::from_str(s)
}

fn three(a: &str, b: &str, c: &str) -> (r: Vec<String>)
    ensures
        r@.len() == 3,
        r@[0]@ == a@,
        r@[1]@ == b@,
        r@[2]@ == c@,
{
    let mut v = Vec::new();
    v.push(text(a));
    v.push(text(b));
    v.push(text(c));
    v
}

impl Default for ClientConfig {
    fn default() -> (c: Self)
        ensures
            c@.client_id@ == "default_client"@,
            is_default_config(c@),
    {
        let mut available_profiles: Vec<(String, PerformanceProfile)> = Vec::new();
        available_profiles.push((text("ultra_low_latency"), PerformanceProfile {
            name: text("Ultra Low Latency"),
            description: text("For latency-sensitive real-time trading scenarios, prioritize fastest serialization"),
            serialization: SerializationProtocol::JSON,
            compression: CompressionLevel::Off,
            priority: 0,
            use_cases: three("Real-time trading signals", "High-frequency order book updates", "Price alerts"),
        }));
        available_profiles.push((text("bandwidth_optimized"), PerformanceProfile {
            name: text("Bandwidth Optimized"),
            description: text("For bandwidth-constrained environments, maximize data compression efficiency"),
            serialization: SerializationProtocol::Bincode,
            compression: CompressionLevel::ZstdHigh,
            priority: 1,
            use_cases: three("Mobile network environments", "Large historical data transfer", "Batch event synchronization"),
        }));
        available_profiles.push((text("balanced"), PerformanceProfile {
            name: text("Balanced Mode"),
            description: text("Balance between latency and bandwidth"),
            serialization: SerializationProtocol::Auto,
            compression: CompressionLevel::LZ4Fast,
            priority: 2,
            use_cases: three("General web applications", "Medium frequency data updates", "Development and testing environments"),
        }));
        available_profiles.push((text("high_throughput"), PerformanceProfile {
            name: text("High Throughput"),
            description: text("For large data transfer scenarios, optimize overall throughput"),
            serialization: SerializationProtocol::Bincode,
            compression: CompressionLevel::LZ4Fast,
            priority: 3,
            use_cases: three("Large batch event processing", "Data backup and synchronization", "Log aggregation"),
        }));
        ClientConfig {
            inner: CommonClientConfig {
                client_id: text("default_client"),
                current_profile: text("balanced"),
                custom_settings: CustomSettings {
                    serialization_protocol: SerializationProtocol::Auto,
                    compression_level: CompressionLevel::LZ4Fast,
                    enable_metrics: true,
                    adaptive_protocol: true,
                    latency_target_us: Some(1000),
                    bandwidth_limit_kbps: None,
                    message_size_threshold: 256,
                },
                available_profiles,
                auto_optimization: AutoOptimizationConfig {
                    enabled: true,
                    switch_threshold_basis_points: 1500,
                    min_samples: 10,
                    evaluation_window_secs: 60,
                },
            },
        }
    }
}

/// Whether a message of `message_size` bytes, complex or not, goes out as Bincode under
/// `settings`: never for JSON, always for Bincode, and for `Auto` when it is complex or
/// larger than the threshold.
pub open spec fn uses_bincode(settings: CustomSettings, message_size: usize, is_complex: bool) -> bool {
    match settings.serialization_protocol {
        SerializationProtocol::JSON => false,
        SerializationProtocol::Bincode => true,
        SerializationProtocol::Auto => is_complex || message_size > settings.message_size_threshold,
    }
}

/// Under any settings, a message that goes out as Bincode still does when it is larger:
/// growing a message never switches it back to JSON.
pub proof fn law_larger_messages_stay_bincode(
    settings: CustomSettings,
    size: usize,
    larger: usize,
    is_complex: bool,
)
    requires
        size <= larger,
        uses_bincode(settings, size, is_complex),
    ensures
        uses_bincode(settings, larger, is_complex),
{
}

/// Under any settings but JSON, a complex message goes out as Bincode whatever its size.
pub proof fn law_complex_messages_use_bincode(settings: CustomSettings, size: usize)
    requires
        settings.serialization_protocol != SerializationProtocol::JSON,
    ensures
        uses_bincode(settings, size, true),
{
}

/// The name of the algorithm of a compression preset.
pub open spec fn algorithm_name(level: CompressionLevel) -> Seq<char> {
    match level {
        CompressionLevel::Off => "none"@,
        CompressionLevel::LZ4Fast | CompressionLevel::LZ4High => "lz4"@,
        _ => "zstd"@,
    }
}

/// The numeric level of a compression preset.
pub open spec fn numeric_level(level: CompressionLevel) -> i32 {
    match level {
        CompressionLevel::Off => 0,
        CompressionLevel::LZ4Fast => 1,
        CompressionLevel::LZ4High => 4,
        CompressionLevel::ZstdFast => 1,
        CompressionLevel::ZstdMedium => 5,
        CompressionLevel::ZstdHigh => 8,
        CompressionLevel::ZstdMax => 15,
    }
}

impl ClientConfig {
    /// The default configuration for the client `client_id`.
    pub fn new(client_id: &str) -> (c: Self)
        ensures
            c@.client_id@ == client_id@,
            is_default_config(c@),
    {
        let mut config = Self::default();
        config.inner.client_id = text(client_id);
        config
    }

    pub fn should_use_bincode_for_message(&self, message_size: usize, is_complex: bool) -> (r: bool)
        ensures
            r == uses_bincode(self@.custom_settings, message_size, is_complex),
    {
        match self.inner.custom_settings.serialization_protocol {
            SerializationProtocol::JSON => false,
            SerializationProtocol::Bincode => true,
            SerializationProtocol::Auto => {
                if is_complex || message_size > self.inner.custom_settings.message_size_threshold {
                    true
                } else {
                    false
                }
            },
        }
    }

    pub fn get_compression_algorithm(&self) -> (r: &'static str)
        ensures
            r@ == algorithm_name(self@.custom_settings.compression_level),
    {
        match self.inner.custom_settings.compression_level {
            CompressionLevel::Off => "none",
            CompressionLevel::LZ4Fast | CompressionLevel::LZ4High => "lz4",
            CompressionLevel::ZstdFast | CompressionLevel::ZstdMedium | CompressionLevel::ZstdHigh
            | CompressionLevel::ZstdMax => "zstd",
        }
    }

    pub fn get_compression_level(&self) -> (r: i32)
        ensures
            r == numeric_level(self@.custom_settings.compression_level),
    {
        match self.inner.custom_settings.compression_level {
            CompressionLevel::Off => 0,
            CompressionLevel::LZ4Fast => 1,
            CompressionLevel::LZ4High => 4,
            CompressionLevel::ZstdFast => 1,
            CompressionLevel::ZstdMedium => 5,
            CompressionLevel::ZstdHigh => 8,
            CompressionLevel::ZstdMax => 15,
        }
    }

    pub fn client_id(&self) -> (r: &String)
        ensures
            *r == self@.client_id,
    {
        &self.inner.client_id
    }

    pub fn custom_settings(&self) -> (r: &CustomSettings)
        ensures
            *r == self@.custom_settings,
    {
        &self.inner.custom_settings
    }

    pub fn auto_optimization(&self) -> (r: &AutoOptimizationConfig)
        ensures
            *r == self@.auto_optimization,
    {
        &self.inner.auto_optimization
    }

    pub fn inner(&self) -> (r: &CommonClientConfig)
        ensures
            *r == self@,
    {
        &self.inner
    }
}

/// Builds a configuration from the default one for a client.
pub struct ConfigBuilder {
    config: ClientConfig,
}

impl View for ConfigBuilder {
    type V = CommonClientConfig;

    closed spec fn view(&self) -> CommonClientConfig {
        self.config@
    }
}

impl ConfigBuilder {
    pub fn new(client_id: &str) -> (b: Self)
        ensures
            b@.client_id@ == client_id@,
            is_default_config(b@),
    {
        ConfigBuilder { config: ClientConfig::new(client_id) }
    }

    pub fn protocol(self, protocol: SerializationProtocol) -> (b: Self)
        ensures
            b@ == (CommonClientConfig {
                custom_settings: CustomSettings { serialization_protocol: protocol, ..self@.custom_settings },
                ..self@
            }),
    {
        let mut b = self;
        b.config.inner.custom_settings.serialization_protocol = protocol;
        b
    }

    pub fn compression(self, compression: CompressionLevel) -> (b: Self)
        ensures
            b@ == (CommonClientConfig {
                custom_settings: CustomSettings { compression_level: compression, ..self@.custom_settings },
                ..self@
            }),
    {
        let mut b = self;
        b.config.inner.custom_settings.compression_level = compression;
        b
    }

    pub fn latency_target(self, target_us: u64) -> (b: Self)
        ensures
            b@ == (CommonClientConfig {
                custom_settings: CustomSettings { latency_target_us: Some(target_us), ..self@.custom_settings },
                ..self@
            }),
    {
        let mut b = self;
        b.config.inner.custom_settings.latency_target_us = Some(target_us);
        b
    }

    pub fn bandwidth_limit(self, limit_kbps: u64) -> (b: Self)
        ensures
            b@ == (CommonClientConfig {
                custom_settings: CustomSettings { bandwidth_limit_kbps: Some(limit_kbps), ..self@.custom_settings },
                ..self@
            }),
    {
        let mut b = self;
        b.config.inner.custom_settings.bandwidth_limit_kbps = Some(limit_kbps);
        b
    }

    pub fn adaptive(self, enabled: bool) -> (b: Self)
        ensures
            b@ == (CommonClientConfig {
                custom_settings: CustomSettings { adaptive_protocol: enabled, ..self@.custom_settings },
                ..self@
            }),
    {
        let mut b = self;
        b.config.inner.custom_settings.adaptive_protocol = enabled;
        b
    }

    pub fn auto_optimization(self, enabled: bool) -> (b: Self)
        ensures
            b@ == (CommonClientConfig {
                auto_optimization: AutoOptimizationConfig { enabled, ..self@.auto_optimization },
                ..self@
            }),
    {
        let mut b = self;
        b.config.inner.auto_optimization.enabled = enabled;
        b
    }

    pub fn build(self) -> (c: ClientConfig)
        ensures
            c@ == self@,
    {
        self.config
    }
}

} // verus!
