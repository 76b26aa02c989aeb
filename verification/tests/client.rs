use fzstream_client::client::{
    endpoint_from_url, host_of, parse_endpoint_address, server_name_from_address,
    ConnectionStatus, EndpointError, UrlAuthority,
};
use fzstream_client::message::{payload_decoding, PayloadDecoding};
use fzstream_client::protocol::{CompressionType, EventMessage, SerializationProtocol};
use fzstream_client::session::{ClientSession, HealthAction, LoopStep, ReconnectLoop, ReconnectStep};

#[test]
fn plain_addresses_are_kept() {
    assert_eq!(parse_endpoint_address("127.0.0.1:2222").unwrap(), "127.0.0.1:2222");
    assert_eq!(parse_endpoint_address("example.com:9").unwrap(), "example.com:9");
}

#[test]
fn urls_become_host_and_port() {
    assert_eq!(parse_endpoint_address("http://example.com").unwrap(), "example.com:80");
    assert_eq!(parse_endpoint_address("https://example.com/path").unwrap(), "example.com:443");
    assert_eq!(parse_endpoint_address("https://10.0.0.1:8443").unwrap(), "10.0.0.1:8443");
    match parse_endpoint_address("http://") {
        Err(e @ EndpointError::InvalidUrl(_)) => assert!(e.message().starts_with("Invalid URL format: ")),
        other => panic!("unexpected {:?}", other),
    }
}

#[test]
fn endpoint_errors_name_what_is_missing() {
    let no_host = endpoint_from_url(Ok(UrlAuthority { host: None, port: Some(1) }));
    assert_eq!(no_host.unwrap_err().message(), "URL missing host");
    let no_port = endpoint_from_url(Ok(UrlAuthority { host: Some("h".into()), port: None }));
    assert_eq!(no_port.unwrap_err().message(), "URL missing port and no default available");
    let ok = endpoint_from_url(Ok(UrlAuthority { host: Some("h".into()), port: Some(65535) }));
    assert_eq!(ok.unwrap(), "h:65535");
    let bad = endpoint_from_url(Err("boom".into()));
    assert_eq!(bad.unwrap_err().message(), "Invalid URL format: boom");
}

#[test]
fn server_name_comes_from_the_host_part() {
    assert_eq!(host_of("example.com:80"), "example.com");
    assert_eq!(host_of("example.com"), "example.com");
    assert_eq!(host_of(":1"), "");
    assert_eq!(server_name_from_address("stream.example:2222", "localhost".into()), "stream.example");
    assert_eq!(server_name_from_address("127.0.0.1:2222", "keep".into()), "keep");
    assert_eq!(server_name_from_address("localhost:2222", "keep".into()), "keep");
}

#[test]
fn statuses_compare_by_content() {
    assert!(ConnectionStatus::Error("a".into()).same_as(&ConnectionStatus::Error("a".into())));
    assert!(!ConnectionStatus::Error("a".into()).same_as(&ConnectionStatus::Error("b".into())));
    assert!(!ConnectionStatus::Connected.same_as(&ConnectionStatus::Connecting));
    assert_eq!(ConnectionStatus::Streaming.duplicate(), ConnectionStatus::Streaming);
}

#[test]
fn reconnection_attempts_are_counted_until_the_maximum() {
    let mut s = ClientSession::new();
    match s.begin_reconnect_attempt(2) {
        ReconnectStep::Proceed(1) => {}
        other => panic!("{:?}", other),
    }
    assert_eq!(s.status(), ConnectionStatus::Reconnecting);
    s.reconnect_failed();
    assert!(matches!(s.begin_reconnect_attempt(2), ReconnectStep::Proceed(2)));
    match s.begin_reconnect_attempt(2) {
        ReconnectStep::GiveUp(m) => assert_eq!(m, "Max reconnection attempts (2) exceeded"),
        other => panic!("{:?}", other),
    }
    assert_eq!(s.status(), ConnectionStatus::Error("Max reconnection attempts (2) exceeded".into()));
    assert_eq!(s.reconnect_attempts(), 3);
    assert_eq!(s.stats().failed_reconnections, 1);
    s.connected();
    s.reconnect_succeeded();
    assert_eq!(s.reconnect_attempts(), 0);
    assert_eq!(s.stats().connection_attempts, 1);
    assert_eq!(s.stats().successful_connections, 1);
    assert_eq!(s.stats().reconnection_count, 1);
    assert!(s.stats().last_connection_time.is_some());
}

#[test]
fn health_checks_follow_the_status() {
    let mut s = ClientSession::new();
    assert_eq!(s.health_action(true, false, false), HealthAction::Report(false));
    s.start_streaming();
    assert_eq!(s.health_action(true, true, false), HealthAction::Report(true));
    assert_eq!(s.health_action(false, true, true), HealthAction::Reopen { reconnect: false });
    assert_eq!(s.health_action(true, false, false), HealthAction::Report(false));
    s.set_status(ConnectionStatus::Disconnected);
    assert_eq!(s.health_action(true, false, false), HealthAction::Reconnect);
    assert_eq!(s.health_action(false, false, false), HealthAction::Report(false));
    s.set_status(ConnectionStatus::Reconnecting);
    assert_eq!(s.health_action(true, true, true), HealthAction::Report(false));
}

#[test]
fn background_reconnection_only_for_lost_streaming_sessions() {
    let mut s = ClientSession::new();
    assert!(!s.auto_reconnect_due());
    s.start_streaming();
    assert!(!s.auto_reconnect_due());
    s.set_status(ConnectionStatus::Disconnected);
    assert!(s.auto_reconnect_due());
    s.set_status(ConnectionStatus::Error(String::new()));
    assert!(s.auto_reconnect_due());
    s.set_status(ConnectionStatus::Error("boom".into()));
    assert!(!s.auto_reconnect_due());
    s.shutdown();
    assert!(!s.is_streaming());
    assert_eq!(s.status(), ConnectionStatus::Disconnected);
    assert!(!s.auto_reconnect_due());
}

#[test]
fn authentication_failure_message() {
    let mut s = ClientSession::new();
    let m = s.authentication_failed("bad token", 401);
    assert_eq!(m, "Authentication failed: bad token (code: 401)");
    assert_eq!(s.status(), ConnectionStatus::Error(m));
}

#[test]
fn events_are_counted_with_their_bytes() {
    let mut s = ClientSession::new();
    s.event_received(10);
    s.event_received(5);
    assert_eq!(s.stats().events_received, 2);
    assert_eq!(s.stats().bytes_received, 15);
    assert!(s.stats().last_event_time.is_some());
    s.reset_reconnect_attempts();
    assert_eq!(s.reconnect_attempts(), 0);
}

#[test]
fn payload_decoding_follows_the_format() {
    assert_eq!(payload_decoding(SerializationProtocol::JSON), PayloadDecoding::Json);
    assert_eq!(payload_decoding(SerializationProtocol::Bincode), PayloadDecoding::ChainEvent);
    assert_eq!(payload_decoding(SerializationProtocol::Auto), PayloadDecoding::ChainEventThenJson);
}

#[test]
fn message_payload_is_decompressed_when_marked() {
    let raw = b"{\"slot\":1}".to_vec();
    let packed = fzstream_client::compression::compress_data(&raw, &CompressionType::Zstd).unwrap();
    let m = EventMessage {
        event_id: "e".into(),
        data: packed.clone(),
        serialization_format: SerializationProtocol::JSON,
        compression_format: CompressionType::Zstd,
        is_compressed: true,
    };
    assert_eq!(m.get_decompressed_data().unwrap(), raw);
    let unmarked = EventMessage { is_compressed: false, ..m };
    assert_eq!(unmarked.get_decompressed_data().unwrap(), packed);
}

#[test]
fn reconnection_loop_gives_up_after_the_maximum() {
    let mut l = ReconnectLoop::new();
    assert_eq!(l.tick(true, 2), LoopStep::Retry(1));
    assert_eq!(l.tick(true, 2), LoopStep::Retry(2));
    assert_eq!(l.tick(true, 2), LoopStep::GiveUp);
    assert_eq!(l.attempts(), 3);
    assert_eq!(l.tick(false, 2), LoopStep::Idle);
    assert_eq!(l.attempts(), 0);
    assert_eq!(l.tick(true, 0), LoopStep::GiveUp);
}

#[test]
fn new_sessions_start_with_default_statistics() {
    let s = ClientSession::new();
    let stats = s.stats();
    let d = fzstream_client::ClientStats::default();
    assert_eq!(stats.connection_uptime, std::time::Duration::ZERO);
    assert_eq!(stats.total_uptime, std::time::Duration::ZERO);
    assert_eq!(d.connection_uptime, std::time::Duration::ZERO);
    assert_eq!(stats.events_received, d.events_received);
    assert_eq!(stats.connection_attempts, d.connection_attempts);
    assert!(stats.last_event_time.is_none() && stats.last_connection_time.is_none());
    assert_eq!(s.reconnect_attempts(), 0);
}
