use fzstream_client::performance::{
    BatchProcessor, ClientPerformanceConfig, ClientPerformanceMonitor, ConnectionPool,
    EventBuffer, ReconnectionManager,
};
use std::time::Duration;

#[test]
fn test_event_buffer() {
    let mut buffer = EventBuffer::new(5);

    assert_eq!(buffer.push(1), Ok(()));
    assert_eq!(buffer.push(2), Ok(()));
    assert_eq!(buffer.len(), 2);

    assert_eq!(buffer.pop(), Some(1));
    assert_eq!(buffer.pop(), Some(2));
    assert_eq!(buffer.pop(), None);
}

#[test]
fn test_batch_processor() {
    let mut processor = BatchProcessor::new(3, Duration::from_millis(100));

    assert!(processor.push(1).is_none());
    assert!(processor.push(2).is_none());

    let batch = processor.push(3);
    assert!(batch.is_some());
    assert_eq!(batch.unwrap(), vec![1, 2, 3]);
}

#[test]
fn test_reconnection_manager() {
    let config = ClientPerformanceConfig::default();
    let mut manager = ReconnectionManager::new(config);

    assert!(manager.should_reconnect());

    manager.record_attempt();
    assert_eq!(manager.attempts(), 1);

    manager.reset();
    assert_eq!(manager.attempts(), 0);
}

#[test]
fn test_performance_monitor() {
    let mut monitor = ClientPerformanceMonitor::new();

    monitor.record_event_received(100);
    monitor.record_event_processed(50);

    let stats = monitor.counters();
    assert_eq!(stats.events_received, 1);
    assert_eq!(stats.events_processed, 1);
    assert_eq!(stats.bytes_received, 100);
}

#[test]
fn event_buffer_hands_back_items_when_full() {
    let mut buffer = EventBuffer::new(2);
    assert_eq!(buffer.push(7), Ok(()));
    assert!(!buffer.is_full());
    assert_eq!(buffer.push(8), Ok(()));
    assert!(buffer.is_full());
    assert_eq!(buffer.push(9), Err(9));
    assert_eq!(buffer.capacity(), 2);
    assert_eq!(buffer.pop(), Some(7));
    assert_eq!(buffer.push(9), Ok(()));
    assert_eq!(buffer.pop(), Some(8));
    assert_eq!(buffer.pop(), Some(9));
    assert_eq!(buffer.len(), 0);
}

#[test]
fn batch_flush_hands_out_partial_batch_once() {
    let mut processor = BatchProcessor::new(10, Duration::from_secs(3600));
    assert!(processor.push("a").is_none());
    assert!(processor.push("b").is_none());
    assert_eq!(processor.len(), 2);
    assert_eq!(processor.flush(), Some(vec!["a", "b"]));
    assert_eq!(processor.len(), 0);
    assert_eq!(processor.flush(), None);
}

#[test]
fn batch_push_after_interval_flushes_early() {
    let mut processor = BatchProcessor::new(10, Duration::from_millis(5));
    assert!(processor.push_at(1, 4_999_999).is_none());
    assert_eq!(processor.push_at(2, 5_000_000), Some(vec![1, 2]));
    assert_eq!(processor.len(), 0);
    assert!(processor.flush().is_none());
}

#[test]
fn batches_hand_out_every_item_in_order() {
    let mut processor = BatchProcessor::new(3, Duration::from_secs(3600));
    let mut out: Vec<u32> = Vec::new();
    for i in 0..10u32 {
        if let Some(b) = processor.push_at(i, 0) {
            out.extend(b);
        }
        if i == 4 {
            out.extend(processor.flush().unwrap());
        }
    }
    assert_eq!(processor.len(), 2);
    out.extend(processor.flush().unwrap());
    assert_eq!(out, (0..10).collect::<Vec<u32>>());
}

#[test]
fn backoff_doubles_and_caps_at_two_to_the_tenth() {
    let config = ClientPerformanceConfig::default();
    let mut manager = ReconnectionManager::new(config);
    assert_eq!(manager.calculate_backoff(), 1000);
    manager.record_attempt();
    assert_eq!(manager.calculate_backoff(), 2000);
    manager.record_attempt();
    assert_eq!(manager.calculate_backoff(), 4000);
    let mut wide = ReconnectionManager::new(ClientPerformanceConfig {
        max_reconnect_attempts: 100,
        ..ClientPerformanceConfig::default()
    });
    for _ in 0..12 {
        wide.record_attempt();
    }
    assert_eq!(wide.calculate_backoff(), 1000 * 1024);
}

#[test]
fn reconnection_waits_for_backoff_and_stops_at_maximum() {
    let config = ClientPerformanceConfig { max_reconnect_attempts: 2, ..ClientPerformanceConfig::default() };
    let mut manager = ReconnectionManager::new(config);
    manager.record_attempt();
    assert!(!manager.should_reconnect_after(1999));
    assert!(manager.should_reconnect_after(2000));
    manager.record_attempt();
    assert!(!manager.should_reconnect_after(1_000_000));
    assert!(!manager.should_reconnect());
}

#[test]
fn default_performance_config_values() {
    let c = ClientPerformanceConfig::default();
    assert_eq!(c.connection_timeout_ms, 5000);
    assert_eq!(c.reconnect_interval_ms, 1000);
    assert_eq!(c.max_reconnect_attempts, 10);
    assert!(c.enable_event_buffering);
    assert_eq!(c.buffer_size, 10_000);
    assert_eq!(c.batch_size, 100);
    assert!(c.enable_compression);
    assert_eq!(c.heartbeat_interval_ms, 30_000);
}

#[test]
fn monitor_counters_wrap_and_accumulate() {
    let mut monitor = ClientPerformanceMonitor::new();
    assert!(monitor.last_event_time().is_none());
    monitor.record_bytes_sent(10);
    monitor.record_bytes_sent(5);
    monitor.record_connection();
    monitor.record_reconnection();
    monitor.record_event_processed(u64::MAX);
    monitor.record_event_processed(2);
    monitor.record_event_received(3);
    let c = monitor.counters();
    assert_eq!(c.bytes_sent, 15);
    assert_eq!(c.connection_count, 1);
    assert_eq!(c.reconnection_count, 1);
    assert_eq!(c.total_processing_time, 1);
    assert_eq!(c.events_processed, 2);
    assert!(monitor.last_event_time().is_some());
}

#[test]
fn connection_pool_round_robin_and_removal() {
    let mut pool = ConnectionPool::new(2);
    assert!(pool.is_empty());
    assert!(pool.get_connection().is_none());
    assert!(pool.add_connection("a", 10));
    assert!(pool.add_connection("b", 20));
    assert!(!pool.add_connection("c", 30));
    assert_eq!(pool.len(), 2);
    assert_eq!(pool.get_connection(), Some(&"a"));
    assert_eq!(pool.get_connection(), Some(&"b"));
    assert_eq!(pool.get_connection(), Some(&"a"));
    assert!(pool.remove_connection(10));
    assert!(!pool.remove_connection(10));
    assert_eq!(pool.len(), 1);
    assert_eq!(pool.get_connection(), Some(&"b"));
}

#[test]
fn round_robin_reaches_every_connection() {
    let mut pool = ConnectionPool::new(5);
    for (i, name) in ["a", "b", "c", "d", "e"].into_iter().enumerate() {
        assert!(pool.add_connection(name, i));
    }
    assert!(!pool.add_connection("f", 9));
    // Move the counter off zero first.
    let _ = pool.get_connection();
    let _ = pool.get_connection();
    let mut seen: Vec<&str> = (0..5).map(|_| *pool.get_connection().unwrap()).collect();
    assert_eq!(seen, vec!["c", "d", "e", "a", "b"]);
    seen.sort();
    assert_eq!(seen, vec!["a", "b", "c", "d", "e"]);
}

#[test]
fn no_reconnection_after_the_maximum_until_reset() {
    let config = ClientPerformanceConfig { max_reconnect_attempts: 3, ..ClientPerformanceConfig::default() };
    let mut manager = ReconnectionManager::new(config);
    for _ in 0..3 {
        manager.record_attempt();
    }
    for elapsed in [0u128, 8_000, u128::MAX] {
        assert!(!manager.should_reconnect_after(elapsed));
    }
    assert!(!manager.should_reconnect());
    manager.reset();
    assert!(manager.should_reconnect());
}

#[test]
fn monitor_totals_are_the_sums_of_what_was_recorded() {
    let mut monitor = ClientPerformanceMonitor::new();
    let received = [100usize, 20, 3];
    let processed = [50u64, 7];
    for b in received {
        monitor.record_event_received(b);
    }
    for t in processed {
        monitor.record_event_processed(t);
    }
    monitor.record_bytes_sent(9);
    monitor.record_connection();
    monitor.record_connection();
    let c = monitor.counters();
    assert_eq!(c.events_received, 3);
    assert_eq!(c.bytes_received, 123);
    assert_eq!(c.events_processed, 2);
    assert_eq!(c.total_processing_time, 57);
    assert_eq!(c.bytes_sent, 9);
    assert_eq!(c.connection_count, 2);
    assert_eq!(c.reconnection_count, 0);
    assert!(monitor.last_event_time().is_some());
}
