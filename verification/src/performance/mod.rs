//! Client-side performance helpers: reconnection policy with exponential backoff,
//! batching, bounded event buffering, counters and a connection pool.
use vstd::prelude::*;

pub mod batch;
pub mod event_buffer;
pub mod monitor;
pub mod pool;
pub mod reconnection;

pub use batch::{
    batch_run, batch_step, batch_view, flush_outcome, handed, law_batch_calls_keep_every_item_in_order,
    law_push_flushes_on_size_or_interval,
    law_batches_keep_every_item_in_order, pushed_items, BatchOp, BatchProcessor, BatchState,
};
pub use event_buffer::{
    drained, law_drain_in_push_order, law_push_then_drain, pop_outcome, push_accepted,
    push_refused, queue_capacity, queue_items, EventBuffer, EventBufferState, ExArrayQueue,
};
pub use monitor::{
    counter_add, law_monitor_totals, monitor_run, monitor_step, tally, totals_fit,
    ClientPerformanceMonitor, MonitorCounters, MonitorEvent, MonitorState, MonitorTally,
};
pub use pool::{
    law_round_robin_reaches_every_connection, round_robin_slot, without_id, ConnectionPool,
    PoolState, PooledConnection,
};
pub use reconnection::{
    after_attempt, after_attempts, backoff_exponent, backoff_ms, law_backoff_doubles_until_cap,
    law_no_reconnection_after_max, law_reconnection_waits_for_backoff, pow2, ReconnectionManager,
    ReconnectionState,
};

verus! {

/// Client performance configuration.
#[derive(Debug, Clone, Copy)]
pub struct ClientPerformanceConfig {
    pub connection_timeout_ms: u64,
    pub reconnect_interval_ms: u64,
    pub max_reconnect_attempts: u32,
    pub enable_event_buffering: bool,
    pub buffer_size: usize,
    pub batch_size: usize,
    pub enable_compression: bool,
    pub heartbeat_interval_ms: u64,
}

impl Default for ClientPerformanceConfig {
    fn default() -> (c: Self)
        ensures
            c.connection_timeout_ms == 5000,
            c.reconnect_interval_ms == 1000,
            c.max_reconnect_attempts == 10,
            c.enable_event_buffering,
            c.buffer_size == 10_000,
            c.batch_size == 100,
            c.enable_compression,
            c.heartbeat_interval_ms == 30_000,
    {
        ClientPerformanceConfig {
            connection_timeout_ms: 5000,
            reconnect_interval_ms: 1000,
            max_reconnect_attempts: 10,
            enable_event_buffering: true,
            buffer_size: 10_000,
            batch_size: 100,
            enable_compression: true,
            heartbeat_interval_ms: 30_000,
        }
    }
}

} // verus!
