//! Counters of a client's traffic. Each counter wraps around at `u64::MAX + 1`.
use crate::clock::instant_now;
use std::time::Instant;
use vstd::prelude::*;

verus! {

/// Adds `y` to the counter `x`, wrapping around at `u64::MAX + 1`.
pub open spec fn counter_add(x: u64, y: u64) -> u64 {
    vstd::wrapping::u64_specs::wrapping_add(x, y)
}

/// The integer readings of a performance monitor.
#[derive(Debug, Clone, Copy)]
pub struct MonitorCounters {
    pub events_received: u64,
    pub events_processed: u64,
    pub bytes_received: u64,
    pub bytes_sent: u64,
    pub connection_count: u64,
    pub reconnection_count: u64,
    /// The sum of the processing times recorded, in microseconds.
    pub total_processing_time: u64,
}

impl MonitorCounters {
    pub open spec fn is_zero(self) -> bool {
        &&& self.events_received == 0
        &&& self.events_processed == 0
        &&& self.bytes_received == 0
        &&& self.bytes_sent == 0
        &&& self.connection_count == 0
        &&& self.reconnection_count == 0
        &&& self.total_processing_time == 0
    }
}

/// What a performance monitor holds, as the contracts see it.
pub struct MonitorState {
    /// When the monitor was made.
    pub start_time: Instant,
    pub counters: MonitorCounters,
    /// Whether an event has been received since the monitor was made.
    pub has_last_event: bool,
}

/// A recorded happening: an event received with its size in bytes, an event processed
/// with its processing time in microseconds, bytes sent, a connection, or a reconnection.
pub enum MonitorEvent {
    Received(usize),
    Processed(u64),
    Sent(usize),
    Connection,
    Reconnection,
}

/// The monitor after recording `e` in state `m`.
pub open spec fn monitor_step(m: MonitorState, e: MonitorEvent) -> MonitorState {
    let c = m.counters;
    match e {
        MonitorEvent::Received(bytes) => MonitorState {
            counters: MonitorCounters {
                events_received: counter_add(c.events_received, 1),
                bytes_received: counter_add(c.bytes_received, bytes as u64),
                ..c
            },
            has_last_event: true,
            ..m
        },
        MonitorEvent::Processed(micros) => MonitorState {
            counters: MonitorCounters {
                events_processed: counter_add(c.events_processed, 1),
                total_processing_time: counter_add(c.total_processing_time, micros),
                ..c
            },
            ..m
        },
        MonitorEvent::Sent(bytes) => MonitorState {
            counters: MonitorCounters { bytes_sent: counter_add(c.bytes_sent, bytes as u64), ..c },
            ..m
        },
        MonitorEvent::Connection => MonitorState {
            counters: MonitorCounters { connection_count: counter_add(c.connection_count, 1), ..c },
            ..m
        },
        MonitorEvent::Reconnection => MonitorState {
            counters: MonitorCounters { reconnection_count: counter_add(c.reconnection_count, 1), ..c },
            ..m
        },
    }
}

/// The monitor after recording `events`, in order, in state `m`.
pub open spec fn monitor_run(m: MonitorState, events: Seq<MonitorEvent>) -> MonitorState
    decreases events.len(),
{
    if events.len() == 0 {
        m
    } else {
        monitor_step(monitor_run(m, events.drop_last()), events.last())
    }
}

/// The totals of a sequence of recorded happenings.
pub struct MonitorTally {
    pub received: nat,
    pub received_bytes: nat,
    pub processed: nat,
    pub processing_time: nat,
    pub sent_bytes: nat,
    pub connections: nat,
    pub reconnections: nat,
}

/// The totals of `events`.
pub open spec fn tally(events: Seq<MonitorEvent>) -> MonitorTally
    decreases events.len(),
{
    if events.len() == 0 {
        MonitorTally {
            received: 0,
            received_bytes: 0,
            processed: 0,
            processing_time: 0,
            sent_bytes: 0,
            connections: 0,
            reconnections: 0,
        }
    } else {
        let t = tally(events.drop_last());
        match events.last() {
            MonitorEvent::Received(bytes) => MonitorTally {
                received: t.received + 1,
                received_bytes: t.received_bytes + bytes as nat,
                ..t
            },
            MonitorEvent::Processed(micros) => MonitorTally {
                processed: t.processed + 1,
                processing_time: t.processing_time + micros as nat,
                ..t
            },
            MonitorEvent::Sent(bytes) => MonitorTally { sent_bytes: t.sent_bytes + bytes as nat, ..t },
            MonitorEvent::Connection => MonitorTally { connections: t.connections + 1, ..t },
            MonitorEvent::Reconnection => MonitorTally { reconnections: t.reconnections + 1, ..t },
        }
    }
}

/// The counters of `m` plus the totals `t` fit in a `u64` each.
pub open spec fn totals_fit(c: MonitorCounters, t: MonitorTally) -> bool {
    &&& c.events_received + t.received <= u64::MAX
    &&& c.bytes_received + t.received_bytes <= u64::MAX
    &&& c.events_processed + t.processed <= u64::MAX
    &&& c.total_processing_time + t.processing_time <= u64::MAX
    &&& c.bytes_sent + t.sent_bytes <= u64::MAX
    &&& c.connection_count + t.connections <= u64::MAX
    &&& c.reconnection_count + t.reconnections <= u64::MAX
}

/// Each counter grows by exactly the totals of what was recorded, where nothing wraps;
/// an event time is noted exactly when one was noted before or an event was received; the
/// start time stays.
pub proof fn law_monitor_totals(m: MonitorState, events: Seq<MonitorEvent>)
    requires
        totals_fit(m.counters, tally(events)),
    ensures
        monitor_run(m, events).counters.events_received == m.counters.events_received + tally(
            events,
        ).received,
        monitor_run(m, events).counters.bytes_received == m.counters.bytes_received + tally(
            events,
        ).received_bytes,
        monitor_run(m, events).counters.events_processed == m.counters.events_processed + tally(
            events,
        ).processed,
        monitor_run(m, events).counters.total_processing_time == m.counters.total_processing_time
            + tally(events).processing_time,
        monitor_run(m, events).counters.bytes_sent == m.counters.bytes_sent + tally(events).sent_bytes,
        monitor_run(m, events).counters.connection_count == m.counters.connection_count + tally(
            events,
        ).connections,
        monitor_run(m, events).counters.reconnection_count == m.counters.reconnection_count + tally(
            events,
        ).reconnections,
        monitor_run(m, events).has_last_event == (m.has_last_event || tally(events).received > 0),
        monitor_run(m, events).start_time == m.start_time,
    decreases events.len(),
{
    if events.len() > 0 {
        let rest = events.drop_last();
        assert(totals_fit(m.counters, tally(rest)));
        law_monitor_totals(m, rest);
        let mid = monitor_run(m, rest);
        match events.last() {
            MonitorEvent::Received(bytes) => {
                assert(bytes as u64 == bytes);
            },
            MonitorEvent::Sent(bytes) => {
                assert(bytes as u64 == bytes);
            },
            _ => {},
        }
    }
}

/// Client performance monitor.
pub struct ClientPerformanceMonitor {
    start_time: Instant,
    counters: MonitorCounters,
    last_event_time: Option<Instant>,
}

impl View for ClientPerformanceMonitor {
    type V = MonitorState;

    closed spec fn view(&self) -> MonitorState {
        MonitorState {
            start_time: self.start_time,
            counters: self.counters,
            has_last_event: self.last_event_time is Some,
        }
    }
}

impl ClientPerformanceMonitor {
    pub fn new() -> (m: Self)
        ensures
            m@.counters.is_zero(),
            !m@.has_last_event,
    {
        ClientPerformanceMonitor {
            start_time: instant_now(),
            counters: MonitorCounters {
                events_received: 0,
                events_processed: 0,
                bytes_received: 0,
                bytes_sent: 0,
                connection_count: 0,
                reconnection_count: 0,
                total_processing_time: 0,
            },
            last_event_time: None,
        }
    }

    /// Counts one received event of `bytes` bytes and notes the time of it.
    pub fn record_event_received(&mut self, bytes: usize)
        ensures
            final(self)@ == monitor_step(old(self)@, MonitorEvent::Received(bytes)),
            final(self)@.counters == (MonitorCounters {
                events_received: counter_add(old(self)@.counters.events_received, 1),
                bytes_received: counter_add(old(self)@.counters.bytes_received, bytes as u64),
                ..old(self)@.counters
            }),
            final(self)@.has_last_event,
            final(self)@.start_time == old(self)@.start_time,
    {
        self.counters.events_received = self.counters.events_received.wrapping_add(1);
        self.counters.bytes_received = self.counters.bytes_received.wrapping_add(bytes as u64);
        self.last_event_time = Some(instant_now());
    }

    /// Counts one processed event that took `processing_time_micros` microseconds.
    pub fn record_event_processed(&mut self, processing_time_micros: u64)
        ensures
            final(self)@ == monitor_step(old(self)@, MonitorEvent::Processed(processing_time_micros)),
            final(self)@.counters == (MonitorCounters {
                events_processed: counter_add(old(self)@.counters.events_processed, 1),
                total_processing_time: counter_add(
                    old(self)@.counters.total_processing_time,
                    processing_time_micros,
                ),
                ..old(self)@.counters
            }),
            final(self)@.has_last_event == old(self)@.has_last_event,
            final(self)@.start_time == old(self)@.start_time,
    {
        self.counters.events_processed = self.counters.events_processed.wrapping_add(1);
        self.counters.total_processing_time = self.counters.total_processing_time.wrapping_add(
            processing_time_micros,
        );
    }

    pub fn record_bytes_sent(&mut self, bytes: usize)
        ensures
            final(self)@ == monitor_step(old(self)@, MonitorEvent::Sent(bytes)),
            final(self)@.counters == (MonitorCounters {
                bytes_sent: counter_add(old(self)@.counters.bytes_sent, bytes as u64),
                ..old(self)@.counters
            }),
            final(self)@.has_last_event == old(self)@.has_last_event,
            final(self)@.start_time == old(self)@.start_time,
    {
        self.counters.bytes_sent = self.counters.bytes_sent.wrapping_add(bytes as u64);
    }

    pub fn record_connection(&mut self)
        ensures
            final(self)@ == monitor_step(old(self)@, MonitorEvent::Connection),
            final(self)@.counters == (MonitorCounters {
                connection_count: counter_add(old(self)@.counters.connection_count, 1),
                ..old(self)@.counters
            }),
            final(self)@.has_last_event == old(self)@.has_last_event,
            final(self)@.start_time == old(self)@.start_time,
    {
        self.counters.connection_count = self.counters.connection_count.wrapping_add(1);
    }

    pub fn record_reconnection(&mut self)
        ensures
            final(self)@ == monitor_step(old(self)@, MonitorEvent::Reconnection),
            final(self)@.counters == (MonitorCounters {
                reconnection_count: counter_add(old(self)@.counters.reconnection_count, 1),
                ..old(self)@.counters
            }),
            final(self)@.has_last_event == old(self)@.has_last_event,
            final(self)@.start_time == old(self)@.start_time,
    {
        self.counters.reconnection_count = self.counters.reconnection_count.wrapping_add(1);
    }

    /// The counters as they stand.
    pub fn counters(&self) -> (c: MonitorCounters)
        ensures
            c == self@.counters,
    {
        self.counters
    }

    /// When the monitor was made.
    pub fn start_time(&self) -> (r: &Instant)
        ensures
            *r == self@.start_time,
    {
        &self.start_time
    }

    /// When the last event was received, if any was.
    pub fn last_event_time(&self) -> (r: Option<&Instant>)
        ensures
            r is Some == self@.has_last_event,
    {
        match &self.last_event_time {
            Some(t) => Some(t),
            None => None,
        }
    }
}

} // verus!
