//! The state of a stream client's session and the decisions taken on it: status
//! changes, statistics, when a reconnection is attempted and what a health check does.
use crate::client::{ConnectionStatus, StatusKind};
use crate::clock::{duration_nanos, instant_now};
use crate::text::{decimal, push_decimal};
use std::time::{Duration, Instant};
use vstd::prelude::*;
use vstd::string::{StrSliceExecFns, StringExecFns};

verus! {

/// Calls `Duration::ZERO`, the duration of zero time: zero nanoseconds.
#[verifier::external_body]
fn zero_duration() -> (r: Duration)
    ensures
        duration_nanos(r) == 0,
{
    Duration::ZERO
}

/// Client statistics.
#[derive(Debug, Clone, Copy)]
pub struct ClientStats {
    pub events_received: u64,
    pub bytes_received: u64,
    pub connection_attempts: u32,
    pub successful_connections: u32,
    pub reconnection_count: u32,
    pub failed_reconnections: u32,
    pub last_event_time: Option<Instant>,
    pub average_latency_us: Option<u64>,
    pub connection_uptime: Duration,
    pub last_connection_time: Option<Instant>,
    pub total_uptime: Duration,
}

impl Default for ClientStats {
    fn default() -> (s: Self)
        ensures
            s.events_received == 0,
            s.bytes_received == 0,
            s.connection_attempts == 0,
            s.successful_connections == 0,
            s.reconnection_count == 0,
            s.failed_reconnections == 0,
            s.last_event_time is None,
            s.average_latency_us is None,
            s.last_connection_time is None,
            duration_nanos(s.connection_uptime) == 0,
            duration_nanos(s.total_uptime) == 0,
    {
        ClientStats {
            events_received: 0,
            bytes_received: 0,
            connection_attempts: 0,
            successful_connections: 0,
            reconnection_count: 0,
            failed_reconnections: 0,
            last_event_time: None,
            average_latency_us: None,
            connection_uptime: zero_duration(),
            last_connection_time: None,
            total_uptime: zero_duration(),
        }
    }
}

/// Adds one to a `u32` counter, wrapping around at `u32::MAX + 1`.
pub open spec fn bump32(x: u32) -> u32 {
    vstd::wrapping::u32_specs::wrapping_add(x, 1)
}

/// Adds `y` to a `u64` counter, wrapping around at `u64::MAX + 1`.
pub open spec fn add64(x: u64, y: u64) -> u64 {
    vstd::wrapping::u64_specs::wrapping_add(x, y)
}

/// What a session holds, as the contracts see it.
pub struct SessionView {
    pub status: StatusKind,
    pub stats: ClientStats,
    pub reconnect_attempts: u32,
    pub is_streaming: bool,
}

/// The state of a client's session.
pub struct ClientSession {
    status: ConnectionStatus,
    stats: ClientStats,
    reconnect_attempts: u32,
    is_streaming: bool,
}

impl View for ClientSession {
    type V = SessionView;

    closed spec fn view(&self) -> SessionView {
        SessionView {
            status: self.status@,
            stats: self.stats,
            reconnect_attempts: self.reconnect_attempts,
            is_streaming: self.is_streaming,
        }
    }
}

/// What an attempt to reconnect does next.
#[derive(Debug)]
pub enum ReconnectStep {
    /// The attempts are used up; the message says so.
    GiveUp(String),
    /// Try to connect; this is attempt number `attempt`.
    Proceed(u32),
}

/// What a health check does.
#[derive(Debug, Clone, Copy, PartialEq, Eq, Structural)]
pub enum HealthAction {
    /// Report the given health, doing nothing else.
    Report(bool),
    /// Attempt a reconnection; report whether it succeeded.
    Reconnect,
    /// The server closed the connection: disconnect, reconnect when `reconnect` (a failure
    /// is an error of the check), and report health.
    Reopen { reconnect: bool },
}

/// The message of a session that ran out of reconnection attempts.
pub open spec fn give_up_message(max: u32) -> Seq<char> {
    "Max reconnection attempts ("@ + decimal(max as nat) + ") exceeded"@
}

/// The message of a failed authentication.
pub open spec fn auth_failure_message(error: Seq<char>, code: u32) -> Seq<char> {
    "Authentication failed: "@ + error + " (code: "@ + decimal(code as nat) + ")"@
}

/// What a health check does, by status: a lost connection is reconnected when streaming
/// with automatic reconnection on; an established one is checked for a close by the server.
pub open spec fn health_action_for(
    status: StatusKind,
    is_streaming: bool,
    auto_reconnect: bool,
    has_connection: bool,
    closed_by_server: bool,
) -> HealthAction {
    match status {
        StatusKind::Disconnected | StatusKind::Error(_) => if is_streaming && auto_reconnect {
            HealthAction::Reconnect
        } else {
            HealthAction::Report(false)
        },
        StatusKind::Connected | StatusKind::Authenticated | StatusKind::Streaming => if has_connection {
            if closed_by_server {
                HealthAction::Reopen { reconnect: auto_reconnect }
            } else {
                HealthAction::Report(true)
            }
        } else {
            HealthAction::Report(false)
        },
        _ => HealthAction::Report(false),
    }
}

/// Whether `status` is an established connection: connected, authenticated or streaming.
pub open spec fn is_established(status: StatusKind) -> bool {
    status is Connected || status is Authenticated || status is Streaming
}

/// What a health check does, case by case:
/// - when the server has closed an established connection, the check disconnects and
///   reconnects exactly when automatic reconnection is on;
/// - an established connection that is still open is healthy, and one that is gone is not;
/// - a lost connection (disconnected or in error) is reconnected exactly when the session is
///   streaming and automatic reconnection is on, and is unhealthy otherwise;
/// - in any other status (connecting, reconnecting) the check reports unhealthy.
pub proof fn law_health_check(
    status: StatusKind,
    is_streaming: bool,
    auto_reconnect: bool,
    has_connection: bool,
    closed_by_server: bool,
)
    ensures
        is_established(status) && has_connection && closed_by_server ==> health_action_for(
            status,
            is_streaming,
            auto_reconnect,
            has_connection,
            closed_by_server,
        ) == (HealthAction::Reopen { reconnect: auto_reconnect }),
        is_established(status) && has_connection && !closed_by_server ==> health_action_for(
            status,
            is_streaming,
            auto_reconnect,
            has_connection,
            closed_by_server,
        ) == HealthAction::Report(true),
        is_established(status) && !has_connection ==> health_action_for(
            status,
            is_streaming,
            auto_reconnect,
            has_connection,
            closed_by_server,
        ) == HealthAction::Report(false),
        (status is Disconnected || status is Error) ==> health_action_for(
            status,
            is_streaming,
            auto_reconnect,
            has_connection,
            closed_by_server,
        ) == (if is_streaming && auto_reconnect {
            HealthAction::Reconnect
        } else {
            HealthAction::Report(false)
        }),
        (status is Connecting || status is Reconnecting) ==> health_action_for(
            status,
            is_streaming,
            auto_reconnect,
            has_connection,
            closed_by_server,
        ) == HealthAction::Report(false),
{
}

impl ClientSession {
    pub fn new() -> (s: Self)
        ensures
            s@.status == StatusKind::Disconnected,
            s@.reconnect_attempts == 0,
            !s@.is_streaming,
            s@.stats.events_received == 0,
            s@.stats.bytes_received == 0,
            s@.stats.connection_attempts == 0,
            s@.stats.successful_connections == 0,
            s@.stats.reconnection_count == 0,
            s@.stats.failed_reconnections == 0,
            s@.stats.last_event_time is None,
            s@.stats.average_latency_us is None,
            s@.stats.last_connection_time is None,
            duration_nanos(s@.stats.connection_uptime) == 0,
            duration_nanos(s@.stats.total_uptime) == 0,
    {
        ClientSession {
            status: ConnectionStatus::Disconnected,
            stats: ClientStats::default(),
            reconnect_attempts: 0,
            is_streaming: false,
        }
    }

    pub fn status(&self) -> (r: ConnectionStatus)
        ensures
            r@ == self@.status,
    {
        self.status.duplicate()
    }

    pub fn stats(&self) -> (r: ClientStats)
        ensures
            r == self@.stats,
    {
        self.stats
    }

    pub fn reconnect_attempts(&self) -> (r: u32)
        ensures
            r == self@.reconnect_attempts,
    {
        self.reconnect_attempts
    }

    pub fn is_streaming(&self) -> (r: bool)
        ensures
            r == self@.is_streaming,
    {
        self.is_streaming
    }

    /// Sets the status; nothing else changes.
    pub fn set_status(&mut self, status: ConnectionStatus)
        ensures
            final(self)@ == (SessionView { status: status@, ..old(self)@ }),
    {
        self.status = status;
    }

    /// A connection was established: the status is `Connected`, the attempts start over, and
    /// the connection is counted as attempted and successful.
    pub fn connected(&mut self)
        ensures
            final(self)@.status == StatusKind::Connected,
            final(self)@.reconnect_attempts == 0,
            final(self)@.is_streaming == old(self)@.is_streaming,
            final(self)@.stats.connection_attempts == bump32(old(self)@.stats.connection_attempts),
            final(self)@.stats.successful_connections == bump32(
                old(self)@.stats.successful_connections,
            ),
            final(self)@.stats.last_connection_time is Some,
            final(self)@.stats.events_received == old(self)@.stats.events_received,
            final(self)@.stats.bytes_received == old(self)@.stats.bytes_received,
            final(self)@.stats.reconnection_count == old(self)@.stats.reconnection_count,
            final(self)@.stats.failed_reconnections == old(self)@.stats.failed_reconnections,
    {
        self.status = ConnectionStatus::Connected;
        self.reconnect_attempts = 0;
        self.stats.connection_attempts = self.stats.connection_attempts.wrapping_add(1);
        self.stats.successful_connections = self.stats.successful_connections.wrapping_add(1);
        self.stats.last_connection_time = Some(instant_now());
    }

    /// Starts a reconnection attempt: counts it; past `max_attempts` the status becomes an
    /// error that says so, otherwise it becomes `Reconnecting`.
    pub fn begin_reconnect_attempt(&mut self, max_attempts: u32) -> (r: ReconnectStep)
        requires
            old(self)@.reconnect_attempts < u32::MAX,
        ensures
            final(self)@.reconnect_attempts == old(self)@.reconnect_attempts + 1,
            final(self)@.stats == old(self)@.stats,
            final(self)@.is_streaming == old(self)@.is_streaming,
            old(self)@.reconnect_attempts + 1 > max_attempts ==> (r matches ReconnectStep::GiveUp(m)
                && m@ == give_up_message(max_attempts) && final(self)@.status == StatusKind::Error(
                m@,
            )),
            old(self)@.reconnect_attempts + 1 <= max_attempts ==> (r matches ReconnectStep::Proceed(a)
                && a == old(self)@.reconnect_attempts + 1 && final(self)@.status
                == StatusKind::Reconnecting),
    {
        self.reconnect_attempts = self.reconnect_attempts + 1;
        let attempt = self.reconnect_attempts;
        if attempt > max_attempts {
            let mut message = String::from_str("Max reconnection attempts (");
            push_decimal(&mut message, max_attempts as u64);
            message.append(") exceeded");
            self.status = ConnectionStatus::Error(message.clone());
            ReconnectStep::GiveUp(message)
        } else {
            self.status = ConnectionStatus::Reconnecting;
            ReconnectStep::Proceed(attempt)
        }
    }

    /// A reconnection succeeded (after `connected`): it is counted.
    pub fn reconnect_succeeded(&mut self)
        ensures
            final(self)@ == (SessionView {
                stats: ClientStats { reconnection_count: bump32(old(self)@.stats.reconnection_count), ..old(self)@.stats },
                ..old(self)@
            }),
    {
        self.stats.reconnection_count = self.stats.reconnection_count.wrapping_add(1);
    }

    /// A reconnection failed: it is counted.
    pub fn reconnect_failed(&mut self)
        ensures
            final(self)@ == (SessionView {
                stats: ClientStats { failed_reconnections: bump32(old(self)@.stats.failed_reconnections), ..old(self)@.stats },
                ..old(self)@
            }),
    {
        self.stats.failed_reconnections = self.stats.failed_reconnections.wrapping_add(1);
    }

    /// The server refused the authentication with `error` and `code`: the status becomes
    /// an error with the message returned.
    pub fn authentication_failed(&mut self, error: &str, code: u32) -> (r: String)
        ensures
            r@ == auth_failure_message(error@, code),
            final(self)@ == (SessionView { status: StatusKind::Error(r@), ..old(self)@ }),
    {
        let mut message = String::from_str("Authentication failed: ");
        message.append(error);
        message.append(" (code: ");
        push_decimal(&mut message, code as u64);
        message.append(")");
        self.status = ConnectionStatus::Error(message.clone());
        message
    }

    /// Streaming begins: the status is `Streaming` and the session is marked as streaming.
    pub fn start_streaming(&mut self)
        ensures
            final(self)@ == (SessionView {
                status: StatusKind::Streaming,
                is_streaming: true,
                ..old(self)@
            }),
    {
        self.status = ConnectionStatus::Streaming;
        self.is_streaming = true;
    }

    /// An event of `bytes` bytes arrived: it is counted and its time noted.
    pub fn event_received(&mut self, bytes: usize)
        ensures
            final(self)@.status == old(self)@.status,
            final(self)@.reconnect_attempts == old(self)@.reconnect_attempts,
            final(self)@.is_streaming == old(self)@.is_streaming,
            final(self)@.stats.events_received == add64(old(self)@.stats.events_received, 1),
            final(self)@.stats.bytes_received == add64(old(self)@.stats.bytes_received, bytes as u64),
            final(self)@.stats.last_event_time is Some,
            final(self)@.stats.connection_attempts == old(self)@.stats.connection_attempts,
            final(self)@.stats.successful_connections == old(self)@.stats.successful_connections,
            final(self)@.stats.reconnection_count == old(self)@.stats.reconnection_count,
            final(self)@.stats.failed_reconnections == old(self)@.stats.failed_reconnections,
    {
        self.stats.events_received = self.stats.events_received.wrapping_add(1);
        self.stats.bytes_received = self.stats.bytes_received.wrapping_add(bytes as u64);
        self.stats.last_event_time = Some(instant_now());
    }

    /// Forgets the reconnection attempts.
    pub fn reset_reconnect_attempts(&mut self)
        ensures
            final(self)@ == (SessionView { reconnect_attempts: 0, ..old(self)@ }),
    {
        self.reconnect_attempts = 0;
    }

    /// The session ends: no longer streaming, and `Disconnected`.
    pub fn shutdown(&mut self)
        ensures
            final(self)@ == (SessionView {
                status: StatusKind::Disconnected,
                is_streaming: false,
                ..old(self)@
            }),
    {
        self.is_streaming = false;
        self.status = ConnectionStatus::Disconnected;
    }

    /// What a health check does, given whether automatic reconnection is on, whether there
    /// is a connection, and whether the server has closed it.
    pub fn health_action(&self, auto_reconnect: bool, has_connection: bool, closed_by_server: bool) -> (r:
        HealthAction)
        ensures
            r == health_action_for(
                self@.status,
                self@.is_streaming,
                auto_reconnect,
                has_connection,
                closed_by_server,
            ),
    {
        match &self.status {
            ConnectionStatus::Disconnected | ConnectionStatus::Error(_) => {
                if self.is_streaming && auto_reconnect {
                    HealthAction::Reconnect
                } else {
                    HealthAction::Report(false)
                }
            },
            ConnectionStatus::Connected | ConnectionStatus::Authenticated
            | ConnectionStatus::Streaming => {
                if has_connection {
                    if closed_by_server {
                        HealthAction::Reopen { reconnect: auto_reconnect }
                    } else {
                        HealthAction::Report(true)
                    }
                } else {
                    HealthAction::Report(false)
                }
            },
            _ => HealthAction::Report(false),
        }
    }

    /// Whether the background reconnection loop should try now: the session is streaming and
    /// is `Disconnected` or in error with an empty message.
    pub fn auto_reconnect_due(&self) -> (r: bool)
        ensures
            r == ((self@.status == StatusKind::Disconnected || self@.status == StatusKind::Error(
                Seq::<char>::empty(),
            )) && self@.is_streaming),
    {
        let lost = match &self.status {
            ConnectionStatus::Disconnected => true,
            ConnectionStatus::Error(m) => {
                let n = m.as_str().unicode_len();
                assert(n == 0 ==> m@ =~= Seq::<char>::empty());
                n == 0
            },
            _ => false,
        };
        lost && self.is_streaming
    }
}

/// What the background reconnection loop does on one tick.
#[derive(Debug, Clone, Copy, PartialEq, Eq, Structural)]
pub enum LoopStep {
    /// The attempts are used up: the loop ends.
    GiveUp,
    /// Attempt number `n`: wait longer before the next tick.
    Retry(u32),
    /// Nothing to do: the attempts start over and the wait goes back to its base.
    Idle,
}

/// The background reconnection loop's count of attempts since the connection was last
/// found healthy.
pub struct ReconnectLoop {
    attempts: u32,
}

impl View for ReconnectLoop {
    type V = u32;

    closed spec fn view(&self) -> u32 {
        self.attempts
    }
}

impl ReconnectLoop {
    pub fn new() -> (l: Self)
        ensures
            l@ == 0,
    {
        ReconnectLoop { attempts: 0 }
    }

    /// One tick: when a reconnection is `due` the attempt is counted, and past
    /// `max_attempts` the loop gives up; otherwise the count starts over.
    pub fn tick(&mut self, due: bool, max_attempts: u32) -> (r: LoopStep)
        requires
            old(self)@ < u32::MAX,
        ensures
            due ==> final(self)@ == old(self)@ + 1,
            due && old(self)@ + 1 > max_attempts ==> r == LoopStep::GiveUp,
            due && old(self)@ + 1 <= max_attempts ==> r == LoopStep::Retry(final(self)@),
            !due ==> r == LoopStep::Idle && final(self)@ == 0,
    {
        if due {
            self.attempts = self.attempts + 1;
            if self.attempts > max_attempts {
                LoopStep::GiveUp
            } else {
                LoopStep::Retry(self.attempts)
            }
        } else {
            self.attempts = 0;
            LoopStep::Idle
        }
    }

    pub fn attempts(&self) -> (r: u32)
        ensures
            r == self@,
    {
        self.attempts
    }
}

} // verus!
