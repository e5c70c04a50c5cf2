use vstd::prelude::*;

verus! {

/// The label of the supervised command, as the console shows it.
pub const GATEWAY_COMMAND_LABEL: &'static str = "openclaw gateway";
/// The label of the dashboard command.
pub const DASHBOARD_COMMAND_LABEL: &'static str = "openclaw dashboard";
/// The name of the event that carries one new log entry to the front end.
pub const GATEWAY_LOG_EVENT: &'static str = "gateway-log";
/// The name of the event that carries the gateway's state to the front end.
pub const GATEWAY_STATE_EVENT: &'static str = "gateway-state";
/// How many log entries the gateway keeps; older ones are dropped first.
pub const LOG_LIMIT: usize = 800;
/// The stream name of messages that the supervisor itself writes.
pub const SYSTEM_STREAM: &'static str = "system";

/// Whether the gateway process is running.
#[derive(Clone, Copy, Debug, PartialEq, Eq, Structural)]
pub enum GatewayStatus {
    Stopped,
    Running,
}

impl Default for GatewayStatus {
    fn default() -> (s: Self)
        ensures
            s == GatewayStatus::Stopped,
    {
        GatewayStatus::Stopped
    }
}

/// How the gateway process ended, as the operating system reported it:
/// its exit code, if it had one, and whether that counts as success.
#[derive(Clone, Copy, Debug, PartialEq, Eq, Structural)]
pub struct ProcessExit {
    pub code: Option<i32>,
    pub success: bool,
}

impl ProcessExit {
    /// An exit counts as a success exactly when its exit code is zero (an
    /// exit by signal has no code and is no success).
    pub open spec fn valid(self) -> bool {
        self.success == (self.code == Some(0i32))
    }
}

/// A recorded exit of the gateway process, with the time it was observed.
#[derive(Clone, Copy, Debug, PartialEq, Eq, Structural)]
pub struct GatewayExitInfo {
    pub at_ms: u64,
    pub code: Option<i32>,
    pub success: bool,
}

/// The gateway process while it runs: its process id and when it started.
#[derive(Clone, Copy, Debug, PartialEq, Eq, Structural)]
pub struct GatewayProcess {
    pub pid: u32,
    pub started_at_ms: u64,
}

/// One line of the gateway's log.
#[derive(Debug)]
pub struct GatewayLogEntry {
    pub id: u64,
    pub timestamp_ms: u64,
    pub stream: String,
    pub message: String,
}

/// The mathematical value of a log entry.
pub struct LogEntryView {
    pub id: u64,
    pub timestamp_ms: u64,
    pub stream: Seq<char>,
    pub message: Seq<char>,
}

impl View for GatewayLogEntry {
    type V = LogEntryView;

    open spec fn view(&self) -> LogEntryView {
        LogEntryView {
            id: self.id,
            timestamp_ms: self.timestamp_ms,
            stream: self.stream@,
            message: self.message@,
        }
    }
}

impl Clone for GatewayLogEntry {
    fn clone(&self) -> (r: Self)
        ensures
            r@ == self@,
    {
        GatewayLogEntry {
            id: self.id,
            timestamp_ms: self.timestamp_ms,
            stream: self.stream.clone(),
            message: self.message.clone(),
        }
    }
}

/// The view of an optional text.
pub open spec fn opt_text(o: Option<String>) -> Option<Seq<char>> {
    match o {
        Some(s) => Some(s@),
        None => None,
    }
}

/// What the front end is told of the gateway's state.
#[derive(Debug)]
pub struct GatewayStatePayload {
    pub command: &'static str,
    pub status: GatewayStatus,
    pub pid: Option<u32>,
    pub started_at_ms: Option<u64>,
    pub last_error: Option<String>,
    pub last_exit: Option<GatewayExitInfo>,
}

/// The mathematical value of a state payload.
pub struct PayloadView {
    pub command: Seq<char>,
    pub status: GatewayStatus,
    pub pid: Option<u32>,
    pub started_at_ms: Option<u64>,
    pub last_error: Option<Seq<char>>,
    pub last_exit: Option<GatewayExitInfo>,
}

impl View for GatewayStatePayload {
    type V = PayloadView;

    open spec fn view(&self) -> PayloadView {
        PayloadView {
            command: self.command@,
            status: self.status,
            pid: self.pid,
            started_at_ms: self.started_at_ms,
            last_error: opt_text(self.last_error),
            last_exit: self.last_exit,
        }
    }
}

fn clone_opt_text(o: &Option<String>) -> (r: Option<String>)
    ensures
        opt_text(r) == opt_text(*o),
{
    match o {
        Some(s) => Some(s.clone()),
        None => None,
    }
}

impl Clone for GatewayStatePayload {
    fn clone(&self) -> (r: Self)
        ensures
            r@ == self@,
    {
        GatewayStatePayload {
            command: self.command,
            status: self.status,
            pid: self.pid,
            started_at_ms: self.started_at_ms,
            last_error: clone_opt_text(&self.last_error),
            last_exit: self.last_exit,
        }
    }
}

/// The views of a sequence of log entries.
pub open spec fn entries_view(s: Seq<GatewayLogEntry>) -> Seq<LogEntryView> {
    s.map_values(|e: GatewayLogEntry| e@)
}

/// The gateway's state together with its whole log.
#[derive(Debug)]
pub struct GatewaySnapshot {
    pub state: GatewayStatePayload,
    pub logs: Vec<GatewayLogEntry>,
}

/// The mathematical value of a snapshot.
pub struct SnapshotView {
    pub state: PayloadView,
    pub logs: Seq<LogEntryView>,
}

impl View for GatewaySnapshot {
    type V = SnapshotView;

    open spec fn view(&self) -> SnapshotView {
        SnapshotView { state: self.state@, logs: entries_view(self.logs@) }
    }
}

/// Something the front end is to be told: a new log entry
/// (`gateway-log`) or the gateway's new state (`gateway-state`).
#[derive(Debug)]
pub enum GatewayEvent {
    Log(GatewayLogEntry),
    State(GatewayStatePayload),
}

/// The mathematical value of an event.
pub enum EventView {
    Log(LogEntryView),
    State(PayloadView),
}

impl View for GatewayEvent {
    type V = EventView;

    open spec fn view(&self) -> EventView {
        match self {
            GatewayEvent::Log(e) => EventView::Log(e@),
            GatewayEvent::State(p) => EventView::State(p@),
        }
    }
}

/// The views of a sequence of events.
pub open spec fn events_view(s: Seq<GatewayEvent>) -> Seq<EventView> {
    s.map_values(|e: GatewayEvent| e@)
}

impl GatewayEvent {
    /// The name under which the event is emitted.
    pub fn name(&self) -> (n: &'static str)
        ensures
            n@ == (match self@ {
                EventView::Log(_) => GATEWAY_LOG_EVENT@,
                EventView::State(_) => GATEWAY_STATE_EVENT@,
            }),
    {
        match self {
            GatewayEvent::Log(_) => GATEWAY_LOG_EVENT,
            GatewayEvent::State(_) => GATEWAY_STATE_EVENT,
        }
    }
}

/// The result of an operation on the gateway together with the events
/// that it produced, in the order they are to be emitted.
#[derive(Debug)]
pub struct GatewayReply<T> {
    pub result: T,
    pub events: Vec<GatewayEvent>,
}

} // verus!
