use vstd::prelude::*;
use vstd::string::*;
use std::collections::VecDeque;
use crate::clock::now_ms;
use crate::model::{
    EventView, GatewayEvent, GatewayExitInfo, GatewayLogEntry, GatewayProcess, GatewayReply,
    GatewaySnapshot, GatewayStatePayload, GatewayStatus, LogEntryView, PayloadView, ProcessExit,
    SnapshotView, entries_view, events_view, opt_text, GATEWAY_COMMAND_LABEL, LOG_LIMIT,
    SYSTEM_STREAM,
};
use crate::process::{
    StopReport, StopReportView, concat3, report_failed, describe_exit, describe_exit_text, exit_info_at,
    exited_error, exited_error_text,
};
use crate::text::{decimal, is_blank, is_blank_text, u64_to_decimal};

verus! {

broadcast use vstd::std_specs::vecdeque::group_vec_dequeue_axioms;

/// The mathematical value of the gateway's state.
pub struct GatewayView {
    /// The running process, if any.
    pub runtime: Option<GatewayProcess>,
    /// The last error, if the last start, stop or exit left one.
    pub last_error: Option<Seq<char>>,
    /// The last recorded exit, if any.
    pub last_exit: Option<GatewayExitInfo>,
    /// The log, oldest entry first.
    pub logs: Seq<LogEntryView>,
    /// How many log entries were ever written: the id of the newest one.
    pub log_sequence: u64,
}

impl GatewayView {
    /// The log keeps at most `LOG_LIMIT` entries, and their ids are
    /// consecutive, oldest first, ending with the newest id written.
    pub open spec fn wf(self) -> bool {
        &&& self.logs.len() <= LOG_LIMIT
        &&& self.logs.len() <= self.log_sequence
        &&& forall|i: int|
            0 <= i < self.logs.len() ==> #[trigger] self.logs[i].id == self.log_sequence
                - self.logs.len() + 1 + i
    }

    /// Whether the process is running.
    pub open spec fn running(self) -> bool {
        self.runtime is Some
    }

    /// The entry that the next write of `message` to `stream` at time `ts` makes.
    pub open spec fn next_entry(self, ts: u64, stream: Seq<char>, message: Seq<char>) -> LogEntryView {
        LogEntryView {
            id: (self.log_sequence + 1) as u64,
            timestamp_ms: ts,
            stream: stream,
            message: message,
        }
    }

    /// The state after `entry` is appended to the log: the oldest entry is
    /// dropped first when the log is full.
    pub open spec fn with_log(self, entry: LogEntryView) -> GatewayView {
        let kept = if self.logs.len() >= LOG_LIMIT {
            self.logs.drop_first()
        } else {
            self.logs
        };
        GatewayView { logs: kept.push(entry), log_sequence: entry.id, ..self }
    }

    /// The state after `message` is written to `stream` at time `ts`.
    pub open spec fn logged(self, ts: u64, stream: Seq<char>, message: Seq<char>) -> GatewayView {
        self.with_log(self.next_entry(ts, stream, message))
    }

    /// The time stamp of the newest log entry.
    pub open spec fn last_timestamp(self) -> u64 {
        self.logs.last().timestamp_ms
    }

    /// The state with `process` running and no error or exit on record.
    pub open spec fn started(self, process: GatewayProcess) -> GatewayView {
        GatewayView { runtime: Some(process), last_error: None, last_exit: None, ..self }
    }

    /// The state after a failed start that left `error`.
    pub open spec fn start_failed(self, error: Seq<char>) -> GatewayView {
        GatewayView { runtime: None, last_error: Some(error), last_exit: None, ..self }
    }

    /// The state after a stop that came to `report`.
    pub open spec fn stopped(self, report: StopReportView) -> GatewayView {
        GatewayView {
            runtime: None,
            last_error: report.last_error,
            last_exit: report.last_exit,
            ..self
        }
    }
}

/// The state that the front end is told.
pub open spec fn payload_of(v: GatewayView) -> PayloadView {
    PayloadView {
        command: GATEWAY_COMMAND_LABEL@,
        status: if v.runtime is Some {
            GatewayStatus::Running
        } else {
            GatewayStatus::Stopped
        },
        pid: match v.runtime {
            Some(p) => Some(p.pid),
            None => None,
        },
        started_at_ms: match v.runtime {
            Some(p) => Some(p.started_at_ms),
            None => None,
        },
        last_error: v.last_error,
        last_exit: v.last_exit,
    }
}

/// The state and the whole log, as a snapshot shows them.
pub open spec fn snapshot_of(v: GatewayView) -> SnapshotView {
    SnapshotView { state: payload_of(v), logs: v.logs }
}

/// The state of a gateway that has never run and never logged.
pub open spec fn initial_view() -> GatewayView {
    GatewayView {
        runtime: None,
        last_error: None,
        last_exit: None,
        logs: Seq::empty(),
        log_sequence: 0,
    }
}

/// The message logged when the process was started.
pub open spec fn started_text(pid: u32) -> Seq<char> {
    "已启动网关进程，PID "@ + decimal(pid as nat) + "。"@
}

/// The error left by a failure to start the process.
pub open spec fn spawn_failure_text(error: Seq<char>) -> Seq<char> {
    "启动 `openclaw gateway` 失败: "@ + error
}

/// The message logged before a restart starts the process again.
pub open spec fn restart_text() -> Seq<char> {
    "正在重新启动网关进程。"@
}

/// The message logged when the process is seen to have exited.
pub open spec fn exit_seen_text(exit: GatewayExitInfo) -> Seq<char> {
    if exit.success {
        "网关进程已退出。"@
    } else {
        "网关进程异常退出（"@ + describe_exit_text(exit.code) + "）。"@
    }
}

/// The message logged when the dashboard command was launched.
pub open spec fn dashboard_text() -> Seq<char> {
    "已执行 `openclaw dashboard`。"@
}

/// The error left by a failure to launch the dashboard command.
pub open spec fn dashboard_failure_text(error: Seq<char>) -> Seq<char> {
    "执行 `openclaw dashboard` 失败: "@ + error
}

/// The message logged when reading a stream of the process failed.
pub open spec fn read_failure_text(stream: Seq<char>, error: Seq<char>) -> Seq<char> {
    "读取 "@ + stream + " 日志失败: "@ + error
}

/// The events of a state change that logged one entry: that entry, then the
/// new state.
pub open spec fn log_then_state(v: GatewayView) -> Seq<EventView> {
    seq![EventView::Log(v.logs.last()), EventView::State(payload_of(v))]
}

/// The event of a change that logged one entry and left the state as it was
/// otherwise told: that entry alone.
pub open spec fn log_only(v: GatewayView) -> Seq<EventView> {
    seq![EventView::Log(v.logs.last())]
}

/// The report that an observed exit leaves: the exit, its error if it was
/// unsuccessful, and the message to log.
pub open spec fn report_exit_seen(exit: GatewayExitInfo) -> StopReportView {
    StopReportView {
        last_exit: Some(exit),
        last_error: if exit.success { None } else { Some(exited_error_text(exit.code)) },
        log_message: exit_seen_text(exit),
    }
}

/// Whether what a look at the process found leads to a log entry: only when
/// a process runs and it exited or the look failed.
pub open spec fn exit_is_logged(v: GatewayView, exit_status: Result<Option<ProcessExit>, String>) -> bool {
    v.running() && exit_status != Ok::<Option<ProcessExit>, String>(None)
}

/// Whether an exit that a look found is a valid exit status (no exit, or a
/// failed look, is valid too).
pub open spec fn exit_status_valid(exit_status: Result<Option<ProcessExit>, String>) -> bool {
    match exit_status {
        Ok(Some(status)) => status.valid(),
        _ => true,
    }
}

/// Whether a line read from the process leads to a log entry: a read error
/// does, and so does a line that is not blank.
pub open spec fn line_is_logged(line: Result<String, String>) -> bool {
    match line {
        Ok(l) => !is_blank_text(l@),
        Err(_) => true,
    }
}

/// The gateway supervisor's state: the running process (if any), the last
/// error and exit, and the bounded log.
pub struct GatewayState {
    runtime: Option<GatewayProcess>,
    last_error: Option<String>,
    last_exit: Option<GatewayExitInfo>,
    logs: VecDeque<GatewayLogEntry>,
    log_sequence: u64,
}

impl View for GatewayState {
    type V = GatewayView;

    closed spec fn view(&self) -> GatewayView {
        GatewayView {
            runtime: self.runtime,
            last_error: opt_text(self.last_error),
            last_exit: self.last_exit,
            logs: entries_view(self.logs@),
            log_sequence: self.log_sequence,
        }
    }
}

/// How a start begins.
#[derive(Debug)]
pub enum StartBegin {
    /// The process already runs: nothing is started, and this is the answer.
    AlreadyRunning(GatewaySnapshot),
    /// Spawn the process and hand the outcome to `finish_start`.
    Spawn,
}

/// How a stop begins.
#[derive(Debug)]
pub enum StopBegin {
    /// No process runs: nothing is stopped, and this is the answer.
    NotRunning(GatewaySnapshot),
    /// This process was running and is now taken out of the state: stop it
    /// (see `stop_gateway_process`) and hand the report to `finish_stop`.
    Stop(GatewayProcess),
}

impl Default for GatewayState {
    fn default() -> (s: Self)
        ensures
            s@ == initial_view(),
    {
        GatewayState::new()
    }
}

impl GatewayState {
    /// A gateway that has never run and never logged.
    pub fn new() -> (s: Self)
        ensures
            s@ == initial_view(),
            s@.wf(),
    {
        let s = GatewayState {
            runtime: None,
            last_error: None,
            last_exit: None,
            logs: VecDeque::new(),
            log_sequence: 0,
        };
        assert(entries_view(s.logs@) =~= Seq::<LogEntryView>::empty());
        s
    }

    /// The id of the newest log entry ever written.
    pub fn log_sequence(&self) -> (n: u64)
        ensures
            n == self@.log_sequence,
    {
        self.log_sequence
    }

    /// Whether the gateway process is running.
    pub fn is_running(&self) -> (r: bool)
        ensures
            r == self@.running(),
    {
        self.runtime.is_some()
    }

    /// The state that the front end is told.
    pub fn state_payload(&self) -> (p: GatewayStatePayload)
        ensures
            p@ == payload_of(self@),
    {
        let pid = match &self.runtime {
            Some(r) => Some(r.pid),
            None => None,
        };
        let started_at_ms = match &self.runtime {
            Some(r) => Some(r.started_at_ms),
            None => None,
        };
        let status = if self.runtime.is_some() {
            GatewayStatus::Running
        } else {
            GatewayStatus::Stopped
        };
        let last_error = match &self.last_error {
            Some(e) => Some(e.clone()),
            None => None,
        };
        GatewayStatePayload {
            command: GATEWAY_COMMAND_LABEL,
            status,
            pid,
            started_at_ms,
            last_error,
            last_exit: self.last_exit,
        }
    }

    /// The state and the whole log, oldest entry first.
    pub fn snapshot(&self) -> (snap: GatewaySnapshot)
        ensures
            snap@ == snapshot_of(self@),
    {
        let state = self.state_payload();
        let mut logs: Vec<GatewayLogEntry> = Vec::new();
        let n = self.logs.len();
        let mut i: usize = 0;
        while i < n
            invariant
                n == self.logs@.len(),
                i <= n,
                logs@.len() == i,
                forall|j: int| 0 <= j < i ==> #[trigger] logs@[j]@ == self.logs@[j]@,
            decreases n - i,
        {
            let e = self.logs[i].clone();
            logs.push(e);
            i = i + 1;
        }
        assert(entries_view(logs@) =~= entries_view(self.logs@));
        GatewaySnapshot { state, logs }
    }

    /// Writes `message` to the log under `stream`, stamped `now` and with the
    /// next id; when the log is full its oldest entry goes. Returns the new
    /// entry.
    pub fn push_log_at(&mut self, stream: &str, message: String, now: u64) -> (entry: GatewayLogEntry)
        requires
            old(self)@.wf(),
            old(self)@.log_sequence < u64::MAX,
        ensures
            final(self)@.wf(),
            final(self)@ == old(self)@.logged(now, stream@, message@),
            entry@ == old(self)@.next_entry(now, stream@, message@),
            entry@ == final(self)@.logs.last(),
            final(self)@.logs.len() == if old(self)@.logs.len() < LOG_LIMIT {
                old(self)@.logs.len() + 1
            } else {
                LOG_LIMIT as nat
            },
    {
        let id = self.log_sequence + 1;
        self.log_sequence = id;
        let entry = GatewayLogEntry {
            id,
            timestamp_ms: now,
            stream: String::from_str(stream),
            message,
        };
        let ghost before = self.logs@;
        if self.logs.len() >= LOG_LIMIT {
            self.logs.pop_front();
            assert(entries_view(self.logs@) =~= entries_view(before).drop_first());
        }
        let ghost kept = self.logs@;
        self.logs.push_back(entry.clone());
        assert(entries_view(self.logs@) =~= entries_view(kept).push(entry@));
        entry
    }

    /// Writes `message` to the log under `stream`, stamped with the current
    /// time and the next id; when the log is full its oldest entry goes.
    /// Returns the new entry.
    pub fn push_log(&mut self, stream: &str, message: String) -> (entry: GatewayLogEntry)
        requires
            old(self)@.wf(),
            old(self)@.log_sequence < u64::MAX,
        ensures
            final(self)@.wf(),
            final(self)@ == old(self)@.logged(entry.timestamp_ms, stream@, message@),
            entry@ == final(self)@.logs.last(),
    {
        self.push_log_at(stream, message, now_ms())
    }

    /// Emits the entry just written, then the new state.
    fn log_and_state(&self, entry: GatewayLogEntry) -> (events: Vec<GatewayEvent>)
        requires
            entry@ == self@.logs.last(),
        ensures
            events_view(events@) == log_then_state(self@),
    {
        let mut events: Vec<GatewayEvent> = Vec::new();
        events.push(GatewayEvent::Log(entry));
        events.push(GatewayEvent::State(self.state_payload()));
        assert(events_view(events@) =~= log_then_state(self@));
        events
    }

    /// Emits the entry just written, alone.
    fn log_event(&self, entry: GatewayLogEntry) -> (events: Vec<GatewayEvent>)
        requires
            entry@ == self@.logs.last(),
        ensures
            events_view(events@) == log_only(self@),
    {
        let mut events: Vec<GatewayEvent> = Vec::new();
        events.push(GatewayEvent::Log(entry));
        assert(events_view(events@) =~= log_only(self@));
        events
    }

    /// Emits nothing.
    fn no_events() -> (events: Vec<GatewayEvent>)
        ensures
            events_view(events@) == Seq::<EventView>::empty(),
    {
        let events: Vec<GatewayEvent> = Vec::new();
        assert(events_view(events@) =~= Seq::<EventView>::empty());
        events
    }

    /// The first half of a start: when the process already runs, the answer
    /// is the current snapshot and nothing changes; otherwise the caller
    /// spawns the process.
    pub fn begin_start(&self) -> (b: StartBegin)
        ensures
            match b {
                StartBegin::AlreadyRunning(snap) => self@.running() && snap@ == snapshot_of(self@),
                StartBegin::Spawn => !self@.running(),
            },
    {
        if self.runtime.is_some() {
            StartBegin::AlreadyRunning(self.snapshot())
        } else {
            StartBegin::Spawn
        }
    }

    /// The second half of a start, from the outcome of spawning the process
    /// (`Ok(pid)`, or `Err` with the error's text). A spawned process is
    /// recorded as running since `started_at`, with no error or exit on
    /// record; a failure is recorded as the last error. Either way the
    /// message is logged at `logged_at` and the new state emitted. The answer
    /// is the new snapshot, or the failure's message.
    pub fn finish_start_at(
        &mut self,
        spawned: Result<u32, String>,
        started_at: u64,
        logged_at: u64,
    ) -> (reply: GatewayReply<Result<GatewaySnapshot, String>>)
        requires
            old(self)@.wf(),
            old(self)@.log_sequence < u64::MAX,
        ensures
            final(self)@.wf(),
            match spawned {
                Ok(pid) => {
                    &&& final(self)@ == old(self)@.started(
                        GatewayProcess { pid, started_at_ms: started_at },
                    ).logged(logged_at, SYSTEM_STREAM@, started_text(pid))
                    &&& reply.result matches Ok(snap) && snap@ == snapshot_of(final(self)@)
                },
                Err(e) => {
                    &&& final(self)@ == old(self)@.start_failed(spawn_failure_text(e@)).logged(
                        logged_at,
                        SYSTEM_STREAM@,
                        spawn_failure_text(e@),
                    )
                    &&& reply.result matches Err(m) && m@ == spawn_failure_text(e@)
                },
            },
            events_view(reply.events@) == log_then_state(final(self)@),
    {
        match spawned {
            Ok(pid) => {
                self.last_error = None;
                self.last_exit = None;
                self.runtime = Some(GatewayProcess { pid, started_at_ms: started_at });
                let digits = u64_to_decimal(pid as u64);
                let message = concat3("已启动网关进程，PID ", digits.as_str(), "。");
                let entry = self.push_log_at(SYSTEM_STREAM, message, logged_at);
                let events = self.log_and_state(entry);
                GatewayReply { result: Ok(self.snapshot()), events }
            },
            Err(error) => {
                let mut message = String::from_str("启动 `openclaw gateway` 失败: ");
                message.append(error.as_str());
                self.last_error = Some(message.clone());
                self.last_exit = None;
                self.runtime = None;
                let entry = self.push_log_at(SYSTEM_STREAM, message.clone(), logged_at);
                let events = self.log_and_state(entry);
                GatewayReply { result: Err(message), events }
            },
        }
    }

    /// The second half of a start, as `finish_start_at` with the process's
    /// start and the log entry stamped with the current time.
    pub fn finish_start(&mut self, spawned: Result<u32, String>) -> (reply: GatewayReply<
        Result<GatewaySnapshot, String>,
    >)
        requires
            old(self)@.wf(),
            old(self)@.log_sequence < u64::MAX,
        ensures
            final(self)@.wf(),
            match spawned {
                Ok(pid) => {
                    &&& final(self)@.runtime matches Some(p) && p.pid == pid
                        && final(self)@ == old(self)@.started(p).logged(
                        final(self)@.last_timestamp(),
                        SYSTEM_STREAM@,
                        started_text(pid),
                    )
                    &&& reply.result matches Ok(snap) && snap@ == snapshot_of(final(self)@)
                },
                Err(e) => {
                    &&& final(self)@ == old(self)@.start_failed(spawn_failure_text(e@)).logged(
                        final(self)@.last_timestamp(),
                        SYSTEM_STREAM@,
                        spawn_failure_text(e@),
                    )
                    &&& reply.result matches Err(m) && m@ == spawn_failure_text(e@)
                },
            },
            events_view(reply.events@) == log_then_state(final(self)@),
    {
        let started_at = now_ms();
        let logged_at = now_ms();
        self.finish_start_at(spawned, started_at, logged_at)
    }

    /// The first half of a stop: when no process runs, the answer is the
    /// current snapshot and nothing changes; otherwise the running process is
    /// taken out of the state and handed to the caller to stop.
    pub fn begin_stop(&mut self) -> (b: StopBegin)
        ensures
            match b {
                StopBegin::NotRunning(snap) => !old(self)@.running() && final(self)@ == old(self)@
                    && snap@ == snapshot_of(old(self)@),
                StopBegin::Stop(p) => old(self)@.runtime == Some(p) && final(self)@ == (
                GatewayView { runtime: None, ..old(self)@ }),
            },
    {
        match self.runtime.take() {
            Some(p) => StopBegin::Stop(p),
            None => StopBegin::NotRunning(self.snapshot()),
        }
    }

    /// The second half of a stop, from what stopping the process came to: its
    /// exit and error are recorded, the process is no longer running, the
    /// report's message is logged at `now` and the new state emitted. The
    /// answer is the report's error if it has one, else the new snapshot.
    pub fn finish_stop_at(&mut self, report: StopReport, now: u64) -> (reply: GatewayReply<
        Result<GatewaySnapshot, String>,
    >)
        requires
            old(self)@.wf(),
            old(self)@.log_sequence < u64::MAX,
        ensures
            final(self)@.wf(),
            final(self)@ == old(self)@.stopped(report@).logged(
                now,
                SYSTEM_STREAM@,
                report@.log_message,
            ),
            match report@.last_error {
                Some(e) => reply.result matches Err(m) && m@ == e,
                None => reply.result matches Ok(snap) && snap@ == snapshot_of(final(self)@),
            },
            events_view(reply.events@) == log_then_state(final(self)@),
    {
        let StopReport { last_exit, last_error, log_message } = report;
        self.last_exit = last_exit;
        self.last_error = match &last_error {
            Some(e) => Some(e.clone()),
            None => None,
        };
        self.runtime = None;
        let entry = self.push_log_at(SYSTEM_STREAM, log_message, now);
        let events = self.log_and_state(entry);
        match last_error {
            Some(error) => GatewayReply { result: Err(error), events },
            None => GatewayReply { result: Ok(self.snapshot()), events },
        }
    }

    /// The second half of a stop, as `finish_stop_at` with the log entry
    /// stamped with the current time.
    pub fn finish_stop(&mut self, report: StopReport) -> (reply: GatewayReply<
        Result<GatewaySnapshot, String>,
    >)
        requires
            old(self)@.wf(),
            old(self)@.log_sequence < u64::MAX,
        ensures
            final(self)@.wf(),
            final(self)@ == old(self)@.stopped(report@).logged(
                final(self)@.last_timestamp(),
                SYSTEM_STREAM@,
                report@.log_message,
            ),
            match report@.last_error {
                Some(e) => reply.result matches Err(m) && m@ == e,
                None => reply.result matches Ok(snap) && snap@ == snapshot_of(final(self)@),
            },
            events_view(reply.events@) == log_then_state(final(self)@),
    {
        self.finish_stop_at(report, now_ms())
    }

    /// Logs at `now` that a restart is about to start the process again.
    pub fn announce_restart_at(&mut self, now: u64) -> (reply: GatewayReply<()>)
        requires
            old(self)@.wf(),
            old(self)@.log_sequence < u64::MAX,
        ensures
            final(self)@.wf(),
            final(self)@ == old(self)@.logged(now, SYSTEM_STREAM@, restart_text()),
            events_view(reply.events@) == log_only(final(self)@),
    {
        let entry = self.push_log_at(SYSTEM_STREAM, String::from_str("正在重新启动网关进程。"), now);
        let events = self.log_event(entry);
        GatewayReply { result: (), events }
    }

    /// Logs that a restart is about to start the process again.
    pub fn announce_restart(&mut self) -> (reply: GatewayReply<()>)
        requires
            old(self)@.wf(),
            old(self)@.log_sequence < u64::MAX,
        ensures
            final(self)@.wf(),
            final(self)@ == old(self)@.logged(
                final(self)@.last_timestamp(),
                SYSTEM_STREAM@,
                restart_text(),
            ),
            events_view(reply.events@) == log_only(final(self)@),
    {
        self.announce_restart_at(now_ms())
    }

    /// Takes in what a look at the running process found (`Ok(Some(exit))`:
    /// it exited; `Ok(None)`: it still runs; `Err`: the look failed, with the
    /// message to record). Nothing changes unless a process was running and
    /// it exited or the look failed; then the process is no longer running,
    /// the exit (observed at `exit_at`) and error are recorded, the message is
    /// logged at `logged_at` and the new state emitted.
    pub fn sync_process_exit_at(
        &mut self,
        exit_status: Result<Option<ProcessExit>, String>,
        exit_at: u64,
        logged_at: u64,
    ) -> (reply: GatewayReply<()>)
        requires
            old(self)@.wf(),
            exit_status_valid(exit_status),
            exit_is_logged(old(self)@, exit_status) ==> old(self)@.log_sequence < u64::MAX,
        ensures
            final(self)@.wf(),
            !exit_is_logged(old(self)@, exit_status) ==> {
                &&& final(self)@ == old(self)@
                &&& events_view(reply.events@) == Seq::<EventView>::empty()
            },
            exit_is_logged(old(self)@, exit_status) ==> events_view(reply.events@)
                == log_then_state(final(self)@),
            old(self)@.running() ==> match exit_status {
                Ok(Some(status)) => {
                    let info = GatewayExitInfo {
                        at_ms: exit_at,
                        code: status.code,
                        success: status.success,
                    };
                    final(self)@ == old(self)@.stopped(report_exit_seen(info)).logged(
                        logged_at,
                        SYSTEM_STREAM@,
                        exit_seen_text(info),
                    )
                },
                Ok(None) => true,
                Err(e) => final(self)@ == old(self)@.stopped(report_failed(e@)).logged(
                    logged_at,
                    SYSTEM_STREAM@,
                    e@,
                ),
            },
    {
        if self.runtime.is_none() {
            return GatewayReply { result: (), events: Self::no_events() };
        }
        let message = match exit_status {
            Ok(Some(status)) => {
                let info = exit_info_at(status, exit_at);
                self.last_exit = Some(info);
                self.last_error = if info.success {
                    None
                } else {
                    Some(exited_error(&info))
                };
                self.runtime = None;
                if info.success {
                    String::from_str("网关进程已退出。")
                } else {
                    let d = describe_exit(&info);
                    concat3("网关进程异常退出（", d.as_str(), "）。")
                }
            },
            Ok(None) => {
                return GatewayReply { result: (), events: Self::no_events() };
            },
            Err(error) => {
                self.last_error = Some(error.clone());
                self.last_exit = None;
                self.runtime = None;
                error
            },
        };
        let entry = self.push_log_at(SYSTEM_STREAM, message, logged_at);
        let events = self.log_and_state(entry);
        GatewayReply { result: (), events }
    }

    /// As `sync_process_exit_at`, with the exit and the log entry stamped
    /// with the current time.
    pub fn sync_process_exit(&mut self, exit_status: Result<Option<ProcessExit>, String>) -> (reply:
        GatewayReply<()>)
        requires
            old(self)@.wf(),
            exit_status_valid(exit_status),
            exit_is_logged(old(self)@, exit_status) ==> old(self)@.log_sequence < u64::MAX,
        ensures
            final(self)@.wf(),
            !exit_is_logged(old(self)@, exit_status) ==> {
                &&& final(self)@ == old(self)@
                &&& events_view(reply.events@) == Seq::<EventView>::empty()
            },
            old(self)@.running() ==> match exit_status {
                Ok(Some(status)) => final(self)@.last_exit matches Some(info)
                    && info.code == status.code && info.success == status.success
                    && final(self)@ == old(self)@.stopped(report_exit_seen(info)).logged(
                    final(self)@.last_timestamp(),
                    SYSTEM_STREAM@,
                    exit_seen_text(info),
                ) && events_view(reply.events@) == log_then_state(final(self)@),
                Ok(None) => true,
                Err(e) => final(self)@ == old(self)@.stopped(report_failed(e@)).logged(
                    final(self)@.last_timestamp(),
                    SYSTEM_STREAM@,
                    e@,
                ) && events_view(reply.events@) == log_then_state(final(self)@),
            },
    {
        let exit_at = now_ms();
        let logged_at = now_ms();
        self.sync_process_exit_at(exit_status, exit_at, logged_at)
    }

    /// Takes in one line read from the process's `stream` (`Ok(line)`, or
    /// `Err` with the read error's text). A line that is not blank is logged
    /// under `stream` at `now`; a blank one is skipped; a read error is
    /// logged at `now` as a system message. The answer says whether to go on
    /// reading: only a read error stops it.
    pub fn record_output_line_at(&mut self, stream: &str, line: Result<String, String>, now: u64) -> (reply:
        GatewayReply<bool>)
        requires
            old(self)@.wf(),
            line_is_logged(line) ==> old(self)@.log_sequence < u64::MAX,
        ensures
            final(self)@.wf(),
            match line {
                Ok(l) => reply.result && if is_blank_text(l@) {
                    &&& final(self)@ == old(self)@
                    &&& events_view(reply.events@) == Seq::<EventView>::empty()
                } else {
                    &&& final(self)@ == old(self)@.logged(now, stream@, l@)
                    &&& events_view(reply.events@) == log_only(final(self)@)
                },
                Err(e) => !reply.result && final(self)@ == old(self)@.logged(
                    now,
                    SYSTEM_STREAM@,
                    read_failure_text(stream@, e@),
                ) && events_view(reply.events@) == log_only(final(self)@),
            },
    {
        match line {
            Ok(l) => {
                if is_blank(l.as_str()) {
                    GatewayReply { result: true, events: Self::no_events() }
                } else {
                    let entry = self.push_log_at(stream, l, now);
                    let events = self.log_event(entry);
                    GatewayReply { result: true, events }
                }
            },
            Err(error) => {
                let mut message = concat3("读取 ", stream, " 日志失败: ");
                message.append(error.as_str());
                let entry = self.push_log_at(SYSTEM_STREAM, message, now);
                let events = self.log_event(entry);
                GatewayReply { result: false, events }
            },
        }
    }

    /// As `record_output_line_at`, with the log entry stamped with the
    /// current time.
    pub fn record_output_line(&mut self, stream: &str, line: Result<String, String>) -> (reply:
        GatewayReply<bool>)
        requires
            old(self)@.wf(),
            line_is_logged(line) ==> old(self)@.log_sequence < u64::MAX,
        ensures
            final(self)@.wf(),
            match line {
                Ok(l) => reply.result && if is_blank_text(l@) {
                    &&& final(self)@ == old(self)@
                    &&& events_view(reply.events@) == Seq::<EventView>::empty()
                } else {
                    &&& final(self)@ == old(self)@.logged(final(self)@.last_timestamp(), stream@, l@)
                    &&& events_view(reply.events@) == log_only(final(self)@)
                },
                Err(e) => !reply.result && final(self)@ == old(self)@.logged(
                    final(self)@.last_timestamp(),
                    SYSTEM_STREAM@,
                    read_failure_text(stream@, e@),
                ) && events_view(reply.events@) == log_only(final(self)@),
            },
    {
        self.record_output_line_at(stream, line, now_ms())
    }

    /// Takes in the outcome of launching the dashboard command (`Ok`, or
    /// `Err` with the error's text) and logs it at `now`. The answer is `Ok`,
    /// or the failure's message.
    pub fn record_dashboard_launch_at(&mut self, launched: Result<(), String>, now: u64) -> (reply:
        GatewayReply<Result<(), String>>)
        requires
            old(self)@.wf(),
            old(self)@.log_sequence < u64::MAX,
        ensures
            final(self)@.wf(),
            events_view(reply.events@) == log_only(final(self)@),
            match launched {
                Ok(_) => reply.result is Ok && final(self)@ == old(self)@.logged(
                    now,
                    SYSTEM_STREAM@,
                    dashboard_text(),
                ),
                Err(e) => reply.result matches Err(m) && m@ == dashboard_failure_text(e@)
                    && final(self)@ == old(self)@.logged(
                    now,
                    SYSTEM_STREAM@,
                    dashboard_failure_text(e@),
                ),
            },
    {
        match launched {
            Ok(()) => {
                let entry = self.push_log_at(
                    SYSTEM_STREAM,
                    String::from_str("已执行 `openclaw dashboard`。"),
                    now,
                );
                let events = self.log_event(entry);
                GatewayReply { result: Ok(()), events }
            },
            Err(error) => {
                let mut message = String::from_str("执行 `openclaw dashboard` 失败: ");
                message.append(error.as_str());
                let entry = self.push_log_at(SYSTEM_STREAM, message.clone(), now);
                let events = self.log_event(entry);
                GatewayReply { result: Err(message), events }
            },
        }
    }

    /// As `record_dashboard_launch_at`, with the log entry stamped with the
    /// current time.
    pub fn record_dashboard_launch(&mut self, launched: Result<(), String>) -> (reply: GatewayReply<
        Result<(), String>,
    >)
        requires
            old(self)@.wf(),
            old(self)@.log_sequence < u64::MAX,
        ensures
            final(self)@.wf(),
            events_view(reply.events@) == log_only(final(self)@),
            match launched {
                Ok(_) => reply.result is Ok && final(self)@ == old(self)@.logged(
                    final(self)@.last_timestamp(),
                    SYSTEM_STREAM@,
                    dashboard_text(),
                ),
                Err(e) => reply.result matches Err(m) && m@ == dashboard_failure_text(e@)
                    && final(self)@ == old(self)@.logged(
                    final(self)@.last_timestamp(),
                    SYSTEM_STREAM@,
                    dashboard_failure_text(e@),
                ),
            },
    {
        self.record_dashboard_launch_at(launched, now_ms())
    }
}

} // verus!
