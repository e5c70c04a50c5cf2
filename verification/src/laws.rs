use vstd::prelude::*;
use crate::text::{is_blank_text, is_white_space, lemma_signed_decimal_injective, lemma_signed_decimal_length, signed_decimal};
use crate::commands::{
    shell_line, UNIX_DASHBOARD_LINE, UNIX_GATEWAY_LINE, UNIX_SHELL, UNIX_SHELL_FLAG,
    WINDOWS_DASHBOARD_LINE, WINDOWS_GATEWAY_LINE, WINDOWS_SHELL, WINDOWS_SHELL_FLAG,
};
use crate::gateway::{
    GatewayView, payload_of, restart_text, started_text, report_exit_seen,
};
use crate::lifecycle::{CloseAction, MAIN_WINDOW_LABEL, close_action_spec};
use crate::model::{GatewayExitInfo, GatewayProcess, GatewayStatus, LOG_LIMIT, SYSTEM_STREAM};
use crate::process::{
    StopReportView, describe_exit_text, report_already_exited, report_failed, report_killed,
};

verus! {

/// Writing to the log keeps it well formed: it never holds more than
/// `LOG_LIMIT` entries, and their ids stay consecutive up to the newest.
pub proof fn log_write_keeps_bound(v: GatewayView, ts: u64, stream: Seq<char>, message: Seq<char>)
    requires
        v.wf(),
        v.log_sequence < u64::MAX,
    ensures
        v.logged(ts, stream, message).wf(),
        v.logged(ts, stream, message).logs.len() <= LOG_LIMIT,
{
    let w = v.logged(ts, stream, message);
    let kept = if v.logs.len() >= LOG_LIMIT { v.logs.drop_first() } else { v.logs };
    assert forall|i: int| 0 <= i < w.logs.len() implies #[trigger] w.logs[i].id == w.log_sequence
        - w.logs.len() + 1 + i by {
        if i < kept.len() {
            if v.logs.len() >= LOG_LIMIT {
                assert(kept[i] == v.logs[i + 1]);
            }
        }
    }
}

/// The log keeps the newest entries: after a write it holds the old log with
/// the new entry appended, less its oldest entry when it was full.
pub proof fn log_keeps_newest(v: GatewayView, ts: u64, stream: Seq<char>, message: Seq<char>)
    requires
        v.wf(),
        v.log_sequence < u64::MAX,
    ensures
        ({
            let all = v.logs.push(v.next_entry(ts, stream, message));
            let dropped = if v.logs.len() >= LOG_LIMIT { 1int } else { 0int };
            v.logged(ts, stream, message).logs == all.subrange(dropped, all.len() as int)
        }),
        v.logged(ts, stream, message).logs.last() == v.next_entry(ts, stream, message),
        v.logged(ts, stream, message).logs.last().id == v.log_sequence + 1,
{
    let all = v.logs.push(v.next_entry(ts, stream, message));
    let dropped = if v.logs.len() >= LOG_LIMIT { 1int } else { 0int };
    assert(v.logged(ts, stream, message).logs =~= all.subrange(dropped, all.len() as int));
}

/// Log ids only grow: in a well-formed log every entry's id is smaller than
/// that of each later entry, and none exceeds the newest id written.
pub proof fn log_ids_increase(v: GatewayView)
    requires
        v.wf(),
    ensures
        forall|i: int, j: int|
            0 <= i < j < v.logs.len() ==> #[trigger] v.logs[i].id < #[trigger] v.logs[j].id,
        forall|i: int| 0 <= i < v.logs.len() ==> #[trigger] v.logs[i].id <= v.log_sequence,
{
}

/// The state the front end is told is consistent: the status is `Running`
/// exactly when a process id and a start time are reported.
pub proof fn payload_status_matches_process(v: GatewayView)
    ensures
        (payload_of(v).status == GatewayStatus::Running) <==> payload_of(v).pid is Some,
        payload_of(v).pid is Some <==> payload_of(v).started_at_ms is Some,
        (payload_of(v).status == GatewayStatus::Running) <==> v.running(),
{
}

/// A successful start leaves the spawned process running, with no error
/// and no exit on record, and logs the start as its newest entry.
pub proof fn start_success_runs(v: GatewayView, p: GatewayProcess, ts: u64)
    requires
        v.wf(),
        v.log_sequence < u64::MAX,
    ensures
        ({
            let w = v.started(p).logged(ts, SYSTEM_STREAM@, started_text(p.pid));
            &&& w.runtime == Some(p)
            &&& w.last_error is None
            &&& w.last_exit is None
            &&& payload_of(w).status == GatewayStatus::Running
            &&& payload_of(w).pid == Some(p.pid)
            &&& w.logs.last().message == started_text(p.pid)
            &&& w.wf()
        }),
{
    log_write_keeps_bound(v.started(p), ts, SYSTEM_STREAM@, started_text(p.pid));
}

/// Finishing a stop always leaves the gateway stopped, with the report's
/// exit and error on record and its message as the newest log entry.
pub proof fn stop_leaves_stopped(v: GatewayView, report: StopReportView, ts: u64)
    requires
        v.wf(),
        v.log_sequence < u64::MAX,
    ensures
        ({
            let w = v.stopped(report).logged(ts, SYSTEM_STREAM@, report.log_message);
            &&& !w.running()
            &&& payload_of(w).status == GatewayStatus::Stopped
            &&& w.last_error == report.last_error
            &&& w.last_exit == report.last_exit
            &&& w.logs.last().message == report.log_message
            &&& w.wf()
        }),
{
    log_write_keeps_bound(v.stopped(report), ts, SYSTEM_STREAM@, report.log_message);
}

/// A stop leaves an error exactly when it did not end in a successful exit:
/// a process found already exited leaves one only if its exit failed, a
/// killed process leaves none, and a failed check or wait leaves its message.
pub proof fn stop_error_iff_unsuccessful(exit: GatewayExitInfo, pid: u32, message: Seq<char>)
    ensures
        report_already_exited(exit).last_error is None <==> exit.success,
        report_killed(pid, exit).last_error is None,
        report_failed(message).last_error == Some(message),
        report_failed(message).log_message == message,
        report_exit_seen(exit).last_error == report_already_exited(exit).last_error,
{
}

/// A restart (a stop that came to `report`, then the restart notice, then a
/// successful start of `p`) leaves `p` running with no error on record; its
/// last three log entries are the stop's message, the notice and the start's
/// message, with consecutive ids.
pub proof fn restart_runs_new_process(
    v: GatewayView,
    report: StopReportView,
    p: GatewayProcess,
    t1: u64,
    t2: u64,
    t3: u64,
)
    requires
        v.wf(),
        v.log_sequence + 3 <= u64::MAX,
    ensures
        ({
            let s1 = GatewayView { runtime: None, ..v }.stopped(report).logged(
                t1,
                SYSTEM_STREAM@,
                report.log_message,
            );
            let s2 = s1.logged(t2, SYSTEM_STREAM@, restart_text());
            let s3 = s2.started(p).logged(t3, SYSTEM_STREAM@, started_text(p.pid));
            let n = s3.logs.len();
            &&& s3.wf()
            &&& s3.runtime == Some(p)
            &&& s3.last_error is None
            &&& s3.log_sequence == v.log_sequence + 3
            &&& n >= 3
            &&& s3.logs[n - 3].message == report.log_message
            &&& s3.logs[n - 2].message == restart_text()
            &&& s3.logs[n - 1].message == started_text(p.pid)
            &&& s3.logs[n - 3].id + 2 == s3.logs[n - 1].id
        }),
{
    let s0 = GatewayView { runtime: None, ..v }.stopped(report);
    log_write_keeps_bound(s0, t1, SYSTEM_STREAM@, report.log_message);
    let s1 = s0.logged(t1, SYSTEM_STREAM@, report.log_message);
    log_write_keeps_bound(s1, t2, SYSTEM_STREAM@, restart_text());
    let s2 = s1.logged(t2, SYSTEM_STREAM@, restart_text());
    log_write_keeps_bound(s2.started(p), t3, SYSTEM_STREAM@, started_text(p.pid));
    let s3 = s2.started(p).logged(t3, SYSTEM_STREAM@, started_text(p.pid));
    assert(s1.logs.len() >= 1);
    assert(s2.logs.len() >= 2);
    let n = s3.logs.len();
    assert(s3.logs.len() >= 3);
    assert(s3.logs[n - 2] == s2.logs.last());
    assert(s3.logs[n - 3] == s1.logs.last());
}

/// Once the application is quitting, closing any window lets it close;
/// before that, closing the main window only hides it.
pub proof fn quitting_lets_main_window_close(label: Seq<char>)
    ensures
        close_action_spec(label, true) == CloseAction::Close,
        close_action_spec(MAIN_WINDOW_LABEL@, false) == CloseAction::Hide,
{
}

/// An exit's description tells its code: two exits are described alike
/// exactly when they have the same exit code (or both have none).
pub proof fn exit_description_tells_code(a: Option<i32>, b: Option<i32>)
    ensures
        describe_exit_text(a) == describe_exit_text(b) <==> a == b,
{
    reveal_strlit("退出码 ");
    reveal_strlit("无退出码");
    let prefix = "退出码 "@;
    assert(prefix.len() == 4);
    assert("无退出码"@.len() == 4);
    if describe_exit_text(a) == describe_exit_text(b) {
        match (a, b) {
            (Some(x), Some(y)) => {
                let da = describe_exit_text(a);
                assert(da.subrange(4, da.len() as int) =~= signed_decimal(x as int));
                assert(describe_exit_text(b).subrange(4, da.len() as int) =~= signed_decimal(y as int));
                lemma_signed_decimal_injective(x as int, y as int);
            },
            (Some(x), None) => {
                lemma_signed_decimal_length(x as int);
            },
            (None, Some(y)) => {
                lemma_signed_decimal_length(y as int);
            },
            (None, None) => {},
        }
    }
}

/// An output line is skipped only when nothing but white space is in it: a
/// line with a character that is not white space, at any position, the
/// first and the last included, is not blank, and so it is logged.
pub proof fn line_with_visible_char_is_not_blank(line: Seq<char>, i: int)
    requires
        0 <= i < line.len(),
        !is_white_space(line[i]),
    ensures
        !is_blank_text(line),
        !is_blank_text(line.push('}')),
        !is_blank_text(seq![line[i]]),
{
    assert(line.push('}')[i] == line[i]);
    assert(seq![line[i]][0] == line[i]);
}

/// Blankness is what trimming white space from both ends shows: the empty
/// line is blank, adding white space to either end of a line leaves its
/// blankness as it was, and a line ending in a visible character is not
/// blank.
pub proof fn blank_is_what_trimming_empties(line: Seq<char>, c: char)
    ensures
        is_blank_text(Seq::<char>::empty()),
        is_white_space(c) ==> (is_blank_text(line.push(c)) <==> is_blank_text(line)),
        is_white_space(c) ==> (is_blank_text(seq![c] + line) <==> is_blank_text(line)),
        !is_white_space(c) ==> !is_blank_text(line.push(c)),
        !is_white_space(c) ==> !is_blank_text(seq![c] + line),
{
    let p = line.push(c);
    let q = seq![c] + line;
    assert(p[line.len() as int] == c);
    assert(q[0] == c);
    if is_blank_text(line) && is_white_space(c) {
        assert forall|i: int| 0 <= i < p.len() implies #[trigger] is_white_space(p[i]) by {
            if i < line.len() {
                assert(p[i] == line[i]);
            }
        }
        assert forall|i: int| 0 <= i < q.len() implies #[trigger] is_white_space(q[i]) by {
            if i > 0 {
                assert(q[i] == line[i - 1]);
            }
        }
    }
    if is_blank_text(p) {
        assert forall|i: int| 0 <= i < line.len() implies #[trigger] is_white_space(line[i]) by {
            assert(p[i] == line[i]);
        }
    }
    if is_blank_text(q) {
        assert forall|i: int| 0 <= i < line.len() implies #[trigger] is_white_space(line[i]) by {
            assert(q[i + 1] == line[i]);
        }
    }
}

/// A shell invocation keeps what it is given: the capture flag, the line to
/// run as the last argument, and the platform's shell and flag.
pub proof fn shell_line_keeps_its_inputs(windows: bool, line: Seq<char>, capture_output: bool)
    ensures
        shell_line(windows, line, capture_output).capture_output == capture_output,
        shell_line(windows, line, capture_output).args.len() == 2,
        shell_line(windows, line, capture_output).args[1] == line,
        shell_line(windows, line, capture_output).args[0]
            == (if windows { WINDOWS_SHELL_FLAG@ } else { UNIX_SHELL_FLAG@ }),
        shell_line(windows, line, capture_output).program
            == (if windows { WINDOWS_SHELL@ } else { UNIX_SHELL@ }),
{
}

/// On every platform the gateway is launched with its output piped back to
/// the log, and the dashboard with its output discarded.
pub proof fn gateway_output_is_captured_everywhere(windows: bool)
    ensures
        shell_line(
            windows,
            if windows { WINDOWS_GATEWAY_LINE@ } else { UNIX_GATEWAY_LINE@ },
            true,
        ).capture_output,
        !shell_line(
            windows,
            if windows { WINDOWS_DASHBOARD_LINE@ } else { UNIX_DASHBOARD_LINE@ },
            false,
        ).capture_output,
{
    shell_line_keeps_its_inputs(windows, if windows { WINDOWS_GATEWAY_LINE@ } else { UNIX_GATEWAY_LINE@ }, true);
    shell_line_keeps_its_inputs(windows, if windows { WINDOWS_DASHBOARD_LINE@ } else { UNIX_DASHBOARD_LINE@ }, false);
}

} // verus!
