use openclaw_gui::process::{stop_after_kill_at, stop_gateway_process_at};
use openclaw_gui::gateway::{GatewayState, StartBegin, StopBegin};
use openclaw_gui::model::{
    GatewayEvent, GatewayExitInfo, GatewayProcess, GatewayStatus, ProcessExit, GATEWAY_COMMAND_LABEL,
    GATEWAY_LOG_EVENT, GATEWAY_STATE_EVENT, LOG_LIMIT,
};
use openclaw_gui::process::{stop_after_kill, stop_gateway_process, StopReport, StopStep};

fn started(pid: u32) -> GatewayState {
    let mut g = GatewayState::new();
    let reply = g.finish_start(Ok(pid));
    assert!(reply.result.is_ok());
    g
}

#[test]
fn new_gateway_is_stopped_and_empty() {
    let g = GatewayState::new();
    let snap = g.snapshot();
    assert_eq!(snap.state.command, GATEWAY_COMMAND_LABEL);
    assert_eq!(snap.state.status, GatewayStatus::Stopped);
    assert_eq!(snap.state.pid, None);
    assert_eq!(snap.state.started_at_ms, None);
    assert_eq!(snap.state.last_error, None);
    assert_eq!(snap.state.last_exit, None);
    assert!(snap.logs.is_empty());
    assert_eq!(g.log_sequence(), 0);
    assert!(!g.is_running());
    assert_eq!(GatewayStatus::default(), GatewayStatus::Stopped);
}

#[test]
fn successful_start_runs_and_logs() {
    let mut g = GatewayState::new();
    assert!(matches!(g.begin_start(), StartBegin::Spawn));
    let reply = g.finish_start(Ok(4242));
    let snap = reply.result.expect("start succeeds");
    assert_eq!(snap.state.status, GatewayStatus::Running);
    assert_eq!(snap.state.pid, Some(4242));
    assert!(snap.state.started_at_ms.is_some());
    assert_eq!(snap.state.last_error, None);
    assert_eq!(snap.logs.len(), 1);
    assert_eq!(snap.logs[0].id, 1);
    assert_eq!(snap.logs[0].stream, "system");
    assert_eq!(snap.logs[0].message, "已启动网关进程，PID 4242。");
    assert_eq!(reply.events.len(), 2);
    assert_eq!(reply.events[0].name(), GATEWAY_LOG_EVENT);
    assert_eq!(reply.events[1].name(), GATEWAY_STATE_EVENT);
    match &reply.events[0] {
        GatewayEvent::Log(e) => assert_eq!(e.message, "已启动网关进程，PID 4242。"),
        _ => panic!("first event is the log entry"),
    }
    match &reply.events[1] {
        GatewayEvent::State(p) => assert_eq!(p.pid, Some(4242)),
        _ => panic!("second event is the state"),
    }
}

#[test]
fn failed_start_records_error() {
    let mut g = GatewayState::new();
    let reply = g.finish_start(Err("No such file or directory (os error 2)".to_string()));
    let expected = "启动 `openclaw gateway` 失败: No such file or directory (os error 2)";
    assert_eq!(reply.result.unwrap_err(), expected);
    let snap = g.snapshot();
    assert_eq!(snap.state.status, GatewayStatus::Stopped);
    assert_eq!(snap.state.last_error.as_deref(), Some(expected));
    assert_eq!(snap.logs.len(), 1);
    assert_eq!(snap.logs[0].message, expected);
    assert_eq!(reply.events.len(), 2);
}

#[test]
fn start_while_running_changes_nothing() {
    let g = started(7);
    match g.begin_start() {
        StartBegin::AlreadyRunning(snap) => {
            assert_eq!(snap.state.pid, Some(7));
            assert_eq!(snap.logs.len(), 1);
        }
        StartBegin::Spawn => panic!("a running gateway is not spawned again"),
    }
    assert_eq!(g.log_sequence(), 1);
}

#[test]
fn stop_while_stopped_changes_nothing() {
    let mut g = GatewayState::new();
    match g.begin_stop() {
        StopBegin::NotRunning(snap) => {
            assert_eq!(snap.state.status, GatewayStatus::Stopped);
            assert!(snap.logs.is_empty());
        }
        StopBegin::Stop(_) => panic!("nothing to stop"),
    }
    assert_eq!(g.log_sequence(), 0);
}

#[test]
fn stop_of_running_process_by_kill() {
    let mut g = started(99);
    let process = match g.begin_stop() {
        StopBegin::Stop(p) => p,
        StopBegin::NotRunning(_) => panic!("the gateway runs"),
    };
    assert_eq!(process.pid, 99);
    assert!(!g.is_running());
    assert!(matches!(stop_gateway_process(Ok(None)), StopStep::KillAndWait));
    let report = stop_after_kill(&process, Ok(ProcessExit { code: None, success: false }));
    assert_eq!(report.log_message, "已停止网关进程，PID 99。");
    assert_eq!(report.last_error, None);
    let reply = g.finish_stop(report);
    let snap = reply.result.expect("a killed process stops cleanly");
    assert_eq!(snap.state.status, GatewayStatus::Stopped);
    assert_eq!(snap.state.last_exit.map(|e| e.code), Some(None));
    assert_eq!(snap.logs.len(), 2);
    assert_eq!(snap.logs[1].message, "已停止网关进程，PID 99。");
    assert_eq!(reply.events.len(), 2);
}

#[test]
fn stop_of_failed_exit_reports_error() {
    let mut g = started(5);
    let _ = g.begin_stop();
    let report = match stop_gateway_process(Ok(Some(ProcessExit { code: Some(3), success: false }))) {
        StopStep::Finished(r) => r,
        StopStep::KillAndWait => panic!("the process had exited"),
    };
    assert_eq!(report.log_message, "网关进程已停止（退出码 3）。");
    assert_eq!(report.last_error.as_deref(), Some("网关进程已退出（退出码 3）。"));
    let reply = g.finish_stop(report);
    assert_eq!(reply.result.unwrap_err(), "网关进程已退出（退出码 3）。");
    let snap = g.snapshot();
    assert_eq!(snap.state.last_error.as_deref(), Some("网关进程已退出（退出码 3）。"));
    assert_eq!(snap.state.last_exit.map(|e| (e.code, e.success)), Some((Some(3), false)));
}

#[test]
fn stop_of_cleanly_exited_process() {
    let report = match stop_gateway_process(Ok(Some(ProcessExit { code: Some(0), success: true }))) {
        StopStep::Finished(r) => r,
        StopStep::KillAndWait => panic!("the process had exited"),
    };
    assert_eq!(report.log_message, "网关进程已经停止。");
    assert_eq!(report.last_error, None);
    assert_eq!(report.last_exit.map(|e| e.success), Some(true));
}

#[test]
fn stop_with_failed_check_or_wait() {
    let report = match stop_gateway_process(Err("denied".to_string())) {
        StopStep::Finished(r) => r,
        StopStep::KillAndWait => panic!("the check failed"),
    };
    assert_eq!(report.log_message, "检查网关进程状态失败: denied");
    assert_eq!(report.last_error.as_deref(), Some("检查网关进程状态失败: denied"));
    assert_eq!(report.last_exit, None);
    let p = GatewayProcess { pid: 1, started_at_ms: 0 };
    let report = stop_after_kill(&p, Err("interrupted".to_string()));
    assert_eq!(report.log_message, "停止网关进程失败: interrupted");
    assert_eq!(report.last_error.as_deref(), Some("停止网关进程失败: interrupted"));
}

#[test]
fn restart_logs_stop_notice_and_start() {
    let mut g = started(10);
    let process = match g.begin_stop() {
        StopBegin::Stop(p) => p,
        StopBegin::NotRunning(_) => panic!("the gateway runs"),
    };
    let report = stop_after_kill(&process, Ok(ProcessExit { code: Some(0), success: true }));
    let _ = g.finish_stop(report);
    let notice = g.announce_restart();
    assert_eq!(notice.events.len(), 1);
    assert!(matches!(g.begin_start(), StartBegin::Spawn));
    let reply = g.finish_start(Ok(11));
    let snap = reply.result.expect("restart starts again");
    assert_eq!(snap.state.pid, Some(11));
    let messages: Vec<&str> = snap.logs.iter().map(|e| e.message.as_str()).collect();
    assert_eq!(
        messages,
        vec!["已启动网关进程，PID 10。", "已停止网关进程，PID 10。", "正在重新启动网关进程。", "已启动网关进程，PID 11。"]
    );
    let ids: Vec<u64> = snap.logs.iter().map(|e| e.id).collect();
    assert_eq!(ids, vec![1, 2, 3, 4]);
}

#[test]
fn sync_exit_is_ignored_when_stopped_or_still_running() {
    let mut g = GatewayState::new();
    let reply = g.sync_process_exit(Ok(Some(ProcessExit { code: Some(1), success: false })));
    assert!(reply.events.is_empty());
    assert_eq!(g.log_sequence(), 0);
    let mut g = started(3);
    let reply = g.sync_process_exit(Ok(None));
    assert!(reply.events.is_empty());
    assert!(g.is_running());
    assert_eq!(g.log_sequence(), 1);
}

#[test]
fn sync_records_clean_and_failed_exits() {
    let mut g = started(3);
    let reply = g.sync_process_exit(Ok(Some(ProcessExit { code: Some(0), success: true })));
    assert_eq!(reply.events.len(), 2);
    let snap = g.snapshot();
    assert_eq!(snap.state.status, GatewayStatus::Stopped);
    assert_eq!(snap.state.last_error, None);
    assert_eq!(snap.logs.last().unwrap().message, "网关进程已退出。");

    let mut g = started(3);
    let _ = g.sync_process_exit(Ok(Some(ProcessExit { code: None, success: false })));
    let snap = g.snapshot();
    assert_eq!(snap.state.last_error.as_deref(), Some("网关进程已退出（无退出码）。"));
    assert_eq!(snap.logs.last().unwrap().message, "网关进程异常退出（无退出码）。");

    let mut g = started(3);
    let _ = g.sync_process_exit(Err("检查网关进程状态失败: gone".to_string()));
    let snap = g.snapshot();
    assert_eq!(snap.state.status, GatewayStatus::Stopped);
    assert_eq!(snap.state.last_exit, None);
    assert_eq!(snap.state.last_error.as_deref(), Some("检查网关进程状态失败: gone"));
    assert_eq!(snap.logs.last().unwrap().message, "检查网关进程状态失败: gone");
}

#[test]
fn output_lines_are_logged_unless_blank() {
    let mut g = GatewayState::new();
    let r = g.record_output_line("stdout", Ok("listening on 18789".to_string()));
    assert!(r.result);
    assert_eq!(r.events.len(), 1);
    let r = g.record_output_line("stdout", Ok(" \t ".to_string()));
    assert!(r.result);
    assert!(r.events.is_empty());
    let r = g.record_output_line("stderr", Err("stream did not contain valid UTF-8".to_string()));
    assert!(!r.result);
    let snap = g.snapshot();
    assert_eq!(snap.logs.len(), 2);
    assert_eq!(snap.logs[0].stream, "stdout");
    assert_eq!(snap.logs[0].message, "listening on 18789");
    assert_eq!(snap.logs[1].stream, "system");
    assert_eq!(snap.logs[1].message, "读取 stderr 日志失败: stream did not contain valid UTF-8");
}

#[test]
fn dashboard_launch_is_logged() {
    let mut g = GatewayState::new();
    let r = g.record_dashboard_launch(Ok(()));
    assert!(r.result.is_ok());
    let r = g.record_dashboard_launch(Err("not found".to_string()));
    assert_eq!(r.result.unwrap_err(), "执行 `openclaw dashboard` 失败: not found");
    let snap = g.snapshot();
    assert_eq!(snap.logs[0].message, "已执行 `openclaw dashboard`。");
    assert_eq!(snap.logs[1].message, "执行 `openclaw dashboard` 失败: not found");
}

#[test]
fn log_keeps_the_newest_entries_up_to_the_limit() {
    let mut g = GatewayState::new();
    for i in 0..(LOG_LIMIT + 5) {
        let r = g.record_output_line("stdout", Ok(format!("line {i}")));
        assert!(r.result);
    }
    let snap = g.snapshot();
    assert_eq!(snap.logs.len(), LOG_LIMIT);
    assert_eq!(snap.logs[0].id, 6);
    assert_eq!(snap.logs[0].message, "line 5");
    assert_eq!(snap.logs[LOG_LIMIT - 1].id, (LOG_LIMIT + 5) as u64);
    for w in snap.logs.windows(2) {
        assert_eq!(w[0].id + 1, w[1].id);
    }
    assert_eq!(g.log_sequence(), (LOG_LIMIT + 5) as u64);
}

#[test]
fn state_payload_matches_snapshot() {
    let g = started(21);
    let p = g.state_payload();
    let s = g.snapshot();
    assert_eq!(p.pid, s.state.pid);
    assert_eq!(p.status, s.state.status);
    let copy = p.clone();
    assert_eq!(copy.started_at_ms, p.started_at_ms);
    let e = GatewayExitInfo { at_ms: 1, code: Some(2), success: false };
    assert_eq!(e, e.clone());
}

#[test]
fn timestamps_come_from_the_given_readings() {
    let mut g = GatewayState::new();
    let entry = g.push_log_at("stdout", "hello".to_string(), 111);
    assert_eq!((entry.id, entry.timestamp_ms), (1, 111));
    let reply = g.finish_start_at(Ok(42), 200, 201);
    let snap = reply.result.expect("start succeeds");
    assert_eq!(snap.state.started_at_ms, Some(200));
    assert_eq!(snap.logs[1].timestamp_ms, 201);
    let process = match g.begin_stop() {
        StopBegin::Stop(p) => p,
        StopBegin::NotRunning(_) => panic!("the gateway runs"),
    };
    assert_eq!(process, GatewayProcess { pid: 42, started_at_ms: 200 });
    let report = stop_after_kill_at(&process, Ok(ProcessExit { code: None, success: false }), 300);
    assert_eq!(report.last_exit, Some(GatewayExitInfo { at_ms: 300, code: None, success: false }));
    let reply = g.finish_stop_at(report, 301);
    assert!(reply.result.is_ok());
    assert_eq!(g.snapshot().logs[2].timestamp_ms, 301);
    match stop_gateway_process_at(Ok(Some(ProcessExit { code: Some(0), success: true })), 400) {
        StopStep::Finished(r) => {
            assert_eq!(r.last_exit, Some(GatewayExitInfo { at_ms: 400, code: Some(0), success: true }))
        }
        StopStep::KillAndWait => panic!("the process had exited"),
    }
    let _ = g.announce_restart_at(500);
    let _ = g.record_output_line_at("stderr", Ok("warn".to_string()), 600);
    let _ = g.record_dashboard_launch_at(Ok(()), 700);
    let stamps: Vec<u64> = g.snapshot().logs.iter().map(|e| e.timestamp_ms).collect();
    assert_eq!(stamps, vec![111, 201, 301, 500, 600, 700]);

    let mut g = GatewayState::new();
    let _ = g.finish_start_at(Ok(1), 10, 11);
    let _ = g.sync_process_exit_at(Ok(Some(ProcessExit { code: Some(2), success: false })), 20, 21);
    let snap = g.snapshot();
    assert_eq!(snap.state.last_exit, Some(GatewayExitInfo { at_ms: 20, code: Some(2), success: false }));
    assert_eq!(snap.logs.last().unwrap().timestamp_ms, 21);
}
