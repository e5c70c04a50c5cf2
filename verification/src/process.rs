use vstd::prelude::*;
use vstd::string::*;
use crate::clock::now_ms;
use crate::model::{GatewayExitInfo, GatewayProcess, ProcessExit, opt_text};
use crate::text::{i32_to_decimal, u64_to_decimal, decimal, signed_decimal};

verus! {

/// `a`, then `b`, then `c`, as one text.
pub fn concat3(a: &str, b: &str, c: &str) -> (s: String)
    ensures
        s@ == a@ + b@ + c@,
{
    let mut s = String::from_str(a);
    s.append(b);
    s.append(c);
    s
}

/// How an exit is described: its exit code, or that it had none.
pub open spec fn describe_exit_text(code: Option<i32>) -> Seq<char> {
    match code {
        Some(c) => "退出码 "@ + signed_decimal(c as int),
        None => "无退出码"@,
    }
}

/// The error that an unsuccessful exit leaves behind.
pub open spec fn exited_error_text(code: Option<i32>) -> Seq<char> {
    "网关进程已退出（"@ + describe_exit_text(code) + "）。"@
}

/// The message for a failure to ask the process whether it has exited.
pub open spec fn probe_failure_text(error: Seq<char>) -> Seq<char> {
    "检查网关进程状态失败: "@ + error
}

/// The message for a failure to wait for the killed process.
pub open spec fn kill_failure_text(error: Seq<char>) -> Seq<char> {
    "停止网关进程失败: "@ + error
}

/// The message logged once the process was killed and reaped.
pub open spec fn killed_text(pid: u32) -> Seq<char> {
    "已停止网关进程，PID "@ + decimal(pid as nat) + "。"@
}

/// The message logged when a stop finds that the process had already exited.
pub open spec fn already_stopped_text(exit: GatewayExitInfo) -> Seq<char> {
    if exit.success {
        "网关进程已经停止。"@
    } else {
        "网关进程已停止（"@ + describe_exit_text(exit.code) + "）。"@
    }
}

/// Records an exit of the gateway process observed at `now`.
pub fn exit_info_at(status: ProcessExit, now: u64) -> (info: GatewayExitInfo)
    requires
        status.valid(),
    ensures
        info == (GatewayExitInfo { at_ms: now, code: status.code, success: status.success }),
        info.success == (info.code == Some(0i32)),
{
    GatewayExitInfo { at_ms: now, code: status.code, success: status.success }
}

/// Records an exit of the gateway process, stamped with the current time.
pub fn exit_info(status: ProcessExit) -> (info: GatewayExitInfo)
    requires
        status.valid(),
    ensures
        info.code == status.code,
        info.success == status.success,
        info.success == (info.code == Some(0i32)),
{
    exit_info_at(status, now_ms())
}

/// Describes an exit for a message: `退出码 <code>` or `无退出码`.
pub fn describe_exit(info: &GatewayExitInfo) -> (s: String)
    ensures
        s@ == describe_exit_text(info.code),
{
    match info.code {
        Some(code) => {
            let digits = i32_to_decimal(code);
            let mut s = String::from_str("退出码 ");
            s.append(digits.as_str());
            s
        },
        None => String::from_str("无退出码"),
    }
}

/// The error text that an unsuccessful exit leaves behind.
pub fn exited_error(info: &GatewayExitInfo) -> (s: String)
    ensures
        s@ == exited_error_text(info.code),
{
    let d = describe_exit(info);
    concat3("网关进程已退出（", d.as_str(), "）。")
}

/// The message for a failure to ask whether the process has exited.
pub fn probe_failure_message(error: &str) -> (s: String)
    ensures
        s@ == probe_failure_text(error@),
{
    let mut s = String::from_str("检查网关进程状态失败: ");
    s.append(error);
    s
}

/// What stopping the gateway process came to: the exit to record, the error
/// to record, and the message to log.
#[derive(Debug)]
pub struct StopReport {
    pub last_exit: Option<GatewayExitInfo>,
    pub last_error: Option<String>,
    pub log_message: String,
}

/// The mathematical value of a stop report.
pub struct StopReportView {
    pub last_exit: Option<GatewayExitInfo>,
    pub last_error: Option<Seq<char>>,
    pub log_message: Seq<char>,
}

impl View for StopReport {
    type V = StopReportView;

    open spec fn view(&self) -> StopReportView {
        StopReportView {
            last_exit: self.last_exit,
            last_error: opt_text(self.last_error),
            log_message: self.log_message@,
        }
    }
}

/// The report of a stop that found the process already exited.
pub open spec fn report_already_exited(exit: GatewayExitInfo) -> StopReportView {
    StopReportView {
        last_exit: Some(exit),
        last_error: if exit.success { None } else { Some(exited_error_text(exit.code)) },
        log_message: already_stopped_text(exit),
    }
}

/// The report of a stop whose check or wait failed with `message`.
pub open spec fn report_failed(message: Seq<char>) -> StopReportView {
    StopReportView { last_exit: None, last_error: Some(message), log_message: message }
}

/// The report of a stop that killed the process and reaped its exit.
pub open spec fn report_killed(pid: u32, exit: GatewayExitInfo) -> StopReportView {
    StopReportView { last_exit: Some(exit), last_error: None, log_message: killed_text(pid) }
}

/// The next step in stopping the gateway process.
#[derive(Debug)]
pub enum StopStep {
    /// Stopping is over; this is what it came to.
    Finished(StopReport),
    /// The process still runs: kill it, wait for it, and hand the outcome of
    /// the wait to `stop_after_kill`.
    KillAndWait,
}

/// Decides how to stop the gateway process, at time `now`, from the answer
/// to "has it exited yet?" (`Ok(Some(exit))`: yes; `Ok(None)`: no; `Err`: the check
/// failed, with the error's text).
pub fn stop_gateway_process_at(probe: Result<Option<ProcessExit>, String>, now: u64) -> (step: StopStep)
    requires
        probe matches Ok(Some(status)) ==> status.valid(),
    ensures
        match probe {
            Ok(Some(status)) => step matches StopStep::Finished(rep)
                && rep@ == report_already_exited(
                GatewayExitInfo { at_ms: now, code: status.code, success: status.success },
            ),
            Ok(None) => step is KillAndWait,
            Err(e) => step matches StopStep::Finished(rep)
                && rep@ == report_failed(probe_failure_text(e@)),
        },
{
    match probe {
        Ok(Some(status)) => {
            let info = exit_info_at(status, now);
            let log_message = if info.success {
                String::from_str("网关进程已经停止。")
            } else {
                let d = describe_exit(&info);
                concat3("网关进程已停止（", d.as_str(), "）。")
            };
            let last_error = if info.success {
                None
            } else {
                Some(exited_error(&info))
            };
            StopStep::Finished(StopReport { last_exit: Some(info), last_error, log_message })
        },
        Ok(None) => StopStep::KillAndWait,
        Err(e) => {
            let message = probe_failure_message(e.as_str());
            let last_error = Some(message.clone());
            StopStep::Finished(StopReport { last_exit: None, last_error, log_message: message })
        },
    }
}

/// Decides how to stop the gateway process from the answer to "has it
/// exited yet?" (`Ok(Some(exit))`: yes; `Ok(None)`: no; `Err`: the check
/// failed, with the error's text); an exit is stamped with the current time.
pub fn stop_gateway_process(probe: Result<Option<ProcessExit>, String>) -> (step: StopStep)
    requires
        probe matches Ok(Some(status)) ==> status.valid(),
    ensures
        match probe {
            Ok(Some(status)) => step matches StopStep::Finished(rep)
                && rep.last_exit matches Some(info)
                && info.code == status.code
                && info.success == status.success
                && rep@ == report_already_exited(info),
            Ok(None) => step is KillAndWait,
            Err(e) => step matches StopStep::Finished(rep)
                && rep@ == report_failed(probe_failure_text(e@)),
        },
{
    stop_gateway_process_at(probe, now_ms())
}

/// Completes a stop, at time `now`, after the process was killed, from the
/// outcome of waiting for it (`Ok(exit)`, or `Err` with the error's text).
pub fn stop_after_kill_at(runtime: &GatewayProcess, waited: Result<ProcessExit, String>, now: u64) -> (rep: StopReport)
    requires
        waited matches Ok(status) ==> status.valid(),
    ensures
        match waited {
            Ok(status) => rep@ == report_killed(
                runtime.pid,
                GatewayExitInfo { at_ms: now, code: status.code, success: status.success },
            ),
            Err(e) => rep@ == report_failed(kill_failure_text(e@)),
        },
{
    match waited {
        Ok(status) => {
            let info = exit_info_at(status, now);
            let digits = u64_to_decimal(runtime.pid as u64);
            let log_message = concat3("已停止网关进程，PID ", digits.as_str(), "。");
            StopReport { last_exit: Some(info), last_error: None, log_message }
        },
        Err(e) => {
            let mut message = String::from_str("停止网关进程失败: ");
            message.append(e.as_str());
            let last_error = Some(message.clone());
            StopReport { last_exit: None, last_error, log_message: message }
        },
    }
}

/// Completes a stop after the process was killed, from the outcome of waiting
/// for it (`Ok(exit)`, or `Err` with the error's text); the exit is stamped
/// with the current time.
pub fn stop_after_kill(runtime: &GatewayProcess, waited: Result<ProcessExit, String>) -> (rep: StopReport)
    requires
        waited matches Ok(status) ==> status.valid(),
    ensures
        match waited {
            Ok(status) => rep.last_exit matches Some(info)
                && info.code == status.code
                && info.success == status.success
                && rep@ == report_killed(runtime.pid, info),
            Err(e) => rep@ == report_failed(kill_failure_text(e@)),
        },
{
    stop_after_kill_at(runtime, waited, now_ms())
}

} // verus!
