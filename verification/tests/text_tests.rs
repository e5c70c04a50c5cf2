use openclaw_gui::clock::millis_to_u64;
use openclaw_gui::text::char_is_whitespace;
use openclaw_gui::process::exit_info_at;
use openclaw_gui::clock::now_ms;
use openclaw_gui::model::{GatewayExitInfo, ProcessExit};
use openclaw_gui::process::{describe_exit, exit_info, exited_error, probe_failure_message};
use openclaw_gui::text::{i32_to_decimal, is_blank, text_equals, u64_to_decimal};

#[test]
fn decimal_text_of_integers() {
    assert_eq!(u64_to_decimal(0), "0");
    assert_eq!(u64_to_decimal(7), "7");
    assert_eq!(u64_to_decimal(4242), "4242");
    assert_eq!(u64_to_decimal(u64::MAX), u64::MAX.to_string());
    assert_eq!(i32_to_decimal(0), "0");
    assert_eq!(i32_to_decimal(-1), "-1");
    assert_eq!(i32_to_decimal(127), "127");
    assert_eq!(i32_to_decimal(i32::MIN), "-2147483648");
    assert_eq!(i32_to_decimal(i32::MAX), "2147483647");
}

#[test]
fn exits_are_described() {
    let with_code = GatewayExitInfo { at_ms: 0, code: Some(127), success: false };
    assert_eq!(describe_exit(&with_code), "退出码 127");
    let signalled = GatewayExitInfo { at_ms: 0, code: None, success: false };
    assert_eq!(describe_exit(&signalled), "无退出码");
    let negative = GatewayExitInfo { at_ms: 0, code: Some(-9), success: false };
    assert_eq!(describe_exit(&negative), "退出码 -9");
    assert_eq!(exited_error(&with_code), "网关进程已退出（退出码 127）。");
    assert_eq!(probe_failure_message("boom"), "检查网关进程状态失败: boom");
}

#[test]
fn exit_info_keeps_code_and_success() {
    let before = now_ms();
    let info = exit_info(ProcessExit { code: Some(2), success: false });
    assert_eq!(info.code, Some(2));
    assert!(!info.success);
    assert!(info.at_ms >= before);
}

#[test]
fn clock_reads_after_the_epoch() {
    assert!(now_ms() > 1_600_000_000_000);
}

#[test]
fn blank_text_is_all_white_space() {
    assert!(is_blank(""));
    assert!(is_blank(" \t\r\n"));
    assert!(is_blank("\u{3000}\u{00a0}"));
    assert!(!is_blank(" a "));
    assert!(!is_blank("网关"));
}

#[test]
fn texts_compare_by_characters() {
    assert!(text_equals("tray.show", "tray.show"));
    assert!(!text_equals("tray.show", "tray.shown"));
    assert!(!text_equals("tray.stop", "tray.start"));
    assert!(text_equals("", ""));
}

#[test]
fn clock_reading_to_milliseconds() {
    assert_eq!(millis_to_u64(None), 0);
    assert_eq!(millis_to_u64(Some(1_700_000_000_123)), 1_700_000_000_123);
    assert_eq!(millis_to_u64(Some(u64::MAX as u128 + 5)), 4);
}

#[test]
fn white_space_agrees_with_std_on_every_char() {
    for v in 0u32..=0x10ffff {
        if let Some(c) = char::from_u32(v) {
            assert_eq!(char_is_whitespace(c), c.is_whitespace(), "U+{v:04X}");
        }
    }
}

#[test]
fn exit_at_a_given_time() {
    let info = exit_info_at(ProcessExit { code: Some(0), success: true }, 1234);
    assert_eq!(info, GatewayExitInfo { at_ms: 1234, code: Some(0), success: true });
}

#[test]
fn distinct_codes_are_described_apart() {
    let d = |code: Option<i32>| describe_exit(&GatewayExitInfo { at_ms: 0, code, success: false });
    assert_ne!(d(Some(1)), d(Some(-1)));
    assert_ne!(d(Some(10)), d(Some(1)));
    assert_ne!(d(None), d(Some(0)));
    assert_eq!(d(Some(12)), d(Some(12)));
}
