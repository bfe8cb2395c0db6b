use service_supervisor::audit::{current_timestamp, format_timestamp, termination_entry, Timestamp};
use service_supervisor::command::{launch_plan, terminate_plan};
use service_supervisor::digits::{pad2, pad3, pad4, parse_u32, u32_to_string};
use service_supervisor::errors::SupervisorError;

#[test]
fn termination_entry_exact() {
    let ts = Timestamp {
        year: 2024,
        month: 1,
        day: 2,
        hour: 3,
        minute: 4,
        second: 5,
        millisecond: 6,
    };
    let line = termination_entry(ts, 4242);
    assert_eq!(
        line,
        "2024-01-02 03:04:05,006 - INFO - Server stopped by closing the application | PID: 4242\n"
    );
    assert!(line.contains("PID: 4242"));
}

#[test]
fn timestamp_format_exact() {
    let ts = Timestamp {
        year: 2023,
        month: 12,
        day: 31,
        hour: 23,
        minute: 59,
        second: 59,
        millisecond: 999,
    };
    assert_eq!(format_timestamp(ts), "2023-12-31 23:59:59,999");
}

#[test]
fn timestamp_format_pads_small_fields() {
    let ts = Timestamp { year: 7, month: 2, day: 3, hour: 0, minute: 0, second: 0, millisecond: 0 };
    assert_eq!(format_timestamp(ts), "0007-02-03 00:00:00,000");
}

#[test]
fn current_timestamp_is_in_range() {
    let ts = current_timestamp();
    assert!(ts.year <= 9999);
    assert!((1..=12).contains(&ts.month));
    assert!((1..=31).contains(&ts.day));
    assert!(ts.hour <= 23);
    assert!(ts.minute <= 59);
    assert!(ts.second <= 59);
    assert!(ts.millisecond <= 999);
    assert!(ts.year >= 2020);
}

#[test]
fn launch_plan_windows() {
    let plan = launch_plan(true, "start_server.bat");
    assert_eq!(plan.program, "cmd");
    assert_eq!(plan.args, vec!["/C", "start_server.bat"]);
    assert_eq!(plan.working_dir.as_deref(), Some("src/script"));
}

#[test]
fn launch_plan_posix() {
    let plan = launch_plan(false, "./start_server.sh");
    assert_eq!(plan.program, "sh");
    assert_eq!(plan.args, vec!["-c", "./start_server.sh"]);
    assert_eq!(plan.working_dir.as_deref(), Some("src/script"));
}

#[test]
fn terminate_plan_windows() {
    let plan = terminate_plan(true, 4242);
    assert_eq!(plan.program, "taskkill");
    assert_eq!(plan.args, vec!["/PID", "4242", "/F"]);
    assert_eq!(plan.working_dir, None);
}

#[test]
fn terminate_plan_posix() {
    let plan = terminate_plan(false, 4242);
    assert_eq!(plan.program, "kill");
    assert_eq!(plan.args, vec!["-TERM", "4242"]);
    assert_eq!(plan.working_dir, None);
}

#[test]
fn decimal_rendering_exact() {
    assert_eq!(u32_to_string(0), "0");
    assert_eq!(u32_to_string(10), "10");
    assert_eq!(u32_to_string(4242), "4242");
    assert_eq!(u32_to_string(u32::MAX), "4294967295");
}

#[test]
fn padding_exact() {
    assert_eq!(pad2(3), "03");
    assert_eq!(pad2(42), "42");
    assert_eq!(pad3(7), "007");
    assert_eq!(pad3(1234), "1234");
    assert_eq!(pad4(7), "0007");
    assert_eq!(pad4(2024), "2024");
}

#[test]
fn parse_u32_inverse_of_rendering() {
    for n in [0u32, 1, 9, 10, 99, 100, 4242, u32::MAX] {
        assert_eq!(parse_u32(&u32_to_string(n)), Some(n));
    }
}

#[test]
fn parse_u32_rejects_bad_input() {
    assert_eq!(parse_u32(""), None);
    assert_eq!(parse_u32("12a"), None);
    assert_eq!(parse_u32("-1"), None);
    assert_eq!(parse_u32("4294967296"), None);
    assert_eq!(parse_u32("4294967295"), Some(u32::MAX));
}

#[test]
fn error_messages() {
    assert_eq!(SupervisorError::NotFound.message(), "handshake file not found");
    assert_eq!(SupervisorError::MalformedContent.message(), "handshake file is malformed");
    assert_eq!(SupervisorError::SpawnFailed.message(), "failed to start the service");
    assert_eq!(
        SupervisorError::TerminateFailed.message(),
        "failed to run the termination command"
    );
    assert_eq!(SupervisorError::DeleteFailed.message(), "failed to remove the handshake file");
    assert_eq!(
        SupervisorError::LogWriteFailed.message(),
        "failed to write the audit log entry"
    );
}
