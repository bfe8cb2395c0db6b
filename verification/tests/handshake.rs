use service_supervisor::errors::SupervisorError;
use service_supervisor::handshake::parse_handshake;
use service_supervisor::lifecycle::get_server_url;

#[test]
fn round_trip_url_first() {
    let info = parse_handshake("url=http://127.0.0.1:8721\npid=4242").unwrap();
    assert_eq!(info.url, "http://127.0.0.1:8721");
    assert_eq!(info.pid, 4242);
}

#[test]
fn round_trip_pid_first() {
    let info = parse_handshake("pid=7\nurl=http://localhost:9000").unwrap();
    assert_eq!(info.url, "http://localhost:9000");
    assert_eq!(info.pid, 7);
}

#[test]
fn trailing_newline_tolerated() {
    let info = parse_handshake("url=http://a\npid=1\n").unwrap();
    assert_eq!(info.url, "http://a");
    assert_eq!(info.pid, 1);
}

#[test]
fn extra_and_reordered_lines_tolerated() {
    let info = parse_handshake("note=hello\npid=31\nsomething\nurl=http://b").unwrap();
    assert_eq!(info.url, "http://b");
    assert_eq!(info.pid, 31);
}

#[test]
fn url_value_may_contain_equals() {
    let info = parse_handshake("url=http://a?x=1\npid=2").unwrap();
    assert_eq!(info.url, "http://a?x=1");
}

#[test]
fn pid_with_leading_zeros() {
    let info = parse_handshake("url=a\npid=0042").unwrap();
    assert_eq!(info.pid, 42);
}

#[test]
fn pid_at_u32_max() {
    let info = parse_handshake("url=a\npid=4294967295").unwrap();
    assert_eq!(info.pid, u32::MAX);
}

#[test]
fn missing_pid_is_malformed() {
    let r = parse_handshake("url=http://a");
    assert_eq!(r.unwrap_err(), SupervisorError::MalformedContent);
}

#[test]
fn missing_url_is_malformed() {
    let r = parse_handshake("pid=42");
    assert_eq!(r.unwrap_err(), SupervisorError::MalformedContent);
}

#[test]
fn non_numeric_pid_is_malformed() {
    let r = parse_handshake("url=a\npid=12x4");
    assert_eq!(r.unwrap_err(), SupervisorError::MalformedContent);
}

#[test]
fn empty_pid_is_malformed() {
    let r = parse_handshake("url=a\npid=");
    assert_eq!(r.unwrap_err(), SupervisorError::MalformedContent);
}

#[test]
fn negative_pid_is_malformed() {
    let r = parse_handshake("url=a\npid=-5");
    assert_eq!(r.unwrap_err(), SupervisorError::MalformedContent);
}

#[test]
fn overflowing_pid_is_malformed() {
    let r = parse_handshake("url=a\npid=4294967296");
    assert_eq!(r.unwrap_err(), SupervisorError::MalformedContent);
}

#[test]
fn empty_content_is_malformed() {
    let r = parse_handshake("");
    assert_eq!(r.unwrap_err(), SupervisorError::MalformedContent);
}

#[test]
fn query_returns_exact_url() {
    let r = get_server_url(Some("url=http://127.0.0.1:8721\npid=4242"));
    assert_eq!(r.unwrap(), "http://127.0.0.1:8721");
}

#[test]
fn query_without_file_is_not_found() {
    let r = get_server_url(None);
    assert_eq!(r.unwrap_err(), SupervisorError::NotFound);
}

#[test]
fn query_on_garbage_is_malformed() {
    let r = get_server_url(Some("complete nonsense"));
    assert_eq!(r.unwrap_err(), SupervisorError::MalformedContent);
}
