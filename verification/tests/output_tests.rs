use multiping::output::{
    console_line, final_console_block, final_log_block, log_line, render_console_line,
    render_log_line, status, time_text,
};
use multiping::pinger::{ErrorKind, PingResult, Timestamp};

fn at(secs: i64) -> Timestamp {
    Timestamp { secs, nanos: 0 }
}

#[test]
fn status_of_a_success() {
    let r = PingResult::answered("a", at(0), 1);
    assert_eq!(status(&r), "Success");
}

#[test]
fn status_of_a_failure_is_its_description() {
    let r = PingResult::failed("a", at(0), 1, ErrorKind::Timeout, "Request timed out".to_string());
    assert_eq!(status(&r), "Request timed out");
}

#[test]
fn status_of_a_failure_without_description() {
    let r = PingResult {
        target: "a".to_string(),
        timestamp: at(0),
        success: false,
        rtt: 1,
        error_kind: Some(ErrorKind::Other),
        error_msg: None,
    };
    assert_eq!(status(&r), "Failed");
}

#[test]
fn rendered_lines() {
    assert_eq!(
        render_console_line("host", "2015-05-15 00:00:00", "Success", 12),
        "Target: host Time: 2015-05-15 00:00:00 Status: Success RTT: 12ms"
    );
    assert_eq!(
        render_log_line("host", "2015-05-15 00:00:00", "Success", 12),
        "host,2015-05-15 00:00:00,Success,12\n"
    );
}

#[test]
fn console_line_of_a_success() {
    let r = PingResult::answered("example.com", at(1_431_648_000), 12_345_678);
    assert_eq!(
        console_line(&r).unwrap(),
        "Target: example.com Time: 2015-05-15 00:00:00 Status: Success RTT: 12ms"
    );
}

#[test]
fn console_line_of_a_failure() {
    let r = PingResult::failed(
        "10.0.0.1",
        Timestamp { secs: 1_431_648_000 + 3661, nanos: 999_999_999 },
        1_000_000_000,
        ErrorKind::Timeout,
        "Connection timed out".to_string(),
    );
    assert_eq!(
        console_line(&r).unwrap(),
        "Target: 10.0.0.1 Time: 2015-05-15 01:01:01 Status: Connection timed out RTT: 1000ms"
    );
}

#[test]
fn log_line_of_a_result() {
    let r = PingResult::answered("example.com", at(0), 999_999);
    assert_eq!(log_line(&r).unwrap(), "example.com,1970-01-01 00:00:00,Success,0\n");
    let r = PingResult::failed(
        "h",
        at(86_399),
        2_000_000,
        ErrorKind::ConnectionRefused,
        "Connection refused".to_string(),
    );
    assert_eq!(log_line(&r).unwrap(), "h,1970-01-01 23:59:59,Connection refused,2\n");
}

#[test]
fn time_before_the_epoch() {
    let r = PingResult::answered("h", at(-1), 0);
    assert_eq!(log_line(&r).unwrap(), "h,1969-12-31 23:59:59,Success,0\n");
}

#[test]
fn time_out_of_range_gives_no_line() {
    let r = PingResult::answered("h", at(i64::MAX), 0);
    assert_eq!(console_line(&r), None);
    assert_eq!(log_line(&r), None);
    let r = PingResult::answered("h", Timestamp { secs: 0, nanos: u32::MAX }, 0);
    assert_eq!(console_line(&r), None);
    assert_eq!(log_line(&r), None);
}

#[test]
fn final_blocks() {
    assert_eq!(
        final_log_block("report"),
        "\n--- Final Statistics ---\nreport\n--- End of Statistics ---\n"
    );
    assert_eq!(final_log_block(""), "\n--- Final Statistics ---\n\n--- End of Statistics ---\n");
    assert_eq!(final_console_block("report"), "Final Statistics:\nreport");
}

#[test]
fn time_is_written_as_date_and_time_of_day() {
    assert_eq!(time_text(at(1_431_648_000)).unwrap(), "2015-05-15 00:00:00");
    assert_eq!(time_text(at(0)).unwrap(), "1970-01-01 00:00:00");
    assert_eq!(time_text(at(951_782_399)).unwrap(), "2000-02-28 23:59:59");
    assert_eq!(time_text(at(951_782_400)).unwrap(), "2000-02-29 00:00:00");
    assert_eq!(time_text(at(i64::MAX)), None);
}
