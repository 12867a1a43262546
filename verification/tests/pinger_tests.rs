use multiping::pinger::{
    classify_failure, ErrorKind, IcmpOutcome, IcmpPinger, IoFailure, PingResult, TcpOutcome,
    TcpPinger, Timestamp, DEFAULT_TCP_PORT, PROBE_TIMEOUT_SECS,
};

fn at() -> Timestamp {
    Timestamp { secs: 1_431_648_000, nanos: 500 }
}

fn failure_of(result: &PingResult) -> (ErrorKind, String) {
    assert!(!result.success);
    (result.error_kind.unwrap(), result.error_msg.clone().unwrap())
}

const ALL_FAILURES: [IoFailure; 7] = [
    IoFailure::Refused,
    IoFailure::Reset,
    IoFailure::NetworkUnreachable,
    IoFailure::HostUnreachable,
    IoFailure::TimedOut,
    IoFailure::WouldBlock,
    IoFailure::Other,
];

#[test]
fn constants() {
    assert_eq!(PROBE_TIMEOUT_SECS, 1);
    assert_eq!(DEFAULT_TCP_PORT, 80);
}

#[test]
fn failure_kinds_have_their_classes() {
    assert_eq!(classify_failure(IoFailure::Refused), ErrorKind::ConnectionRefused);
    assert_eq!(classify_failure(IoFailure::Reset), ErrorKind::ConnectionReset);
    assert_eq!(classify_failure(IoFailure::NetworkUnreachable), ErrorKind::NetworkUnreachable);
    assert_eq!(classify_failure(IoFailure::HostUnreachable), ErrorKind::HostUnreachable);
    assert_eq!(classify_failure(IoFailure::TimedOut), ErrorKind::Timeout);
    assert_eq!(classify_failure(IoFailure::WouldBlock), ErrorKind::Timeout);
    assert_eq!(classify_failure(IoFailure::Other), ErrorKind::Other);
}

#[test]
fn tcp_target_without_port_gets_port_80() {
    let tcp = TcpPinger::new();
    assert_eq!(tcp.address("example.com"), "example.com:80");
    assert_eq!(tcp.address("10.0.0.1"), "10.0.0.1:80");
    assert_eq!(tcp.address(""), ":80");
    assert_eq!(tcp.address("80"), "80:80");
}

#[test]
fn tcp_target_with_port_is_kept() {
    let tcp = TcpPinger::new();
    assert_eq!(tcp.address("example.com:443"), "example.com:443");
    assert_eq!(tcp.address("10.0.0.1:8080"), "10.0.0.1:8080");
    assert_eq!(tcp.address("[::1]:22"), "[::1]:22");
    assert_eq!(tcp.address("[2001:db8::1]:443"), "[2001:db8::1]:443");
    assert_eq!(tcp.address(":80"), ":80");
    assert!(tcp.has_port("example.com:443"));
    assert!(tcp.has_port("[::1]:22"));
    assert!(tcp.has_port("h:0"));
}

#[test]
fn tcp_bare_address_with_colons_gets_brackets_and_port_80() {
    let tcp = TcpPinger::new();
    assert_eq!(tcp.address("::1"), "[::1]:80");
    assert_eq!(tcp.address("2001:db8::1"), "[2001:db8::1]:80");
    assert_eq!(tcp.address("fe80::1"), "[fe80::1]:80");
    assert_eq!(tcp.address("::"), "[::]:80");
    assert!(!tcp.has_port("::1"));
    assert!(!tcp.has_port("2001:db8::1"));
}

#[test]
fn tcp_bracketed_address_without_port_gets_port_80() {
    let tcp = TcpPinger::new();
    assert_eq!(tcp.address("[::1]"), "[::1]:80");
    assert_eq!(tcp.address("[2001:db8::1]"), "[2001:db8::1]:80");
    assert!(!tcp.has_port("[::1]"));
}

#[test]
fn tcp_colon_without_digits_names_no_port() {
    let tcp = TcpPinger::new();
    assert!(!tcp.has_port("host:"));
    assert!(!tcp.has_port("host:http"));
    assert!(!tcp.has_port("host:8a"));
    assert!(!tcp.has_port("host"));
    assert!(!tcp.has_port(""));
    assert!(!tcp.has_port("]:80x"));
    assert!(!tcp.has_port("a:b:80"));
    assert_eq!(tcp.address("host:"), "[host:]:80");
    assert_eq!(tcp.address("host:http"), "[host:http]:80");
}

#[test]
fn tcp_connection_is_a_success() {
    let tcp = TcpPinger::new();
    let r = tcp.conclude_at("host", &TcpOutcome::Connected, 12_000_000, at());
    assert_eq!(r.target, "host");
    assert_eq!(r.timestamp, at());
    assert!(r.success);
    assert_eq!(r.rtt, 12_000_000);
    assert_eq!(r.error_kind, None);
    assert_eq!(r.error_msg, None);
}

fn tcp_failure(failure: IoFailure) -> (ErrorKind, String) {
    let tcp = TcpPinger::new();
    let outcome = TcpOutcome::Failed { failure, message: "os error 111".to_string() };
    let r = tcp.conclude_at("host:1", &outcome, 3_000, at());
    assert_eq!(r.target, "host:1");
    assert_eq!(r.rtt, 3_000);
    assert_eq!(r.timestamp, at());
    failure_of(&r)
}

#[test]
fn tcp_failures_are_classified() {
    assert_eq!(
        tcp_failure(IoFailure::Refused),
        (ErrorKind::ConnectionRefused, "Connection refused".to_string())
    );
    assert_eq!(
        tcp_failure(IoFailure::Reset),
        (ErrorKind::ConnectionReset, "Connection reset".to_string())
    );
    assert_eq!(
        tcp_failure(IoFailure::NetworkUnreachable),
        (ErrorKind::NetworkUnreachable, "Network unreachable".to_string())
    );
    assert_eq!(
        tcp_failure(IoFailure::HostUnreachable),
        (ErrorKind::HostUnreachable, "Host unreachable".to_string())
    );
    assert_eq!(
        tcp_failure(IoFailure::TimedOut),
        (ErrorKind::Timeout, "Connection timed out".to_string())
    );
    assert_eq!(
        tcp_failure(IoFailure::WouldBlock),
        (ErrorKind::Timeout, "Connection timed out".to_string())
    );
    assert_eq!(
        tcp_failure(IoFailure::Other),
        (ErrorKind::Other, "TCP connection failed: os error 111".to_string())
    );
}

#[test]
fn tcp_resolution_failures() {
    let tcp = TcpPinger::new();
    let outcome = TcpOutcome::ResolveFailed { message: "failed to lookup address".to_string() };
    let r = tcp.conclude_at("nowhere", &outcome, 2_000, at());
    assert_eq!(r.rtt, 2_000);
    assert_eq!(r.target, "nowhere");
    assert_eq!(
        failure_of(&r),
        (ErrorKind::DnsFailure, "DNS resolution failed: failed to lookup address".to_string())
    );
    let r = tcp.conclude_at("nowhere", &TcpOutcome::NoAddress, 3_000, at());
    assert_eq!(r.rtt, 3_000);
    assert_eq!(failure_of(&r), (ErrorKind::DnsFailure, "Could not resolve hostname".to_string()));
}

#[test]
fn tcp_timeout() {
    let tcp = TcpPinger::new();
    let r = tcp.conclude_at("host", &TcpOutcome::TimedOut, 1_000_000_000, at());
    assert_eq!(r.rtt, 1_000_000_000);
    assert_eq!(failure_of(&r), (ErrorKind::Timeout, "Connection timed out".to_string()));
}

#[test]
fn tcp_conclude_stamps_the_result() {
    let tcp = TcpPinger::new();
    let r = tcp.conclude("host", &TcpOutcome::Connected, 5);
    assert!(r.success);
    assert_eq!(r.target, "host");
    assert_eq!(r.rtt, 5);
    assert!(r.timestamp.secs > 1_600_000_000);
    let r = tcp.conclude("host", &TcpOutcome::TimedOut, 6);
    assert_eq!(failure_of(&r), (ErrorKind::Timeout, "Connection timed out".to_string()));
}

#[test]
fn tcp_descriptions() {
    let tcp = TcpPinger::new();
    assert_eq!(tcp.describe(IoFailure::Reset, "x"), "Connection reset");
    assert_eq!(tcp.describe(IoFailure::Other, "x"), "TCP connection failed: x");
}

#[test]
fn icmp_lookup_name_has_port_zero() {
    let icmp = IcmpPinger::new();
    assert_eq!(icmp.lookup_name("example.com"), "example.com:0");
    assert_eq!(icmp.lookup_name(""), ":0");
}

#[test]
fn icmp_request_is_fixed_but_for_the_identifier() {
    let icmp = IcmpPinger::new();
    let r = icmp.request_with(4711);
    assert_eq!(r.identifier, 4711);
    assert_eq!(r.sequence, 1);
    assert_eq!(r.payload, b"Hello".to_vec());
    assert_eq!(r.timeout_secs, 1);
    let r = icmp.request();
    assert_eq!(r.sequence, 1);
    assert_eq!(r.payload, b"Hello".to_vec());
    assert_eq!(r.timeout_secs, 1);
}

#[test]
fn icmp_reply_is_a_success_with_the_measured_round_trip() {
    let icmp = IcmpPinger::new();
    let r = icmp.conclude_at("host", &IcmpOutcome::Replied { rtt: 7_000_000 }, 9_000_000, at());
    assert!(r.success);
    assert_eq!(r.target, "host");
    assert_eq!(r.rtt, 7_000_000);
    assert_eq!(r.timestamp, at());
    assert_eq!(r.error_kind, None);
    assert_eq!(r.error_msg, None);
}

#[test]
fn icmp_resolution_failures() {
    let icmp = IcmpPinger::new();
    let outcome = IcmpOutcome::ResolveFailed { message: "failed to lookup address".to_string() };
    let r = icmp.conclude_at("nowhere", &outcome, 2_000, at());
    assert_eq!(r.rtt, 2_000);
    assert_eq!(r.target, "nowhere");
    assert_eq!(
        failure_of(&r),
        (ErrorKind::DnsFailure, "DNS resolution failed: failed to lookup address".to_string())
    );
    let r = icmp.conclude_at("nowhere", &IcmpOutcome::NoAddress, 3_000, at());
    assert_eq!(r.rtt, 3_000);
    assert_eq!(failure_of(&r), (ErrorKind::DnsFailure, "Could not resolve hostname".to_string()));
}

#[test]
fn icmp_timeout() {
    let icmp = IcmpPinger::new();
    let r = icmp.conclude_at("host", &IcmpOutcome::TimedOut, 1_000_000_000, at());
    assert_eq!(r.rtt, 1_000_000_000);
    assert_eq!(failure_of(&r), (ErrorKind::Timeout, "Request timed out".to_string()));
}

fn icmp_failure(failure: IoFailure, message: &str) -> (ErrorKind, String) {
    let icmp = IcmpPinger::new();
    let outcome = IcmpOutcome::Failed { failure, message: message.to_string() };
    let r = icmp.conclude_at("host", &outcome, 4_000, at());
    assert_eq!(r.rtt, 4_000);
    assert_eq!(r.target, "host");
    failure_of(&r)
}

#[test]
fn icmp_failures_are_classified_by_their_kind() {
    let message = "io error: something (os error 1)";
    assert_eq!(
        icmp_failure(IoFailure::Reset, message),
        (ErrorKind::ConnectionReset, "Connection reset".to_string())
    );
    assert_eq!(
        icmp_failure(IoFailure::Refused, message),
        (ErrorKind::ConnectionRefused, "Connection refused".to_string())
    );
    assert_eq!(
        icmp_failure(IoFailure::NetworkUnreachable, message),
        (ErrorKind::NetworkUnreachable, "Network unreachable".to_string())
    );
    assert_eq!(
        icmp_failure(IoFailure::HostUnreachable, message),
        (ErrorKind::HostUnreachable, "Host unreachable".to_string())
    );
    assert_eq!(
        icmp_failure(IoFailure::TimedOut, message),
        (ErrorKind::Timeout, "Request timed out".to_string())
    );
    assert_eq!(
        icmp_failure(IoFailure::WouldBlock, message),
        (ErrorKind::Timeout, "Request timed out".to_string())
    );
    assert_eq!(
        icmp_failure(IoFailure::Other, message),
        (ErrorKind::Other, format!("ICMP error: {}", message))
    );
}

#[test]
fn icmp_kind_decides_before_the_message() {
    assert_eq!(
        icmp_failure(IoFailure::Reset, "request timeout"),
        (ErrorKind::ConnectionReset, "Connection reset".to_string())
    );
    assert_eq!(
        icmp_failure(IoFailure::HostUnreachable, "No route to host (os error 113)"),
        (ErrorKind::HostUnreachable, "Host unreachable".to_string())
    );
}

#[test]
fn icmp_failures_without_a_kind_are_classified_by_their_message() {
    let other = IoFailure::Other;
    assert_eq!(
        icmp_failure(other, "Request timeout for icmp_seq 1"),
        (ErrorKind::Timeout, "Request timed out".to_string())
    );
    assert_eq!(
        icmp_failure(other, "io error: Network is unreachable (os error 101)"),
        (ErrorKind::NetworkUnreachable, "Network unreachable".to_string())
    );
    assert_eq!(
        icmp_failure(other, "io error: Host is unreachable"),
        (ErrorKind::HostUnreachable, "Host unreachable".to_string())
    );
    assert_eq!(
        icmp_failure(other, "io error: No route to host (os error 113)"),
        (ErrorKind::NoRouteToHost, "No route to host".to_string())
    );
    assert_eq!(
        icmp_failure(other, "CONNECTION REFUSED"),
        (ErrorKind::ConnectionRefused, "Connection refused".to_string())
    );
    assert_eq!(
        icmp_failure(other, "io error: Connection reset by peer"),
        (ErrorKind::ConnectionReset, "Connection reset".to_string())
    );
    assert_eq!(
        icmp_failure(other, "Malformed Packet"),
        (ErrorKind::Other, "ICMP error: Malformed Packet".to_string())
    );
    assert_eq!(icmp_failure(other, ""), (ErrorKind::Other, "ICMP error: ".to_string()));
}

#[test]
fn icmp_first_phrase_decides() {
    assert_eq!(
        icmp_failure(IoFailure::Other, "host is unreachable after timeout"),
        (ErrorKind::Timeout, "Request timed out".to_string())
    );
    assert_eq!(
        icmp_failure(IoFailure::Other, "connection refused: no route to host"),
        (ErrorKind::NoRouteToHost, "No route to host".to_string())
    );
}

#[test]
fn icmp_classification_steps() {
    let icmp = IcmpPinger::new();
    assert_eq!(icmp.classify_phrase("a timeout"), ErrorKind::Timeout);
    assert_eq!(icmp.classify_phrase("A TIMEOUT"), ErrorKind::Other);
    assert_eq!(icmp.classify_phrase("connection reset by peer"), ErrorKind::ConnectionReset);
    assert_eq!(icmp.classify_lowered(IoFailure::Other, "a timeout"), ErrorKind::Timeout);
    assert_eq!(icmp.classify_lowered(IoFailure::Other, "A TIMEOUT"), ErrorKind::Other);
    assert_eq!(icmp.classify_lowered(IoFailure::Reset, "a timeout"), ErrorKind::ConnectionReset);
    assert_eq!(icmp.classify(IoFailure::Other, "A TIMEOUT"), ErrorKind::Timeout);
    assert_eq!(icmp.classify(IoFailure::Refused, "A TIMEOUT"), ErrorKind::ConnectionRefused);
    for failure in ALL_FAILURES {
        if failure != IoFailure::Other {
            assert_eq!(icmp.classify(failure, "whatever"), classify_failure(failure));
        }
    }
}

#[test]
fn icmp_descriptions() {
    let icmp = IcmpPinger::new();
    assert_eq!(icmp.describe(ErrorKind::DnsFailure, "x"), "DNS resolution failed: x");
    assert_eq!(icmp.describe(ErrorKind::Timeout, "x"), "Request timed out");
    assert_eq!(icmp.describe(ErrorKind::ConnectionRefused, "x"), "Connection refused");
    assert_eq!(icmp.describe(ErrorKind::NetworkUnreachable, "x"), "Network unreachable");
    assert_eq!(icmp.describe(ErrorKind::HostUnreachable, "x"), "Host unreachable");
    assert_eq!(icmp.describe(ErrorKind::NoRouteToHost, "x"), "No route to host");
    assert_eq!(icmp.describe(ErrorKind::ConnectionReset, "x"), "Connection reset");
    assert_eq!(icmp.describe(ErrorKind::Other, "x"), "ICMP error: x");
}

#[test]
fn icmp_conclude_stamps_the_result() {
    let icmp = IcmpPinger::new();
    let r = icmp.conclude("host", &IcmpOutcome::Replied { rtt: 5 }, 9);
    assert!(r.success);
    assert_eq!(r.rtt, 5);
    assert!(r.timestamp.secs > 1_600_000_000);
    let r = icmp.conclude("host", &IcmpOutcome::NoAddress, 9);
    assert_eq!(r.rtt, 9);
    assert_eq!(failure_of(&r), (ErrorKind::DnsFailure, "Could not resolve hostname".to_string()));
}
