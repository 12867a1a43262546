//! Probe results and the rules that turn the outcome of one attempt into a
//! result.

use vstd::prelude::*;
use vstd::string::StringExecFns;
use crate::clock::utc_now;
use crate::text::{
    char_is_digit, chars_contain, chars_have, chars_of, decimal, has_substring, is_digit,
    lowercase, push_decimal, to_lowercase,
};

verus! {

/// A point in time: whole seconds since 1970-01-01 00:00:00 UTC and the
/// nanoseconds into that second.
#[derive(Clone, Copy, Debug, PartialEq, Eq, Structural)]
pub struct Timestamp {
    pub secs: i64,
    pub nanos: u32,
}

/// Why a probe attempt failed.
#[derive(Clone, Copy, Debug, PartialEq, Eq, Structural)]
pub enum ErrorKind {
    /// The name of the target did not resolve to an address.
    DnsFailure,
    /// No answer came within the time allowed.
    Timeout,
    ConnectionRefused,
    NetworkUnreachable,
    HostUnreachable,
    NoRouteToHost,
    ConnectionReset,
    /// Any other failure; the result's message carries its text.
    Other,
}

/// The outcome of one probe attempt.
///
/// `rtt` is the duration of the attempt in nanoseconds: the round trip of a
/// success, the time until the failure or timeout was noticed otherwise.
/// `error_kind` and `error_msg` classify and describe the failure; both are
/// absent on success.
#[derive(Clone, Debug)]
pub struct PingResult {
    pub target: String,
    pub timestamp: Timestamp,
    pub success: bool,
    pub rtt: u64,
    pub error_kind: Option<ErrorKind>,
    pub error_msg: Option<String>,
}

/// A probe result with its texts as sequences of characters.
pub struct ResultModel {
    pub target: Seq<char>,
    pub timestamp: Timestamp,
    pub success: bool,
    pub rtt: u64,
    pub error_kind: Option<ErrorKind>,
    pub error_msg: Option<Seq<char>>,
}

impl View for PingResult {
    type V = ResultModel;

    open spec fn view(&self) -> ResultModel {
        ResultModel {
            target: self.target@,
            timestamp: self.timestamp,
            success: self.success,
            rtt: self.rtt,
            error_kind: self.error_kind,
            error_msg: match self.error_msg {
                Some(m) => Some(m@),
                None => None,
            },
        }
    }
}

impl ResultModel {
    /// The result of an attempt that was answered after `rtt` nanoseconds.
    pub open spec fn answered(target: Seq<char>, at: Timestamp, rtt: u64) -> ResultModel {
        ResultModel {
            target,
            timestamp: at,
            success: true,
            rtt,
            error_kind: None,
            error_msg: None,
        }
    }

    /// The result of an attempt that failed after `elapsed` nanoseconds.
    pub open spec fn failed(
        target: Seq<char>,
        at: Timestamp,
        elapsed: u64,
        kind: ErrorKind,
        message: Seq<char>,
    ) -> ResultModel {
        ResultModel {
            target,
            timestamp: at,
            success: false,
            rtt: elapsed,
            error_kind: Some(kind),
            error_msg: Some(message),
        }
    }

    /// A failure is classified and described, a success is neither.
    pub open spec fn consistent(self) -> bool {
        &&& self.success <==> self.error_kind is None
        &&& self.success <==> self.error_msg is None
    }
}

impl PingResult {
    /// The result of an attempt on `target` that was answered.
    pub fn answered(target: &str, at: Timestamp, rtt: u64) -> (result: PingResult)
        ensures
            result@ == ResultModel::answered(target@, at, rtt),
    {
        PingResult {
            target: String::from_str(target),
            timestamp: at,
            success: true,
            rtt,
            error_kind: None,
            error_msg: None,
        }
    }

    /// The result of an attempt on `target` that failed.
    pub fn failed(
        target: &str,
        at: Timestamp,
        elapsed: u64,
        kind: ErrorKind,
        message: String,
    ) -> (result: PingResult)
        ensures
            result@ == ResultModel::failed(target@, at, elapsed, kind, message@),
    {
        PingResult {
            target: String::from_str(target),
            timestamp: at,
            success: false,
            rtt: elapsed,
            error_kind: Some(kind),
            error_msg: Some(message),
        }
    }
}

/// Seconds that one probe attempt may take before it counts as timed out.
pub const PROBE_TIMEOUT_SECS: u64 = 1;

/// The port that a TCP probe connects to where the target names none.
pub const DEFAULT_TCP_PORT: u16 = 80;

/// The kinds of lower-level failure that a probe tells apart.
#[derive(Clone, Copy, Debug, PartialEq, Eq, Structural)]
pub enum IoFailure {
    Refused,
    Reset,
    NetworkUnreachable,
    HostUnreachable,
    /// The operation ran out of time.
    TimedOut,
    /// The operation would have blocked: it ran out of time inside the
    /// socket layer.
    WouldBlock,
    /// Any other kind of failure.
    Other,
}

/// The class of a lower-level failure, as far as its kind tells.
pub open spec fn failure_kind(failure: IoFailure) -> ErrorKind {
    match failure {
        IoFailure::Refused => ErrorKind::ConnectionRefused,
        IoFailure::Reset => ErrorKind::ConnectionReset,
        IoFailure::NetworkUnreachable => ErrorKind::NetworkUnreachable,
        IoFailure::HostUnreachable => ErrorKind::HostUnreachable,
        IoFailure::TimedOut => ErrorKind::Timeout,
        IoFailure::WouldBlock => ErrorKind::Timeout,
        IoFailure::Other => ErrorKind::Other,
    }
}

/// The class of a lower-level failure, as far as its kind tells.
pub fn classify_failure(failure: IoFailure) -> (kind: ErrorKind)
    ensures
        kind == failure_kind(failure),
{
    match failure {
        IoFailure::Refused => ErrorKind::ConnectionRefused,
        IoFailure::Reset => ErrorKind::ConnectionReset,
        IoFailure::NetworkUnreachable => ErrorKind::NetworkUnreachable,
        IoFailure::HostUnreachable => ErrorKind::HostUnreachable,
        IoFailure::TimedOut => ErrorKind::Timeout,
        IoFailure::WouldBlock => ErrorKind::Timeout,
        IoFailure::Other => ErrorKind::Other,
    }
}

/// What one ICMP attempt came to.
#[derive(Clone, Debug)]
pub enum IcmpOutcome {
    /// The lookup of the target's name failed with this message.
    ResolveFailed { message: String },
    /// The lookup succeeded and gave no address.
    NoAddress,
    /// The echo came back after `rtt` nanoseconds.
    Replied { rtt: u64 },
    /// Sending the echo or receiving its reply failed with this kind and
    /// message.
    Failed { failure: IoFailure, message: String },
    /// No reply came within the time allowed.
    TimedOut,
}

/// The echo request of one ICMP attempt.
#[derive(Clone, Debug)]
pub struct EchoRequest {
    /// Tells the replies of concurrent probes on one socket apart.
    pub identifier: u16,
    pub sequence: u16,
    pub payload: Vec<u8>,
    pub timeout_secs: u64,
}

/// The payload of every echo request: the bytes of `Hello`.
pub open spec fn echo_payload() -> Seq<u8> {
    seq![72u8, 101u8, 108u8, 108u8, 111u8]
}

/// The class that the lower-case form of a failure's message speaks of. The
/// first phrase found decides, in this order.
pub open spec fn phrase_kind(lowered: Seq<char>) -> ErrorKind {
    if has_substring(lowered, "timeout"@) {
        ErrorKind::Timeout
    } else if has_substring(lowered, "network is unreachable"@) {
        ErrorKind::NetworkUnreachable
    } else if has_substring(lowered, "host is unreachable"@) {
        ErrorKind::HostUnreachable
    } else if has_substring(lowered, "no route to host"@) {
        ErrorKind::NoRouteToHost
    } else if has_substring(lowered, "connection refused"@) {
        ErrorKind::ConnectionRefused
    } else if has_substring(lowered, "connection reset"@) {
        ErrorKind::ConnectionReset
    } else {
        ErrorKind::Other
    }
}

/// The class of an ICMP failure. The kind of the failure decides; only where
/// the kind tells nothing, the lower-case form of the message is read.
pub open spec fn icmp_failure_kind(failure: IoFailure, lowered: Seq<char>) -> ErrorKind {
    if failure_kind(failure) != ErrorKind::Other {
        failure_kind(failure)
    } else {
        phrase_kind(lowered)
    }
}

/// How an ICMP failure of class `kind` is described; a failed lookup and an
/// unclassified failure show their own message.
pub open spec fn icmp_failure_text(kind: ErrorKind, message: Seq<char>) -> Seq<char> {
    match kind {
        ErrorKind::DnsFailure => "DNS resolution failed: "@ + message,
        ErrorKind::Timeout => "Request timed out"@,
        ErrorKind::ConnectionRefused => "Connection refused"@,
        ErrorKind::NetworkUnreachable => "Network unreachable"@,
        ErrorKind::HostUnreachable => "Host unreachable"@,
        ErrorKind::NoRouteToHost => "No route to host"@,
        ErrorKind::ConnectionReset => "Connection reset"@,
        ErrorKind::Other => "ICMP error: "@ + message,
    }
}

/// The result that an ICMP attempt on `target` comes to. Only a reply is a
/// success, and its duration is the round trip that was measured; every
/// failure lasts the `elapsed` time of the whole attempt.
pub open spec fn icmp_result(
    target: Seq<char>,
    outcome: IcmpOutcome,
    elapsed: u64,
    at: Timestamp,
) -> ResultModel {
    match outcome {
        IcmpOutcome::ResolveFailed { message } => ResultModel::failed(
            target,
            at,
            elapsed,
            ErrorKind::DnsFailure,
            icmp_failure_text(ErrorKind::DnsFailure, message@),
        ),
        IcmpOutcome::NoAddress => ResultModel::failed(
            target,
            at,
            elapsed,
            ErrorKind::DnsFailure,
            "Could not resolve hostname"@,
        ),
        IcmpOutcome::Replied { rtt } => ResultModel::answered(target, at, rtt),
        IcmpOutcome::Failed { failure, message } => {
            let kind = icmp_failure_kind(failure, lowercase(message@));
            ResultModel::failed(target, at, elapsed, kind, icmp_failure_text(kind, message@))
        },
        IcmpOutcome::TimedOut => ResultModel::failed(
            target,
            at,
            elapsed,
            ErrorKind::Timeout,
            "Request timed out"@,
        ),
    }
}

/// Draws a number with `rand::random::<u16>`. Nothing is claimed of it. The
/// call fails only where the system cannot seed the generator.
#[verifier::external_body]
fn random_identifier() -> (id: u16) {
    rand::random::<u16>()
}

/// The rules of the ICMP echo probe.
#[derive(Clone, Copy, Debug)]
pub struct IcmpPinger;

impl IcmpPinger {
    pub fn new() -> (pinger: IcmpPinger) {
        IcmpPinger
    }

    /// The name to look up for `target`: the target with port 0.
    pub fn lookup_name(&self, target: &str) -> (name: String)
        ensures
            name@ == target@ + ":0"@,
    {
        let mut name = String::from_str(target);
        name.append(":0");
        name
    }

    /// The echo request with the given identifier: sequence number 1, the
    /// payload `Hello`, one second to answer.
    pub fn request_with(&self, identifier: u16) -> (request: EchoRequest)
        ensures
            request.identifier == identifier,
            request.sequence == 1,
            request.payload@ == echo_payload(),
            request.timeout_secs == PROBE_TIMEOUT_SECS,
    {
        let mut payload: Vec<u8> = Vec::new();
        payload.push(72u8);
        payload.push(101u8);
        payload.push(108u8);
        payload.push(108u8);
        payload.push(111u8);
        EchoRequest { identifier, sequence: 1, payload, timeout_secs: PROBE_TIMEOUT_SECS }
    }

    /// The echo request of the next attempt, under an identifier drawn at
    /// random.
    pub fn request(&self) -> (request: EchoRequest)
        ensures
            request.sequence == 1,
            request.payload@ == echo_payload(),
            request.timeout_secs == PROBE_TIMEOUT_SECS,
    {
        self.request_with(random_identifier())
    }

    /// The class that a message speaks of, read in its lower-case form.
    pub fn classify_phrase(&self, lowered: &str) -> (kind: ErrorKind)
        ensures
            kind == phrase_kind(lowered@),
    {
        let text = chars_of(lowered);
        if chars_contain(&text, "timeout") {
            ErrorKind::Timeout
        } else if chars_contain(&text, "network is unreachable") {
            ErrorKind::NetworkUnreachable
        } else if chars_contain(&text, "host is unreachable") {
            ErrorKind::HostUnreachable
        } else if chars_contain(&text, "no route to host") {
            ErrorKind::NoRouteToHost
        } else if chars_contain(&text, "connection refused") {
            ErrorKind::ConnectionRefused
        } else if chars_contain(&text, "connection reset") {
            ErrorKind::ConnectionReset
        } else {
            ErrorKind::Other
        }
    }

    /// The class of a failure of this kind whose message reads `lowered` in
    /// lower case.
    pub fn classify_lowered(&self, failure: IoFailure, lowered: &str) -> (kind: ErrorKind)
        ensures
            kind == icmp_failure_kind(failure, lowered@),
    {
        match classify_failure(failure) {
            ErrorKind::Other => self.classify_phrase(lowered),
            kind => kind,
        }
    }

    /// The class of a failure of this kind with this message, whatever the
    /// letter case of the message.
    pub fn classify(&self, failure: IoFailure, message: &str) -> (kind: ErrorKind)
        ensures
            kind == icmp_failure_kind(failure, lowercase(message@)),
    {
        let lowered = to_lowercase(message);
        self.classify_lowered(failure, lowered.as_str())
    }

    /// The description of a failure of class `kind` with this message.
    pub fn describe(&self, kind: ErrorKind, message: &str) -> (text: String)
        ensures
            text@ == icmp_failure_text(kind, message@),
    {
        match kind {
            ErrorKind::DnsFailure => {
                let mut text = String::from_str("DNS resolution failed: ");
                text.append(message);
                text
            },
            ErrorKind::Timeout => String::from_str("Request timed out"),
            ErrorKind::ConnectionRefused => String::from_str("Connection refused"),
            ErrorKind::NetworkUnreachable => String::from_str("Network unreachable"),
            ErrorKind::HostUnreachable => String::from_str("Host unreachable"),
            ErrorKind::NoRouteToHost => String::from_str("No route to host"),
            ErrorKind::ConnectionReset => String::from_str("Connection reset"),
            ErrorKind::Other => {
                let mut text = String::from_str("ICMP error: ");
                text.append(message);
                text
            },
        }
    }

    /// The result of an attempt on `target` that came to `outcome` after
    /// `elapsed` nanoseconds and was over at the time `at`.
    pub fn conclude_at(
        &self,
        target: &str,
        outcome: &IcmpOutcome,
        elapsed: u64,
        at: Timestamp,
    ) -> (result: PingResult)
        ensures
            result@ == icmp_result(target@, *outcome, elapsed, at),
            result@.consistent(),
    {
        match outcome {
            IcmpOutcome::ResolveFailed { message } => {
                let text = self.describe(ErrorKind::DnsFailure, message.as_str());
                PingResult::failed(target, at, elapsed, ErrorKind::DnsFailure, text)
            },
            IcmpOutcome::NoAddress => PingResult::failed(
                target,
                at,
                elapsed,
                ErrorKind::DnsFailure,
                String::from_str("Could not resolve hostname"),
            ),
            IcmpOutcome::Replied { rtt } => PingResult::answered(target, at, *rtt),
            IcmpOutcome::Failed { failure, message } => {
                let kind = self.classify(*failure, message.as_str());
                let text = self.describe(kind, message.as_str());
                PingResult::failed(target, at, elapsed, kind, text)
            },
            IcmpOutcome::TimedOut => PingResult::failed(
                target,
                at,
                elapsed,
                ErrorKind::Timeout,
                String::from_str("Request timed out"),
            ),
        }
    }

    /// The result of an attempt that is over now: as [`Self::conclude_at`]
    /// says, under the time that the clock shows.
    pub fn conclude(
        &self,
        target: &str,
        outcome: &IcmpOutcome,
        elapsed: u64,
    ) -> (result: PingResult)
        ensures
            result@ == icmp_result(target@, *outcome, elapsed, result.timestamp),
            result@.consistent(),
    {
        self.conclude_at(target, outcome, elapsed, utc_now())
    }
}

/// What one TCP attempt came to.
#[derive(Clone, Debug)]
pub enum TcpOutcome {
    /// The lookup of the target's name failed with this message.
    ResolveFailed { message: String },
    /// The lookup succeeded and gave no address.
    NoAddress,
    /// The connection was established.
    Connected,
    /// The connection attempt failed with this kind and message.
    Failed { failure: IoFailure, message: String },
    /// The attempt was not over within the time allowed.
    TimedOut,
}

/// The text starts with `[` and ends with `]`.
pub open spec fn bracketed(s: Seq<char>) -> bool {
    s.len() >= 2 && s.first() == '[' && s.last() == ']'
}

/// The colon at position `colon` of `target` sets a port off from a host:
/// digits, and at least one, follow it to the end, and what stands before it
/// holds no colon or is an address in brackets.
pub open spec fn port_at(target: Seq<char>, colon: int) -> bool {
    &&& 0 <= colon < target.len() - 1
    &&& target[colon] == ':'
    &&& forall|j: int| colon < j < target.len() ==> is_digit(#[trigger] target[j])
    &&& (!target.take(colon).contains(':') || bracketed(target.take(colon)))
}

/// The target names a port.
pub open spec fn names_port(target: Seq<char>) -> bool {
    exists|colon: int| port_at(target, colon)
}

/// The address that a TCP probe of `target` connects to: the target itself
/// where it names a port, the target at the default port otherwise. A target
/// without a port whose colons belong to a bare address goes into brackets
/// first.
pub open spec fn tcp_address(target: Seq<char>) -> Seq<char> {
    if names_port(target) {
        target
    } else if target.contains(':') && !bracketed(target) {
        "["@ + target + "]:"@ + decimal(DEFAULT_TCP_PORT as nat)
    } else {
        target + ":"@ + decimal(DEFAULT_TCP_PORT as nat)
    }
}

/// How a connection failure is described; only an unclassified failure shows
/// its own message.
pub open spec fn tcp_failure_text(failure: IoFailure, message: Seq<char>) -> Seq<char> {
    match failure {
        IoFailure::Refused => "Connection refused"@,
        IoFailure::Reset => "Connection reset"@,
        IoFailure::NetworkUnreachable => "Network unreachable"@,
        IoFailure::HostUnreachable => "Host unreachable"@,
        IoFailure::TimedOut => "Connection timed out"@,
        IoFailure::WouldBlock => "Connection timed out"@,
        IoFailure::Other => "TCP connection failed: "@ + message,
    }
}

/// The result that a TCP attempt on `target` comes to. Only an established
/// connection is a success; success or not, the attempt lasts the `elapsed`
/// time.
pub open spec fn tcp_result(
    target: Seq<char>,
    outcome: TcpOutcome,
    elapsed: u64,
    at: Timestamp,
) -> ResultModel {
    match outcome {
        TcpOutcome::ResolveFailed { message } => ResultModel::failed(
            target,
            at,
            elapsed,
            ErrorKind::DnsFailure,
            "DNS resolution failed: "@ + message@,
        ),
        TcpOutcome::NoAddress => ResultModel::failed(
            target,
            at,
            elapsed,
            ErrorKind::DnsFailure,
            "Could not resolve hostname"@,
        ),
        TcpOutcome::Connected => ResultModel::answered(target, at, elapsed),
        TcpOutcome::Failed { failure, message } => ResultModel::failed(
            target,
            at,
            elapsed,
            failure_kind(failure),
            tcp_failure_text(failure, message@),
        ),
        TcpOutcome::TimedOut => ResultModel::failed(
            target,
            at,
            elapsed,
            ErrorKind::Timeout,
            "Connection timed out"@,
        ),
    }
}

/// The rules of the TCP connect probe.
#[derive(Clone, Copy, Debug)]
pub struct TcpPinger;

impl TcpPinger {
    pub fn new() -> (pinger: TcpPinger) {
        TcpPinger
    }

    /// Whether the target names a port.
    pub fn has_port(&self, target: &str) -> (b: bool)
        ensures
            b == names_port(target@),
    {
        let chars = chars_of(target);
        let len: usize = chars.len();
        let mut first_digit: usize = len;
        while first_digit > 0 && char_is_digit(chars[first_digit - 1])
            invariant
                first_digit <= len == chars.len(),
                chars@ == target@,
                forall|j: int| first_digit <= j < len ==> is_digit(#[trigger] target@[j]),
            decreases first_digit,
        {
            first_digit -= 1;
        }
        let mut found = false;
        if 0 < first_digit && first_digit < len && chars[first_digit - 1] == ':' {
            let colon: usize = first_digit - 1;
            let bare = !chars_have(&chars, ':', colon);
            let in_brackets = colon >= 2 && chars[0] == '[' && chars[colon - 1] == ']';
            found = bare || in_brackets;
            proof {
                let host = target@.take(colon as int);
                assert(in_brackets == bracketed(host)) by {
                    if colon >= 2 {
                        assert(host.first() == target@[0]);
                        assert(host.last() == target@[colon - 1]);
                    }
                }
                assert(found == port_at(target@, colon as int));
            }
        }
        proof {
            if !found && names_port(target@) {
                let other = choose|c: int| port_at(target@, c);
                assert(!is_digit(target@[other]));
                assert(other < first_digit);
                if first_digit > 0 {
                    assert(!is_digit(target@[first_digit - 1]));
                    assert(other == first_digit - 1);
                }
                assert(false);
            }
        }
        found
    }

    /// The address to connect to for `target`.
    pub fn address(&self, target: &str) -> (address: String)
        ensures
            address@ == tcp_address(target@),
    {
        if self.has_port(target) {
            return String::from_str(target);
        }
        let chars = chars_of(target);
        let len: usize = chars.len();
        assert(chars@.take(len as int) == target@);
        let is_bracketed = len >= 2 && chars[0] == '[' && chars[len - 1] == ']';
        let mut address = String::new();
        if chars_have(&chars, ':', len) && !is_bracketed {
            address.append("[");
            address.append(target);
            address.append("]:");
        } else {
            address.append(target);
            address.append(":");
        }
        push_decimal(&mut address, DEFAULT_TCP_PORT as u128);
        address
    }

    /// The description of a connection failure with this message.
    pub fn describe(&self, failure: IoFailure, message: &str) -> (text: String)
        ensures
            text@ == tcp_failure_text(failure, message@),
    {
        match failure {
            IoFailure::Refused => String::from_str("Connection refused"),
            IoFailure::Reset => String::from_str("Connection reset"),
            IoFailure::NetworkUnreachable => String::from_str("Network unreachable"),
            IoFailure::HostUnreachable => String::from_str("Host unreachable"),
            IoFailure::TimedOut => String::from_str("Connection timed out"),
            IoFailure::WouldBlock => String::from_str("Connection timed out"),
            IoFailure::Other => {
                let mut text = String::from_str("TCP connection failed: ");
                text.append(message);
                text
            },
        }
    }

    /// The result of an attempt on `target` that came to `outcome` after
    /// `elapsed` nanoseconds and was over at the time `at`.
    pub fn conclude_at(
        &self,
        target: &str,
        outcome: &TcpOutcome,
        elapsed: u64,
        at: Timestamp,
    ) -> (result: PingResult)
        ensures
            result@ == tcp_result(target@, *outcome, elapsed, at),
            result@.consistent(),
    {
        match outcome {
            TcpOutcome::ResolveFailed { message } => {
                let mut text = String::from_str("DNS resolution failed: ");
                text.append(message.as_str());
                PingResult::failed(target, at, elapsed, ErrorKind::DnsFailure, text)
            },
            TcpOutcome::NoAddress => PingResult::failed(
                target,
                at,
                elapsed,
                ErrorKind::DnsFailure,
                String::from_str("Could not resolve hostname"),
            ),
            TcpOutcome::Connected => PingResult::answered(target, at, elapsed),
            TcpOutcome::Failed { failure, message } => {
                let kind = classify_failure(*failure);
                let text = self.describe(*failure, message.as_str());
                PingResult::failed(target, at, elapsed, kind, text)
            },
            TcpOutcome::TimedOut => PingResult::failed(
                target,
                at,
                elapsed,
                ErrorKind::Timeout,
                String::from_str("Connection timed out"),
            ),
        }
    }

    /// The result of an attempt that is over now: as [`Self::conclude_at`]
    /// says, under the time that the clock shows.
    pub fn conclude(
        &self,
        target: &str,
        outcome: &TcpOutcome,
        elapsed: u64,
    ) -> (result: PingResult)
        ensures
            result@ == tcp_result(target@, *outcome, elapsed, result.timestamp),
            result@.consistent(),
    {
        self.conclude_at(target, outcome, elapsed, utc_now())
    }
}

} // verus!
