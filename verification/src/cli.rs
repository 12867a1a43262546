//! The settings of a probe run and what they must meet before any probing
//! starts.

use vstd::prelude::*;
use vstd::string::StringExecFns;
use crate::text::{lowercase, to_lowercase};

verus! {

/// The settings of a run.
#[derive(Clone, Debug)]
pub struct Args {
    /// Target hosts to probe.
    pub targets: Vec<String>,
    /// Whether every result is shown on the console.
    pub display: bool,
    /// The path of the log file, if results are logged.
    pub log: Option<String>,
    /// Whether the run is meant to go on in the background.
    pub background: bool,
    /// The name of the protocol, `icmp` or `tcp` in any letter case.
    pub protocol: String,
    /// Seconds between two attempts on one target. Zero leaves no pause and
    /// is discouraged.
    pub interval: u64,
    /// Attempts per target; zero stands for no bound.
    pub count: u64,
}

/// The kind of probe that a run makes.
#[derive(Clone, Copy, Debug, PartialEq, Eq, Structural)]
pub enum Protocol {
    Icmp,
    Tcp,
}

/// Why the settings of a run are refused.
#[derive(Clone, Copy, Debug, PartialEq, Eq, Structural)]
pub enum ConfigError {
    /// No target was given.
    NoTargets,
    /// The protocol is neither `icmp` nor `tcp`.
    InvalidProtocol,
}

/// The protocol that a name in lower case stands for.
pub open spec fn protocol_named(lowered: Seq<char>) -> Option<Protocol> {
    if lowered == "icmp"@ {
        Some(Protocol::Icmp)
    } else if lowered == "tcp"@ {
        Some(Protocol::Tcp)
    } else {
        None
    }
}

/// What validating a run's settings comes to: the targets are looked at
/// first, the protocol second.
pub open spec fn validated(targets: nat, protocol: Seq<char>) -> Result<Protocol, ConfigError> {
    if targets == 0 {
        Err(ConfigError::NoTargets)
    } else {
        match protocol_named(lowercase(protocol)) {
            Some(p) => Ok(p),
            None => Err(ConfigError::InvalidProtocol),
        }
    }
}

/// The message that a refusal is reported with.
pub open spec fn refusal_text(e: ConfigError) -> Seq<char> {
    match e {
        ConfigError::NoTargets => "Error: At least one target must be specified"@,
        ConfigError::InvalidProtocol => "Error: Invalid protocol specified. Use 'icmp' or 'tcp'"@,
    }
}

impl Protocol {
    /// The protocol that a name in lower case stands for.
    pub fn from_lowered(lowered: &str) -> (protocol: Option<Protocol>)
        ensures
            protocol == protocol_named(lowered@),
    {
        let name = String::from_str(lowered);
        if name == String::from_str("icmp") {
            Some(Protocol::Icmp)
        } else if name == String::from_str("tcp") {
            Some(Protocol::Tcp)
        } else {
            None
        }
    }

    /// The protocol that a name stands for, whatever its letter case.
    pub fn parse(name: &str) -> (protocol: Option<Protocol>)
        ensures
            protocol == protocol_named(lowercase(name@)),
    {
        let lowered = to_lowercase(name);
        Protocol::from_lowered(lowered.as_str())
    }
}

impl ConfigError {
    /// The one-line message of the refusal.
    pub fn message(&self) -> (text: String)
        ensures
            text@ == refusal_text(*self),
    {
        match self {
            ConfigError::NoTargets => String::from_str(
                "Error: At least one target must be specified",
            ),
            ConfigError::InvalidProtocol => String::from_str(
                "Error: Invalid protocol specified. Use 'icmp' or 'tcp'",
            ),
        }
    }

    /// The exit code of a run that was refused.
    pub fn exit_code(&self) -> (code: i32)
        ensures
            code == 1,
    {
        1
    }
}

impl Args {
    /// Validates the settings before anything starts: a run needs a target
    /// and a known protocol.
    pub fn validate(&self) -> (outcome: Result<Protocol, ConfigError>)
        ensures
            outcome == validated(self.targets@.len(), self.protocol@),
    {
        if self.targets.len() == 0 {
            Err(ConfigError::NoTargets)
        } else {
            match Protocol::parse(self.protocol.as_str()) {
                Some(p) => Ok(p),
                None => Err(ConfigError::InvalidProtocol),
            }
        }
    }
}

} // verus!
