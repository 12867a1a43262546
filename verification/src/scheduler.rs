//! The repeating loop of one target: when it probes, when it ends, and what
//! becomes of each result.

use vstd::prelude::*;
use crate::clock::utc_text;
use crate::output::{
    console_text, log_text, render_console_line, render_log_line, rtt_millis, status,
    status_text, time_pattern, time_text,
};
use crate::pinger::PingResult;
use crate::stats::{table_get, table_record, StatsCollector};

verus! {

/// Where the loop of one target stands.
#[derive(Clone, Copy, Debug, PartialEq, Eq, Structural)]
pub enum LoopState {
    /// The loop goes on probing.
    Running,
    /// The loop saw the cancellation signal at the top of an iteration.
    Cancelled,
    /// The loop has made all the attempts that were asked for.
    Exhausted,
    /// The loop has returned; nothing more comes from this target.
    Stopped,
}

/// What the loop does next.
#[derive(Clone, Copy, Debug, PartialEq, Eq, Structural)]
pub enum Step {
    /// Make one probe attempt, record its result, then sleep one interval.
    Probe,
    /// Leave the loop.
    Finish,
}

/// Which sinks take the line of each result.
#[derive(Clone, Copy, Debug)]
pub struct Sinks {
    pub display: bool,
    pub log: bool,
}

/// The lines that one result gives to the sinks.
#[derive(Debug)]
pub struct Emitted {
    pub console: Option<String>,
    pub log: Option<String>,
}

/// The loop of one target. `count` bounds the attempts, zero standing for no
/// bound; `current_count` is the number of attempts made.
#[derive(Clone, Copy, Debug)]
pub struct Scheduler {
    pub count: u64,
    pub current_count: u64,
    pub state: LoopState,
}

/// The state that the top of an iteration leads to, given whether the run
/// still goes on. Cancellation is looked at first, the bound second.
pub open spec fn state_at_top(state: LoopState, running: bool, count: u64, made: u64) -> LoopState {
    if state != LoopState::Running {
        state
    } else if !running {
        LoopState::Cancelled
    } else if count > 0 && made >= count {
        LoopState::Exhausted
    } else {
        LoopState::Running
    }
}

impl Scheduler {
    /// A loop that has made no attempt yet.
    pub fn new(count: u64) -> (s: Scheduler)
        ensures
            s.count == count,
            s.current_count == 0,
            s.state == LoopState::Running,
    {
        Scheduler { count, current_count: 0, state: LoopState::Running }
    }

    /// The top of an iteration: `running` tells whether the run still goes
    /// on. The loop probes exactly while it stays in the running state; a
    /// loop that has left that state stays where it is.
    pub fn next_step(&mut self, running: bool) -> (step: Step)
        ensures
            final(self).state == state_at_top(
                old(self).state,
                running,
                old(self).count,
                old(self).current_count,
            ),
            final(self).count == old(self).count,
            final(self).current_count == old(self).current_count,
            step == Step::Probe <==> final(self).state == LoopState::Running,
            step == Step::Probe && old(self).count > 0 ==> old(self).current_count < old(
                self,
            ).count,
    {
        if self.state == LoopState::Running {
            if !running {
                self.state = LoopState::Cancelled;
            } else if self.count > 0 && self.current_count >= self.count {
                self.state = LoopState::Exhausted;
            }
        }
        if self.state == LoopState::Running {
            Step::Probe
        } else {
            Step::Finish
        }
    }

    /// Takes the result of the attempt in: the table records it, every sink
    /// that is switched on gets its line, and the attempt is counted. A line
    /// is left out where its sink is off or the calendar cannot represent
    /// the result's time.
    pub fn record(
        &mut self,
        stats: &mut StatsCollector,
        result: &PingResult,
        sinks: Sinks,
    ) -> (emitted: Emitted)
        requires
            old(self).current_count < u64::MAX,
            old(stats).wf(),
            table_get(old(stats)@, result.target@) matches Some(s) ==> s.sent < u64::MAX,
        ensures
            final(stats).wf(),
            final(stats)@ == table_record(
                old(stats)@,
                result.target@,
                result.success,
                result.rtt as nat,
            ),
            final(self).current_count == old(self).current_count + 1,
            final(self).count == old(self).count,
            final(self).state == old(self).state,
            match utc_text(result.timestamp.secs, result.timestamp.nanos, time_pattern()) {
                Some(time) => {
                    &&& emitted.console is Some <==> sinks.display
                    &&& emitted.log is Some <==> sinks.log
                    &&& emitted.console matches Some(line) ==> line@ == console_text(
                        result@.target,
                        time,
                        status_text(result@),
                        rtt_millis(result@),
                    )
                    &&& emitted.log matches Some(line) ==> line@ == log_text(
                        result@.target,
                        time,
                        status_text(result@),
                        rtt_millis(result@),
                    )
                },
                None => emitted.console is None && emitted.log is None,
            },
    {
        stats.update(result);
        self.current_count += 1;
        let mut emitted = Emitted { console: None, log: None };
        if sinks.display || sinks.log {
            match time_text(result.timestamp) {
                Some(time) => {
                    let status = status(result);
                    let millis: u64 = result.rtt / 1_000_000;
                    if sinks.display {
                        emitted.console = Some(
                            render_console_line(
                                result.target.as_str(),
                                time.as_str(),
                                status.as_str(),
                                millis,
                            ),
                        );
                    }
                    if sinks.log {
                        emitted.log = Some(
                            render_log_line(
                                result.target.as_str(),
                                time.as_str(),
                                status.as_str(),
                                millis,
                            ),
                        );
                    }
                },
                None => {},
            }
        }
        emitted
    }

    /// The loop returns: after a finishing step, or early where a sink
    /// failed.
    pub fn stop(&mut self)
        ensures
            final(self).state == LoopState::Stopped,
            final(self).count == old(self).count,
            final(self).current_count == old(self).current_count,
    {
        self.state = LoopState::Stopped;
    }
}

} // verus!
