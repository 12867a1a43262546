//! Per-target statistics and the table that collects them.

use vstd::prelude::*;
use vstd::string::StringExecFns;
use crate::pinger::PingResult;
use crate::text::{decimal, push_decimal};

verus! {

/// The running aggregate of one target over unbounded numbers.
///
/// Durations are in nanoseconds. The extrema and the total cover the
/// successful attempts only.
pub struct StatsModel {
    pub sent: nat,
    pub received: nat,
    pub min_rtt: Option<nat>,
    pub max_rtt: Option<nat>,
    pub total_rtt: nat,
}

impl StatsModel {
    /// The aggregate before any attempt.
    pub open spec fn empty() -> StatsModel {
        StatsModel { sent: 0, received: 0, min_rtt: None, max_rtt: None, total_rtt: 0 }
    }

    /// The aggregate after one more attempt. A failure only counts as sent. A
    /// success replaces an extremum only where it is strictly beyond it.
    pub open spec fn record(self, success: bool, rtt: nat) -> StatsModel {
        if success {
            StatsModel {
                sent: self.sent + 1,
                received: self.received + 1,
                min_rtt: match self.min_rtt {
                    Some(m) => if rtt < m {
                        Some(rtt)
                    } else {
                        Some(m)
                    },
                    None => Some(rtt),
                },
                max_rtt: match self.max_rtt {
                    Some(m) => if rtt > m {
                        Some(rtt)
                    } else {
                        Some(m)
                    },
                    None => Some(rtt),
                },
                total_rtt: self.total_rtt + rtt,
            }
        } else {
            StatsModel { sent: self.sent + 1, ..self }
        }
    }

    /// The aggregate after a whole history of attempts, each given as its
    /// outcome and its duration, oldest first.
    pub open spec fn after(history: Seq<(bool, nat)>) -> StatsModel
        decreases history.len(),
    {
        if history.len() == 0 {
            StatsModel::empty()
        } else {
            StatsModel::after(history.drop_last()).record(history.last().0, history.last().1)
        }
    }

    /// What holds of every aggregate that attempts can produce: no more
    /// received than sent; extrema exactly when something was received, the
    /// minimum not above the maximum, and the total between `received` times
    /// each of them.
    pub open spec fn valid(self) -> bool {
        &&& self.received <= self.sent
        &&& self.received == 0 ==> self.min_rtt is None && self.max_rtt is None && self.total_rtt
            == 0
        &&& self.received > 0 ==> {
            &&& self.min_rtt is Some
            &&& self.max_rtt is Some
            &&& self.min_rtt->0 <= self.max_rtt->0
            &&& self.received * self.min_rtt->0 <= self.total_rtt
            &&& self.total_rtt <= self.received * self.max_rtt->0
        }
    }

    /// The attempts that got no answer.
    pub open spec fn lost(self) -> int {
        self.sent - self.received
    }

    /// The mean duration of the successes, rounded down to a nanosecond;
    /// undefined while nothing was received.
    pub open spec fn average_rtt(self) -> Option<nat> {
        if self.received > 0 {
            Some(self.total_rtt / self.received)
        } else {
            None
        }
    }

    /// The loss in tenths of a percent, rounded to the nearest tenth, a tie to
    /// the even one; zero while nothing was sent.
    pub open spec fn loss_tenths(self) -> int {
        if self.sent == 0 {
            0
        } else {
            round_half_even(self.lost() * 1000, self.sent as int)
        }
    }
}

/// `num / den` rounded to the nearest integer, a tie going to the even
/// neighbour; for `num >= 0` and `den > 0`.
pub open spec fn round_half_even(num: int, den: int) -> int {
    let q = num / den;
    let r = num % den;
    if 2 * r < den {
        q
    } else if 2 * r > den {
        q + 1
    } else if q % 2 == 0 {
        q
    } else {
        q + 1
    }
}

/// Recording an attempt keeps an aggregate valid.
pub proof fn lemma_record_valid(s: StatsModel, success: bool, rtt: nat)
    requires
        s.valid(),
    ensures
        s.record(success, rtt).valid(),
{
    let t = s.record(success, rtt);
    if success {
        if s.received > 0 {
            let r = s.received as int;
            let lo = s.min_rtt->0 as int;
            let hi = s.max_rtt->0 as int;
            let lo2 = t.min_rtt->0 as int;
            let hi2 = t.max_rtt->0 as int;
            assert(r * lo2 <= r * lo) by (nonlinear_arith)
                requires
                    r >= 0,
                    lo2 <= lo,
            ;
            assert(r * hi <= r * hi2) by (nonlinear_arith)
                requires
                    r >= 0,
                    hi <= hi2,
            ;
            assert((r + 1) * lo2 == r * lo2 + lo2) by (nonlinear_arith);
            assert((r + 1) * hi2 == r * hi2 + hi2) by (nonlinear_arith);
        }
    }
}

/// Whole milliseconds in a duration of `nanos` nanoseconds, zero for an
/// absent duration.
pub open spec fn millis_or_zero(nanos: Option<nat>) -> nat {
    match nanos {
        Some(n) => n / 1_000_000,
        None => 0,
    }
}

/// A number of tenths written with one decimal: `"12.5"` for 125.
pub open spec fn one_decimal_text(tenths: nat) -> Seq<char> {
    decimal(tenths / 10) + "."@ + decimal(tenths % 10)
}

/// The two summary lines of an aggregate.
pub open spec fn summary_text(s: StatsModel) -> Seq<char> {
    "Packets: Sent = "@ + decimal(s.sent) + ", Received = "@ + decimal(s.received)
        + ", Lost = "@ + decimal(s.lost() as nat) + " ("@ + one_decimal_text(
        s.loss_tenths() as nat,
    ) + "% loss)\nRound Trip Times: Min = "@ + decimal(millis_or_zero(s.min_rtt))
        + "ms, Max = "@ + decimal(millis_or_zero(s.max_rtt)) + "ms, Avg = "@ + decimal(
        millis_or_zero(s.average_rtt()),
    ) + "ms"@
}

/// The running aggregate of one target. Durations are in nanoseconds.
#[derive(Clone, Copy, Debug)]
pub struct PingStats {
    pub sent: u64,
    pub received: u64,
    pub min_rtt: Option<u64>,
    pub max_rtt: Option<u64>,
    pub total_rtt: u128,
}

impl View for PingStats {
    type V = StatsModel;

    open spec fn view(&self) -> StatsModel {
        StatsModel {
            sent: self.sent as nat,
            received: self.received as nat,
            min_rtt: match self.min_rtt {
                Some(m) => Some(m as nat),
                None => None,
            },
            max_rtt: match self.max_rtt {
                Some(m) => Some(m as nat),
                None => None,
            },
            total_rtt: self.total_rtt as nat,
        }
    }
}

impl Default for PingStats {
    fn default() -> (s: PingStats)
        ensures
            s@ == StatsModel::empty(),
            s.wf(),
    {
        PingStats { sent: 0, received: 0, min_rtt: None, max_rtt: None, total_rtt: 0 }
    }
}

impl PingStats {
    /// The fields describe an aggregate that attempts can produce.
    pub open spec fn wf(&self) -> bool {
        self@.valid()
    }

    /// Whether the fields describe an aggregate that attempts can produce.
    pub fn is_well_formed(&self) -> (b: bool)
        ensures
            b == self.wf(),
    {
        if self.received > self.sent {
            return false;
        }
        match (self.min_rtt, self.max_rtt) {
            (Some(lo), Some(hi)) => {
                let n: u128 = self.received as u128;
                assert(n * lo <= u64::MAX * u64::MAX && n * hi <= u64::MAX * u64::MAX)
                    by (nonlinear_arith)
                    requires
                        0 <= n <= u64::MAX,
                        0 <= lo <= u64::MAX,
                        0 <= hi <= u64::MAX,
                ;
                self.received > 0 && lo <= hi && n * (lo as u128) <= self.total_rtt
                    && self.total_rtt <= n * (hi as u128)
            },
            (None, None) => self.received == 0 && self.total_rtt == 0,
            _ => false,
        }
    }

    /// Records one attempt: it counts as sent, and a success also counts as
    /// received and enters the total and the extrema.
    pub fn update(&mut self, result: &PingResult)
        requires
            old(self).wf(),
            old(self).sent < u64::MAX,
        ensures
            final(self)@ == old(self)@.record(result.success, result.rtt as nat),
            final(self).wf(),
    {
        proof {
            lemma_record_valid(self@, result.success, result.rtt as nat);
            if self.received > 0 {
                assert(self.received * self.max_rtt->0 <= (u64::MAX - 1) * u64::MAX)
                    by (nonlinear_arith)
                    requires
                        self.received <= u64::MAX - 1,
                        self.max_rtt->0 <= u64::MAX,
                ;
            }
        }
        self.sent += 1;
        if result.success {
            self.received += 1;
            self.total_rtt += result.rtt as u128;
            match self.min_rtt {
                Some(min_rtt) => {
                    if result.rtt < min_rtt {
                        self.min_rtt = Some(result.rtt);
                    }
                },
                None => {
                    self.min_rtt = Some(result.rtt);
                },
            }
            match self.max_rtt {
                Some(max_rtt) => {
                    if result.rtt > max_rtt {
                        self.max_rtt = Some(result.rtt);
                    }
                },
                None => {
                    self.max_rtt = Some(result.rtt);
                },
            }
        }
    }

    /// The mean duration of the successes in nanoseconds, rounded down;
    /// `None` while nothing was received.
    pub fn average_rtt(&self) -> (avg: Option<u64>)
        requires
            self.wf(),
        ensures
            avg is Some <==> self.received > 0,
            avg matches Some(a) ==> a == self.total_rtt / (self.received as u128),
            avg matches Some(a) ==> self.min_rtt->0 <= a <= self.max_rtt->0,
            match avg {
                Some(a) => self@.average_rtt() == Some(a as nat),
                None => self@.average_rtt() is None,
            },
    {
        if self.received > 0 {
            let avg: u128 = self.total_rtt / (self.received as u128);
            proof {
                lemma_average_between(self@);
            }
            Some(avg as u64)
        } else {
            None
        }
    }

    /// The share of attempts that got no answer, in tenths of a percent and
    /// rounded to the nearest tenth (a tie goes to the even one): 125 stands
    /// for 12.5 %. Zero while nothing was sent.
    pub fn loss_percentage(&self) -> (tenths: u64)
        requires
            self.wf(),
        ensures
            tenths == self@.loss_tenths(),
            tenths <= 1000,
    {
        if self.sent == 0 {
            0
        } else {
            let den: u128 = self.sent as u128;
            let num: u128 = ((self.sent - self.received) as u128) * 1000;
            let q: u128 = num / den;
            let r: u128 = num % den;
            proof {
                lemma_loss_bounded(self@);
            }
            let rounded: u128 = if 2 * r < den {
                q
            } else if 2 * r > den {
                q + 1
            } else if q % 2 == 0 {
                q
            } else {
                q + 1
            };
            rounded as u64
        }
    }

    /// The two summary lines: the packet counts with the loss to one decimal,
    /// then minimum, maximum and mean round trip in whole milliseconds (zero
    /// where nothing was received).
    pub fn format_summary(&self) -> (text: String)
        requires
            self.wf(),
        ensures
            text@ == summary_text(self@),
    {
        let tenths: u64 = self.loss_percentage();
        let avg_ms: u64 = match self.average_rtt() {
            Some(a) => a / 1_000_000,
            None => 0,
        };
        let min_ms: u64 = match self.min_rtt {
            Some(m) => m / 1_000_000,
            None => 0,
        };
        let max_ms: u64 = match self.max_rtt {
            Some(m) => m / 1_000_000,
            None => 0,
        };
        let mut text = String::from_str("Packets: Sent = ");
        push_decimal(&mut text, self.sent as u128);
        text.append(", Received = ");
        push_decimal(&mut text, self.received as u128);
        text.append(", Lost = ");
        push_decimal(&mut text, (self.sent - self.received) as u128);
        text.append(" (");
        push_decimal(&mut text, (tenths / 10) as u128);
        text.append(".");
        push_decimal(&mut text, (tenths % 10) as u128);
        text.append("% loss)\nRound Trip Times: Min = ");
        push_decimal(&mut text, min_ms as u128);
        text.append("ms, Max = ");
        push_decimal(&mut text, max_ms as u128);
        text.append("ms, Avg = ");
        push_decimal(&mut text, avg_ms as u128);
        text.append("ms");
        text
    }
}

/// The rounded loss of a valid aggregate lies between 0 and 100 percent.
pub proof fn lemma_loss_bounded(s: StatsModel)
    requires
        s.valid(),
    ensures
        0 <= s.loss_tenths() <= 1000,
{
    if s.sent > 0 {
        let den = s.sent as int;
        let num = s.lost() * 1000;
        let q = num / den;
        let r = num % den;
        assert(num == den * q + r && 0 <= r < den) by {
            vstd::arithmetic::div_mod::lemma_fundamental_div_mod(num, den);
            vstd::arithmetic::div_mod::lemma_mod_bound(num, den);
        }
        assert(0 <= q) by (nonlinear_arith)
            requires
                den > 0,
                num >= 0,
                num == den * q + r,
                r < den,
        ;
        assert(q <= 1000 && (q == 1000 ==> r == 0)) by (nonlinear_arith)
            requires
                den > 0,
                num <= 1000 * den,
                num == den * q + r,
                0 <= r,
        ;
    }
}

/// The mean of a valid aggregate lies between its extrema.
pub proof fn lemma_average_between(s: StatsModel)
    requires
        s.valid(),
        s.received > 0,
    ensures
        s.min_rtt->0 <= s.average_rtt()->0 <= s.max_rtt->0,
{
    let r = s.received as int;
    let t = s.total_rtt as int;
    let lo = s.min_rtt->0 as int;
    let hi = s.max_rtt->0 as int;
    let a = t / r;
    assert(r * a <= t < r * a + r) by {
        vstd::arithmetic::div_mod::lemma_fundamental_div_mod(t, r);
        vstd::arithmetic::div_mod::lemma_mod_bound(t, r);
    }
    assert(lo <= a) by (nonlinear_arith)
        requires
            r > 0,
            r * lo <= t,
            t < r * a + r,
    ;
    assert(a <= hi) by (nonlinear_arith)
        requires
            r > 0,
            t <= r * hi,
            r * a <= t,
    ;
}

/// The table of aggregates as a list of targets with their aggregates, in
/// the order in which the targets were first heard of.
pub type Table = Seq<(Seq<char>, StatsModel)>;

/// Some row of the table belongs to `target`.
pub open spec fn table_has(t: Table, target: Seq<char>) -> bool {
    exists|i: int| 0 <= i < t.len() && (#[trigger] t[i]).0 == target
}

/// The row of `target`, where the table has one.
pub open spec fn table_row(t: Table, target: Seq<char>) -> int {
    choose|i: int| 0 <= i < t.len() && (#[trigger] t[i]).0 == target
}

/// The aggregate of `target`, `None` where nothing was recorded for it.
pub open spec fn table_get(t: Table, target: Seq<char>) -> Option<StatsModel> {
    if table_has(t, target) {
        Some(t[table_row(t, target)].1)
    } else {
        None
    }
}

/// The table after one more attempt on `target`: its row takes the attempt
/// in, or a new last row starts from the empty aggregate.
pub open spec fn table_record(t: Table, target: Seq<char>, success: bool, rtt: nat) -> Table {
    if table_has(t, target) {
        let i = table_row(t, target);
        t.update(i, (target, t[i].1.record(success, rtt)))
    } else {
        t.push((target, StatsModel::empty().record(success, rtt)))
    }
}

/// No target has two rows, and every row holds a valid aggregate of at
/// least one attempt.
pub open spec fn table_valid(t: Table) -> bool {
    &&& forall|i: int, j: int|
        0 <= i < j < t.len() ==> (#[trigger] t[i]).0 != (#[trigger] t[j]).0
    &&& forall|i: int| 0 <= i < t.len() ==> (#[trigger] t[i]).1.valid() && t[i].1.sent >= 1
}

/// The block of the final report that one row gives.
pub open spec fn row_text(row: (Seq<char>, StatsModel)) -> Seq<char> {
    "Statistics for "@ + row.0 + ":\n"@ + summary_text(row.1)
}

/// The final report: the blocks of all rows, in the order of the table.
pub open spec fn report_text(t: Table) -> Seq<char>
    decreases t.len(),
{
    if t.len() == 0 {
        Seq::empty()
    } else {
        report_text(t.drop_last()) + row_text(t.last())
    }
}

/// Recording an attempt keeps a table valid.
pub proof fn lemma_table_record_valid(t: Table, target: Seq<char>, success: bool, rtt: nat)
    requires
        table_valid(t),
    ensures
        table_valid(table_record(t, target, success, rtt)),
{
    if table_has(t, target) {
        lemma_record_valid(t[table_row(t, target)].1, success, rtt);
    } else {
        lemma_record_valid(StatsModel::empty(), success, rtt);
    }
}

/// In a table without repeated targets, a row that bears `target` is the row
/// of `target`.
pub proof fn lemma_table_row_unique(t: Table, target: Seq<char>, i: int)
    requires
        table_valid(t),
        0 <= i < t.len(),
        t[i].0 == target,
    ensures
        table_has(t, target),
        table_row(t, target) == i,
        table_get(t, target) == Some(t[i].1),
{
    let j = table_row(t, target);
    assert(t[j].0 == t[i].0);
}

/// The table of per-target aggregates: one row per target, kept in the
/// order in which the targets were first heard of.
#[derive(Debug)]
pub struct StatsCollector {
    targets: Vec<String>,
    stats: Vec<PingStats>,
}

impl View for StatsCollector {
    type V = Table;

    closed spec fn view(&self) -> Table {
        Seq::new(self.targets.len() as nat, |i: int| (self.targets[i]@, self.stats[i]@))
    }
}

impl Default for StatsCollector {
    fn default() -> (c: StatsCollector)
        ensures
            c@ == Seq::<(Seq<char>, StatsModel)>::empty(),
            c.wf(),
    {
        StatsCollector::new()
    }
}

impl StatsCollector {
    /// The two columns have one length and the table they form is valid.
    pub closed spec fn wf(&self) -> bool {
        &&& self.targets.len() == self.stats.len()
        &&& table_valid(self@)
    }

    /// A well-formed collector holds a valid table.
    pub proof fn lemma_wf_table_valid(&self)
        requires
            self.wf(),
        ensures
            table_valid(self@),
    {
    }

    /// The empty table.
    pub fn new() -> (c: StatsCollector)
        ensures
            c@ == Seq::<(Seq<char>, StatsModel)>::empty(),
            c.wf(),
    {
        let c = StatsCollector { targets: Vec::new(), stats: Vec::new() };
        c
    }

    /// The row that bears `target`, if there is one.
    fn find(&self, target: &String) -> (row: Option<usize>)
        requires
            self.wf(),
        ensures
            match row {
                Some(i) => i < self@.len() && table_has(self@, target@) && table_row(
                    self@,
                    target@,
                ) == i,
                None => !table_has(self@, target@),
            },
    {
        let mut i: usize = 0;
        while i < self.targets.len()
            invariant
                self.wf(),
                i <= self.targets.len(),
                forall|j: int| 0 <= j < i ==> (#[trigger] self@[j]).0 != target@,
            decreases self.targets.len() - i,
        {
            if self.targets[i] == *target {
                proof {
                    lemma_table_row_unique(self@, target@, i as int);
                }
                return Some(i);
            }
            i += 1;
        }
        None
    }

    /// Takes one result into the row of its target, which is created on the
    /// target's first result.
    pub fn update(&mut self, result: &PingResult)
        requires
            old(self).wf(),
            table_get(old(self)@, result.target@) matches Some(s) ==> s.sent < u64::MAX,
        ensures
            final(self)@ == table_record(
                old(self)@,
                result.target@,
                result.success,
                result.rtt as nat,
            ),
            final(self).wf(),
    {
        proof {
            lemma_table_record_valid(self@, result.target@, result.success, result.rtt as nat);
        }
        match self.find(&result.target) {
            Some(i) => {
                let mut row: PingStats = self.stats[i];
                row.update(result);
                self.stats.set(i, row);
                assert(self@ =~= table_record(
                    old(self)@,
                    result.target@,
                    result.success,
                    result.rtt as nat,
                ));
            },
            None => {
                let mut row = PingStats::default();
                row.update(result);
                self.targets.push(result.target.clone());
                self.stats.push(row);
                assert(self@ =~= table_record(
                    old(self)@,
                    result.target@,
                    result.success,
                    result.rtt as nat,
                ));
            },
        }
    }

    /// The aggregate of `target`; `None` where no result for it was taken in.
    pub fn get_stats(&self, target: &str) -> (stats: Option<&PingStats>)
        requires
            self.wf(),
        ensures
            match stats {
                Some(s) => table_get(self@, target@) == Some(s@) && s.wf() && s.sent >= 1,
                None => table_get(self@, target@) is None,
            },
    {
        let key = String::from_str(target);
        match self.find(&key) {
            Some(i) => {
                Some(&self.stats[i])
            },
            None => None,
        }
    }

    /// The final report: for every row, in the order of the table, a heading
    /// with the target and the summary of its aggregate.
    pub fn format_all_stats(&self) -> (text: String)
        requires
            self.wf(),
        ensures
            text@ == report_text(self@),
    {
        let mut text = String::new();
        let mut i: usize = 0;
        while i < self.targets.len()
            invariant
                self.wf(),
                i <= self.targets.len(),
                text@ == report_text(self@.take(i as int)),
            decreases self.targets.len() - i,
        {
            assert(self@[i as int].1 == self.stats[i as int]@);
            let summary = self.stats[i].format_summary();
            proof {
                assert(self@.take(i + 1).drop_last() =~= self@.take(i as int));
            }
            text.append("Statistics for ");
            text.append(self.targets[i].as_str());
            text.append(":\n");
            text.append(summary.as_str());
            i += 1;
        }
        assert(self@.take(i as int) =~= self@);
        text
    }
}

/// The table after a whole history of attempts, each given as its target,
/// its outcome and its duration, oldest first.
pub open spec fn table_after(history: Seq<(Seq<char>, bool, nat)>) -> Table
    decreases history.len(),
{
    if history.len() == 0 {
        Seq::empty()
    } else {
        let e = history.last();
        table_record(table_after(history.drop_last()), e.0, e.1, e.2)
    }
}

/// The attempts of a history that went to `target`, in their order.
pub open spec fn history_of(history: Seq<(Seq<char>, bool, nat)>, target: Seq<char>) -> Seq<
    (bool, nat),
>
    decreases history.len(),
{
    if history.len() == 0 {
        Seq::empty()
    } else {
        let e = history.last();
        let earlier = history_of(history.drop_last(), target);
        if e.0 == target {
            earlier.push((e.1, e.2))
        } else {
            earlier
        }
    }
}

/// Every history of attempts on one target leaves a valid aggregate: never
/// more received than sent, a minimum that does not exceed the maximum, and
/// a loss between 0 and 100 percent.
pub proof fn lemma_history_valid(history: Seq<(bool, nat)>)
    ensures
        StatsModel::after(history).valid(),
        StatsModel::after(history).received <= StatsModel::after(history).sent,
        StatsModel::after(history).sent == history.len(),
        0 <= StatsModel::after(history).loss_tenths() <= 1000,
        StatsModel::after(history).min_rtt is Some && StatsModel::after(history).max_rtt is Some
            ==> StatsModel::after(history).min_rtt->0 <= StatsModel::after(history).max_rtt->0,
    decreases history.len(),
{
    if history.len() > 0 {
        lemma_history_valid(history.drop_last());
        lemma_record_valid(
            StatsModel::after(history.drop_last()),
            history.last().0,
            history.last().1,
        );
    }
    lemma_loss_bounded(StatsModel::after(history));
}

/// The mean is undefined exactly while nothing was received, and is the
/// total divided by the number received otherwise; a valid aggregate has it
/// between its extrema.
pub proof fn lemma_average_defined(s: StatsModel)
    requires
        s.valid(),
    ensures
        s.average_rtt() is None <==> s.received == 0,
        s.received > 0 ==> s.average_rtt() == Some(s.total_rtt / s.received),
        s.received > 0 ==> s.min_rtt->0 <= s.average_rtt()->0 <= s.max_rtt->0,
        millis_or_zero(s.average_rtt()) == if s.received == 0 {
            0
        } else {
            (s.total_rtt / s.received) / 1_000_000
        },
{
    if s.received > 0 {
        lemma_average_between(s);
    }
}

/// What one recorded attempt changes in a valid table: the aggregate of its
/// target, and of no other target.
pub proof fn lemma_table_get_record(
    t: Table,
    target: Seq<char>,
    success: bool,
    rtt: nat,
    other: Seq<char>,
)
    requires
        table_valid(t),
    ensures
        table_get(table_record(t, target, success, rtt), target) == Some(
            (match table_get(t, target) {
                Some(s) => s,
                None => StatsModel::empty(),
            }).record(success, rtt),
        ),
        other != target ==> table_get(table_record(t, target, success, rtt), other) == table_get(
            t,
            other,
        ),
{
    let u = table_record(t, target, success, rtt);
    lemma_table_record_valid(t, target, success, rtt);
    let changed: int = if table_has(t, target) {
        table_row(t, target)
    } else {
        t.len() as int
    };
    lemma_table_row_unique(u, target, changed);
    if other != target {
        if table_has(t, other) {
            let j = table_row(t, other);
            lemma_table_row_unique(u, other, j);
        } else if table_has(u, other) {
            let a = table_row(u, other);
            assert(t[a].0 == other);
        }
    }
}

/// Every history leaves a valid table.
pub proof fn lemma_table_after_valid(history: Seq<(Seq<char>, bool, nat)>)
    ensures
        table_valid(table_after(history)),
    decreases history.len(),
{
    if history.len() > 0 {
        let e = history.last();
        lemma_table_after_valid(history.drop_last());
        lemma_table_record_valid(table_after(history.drop_last()), e.0, e.1, e.2);
    }
}

/// The aggregate that a history leaves for a target is the one that the
/// target's own attempts alone give, in their order: attempts on other
/// targets, wherever they fall in between, change nothing of it. A target
/// has a row exactly when the history holds an attempt on it.
pub proof fn lemma_table_after_per_target(
    history: Seq<(Seq<char>, bool, nat)>,
    target: Seq<char>,
)
    ensures
        table_get(table_after(history), target) == if history_of(history, target).len() == 0 {
            None
        } else {
            Some(StatsModel::after(history_of(history, target)))
        },
    decreases history.len(),
{
    if history.len() > 0 {
        let e = history.last();
        let earlier = history.drop_last();
        lemma_table_after_per_target(earlier, target);
        lemma_table_after_valid(earlier);
        lemma_table_get_record(table_after(earlier), e.0, e.1, e.2, target);
        if e.0 == target {
            let own = history_of(history, target);
            assert(own.drop_last() =~= history_of(earlier, target));
        }
    }
}

/// Two histories whose attempts on `target` agree leave the same aggregate
/// for it, however the attempts on other targets are interleaved.
pub proof fn lemma_interleaving_irrelevant(
    first: Seq<(Seq<char>, bool, nat)>,
    second: Seq<(Seq<char>, bool, nat)>,
    target: Seq<char>,
)
    requires
        history_of(first, target) == history_of(second, target),
    ensures
        table_get(table_after(first), target) == table_get(table_after(second), target),
{
    lemma_table_after_per_target(first, target);
    lemma_table_after_per_target(second, target);
}

/// Reporting changes nothing and depends on the table alone: two reports
/// of one table, with no attempt recorded in between, are the same text.
pub proof fn lemma_report_repeatable(table: Table, first: Seq<char>, second: Seq<char>)
    requires
        first == report_text(table),
        second == report_text(table),
    ensures
        first == second,
{
}

} // verus!
