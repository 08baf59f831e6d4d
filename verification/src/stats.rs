//! Statistics of a run: how many units were dispatched, how many failed, and
//! how long they took.

use vstd::prelude::*;
use vstd::string::*;
use crate::decimal::{rounded_quotient, rounded_quotient_text};
use crate::outcome::ResponseData;
use crate::text::{decimal_digits, decimal_text};

verus! {

/// The number of failed units among `outcomes`.
pub open spec fn failures<T>(outcomes: Seq<ResponseData<T>>) -> nat
    decreases outcomes.len(),
{
    if outcomes.len() == 0 {
        0
    } else {
        failures(outcomes.drop_last()) + if outcomes.last().is_failure() {
            1nat
        } else {
            0nat
        }
    }
}

/// The sum of the latencies of `outcomes`.
pub open spec fn latency_sum<T>(outcomes: Seq<ResponseData<T>>) -> nat
    decreases outcomes.len(),
{
    if outcomes.len() == 0 {
        0
    } else {
        latency_sum(outcomes.drop_last()) + outcomes.last().duration as nat
    }
}

/// `latency` is the smallest latency recorded in `outcomes`.
pub open spec fn is_min_latency<T>(outcomes: Seq<ResponseData<T>>, latency: u128) -> bool {
    &&& exists|i: int| 0 <= i < outcomes.len() && #[trigger] outcomes[i].duration == latency
    &&& forall|i: int| 0 <= i < outcomes.len() ==> latency <= #[trigger] outcomes[i].duration
}

/// `latency` is the largest latency recorded in `outcomes`.
pub open spec fn is_max_latency<T>(outcomes: Seq<ResponseData<T>>, latency: u128) -> bool {
    &&& exists|i: int| 0 <= i < outcomes.len() && #[trigger] outcomes[i].duration == latency
    &&& forall|i: int| 0 <= i < outcomes.len() ==> latency >= #[trigger] outcomes[i].duration
}

/// Digits kept behind the decimal point of a ratio, an average or a rate.
pub const DECIMAL_PLACES: u8 = 2;

/// One line of a report: a label, a value that may be missing, and a unit.
pub open spec fn labelled(label: Seq<char>, value: Option<Seq<char>>, unit: Seq<char>) -> Seq<
    char,
> {
    match value {
        Some(text) => label + text + unit,
        None => label + "no data"@,
    }
}

fn labelled_line(label: &str, value: &Option<String>, unit: &str) -> (line: String)
    ensures
        line@ == labelled(label@, value.deep_view(), unit@),
{
    let mut line = String::from_str(label);
    match value {
        Some(text) => {
            line.append(text.as_str());
            line.append(unit);
        },
        None => {
            line.append("no data");
        },
    }
    line
}

/// The statistics of one run. Durations are in milliseconds.
#[derive(Clone, Copy, Debug, PartialEq, Eq)]
pub struct RunStatistics {
    /// Units dispatched.
    pub total_requests: usize,
    /// Units that brought a payload.
    pub succeeded: usize,
    /// Units that brought none.
    pub failed: usize,
    /// Smallest latency; zero when nothing was dispatched.
    pub min_latency: u128,
    /// Largest latency; zero when nothing was dispatched.
    pub max_latency: u128,
    /// Sum of all latencies, held at `u128::MAX` if it would exceed it.
    pub sum_latency: u128,
    /// Time the whole run took, setup included.
    pub run_duration: u128,
    /// Time from submitting the first unit to receiving the last outcome.
    pub dispatch_window: u128,
}

impl RunStatistics {
    /// Whether the numbers agree with each other: every unit either succeeded
    /// or failed, no latency was recorded where nothing was dispatched, and
    /// else the smallest latency is no more than the largest, which is no
    /// more than the sum.
    pub open spec fn is_consistent(self) -> bool {
        &&& self.succeeded + self.failed == self.total_requests
        &&& self.min_latency <= self.max_latency <= self.sum_latency
        &&& self.total_requests == 0 ==> self.sum_latency == 0
    }

    /// These statistics are those of `outcomes`.
    pub open spec fn summarizes<T>(self, outcomes: Seq<ResponseData<T>>) -> bool {
        &&& self.total_requests == outcomes.len()
        &&& self.failed == failures(outcomes)
        &&& self.succeeded == outcomes.len() - failures(outcomes)
        &&& self.sum_latency == if latency_sum(outcomes) <= u128::MAX {
            latency_sum(outcomes)
        } else {
            u128::MAX as nat
        }
        &&& if outcomes.len() == 0 {
            self.min_latency == 0 && self.max_latency == 0
        } else {
            is_min_latency(outcomes, self.min_latency) && is_max_latency(
                outcomes,
                self.max_latency,
            )
        }
    }

    /// Scans `outcomes` once and returns their statistics, together with the
    /// two durations measured around them.
    pub fn accumulate<T>(
        outcomes: &Vec<ResponseData<T>>,
        run_duration: u128,
        dispatch_window: u128,
    ) -> (stats: RunStatistics)
        ensures
            stats.summarizes(outcomes@),
            stats.is_consistent(),
            stats.run_duration == run_duration,
            stats.dispatch_window == dispatch_window,
            stats.succeeded + stats.failed == stats.total_requests,
            forall|i: int|
                0 <= i < outcomes.len() ==> stats.min_latency <= (#[trigger] outcomes[i]).duration
                    <= stats.max_latency,
    {
        let mut failed: usize = 0;
        let mut min_latency: u128 = 0;
        let mut max_latency: u128 = 0;
        let mut sum_latency: u128 = 0;
        let mut i: usize = 0;
        while i < outcomes.len()
            invariant
                i <= outcomes.len(),
                failed == failures(outcomes@.take(i as int)),
                failed <= i,
                max_latency <= sum_latency,
                sum_latency == if latency_sum(outcomes@.take(i as int)) <= u128::MAX {
                    latency_sum(outcomes@.take(i as int))
                } else {
                    u128::MAX as nat
                },
                if i == 0 {
                    min_latency == 0 && max_latency == 0
                } else {
                    is_min_latency(outcomes@.take(i as int), min_latency) && is_max_latency(
                        outcomes@.take(i as int),
                        max_latency,
                    )
                },
            decreases outcomes.len() - i,
        {
            let ghost seen = outcomes@.take(i as int);
            let ghost next = outcomes@.take(i + 1);
            let ghost old_min = min_latency;
            let ghost old_max = max_latency;
            let outcome = &outcomes[i];
            proof {
                assert(next.drop_last() =~= seen);
                assert(next.last() == outcomes@[i as int]);
                assert(forall|j: int| 0 <= j < i ==> seen[j] == next[j]);
            }
            if outcome.failed() {
                failed = failed + 1;
            }
            sum_latency = sum_latency.saturating_add(outcome.duration);
            if i == 0 || outcome.duration < min_latency {
                min_latency = outcome.duration;
            }
            if i == 0 || outcome.duration > max_latency {
                max_latency = outcome.duration;
            }
            proof {
                if i > 0 {
                    let lo = choose|j: int|
                        0 <= j < seen.len() && #[trigger] seen[j].duration == old_min;
                    let hi = choose|j: int|
                        0 <= j < seen.len() && #[trigger] seen[j].duration == old_max;
                    assert(next[lo] == seen[lo]);
                    assert(next[hi] == seen[hi]);
                }
                assert(next[i as int].duration == outcome.duration);
                assert(is_min_latency(next, min_latency));
                assert(is_max_latency(next, max_latency));
            }
            i = i + 1;
        }
        assert(outcomes@.take(i as int) =~= outcomes@);
        RunStatistics {
            total_requests: outcomes.len(),
            succeeded: outcomes.len() - failed,
            failed,
            min_latency,
            max_latency,
            sum_latency,
            run_duration,
            dispatch_window,
        }
    }

    /// The share of succeeded units in percent, or nothing when no unit was
    /// dispatched.
    pub open spec fn spec_success_ratio(self) -> Option<Seq<char>> {
        if self.total_requests == 0 {
            None
        } else {
            Some(
                rounded_quotient_text(
                    (self.succeeded * 100) as nat,
                    self.total_requests as nat,
                    DECIMAL_PLACES as nat,
                ),
            )
        }
    }

    /// The mean latency in milliseconds, or nothing when no unit was
    /// dispatched.
    pub open spec fn spec_average_latency(self) -> Option<Seq<char>> {
        if self.total_requests == 0 {
            None
        } else {
            Some(
                rounded_quotient_text(
                    self.sum_latency as nat,
                    self.total_requests as nat,
                    DECIMAL_PLACES as nat,
                ),
            )
        }
    }

    /// Units per second of the dispatch window, or nothing when no unit was
    /// dispatched or the window took no measurable time.
    pub open spec fn spec_throughput(self) -> Option<Seq<char>> {
        if self.total_requests == 0 || self.dispatch_window == 0 {
            None
        } else {
            Some(
                rounded_quotient_text(
                    (self.total_requests * 1000) as nat,
                    self.dispatch_window as nat,
                    DECIMAL_PLACES as nat,
                ),
            )
        }
    }

    /// The share of succeeded units in percent, to two decimal places.
    /// Nothing is divided when no unit was dispatched.
    pub fn success_ratio(&self) -> (ratio: Option<String>)
        ensures
            ratio.deep_view() == self.spec_success_ratio(),
            ratio is None <==> self.total_requests == 0,
    {
        if self.total_requests == 0 {
            None
        } else {
            Some(
                rounded_quotient(
                    self.succeeded as u128 * 100,
                    self.total_requests as u128,
                    DECIMAL_PLACES,
                ),
            )
        }
    }

    /// The mean latency in milliseconds, to two decimal places. Nothing is
    /// divided when no unit was dispatched.
    pub fn average_latency(&self) -> (average: Option<String>)
        ensures
            average.deep_view() == self.spec_average_latency(),
            average is None <==> self.total_requests == 0,
    {
        if self.total_requests == 0 {
            None
        } else {
            Some(rounded_quotient(self.sum_latency, self.total_requests as u128, DECIMAL_PLACES))
        }
    }

    /// Units per second of the dispatch window, to two decimal places.
    /// Nothing is divided when no unit was dispatched or the window is zero.
    pub fn throughput(&self) -> (rate: Option<String>)
        ensures
            rate.deep_view() == self.spec_throughput(),
            rate is None <==> self.total_requests == 0 || self.dispatch_window == 0,
    {
        if self.total_requests == 0 || self.dispatch_window == 0 {
            None
        } else {
            Some(
                rounded_quotient(
                    self.total_requests as u128 * 1000,
                    self.dispatch_window,
                    DECIMAL_PLACES,
                ),
            )
        }
    }

    /// The lines of the summary, given the three derived values as text.
    pub open spec fn report_lines(
        self,
        success_ratio: Option<Seq<char>>,
        average: Option<Seq<char>>,
        throughput: Option<Seq<char>>,
    ) -> Seq<Seq<char>> {
        seq![
            ""@,
            "Total requests: "@ + decimal_digits(self.total_requests as nat),
            "Succeed: "@ + decimal_digits(self.succeeded as nat),
            "Failed: "@ + decimal_digits(self.failed as nat),
            labelled("Success rate: "@, success_ratio, "%"@),
            "Min: "@ + decimal_digits(self.min_latency as nat) + " ms"@,
            labelled("Avg: "@, average, " ms"@),
            "Max: "@ + decimal_digits(self.max_latency as nat) + " ms"@,
            labelled("Requests per second: "@, throughput, ""@),
            "Run duration: "@ + decimal_digits(self.run_duration as nat) + " ms"@,
        ]
    }

    /// Writes the summary of the run, one string per line, from these
    /// statistics and the three derived values. A missing value is reported
    /// as `no data`.
    pub fn render(
        &self,
        success_ratio: &Option<String>,
        average: &Option<String>,
        throughput: &Option<String>,
    ) -> (lines: Vec<String>)
        ensures
            lines.deep_view() == self.report_lines(
                success_ratio.deep_view(),
                average.deep_view(),
                throughput.deep_view(),
            ),
    {
        let total = Some(decimal_text(self.total_requests as u128));
        let succeeded = Some(decimal_text(self.succeeded as u128));
        let failed = Some(decimal_text(self.failed as u128));
        let min = Some(decimal_text(self.min_latency));
        let max = Some(decimal_text(self.max_latency));
        let run = Some(decimal_text(self.run_duration));
        let mut lines: Vec<String> = Vec::new();
        lines.push(String::from_str(""));
        lines.push(labelled_line("Total requests: ", &total, ""));
        lines.push(labelled_line("Succeed: ", &succeeded, ""));
        lines.push(labelled_line("Failed: ", &failed, ""));
        lines.push(labelled_line("Success rate: ", success_ratio, "%"));
        lines.push(labelled_line("Min: ", &min, " ms"));
        lines.push(labelled_line("Avg: ", average, " ms"));
        lines.push(labelled_line("Max: ", &max, " ms"));
        lines.push(labelled_line("Requests per second: ", throughput, ""));
        lines.push(labelled_line("Run duration: ", &run, " ms"));
        proof {
            reveal_strlit("");
            assert(lines.deep_view() =~= self.report_lines(
                success_ratio.deep_view(),
                average.deep_view(),
                throughput.deep_view(),
            ));
        }
        lines
    }

    /// Writes the summary of the run, one string per line.
    pub fn report(&self) -> (lines: Vec<String>)
        ensures
            lines.deep_view() == self.report_lines(
                self.spec_success_ratio(),
                self.spec_average_latency(),
                self.spec_throughput(),
            ),
    {
        let success_ratio = self.success_ratio();
        let average = self.average_latency();
        let throughput = self.throughput();
        self.render(&success_ratio, &average, &throughput)
    }
}

} // verus!
