//! The runtime estimator: how long a run will take at best, on average and at
//! worst, computed from the parameters and the size of the text alone.
//!
//! A probability in parts per million times a delay in milliseconds is a
//! whole number of nanoseconds, so the estimates are exact in nanoseconds.

use crate::config::{Configuration, Settings, NANOS_PER_MILLI};
use vstd::prelude::*;

verus! {

/// The three predictions for one run, each in nanoseconds.
#[derive(Clone, Copy, Debug, PartialEq, Eq, Structural)]
pub struct RuntimeEstimate {
    /// Every delay as short as it can be, and no typo.
    pub lowest: u128,
    /// Every delay and every typo of average length, typos as frequent as
    /// configured.
    pub average: u128,
    /// Every delay as long as it can be, typos of full length as frequent as
    /// configured.
    pub worst_case: u128,
}

/// The number of keystrokes that make up the text: every character of every
/// line, and one line terminator per line.
pub open spec fn text_size(lines: Seq<Vec<char>>) -> nat
    decreases lines.len(),
{
    if lines.len() == 0 {
        0
    } else {
        text_size(lines.drop_last()) + lines.last()@.len() + 1
    }
}

/// The middle of the delay bounds, rounded down, in milliseconds.
pub open spec fn average_delay(settings: Settings) -> int {
    (settings.min_delay + settings.max_delay) / 2
}

/// The middle of the typo length bounds, rounded down.
pub open spec fn average_typo_chars(settings: Settings) -> int {
    (settings.typo_chars_min + settings.typo_chars_max) / 2
}

/// Nanoseconds that typos add to a character on average, where a typo has
/// `chars` extra characters and every keystroke takes `delay` milliseconds:
/// each extra character is typed once and erased once.
pub open spec fn typo_adjustment(settings: Settings, chars: int, delay: int) -> int {
    settings.typo_ppm * chars * 2 * delay
}

/// Nanoseconds that one character takes at best.
pub open spec fn lowest_cost(settings: Settings) -> int {
    settings.min_delay * NANOS_PER_MILLI
}

/// Nanoseconds that one character takes on average.
pub open spec fn average_cost(settings: Settings) -> int {
    average_delay(settings) * NANOS_PER_MILLI + typo_adjustment(
        settings,
        average_typo_chars(settings),
        average_delay(settings),
    )
}

/// Nanoseconds that one character takes at worst.
pub open spec fn worst_cost(settings: Settings) -> int {
    settings.max_delay * NANOS_PER_MILLI + typo_adjustment(
        settings,
        settings.typo_chars_max as int,
        settings.max_delay as int,
    )
}

impl RuntimeEstimate {
    /// The estimate is the one that the parameters give for a text of
    /// `total_chars` keystrokes.
    pub open spec fn is_for(self, settings: Settings, total_chars: nat) -> bool {
        &&& self.lowest == total_chars * lowest_cost(settings)
        &&& self.average == total_chars * average_cost(settings)
        &&& self.worst_case == total_chars * worst_cost(settings)
    }

    /// The points of the bar chart that shows the estimate: an empty bar,
    /// then one bar each for the lowest, the average and the worst case.
    pub open spec fn chart(self) -> Seq<(u64, u128)> {
        seq![(0u64, 0u128), (1u64, self.lowest), (2u64, self.average), (3u64, self.worst_case)]
    }

    /// The four points of the bar chart that shows the estimate.
    pub fn bar_series(&self) -> (points: Vec<(u64, u128)>)
        ensures
            points@ == self.chart(),
    {
        let mut points: Vec<(u64, u128)> = Vec::new();
        points.push((0, 0));
        points.push((1, self.lowest));
        points.push((2, self.average));
        points.push((3, self.worst_case));
        assert(points@ =~= self.chart());
        points
    }
}

/// A typo adjustment grows with the length of the typo and with the delay,
/// and, added to the delay itself, stays within the cost that valid
/// parameters allow for one character.
proof fn lemma_adjustment_bounds(settings: Settings, chars: int, delay: int)
    requires
        settings.valid(),
        0 <= chars <= settings.typo_chars_max,
        0 <= delay <= settings.max_delay,
    ensures
        0 <= settings.typo_ppm * chars <= u64::MAX,
        0 <= settings.typo_ppm * chars * 2 <= u64::MAX,
        0 <= typo_adjustment(settings, chars, delay) <= typo_adjustment(
            settings,
            settings.typo_chars_max as int,
            settings.max_delay as int,
        ),
        delay * NANOS_PER_MILLI + typo_adjustment(settings, chars, delay) <= worst_cost(settings),
        worst_cost(settings) <= u64::MAX,
{
    let ppm = settings.typo_ppm as int;
    let most = settings.typo_chars_max as int;
    let slowest = settings.max_delay as int;
    assert(0 <= ppm * chars <= ppm * most) by (nonlinear_arith)
        requires
            0 <= ppm,
            0 <= chars <= most,
    ;
    assert(0 <= ppm * chars * 2 * delay <= ppm * most * 2 * slowest) by (nonlinear_arith)
        requires
            0 <= ppm * chars <= ppm * most,
            0 <= delay <= slowest,
    ;
    assert(ppm * most * 2 * slowest <= 1_000_000 * most * 2 * slowest) by (nonlinear_arith)
        requires
            0 <= ppm <= 1_000_000,
            0 <= most,
            0 <= slowest,
    ;
    assert(slowest * 1_000_000 + 1_000_000 * most * 2 * slowest == slowest * 1_000_000 * (1 + 2
        * most)) by (nonlinear_arith);
    assert(ppm * most * 2 <= ppm * most * 2 * slowest) by (nonlinear_arith)
        requires
            0 <= ppm * most,
            1 <= slowest,
    ;
    assert(delay * 1_000_000 <= slowest * 1_000_000);
}

/// The three estimates are in order: the lowest is not above the average,
/// and the average is not above the worst case.
pub proof fn lemma_estimates_ordered(settings: Settings, total_chars: nat)
    requires
        settings.valid(),
    ensures
        total_chars * lowest_cost(settings) <= total_chars * average_cost(settings),
        total_chars * average_cost(settings) <= total_chars * worst_cost(settings),
{
    lemma_adjustment_bounds(settings, average_typo_chars(settings), average_delay(settings));
    let lowest = lowest_cost(settings);
    let average = average_cost(settings);
    let worst = worst_cost(settings);
    assert(lowest <= average <= worst);
    assert(total_chars * lowest <= total_chars * average <= total_chars * worst)
        by (nonlinear_arith)
        requires
            lowest <= average <= worst,
    ;
}

/// An estimate depends on nothing but the parameters and the size of the
/// text: two estimates for the same inputs are the same.
pub proof fn lemma_estimate_is_determined(
    first: RuntimeEstimate,
    second: RuntimeEstimate,
    settings: Settings,
    total_chars: nat,
)
    requires
        first.is_for(settings, total_chars),
        second.is_for(settings, total_chars),
    ensures
        first == second,
{
}

/// A text of no keystrokes takes no time, whatever the parameters.
pub proof fn lemma_empty_text_takes_no_time(estimate: RuntimeEstimate, settings: Settings)
    requires
        estimate.is_for(settings, 0),
    ensures
        estimate.lowest == 0,
        estimate.average == 0,
        estimate.worst_case == 0,
{
}

/// The number of keystrokes in a text grows with each further line.
proof fn lemma_text_size_grows(lines: Seq<Vec<char>>, n: int)
    requires
        0 <= n <= lines.len(),
    ensures
        text_size(lines.take(n)) <= text_size(lines),
    decreases lines.len(),
{
    if n < lines.len() {
        assert(lines.drop_last().take(n) =~= lines.take(n));
        lemma_text_size_grows(lines.drop_last(), n);
    } else {
        assert(lines.take(n) =~= lines);
    }
}

/// Counts the keystrokes that make up the text: every character of every
/// line, and one line terminator per line, the last line included. `None`
/// where the count does not fit in `usize`.
pub fn total_chars(lines: &Vec<Vec<char>>) -> (total: Option<usize>)
    ensures
        match total {
            Some(count) => count == text_size(lines@),
            None => text_size(lines@) > usize::MAX,
        },
{
    let mut count: usize = 0;
    let mut i: usize = 0;
    assert(lines@.take(0) =~= Seq::<Vec<char>>::empty());
    while i < lines.len()
        invariant
            i <= lines.len(),
            count == text_size(lines@.take(i as int)),
        decreases lines.len() - i,
    {
        proof {
            assert(lines@.take(i + 1).drop_last() =~= lines@.take(i as int));
            lemma_text_size_grows(lines@, i + 1);
        }
        let with_line = match count.checked_add(lines[i].len()) {
            Some(with_line) => with_line,
            None => {
                return None;
            },
        };
        count = match with_line.checked_add(1) {
            Some(with_terminator) => with_terminator,
            None => {
                return None;
            },
        };
        i += 1;
    }
    assert(lines@.take(i as int) =~= lines@);
    Some(count)
}

/// Predicts how long typing a text of `total_chars` keystrokes will take, in
/// nanoseconds: at best `total_chars` times the minimum delay; on average
/// `total_chars` times the average delay and the average typo adjustment; at
/// worst `total_chars` times the maximum delay and the largest typo
/// adjustment.
pub fn calculate_runtimes(config: &Configuration, total_chars: usize) -> (estimate: RuntimeEstimate)
    ensures
        estimate.is_for(config@, total_chars as nat),
        estimate.lowest <= estimate.average <= estimate.worst_case,
{
    let settings = config.settings();
    let ghost total = total_chars as nat;
    proof {
        lemma_adjustment_bounds(
            settings,
            average_typo_chars(settings),
            average_delay(settings),
        );
        lemma_adjustment_bounds(
            settings,
            settings.typo_chars_max as int,
            settings.max_delay as int,
        );
        lemma_estimates_ordered(settings, total);
        settings.lemma_delay_fits();
    }
    let lowest_cost: u64 = settings.min_delay * NANOS_PER_MILLI;

    let average_delay: u64 = (settings.min_delay + settings.max_delay) / 2;
    let average_typo_chars: u64 = (settings.typo_chars_min + settings.typo_chars_max) / 2;
    let typo_share: u64 = settings.typo_ppm as u64 * average_typo_chars * 2;
    assert(typo_share * average_delay == typo_adjustment(
        settings,
        average_typo_chars as int,
        average_delay as int,
    ));
    let average_cost: u64 = average_delay * NANOS_PER_MILLI + typo_share * average_delay;

    let max_typo_share: u64 = settings.typo_ppm as u64 * settings.typo_chars_max * 2;
    assert(max_typo_share * settings.max_delay == typo_adjustment(
        settings,
        settings.typo_chars_max as int,
        settings.max_delay as int,
    ));
    let worst_cost: u64 = settings.max_delay * NANOS_PER_MILLI + max_typo_share
        * settings.max_delay;

    proof {
        assert(total * worst_cost <= u128::MAX) by (nonlinear_arith)
            requires
                total <= u64::MAX,
                worst_cost <= u64::MAX,
        ;
    }
    RuntimeEstimate {
        lowest: total_chars as u128 * lowest_cost as u128,
        average: total_chars as u128 * average_cost as u128,
        worst_case: total_chars as u128 * worst_cost as u128,
    }
}

} // verus!
