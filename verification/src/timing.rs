//! The timing model: the random decisions of a run, each within the bounds
//! that the configuration sets.

use crate::config::{Configuration, PARTS_PER_MILLION};
use crate::random::{bernoulli, uniform_inclusive};
use rand::rngs::StdRng;
use vstd::prelude::*;

verus! {

/// Draws the delay before one keystroke, in milliseconds: at least the
/// minimum delay and below the maximum.
pub fn random_delay(config: &Configuration, rng: &mut StdRng) -> (delay: u64)
    ensures
        config@.min_delay <= delay < config@.max_delay,
{
    let settings = config.settings();
    uniform_inclusive(rng, settings.min_delay, settings.max_delay - 1)
}

/// Draws one lowercase letter.
pub fn random_letter(rng: &mut StdRng) -> (letter: char)
    ensures
        'a' <= letter <= 'z',
{
    let code = uniform_inclusive(rng, 97, 122);
    (code as u8) as char
}

/// Decides whether a typo precedes a character and, if so, how many extra
/// characters it has.
///
/// A probability of zero never gives a typo and certainty always gives one;
/// the length of a typo lies within the configured bounds.
pub fn typo_decision(config: &Configuration, rng: &mut StdRng) -> (length: Option<u64>)
    ensures
        config@.typo_ppm == 0 ==> length is None,
        config@.typo_ppm == PARTS_PER_MILLION ==> length is Some,
        length matches Some(n) ==> config@.typo_chars_min <= n <= config@.typo_chars_max,
{
    let settings = config.settings();
    if bernoulli(rng, settings.typo_ppm, PARTS_PER_MILLION) {
        Some(uniform_inclusive(rng, settings.typo_chars_min, settings.typo_chars_max))
    } else {
        None
    }
}

/// Decides whether a blank line triggers a long pause and, if so, how many
/// minutes it lasts.
///
/// A probability of zero never gives a pause and certainty always gives one;
/// the length of a pause lies within the configured bounds.
pub fn pause_decision(config: &Configuration, rng: &mut StdRng) -> (minutes: Option<u64>)
    ensures
        config@.sleep_ppm == 0 ==> minutes is None,
        config@.sleep_ppm == PARTS_PER_MILLION ==> minutes is Some,
        minutes matches Some(m) ==> config@.sleep_minutes_min <= m <= config@.sleep_minutes_max,
{
    let settings = config.settings();
    if bernoulli(rng, settings.sleep_ppm, PARTS_PER_MILLION) {
        Some(uniform_inclusive(rng, settings.sleep_minutes_min, settings.sleep_minutes_max))
    } else {
        None
    }
}

} // verus!
