//! The parameters of one run, and their validation.
//!
//! Probabilities are whole parts per million, delays whole milliseconds and
//! pauses whole minutes, so that every quantity the engine derives from them
//! is an exact integer.

use vstd::prelude::*;

verus! {

/// The scale of a probability: `PARTS_PER_MILLION` stands for certainty.
pub const PARTS_PER_MILLION: u32 = 1_000_000;

/// Nanoseconds in a millisecond.
pub const NANOS_PER_MILLI: u64 = 1_000_000;

/// Milliseconds in a minute.
pub const MILLIS_PER_MINUTE: u64 = 60_000;

/// The raw parameters of a run, as an operator enters them.
///
/// Any combination of values can be written down here; `Configuration::new`
/// accepts the ones that make sense.
#[derive(Clone, Copy, Debug, PartialEq, Eq, Structural)]
pub struct Settings {
    /// Shortest delay before a keystroke, in milliseconds (inclusive).
    pub min_delay: u64,
    /// Longest delay before a keystroke, in milliseconds (exclusive).
    pub max_delay: u64,
    /// Chance, in parts per million, that a typo precedes a character.
    pub typo_ppm: u32,
    /// Fewest extra characters typed and erased in one typo.
    pub typo_chars_min: u64,
    /// Most extra characters typed and erased in one typo.
    pub typo_chars_max: u64,
    /// Chance, in parts per million, that a blank line triggers a long pause.
    pub sleep_ppm: u32,
    /// Shortest long pause, in minutes.
    pub sleep_minutes_min: u64,
    /// Longest long pause, in minutes.
    pub sleep_minutes_max: u64,
}

/// Why a set of parameters was rejected.
#[derive(Clone, Copy, Debug, PartialEq, Eq, Structural)]
pub enum ConfigurationError {
    /// The minimum delay is not below the maximum delay.
    DelayBounds,
    /// The typo probability exceeds certainty.
    TypoProbability,
    /// The minimum typo length exceeds the maximum.
    TypoCharBounds,
    /// The pause probability exceeds certainty.
    SleepProbability,
    /// The minimum pause exceeds the maximum.
    SleepMinuteBounds,
    /// The slowest possible character, with a typo of full length before it,
    /// would take more nanoseconds than 64 bits can count.
    CostTooLarge,
    /// The longest pause would take more milliseconds than 64 bits can count.
    PauseTooLong,
}

impl Settings {
    /// The most keystrokes a single character of the text can cost: itself,
    /// and each character of a typo of full length typed and erased.
    pub open spec fn max_strokes(self) -> int {
        1 + 2 * self.typo_chars_max
    }

    /// The parameters describe a run that the engine can schedule and time.
    pub open spec fn valid(self) -> bool {
        &&& self.min_delay < self.max_delay
        &&& self.typo_ppm <= PARTS_PER_MILLION
        &&& self.typo_chars_min <= self.typo_chars_max
        &&& self.sleep_ppm <= PARTS_PER_MILLION
        &&& self.sleep_minutes_min <= self.sleep_minutes_max
        &&& self.max_delay * NANOS_PER_MILLI * self.max_strokes() <= u64::MAX
        &&& self.sleep_minutes_max * MILLIS_PER_MINUTE <= u64::MAX
    }

    /// The first rule that the parameters break, in the order in which the
    /// rules are checked, or `None` where they break none.
    pub open spec fn first_violation(self) -> Option<ConfigurationError> {
        if self.min_delay >= self.max_delay {
            Some(ConfigurationError::DelayBounds)
        } else if self.typo_ppm > PARTS_PER_MILLION {
            Some(ConfigurationError::TypoProbability)
        } else if self.typo_chars_min > self.typo_chars_max {
            Some(ConfigurationError::TypoCharBounds)
        } else if self.sleep_ppm > PARTS_PER_MILLION {
            Some(ConfigurationError::SleepProbability)
        } else if self.sleep_minutes_min > self.sleep_minutes_max {
            Some(ConfigurationError::SleepMinuteBounds)
        } else if self.max_delay * NANOS_PER_MILLI * self.max_strokes() > u64::MAX {
            Some(ConfigurationError::CostTooLarge)
        } else if self.sleep_minutes_max * MILLIS_PER_MINUTE > u64::MAX {
            Some(ConfigurationError::PauseTooLong)
        } else {
            None
        }
    }

    /// The customary parameters: 50 to 400 ms between keystrokes, one
    /// character in twenty preceded by a typo of one to three characters, one
    /// blank line in twenty followed by a pause of two to ten minutes.
    pub open spec fn customary() -> Settings {
        Settings {
            min_delay: 50,
            max_delay: 400,
            typo_ppm: 50_000,
            typo_chars_min: 1,
            typo_chars_max: 3,
            sleep_ppm: 50_000,
            sleep_minutes_min: 2,
            sleep_minutes_max: 10,
        }
    }
}

impl Settings {
    /// With valid parameters a delay in nanoseconds, and with it twice a
    /// delay in milliseconds, fits in 64 bits, and so does the number of
    /// keystrokes that one character can cost.
    pub proof fn lemma_delay_fits(self)
        requires
            self.valid(),
        ensures
            self.max_delay * NANOS_PER_MILLI <= u64::MAX,
            self.max_strokes() <= u64::MAX,
    {
        let nanos = self.max_delay * NANOS_PER_MILLI;
        let strokes = self.max_strokes();
        assert(nanos <= u64::MAX && strokes <= u64::MAX) by (nonlinear_arith)
            requires
                nanos * strokes <= u64::MAX,
                nanos >= 1,
                strokes >= 1,
        ;
    }
}

/// Parameters break no rule exactly when they are valid.
pub proof fn lemma_valid_iff_no_violation(settings: Settings)
    ensures
        settings.valid() <==> settings.first_violation() is None,
{
}

impl Default for Settings {
    fn default() -> (settings: Settings)
        ensures
            settings == Settings::customary(),
    {
        Settings {
            min_delay: 50,
            max_delay: 400,
            typo_ppm: 50_000,
            typo_chars_min: 1,
            typo_chars_max: 3,
            sleep_ppm: 50_000,
            sleep_minutes_min: 2,
            sleep_minutes_max: 10,
        }
    }
}

/// Whether the slowest character fits in 64 bits of nanoseconds.
fn cost_fits(max_delay: u64, typo_chars_max: u64) -> (fits: bool)
    requires
        max_delay >= 1,
    ensures
        fits <==> max_delay * NANOS_PER_MILLI * (1 + 2 * typo_chars_max) <= u64::MAX,
{
    let nanos = match max_delay.checked_mul(NANOS_PER_MILLI) {
        Some(nanos) => nanos,
        None => {
            assert(max_delay * NANOS_PER_MILLI * (1 + 2 * typo_chars_max) > u64::MAX)
                by (nonlinear_arith)
                requires
                    max_delay * NANOS_PER_MILLI > u64::MAX,
                    typo_chars_max >= 0,
            ;
            return false;
        },
    };
    let strokes = match typo_chars_max.checked_mul(2) {
        Some(erased) => match erased.checked_add(1) {
            Some(strokes) => Some(strokes),
            None => None,
        },
        None => None,
    };
    match strokes {
        Some(strokes) => {
            assert(strokes == 1 + 2 * typo_chars_max);
            assert(nanos * strokes == max_delay * NANOS_PER_MILLI * (1 + 2 * typo_chars_max))
                by (nonlinear_arith)
                requires
                    nanos == max_delay * NANOS_PER_MILLI,
                    strokes == 1 + 2 * typo_chars_max,
            ;
            nanos.checked_mul(strokes).is_some()
        },
        None => {
            assert(max_delay * NANOS_PER_MILLI * (1 + 2 * typo_chars_max) > u64::MAX)
                by (nonlinear_arith)
                requires
                    max_delay >= 1,
                    NANOS_PER_MILLI == 1_000_000,
                    1 + 2 * typo_chars_max > u64::MAX,
            ;
            false
        },
    }
}

/// The parameters of one run, known to be valid.
///
/// A value of this type cannot be changed, and can only be made by
/// `Configuration::new`, so the engine never meets parameters that break a
/// rule.
#[derive(Clone, Copy, Debug)]
pub struct Configuration {
    settings: Settings,
}

impl View for Configuration {
    type V = Settings;

    closed spec fn view(&self) -> Settings {
        self.settings
    }
}

impl Configuration {
    /// Every configuration holds valid parameters.
    #[verifier::type_invariant]
    pub open spec fn well_formed(&self) -> bool {
        self@.valid()
    }

    /// Checks the parameters and, where they break no rule, makes a
    /// configuration of them; otherwise reports the first rule broken.
    pub fn new(settings: Settings) -> (result: Result<Configuration, ConfigurationError>)
        ensures
            result is Ok <==> settings.valid(),
            match result {
                Ok(config) => config@ == settings,
                Err(error) => settings.first_violation() == Some(error),
            },
    {
        if settings.min_delay >= settings.max_delay {
            Err(ConfigurationError::DelayBounds)
        } else if settings.typo_ppm > PARTS_PER_MILLION {
            Err(ConfigurationError::TypoProbability)
        } else if settings.typo_chars_min > settings.typo_chars_max {
            Err(ConfigurationError::TypoCharBounds)
        } else if settings.sleep_ppm > PARTS_PER_MILLION {
            Err(ConfigurationError::SleepProbability)
        } else if settings.sleep_minutes_min > settings.sleep_minutes_max {
            Err(ConfigurationError::SleepMinuteBounds)
        } else if !cost_fits(settings.max_delay, settings.typo_chars_max) {
            Err(ConfigurationError::CostTooLarge)
        } else if settings.sleep_minutes_max.checked_mul(MILLIS_PER_MINUTE).is_none() {
            Err(ConfigurationError::PauseTooLong)
        } else {
            Ok(Configuration { settings })
        }
    }

    /// The parameters that the configuration holds.
    pub fn settings(&self) -> (settings: Settings)
        ensures
            settings == self@,
            settings.valid(),
    {
        proof {
            use_type_invariant(self);
        }
        self.settings
    }
}

impl Default for Configuration {
    fn default() -> (config: Configuration)
        ensures
            config@ == Settings::customary(),
    {
        let settings = Settings::default();
        assert(settings.max_delay * NANOS_PER_MILLI == 400_000_000);
        assert(settings.max_strokes() == 7);
        assert(settings.valid());
        Configuration { settings }
    }
}

impl ConfigurationError {
    /// What the operator is told about the error.
    pub open spec fn description(self) -> Seq<char> {
        match self {
            ConfigurationError::DelayBounds => "the minimum delay must be below the maximum delay"@,
            ConfigurationError::TypoProbability => "the typo probability must not exceed 1"@,
            ConfigurationError::TypoCharBounds =>
                "the minimum typo length must not exceed the maximum"@,
            ConfigurationError::SleepProbability => "the pause probability must not exceed 1"@,
            ConfigurationError::SleepMinuteBounds =>
                "the minimum pause must not exceed the maximum"@,
            ConfigurationError::CostTooLarge =>
                "the delay and typo length are too large to be timed"@,
            ConfigurationError::PauseTooLong => "the maximum pause is too long to be timed"@,
        }
    }

    /// A sentence that says which rule the parameters broke.
    pub fn message(&self) -> (text: &'static str)
        ensures
            text@ == self.description(),
    {
        match self {
            ConfigurationError::DelayBounds => "the minimum delay must be below the maximum delay",
            ConfigurationError::TypoProbability => "the typo probability must not exceed 1",
            ConfigurationError::TypoCharBounds =>
                "the minimum typo length must not exceed the maximum",
            ConfigurationError::SleepProbability => "the pause probability must not exceed 1",
            ConfigurationError::SleepMinuteBounds =>
                "the minimum pause must not exceed the maximum",
            ConfigurationError::CostTooLarge =>
                "the delay and typo length are too large to be timed",
            ConfigurationError::PauseTooLong => "the maximum pause is too long to be timed",
        }
    }
}

} // verus!
