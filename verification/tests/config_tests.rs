use typing_cadence::config::{Configuration, ConfigurationError, Settings};
use typing_cadence::key::Key;

fn customary() -> Settings {
    Settings {
        min_delay: 50,
        max_delay: 400,
        typo_ppm: 50_000,
        typo_chars_min: 1,
        typo_chars_max: 3,
        sleep_ppm: 50_000,
        sleep_minutes_min: 2,
        sleep_minutes_max: 10,
    }
}

fn rejected(settings: Settings) -> ConfigurationError {
    match Configuration::new(settings) {
        Ok(_) => panic!("the settings were accepted"),
        Err(error) => error,
    }
}

#[test]
fn key_names() {
    assert_eq!(Key::Return.to_str(), "return");
    assert_eq!(Key::Backspace.to_str(), "backspace");
}

#[test]
fn default_settings_are_the_customary_ones() {
    assert_eq!(Settings::default(), customary());
    assert_eq!(Configuration::default().settings(), customary());
}

#[test]
fn valid_settings_are_kept_as_given() {
    let config = Configuration::new(customary()).unwrap();
    assert_eq!(config.settings(), customary());
}

#[test]
fn equal_delay_bounds_are_rejected() {
    let settings = Settings { min_delay: 400, max_delay: 400, ..customary() };
    assert_eq!(rejected(settings), ConfigurationError::DelayBounds);
}

#[test]
fn reversed_delay_bounds_are_rejected() {
    let settings = Settings { min_delay: 401, max_delay: 400, ..customary() };
    assert_eq!(rejected(settings), ConfigurationError::DelayBounds);
}

#[test]
fn typo_probability_above_one_is_rejected() {
    let settings = Settings { typo_ppm: 1_000_001, ..customary() };
    assert_eq!(rejected(settings), ConfigurationError::TypoProbability);
}

#[test]
fn reversed_typo_bounds_are_rejected() {
    let settings = Settings { typo_chars_min: 4, typo_chars_max: 3, ..customary() };
    assert_eq!(rejected(settings), ConfigurationError::TypoCharBounds);
}

#[test]
fn sleep_probability_above_one_is_rejected() {
    let settings = Settings { sleep_ppm: 1_000_001, ..customary() };
    assert_eq!(rejected(settings), ConfigurationError::SleepProbability);
}

#[test]
fn reversed_sleep_bounds_are_rejected() {
    let settings = Settings { sleep_minutes_min: 11, sleep_minutes_max: 10, ..customary() };
    assert_eq!(rejected(settings), ConfigurationError::SleepMinuteBounds);
}

#[test]
fn a_delay_too_large_to_time_is_rejected() {
    let settings = Settings { max_delay: u64::MAX, ..customary() };
    assert_eq!(rejected(settings), ConfigurationError::CostTooLarge);
}

#[test]
fn a_typo_too_long_to_time_is_rejected() {
    let settings = Settings { typo_chars_max: u64::MAX, ..customary() };
    assert_eq!(rejected(settings), ConfigurationError::CostTooLarge);
}

#[test]
fn the_largest_cost_that_fits_is_accepted() {
    // 2_049_638_230_412 * 1_000_000 * (1 + 2 * 4) is the largest such product below 2^64.
    let fits = Settings { min_delay: 0, max_delay: 2_049_638_230_412, typo_chars_max: 4, ..customary() };
    assert!(Configuration::new(fits).is_ok());
    let too_large = Settings { max_delay: 2_049_638_230_413, ..fits };
    assert_eq!(rejected(too_large), ConfigurationError::CostTooLarge);
}

#[test]
fn a_pause_too_long_to_time_is_rejected() {
    let settings = Settings { sleep_minutes_max: u64::MAX / 60_000 + 1, ..customary() };
    assert_eq!(rejected(settings), ConfigurationError::PauseTooLong);
    let longest = Settings { sleep_minutes_max: u64::MAX / 60_000, ..customary() };
    assert!(Configuration::new(longest).is_ok());
}

#[test]
fn the_first_broken_rule_is_reported() {
    let settings = Settings {
        min_delay: 5,
        max_delay: 5,
        typo_ppm: 2_000_000,
        typo_chars_min: 9,
        typo_chars_max: 1,
        sleep_ppm: 2_000_000,
        sleep_minutes_min: 9,
        sleep_minutes_max: 1,
    };
    assert_eq!(rejected(settings), ConfigurationError::DelayBounds);
    let settings = Settings { max_delay: 6, ..settings };
    assert_eq!(rejected(settings), ConfigurationError::TypoProbability);
    let settings = Settings { typo_ppm: 0, ..settings };
    assert_eq!(rejected(settings), ConfigurationError::TypoCharBounds);
    let settings = Settings { typo_chars_max: 9, ..settings };
    assert_eq!(rejected(settings), ConfigurationError::SleepProbability);
    let settings = Settings { sleep_ppm: 1_000_000, ..settings };
    assert_eq!(rejected(settings), ConfigurationError::SleepMinuteBounds);
    let settings = Settings { sleep_minutes_max: 9, ..settings };
    assert!(Configuration::new(settings).is_ok());
}

#[test]
fn every_error_has_its_own_message() {
    let errors = [
        ConfigurationError::DelayBounds,
        ConfigurationError::TypoProbability,
        ConfigurationError::TypoCharBounds,
        ConfigurationError::SleepProbability,
        ConfigurationError::SleepMinuteBounds,
        ConfigurationError::CostTooLarge,
        ConfigurationError::PauseTooLong,
    ];
    for (i, first) in errors.iter().enumerate() {
        assert!(!first.message().is_empty());
        for second in errors.iter().skip(i + 1) {
            assert_ne!(first.message(), second.message());
        }
    }
    assert_eq!(
        ConfigurationError::DelayBounds.message(),
        "the minimum delay must be below the maximum delay"
    );
}
