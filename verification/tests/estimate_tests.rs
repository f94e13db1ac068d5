use typing_cadence::config::{Configuration, Settings};
use typing_cadence::estimate::{calculate_runtimes, total_chars, RuntimeEstimate};

fn settings() -> Settings {
    Settings {
        min_delay: 50,
        max_delay: 400,
        typo_ppm: 50_000,
        typo_chars_min: 1,
        typo_chars_max: 3,
        sleep_ppm: 50_000,
        sleep_minutes_min: 2,
        sleep_minutes_max: 10,
    }
}

fn lines(text: &str) -> Vec<Vec<char>> {
    text.lines().map(|line| line.chars().collect()).collect()
}

fn seconds(nanos: u128) -> f64 {
    nanos as f64 / 1_000_000_000.0
}

#[test]
fn lowest_estimate_of_a_hundred_keystrokes() {
    let config = Configuration::new(settings()).unwrap();
    let estimate = calculate_runtimes(&config, 100);
    assert_eq!(estimate.lowest, 5_000_000_000);
    assert_eq!(seconds(estimate.lowest), 5.0);
}

#[test]
fn all_three_estimates_of_a_hundred_keystrokes() {
    let config = Configuration::new(settings()).unwrap();
    let estimate = calculate_runtimes(&config, 100);
    // Average: delay 225 ms, typo length 2, adjustment 0.05 * 2 * 2 * 225 = 45 ms.
    // Worst: delay 400 ms, adjustment 0.05 * 3 * 2 * 400 = 120 ms.
    assert_eq!(
        estimate,
        RuntimeEstimate {
            lowest: 5_000_000_000,
            average: 27_000_000_000,
            worst_case: 52_000_000_000,
        }
    );
    assert_eq!(seconds(estimate.average), 27.0);
    assert_eq!(seconds(estimate.worst_case), 52.0);
}

#[test]
fn averages_round_down() {
    let odd = Settings { min_delay: 50, max_delay: 401, typo_chars_min: 1, typo_chars_max: 4, ..settings() };
    let config = Configuration::new(odd).unwrap();
    let estimate = calculate_runtimes(&config, 1);
    // Delay (50 + 401) / 2 = 225, typo length (1 + 4) / 2 = 2.
    assert_eq!(estimate.average, 225_000_000 + 50_000 * 2 * 2 * 225);
    assert_eq!(estimate.worst_case, 401_000_000 + 50_000 * 4 * 2 * 401);
}

#[test]
fn empty_input_takes_no_time() {
    let text = lines("");
    assert!(text.is_empty());
    assert_eq!(total_chars(&text), Some(0));
    let config = Configuration::new(settings()).unwrap();
    let estimate = calculate_runtimes(&config, 0);
    assert_eq!(seconds(estimate.lowest), 0.0);
    assert_eq!(seconds(estimate.average), 0.0);
    assert_eq!(seconds(estimate.worst_case), 0.0);
}

#[test]
fn every_line_counts_its_characters_and_its_terminator() {
    assert_eq!(total_chars(&lines("ab\ncd")), Some(6));
    assert_eq!(total_chars(&lines("ab\ncd\n")), Some(6));
    assert_eq!(total_chars(&lines("\n\n")), Some(2));
    assert_eq!(total_chars(&lines("x")), Some(2));
    assert_eq!(total_chars(&lines("h\u{e9}llo\n\nw")), Some(9));
}

#[test]
fn estimates_are_in_order() {
    let variants = [
        settings(),
        Settings { typo_ppm: 0, ..settings() },
        Settings { typo_ppm: 1_000_000, ..settings() },
        Settings { min_delay: 0, max_delay: 1, ..settings() },
        Settings { typo_chars_min: 0, typo_chars_max: 0, ..settings() },
        Settings { min_delay: 399, max_delay: 400, typo_chars_min: 3, ..settings() },
    ];
    for variant in variants {
        let config = Configuration::new(variant).unwrap();
        for total in [0usize, 1, 7, 100, 1_000_000] {
            let estimate = calculate_runtimes(&config, total);
            assert!(estimate.lowest <= estimate.average);
            assert!(estimate.average <= estimate.worst_case);
        }
    }
}

#[test]
fn estimating_twice_gives_the_same() {
    let config = Configuration::new(settings()).unwrap();
    assert_eq!(calculate_runtimes(&config, 1234), calculate_runtimes(&config, 1234));
}

#[test]
fn the_largest_text_is_estimated() {
    let config = Configuration::new(settings()).unwrap();
    let estimate = calculate_runtimes(&config, usize::MAX);
    assert_eq!(estimate.lowest, usize::MAX as u128 * 50_000_000);
    assert_eq!(estimate.worst_case, usize::MAX as u128 * 520_000_000);
}

#[test]
fn bar_series_has_four_points() {
    let estimate = RuntimeEstimate { lowest: 5, average: 27, worst_case: 52 };
    assert_eq!(estimate.bar_series(), vec![(0, 0), (1, 5), (2, 27), (3, 52)]);
}
