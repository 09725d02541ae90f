use std::collections::HashSet;
use watchctl::config::RetryConfig;
use watchctl::duration::Duration;
use watchctl::process::{exit_code_from_status, program_of, ExitStatus};
use watchctl::error::Error;
use watchctl::retry::RetryState;

fn config(times: Option<u32>, delay: Duration, backoff: bool, codes: Option<&[i32]>) -> RetryConfig {
    RetryConfig {
        times,
        delay,
        backoff,
        exit_codes: codes.map(|c| c.iter().copied().collect::<HashSet<i32>>()),
        with_wait: false,
    }
}

fn exited(code: i32) -> Option<ExitStatus> {
    Some(ExitStatus::new(Some(code)))
}

#[test]
fn new_state_reads_the_retry_count() {
    let d = Duration::from_secs(1);
    assert_eq!(RetryState::new(&config(None, d, false, None)).attempts_remaining, Some(0));
    assert_eq!(RetryState::new(&config(Some(0), d, false, None)).attempts_remaining, None);
    assert_eq!(RetryState::new(&config(Some(5), d, false, None)).attempts_remaining, Some(5));
    assert_eq!(RetryState::new(&config(Some(5), d, false, None)).current_delay, d);
}

#[test]
fn exhausted_state_never_retries() {
    let open = config(None, Duration::from_secs(1), false, None);
    let filtered = config(None, Duration::from_secs(1), false, Some(&[1, 2]));
    let state = RetryState::new(&open);
    for code in [-1, 0, 1, 2, 255] {
        assert!(!state.should_retry(&open, exited(code)));
        assert!(!state.should_retry(&filtered, exited(code)));
    }
    assert!(!state.should_retry(&open, None));
    assert!(!state.should_retry(&filtered, None));
    assert!(!state.should_retry(&open, Some(ExitStatus::new(None))));
}

#[test]
fn without_filter_only_exit_code_zero_is_final() {
    let cfg = config(Some(3), Duration::from_secs(1), false, None);
    let state = RetryState::new(&cfg);
    assert!(!state.should_retry(&cfg, exited(0)));
    for code in [1, 2, 127, 255, -1, i32::MIN, i32::MAX] {
        assert!(state.should_retry(&cfg, exited(code)));
    }
    assert!(state.should_retry(&cfg, Some(ExitStatus::new(None))));
    assert!(state.should_retry(&cfg, None));
    let unlimited = config(Some(0), Duration::from_secs(1), false, None);
    let state = RetryState::new(&unlimited);
    assert!(!state.should_retry(&unlimited, exited(0)));
    assert!(state.should_retry(&unlimited, exited(9)));
}

#[test]
fn filter_two_three_retries_only_two_and_three() {
    let cfg = config(Some(3), Duration::from_secs(1), false, Some(&[2, 3]));
    let state = RetryState::new(&cfg);
    assert!(!state.should_retry(&cfg, exited(1)));
    assert!(state.should_retry(&cfg, exited(2)));
    assert!(state.should_retry(&cfg, exited(3)));
    assert!(!state.should_retry(&cfg, exited(0)));
    assert!(!state.should_retry(&cfg, exited(4)));
}

#[test]
fn filter_with_zero_retries_a_clean_exit() {
    let cfg = config(Some(1), Duration::from_secs(1), false, Some(&[0]));
    let state = RetryState::new(&cfg);
    assert!(state.should_retry(&cfg, exited(0)));
    assert!(!state.should_retry(&cfg, exited(1)));
}

#[test]
fn signal_retries_whatever_the_filter() {
    let cfg = config(Some(1), Duration::from_secs(1), false, Some(&[7]));
    let state = RetryState::new(&cfg);
    assert!(state.should_retry(&cfg, Some(ExitStatus::new(None))));
    assert!(state.should_retry(&cfg, None));
}

#[test]
fn backoff_doubles_from_one_second_to_the_cap() {
    let cfg = config(Some(0), Duration::from_secs(1), true, None);
    let mut state = RetryState::new(&cfg);
    let mut seen = Vec::new();
    for _ in 0..12 {
        seen.push(state.wait_before_retry(&cfg).as_secs());
    }
    assert_eq!(seen, vec![1, 2, 4, 8, 16, 32, 64, 128, 256, 300, 300, 300]);
    assert_eq!(state.current_delay, Duration::from_secs(300));
    assert_eq!(state.attempts_remaining, None);
}

#[test]
fn backoff_brings_a_long_first_pause_down_to_the_cap() {
    let cfg = config(Some(0), Duration::from_secs(600), true, None);
    let mut state = RetryState::new(&cfg);
    assert_eq!(state.wait_before_retry(&cfg), Duration::from_secs(600));
    assert_eq!(state.wait_before_retry(&cfg), Duration::from_secs(300));
    assert_eq!(state.wait_before_retry(&cfg), Duration::from_secs(300));
}

#[test]
fn backoff_keeps_fractions_and_zero() {
    let cfg = config(Some(0), Duration::from_millis(750), true, None);
    let mut state = RetryState::new(&cfg);
    assert_eq!(state.wait_before_retry(&cfg), Duration::from_millis(750));
    assert_eq!(state.wait_before_retry(&cfg), Duration::from_millis(1_500));
    assert_eq!(state.wait_before_retry(&cfg), Duration::from_secs(3));
    let cfg = config(Some(0), Duration::zero(), true, None);
    let mut state = RetryState::new(&cfg);
    assert_eq!(state.wait_before_retry(&cfg), Duration::zero());
    assert_eq!(state.wait_before_retry(&cfg), Duration::zero());
}

#[test]
fn without_backoff_the_pause_stays() {
    let cfg = config(Some(3), Duration::from_secs(2), false, None);
    let mut state = RetryState::new(&cfg);
    assert_eq!(state.wait_before_retry(&cfg), Duration::from_secs(2));
    assert_eq!(state.attempts_remaining, Some(2));
    assert_eq!(state.wait_before_retry(&cfg), Duration::from_secs(2));
    assert_eq!(state.attempts_remaining, Some(1));
    assert_eq!(state.wait_before_retry(&cfg), Duration::from_secs(2));
    assert_eq!(state.attempts_remaining, Some(0));
    assert!(!state.should_retry(&cfg, exited(1)));
}

#[test]
fn exit_codes_mirror_the_process() {
    assert_eq!(exit_code_from_status(ExitStatus::new(Some(0))), 0);
    assert_eq!(exit_code_from_status(ExitStatus::new(Some(1))), 1);
    assert_eq!(exit_code_from_status(ExitStatus::new(Some(42))), 42);
    assert_eq!(exit_code_from_status(ExitStatus::new(Some(255))), 255);
    assert_eq!(exit_code_from_status(ExitStatus::new(Some(256))), 255);
    assert_eq!(exit_code_from_status(ExitStatus::new(Some(i32::MAX))), 255);
    assert_eq!(exit_code_from_status(ExitStatus::new(Some(-1))), 1);
    assert_eq!(exit_code_from_status(ExitStatus::new(Some(i32::MIN))), 1);
    assert_eq!(exit_code_from_status(ExitStatus::new(None)), 1);
    assert!(ExitStatus::new(Some(0)).success());
    assert!(!ExitStatus::new(Some(3)).success());
    assert!(!ExitStatus::new(None).success());
    assert_eq!(ExitStatus::new(Some(3)).code(), Some(3));
}

#[test]
fn an_empty_command_cannot_be_started() {
    assert_eq!(
        program_of(&Vec::new()),
        Err(Error::ProcessSpawn("command cannot be empty".to_string()))
    );
    let command = vec!["sleep".to_string(), "1".to_string()];
    assert_eq!(program_of(&command), Ok(&command[0]));
}
