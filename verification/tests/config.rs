use std::collections::HashSet;
use watchctl::cli::Args;
use watchctl::config::{parse_non_zero_duration, Config};
use watchctl::duration::Duration;
use watchctl::error::Error;

fn base_args() -> Args {
    Args {
        wait_tcp: Vec::new(),
        wait_tcp_timeout: "5s".to_string(),
        wait_http: Vec::new(),
        wait_http_timeout: "5s".to_string(),
        wait_file: Vec::new(),
        wait_delay: Vec::new(),
        wait_timeout: "30s".to_string(),
        watch_http: Vec::new(),
        watch_http_interval: "10s".to_string(),
        watch_http_timeout: "5s".to_string(),
        watch_tcp: Vec::new(),
        watch_tcp_interval: "10s".to_string(),
        watch_tcp_timeout: "5s".to_string(),
        watch_file: Vec::new(),
        watch_file_interval: "10s".to_string(),
        watch_timeout: None,
        retry_times: None,
        retry_delay: "1s".to_string(),
        retry_backoff: false,
        retry_if: Vec::new(),
        retry_with_wait: false,
        log: None,
        command: vec!["true".to_string()],
    }
}

#[test]
fn rejects_zero_watch_http_interval() {
    let mut args = base_args();
    args.watch_http_interval = "0s".to_string();

    let err = Config::from_args(args).expect_err("watch interval of zero should be rejected");
    match err {
        Error::InvalidDuration(msg) => {
            assert!(msg.contains("--watch-http-interval"));
        }
        other => panic!("unexpected error: {other}", other = other.message()),
    }
}

#[test]
fn rejects_zero_intervals_of_every_kind() {
    let mut args = base_args();
    args.watch_tcp_interval = "0ms".to_string();
    assert_eq!(
        Config::from_args(args).unwrap_err(),
        Error::InvalidDuration("--watch-tcp-interval must be greater than 0".to_string())
    );
    let mut args = base_args();
    args.watch_file_interval = "0h".to_string();
    assert_eq!(
        Config::from_args(args).unwrap_err(),
        Error::InvalidDuration("--watch-file-interval must be greater than 0".to_string())
    );
    assert_eq!(
        parse_non_zero_duration(" 0m ", "--every"),
        Err(Error::InvalidDuration("--every must be greater than 0".to_string()))
    );
    assert_eq!(parse_non_zero_duration("1ms", "--every"), Ok(Duration::from_millis(1)));
    assert_eq!(
        parse_non_zero_duration("soon", "--every"),
        Err(Error::InvalidDuration("soon: missing time suffix (ms, s, m, h)".to_string()))
    );
}

#[test]
fn reads_the_defaults() {
    let config = Config::from_args(base_args()).unwrap();
    assert!(config.wait.tcp.is_empty());
    assert_eq!(config.wait.tcp_timeout, Duration::from_secs(5));
    assert_eq!(config.wait.http_timeout, Duration::from_secs(5));
    assert!(config.wait.delays.is_empty());
    assert_eq!(config.wait.timeout, Duration::from_secs(30));
    assert_eq!(config.watch.http_interval, Duration::from_secs(10));
    assert_eq!(config.watch.http_timeout, Duration::from_secs(5));
    assert_eq!(config.watch.tcp_interval, Duration::from_secs(10));
    assert_eq!(config.watch.tcp_timeout, Duration::from_secs(5));
    assert_eq!(config.watch.file_interval, Duration::from_secs(10));
    assert_eq!(config.watch.timeout, None);
    assert_eq!(config.retry.times, None);
    assert_eq!(config.retry.delay, Duration::from_secs(1));
    assert!(!config.retry.backoff);
    assert_eq!(config.retry.exit_codes, None);
    assert!(!config.retry.with_wait);
    assert_eq!(config.command, vec!["true".to_string()]);
}

#[test]
fn carries_targets_and_flags_over() {
    let mut args = base_args();
    args.wait_tcp = vec!["db:5432".to_string(), "cache:6379".to_string()];
    args.wait_http = vec!["http://api/health".to_string()];
    args.wait_file = vec!["/run/ready".to_string()];
    args.wait_delay = vec!["1s".to_string(), " 250ms ".to_string()];
    args.wait_timeout = "2m".to_string();
    args.watch_http = vec!["http://api/live".to_string()];
    args.watch_tcp = vec!["db:5432".to_string()];
    args.watch_file = vec!["/run/pid".to_string()];
    args.watch_timeout = Some("1h".to_string());
    args.retry_times = Some(3);
    args.retry_delay = "2s".to_string();
    args.retry_backoff = true;
    args.retry_with_wait = true;
    args.command = vec!["server".to_string(), "--port".to_string(), "80".to_string()];
    let config = Config::from_args(args).unwrap();
    assert_eq!(config.wait.tcp, vec!["db:5432".to_string(), "cache:6379".to_string()]);
    assert_eq!(config.wait.http, vec!["http://api/health".to_string()]);
    assert_eq!(config.wait.files, vec!["/run/ready".to_string()]);
    assert_eq!(config.wait.delays, vec![Duration::from_secs(1), Duration::from_millis(250)]);
    assert_eq!(config.wait.timeout, Duration::from_secs(120));
    assert_eq!(config.watch.http, vec!["http://api/live".to_string()]);
    assert_eq!(config.watch.tcp, vec!["db:5432".to_string()]);
    assert_eq!(config.watch.files, vec!["/run/pid".to_string()]);
    assert_eq!(config.watch.timeout, Some(Duration::from_secs(3600)));
    assert_eq!(config.retry.times, Some(3));
    assert_eq!(config.retry.delay, Duration::from_secs(2));
    assert!(config.retry.backoff);
    assert!(config.retry.with_wait);
    assert_eq!(config.command.len(), 3);
}

#[test]
fn reads_exit_code_lists() {
    let mut args = base_args();
    args.retry_if = vec!["1,2, 3".to_string(), " -4 ".to_string(), "2".to_string()];
    let config = Config::from_args(args).unwrap();
    let expected: HashSet<i32> = [1, 2, 3, -4].into_iter().collect();
    assert_eq!(config.retry.exit_codes, Some(expected));
}

#[test]
fn rejects_malformed_exit_codes_with_the_piece_as_written() {
    let mut args = base_args();
    args.retry_if = vec!["1, x ,3".to_string()];
    assert_eq!(
        Config::from_args(args).unwrap_err(),
        Error::InvalidExitCode(" x ".to_string())
    );
    let mut args = base_args();
    args.retry_if = vec!["1,2".to_string(), "3,".to_string()];
    assert_eq!(Config::from_args(args).unwrap_err(), Error::InvalidExitCode(String::new()));
    let mut args = base_args();
    args.retry_if = vec![String::new()];
    assert_eq!(Config::from_args(args).unwrap_err(), Error::InvalidExitCode(String::new()));
    let mut args = base_args();
    args.retry_if = vec!["2147483648".to_string()];
    assert_eq!(
        Config::from_args(args).unwrap_err(),
        Error::InvalidExitCode("2147483648".to_string())
    );
}

#[test]
fn reports_the_first_malformed_value() {
    let mut args = base_args();
    args.wait_tcp_timeout = "a".to_string();
    args.wait_http_timeout = "b".to_string();
    assert_eq!(
        Config::from_args(args).unwrap_err(),
        Error::InvalidDuration("a: missing time suffix (ms, s, m, h)".to_string())
    );
    let mut args = base_args();
    args.wait_delay = vec!["1s".to_string(), "2x".to_string(), "y".to_string()];
    args.wait_timeout = "z".to_string();
    assert_eq!(
        Config::from_args(args).unwrap_err(),
        Error::InvalidDuration("2x: missing time suffix (ms, s, m, h)".to_string())
    );
    let mut args = base_args();
    args.watch_timeout = Some("never".to_string());
    args.retry_if = vec!["x".to_string()];
    args.retry_delay = "soon".to_string();
    assert_eq!(
        Config::from_args(args).unwrap_err(),
        Error::InvalidDuration("never: missing time suffix (ms, s, m, h)".to_string())
    );
    let mut args = base_args();
    args.retry_if = vec!["x".to_string()];
    args.retry_delay = "soon".to_string();
    assert_eq!(Config::from_args(args).unwrap_err(), Error::InvalidExitCode("x".to_string()));
    let mut args = base_args();
    args.retry_delay = "soon".to_string();
    assert_eq!(
        Config::from_args(args).unwrap_err(),
        Error::InvalidDuration("soon: missing time suffix (ms, s, m, h)".to_string())
    );
    let mut args = base_args();
    args.watch_http_interval = "0s".to_string();
    args.wait_timeout = "1".to_string();
    assert_eq!(
        Config::from_args(args).unwrap_err(),
        Error::InvalidDuration("1: missing time suffix (ms, s, m, h)".to_string())
    );
}

#[test]
fn error_messages_name_the_failure() {
    assert_eq!(
        Error::InvalidDuration("x: invalid number".to_string()).message(),
        "invalid duration format: x: invalid number"
    );
    assert_eq!(Error::InvalidExitCode("x".to_string()).message(), "invalid exit code: x");
    assert_eq!(Error::WaitTimeout.message(), "wait phase timed out");
    assert_eq!(
        Error::HealthCheckFailed("down".to_string()).message(),
        "health check failed: down"
    );
    assert_eq!(
        Error::ProcessSpawn("not found".to_string()).message(),
        "process failed to start: not found"
    );
    assert_eq!(Error::ProcessSignaled.message(), "process terminated by signal");
    assert_eq!(Error::Http("tls".to_string()).message(), "http request failed: tls");
    assert_eq!(Error::Io("broken pipe".to_string()).message(), "io error: broken pipe");
}
