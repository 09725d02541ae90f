use watchctl::check::{Check, HttpReply, HttpStatus, ProbeSpec};
use watchctl::config::WatchConfig;
use watchctl::duration::Duration;
use watchctl::error::Error;
use watchctl::process::ExitStatus;
use watchctl::wait::remaining;
use watchctl::watch::{
    after_poll, health_verdict, next_poll, PollVerdict, ProbeTaskEnd, Watch, WatchAction,
    WatchEvent, WatchResult,
};

fn watch_config() -> WatchConfig {
    WatchConfig {
        http: Vec::new(),
        http_interval: Duration::from_secs(10),
        http_timeout: Duration::from_secs(5),
        tcp: Vec::new(),
        tcp_interval: Duration::from_secs(10),
        tcp_timeout: Duration::from_secs(5),
        files: Vec::new(),
        file_interval: Duration::from_secs(10),
        timeout: None,
    }
}

fn watched() -> WatchConfig {
    let mut config = watch_config();
    config.http = vec!["http://api/live".to_string()];
    config.timeout = Some(Duration::from_secs(60));
    config
}

fn exited(code: i32) -> WatchEvent {
    WatchEvent::ProcessExited(ExitStatus::new(Some(code)))
}

fn failed(reason: &str) -> WatchEvent {
    WatchEvent::ProbeTaskEnded(ProbeTaskEnd::Failed(reason.to_string()))
}

#[test]
fn watch_probes_come_in_the_order_http_tcp_file() {
    let mut config = watch_config();
    config.http = vec!["http://api/live".to_string()];
    config.http_interval = Duration::from_secs(1);
    config.http_timeout = Duration::from_secs(2);
    config.tcp = vec!["db:5432".to_string(), "cache:6379".to_string()];
    config.tcp_interval = Duration::from_secs(3);
    config.tcp_timeout = Duration::from_secs(4);
    config.files = vec!["/run/pid".to_string()];
    config.file_interval = Duration::from_secs(5);
    let probes = config.probes();
    let names: Vec<&str> = probes.iter().map(|p| p.description()).collect();
    assert_eq!(
        names,
        vec!["http:http://api/live", "tcp:db:5432", "tcp:cache:6379", "file:/run/pid"]
    );
    let intervals: Vec<u64> = probes.iter().map(|p| config.interval_of(p).as_secs()).collect();
    assert_eq!(intervals, vec![1, 3, 3, 5]);
    let limits: Vec<Option<Duration>> = probes.iter().map(|p| p.timeout()).collect();
    assert_eq!(
        limits,
        vec![
            Some(Duration::from_secs(2)),
            Some(Duration::from_secs(4)),
            Some(Duration::from_secs(4)),
            None
        ]
    );
    assert!(config.has_health_checks());
    assert!(config.needs_http_client());
    assert!(!config.only_awaits_exit());
}

#[test]
fn without_probes_and_limit_the_phase_only_awaits_the_exit() {
    let config = watch_config();
    assert!(!config.has_health_checks());
    assert!(!config.needs_http_client());
    assert!(config.only_awaits_exit());
    assert!(config.probes().is_empty());
    let mut limited = watch_config();
    limited.timeout = Some(Duration::from_secs(1));
    assert!(!limited.only_awaits_exit());
    let mut watch = Watch::start(&config);
    assert_eq!(watch.on_event(WatchEvent::TimeoutElapsed), WatchAction::Continue);
    assert_eq!(watch.on_event(failed("down")), WatchAction::Continue);
    assert_eq!(
        watch.on_event(WatchEvent::ProbeTaskEnded(ProbeTaskEnd::Panicked)),
        WatchAction::Continue
    );
    assert!(!watch.is_over());
    assert_eq!(
        watch.on_event(exited(7)),
        WatchAction::Finish {
            result: WatchResult::ProcessExited(ExitStatus::new(Some(7))),
            kill: false
        }
    );
    assert!(watch.is_over());
}

#[test]
fn an_exit_before_any_failure_gives_the_status_and_no_kill() {
    let mut watch = Watch::start(&watched());
    assert_eq!(
        watch.on_event(WatchEvent::ProbeTaskEnded(ProbeTaskEnd::Completed)),
        WatchAction::Continue
    );
    assert_eq!(
        watch.on_event(WatchEvent::ProbeTaskEnded(ProbeTaskEnd::Cancelled)),
        WatchAction::Continue
    );
    assert_eq!(
        watch.on_event(exited(3)),
        WatchAction::Finish {
            result: WatchResult::ProcessExited(ExitStatus::new(Some(3))),
            kill: false
        }
    );
    assert_eq!(watch.on_event(failed("down")), WatchAction::Continue);
    assert_eq!(watch.on_event(WatchEvent::TimeoutElapsed), WatchAction::Continue);
    assert_eq!(watch.on_event(exited(4)), WatchAction::Continue);
}

#[test]
fn a_signal_is_an_exit_without_a_code() {
    let mut watch = Watch::start(&watched());
    assert_eq!(
        watch.on_event(WatchEvent::ProcessExited(ExitStatus::new(None))),
        WatchAction::Finish { result: WatchResult::ProcessExited(ExitStatus::new(None)), kill: false }
    );
}

#[test]
fn a_probe_failure_before_the_exit_kills_the_process() {
    let mut watch = Watch::start(&watched());
    assert_eq!(
        watch.on_event(failed("http http://api/live returned status 500 Internal Server Error")),
        WatchAction::Finish {
            result: WatchResult::HealthCheckFailed(
                "http http://api/live returned status 500 Internal Server Error".to_string()
            ),
            kill: true
        }
    );
    assert!(watch.is_over());
    assert_eq!(watch.on_event(exited(0)), WatchAction::Continue);
    assert_eq!(watch.on_event(WatchEvent::TimeoutElapsed), WatchAction::Continue);
}

#[test]
fn a_crashed_probe_task_counts_as_a_failure() {
    let mut watch = Watch::start(&watched());
    assert_eq!(
        watch.on_event(WatchEvent::ProbeTaskEnded(ProbeTaskEnd::Panicked)),
        WatchAction::Finish {
            result: WatchResult::HealthCheckFailed("health check task panicked".to_string()),
            kill: true
        }
    );
    assert_eq!(
        health_verdict(ProbeTaskEnd::Panicked),
        Some("health check task panicked".to_string())
    );
    assert_eq!(health_verdict(ProbeTaskEnd::Failed("x".to_string())), Some("x".to_string()));
    assert_eq!(health_verdict(ProbeTaskEnd::Completed), None);
    assert_eq!(health_verdict(ProbeTaskEnd::Cancelled), None);
}

#[test]
fn the_limit_before_the_exit_kills_the_process() {
    let mut watch = Watch::start(&watched());
    assert_eq!(
        watch.on_event(WatchEvent::TimeoutElapsed),
        WatchAction::Finish { result: WatchResult::Timeout, kill: true }
    );
    assert_eq!(watch.on_event(exited(0)), WatchAction::Continue);
    assert_eq!(watch.on_event(failed("down")), WatchAction::Continue);
}

#[test]
fn losing_the_process_is_an_error() {
    let mut watch = Watch::start(&watched());
    assert_eq!(
        watch.on_event(WatchEvent::ProcessWaitFailed("no child".to_string())),
        WatchAction::Fail(Error::Io("no child".to_string()))
    );
    assert!(watch.is_over());
    assert_eq!(watch.on_event(exited(0)), WatchAction::Continue);
}

#[test]
fn polls_are_due_once_per_interval_after_a_first_interval_of_grace() {
    let interval = Duration::from_millis(1_500);
    assert_eq!(next_poll(interval, 1), Duration::from_millis(1_500));
    assert_eq!(next_poll(interval, 2), Duration::from_secs(3));
    assert_eq!(next_poll(interval, 10), Duration::from_secs(15));
    assert_eq!(next_poll(interval, 0), Duration::zero());
    assert_eq!(
        next_poll(Duration::from_secs(u64::MAX), 2),
        Duration::new(u64::MAX, 999_999_999)
    );
}

#[test]
fn the_first_failed_poll_ends_the_task() {
    assert_eq!(after_poll(Ok(())), PollVerdict::Continue);
    assert_eq!(after_poll(Err("down".to_string())), PollVerdict::Fail("down".to_string()));
}

#[test]
fn an_endpoint_that_fails_after_three_seconds_is_caught_by_the_poll_at_four() {
    let mut config = watch_config();
    config.http = vec!["http://api/live".to_string()];
    config.http_interval = Duration::from_secs(1);
    assert!(!config.only_awaits_exit());
    let probes = config.probes();
    assert_eq!(probes.len(), 1);
    let http = match &probes[0] {
        ProbeSpec::Http(http) => http,
        other => panic!("unexpected probe {:?}", other),
    };
    let interval = config.interval_of(&probes[0]);
    let mut watch = Watch::start(&config);
    let mut clock = Duration::zero();
    let mut poll = 0u32;
    let action = loop {
        poll += 1;
        let due = next_poll(interval, poll);
        assert_eq!(remaining(due, clock), Duration::from_secs(1));
        clock = due;
        let code = if clock.as_millis() > 3_000 { 500 } else { 200 };
        let reply = HttpReply::Status(HttpStatus::from_u16(code).unwrap());
        match after_poll(http.evaluate(&reply)) {
            PollVerdict::Continue => {}
            PollVerdict::Fail(reason) => {
                break watch.on_event(WatchEvent::ProbeTaskEnded(ProbeTaskEnd::Failed(reason)));
            }
        }
    };
    assert_eq!(poll, 4);
    assert_eq!(clock, Duration::from_secs(4));
    assert_eq!(
        action,
        WatchAction::Finish {
            result: WatchResult::HealthCheckFailed(
                "http http://api/live returned status 500 Internal Server Error".to_string()
            ),
            kill: true
        }
    );
}

#[test]
fn a_poll_interval_of_zero_is_not_valid() {
    assert!(watch_config().is_valid());
    let mut config = watch_config();
    config.tcp_interval = Duration::zero();
    assert!(!config.is_valid());
    let mut config = watch_config();
    config.http_interval = Duration::zero();
    assert!(!config.is_valid());
    let mut config = watch_config();
    config.file_interval = Duration::from_millis(0);
    assert!(!config.is_valid());
}
