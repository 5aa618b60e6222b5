use cosmic_gfwd::events::ConfigurationEvent;
use cosmic_gfwd::watcher::{
    ConfigurationWatchEvent, RetryBackoff, Watcher, WatcherAction, WatcherInput,
};

fn retry(action: WatcherAction) -> (String, u64) {
    match action {
        WatcherAction::Retry {
            event: ConfigurationWatchEvent::Unavailable(reason),
            delay_seconds,
        } => (reason, delay_seconds),
        other => panic!("expected a retry, got {other:?}"),
    }
}

#[test]
fn backoff_doubles_and_caps() {
    let mut watcher = Watcher::new();
    let delays: Vec<u64> = (0..8)
        .map(|_| retry(watcher.step(WatcherInput::ConnectFailed("connection failed".into()))).1)
        .collect();
    assert_eq!(delays, [1, 2, 4, 8, 16, 30, 30, 30]);
}

#[test]
fn retry_backoff_resets_to_one_second() {
    let mut backoff = RetryBackoff::new();
    assert_eq!(backoff.next_delay(), 1);
    assert_eq!(backoff.next_delay(), 2);
    backoff.reset();
    assert_eq!(backoff.next_delay(), 1);
}

#[test]
fn initial_connection_failure_retries_then_becomes_ready() {
    let mut watcher = Watcher::new();
    assert_eq!(
        retry(watcher.step(WatcherInput::ConnectFailed("initial connection failed".into()))),
        ("initial connection failed".to_string(), 1)
    );
    assert_eq!(
        watcher.step(WatcherInput::Connected),
        WatcherAction::Emit(ConfigurationWatchEvent::Ready)
    );
}

#[test]
fn setup_timeout_is_retried() {
    let mut watcher = Watcher::new();
    assert_eq!(
        retry(watcher.step(WatcherInput::ConnectTimedOut)),
        (
            "firewalld configuration watcher connection timed out".to_string(),
            1
        )
    );
}

#[test]
fn clean_eof_is_a_retryable_failure() {
    let mut watcher = Watcher::new();
    watcher.step(WatcherInput::Connected);
    assert_eq!(
        retry(watcher.step(WatcherInput::SessionEnded)),
        ("firewalld configuration event stream ended".to_string(), 1)
    );
}

#[test]
fn immediately_ending_sessions_do_not_reset_backoff() {
    let mut watcher = Watcher::new();
    assert_eq!(retry(watcher.step(WatcherInput::ConnectFailed("connection failed".into()))).1, 1);
    watcher.step(WatcherInput::Connected);
    assert_eq!(retry(watcher.step(WatcherInput::SessionEnded)).1, 2);
    watcher.step(WatcherInput::Connected);
    assert_eq!(retry(watcher.step(WatcherInput::SessionEnded)).1, 4);
}

#[test]
fn real_event_resets_backoff() {
    let mut watcher = Watcher::new();
    retry(watcher.step(WatcherInput::ConnectFailed("first failure".into())));
    retry(watcher.step(WatcherInput::ConnectFailed("second failure".into())));
    watcher.step(WatcherInput::Connected);
    let event = ConfigurationEvent::RuntimeZoneChanged {
        zone: "public".into(),
    };
    assert_eq!(
        watcher.step(WatcherInput::Changed(event.clone())),
        WatcherAction::Emit(ConfigurationWatchEvent::Changed(event))
    );
    assert_eq!(
        retry(watcher.step(WatcherInput::SessionFailed("session failed".into()))),
        ("session failed".to_string(), 1)
    );
}

#[test]
fn healthy_quiet_session_resets_backoff() {
    let mut watcher = Watcher::new();
    retry(watcher.step(WatcherInput::ConnectFailed("first failure".into())));
    retry(watcher.step(WatcherInput::ConnectFailed("second failure".into())));
    watcher.step(WatcherInput::Connected);
    assert_eq!(
        watcher.step(WatcherInput::Healthy {
            elapsed_nanos: 29_999_999_999
        }),
        WatcherAction::Continue
    );
    assert!(!watcher.stable);
    watcher.step(WatcherInput::Healthy {
        elapsed_nanos: 30_000_000_000,
    });
    assert!(watcher.stable);
    assert_eq!(
        retry(watcher.step(WatcherInput::SessionFailed("quiet session failed".into()))),
        ("quiet session failed".to_string(), 1)
    );
}

#[test]
fn stream_error_drops_session_before_retry() {
    let mut watcher = Watcher::new();
    assert_eq!(
        watcher.step(WatcherInput::Connected),
        WatcherAction::Emit(ConfigurationWatchEvent::Ready)
    );
    assert_eq!(
        retry(watcher.step(WatcherInput::SessionFailed("stream failed".into()))),
        ("stream failed".to_string(), 1)
    );
    assert_eq!(
        watcher.step(WatcherInput::Connected),
        WatcherAction::Emit(ConfigurationWatchEvent::Ready)
    );
}

#[test]
fn recovery_is_reported_without_configuration_events() {
    let mut watcher = Watcher::new();
    assert_eq!(
        retry(watcher.step(WatcherInput::ConnectFailed("connection failed".into()))),
        ("connection failed".to_string(), 1)
    );
    assert_eq!(
        watcher.step(WatcherInput::Connected),
        WatcherAction::Emit(ConfigurationWatchEvent::Ready)
    );
}

#[test]
fn no_selected_zone_is_forwarded() {
    let mut watcher = Watcher::new();
    assert_eq!(
        watcher.step(WatcherInput::Connected),
        WatcherAction::Emit(ConfigurationWatchEvent::Ready)
    );
    assert_eq!(
        retry(watcher.step(WatcherInput::SessionEnded)),
        ("firewalld configuration event stream ended".to_string(), 1)
    );
    assert_eq!(
        watcher.step(WatcherInput::Connected),
        WatcherAction::Emit(ConfigurationWatchEvent::Ready)
    );
}
