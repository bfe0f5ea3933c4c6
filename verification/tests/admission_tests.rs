use gwent::admission::{admission_semaphore, MAX_PERMITS};
use gwent::config::{ConfigError, Environment, State};

fn with_concurrency(value: Option<&str>) -> State {
    let env = Environment {
        daemon_url: None,
        health_path: None,
        voices_path: None,
        tts_path: None,
        connect_timeout_ms: None,
        request_timeout_ms: None,
        max_concurrency: value.map(|s| s.to_string()),
    };
    State::new(&env).unwrap()
}

#[test]
fn the_limit_is_the_semaphores_own() {
    assert_eq!(MAX_PERMITS, tokio::sync::Semaphore::MAX_PERMITS);
    assert_eq!(MAX_PERMITS, usize::MAX >> 3);
}

#[test]
fn the_semaphore_has_one_permit_for_each_call() {
    let semaphore = admission_semaphore(&with_concurrency(None));
    assert_eq!(semaphore.available_permits(), 32);
    let semaphore = admission_semaphore(&with_concurrency(Some("1")));
    assert_eq!(semaphore.available_permits(), 1);
    let semaphore = admission_semaphore(&with_concurrency(Some("7")));
    assert_eq!(semaphore.available_permits(), 7);
}

#[test]
fn no_more_calls_are_admitted_than_there_are_permits() {
    let semaphore = admission_semaphore(&with_concurrency(Some("2")));
    let first = semaphore.try_acquire().unwrap();
    let second = semaphore.try_acquire().unwrap();
    assert!(semaphore.try_acquire().is_err());
    drop(first);
    let third = semaphore.try_acquire().unwrap();
    assert!(semaphore.try_acquire().is_err());
    drop(second);
    drop(third);
    assert_eq!(semaphore.available_permits(), 2);
}

#[test]
fn the_largest_semaphore_can_be_made() {
    let most = MAX_PERMITS.to_string();
    let semaphore = admission_semaphore(&with_concurrency(Some(&most)));
    assert_eq!(semaphore.available_permits(), MAX_PERMITS);
}

#[test]
fn settings_with_too_many_permits_are_refused() {
    for too_many in [(MAX_PERMITS as u128 + 1).to_string(), u64::MAX.to_string()] {
        let env = Environment {
            daemon_url: None,
            health_path: None,
            voices_path: None,
            tts_path: None,
            connect_timeout_ms: None,
            request_timeout_ms: None,
            max_concurrency: Some(too_many),
        };
        assert_eq!(State::new(&env).unwrap_err(), ConfigError::ConcurrencyOutOfRange);
    }
}
