use pocketbase_sdk::policy::ReconnectOptions;

#[test]
fn default_options() {
    let opts = ReconnectOptions::default();
    assert!(!opts.retry_initial);
    assert!(opts.reconnect);
    assert_eq!(opts.delay_ms, 1000);
    assert_eq!(opts.backoff_factor, 2);
    assert_eq!(opts.delay_max_ms, 60000);
}

#[test]
fn builder_sets_every_field() {
    let opts = ReconnectOptions::reconnect(true)
        .retry_initial(false)
        .delay(1000)
        .backoff_factor(2)
        .delay_max(60000)
        .build();
    assert!(opts.reconnect);
    assert!(!opts.retry_initial);
    assert_eq!(opts.delay_ms, 1000);
    assert_eq!(opts.backoff_factor, 2);
    assert_eq!(opts.delay_max_ms, 60000);
}

#[test]
fn delay_sequence_one_second_factor_two_capped_at_a_minute() {
    let opts = ReconnectOptions::reconnect(true)
        .delay(1000)
        .backoff_factor(2)
        .delay_max(60000)
        .build();
    let expected: [u64; 9] = [1000, 2000, 4000, 8000, 16000, 32000, 60000, 60000, 60000];
    for (n, want) in expected.iter().enumerate() {
        assert_eq!(opts.delay_for_attempt(n as u32), *want);
    }
}

#[test]
fn delay_never_decreases_and_never_exceeds_max() {
    let opts = ReconnectOptions::reconnect(true)
        .delay(700)
        .backoff_factor(3)
        .delay_max(50000)
        .build();
    let mut prev = 0u64;
    for n in 0..100u32 {
        let d = opts.delay_for_attempt(n);
        assert!(d >= prev);
        assert!(d <= 50000);
        prev = d;
    }
}

#[test]
fn factor_one_keeps_the_delay_constant() {
    let opts = ReconnectOptions::reconnect(true)
        .delay(1500)
        .backoff_factor(1)
        .delay_max(60000)
        .build();
    for n in 0..20u32 {
        assert_eq!(opts.delay_for_attempt(n), 1500);
    }
}

#[test]
fn initial_delay_at_the_maximum_stays_there() {
    let opts = ReconnectOptions::reconnect(true)
        .delay(60000)
        .backoff_factor(2)
        .delay_max(60000)
        .build();
    assert_eq!(opts.delay_for_attempt(0), 60000);
    assert_eq!(opts.delay_for_attempt(5), 60000);
}
