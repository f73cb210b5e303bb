use aetherdb::messaging::{
    dead_letter_topic, producer_default_config, HandlerError, RetryDecision, RetryState,
    INITIAL_BACKOFF_MS, MAX_ATTEMPTS, MAX_BACKOFF_MS,
};

#[test]
fn producer_config_includes_all_required_settings() {
    let cfg = producer_default_config("localhost:9092");
    let pairs = [
        ("acks", "all"),
        ("enable.idempotence", "true"),
        ("max.in.flight.requests.per.connection", "5"),
        ("retries", "10"),
        ("compression.type", "zstd"),
        ("linger.ms", "5"),
    ];
    for (k, v) in pairs {
        assert_eq!(cfg.get(k).map(|s| s.as_str()), Some(v), "producer config {k} must be {v}");
    }
}

#[test]
fn producer_config_carries_the_brokers_and_nothing_else() {
    let cfg = producer_default_config("a:1,b:2");
    assert_eq!(cfg.get("bootstrap.servers").map(|s| s.as_str()), Some("a:1,b:2"));
    assert_eq!(cfg.settings().len(), 7);
    assert!(cfg.get("group.id").is_none());
}

#[test]
fn success_and_permanent_failures_commit() {
    let mut s = RetryState::new();
    assert_eq!(s.record(&Ok(())), RetryDecision::Commit);
    let mut s2 = RetryState::new();
    assert_eq!(s2.record(&Err(HandlerError::Permanent("bad".into()))), RetryDecision::Commit);
    assert_eq!(s2.attempts(), 1);
}

#[test]
fn retryable_failures_back_off_then_give_up() {
    assert_eq!((MAX_ATTEMPTS, INITIAL_BACKOFF_MS, MAX_BACKOFF_MS), (10, 100, 5000));
    let mut s = RetryState::new();
    let mut waits = Vec::new();
    loop {
        assert!(s.attempts() < MAX_ATTEMPTS);
        match s.record(&Err(HandlerError::Retryable("again".into()))) {
            RetryDecision::RetryAfter(ms) => waits.push(ms),
            RetryDecision::DeadLetter => break,
            RetryDecision::Commit => panic!("a retryable failure never commits directly"),
        }
    }
    assert_eq!(waits, vec![100, 200, 400, 800, 1600, 3200, 5000, 5000, 5000]);
    assert_eq!(s.attempts(), 10);
}

#[test]
fn a_late_success_commits() {
    let mut s = RetryState::new();
    assert_eq!(s.record(&Err(HandlerError::Retryable("x".into()))), RetryDecision::RetryAfter(100));
    assert_eq!(s.record(&Ok(())), RetryDecision::Commit);
    assert_eq!(s.attempts(), 2);
}

#[test]
fn dead_letters_go_to_the_topic_with_dlq_appended() {
    assert_eq!(dead_letter_topic("documents.created"), "documents.created.dlq");
}
