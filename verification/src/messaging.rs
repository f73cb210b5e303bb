//! The producer's settings and the consumer's retry decisions.
use vstd::prelude::*;

use crate::config::{env_lookup, lemma_lookup_at};
use crate::text::{concat, str_eq, to_owned_string};

verus! {

#[derive(Debug)]
pub enum HandlerError {
    /// The handler may succeed when tried again.
    Retryable(String),
    /// Trying again will not help.
    Permanent(String),
}

/// Client settings for the event producer, each key once.
pub struct ProducerConfig {
    settings: Vec<(String, String)>,
}

impl ProducerConfig {
    /// The settings as name/value pairs.
    pub closed spec fn pairs(&self) -> Seq<(String, String)> {
        self.settings@
    }

    /// No key occurs twice.
    pub closed spec fn wf(&self) -> bool {
        forall|i: int, j: int|
            0 <= i < j < self.settings@.len() ==> #[trigger] self.settings@[i].0@ != #[trigger] self.settings@[j].0@
    }

    /// The value set for `key`, if any.
    pub fn get(&self, key: &str) -> (r: Option<&String>)
        ensures
            match r {
                Some(v) => env_lookup(self.pairs(), key@) == Some(v@),
                None => env_lookup(self.pairs(), key@) is None,
            },
    {
        crate::config::lookup(&self.settings, key)
    }

    /// The settings, to hand to the client.
    pub fn settings(&self) -> (s: &Vec<(String, String)>)
        ensures
            s@ == self.pairs(),
    {
        &self.settings
    }
}

fn pair(k: &str, v: &str) -> (p: (String, String))
    ensures
        p.0@ == k@,
        p.1@ == v@,
{
    (to_owned_string(k), to_owned_string(v))
}

/// The names of the settings a producer is made with.
pub open spec fn producer_keys() -> Seq<Seq<char>> {
    seq![
        "bootstrap.servers"@,
        "acks"@,
        "enable.idempotence"@,
        "max.in.flight.requests.per.connection"@,
        "retries"@,
        "compression.type"@,
        "linger.ms"@,
    ]
}

/// The producer's settings: the given brokers, acknowledgement by all
/// replicas, idempotence, at most 5 requests in flight, 10 retries, zstd
/// compression and 5 ms of lingering.
pub fn producer_default_config(brokers: &str) -> (c: ProducerConfig)
    ensures
        c.wf(),
        c.pairs().len() == 7,
        env_lookup(c.pairs(), "bootstrap.servers"@) == Some(brokers@),
        env_lookup(c.pairs(), "acks"@) == Some("all"@),
        env_lookup(c.pairs(), "enable.idempotence"@) == Some("true"@),
        env_lookup(c.pairs(), "max.in.flight.requests.per.connection"@) == Some("5"@),
        env_lookup(c.pairs(), "retries"@) == Some("10"@),
        env_lookup(c.pairs(), "compression.type"@) == Some("zstd"@),
        env_lookup(c.pairs(), "linger.ms"@) == Some("5"@),
        forall|i: int| 0 <= i < 7 ==> c.pairs()[i].0@ == #[trigger] producer_keys()[i],
{
    let mut settings: Vec<(String, String)> = Vec::new();
    settings.push(pair("bootstrap.servers", brokers));
    settings.push(pair("acks", "all"));
    settings.push(pair("enable.idempotence", "true"));
    settings.push(pair("max.in.flight.requests.per.connection", "5"));
    settings.push(pair("retries", "10"));
    settings.push(pair("compression.type", "zstd"));
    settings.push(pair("linger.ms", "5"));
    proof {
        reveal_strlit("bootstrap.servers");
        reveal_strlit("acks");
        reveal_strlit("enable.idempotence");
        reveal_strlit("max.in.flight.requests.per.connection");
        reveal_strlit("retries");
        reveal_strlit("compression.type");
        reveal_strlit("linger.ms");
        let s = settings@;
        assert forall|i: int| 0 <= i < 7 implies s[i].0@ == #[trigger] producer_keys()[i] by {}
        assert forall|i: int, j: int| 0 <= i < j < 7 implies #[trigger] s[i].0@ != #[trigger] s[j].0@ by {
            assert(s[i].0@.len() != s[j].0@.len());
        }
        assert forall|k: int| 0 <= k < 7 implies env_lookup(s, #[trigger] producer_keys()[k]) == Some(s[k].1@) by {
            lemma_lookup_at(s, producer_keys()[k], k);
        }
    }
    ProducerConfig { settings }
}

/// How many times a message is handed to its handler at most.
pub const MAX_ATTEMPTS: u32 = 10;

/// The first pause between attempts, in milliseconds.
pub const INITIAL_BACKOFF_MS: u64 = 100;

/// The longest pause between attempts, in milliseconds.
pub const MAX_BACKOFF_MS: u64 = 5000;

/// What the consumer does after one attempt at handling a message.
#[derive(Debug, Clone, Copy, PartialEq, Eq, Structural)]
pub enum RetryDecision {
    /// Stop trying and commit the message.
    Commit,
    /// Give up on the message: publish it to its topic's dead-letter topic,
    /// then commit it.
    DeadLetter,
    /// Wait this many milliseconds and try again.
    RetryAfter(u64),
}

/// How an attempt ended.
pub enum AttemptOutcome {
    Success,
    Retryable,
    Permanent,
}

pub open spec fn outcome_of(r: &Result<(), HandlerError>) -> AttemptOutcome {
    match r {
        Ok(()) => AttemptOutcome::Success,
        Err(HandlerError::Retryable(_)) => AttemptOutcome::Retryable,
        Err(HandlerError::Permanent(_)) => AttemptOutcome::Permanent,
    }
}

/// The pause after this one: doubled, but never above 5 s.
pub open spec fn next_pause(backoff: u64) -> u64 {
    if backoff * 2 <= 5000 {
        (backoff * 2) as u64
    } else {
        5000
    }
}

/// One attempt, made with `attempts` earlier attempts and `backoff` as the
/// next pause: the attempts made after it, the next pause, and the decision.
pub open spec fn retry_step(attempts: nat, backoff: u64, outcome: AttemptOutcome) -> (nat, u64, RetryDecision) {
    let made = attempts + 1;
    match outcome {
        AttemptOutcome::Retryable => if made >= 10 {
            (made, backoff, RetryDecision::DeadLetter)
        } else {
            (made, next_pause(backoff), RetryDecision::RetryAfter(backoff))
        },
        _ => (made, backoff, RetryDecision::Commit),
    }
}

/// The retry state of one message: attempts made and the next pause.
pub struct RetryState {
    attempts: u32,
    backoff_ms: u64,
}

/// The pause after `k` retryable failures: 100 ms doubled `k` times, never
/// above 5 s.
pub open spec fn backoff_after(k: nat) -> u64
    decreases k,
{
    if k == 0 {
        100
    } else {
        next_pause(backoff_after((k - 1) as nat))
    }
}

impl RetryState {
    pub closed spec fn attempts_made(&self) -> nat {
        self.attempts as nat
    }

    pub closed spec fn next_backoff(&self) -> u64 {
        self.backoff_ms
    }

    /// The state of a message not yet handed to its handler.
    pub fn new() -> (s: RetryState)
        ensures
            s.attempts_made() == 0,
            s.next_backoff() == 100,
    {
        RetryState { attempts: 0, backoff_ms: INITIAL_BACKOFF_MS }
    }

    pub fn attempts(&self) -> (n: u32)
        ensures
            n == self.attempts_made(),
    {
        self.attempts
    }

    /// Records the outcome of one more attempt and decides what follows:
    /// success and permanent failures commit; a retryable failure waits and
    /// retries, unless this was the tenth attempt, which sends the message to
    /// the dead-letter topic.
    pub fn record(&mut self, outcome: &Result<(), HandlerError>) -> (d: RetryDecision)
        requires
            old(self).attempts_made() < 10,
            old(self).next_backoff() <= 5000,
        ensures
            (final(self).attempts_made(), final(self).next_backoff(), d) == retry_step(
                old(self).attempts_made(),
                old(self).next_backoff(),
                outcome_of(outcome),
            ),
    {
        self.attempts = self.attempts + 1;
        match outcome {
            Ok(()) => RetryDecision::Commit,
            Err(HandlerError::Permanent(_)) => RetryDecision::Commit,
            Err(HandlerError::Retryable(_)) => {
                if self.attempts >= MAX_ATTEMPTS {
                    RetryDecision::DeadLetter
                } else {
                    let wait = self.backoff_ms;
                    let doubled = self.backoff_ms * 2;
                    self.backoff_ms = if doubled <= MAX_BACKOFF_MS { doubled } else { MAX_BACKOFF_MS };
                    RetryDecision::RetryAfter(wait)
                }
            },
        }
    }
}

/// Every pause lies between 100 ms and 5 s; from the sixth on it is 5 s.
pub proof fn lemma_backoff_bounded(k: nat)
    ensures
        100 <= backoff_after(k) <= 5000,
        k >= 6 ==> backoff_after(k) == 5000,
    decreases k,
{
    if k > 0 {
        lemma_backoff_bounded((k - 1) as nat);
        if k == 6 {
            reveal_with_fuel(backoff_after, 7);
            assert(backoff_after(1) == 200);
            assert(backoff_after(2) == 400);
            assert(backoff_after(3) == 800);
            assert(backoff_after(4) == 1600);
            assert(backoff_after(5) == 3200);
        }
    }
}

/// A message whose handler keeps failing with retryable errors: after `k`
/// failures (fewer than 10) the consumer has made `k` attempts and waits
/// `backoff_after(k - 1)` before the next; the tenth failure sends the
/// message to the dead-letter topic, so no message is handed to its handler
/// more than 10 times.
pub proof fn lemma_retry_schedule(k: nat)
    requires
        k < 10,
    ensures
        ({
            let (made, pause, d) = retry_step(k, backoff_after(k), AttemptOutcome::Retryable);
            &&& made == k + 1
            &&& k + 1 < 10 ==> d == RetryDecision::RetryAfter(backoff_after(k)) && pause == backoff_after(k + 1)
            &&& k + 1 == 10 ==> d == RetryDecision::DeadLetter
        }),
{
    lemma_backoff_bounded(k);
}

impl HandlerError {
    /// The error as it is shown.
    pub open spec fn message(&self) -> Seq<char> {
        match self {
            HandlerError::Retryable(m) => "retryable: "@ + m@,
            HandlerError::Permanent(m) => "permanent: "@ + m@,
        }
    }

    pub fn to_string(&self) -> (s: String)
        ensures
            s@ == self.message(),
    {
        match self {
            HandlerError::Retryable(m) => concat("retryable: ", m.as_str()),
            HandlerError::Permanent(m) => concat("permanent: ", m.as_str()),
        }
    }
}

/// The dead-letter topic of a topic: its name followed by `.dlq`.
pub fn dead_letter_topic(topic: &str) -> (t: String)
    ensures
        t@ == topic@ + ".dlq"@,
{
    concat(topic, ".dlq")
}

} // verus!
