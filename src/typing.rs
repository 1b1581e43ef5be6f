//! Keystroke injection policy: which requests reach the worker, how a
//! failing injection is retried, and when repeated failures are reported.
//! The worker thread that performs the injections drives these decisions.

use vstd::prelude::*;

verus! {

/// A request to type `text`, optionally preceded by a space.
#[derive(Debug, Clone)]
pub struct TypingRequest {
    pub text: String,
    pub add_space: bool,
}

/// What the typing worker receives, in FIFO order.
#[derive(Debug)]
pub enum TypingCommand {
    Type { text: String, add_space: bool },
    Shutdown,
}

/// The command that a typing request becomes: none for empty text with no
/// leading space, which is accepted and does nothing.
pub fn typing_command(text: String, add_space: bool) -> (c: Option<TypingCommand>)
    ensures
        (text@.len() == 0 && !add_space) ==> c is None,
        !(text@.len() == 0 && !add_space) ==> (c matches Some(
            TypingCommand::Type { text: t, add_space: a },
        ) && t@ == text@ && a == add_space),
{
    if text.as_str().is_empty() && !add_space {
        None
    } else {
        Some(TypingCommand::Type { text, add_space })
    }
}

impl TypingRequest {
    /// The command for this request (see `typing_command`).
    pub fn into_command(self) -> (c: Option<TypingCommand>)
        ensures
            (self.text@.len() == 0 && !self.add_space) ==> c is None,
            !(self.text@.len() == 0 && !self.add_space) ==> (c matches Some(
                TypingCommand::Type { text: t, add_space: a },
            ) && t@ == self.text@ && a == self.add_space),
    {
        typing_command(self.text, self.add_space)
    }
}

/// Retries after the first attempt to type a text.
pub const MAX_RETRIES: u32 = 2;

/// Wait before the first retry, in milliseconds; each later wait doubles.
pub const BASE_BACKOFF_MS: u64 = 10;

/// The wait after failed attempt number `attempt` (counting from zero).
pub open spec fn backoff_delay(attempt: nat) -> nat
    decreases attempt,
{
    if attempt == 0 {
        BASE_BACKOFF_MS as nat
    } else {
        2 * backoff_delay((attempt - 1) as nat)
    }
}

/// What follows an attempt to type the text.
#[derive(Debug, Clone, Copy, PartialEq, Eq, Structural)]
pub enum RetryDecision {
    /// Wait this many milliseconds, then try again.
    RetryAfter(u64),
    /// Stop; `true` when the text was typed.
    Done(bool),
}

/// The decision after attempt number `attempt` reported `ok`.
pub open spec fn retry_decision(attempt: nat, ok: bool) -> RetryDecision {
    if ok {
        RetryDecision::Done(true)
    } else if attempt < MAX_RETRIES {
        RetryDecision::RetryAfter(backoff_delay(attempt) as u64)
    } else {
        RetryDecision::Done(false)
    }
}

/// The number of attempts made when they report `outcomes` in turn,
/// starting at attempt number `attempt`.
pub open spec fn attempts_made(outcomes: Seq<bool>, attempt: nat) -> nat
    decreases outcomes.len(),
{
    if outcomes.len() == 0 {
        0
    } else {
        match retry_decision(attempt, outcomes[0]) {
            RetryDecision::RetryAfter(_) => 1 + attempts_made(outcomes.drop_first(), attempt + 1),
            RetryDecision::Done(_) => 1,
        }
    }
}

/// The wait after failed attempt number `attempt`, for the attempts that
/// are followed by a retry.
pub fn backoff_ms(attempt: u32) -> (ms: u64)
    requires
        attempt < MAX_RETRIES,
    ensures
        ms == backoff_delay(attempt as nat),
{
    let mut ms: u64 = BASE_BACKOFF_MS;
    let mut i: u32 = 0;
    while i < attempt
        invariant
            i <= attempt,
            attempt < MAX_RETRIES,
            ms == backoff_delay(i as nat),
            ms <= 20,
        decreases attempt - i,
    {
        ms = ms * 2;
        i = i + 1;
    }
    ms
}

/// The steps of one typing operation: a leading space, typed once and
/// whose failure does not fail the operation, then the text, unless it is
/// empty, in which case the operation succeeds without it.
pub struct InjectionPlan {
    pub leading_space: bool,
    pub type_text: bool,
}

pub fn injection_plan(text: &str, add_space: bool) -> (p: InjectionPlan)
    ensures
        p.leading_space == add_space,
        p.type_text == (text@.len() > 0),
{
    InjectionPlan { leading_space: add_space, type_text: !text.is_empty() }
}

/// Progress through the attempts to type one text.
pub struct RetryState {
    pub attempt: u32,
    pub finished: bool,
    pub succeeded: bool,
}

impl RetryState {
    pub fn new() -> (r: RetryState)
        ensures
            r.attempt == 0,
            !r.finished,
            !r.succeeded,
    {
        RetryState { attempt: 0, finished: false, succeeded: false }
    }

    /// The attempts for an operation: none at all, and success, when there
    /// is no text to type.
    pub fn start(type_text: bool) -> (r: RetryState)
        ensures
            r.attempt == 0,
            r.finished == !type_text,
            r.succeeded == !type_text,
    {
        RetryState { attempt: 0, finished: !type_text, succeeded: !type_text }
    }

    /// Records the outcome of the current attempt and says what follows.
    pub fn record_attempt(&mut self, ok: bool) -> (d: RetryDecision)
        requires
            !old(self).finished,
            old(self).attempt <= MAX_RETRIES,
        ensures
            d == retry_decision(old(self).attempt as nat, ok),
            final(self).attempt <= MAX_RETRIES,
            d is RetryAfter ==> !final(self).finished && final(self).attempt == old(self).attempt + 1,
            d is Done ==> final(self).finished && final(self).attempt == old(self).attempt,
            final(self).succeeded == ok,
    {
        self.succeeded = ok;
        if ok {
            self.finished = true;
            RetryDecision::Done(true)
        } else if self.attempt < MAX_RETRIES {
            let ms = backoff_ms(self.attempt);
            self.attempt = self.attempt + 1;
            RetryDecision::RetryAfter(ms)
        } else {
            self.finished = true;
            RetryDecision::Done(false)
        }
    }
}

/// After this many failed operations in a row a warning is due.
pub const MAX_CONSECUTIVE_FAILURES: u32 = 5;

/// Counts failed typing operations in a row.
pub struct FailureTracker {
    pub consecutive_failures: u32,
}

impl FailureTracker {
    pub fn new() -> (r: FailureTracker)
        ensures
            r.consecutive_failures == 0,
    {
        FailureTracker { consecutive_failures: 0 }
    }

    /// Records whether an operation succeeded; returns whether a warning
    /// about repeated failures is due. The worker keeps going either way.
    pub fn record(&mut self, success: bool) -> (warn: bool)
        ensures
            success ==> final(self).consecutive_failures == 0,
            !success ==> final(self).consecutive_failures == (if old(self).consecutive_failures
                == u32::MAX {
                u32::MAX
            } else {
                (old(self).consecutive_failures + 1) as u32
            }),
            warn == (!success && final(self).consecutive_failures >= MAX_CONSECUTIVE_FAILURES),
    {
        if success {
            self.consecutive_failures = 0;
            false
        } else {
            self.consecutive_failures = self.consecutive_failures.saturating_add(1);
            self.consecutive_failures >= MAX_CONSECUTIVE_FAILURES
        }
    }
}

/// An injection that keeps failing is attempted exactly three times (the
/// first try and two retries) and then given up, and the waits between the
/// attempts grow: each is twice the one before.
pub proof fn lemma_failing_injection_tried_three_times(outcomes: Seq<bool>)
    requires
        outcomes.len() >= 3,
        forall|i: int| 0 <= i < outcomes.len() ==> !outcomes[i],
    ensures
        attempts_made(outcomes, 0) == 3,
        retry_decision(0, false) == RetryDecision::RetryAfter(backoff_delay(0) as u64),
        retry_decision(1, false) == RetryDecision::RetryAfter(backoff_delay(1) as u64),
        retry_decision(2, false) == RetryDecision::Done(false),
        backoff_delay(0) < backoff_delay(1),
        forall|a: nat| #[trigger] backoff_delay(a + 1) == 2 * backoff_delay(a),
{
    let o1 = outcomes.drop_first();
    let o2 = o1.drop_first();
    let o3 = o2.drop_first();
    assert(!o1[0] && !o2[0] && o3.len() == outcomes.len() - 3) by {
        assert(o1[0] == outcomes[1]);
        assert(o2[0] == outcomes[2]);
    }
    assert(backoff_delay(1) == 2 * backoff_delay(0));
    assert(backoff_delay(0) == 10);
    assert(attempts_made(o2, 2) == 1);
    assert(attempts_made(o1, 1) == 2);
    assert forall|a: nat| #[trigger] backoff_delay(a + 1) == 2 * backoff_delay(a) by {
        assert((a + 1) as nat - 1 == a);
    }
}

} // verus!
