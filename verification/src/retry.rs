//! The controller's dialing policy. The child may not have finished loading
//! the agent when the first mutation call arrives, so the control endpoint
//! is dialed under a bounded exponential backoff: a fixed number of
//! attempts, a fixed base delay that doubles after each failure. Only this
//! policy retries anything; every other failure is surfaced at once.

use vstd::prelude::*;

verus! {

/// How many times the endpoint is dialed before the call gives up.
pub const RETRY_ATTEMPTS: usize = 9;

/// Delay in milliseconds slept after the first failed attempt.
pub const BASE_DELAY_MS: u64 = 10;

/// Delay in milliseconds slept after the attempt numbered `attempt`
/// (counting from zero): the base delay, doubled once per earlier failure.
pub open spec fn backoff_delay_ms(attempt: nat) -> nat
    decreases attempt,
{
    if attempt == 0 {
        BASE_DELAY_MS as nat
    } else {
        2 * backoff_delay_ms((attempt - 1) as nat)
    }
}

/// Total time in milliseconds slept over `n` consecutive failed attempts.
pub open spec fn total_backoff_ms(n: nat) -> nat
    decreases n,
{
    if n == 0 {
        0
    } else {
        total_backoff_ms((n - 1) as nat) + backoff_delay_ms((n - 1) as nat)
    }
}

/// The concrete schedule: each attempt's delay and each prefix's total.
proof fn lemma_backoff_values()
    ensures
        backoff_delay_ms(0) == 10,
        backoff_delay_ms(1) == 20,
        backoff_delay_ms(2) == 40,
        backoff_delay_ms(3) == 80,
        backoff_delay_ms(4) == 160,
        backoff_delay_ms(5) == 320,
        backoff_delay_ms(6) == 640,
        backoff_delay_ms(7) == 1280,
        backoff_delay_ms(8) == 2560,
        total_backoff_ms(0) == 0,
        total_backoff_ms(1) == 10,
        total_backoff_ms(2) == 30,
        total_backoff_ms(3) == 70,
        total_backoff_ms(4) == 150,
        total_backoff_ms(5) == 310,
        total_backoff_ms(6) == 630,
        total_backoff_ms(7) == 1270,
        total_backoff_ms(8) == 2550,
        total_backoff_ms(9) == 5110,
{
    reveal_with_fuel(backoff_delay_ms, 10);
    reveal_with_fuel(total_backoff_ms, 10);
}

/// Every delay the policy ever sleeps is at most the last one.
proof fn lemma_backoff_delay_bound(n: nat)
    requires
        n < RETRY_ATTEMPTS,
    ensures
        backoff_delay_ms(n) <= 2560,
{
    lemma_backoff_values();
    if n == 0 {
    } else if n == 1 {
    } else if n == 2 {
    } else if n == 3 {
    } else if n == 4 {
    } else if n == 5 {
    } else if n == 6 {
    } else if n == 7 {
    } else {
        assert(n == 8);
    }
}

/// No prefix of the schedule sleeps longer than the whole budget.
proof fn lemma_total_backoff_bound(n: nat)
    requires
        n <= RETRY_ATTEMPTS,
    ensures
        total_backoff_ms(n) <= 5110,
{
    lemma_backoff_values();
    if n == 0 {
    } else if n == 1 {
    } else if n == 2 {
    } else if n == 3 {
    } else if n == 4 {
    } else if n == 5 {
    } else if n == 6 {
    } else if n == 7 {
    } else if n == 8 {
    } else {
        assert(n == 9);
    }
}

/// Law: exhausting the policy — every attempt failed — takes exactly nine
/// attempts and a cumulative wait of 5110 milliseconds, the retry budget the
/// dialing loop can never exceed.
pub proof fn lemma_retry_budget()
    ensures
        total_backoff_ms(RETRY_ATTEMPTS as nat) == 5110,
{
    lemma_backoff_values();
}

/// The dialing loop's state between attempts.
pub struct Backoff {
    /// Attempts already made and failed.
    pub attempts_made: usize,
    /// Delay to sleep after the next failure.
    pub delay_ms: u64,
}

impl Backoff {
    /// The state tracks the schedule: the stored delay is the one the
    /// schedule assigns to the next failure.
    pub open spec fn wf(&self) -> bool {
        &&& self.attempts_made <= RETRY_ATTEMPTS
        &&& self.delay_ms == backoff_delay_ms(self.attempts_made as nat)
    }

    /// Fresh state: nothing attempted, base delay pending.
    pub fn new() -> (r: Backoff)
        ensures
            r.wf(),
            r.attempts_made == 0,
    {
        Backoff { attempts_made: 0, delay_ms: BASE_DELAY_MS }
    }

    /// True while the policy allows another attempt.
    pub fn should_retry(&self) -> (r: bool)
        ensures
            r == (self.attempts_made < RETRY_ATTEMPTS),
    {
        self.attempts_made < RETRY_ATTEMPTS
    }

    /// Records one failed attempt: the next delay doubles.
    pub fn advance(&mut self)
        requires
            old(self).wf(),
            old(self).attempts_made < RETRY_ATTEMPTS,
        ensures
            final(self).wf(),
            final(self).attempts_made == old(self).attempts_made + 1,
    {
        proof {
            lemma_backoff_delay_bound(self.attempts_made as nat);
        }
        self.attempts_made = self.attempts_made + 1;
        self.delay_ms = self.delay_ms * 2;
    }
}

/// The dialing loop, run to completion against a schedule of attempt
/// results: `reachable[i]` says whether the endpoint would accept the
/// attempt numbered `i`. Returns which attempt connected, if any, and the
/// total time slept. The controller's live loop steps `Backoff` the same
/// way, with a real connection attempt in place of the schedule.
pub fn dial_outcome(reachable: &[bool]) -> (r: (Option<usize>, u64))
    requires
        reachable@.len() == RETRY_ATTEMPTS,
    ensures
        match r.0 {
            Some(i) => i < RETRY_ATTEMPTS && reachable@[i as int] && (forall|j: int|
                0 <= j < i ==> !reachable@[j]) && r.1 == total_backoff_ms(i as nat),
            None => (forall|j: int| 0 <= j < RETRY_ATTEMPTS ==> !reachable@[j]) && r.1
                == total_backoff_ms(RETRY_ATTEMPTS as nat),
        },
{
    let mut backoff = Backoff::new();
    let mut slept: u64 = 0;
    while backoff.should_retry()
        invariant
            backoff.wf(),
            reachable@.len() == RETRY_ATTEMPTS,
            slept == total_backoff_ms(backoff.attempts_made as nat),
            forall|j: int| 0 <= j < backoff.attempts_made ==> !reachable@[j],
        decreases RETRY_ATTEMPTS - backoff.attempts_made,
    {
        let i = backoff.attempts_made;
        if reachable[i] {
            return (Some(i), slept);
        }
        proof {
            lemma_total_backoff_bound(i as nat);
            lemma_backoff_delay_bound(i as nat);
        }
        slept = slept + backoff.delay_ms;
        backoff.advance();
        proof {
            reveal_with_fuel(total_backoff_ms, 2);
        }
    }
    (None, slept)
}

} // verus!
