use rand::Rng;
use vstd::prelude::*;

use crate::scheduler::Input;

verus! {

/// The wait before polling attempt number `attempt`: `min_delay`, doubled
/// for each earlier attempt, and never above `max_delay`.
pub open spec fn backoff(attempt: nat, min_delay: nat, max_delay: nat) -> nat
    decreases attempt,
{
    if attempt == 0 {
        if min_delay <= max_delay { min_delay } else { max_delay }
    } else {
        let d = 2 * backoff((attempt - 1) as nat, min_delay, max_delay);
        if d <= max_delay { d } else { max_delay }
    }
}

proof fn lemma_backoff_capped(attempt: nat, min_delay: nat, max_delay: nat)
    ensures
        backoff(attempt, min_delay, max_delay) <= max_delay,
    decreases attempt,
{
    if attempt > 0 {
        lemma_backoff_capped((attempt - 1) as nat, min_delay, max_delay);
    }
}

/// The wait before polling attempt number `attempt`, without jitter.
pub fn backoff_delay(attempt: u32, min_delay: u64, max_delay: u64) -> (r: u64)
    ensures
        r == backoff(attempt as nat, min_delay as nat, max_delay as nat),
{
    let mut d: u64 = if min_delay <= max_delay { min_delay } else { max_delay };
    let mut k: u32 = 0;
    while k < attempt
        invariant
            k <= attempt,
            d == backoff(k as nat, min_delay as nat, max_delay as nat),
        decreases attempt - k,
    {
        proof {
            lemma_backoff_capped(k as nat, min_delay as nat, max_delay as nat);
        }
        d = if d <= max_delay / 2 { 2 * d } else { max_delay };
        k = k + 1;
    }
    d
}

/// The wait with `jitter` added, never above `max_delay`.
pub fn jittered_delay(attempt: u32, min_delay: u64, max_delay: u64, jitter: u64) -> (r: u64)
    ensures
        r as int == if backoff(attempt as nat, min_delay as nat, max_delay as nat) + jitter <= max_delay {
            backoff(attempt as nat, min_delay as nat, max_delay as nat) + jitter
        } else {
            max_delay as int
        },
{
    let d = backoff_delay(attempt, min_delay, max_delay);
    proof {
        lemma_backoff_capped(attempt as nat, min_delay as nat, max_delay as nat);
    }
    if jitter <= max_delay - d { d + jitter } else { max_delay }
}

/// Relies on rand's `thread_rng().gen_range(0..=bound)`: a number between
/// zero and `bound`, both included (the range is never empty).
#[verifier::external_body]
fn random_up_to(bound: u64) -> (r: u64)
    ensures
        r <= bound,
{
    rand::thread_rng().gen_range(0..=bound)
}

/// The wait before polling attempt number `attempt`, with a random jitter of
/// up to half the backoff, never above `max_delay`.
pub fn next_poll_delay(attempt: u32, min_delay: u64, max_delay: u64) -> (r: u64)
    ensures
        backoff(attempt as nat, min_delay as nat, max_delay as nat) <= r <= max_delay,
        r <= backoff(attempt as nat, min_delay as nat, max_delay as nat) * 3 / 2,
{
    let d = backoff_delay(attempt, min_delay, max_delay);
    let jitter = random_up_to(d / 2);
    proof {
        lemma_backoff_capped(attempt as nat, min_delay as nat, max_delay as nat);
    }
    jittered_delay(attempt, min_delay, max_delay, jitter)
}

/// What one poll for the account's next block found.
#[derive(Clone, Copy, Debug, PartialEq, Eq, Structural)]
pub enum PollResult {
    /// A new block, with its generation time and the exit code of the
    /// message's transaction where the block holds it.
    NewBlock { block_time: u64, exit_code: Option<i32> },
    /// Nothing new yet.
    Nothing,
    /// A recoverable transport error (a timeout, a server error).
    Retry { code: u32 },
    /// An error that no retry can mend.
    Fatal { code: u32 },
}

/// What a poll means for the delivery: whether to poll again after a wait,
/// or the report to hand to the delivery.
pub open spec fn poll_report(result: PollResult, attempt: nat, max_attempts: nat, now: u64) -> Option<Input> {
    match result {
        PollResult::NewBlock { block_time, exit_code } => Some(Input::BlockFetched { block_time, exit_code }),
        PollResult::Nothing => if attempt + 1 < max_attempts {
            None
        } else {
            Some(Input::NextBlockNotYetAvailable { now })
        },
        PollResult::Retry { code } => Some(Input::NextBlockFailed { retriable: true, code, now }),
        PollResult::Fatal { code } => Some(Input::NextBlockFailed { retriable: false, code, now }),
    }
}

/// Classifies the result of polling attempt number `attempt` out of
/// `max_attempts`: `None` asks for another poll.
pub fn classify_poll(result: PollResult, attempt: u32, max_attempts: u32, now: u64) -> (r: Option<Input>)
    ensures
        r == poll_report(result, attempt as nat, max_attempts as nat, now),
{
    match result {
        PollResult::NewBlock { block_time, exit_code } => Some(Input::BlockFetched { block_time, exit_code }),
        PollResult::Nothing => if (attempt as u64) + 1 < max_attempts as u64 {
            None
        } else {
            Some(Input::NextBlockNotYetAvailable { now })
        },
        PollResult::Retry { code } => Some(Input::NextBlockFailed { retriable: true, code, now }),
        PollResult::Fatal { code } => Some(Input::NextBlockFailed { retriable: false, code, now }),
    }
}

} // verus!
