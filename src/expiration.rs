use vstd::prelude::*;

verus! {

/// Absolute expiration time of the message built by try number `try_index`:
/// the send time plus the base timeout, plus one increment per earlier try.
pub open spec fn expiration_of(now: nat, base_timeout: nat, increment: nat, try_index: nat) -> nat {
    now + base_timeout + try_index * increment
}

/// Expiration time for a message built at `now` by try number `try_index`,
/// or `None` where the value does not fit in a `u64`.
pub fn expiration_time(now: u64, base_timeout: u64, increment: u64, try_index: u32) -> (r: Option<u64>)
    ensures
        r.is_some() <==> expiration_of(now as nat, base_timeout as nat, increment as nat, try_index as nat) <= u64::MAX,
        r.is_some() ==> r.unwrap() == expiration_of(now as nat, base_timeout as nat, increment as nat, try_index as nat),
{
    let slack = (try_index as u64).checked_mul(increment);
    match slack {
        None => {
            proof {
                assert(try_index as nat * increment as nat <= expiration_of(now as nat, base_timeout as nat, increment as nat, try_index as nat));
            }
            None
        },
        Some(slack) => match now.checked_add(base_timeout) {
            None => None,
            Some(start) => start.checked_add(slack),
        },
    }
}

/// Why a message's expiration time could not be settled.
#[derive(Clone, Copy, Debug, PartialEq, Eq, Structural)]
pub enum ExpirationError {
    /// The header pins both its creation time and its expiration.
    BothPinned,
    /// The expiration time does not fit in a `u64`.
    Overflow,
}

/// Expiration time of a message whose header may pin its creation time or
/// its expiration (at most one of the two): a pinned expiration is kept, a
/// pinned creation time replaces `now` in the formula.
pub fn header_expiration(
    pinned_time: Option<u64>,
    pinned_expire: Option<u64>,
    now: u64,
    base_timeout: u64,
    increment: u64,
    try_index: u32,
) -> (r: Result<u64, ExpirationError>)
    ensures
        pinned_time.is_some() && pinned_expire.is_some() ==> r == Err::<u64, ExpirationError>(
            ExpirationError::BothPinned,
        ),
        pinned_time.is_none() && pinned_expire.is_some() ==> r == Ok::<u64, ExpirationError>(pinned_expire.unwrap()),
        pinned_expire.is_none() ==> ({
            let start = if pinned_time.is_some() { pinned_time.unwrap() } else { now };
            let e = expiration_of(start as nat, base_timeout as nat, increment as nat, try_index as nat);
            &&& e <= u64::MAX ==> r == Ok::<u64, ExpirationError>(e as u64)
            &&& e > u64::MAX ==> r == Err::<u64, ExpirationError>(ExpirationError::Overflow)
        }),
{
    match (pinned_time, pinned_expire) {
        (Some(_), Some(_)) => Err(ExpirationError::BothPinned),
        (None, Some(e)) => Ok(e),
        (t, None) => {
            let start = match t {
                Some(t) => t,
                None => now,
            };
            match expiration_time(start, base_timeout, increment, try_index) {
                Some(e) => Ok(e),
                None => Err(ExpirationError::Overflow),
            }
        },
    }
}

/// A later try gets a strictly later expiration, as long as each try adds a
/// positive increment and time does not run backwards between the tries.
pub proof fn lemma_expiration_grows_with_retries(
    now: nat,
    later: nat,
    base_timeout: nat,
    increment: nat,
    try_index: nat,
)
    requires
        increment > 0,
        now <= later,
    ensures
        expiration_of(later, base_timeout, increment, try_index + 1) > expiration_of(now, base_timeout, increment, try_index),
{
    assert((try_index + 1) * increment == try_index * increment + increment) by (nonlinear_arith);
}

} // verus!
