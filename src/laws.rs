use vstd::prelude::*;

use crate::events::EventKind;
use crate::expiration::{expiration_of, lemma_expiration_grows_with_retries};
use crate::scheduler::{initial, is_finished, next, Action, Delivery, Input, Phase, ProcessingConfig};

verus! {

/// The states, actions and events of a delivery that starts in `s` and is
/// handed `inputs` in order.
pub open spec fn run(s: Delivery, inputs: Seq<Input>) -> (Delivery, Seq<Action>, Seq<EventKind>)
    decreases inputs.len(),
{
    if inputs.len() == 0 {
        (s, seq![], seq![])
    } else {
        let r = run(s, inputs.drop_last());
        let n = next(r.0, inputs.last());
        (n.0, r.1.push(n.1), r.2 + n.2)
    }
}

pub open spec fn count_finish(actions: Seq<Action>) -> nat
    decreases actions.len(),
{
    if actions.len() == 0 {
        0
    } else {
        count_finish(actions.drop_last()) + if actions.last() is Finish { 1nat } else { 0nat }
    }
}

pub open spec fn count_prepare(actions: Seq<Action>) -> nat
    decreases actions.len(),
{
    if actions.len() == 0 {
        0
    } else {
        count_prepare(actions.drop_last()) + if actions.last() is Prepare { 1nat } else { 0nat }
    }
}

/// Which event may come right after `prev` (`None`: nothing emitted yet).
/// The order is: fetch the first block, send (repeating a failed send),
/// then fetch blocks one by one, each fetch possibly failing; an expired
/// message or a failed send may start over with a new message.
pub open spec fn may_follow(prev: Option<EventKind>, e: EventKind) -> bool {
    match e {
        EventKind::WillFetchFirstBlock => prev is None || prev == Some(EventKind::MessageExpired)
            || prev == Some(EventKind::SendFailed) || prev == Some(EventKind::FetchFirstBlockFailed),
        EventKind::FetchFirstBlockFailed => prev == Some(EventKind::WillFetchFirstBlock),
        EventKind::WillSend => prev == Some(EventKind::WillFetchFirstBlock) || prev == Some(EventKind::SendFailed),
        EventKind::DidSend => prev == Some(EventKind::WillSend),
        EventKind::SendFailed => prev == Some(EventKind::WillSend),
        EventKind::WillFetchNextBlock => prev == Some(EventKind::DidSend)
            || prev == Some(EventKind::WillFetchNextBlock) || prev == Some(EventKind::FetchNextBlockFailed),
        EventKind::FetchNextBlockFailed => prev == Some(EventKind::WillFetchNextBlock),
        EventKind::MessageExpired => prev == Some(EventKind::WillFetchNextBlock)
            || prev == Some(EventKind::FetchNextBlockFailed),
    }
}

/// The event before position `i` of `events`, `first` before the first one.
pub open spec fn before(first: Option<EventKind>, events: Seq<EventKind>, i: int) -> Option<EventKind> {
    if i == 0 {
        first
    } else {
        Some(events[i - 1])
    }
}

/// Every event of `events` may follow the one before it.
pub open spec fn ordered(events: Seq<EventKind>) -> bool {
    forall|i: int|
        0 <= i < events.len() ==> #[trigger] may_follow(before(None, events, i), events[i])
}

/// How the last event emitted fits the phase.
pub open spec fn event_consistent(s: Delivery) -> bool {
    match s.phase {
        Phase::Preparing => s.last_event is None || s.last_event == Some(EventKind::MessageExpired)
            || s.last_event == Some(EventKind::SendFailed),
        Phase::FetchingFirstBlock => s.last_event == Some(EventKind::WillFetchFirstBlock),
        Phase::Sending => s.last_event == Some(EventKind::WillSend),
        Phase::WaitingNextBlock => s.last_event == Some(EventKind::WillFetchNextBlock),
        Phase::Finished { .. } => true,
    }
}

/// The current message's expiration is the one computed when it was built.
pub open spec fn expiration_consistent(s: Delivery) -> bool {
    (s.phase is FetchingFirstBlock || s.phase is Sending || s.phase is WaitingNextBlock) ==> s.expiration
        == expiration_of(
        s.prepared_at as nat,
        s.config.base_timeout as nat,
        s.config.timeout_increment as nat,
        s.try_index as nat,
    )
}

/// The current message, while in use, has not been outlived by the last
/// block observed for it.
pub open spec fn not_outlived(s: Delivery) -> bool {
    (s.phase is FetchingFirstBlock || s.phase is Sending || s.phase is WaitingNextBlock) ==> s.last_block_time
        <= s.expiration
}

proof fn lemma_next(s: Delivery, input: Input)
    requires
        event_consistent(s),
        expiration_consistent(s),
        not_outlived(s),
    ensures
        ({
            let n = next(s, input);
            &&& n.0.config == s.config
            &&& not_outlived(n.0)
            &&& event_consistent(n.0)
            &&& expiration_consistent(n.0)
            &&& n.2.len() <= 2
            &&& forall|i: int|
                0 <= i < n.2.len() ==> #[trigger] may_follow(before(s.last_event, n.2, i), n.2[i])
            &&& n.0.last_event == if n.2.len() > 0 { Some(n.2.last()) } else { s.last_event }
            &&& is_finished(s.phase) ==> n.0 == s && n.1 == Action::Idle
            &&& !is_finished(s.phase) ==> (is_finished(n.0.phase) <==> n.1 is Finish)
            &&& (n.1 is Prepare ==> n.0.try_index == s.try_index + 1 && n.0.try_index <= s.config.retries_count
                && n.1 == Action::Prepare { try_index: n.0.try_index })
            &&& (!(n.1 is Prepare) ==> n.0.try_index == s.try_index)
        }),
{
}

proof fn lemma_run(config: ProcessingConfig, start: u32, inputs: Seq<Input>)
    ensures
        ({
            let r = run(initial(config, start), inputs);
            &&& r.0.config == config
            &&& event_consistent(r.0)
            &&& expiration_consistent(r.0)
            &&& not_outlived(r.0)
            &&& ordered(r.2)
            &&& r.0.last_event == if r.2.len() > 0 { Some(r.2.last()) } else { None }
            &&& count_finish(r.1) == if is_finished(r.0.phase) { 1nat } else { 0nat }
            &&& start <= r.0.try_index
            &&& count_prepare(r.1) == r.0.try_index - start
            &&& start <= config.retries_count ==> r.0.try_index <= config.retries_count
        }),
    decreases inputs.len(),
{
    if inputs.len() > 0 {
        let p = run(initial(config, start), inputs.drop_last());
        lemma_run(config, start, inputs.drop_last());
        lemma_next(p.0, inputs.last());
        let n = next(p.0, inputs.last());
        let evs = p.2 + n.2;
        let acts = p.1.push(n.1);
        assert(acts.drop_last() =~= p.1);
        assert(acts.last() == n.1);
        if n.2.len() > 0 {
            assert(evs.last() == n.2.last());
        } else {
            assert(evs =~= p.2);
        }
        assert forall|i: int| 0 <= i < evs.len() implies #[trigger] may_follow(before(None, evs, i), evs[i]) by {
            if i < p.2.len() {
                assert(evs[i] == p.2[i]);
                assert(may_follow(before(None, p.2, i), p.2[i]));
            } else {
                let k = i - p.2.len();
                assert(evs[i] == n.2[k]);
                assert(may_follow(before(p.0.last_event, n.2, k), n.2[k]));
            }
        }
    }
}

/// A delivery produces at most one outcome: after any inputs, it has asked
/// to finish exactly once if it is finished, and never otherwise.
pub proof fn lemma_exactly_one_outcome(config: ProcessingConfig, start_try_index: u32, inputs: Seq<Input>)
    ensures
        ({
            let r = run(initial(config, start_try_index), inputs);
            count_finish(r.1) == if is_finished(r.0.phase) { 1nat } else { 0nat }
        }),
{
    lemma_run(config, start_try_index, inputs);
}

/// The events of a delivery always come in the order that `may_follow`
/// describes: in particular, `DidSend` comes right after a `WillSend`.
pub proof fn lemma_event_order(config: ProcessingConfig, start_try_index: u32, inputs: Seq<Input>)
    ensures
        ordered(run(initial(config, start_try_index), inputs).2),
{
    lemma_run(config, start_try_index, inputs);
}

/// A delivery never goes on fetching, sending or waiting with a message
/// whose expiration the last observed block has passed.
pub proof fn lemma_never_uses_outlived_message(config: ProcessingConfig, start_try_index: u32, inputs: Seq<Input>)
    ensures
        not_outlived(run(initial(config, start_try_index), inputs).0),
{
    lemma_run(config, start_try_index, inputs);
}

/// With a retry count `R`, a delivery that starts at try `t <= R` builds at
/// most `R - t + 1` messages: the first one and one per retry.
pub proof fn lemma_retry_budget(config: ProcessingConfig, start_try_index: u32, inputs: Seq<Input>)
    requires
        start_try_index <= config.retries_count,
    ensures
        1 + count_prepare(run(initial(config, start_try_index), inputs).1) <= config.retries_count - start_try_index
            + 1,
{
    lemma_run(config, start_try_index, inputs);
}

/// When a delivery gives up on a message and builds the next one no earlier
/// than the first, the new message expires strictly later, as long as each
/// retry adds a positive increment.
pub proof fn lemma_retry_extends_expiration(
    config: ProcessingConfig,
    start_try_index: u32,
    inputs: Seq<Input>,
    retry: Input,
    now: u64,
)
    requires
        config.timeout_increment > 0,
        ({
            let s = run(initial(config, start_try_index), inputs).0;
            &&& s.phase is FetchingFirstBlock || s.phase is Sending || s.phase is WaitingNextBlock
            &&& next(s, retry).1 is Prepare
            &&& s.prepared_at <= now
        }),
    ensures
        ({
            let s = run(initial(config, start_try_index), inputs).0;
            let s2 = next(next(s, retry).0, Input::Prepared { now }).0;
            s2.phase is FetchingFirstBlock ==> s2.expiration > s.expiration
        }),
{
    let s = run(initial(config, start_try_index), inputs).0;
    lemma_run(config, start_try_index, inputs);
    lemma_next(s, retry);
    lemma_expiration_grows_with_retries(
        s.prepared_at as nat,
        now as nat,
        config.base_timeout as nat,
        config.timeout_increment as nat,
        s.try_index as nat,
    );
}

} // verus!
