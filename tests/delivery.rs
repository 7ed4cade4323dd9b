use ton_sdk::events::{events_match, processing_event_name, EventKind, EventPattern, EventQueue, FailureInfo, ProcessingEvent};
use ton_sdk::expiration::{expiration_time, header_expiration, ExpirationError};
use ton_sdk::scheduler::{Action, Delivery, DeliveryError, Input, Outcome, Phase, ProcessingConfig};

fn config(retries: u32) -> ProcessingConfig {
    ProcessingConfig { retries_count: retries, send_retries: 2, fetch_retries: 2, base_timeout: 5, timeout_increment: 3 }
}

fn drive(d: &mut Delivery, inputs: &[Input], log: &mut Vec<EventKind>) -> Action {
    let mut last = Action::Idle;
    for i in inputs {
        let (a, ev) = d.step(*i);
        log.extend(ev);
        last = a;
    }
    last
}

fn as_events(kinds: &[EventKind]) -> Vec<ProcessingEvent> {
    kinds
        .iter()
        .map(|k| {
            let err = FailureInfo { code: 1, retriable: true, message: "x".to_string() };
            let b = "block".to_string();
            let m = "msg".to_string();
            match k {
                EventKind::WillFetchFirstBlock => ProcessingEvent::WillFetchFirstBlock,
                EventKind::FetchFirstBlockFailed => ProcessingEvent::FetchFirstBlockFailed { error: err },
                EventKind::WillSend => ProcessingEvent::WillSend { shard_block_id: b, message_id: m },
                EventKind::DidSend => ProcessingEvent::DidSend { shard_block_id: b, message_id: m },
                EventKind::SendFailed => ProcessingEvent::SendFailed { shard_block_id: b, message_id: m, error: err },
                EventKind::WillFetchNextBlock => ProcessingEvent::WillFetchNextBlock { shard_block_id: b, message_id: m },
                EventKind::FetchNextBlockFailed => {
                    ProcessingEvent::FetchNextBlockFailed { shard_block_id: b, message_id: m, error: err }
                }
                EventKind::MessageExpired => ProcessingEvent::MessageExpired { message_id: m, error: err },
            }
        })
        .collect()
}

fn canonical() -> Vec<EventPattern> {
    vec![
        EventPattern { kind: EventKind::WillFetchFirstBlock, repeated: false },
        EventPattern { kind: EventKind::WillSend, repeated: false },
        EventPattern { kind: EventKind::WillSend, repeated: true },
        EventPattern { kind: EventKind::DidSend, repeated: false },
        EventPattern { kind: EventKind::WillFetchNextBlock, repeated: true },
    ]
}

#[test]
fn expiration_formula_exact() {
    assert_eq!(expiration_time(100, 40, 10, 0), Some(140));
    assert_eq!(expiration_time(100, 40, 10, 3), Some(170));
    assert_eq!(expiration_time(u64::MAX - 1, 1, 0, 0), Some(u64::MAX));
    assert_eq!(expiration_time(u64::MAX, 1, 0, 0), None);
    assert_eq!(expiration_time(0, 0, u64::MAX, 2), None);
}

#[test]
fn expiration_grows_with_try_index() {
    let a = expiration_time(100, 40, 10, 4).unwrap();
    let b = expiration_time(100, 40, 10, 5).unwrap();
    let c = expiration_time(120, 40, 10, 5).unwrap();
    assert!(b > a);
    assert!(c > b);
}

#[test]
fn event_names() {
    let e = ProcessingEvent::DidSend { shard_block_id: "b".to_string(), message_id: "m".to_string() };
    assert_eq!(processing_event_name(Some(&e)), "DidSend");
    assert_eq!(processing_event_name(None), "");
    let all = [
        (EventKind::WillFetchFirstBlock, "WillFetchFirstBlock"),
        (EventKind::FetchFirstBlockFailed, "FetchFirstBlockFailed"),
        (EventKind::WillSend, "WillSend"),
        (EventKind::DidSend, "DidSend"),
        (EventKind::SendFailed, "SendFailed"),
        (EventKind::WillFetchNextBlock, "WillFetchNextBlock"),
        (EventKind::FetchNextBlockFailed, "FetchNextBlockFailed"),
        (EventKind::MessageExpired, "MessageExpired"),
    ];
    for (k, name) in all {
        let ev = as_events(&[k]);
        assert_eq!(ev[0].kind(), k);
        assert_eq!(processing_event_name(ev.get(0)), name);
    }
}

#[test]
fn event_pattern_matching() {
    let ok = as_events(&[EventKind::WillFetchFirstBlock, EventKind::WillSend, EventKind::WillSend, EventKind::WillSend, EventKind::DidSend, EventKind::WillFetchNextBlock, EventKind::WillFetchNextBlock]);
    assert!(events_match(&ok, &canonical()));
    let short = as_events(&[EventKind::WillFetchFirstBlock, EventKind::WillSend, EventKind::DidSend]);
    assert!(events_match(&short, &canonical()));
    let no_send = as_events(&[EventKind::WillFetchFirstBlock, EventKind::DidSend]);
    assert!(!events_match(&no_send, &canonical()));
    let empty: Vec<ProcessingEvent> = vec![];
    assert!(!events_match(&empty, &canonical()));
    assert!(events_match(&empty, &vec![]));
}

#[test]
fn successful_delivery() {
    let (mut d, first) = Delivery::new(config(0), 0);
    assert_eq!(first, Action::Prepare { try_index: 0 });
    let mut log = vec![];
    assert_eq!(drive(&mut d, &[Input::Prepared { now: 100 }], &mut log), Action::FetchFirstBlock);
    assert_eq!(d.expiration, 105);
    assert_eq!(drive(&mut d, &[Input::FirstBlockFetched], &mut log), Action::Send);
    assert_eq!(drive(&mut d, &[Input::SendSucceeded], &mut log), Action::FetchNextBlock);
    let last = drive(
        &mut d,
        &[
            Input::BlockFetched { block_time: 101, exit_code: None },
            Input::BlockFetched { block_time: 102, exit_code: Some(0) },
        ],
        &mut log,
    );
    assert_eq!(last, Action::Finish { outcome: Outcome::Succeeded });
    assert_eq!(d.phase, Phase::Finished { outcome: Outcome::Succeeded });
    assert!(events_match(&as_events(&log), &canonical()));
    assert_eq!(
        log,
        vec![
            EventKind::WillFetchFirstBlock,
            EventKind::WillSend,
            EventKind::DidSend,
            EventKind::WillFetchNextBlock,
            EventKind::WillFetchNextBlock
        ]
    );
}

#[test]
fn deploy_with_no_retries_expires() {
    // retry ceiling 0, five units of lifetime, the destination never answers
    let (mut d, _) = Delivery::new(config(0), 0);
    let mut log = vec![];
    let last = drive(
        &mut d,
        &[
            Input::Prepared { now: 1000 },
            Input::FirstBlockFetched,
            Input::SendSucceeded,
            Input::NextBlockNotYetAvailable { now: 1003 },
            Input::BlockFetched { block_time: 1006, exit_code: None },
        ],
        &mut log,
    );
    let expected = Outcome::Failed { error: DeliveryError::MessageExpired { last_block_time: 1006, tries: 0 } };
    assert_eq!(last, Action::Finish { outcome: expected });
    assert_eq!(*log.last().unwrap(), EventKind::MessageExpired);
    assert_eq!(d.step(Input::SendSucceeded), (Action::Idle, vec![]));
}

#[test]
fn expired_message_is_rebuilt_within_budget() {
    let (mut d, _) = Delivery::new(config(2), 0);
    let mut prepares = 1;
    let mut log = vec![];
    let mut now = 0u64;
    let mut expirations = vec![];
    let outcome = loop {
        let mut a = drive(&mut d, &[Input::Prepared { now }], &mut log);
        expirations.push(d.expiration);
        a = if a == Action::FetchFirstBlock { drive(&mut d, &[Input::FirstBlockFetched, Input::SendSucceeded], &mut log) } else { a };
        assert_eq!(a, Action::FetchNextBlock);
        now = d.expiration + 1;
        match d.step(Input::NextBlockNotYetAvailable { now }).0 {
            Action::Prepare { try_index } => {
                prepares += 1;
                assert_eq!(try_index, d.try_index);
            }
            Action::Finish { outcome } => break outcome,
            other => panic!("unexpected {:?}", other),
        }
    };
    assert_eq!(prepares, 3);
    assert_eq!(expirations, vec![5, 14, 26]);
    assert_eq!(outcome, Outcome::Failed { error: DeliveryError::MessageExpired { last_block_time: 0, tries: 2 } });
}

#[test]
fn send_failures_are_retried_then_escalate() {
    let (mut d, _) = Delivery::new(config(1), 0);
    let mut log = vec![];
    drive(&mut d, &[Input::Prepared { now: 10 }, Input::FirstBlockFetched], &mut log);
    let fail = Input::SendFailed { retriable: true, code: 7 };
    assert_eq!(d.step(fail).0, Action::Send);
    assert_eq!(d.step(fail).0, Action::Send);
    assert_eq!(d.step(fail).0, Action::Prepare { try_index: 1 });
    drive(&mut d, &[Input::Prepared { now: 11 }, Input::FirstBlockFetched], &mut log);
    assert_eq!(d.step(Input::SendFailed { retriable: false, code: 9 }).0, Action::Finish {
        outcome: Outcome::Failed { error: DeliveryError::Transport { code: 9 } }
    });
}

#[test]
fn fetch_failures_and_errors() {
    let (mut d, _) = Delivery::new(config(0), 0);
    let mut log = vec![];
    drive(&mut d, &[Input::Prepared { now: 10 }], &mut log);
    assert_eq!(d.step(Input::FirstBlockFailed { retriable: true, code: 1 }).0, Action::FetchFirstBlock);
    drive(&mut d, &[Input::FirstBlockFetched, Input::SendSucceeded], &mut log);
    let (a, ev) = d.step(Input::NextBlockFailed { retriable: true, code: 2, now: 11 });
    assert_eq!(a, Action::FetchNextBlock);
    assert_eq!(ev, vec![EventKind::FetchNextBlockFailed, EventKind::WillFetchNextBlock]);
    let (a, _) = d.step(Input::BlockFetched { block_time: 12, exit_code: Some(100) });
    assert_eq!(a, Action::Finish {
        outcome: Outcome::Failed { error: DeliveryError::ContractExecution { exit_code: 100 } }
    });

    let (mut d, _) = Delivery::new(config(0), 0);
    assert_eq!(d.step(Input::PrepareFailed).0, Action::Finish {
        outcome: Outcome::Failed { error: DeliveryError::Encoding }
    });
    let (mut d, _) = Delivery::new(config(0), 0);
    drive(&mut d, &[Input::Prepared { now: 10 }], &mut log);
    let (a, ev) = d.step(Input::FirstBlockFailed { retriable: false, code: 3 });
    assert_eq!(a, Action::Finish { outcome: Outcome::Failed { error: DeliveryError::Transport { code: 3 } } });
    assert_eq!(ev, vec![EventKind::FetchFirstBlockFailed]);
    let (mut d, _) = Delivery::new(config(0), 0);
    assert_eq!(d.step(Input::Prepared { now: u64::MAX }).0, Action::Finish {
        outcome: Outcome::Failed { error: DeliveryError::ExpirationOverflow }
    });
}

#[test]
fn cancellation_is_final() {
    let (mut d, _) = Delivery::new(config(3), 0);
    let mut log = vec![];
    drive(&mut d, &[Input::Prepared { now: 10 }, Input::FirstBlockFetched], &mut log);
    assert_eq!(d.step(Input::Cancel), (Action::Finish { outcome: Outcome::Cancelled }, vec![]));
    assert_eq!(d.step(Input::SendSucceeded), (Action::Idle, vec![]));
    assert_eq!(d.phase, Phase::Finished { outcome: Outcome::Cancelled });
}

#[test]
fn independent_deliveries_all_succeed() {
    let mut finished = 0;
    for k in 0..10u64 {
        let (mut d, _) = Delivery::new(config(10), 0);
        let mut log = vec![];
        let a = drive(
            &mut d,
            &[
                Input::Prepared { now: k },
                Input::FirstBlockFetched,
                Input::SendSucceeded,
                Input::BlockFetched { block_time: k + 1, exit_code: Some(0) },
            ],
            &mut log,
        );
        assert_eq!(a, Action::Finish { outcome: Outcome::Succeeded });
        finished += 1;
    }
    assert_eq!(finished, 10);
}

#[test]
fn input_out_of_phase_is_ignored() {
    let (mut d, _) = Delivery::new(config(0), 0);
    let before = d;
    assert_eq!(d.step(Input::SendSucceeded), (Action::Idle, vec![]));
    assert_eq!(d, before);
}

#[test]
fn header_pins_time_or_expiration() {
    assert_eq!(header_expiration(None, None, 100, 40, 10, 2), Ok(160));
    assert_eq!(header_expiration(Some(50), None, 100, 40, 10, 2), Ok(110));
    assert_eq!(header_expiration(None, Some(77), 100, 40, 10, 2), Ok(77));
    assert_eq!(header_expiration(Some(50), Some(77), 100, 40, 10, 2), Err(ExpirationError::BothPinned));
    assert_eq!(header_expiration(None, None, u64::MAX, 1, 0, 0), Err(ExpirationError::Overflow));
}

#[test]
fn event_queue_drops_oldest_when_full() {
    assert!(EventQueue::new(0).is_none());
    let mut q = EventQueue::new(2).unwrap();
    let evs = as_events(&[EventKind::WillFetchFirstBlock, EventKind::WillSend, EventKind::DidSend]);
    for e in evs.iter() {
        q.push(e.clone());
    }
    let kinds: Vec<EventKind> = q.take().iter().map(|e| e.kind()).collect();
    assert_eq!(kinds, vec![EventKind::WillSend, EventKind::DidSend]);
    assert!(q.events.is_empty());
    q.emit(evs[0].clone(), false);
    assert!(q.events.is_empty());
    q.emit(evs[0].clone(), true);
    assert_eq!(q.events.len(), 1);
    assert_eq!(q.capacity, 2);
}
