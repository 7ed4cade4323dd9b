use vstd::prelude::*;

use crate::events::EventKind;
use crate::expiration::{expiration_of, expiration_time};

verus! {

/// Limits that one delivery works within.
#[derive(Clone, Copy, Debug, PartialEq, Eq, Structural)]
pub struct ProcessingConfig {
    /// How many times an expired message may be rebuilt and sent again.
    pub retries_count: u32,
    /// How many times a failed send may be repeated with the same message.
    pub send_retries: u32,
    /// How many times a failed block fetch may be repeated in place.
    pub fetch_retries: u32,
    /// Lifetime of the first message, in ledger time units.
    pub base_timeout: u64,
    /// Extra lifetime given to each later message.
    pub timeout_increment: u64,
}

/// Why a delivery failed.
#[derive(Clone, Copy, Debug, PartialEq, Eq, Structural)]
pub enum DeliveryError {
    /// The message could not be encoded.
    Encoding,
    /// The expiration time of a message does not fit in a `u64`.
    ExpirationOverflow,
    /// An endpoint could not be reached or answered with an error.
    Transport { code: u32 },
    /// No transaction was seen before the last message expired.
    MessageExpired { last_block_time: u64, tries: u32 },
    /// The transaction was found, with a non-zero exit code.
    ContractExecution { exit_code: i32 },
}

/// The one result of a delivery.
#[derive(Clone, Copy, Debug, PartialEq, Eq, Structural)]
pub enum Outcome {
    Succeeded,
    Failed { error: DeliveryError },
    Cancelled,
}

/// Where a delivery stands.
#[derive(Clone, Copy, Debug, PartialEq, Eq, Structural)]
pub enum Phase {
    Preparing,
    FetchingFirstBlock,
    Sending,
    WaitingNextBlock,
    Finished { outcome: Outcome },
}

/// What the caller reports after doing the last action asked of it.
#[derive(Clone, Copy, Debug, PartialEq, Eq, Structural)]
pub enum Input {
    /// A message was built at time `now`.
    Prepared { now: u64 },
    PrepareFailed,
    FirstBlockFetched,
    FirstBlockFailed { retriable: bool, code: u32 },
    SendSucceeded,
    SendFailed { retriable: bool, code: u32 },
    /// A new block was seen; `exit_code` is that of the message's
    /// transaction where the block holds it.
    BlockFetched { block_time: u64, exit_code: Option<i32> },
    /// No new block came within the polling limit; `now` is the ledger time.
    NextBlockNotYetAvailable { now: u64 },
    NextBlockFailed { retriable: bool, code: u32, now: u64 },
    Cancel,
}

/// What the caller is asked to do next.
#[derive(Clone, Copy, Debug, PartialEq, Eq, Structural)]
pub enum Action {
    /// Build a new message for try number `try_index`.
    Prepare { try_index: u32 },
    FetchFirstBlock,
    Send,
    FetchNextBlock,
    /// The delivery is over.
    Finish { outcome: Outcome },
    /// The input did not fit the phase: nothing to do.
    Idle,
}

/// The state of one delivery.
#[derive(Clone, Copy, Debug, PartialEq, Eq, Structural)]
pub struct Delivery {
    pub config: ProcessingConfig,
    pub phase: Phase,
    /// Try number of the current message.
    pub try_index: u32,
    pub send_failures: u32,
    pub fetch_failures: u32,
    /// When the current message was built.
    pub prepared_at: u64,
    /// Expiration time of the current message.
    pub expiration: u64,
    /// Ledger time of the last block seen for the current message.
    pub last_block_time: u64,
    /// The last event emitted.
    pub last_event: Option<EventKind>,
}

pub open spec fn is_finished(p: Phase) -> bool {
    p is Finished
}

/// The state after the message expired without a transaction: a new try
/// where the budget allows, a failure otherwise.
pub open spec fn expire(s: Delivery) -> (Delivery, Action, Seq<EventKind>) {
    if s.try_index < s.config.retries_count {
        let t = (s.try_index + 1) as u32;
        (
            Delivery { phase: Phase::Preparing, try_index: t, last_event: Some(EventKind::MessageExpired), ..s },
            Action::Prepare { try_index: t },
            seq![EventKind::MessageExpired],
        )
    } else {
        let o = Outcome::Failed {
            error: DeliveryError::MessageExpired { last_block_time: s.last_block_time, tries: s.try_index },
        };
        (
            Delivery { phase: Phase::Finished { outcome: o }, last_event: Some(EventKind::MessageExpired), ..s },
            Action::Finish { outcome: o },
            seq![EventKind::MessageExpired],
        )
    }
}

/// Ends the delivery with `o`, emitting `events`.
pub open spec fn finish(s: Delivery, o: Outcome, events: Seq<EventKind>) -> (Delivery, Action, Seq<EventKind>) {
    (
        Delivery {
            phase: Phase::Finished { outcome: o },
            last_event: if events.len() > 0 { Some(events.last()) } else { s.last_event },
            ..s
        },
        Action::Finish { outcome: o },
        events,
    )
}

/// One transition: the next state, the action asked of the caller and the
/// events emitted, in order.
pub open spec fn next(s: Delivery, input: Input) -> (Delivery, Action, Seq<EventKind>) {
    let cfg = s.config;
    match s.phase {
        Phase::Finished { .. } => (s, Action::Idle, seq![]),
        _ => match input {
            Input::Cancel => finish(s, Outcome::Cancelled, seq![]),
            _ => match (s.phase, input) {
                (Phase::Preparing, Input::Prepared { now }) => {
                    let e = expiration_of(now as nat, cfg.base_timeout as nat, cfg.timeout_increment as nat, s.try_index as nat);
                    if e <= u64::MAX {
                        (
                            Delivery {
                                phase: Phase::FetchingFirstBlock,
                                prepared_at: now,
                                expiration: e as u64,
                                last_block_time: 0,
                                send_failures: 0,
                                fetch_failures: 0,
                                last_event: Some(EventKind::WillFetchFirstBlock),
                                ..s
                            },
                            Action::FetchFirstBlock,
                            seq![EventKind::WillFetchFirstBlock],
                        )
                    } else {
                        finish(s, Outcome::Failed { error: DeliveryError::ExpirationOverflow }, seq![])
                    }
                },
                (Phase::Preparing, Input::PrepareFailed) =>
                    finish(s, Outcome::Failed { error: DeliveryError::Encoding }, seq![]),
                (Phase::FetchingFirstBlock, Input::FirstBlockFetched) => (
                    Delivery { phase: Phase::Sending, last_event: Some(EventKind::WillSend), ..s },
                    Action::Send,
                    seq![EventKind::WillSend],
                ),
                (Phase::FetchingFirstBlock, Input::FirstBlockFailed { retriable, code }) => {
                    if retriable && s.fetch_failures < cfg.fetch_retries {
                        (
                            Delivery {
                                fetch_failures: (s.fetch_failures + 1) as u32,
                                last_event: Some(EventKind::WillFetchFirstBlock),
                                ..s
                            },
                            Action::FetchFirstBlock,
                            seq![EventKind::FetchFirstBlockFailed, EventKind::WillFetchFirstBlock],
                        )
                    } else {
                        finish(
                            s,
                            Outcome::Failed { error: DeliveryError::Transport { code } },
                            seq![EventKind::FetchFirstBlockFailed],
                        )
                    }
                },
                (Phase::Sending, Input::SendSucceeded) => (
                    Delivery {
                        phase: Phase::WaitingNextBlock,
                        fetch_failures: 0,
                        last_event: Some(EventKind::WillFetchNextBlock),
                        ..s
                    },
                    Action::FetchNextBlock,
                    seq![EventKind::DidSend, EventKind::WillFetchNextBlock],
                ),
                (Phase::Sending, Input::SendFailed { retriable, code }) => {
                    if retriable && s.send_failures < cfg.send_retries {
                        (
                            Delivery {
                                send_failures: (s.send_failures + 1) as u32,
                                last_event: Some(EventKind::WillSend),
                                ..s
                            },
                            Action::Send,
                            seq![EventKind::SendFailed, EventKind::WillSend],
                        )
                    } else if retriable && s.try_index < cfg.retries_count {
                        let t = (s.try_index + 1) as u32;
                        (
                            Delivery { phase: Phase::Preparing, try_index: t, last_event: Some(EventKind::SendFailed), ..s },
                            Action::Prepare { try_index: t },
                            seq![EventKind::SendFailed],
                        )
                    } else {
                        finish(
                            s,
                            Outcome::Failed { error: DeliveryError::Transport { code } },
                            seq![EventKind::SendFailed],
                        )
                    }
                },
                (Phase::WaitingNextBlock, Input::BlockFetched { block_time, exit_code }) => {
                    let s1 = Delivery { last_block_time: block_time, fetch_failures: 0, ..s };
                    match exit_code {
                        Some(c) => if c == 0 {
                            finish(s1, Outcome::Succeeded, seq![])
                        } else {
                            finish(s1, Outcome::Failed { error: DeliveryError::ContractExecution { exit_code: c } }, seq![])
                        },
                        None => if block_time > s.expiration {
                            expire(s1)
                        } else {
                            (s1, Action::FetchNextBlock, seq![EventKind::WillFetchNextBlock])
                        },
                    }
                },
                (Phase::WaitingNextBlock, Input::NextBlockNotYetAvailable { now }) => {
                    if now > s.expiration {
                        expire(s)
                    } else {
                        (s, Action::FetchNextBlock, seq![EventKind::WillFetchNextBlock])
                    }
                },
                (Phase::WaitingNextBlock, Input::NextBlockFailed { retriable, code, now }) => {
                    if !retriable {
                        finish(
                            s,
                            Outcome::Failed { error: DeliveryError::Transport { code } },
                            seq![EventKind::FetchNextBlockFailed],
                        )
                    } else if s.fetch_failures < cfg.fetch_retries {
                        (
                            Delivery { fetch_failures: (s.fetch_failures + 1) as u32, ..s },
                            Action::FetchNextBlock,
                            seq![EventKind::FetchNextBlockFailed, EventKind::WillFetchNextBlock],
                        )
                    } else if now > s.expiration {
                        let (s2, a, ev) = expire(s);
                        (s2, a, seq![EventKind::FetchNextBlockFailed] + ev)
                    } else {
                        (
                            Delivery { fetch_failures: 0, ..s },
                            Action::FetchNextBlock,
                            seq![EventKind::FetchNextBlockFailed, EventKind::WillFetchNextBlock],
                        )
                    }
                },
                _ => (s, Action::Idle, seq![]),
            },
        },
    }
}

/// The state in which a delivery starts, at try number `start_try_index`.
pub open spec fn initial(config: ProcessingConfig, start_try_index: u32) -> Delivery {
    Delivery {
        config,
        phase: Phase::Preparing,
        try_index: start_try_index,
        send_failures: 0,
        fetch_failures: 0,
        prepared_at: 0,
        expiration: 0,
        last_event: None,
        last_block_time: 0,
    }
}

impl Delivery {
    /// Starts a delivery; the first action is to build the message of try
    /// number `start_try_index`.
    pub fn new(config: ProcessingConfig, start_try_index: u32) -> (r: (Delivery, Action))
        ensures
            r.0 == initial(config, start_try_index),
            r.1 == (Action::Prepare { try_index: start_try_index }),
    {
        (
            Delivery {
                config,
                phase: Phase::Preparing,
                try_index: start_try_index,
                send_failures: 0,
                fetch_failures: 0,
                prepared_at: 0,
                expiration: 0,
                last_event: None,
                last_block_time: 0,
            },
            Action::Prepare { try_index: start_try_index },
        )
    }

    fn expire_exec(&mut self) -> (r: (Action, Vec<EventKind>))
        ensures
            (*final(self), r.0, r.1@) == expire(*old(self)),
    {
        self.last_event = Some(EventKind::MessageExpired);
        if self.try_index < self.config.retries_count {
            self.try_index = self.try_index + 1;
            self.phase = Phase::Preparing;
            (Action::Prepare { try_index: self.try_index }, vec![EventKind::MessageExpired])
        } else {
            let o = Outcome::Failed {
                error: DeliveryError::MessageExpired { last_block_time: self.last_block_time, tries: self.try_index },
            };
            self.phase = Phase::Finished { outcome: o };
            (Action::Finish { outcome: o }, vec![EventKind::MessageExpired])
        }
    }

    fn finish_exec(&mut self, o: Outcome, events: Vec<EventKind>) -> (r: (Action, Vec<EventKind>))
        ensures
            (*final(self), r.0, r.1@) == finish(*old(self), o, events@),
    {
        self.phase = Phase::Finished { outcome: o };
        if events.len() > 0 {
            self.last_event = Some(events[events.len() - 1]);
        }
        (Action::Finish { outcome: o }, events)
    }

    /// Takes the caller's report of the last action, and returns the next
    /// action together with the events emitted, in order.
    pub fn step(&mut self, input: Input) -> (r: (Action, Vec<EventKind>))
        ensures
            (*final(self), r.0, r.1@) == next(*old(self), input),
    {
        if let Phase::Finished { .. } = self.phase {
            return (Action::Idle, Vec::new());
        }
        if let Input::Cancel = input {
            return self.finish_exec(Outcome::Cancelled, Vec::new());
        }
        match (self.phase, input) {
            (Phase::Preparing, Input::Prepared { now }) => {
                match expiration_time(now, self.config.base_timeout, self.config.timeout_increment, self.try_index) {
                    Some(e) => {
                        self.phase = Phase::FetchingFirstBlock;
                        self.prepared_at = now;
                        self.expiration = e;
                        self.last_block_time = 0;
                        self.send_failures = 0;
                        self.fetch_failures = 0;
                        self.last_event = Some(EventKind::WillFetchFirstBlock);
                        (Action::FetchFirstBlock, vec![EventKind::WillFetchFirstBlock])
                    },
                    None => self.finish_exec(Outcome::Failed { error: DeliveryError::ExpirationOverflow }, Vec::new()),
                }
            },
            (Phase::Preparing, Input::PrepareFailed) =>
                self.finish_exec(Outcome::Failed { error: DeliveryError::Encoding }, Vec::new()),
            (Phase::FetchingFirstBlock, Input::FirstBlockFetched) => {
                self.phase = Phase::Sending;
                self.last_event = Some(EventKind::WillSend);
                (Action::Send, vec![EventKind::WillSend])
            },
            (Phase::FetchingFirstBlock, Input::FirstBlockFailed { retriable, code }) => {
                if retriable && self.fetch_failures < self.config.fetch_retries {
                    self.fetch_failures = self.fetch_failures + 1;
                    self.last_event = Some(EventKind::WillFetchFirstBlock);
                    (Action::FetchFirstBlock, vec![EventKind::FetchFirstBlockFailed, EventKind::WillFetchFirstBlock])
                } else {
                    self.finish_exec(
                        Outcome::Failed { error: DeliveryError::Transport { code } },
                        vec![EventKind::FetchFirstBlockFailed],
                    )
                }
            },
            (Phase::Sending, Input::SendSucceeded) => {
                self.phase = Phase::WaitingNextBlock;
                self.fetch_failures = 0;
                self.last_event = Some(EventKind::WillFetchNextBlock);
                (Action::FetchNextBlock, vec![EventKind::DidSend, EventKind::WillFetchNextBlock])
            },
            (Phase::Sending, Input::SendFailed { retriable, code }) => {
                if retriable && self.send_failures < self.config.send_retries {
                    self.send_failures = self.send_failures + 1;
                    self.last_event = Some(EventKind::WillSend);
                    (Action::Send, vec![EventKind::SendFailed, EventKind::WillSend])
                } else if retriable && self.try_index < self.config.retries_count {
                    self.try_index = self.try_index + 1;
                    self.phase = Phase::Preparing;
                    self.last_event = Some(EventKind::SendFailed);
                    (Action::Prepare { try_index: self.try_index }, vec![EventKind::SendFailed])
                } else {
                    self.finish_exec(
                        Outcome::Failed { error: DeliveryError::Transport { code } },
                        vec![EventKind::SendFailed],
                    )
                }
            },
            (Phase::WaitingNextBlock, Input::BlockFetched { block_time, exit_code }) => {
                let expiration = self.expiration;
                self.last_block_time = block_time;
                self.fetch_failures = 0;
                match exit_code {
                    Some(c) => if c == 0 {
                        self.finish_exec(Outcome::Succeeded, Vec::new())
                    } else {
                        self.finish_exec(
                            Outcome::Failed { error: DeliveryError::ContractExecution { exit_code: c } },
                            Vec::new(),
                        )
                    },
                    None => if block_time > expiration {
                        self.expire_exec()
                    } else {
                        (Action::FetchNextBlock, vec![EventKind::WillFetchNextBlock])
                    },
                }
            },
            (Phase::WaitingNextBlock, Input::NextBlockNotYetAvailable { now }) => {
                if now > self.expiration {
                    self.expire_exec()
                } else {
                    (Action::FetchNextBlock, vec![EventKind::WillFetchNextBlock])
                }
            },
            (Phase::WaitingNextBlock, Input::NextBlockFailed { retriable, code, now }) => {
                if !retriable {
                    self.finish_exec(
                        Outcome::Failed { error: DeliveryError::Transport { code } },
                        vec![EventKind::FetchNextBlockFailed],
                    )
                } else if self.fetch_failures < self.config.fetch_retries {
                    self.fetch_failures = self.fetch_failures + 1;
                    (Action::FetchNextBlock, vec![EventKind::FetchNextBlockFailed, EventKind::WillFetchNextBlock])
                } else if now > self.expiration {
                    let (a, ev) = self.expire_exec();
                    let mut all = vec![EventKind::FetchNextBlockFailed];
                    let mut ev = ev;
                    all.append(&mut ev);
                    (a, all)
                } else {
                    self.fetch_failures = 0;
                    (Action::FetchNextBlock, vec![EventKind::FetchNextBlockFailed, EventKind::WillFetchNextBlock])
                }
            },
            _ => (Action::Idle, Vec::new()),
        }
    }
}

} // verus!
