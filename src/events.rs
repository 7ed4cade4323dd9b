use vstd::prelude::*;

verus! {

/// The kind of a progress record, without its data.
#[derive(Clone, Copy, Debug, PartialEq, Eq, Structural)]
pub enum EventKind {
    WillFetchFirstBlock,
    FetchFirstBlockFailed,
    WillSend,
    DidSend,
    SendFailed,
    WillFetchNextBlock,
    FetchNextBlockFailed,
    MessageExpired,
}

/// A transport or protocol failure reported with an event.
#[derive(Clone, Debug)]
pub struct FailureInfo {
    pub code: u32,
    pub retriable: bool,
    pub message: String,
}

/// A progress record emitted while a message is being delivered.
#[derive(Clone, Debug)]
pub enum ProcessingEvent {
    WillFetchFirstBlock,
    FetchFirstBlockFailed { error: FailureInfo },
    WillSend { shard_block_id: String, message_id: String },
    DidSend { shard_block_id: String, message_id: String },
    SendFailed { shard_block_id: String, message_id: String, error: FailureInfo },
    WillFetchNextBlock { shard_block_id: String, message_id: String },
    FetchNextBlockFailed { shard_block_id: String, message_id: String, error: FailureInfo },
    MessageExpired { message_id: String, error: FailureInfo },
}

/// The kind of an event.
pub open spec fn kind_of(e: ProcessingEvent) -> EventKind {
    match e {
        ProcessingEvent::WillFetchFirstBlock => EventKind::WillFetchFirstBlock,
        ProcessingEvent::FetchFirstBlockFailed { .. } => EventKind::FetchFirstBlockFailed,
        ProcessingEvent::WillSend { .. } => EventKind::WillSend,
        ProcessingEvent::DidSend { .. } => EventKind::DidSend,
        ProcessingEvent::SendFailed { .. } => EventKind::SendFailed,
        ProcessingEvent::WillFetchNextBlock { .. } => EventKind::WillFetchNextBlock,
        ProcessingEvent::FetchNextBlockFailed { .. } => EventKind::FetchNextBlockFailed,
        ProcessingEvent::MessageExpired { .. } => EventKind::MessageExpired,
    }
}

/// The kinds of a sequence of events, in order.
pub open spec fn kinds_of(events: Seq<ProcessingEvent>) -> Seq<EventKind> {
    events.map_values(|e: ProcessingEvent| kind_of(e))
}

impl ProcessingEvent {
    pub fn kind(&self) -> (r: EventKind)
        ensures
            r == kind_of(*self),
    {
        match self {
            ProcessingEvent::WillFetchFirstBlock => EventKind::WillFetchFirstBlock,
            ProcessingEvent::FetchFirstBlockFailed { .. } => EventKind::FetchFirstBlockFailed,
            ProcessingEvent::WillSend { .. } => EventKind::WillSend,
            ProcessingEvent::DidSend { .. } => EventKind::DidSend,
            ProcessingEvent::SendFailed { .. } => EventKind::SendFailed,
            ProcessingEvent::WillFetchNextBlock { .. } => EventKind::WillFetchNextBlock,
            ProcessingEvent::FetchNextBlockFailed { .. } => EventKind::FetchNextBlockFailed,
            ProcessingEvent::MessageExpired { .. } => EventKind::MessageExpired,
        }
    }
}

/// The name under which an event kind is reported.
pub open spec fn kind_name(k: EventKind) -> Seq<char> {
    match k {
        EventKind::WillFetchFirstBlock => "WillFetchFirstBlock"@,
        EventKind::FetchFirstBlockFailed => "FetchFirstBlockFailed"@,
        EventKind::WillSend => "WillSend"@,
        EventKind::DidSend => "DidSend"@,
        EventKind::SendFailed => "SendFailed"@,
        EventKind::WillFetchNextBlock => "WillFetchNextBlock"@,
        EventKind::FetchNextBlockFailed => "FetchNextBlockFailed"@,
        EventKind::MessageExpired => "MessageExpired"@,
    }
}

/// The name of an event's kind; the empty name where there is no event.
pub fn processing_event_name(e: Option<&ProcessingEvent>) -> (r: &'static str)
    ensures
        e.is_none() ==> r@ == ""@,
        e.is_some() ==> r@ == kind_name(kind_of(*e.unwrap())),
{
    match e {
        None => "",
        Some(e) => match e {
            ProcessingEvent::WillFetchFirstBlock => "WillFetchFirstBlock",
            ProcessingEvent::FetchFirstBlockFailed { .. } => "FetchFirstBlockFailed",
            ProcessingEvent::WillSend { .. } => "WillSend",
            ProcessingEvent::DidSend { .. } => "DidSend",
            ProcessingEvent::SendFailed { .. } => "SendFailed",
            ProcessingEvent::WillFetchNextBlock { .. } => "WillFetchNextBlock",
            ProcessingEvent::FetchNextBlockFailed { .. } => "FetchNextBlockFailed",
            ProcessingEvent::MessageExpired { .. } => "MessageExpired",
        },
    }
}

/// One element of an expected event order: a single event of `kind`, or,
/// where `repeated` is set, a run of any length (zero included) of it.
#[derive(Clone, Copy, Debug, PartialEq, Eq, Structural)]
pub struct EventPattern {
    pub kind: EventKind,
    pub repeated: bool,
}

/// The first position at or after `i` whose event is not of kind `k`.
pub open spec fn skip_run(events: Seq<EventKind>, i: int, k: EventKind) -> int
    decreases events.len() - i,
{
    if 0 <= i < events.len() && events[i] == k {
        skip_run(events, i + 1, k)
    } else {
        i
    }
}

/// Whether the events from position `i` on begin with what the patterns from
/// position `j` on describe (events after the last pattern are not looked at).
pub open spec fn matches_from(events: Seq<EventKind>, i: int, patterns: Seq<EventPattern>, j: int) -> bool
    decreases patterns.len() - j,
{
    if j < 0 || j >= patterns.len() {
        true
    } else if patterns[j].repeated {
        matches_from(events, skip_run(events, i, patterns[j].kind), patterns, j + 1)
    } else {
        0 <= i < events.len() && events[i] == patterns[j].kind && matches_from(events, i + 1, patterns, j + 1)
    }
}

/// Whether the events follow the expected order.
pub fn events_match(events: &Vec<ProcessingEvent>, expected: &Vec<EventPattern>) -> (r: bool)
    ensures
        r == matches_from(kinds_of(events@), 0, expected@, 0),
{
    let ghost kinds = kinds_of(events@);
    let mut i: usize = 0;
    let mut j: usize = 0;
    while j < expected.len()
        invariant
            j <= expected@.len(),
            i <= events@.len(),
            kinds == kinds_of(events@),
            matches_from(kinds, 0, expected@, 0) == matches_from(kinds, i as int, expected@, j as int),
        decreases expected@.len() - j,
    {
        let p = expected[j];
        if p.repeated {
            let ghost i0 = i as int;
            while i < events.len() && events[i].kind() == p.kind
                invariant
                    i0 <= i <= events@.len(),
                    kinds == kinds_of(events@),
                    skip_run(kinds, i0, p.kind) == skip_run(kinds, i as int, p.kind),
                decreases events@.len() - i,
            {
                i = i + 1;
            }
        } else {
            if i < events.len() && events[i].kind() == p.kind {
                i = i + 1;
            } else {
                return false;
            }
        }
        j = j + 1;
    }
    true
}

/// Events waiting to be handed to the caller's observer, oldest first,
/// never more than `capacity` of them.
pub struct EventQueue {
    pub events: Vec<ProcessingEvent>,
    pub capacity: usize,
}

impl EventQueue {
    pub open spec fn wf(&self) -> bool {
        0 < self.capacity && self.events@.len() <= self.capacity
    }

    /// An empty queue that holds up to `capacity` events; `None` where
    /// `capacity` is zero.
    pub fn new(capacity: usize) -> (r: Option<EventQueue>)
        ensures
            capacity == 0 <==> r.is_none(),
            r.is_some() ==> r.unwrap().wf() && r.unwrap().events@.len() == 0 && r.unwrap().capacity == capacity,
    {
        if capacity == 0 {
            None
        } else {
            Some(EventQueue { events: Vec::new(), capacity })
        }
    }

    /// Adds `e` at the end; where the queue is full, the oldest event is
    /// dropped to make room.
    pub fn push(&mut self, e: ProcessingEvent)
        requires
            old(self).wf(),
        ensures
            final(self).wf(),
            final(self).capacity == old(self).capacity,
            final(self).events@ == if old(self).events@.len() < old(self).capacity {
                old(self).events@.push(e)
            } else {
                old(self).events@.drop_first().push(e)
            },
    {
        if self.events.len() == self.capacity {
            self.events.remove(0);
        }
        self.events.push(e);
        proof {
            if old(self).events@.len() == old(self).capacity {
                assert(self.events@ =~= old(self).events@.drop_first().push(e));
            }
        }
    }

    /// Records `e` where events are asked for, and does nothing otherwise.
    pub fn emit(&mut self, e: ProcessingEvent, send_events: bool)
        requires
            old(self).wf(),
        ensures
            final(self).wf(),
            final(self).capacity == old(self).capacity,
            !send_events ==> final(self).events@ == old(self).events@,
            send_events ==> final(self).events@ == if old(self).events@.len() < old(self).capacity {
                old(self).events@.push(e)
            } else {
                old(self).events@.drop_first().push(e)
            },
    {
        if send_events {
            self.push(e);
        }
    }

    /// Hands out every waiting event, oldest first, and empties the queue.
    pub fn take(&mut self) -> (r: Vec<ProcessingEvent>)
        requires
            old(self).wf(),
        ensures
            final(self).wf(),
            final(self).capacity == old(self).capacity,
            r@ == old(self).events@,
            final(self).events@.len() == 0,
    {
        let mut out: Vec<ProcessingEvent> = Vec::new();
        std::mem::swap(&mut out, &mut self.events);
        out
    }
}

} // verus!
