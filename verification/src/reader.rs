//! The read side of a connection handler: what to do with each thing that
//! arrives from the client.
//!
//! The handler's loop waits for the next frame, tells this machine what
//! came, and carries out the action it gets back. A message is first handed
//! to the store and fanned out only when the store has answered. If the store
//! fails, the message is fanned out all the same and the action says that it
//! was not stored: the relay keeps chatting when the store is down.

use vstd::prelude::*;

use crate::model::ChatMessage;
use crate::model::ClientMsg;
use crate::model::Payload;
use crate::model::Record;
use crate::model::Timestamp;

verus! {

/// Where the read side stands.
#[derive(Debug, PartialEq, Eq)]
pub enum ReadState {
    /// The connection is not yet registered.
    Idle,
    /// Waiting for the next frame from the client.
    WaitingForFrame,
    /// A message is with the store; its fan-out is still to come.
    Processing(ClientMsg),
    /// The client is gone.
    Terminated,
}

/// What happened on the inbound side.
#[derive(Debug, PartialEq, Eq)]
pub enum ReadEvent {
    /// The connection was registered; reading can begin.
    Started,
    /// A well-formed message arrived at the given time.
    Item(ClientMsg, Timestamp),
    /// A frame arrived that carries no message.
    OtherFrame,
    /// A frame could not be read or decoded.
    ReceiveError,
    /// The transport reported that the client is gone.
    Closed,
    /// The store took the message that was handed to it.
    Stored,
    /// The store failed on the message that was handed to it.
    StoreFailed,
}

/// What the handler is to do next.
#[derive(Debug, PartialEq, Eq)]
pub enum ReadAction {
    /// Nothing; wait for the next frame.
    Continue,
    /// Hand this record to the store and come back with its answer.
    Persist(ChatMessage),
    /// Fan this message out to all connections. `stored` is false where the
    /// store failed on it, which the handler should log.
    Broadcast { msg: ClientMsg, stored: bool },
    /// Log that a frame could not be read, and wait for the next one.
    LogReceiveError,
    /// Take the connection out of the hub and stop.
    Deregister,
    /// The event does not belong in this state and was left aside.
    Misplaced,
}

/// The mathematical value of a `ReadState`.
pub ghost enum ReadStateView {
    Idle,
    WaitingForFrame,
    Processing(Payload),
    Terminated,
}

/// The mathematical value of a `ReadEvent`.
pub ghost enum ReadEventView {
    Started,
    Item(Payload, Timestamp),
    OtherFrame,
    ReceiveError,
    Closed,
    Stored,
    StoreFailed,
}

/// The mathematical value of a `ReadAction`.
pub ghost enum ReadActionView {
    Continue,
    Persist(Record),
    Broadcast { msg: Payload, stored: bool },
    LogReceiveError,
    Deregister,
    Misplaced,
}

impl View for ReadState {
    type V = ReadStateView;

    open spec fn view(&self) -> ReadStateView {
        match self {
            ReadState::Idle => ReadStateView::Idle,
            ReadState::WaitingForFrame => ReadStateView::WaitingForFrame,
            ReadState::Processing(msg) => ReadStateView::Processing(msg@),
            ReadState::Terminated => ReadStateView::Terminated,
        }
    }
}

impl View for ReadEvent {
    type V = ReadEventView;

    open spec fn view(&self) -> ReadEventView {
        match self {
            ReadEvent::Started => ReadEventView::Started,
            ReadEvent::Item(msg, at) => ReadEventView::Item(msg@, *at),
            ReadEvent::OtherFrame => ReadEventView::OtherFrame,
            ReadEvent::ReceiveError => ReadEventView::ReceiveError,
            ReadEvent::Closed => ReadEventView::Closed,
            ReadEvent::Stored => ReadEventView::Stored,
            ReadEvent::StoreFailed => ReadEventView::StoreFailed,
        }
    }
}

impl View for ReadAction {
    type V = ReadActionView;

    open spec fn view(&self) -> ReadActionView {
        match self {
            ReadAction::Continue => ReadActionView::Continue,
            ReadAction::Persist(record) => ReadActionView::Persist(record@),
            ReadAction::Broadcast { msg, stored } => ReadActionView::Broadcast {
                msg: msg@,
                stored: *stored,
            },
            ReadAction::LogReceiveError => ReadActionView::LogReceiveError,
            ReadAction::Deregister => ReadActionView::Deregister,
            ReadAction::Misplaced => ReadActionView::Misplaced,
        }
    }
}

/// One step of the read side: the state that follows `state` on `event`, and
/// the action to carry out.
pub open spec fn read_transition(state: ReadStateView, event: ReadEventView) -> (
    ReadStateView,
    ReadActionView,
) {
    match (state, event) {
        (ReadStateView::Idle, ReadEventView::Started) => (
            ReadStateView::WaitingForFrame,
            ReadActionView::Continue,
        ),
        (ReadStateView::WaitingForFrame, ReadEventView::Item(msg, at)) => (
            ReadStateView::Processing(msg),
            ReadActionView::Persist(Record { payload: msg, created_at: Some(at) }),
        ),
        (ReadStateView::WaitingForFrame, ReadEventView::OtherFrame) => (
            ReadStateView::WaitingForFrame,
            ReadActionView::Continue,
        ),
        (ReadStateView::WaitingForFrame, ReadEventView::ReceiveError) => (
            ReadStateView::WaitingForFrame,
            ReadActionView::LogReceiveError,
        ),
        (ReadStateView::WaitingForFrame, ReadEventView::Closed) => (
            ReadStateView::Terminated,
            ReadActionView::Deregister,
        ),
        (ReadStateView::Processing(msg), ReadEventView::Stored) => (
            ReadStateView::WaitingForFrame,
            ReadActionView::Broadcast { msg, stored: true },
        ),
        (ReadStateView::Processing(msg), ReadEventView::StoreFailed) => (
            ReadStateView::WaitingForFrame,
            ReadActionView::Broadcast { msg, stored: false },
        ),
        (state, _) => (state, ReadActionView::Misplaced),
    }
}

impl ReadEvent {
    /// The event for a message that arrives now: `Item` with `msg` and the
    /// time that the clock reads.
    pub fn item(msg: ClientMsg) -> (event: ReadEvent)
        ensures
            event@ matches ReadEventView::Item(payload, _) && payload == msg@,
    {
        ReadEvent::Item(msg, crate::clock::now())
    }
}

impl ReadState {
    /// The state of a read side that has not begun.
    pub fn new() -> (state: ReadState)
        ensures
            state@ == ReadStateView::Idle,
    {
        ReadState::Idle
    }

    /// Whether the read side has stopped for good.
    pub fn is_terminated(&self) -> (done: bool)
        ensures
            done == (self@ == ReadStateView::Terminated),
    {
        match self {
            ReadState::Terminated => true,
            _ => false,
        }
    }

    /// Takes one step: returns the state that follows, and the action for
    /// the handler to carry out.
    pub fn step(self, event: ReadEvent) -> (next: (ReadState, ReadAction))
        ensures
            (next.0@, next.1@) == read_transition(self@, event@),
    {
        match (self, event) {
            (ReadState::Idle, ReadEvent::Started) => (
                ReadState::WaitingForFrame,
                ReadAction::Continue,
            ),
            (ReadState::WaitingForFrame, ReadEvent::Item(msg, at)) => {
                let record = ChatMessage::at(&msg, at);
                (ReadState::Processing(msg), ReadAction::Persist(record))
            },
            (ReadState::WaitingForFrame, ReadEvent::OtherFrame) => (
                ReadState::WaitingForFrame,
                ReadAction::Continue,
            ),
            (ReadState::WaitingForFrame, ReadEvent::ReceiveError) => (
                ReadState::WaitingForFrame,
                ReadAction::LogReceiveError,
            ),
            (ReadState::WaitingForFrame, ReadEvent::Closed) => (
                ReadState::Terminated,
                ReadAction::Deregister,
            ),
            (ReadState::Processing(msg), ReadEvent::Stored) => (
                ReadState::WaitingForFrame,
                ReadAction::Broadcast { msg, stored: true },
            ),
            (ReadState::Processing(msg), ReadEvent::StoreFailed) => (
                ReadState::WaitingForFrame,
                ReadAction::Broadcast { msg, stored: false },
            ),
            (state, _) => (state, ReadAction::Misplaced),
        }
    }
}

/// The state that the read side is in after `events`, one after another,
/// from `start`.
pub open spec fn read_state_after(start: ReadStateView, events: Seq<ReadEventView>) -> ReadStateView
    decreases events.len(),
{
    if events.len() == 0 {
        start
    } else {
        read_transition(read_state_after(start, events.drop_last()), events.last()).0
    }
}

/// The actions that the read side hands back on `events` from `start`: one
/// for each event, in the same order.
pub open spec fn read_actions(start: ReadStateView, events: Seq<ReadEventView>) -> Seq<
    ReadActionView,
>
    decreases events.len(),
{
    if events.len() == 0 {
        Seq::empty()
    } else {
        read_actions(start, events.drop_last()).push(
            read_transition(read_state_after(start, events.drop_last()), events.last()).1,
        )
    }
}

/// The messages that arrived while the read side was waiting for a frame, in
/// order: those among `events` that the read side took in.
pub open spec fn taken_in(start: ReadStateView, events: Seq<ReadEventView>) -> Seq<Payload>
    decreases events.len(),
{
    if events.len() == 0 {
        Seq::empty()
    } else {
        let earlier = taken_in(start, events.drop_last());
        match (read_state_after(start, events.drop_last()), events.last()) {
            (ReadStateView::WaitingForFrame, ReadEventView::Item(msg, _)) => earlier.push(msg),
            _ => earlier,
        }
    }
}

/// The messages that `actions` hand to the store, in order.
pub open spec fn handed_to_store(actions: Seq<ReadActionView>) -> Seq<Payload>
    decreases actions.len(),
{
    if actions.len() == 0 {
        Seq::empty()
    } else {
        match actions.last() {
            ReadActionView::Persist(record) => handed_to_store(actions.drop_last()).push(
                record.payload,
            ),
            _ => handed_to_store(actions.drop_last()),
        }
    }
}

/// The messages that `actions` fan out, in order.
pub open spec fn handed_to_hub(actions: Seq<ReadActionView>) -> Seq<Payload>
    decreases actions.len(),
{
    if actions.len() == 0 {
        Seq::empty()
    } else {
        match actions.last() {
            ReadActionView::Broadcast { msg, .. } => handed_to_hub(actions.drop_last()).push(msg),
            _ => handed_to_hub(actions.drop_last()),
        }
    }
}

/// There is one action for each event.
pub proof fn lemma_read_actions_len(start: ReadStateView, events: Seq<ReadEventView>)
    ensures
        read_actions(start, events).len() == events.len(),
    decreases events.len(),
{
    if events.len() > 0 {
        lemma_read_actions_len(start, events.drop_last());
    }
}

/// The action at a place is the step taken, on the event at that place, from
/// the state after the events before it.
pub proof fn lemma_read_actions_by_place(
    start: ReadStateView,
    events: Seq<ReadEventView>,
    i: int,
)
    requires
        0 <= i < events.len(),
    ensures
        read_actions(start, events).len() == events.len(),
        read_actions(start, events)[i] == read_transition(
            read_state_after(start, events.take(i)),
            events[i],
        ).1,
    decreases events.len(),
{
    let shorter = events.drop_last();
    lemma_read_actions_len(start, events);
    lemma_read_actions_len(start, shorter);
    if i < events.len() - 1 {
        lemma_read_actions_by_place(start, shorter, i);
        assert(shorter.take(i) == events.take(i));
    } else {
        assert(events.take(i) == shorter);
    }
}

/// The read side hands messages to the store in the order in which it took
/// them in, each one once.
pub proof fn lemma_read_side_keeps_order(start: ReadStateView, events: Seq<ReadEventView>)
    ensures
        handed_to_store(read_actions(start, events)) == taken_in(start, events),
    decreases events.len(),
{
    if events.len() > 0 {
        lemma_read_side_keeps_order(start, events.drop_last());
        assert(read_actions(start, events).drop_last() == read_actions(
            start,
            events.drop_last(),
        ));
    }
}

/// A read side that has terminated stays terminated, whatever comes.
pub proof fn lemma_read_terminated_is_final(events: Seq<ReadEventView>)
    ensures
        read_state_after(ReadStateView::Terminated, events) == ReadStateView::Terminated,
    decreases events.len(),
{
    if events.len() > 0 {
        lemma_read_terminated_is_final(events.drop_last());
    }
}

/// Messages are fanned out in the order in which they were handed to the
/// store, and none is fanned out that was not handed to the store before:
/// on any run from the idle state, the messages fanned out so far are the
/// messages handed to the store so far, but for the one that is still with
/// the store.
pub proof fn lemma_read_side_persists_then_broadcasts(events: Seq<ReadEventView>)
    ensures
        ({
            let actions = read_actions(ReadStateView::Idle, events);
            match read_state_after(ReadStateView::Idle, events) {
                ReadStateView::Processing(msg) => handed_to_store(actions) == handed_to_hub(
                    actions,
                ).push(msg),
                _ => handed_to_store(actions) == handed_to_hub(actions),
            }
        }),
    decreases events.len(),
{
    if events.len() > 0 {
        lemma_read_side_persists_then_broadcasts(events.drop_last());
        let before = read_actions(ReadStateView::Idle, events.drop_last());
        let actions = read_actions(ReadStateView::Idle, events);
        assert(actions.drop_last() == before);
    }
}

/// Whether `action` hands `msg` to the store.
pub open spec fn persists(action: ReadActionView, msg: Payload) -> bool {
    action matches ReadActionView::Persist(record) && record.payload == msg
}

/// The store is asked before the fan-out: on any run from the idle state,
/// an action that fans a message out comes after an action that hands the
/// same message to the store.
pub proof fn lemma_broadcast_follows_persist(events: Seq<ReadEventView>, i: int)
    requires
        0 <= i < events.len(),
        read_actions(ReadStateView::Idle, events)[i] is Broadcast,
    ensures
        ({
            let actions = read_actions(ReadStateView::Idle, events);
            exists|j: int| 0 <= j < i && persists(#[trigger] actions[j], actions[i]->Broadcast_msg)
        }),
{
    let actions = read_actions(ReadStateView::Idle, events);
    let earlier = events.take(i);
    lemma_read_actions_by_place(ReadStateView::Idle, events, i);
    let msg = actions[i]->Broadcast_msg;
    assert(read_state_after(ReadStateView::Idle, earlier) == ReadStateView::Processing(msg));
    lemma_pending_was_persisted(earlier);
    let j = choose|j: int|
        0 <= j < i && persists(#[trigger] read_actions(ReadStateView::Idle, earlier)[j], msg);
    lemma_read_actions_by_place(ReadStateView::Idle, earlier, j);
    lemma_read_actions_by_place(ReadStateView::Idle, events, j);
    assert(earlier.take(j) == events.take(j));
    assert(persists(actions[j], msg));
}

/// The message that is with the store was handed to it by an earlier action.
proof fn lemma_pending_was_persisted(events: Seq<ReadEventView>)
    requires
        read_state_after(ReadStateView::Idle, events) is Processing,
    ensures
        ({
            let actions = read_actions(ReadStateView::Idle, events);
            let pending = read_state_after(ReadStateView::Idle, events)->Processing_0;
            exists|j: int| 0 <= j < events.len() && persists(#[trigger] actions[j], pending)
        }),
    decreases events.len(),
{
    let actions = read_actions(ReadStateView::Idle, events);
    let pending = read_state_after(ReadStateView::Idle, events)->Processing_0;
    let shorter = events.drop_last();
    let last = events.len() - 1;
    lemma_read_actions_by_place(ReadStateView::Idle, events, last);
    assert(events.take(last) == shorter);
    if actions[last] is Persist {
        assert(persists(actions[last], pending));
    } else {
        lemma_pending_was_persisted(shorter);
        let j = choose|j: int|
            0 <= j < shorter.len() && persists(
                #[trigger] read_actions(ReadStateView::Idle, shorter)[j],
                pending,
            );
        assert(actions[j] == read_actions(ReadStateView::Idle, shorter)[j]);
        assert(persists(actions[j], pending));
    }
}

} // verus!
