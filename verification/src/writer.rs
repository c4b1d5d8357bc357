//! The write side of a connection handler: what to do with each thing that
//! comes out of the connection's outbound queue.
//!
//! The handler's loop pulls the next message from the queue, tells this
//! machine what came, writes what it is told to write, and tells the machine
//! how the write went. A failed write ends the write side.

use vstd::prelude::*;

use crate::model::ClientMsg;
use crate::model::Payload;
use crate::model::ServerMsg;

verus! {

/// Where the write side stands.
#[derive(Clone, Copy, Debug, PartialEq, Eq, Structural)]
pub enum WriteState {
    /// The connection is not yet registered.
    Idle,
    /// Waiting for the next message in the outbound queue.
    WaitingForItem,
    /// A message is being written to the client.
    Sending,
    /// The write side has stopped for good.
    Terminated,
}

/// What happened on the outbound side.
#[derive(Debug, PartialEq, Eq)]
pub enum WriteEvent {
    /// The connection was registered; writing can begin.
    Started,
    /// The queue gave this message.
    Item(ClientMsg),
    /// The queue is closed and empty.
    QueueClosed,
    /// The message was written to the client.
    Sent,
    /// The message could not be written to the client.
    SendFailed,
}

/// What the handler is to do next.
#[derive(Debug, PartialEq, Eq)]
pub enum WriteAction {
    /// Nothing; wait for the next message in the queue.
    Continue,
    /// Write this message to the client and come back with the outcome.
    Send(ServerMsg),
    /// Take the connection out of the hub and stop.
    Stop,
    /// The event does not belong in this state and was left aside.
    Misplaced,
}

/// The mathematical value of a `WriteEvent`.
pub ghost enum WriteEventView {
    Started,
    Item(Payload),
    QueueClosed,
    Sent,
    SendFailed,
}

/// The mathematical value of a `WriteAction`.
pub ghost enum WriteActionView {
    Continue,
    Send(Payload),
    Stop,
    Misplaced,
}

impl View for WriteEvent {
    type V = WriteEventView;

    open spec fn view(&self) -> WriteEventView {
        match self {
            WriteEvent::Started => WriteEventView::Started,
            WriteEvent::Item(msg) => WriteEventView::Item(msg@),
            WriteEvent::QueueClosed => WriteEventView::QueueClosed,
            WriteEvent::Sent => WriteEventView::Sent,
            WriteEvent::SendFailed => WriteEventView::SendFailed,
        }
    }
}

impl View for WriteAction {
    type V = WriteActionView;

    open spec fn view(&self) -> WriteActionView {
        match self {
            WriteAction::Continue => WriteActionView::Continue,
            WriteAction::Send(msg) => WriteActionView::Send(msg@),
            WriteAction::Stop => WriteActionView::Stop,
            WriteAction::Misplaced => WriteActionView::Misplaced,
        }
    }
}

/// One step of the write side: the state that follows `state` on `event`,
/// and the action to carry out.
pub open spec fn write_transition(state: WriteState, event: WriteEventView) -> (
    WriteState,
    WriteActionView,
) {
    match (state, event) {
        (WriteState::Idle, WriteEventView::Started) => (
            WriteState::WaitingForItem,
            WriteActionView::Continue,
        ),
        (WriteState::WaitingForItem, WriteEventView::Item(msg)) => (
            WriteState::Sending,
            WriteActionView::Send(msg),
        ),
        (WriteState::WaitingForItem, WriteEventView::QueueClosed) => (
            WriteState::Terminated,
            WriteActionView::Stop,
        ),
        (WriteState::Sending, WriteEventView::Sent) => (
            WriteState::WaitingForItem,
            WriteActionView::Continue,
        ),
        (WriteState::Sending, WriteEventView::SendFailed) => (
            WriteState::Terminated,
            WriteActionView::Stop,
        ),
        (state, _) => (state, WriteActionView::Misplaced),
    }
}

impl WriteState {
    /// The state of a write side that has not begun.
    pub fn new() -> (state: WriteState)
        ensures
            state == WriteState::Idle,
    {
        WriteState::Idle
    }

    /// Whether the write side has stopped for good.
    pub fn is_terminated(&self) -> (done: bool)
        ensures
            done == (*self == WriteState::Terminated),
    {
        match self {
            WriteState::Terminated => true,
            _ => false,
        }
    }

    /// Takes one step: returns the state that follows, and the action for
    /// the handler to carry out.
    pub fn step(self, event: WriteEvent) -> (next: (WriteState, WriteAction))
        ensures
            (next.0, next.1@) == write_transition(self, event@),
    {
        match (self, event) {
            (WriteState::Idle, WriteEvent::Started) => (
                WriteState::WaitingForItem,
                WriteAction::Continue,
            ),
            (WriteState::WaitingForItem, WriteEvent::Item(msg)) => (
                WriteState::Sending,
                WriteAction::Send(ServerMsg::from_client(msg)),
            ),
            (WriteState::WaitingForItem, WriteEvent::QueueClosed) => (
                WriteState::Terminated,
                WriteAction::Stop,
            ),
            (WriteState::Sending, WriteEvent::Sent) => (
                WriteState::WaitingForItem,
                WriteAction::Continue,
            ),
            (WriteState::Sending, WriteEvent::SendFailed) => (
                WriteState::Terminated,
                WriteAction::Stop,
            ),
            (state, _) => (state, WriteAction::Misplaced),
        }
    }
}

/// The state that the write side is in after `events`, one after another,
/// from `start`.
pub open spec fn write_state_after(start: WriteState, events: Seq<WriteEventView>) -> WriteState
    decreases events.len(),
{
    if events.len() == 0 {
        start
    } else {
        write_transition(write_state_after(start, events.drop_last()), events.last()).0
    }
}

/// The actions that the write side hands back on `events` from `start`: one
/// for each event, in the same order.
pub open spec fn write_actions(start: WriteState, events: Seq<WriteEventView>) -> Seq<
    WriteActionView,
>
    decreases events.len(),
{
    if events.len() == 0 {
        Seq::empty()
    } else {
        write_actions(start, events.drop_last()).push(
            write_transition(write_state_after(start, events.drop_last()), events.last()).1,
        )
    }
}

/// The messages that the queue gave while the write side was waiting for
/// one, in order: those among `events` that the write side took up.
pub open spec fn taken_up(start: WriteState, events: Seq<WriteEventView>) -> Seq<Payload>
    decreases events.len(),
{
    if events.len() == 0 {
        Seq::empty()
    } else {
        let earlier = taken_up(start, events.drop_last());
        match (write_state_after(start, events.drop_last()), events.last()) {
            (WriteState::WaitingForItem, WriteEventView::Item(msg)) => earlier.push(msg),
            _ => earlier,
        }
    }
}

/// The messages that `actions` tell the handler to write, in order.
pub open spec fn written(actions: Seq<WriteActionView>) -> Seq<Payload>
    decreases actions.len(),
{
    if actions.len() == 0 {
        Seq::empty()
    } else {
        match actions.last() {
            WriteActionView::Send(msg) => written(actions.drop_last()).push(msg),
            _ => written(actions.drop_last()),
        }
    }
}

/// There is one action for each event.
pub proof fn lemma_write_actions_len(start: WriteState, events: Seq<WriteEventView>)
    ensures
        write_actions(start, events).len() == events.len(),
    decreases events.len(),
{
    if events.len() > 0 {
        lemma_write_actions_len(start, events.drop_last());
    }
}

/// The action at a place is the step taken, on the event at that place, from
/// the state after the events before it.
pub proof fn lemma_write_actions_by_place(start: WriteState, events: Seq<WriteEventView>, i: int)
    requires
        0 <= i < events.len(),
    ensures
        write_actions(start, events).len() == events.len(),
        write_actions(start, events)[i] == write_transition(
            write_state_after(start, events.take(i)),
            events[i],
        ).1,
    decreases events.len(),
{
    let shorter = events.drop_last();
    lemma_write_actions_len(start, events);
    lemma_write_actions_len(start, shorter);
    if i < events.len() - 1 {
        lemma_write_actions_by_place(start, shorter, i);
        assert(shorter.take(i) == events.take(i));
    } else {
        assert(events.take(i) == shorter);
    }
}

/// The write side is first in, first out: the messages it tells the handler
/// to write are the messages it took up from the queue, in the same order,
/// each written as it came.
pub proof fn lemma_write_side_keeps_order(start: WriteState, events: Seq<WriteEventView>)
    ensures
        written(write_actions(start, events)) == taken_up(start, events),
    decreases events.len(),
{
    if events.len() > 0 {
        lemma_write_side_keeps_order(start, events.drop_last());
        assert(write_actions(start, events).drop_last() == write_actions(
            start,
            events.drop_last(),
        ));
    }
}

/// A write side that has terminated stays terminated and writes nothing
/// more: whatever comes, the state is unchanged and every action is
/// `Misplaced`.
pub proof fn lemma_write_terminated_is_final(events: Seq<WriteEventView>, i: int)
    requires
        0 <= i < events.len(),
    ensures
        write_state_after(WriteState::Terminated, events) == WriteState::Terminated,
        write_actions(WriteState::Terminated, events)[i] == WriteActionView::Misplaced,
    decreases events.len(),
{
    lemma_write_stays_terminated(events);
    lemma_write_stays_terminated(events.take(i));
    lemma_write_actions_by_place(WriteState::Terminated, events, i);
}

/// From the terminated state every run ends in the terminated state.
proof fn lemma_write_stays_terminated(events: Seq<WriteEventView>)
    ensures
        write_state_after(WriteState::Terminated, events) == WriteState::Terminated,
    decreases events.len(),
{
    if events.len() > 0 {
        lemma_write_stays_terminated(events.drop_last());
    }
}

} // verus!
