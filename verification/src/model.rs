//! The messages that travel through the relay and the records that the store
//! keeps of them.

use vstd::prelude::*;

verus! {

/// What a chat message says, as a mathematical value: the text and the two
/// participant ids. Inbound and outbound messages have this same shape.
pub ghost struct Payload {
    pub text: Seq<char>,
    pub sender_id: i64,
    pub receiver_id: i64,
}

/// A point in time: whole seconds since the Unix epoch and the nanoseconds
/// into that second.
#[derive(Clone, Copy, Debug, PartialEq, Eq, Structural)]
pub struct Timestamp {
    pub secs: i64,
    pub nanos: u32,
}

/// A message as the server sends it to a client.
#[derive(Debug, PartialEq, Eq)]
pub struct ServerMsg {
    pub message: String,
    pub sender_id: i64,
    pub receiver_id: i64,
}

/// A message as a client submits it.
#[derive(Debug, PartialEq, Eq)]
pub struct ClientMsg {
    pub message: String,
    pub sender_id: i64,
    pub receiver_id: i64,
}

/// A message on its way into the store: the payload and the time at which the
/// server took it in.
#[derive(Debug, PartialEq, Eq)]
pub struct ChatMessage {
    pub message: String,
    pub sender_id: i64,
    pub receiver_id: i64,
    pub created_at: Option<Timestamp>,
}

/// A message as the store gives it back: the stored fields and the identifier
/// that the store assigned on insert.
#[derive(Debug, PartialEq, Eq)]
pub struct ChatMessageResponse {
    pub id: i32,
    pub message: String,
    pub sender_id: i64,
    pub receiver_id: i64,
    pub created_at: Option<Timestamp>,
}

/// The mathematical value of a `ChatMessage`.
pub ghost struct Record {
    pub payload: Payload,
    pub created_at: Option<Timestamp>,
}

/// The mathematical value of a `ChatMessageResponse`.
pub ghost struct StoredRecord {
    pub id: i32,
    pub payload: Payload,
    pub created_at: Option<Timestamp>,
}

impl View for ClientMsg {
    type V = Payload;

    open spec fn view(&self) -> Payload {
        Payload { text: self.message@, sender_id: self.sender_id, receiver_id: self.receiver_id }
    }
}

impl View for ServerMsg {
    type V = Payload;

    open spec fn view(&self) -> Payload {
        Payload { text: self.message@, sender_id: self.sender_id, receiver_id: self.receiver_id }
    }
}

impl View for ChatMessage {
    type V = Record;

    open spec fn view(&self) -> Record {
        Record {
            payload: Payload {
                text: self.message@,
                sender_id: self.sender_id,
                receiver_id: self.receiver_id,
            },
            created_at: self.created_at,
        }
    }
}

impl View for ChatMessageResponse {
    type V = StoredRecord;

    open spec fn view(&self) -> StoredRecord {
        StoredRecord {
            id: self.id,
            payload: Payload {
                text: self.message@,
                sender_id: self.sender_id,
                receiver_id: self.receiver_id,
            },
            created_at: self.created_at,
        }
    }
}

impl Clone for ClientMsg {
    /// A copy with the same text and ids.
    fn clone(&self) -> (copy: Self)
        ensures
            copy@ == self@,
    {
        ClientMsg {
            message: self.message.clone(),
            sender_id: self.sender_id,
            receiver_id: self.receiver_id,
        }
    }
}

impl Clone for ServerMsg {
    /// A copy with the same text and ids.
    fn clone(&self) -> (copy: Self)
        ensures
            copy@ == self@,
    {
        ServerMsg {
            message: self.message.clone(),
            sender_id: self.sender_id,
            receiver_id: self.receiver_id,
        }
    }
}

impl Clone for ChatMessage {
    /// A copy with the same fields.
    fn clone(&self) -> (copy: Self)
        ensures
            copy@ == self@,
    {
        ChatMessage {
            message: self.message.clone(),
            sender_id: self.sender_id,
            receiver_id: self.receiver_id,
            created_at: self.created_at,
        }
    }
}

impl Clone for ChatMessageResponse {
    /// A copy with the same fields.
    fn clone(&self) -> (copy: Self)
        ensures
            copy@ == self@,
    {
        ChatMessageResponse {
            id: self.id,
            message: self.message.clone(),
            sender_id: self.sender_id,
            receiver_id: self.receiver_id,
            created_at: self.created_at,
        }
    }
}

impl ServerMsg {
    /// The outbound form of an inbound message: the same text and ids.
    pub fn from_client(msg: ClientMsg) -> (out: ServerMsg)
        ensures
            out@ == msg@,
    {
        ServerMsg { message: msg.message, sender_id: msg.sender_id, receiver_id: msg.receiver_id }
    }
}

impl ChatMessage {
    /// The record to store for `msg`, taken in at `at`.
    pub fn at(msg: &ClientMsg, at: Timestamp) -> (record: ChatMessage)
        ensures
            record@ == (Record { payload: msg@, created_at: Some(at) }),
    {
        ChatMessage {
            message: msg.message.clone(),
            sender_id: msg.sender_id,
            receiver_id: msg.receiver_id,
            created_at: Some(at),
        }
    }
}

} // verus!
