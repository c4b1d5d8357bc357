//! The statements that the relay runs on its message store.
//!
//! The store is a table `chat_messages` with the columns `id`, `message`,
//! `sender_id`, `receiver_id` and `created_at`. This module says which
//! statement to run and with which parameters; running it is the caller's
//! part.

use vstd::prelude::*;

use crate::model::ChatMessage;
use crate::model::Timestamp;

verus! {

/// The text of the statement that stores one message.
pub const INSERT_MESSAGE: &'static str =
    "INSERT INTO chat_messages (message, sender_id, receiver_id, created_at) VALUES ($1, $2, $3, $4)";

/// The text of the statement that reads the messages of one sender.
pub const SELECT_BY_SENDER: &'static str = "SELECT * FROM chat_messages WHERE sender_id = $1";

/// The text of the statement that reads the messages for one receiver.
pub const SELECT_BY_RECEIVER: &'static str = "SELECT * FROM chat_messages WHERE receiver_id = $1";

/// The value of one parameter of a statement.
#[derive(Debug, PartialEq, Eq)]
pub enum Bind {
    Text(String),
    Int(i64),
    Time(Option<Timestamp>),
}

/// The mathematical value of a `Bind`.
pub ghost enum BindView {
    Text(Seq<char>),
    Int(i64),
    Time(Option<Timestamp>),
}

impl View for Bind {
    type V = BindView;

    open spec fn view(&self) -> BindView {
        match self {
            Bind::Text(text) => BindView::Text(text@),
            Bind::Int(n) => BindView::Int(*n),
            Bind::Time(at) => BindView::Time(*at),
        }
    }
}

/// A statement to run on the store: its text, and the values of its
/// parameters `$1`, `$2`, ... in that order.
#[derive(Debug, PartialEq, Eq)]
pub struct Statement {
    pub sql: &'static str,
    pub binds: Vec<Bind>,
}

/// The mathematical value of a `Statement`.
pub ghost struct StatementView {
    pub sql: Seq<char>,
    pub binds: Seq<BindView>,
}

impl View for Statement {
    type V = StatementView;

    open spec fn view(&self) -> StatementView {
        StatementView { sql: self.sql@, binds: self.binds@.map_values(|bind: Bind| bind@) }
    }
}

/// The way to the message store.
#[derive(Default, Clone, Copy, Debug)]
pub struct ChatMessageRepository {}

impl ChatMessageRepository {
    /// The repository. It holds nothing: the pool on which its statements
    /// run is the caller's.
    pub fn new() -> (repository: Self)
        ensures
            repository == (ChatMessageRepository {  }),
    {
        ChatMessageRepository {  }
    }

    /// The statement that stores `chat_message`: an insert of its text, its
    /// two ids and its time, in that order.
    pub fn save(&self, chat_message: ChatMessage) -> (statement: Statement)
        ensures
            statement@ == (StatementView {
                sql: INSERT_MESSAGE@,
                binds: seq![
                    BindView::Text(chat_message@.payload.text),
                    BindView::Int(chat_message@.payload.sender_id),
                    BindView::Int(chat_message@.payload.receiver_id),
                    BindView::Time(chat_message@.created_at),
                ],
            }),
    {
        let mut binds: Vec<Bind> = Vec::new();
        binds.push(Bind::Text(chat_message.message));
        binds.push(Bind::Int(chat_message.sender_id));
        binds.push(Bind::Int(chat_message.receiver_id));
        binds.push(Bind::Time(chat_message.created_at));
        let statement = Statement { sql: INSERT_MESSAGE, binds };
        assert(statement@.binds =~= seq![
            BindView::Text(chat_message@.payload.text),
            BindView::Int(chat_message@.payload.sender_id),
            BindView::Int(chat_message@.payload.receiver_id),
            BindView::Time(chat_message@.created_at),
        ]);
        statement
    }

    /// The statement that reads every stored message whose sender is
    /// `sender_id`.
    pub fn get_by_sender_id(&self, sender_id: i64) -> (statement: Statement)
        ensures
            statement@ == (StatementView {
                sql: SELECT_BY_SENDER@,
                binds: seq![BindView::Int(sender_id)],
            }),
    {
        let mut binds: Vec<Bind> = Vec::new();
        binds.push(Bind::Int(sender_id));
        let statement = Statement { sql: SELECT_BY_SENDER, binds };
        assert(statement@.binds =~= seq![BindView::Int(sender_id)]);
        statement
    }

    /// The statement that reads every stored message whose receiver is
    /// `receiver_id`.
    pub fn get_by_receiver_id(&self, receiver_id: i64) -> (statement: Statement)
        ensures
            statement@ == (StatementView {
                sql: SELECT_BY_RECEIVER@,
                binds: seq![BindView::Int(receiver_id)],
            }),
    {
        let mut binds: Vec<Bind> = Vec::new();
        binds.push(Bind::Int(receiver_id));
        let statement = Statement { sql: SELECT_BY_RECEIVER, binds };
        assert(statement@.binds =~= seq![BindView::Int(receiver_id)]);
        statement
    }
}

} // verus!
