//! The answers of the two history endpoints: which status and which body to
//! send for the outcome of a query on the store.

use vstd::prelude::*;

use crate::model::ChatMessageResponse;
use crate::model::StoredRecord;

verus! {

/// The status code of an answer that carries the records asked for.
pub const STATUS_OK: u16 = 200;

/// The status code of an answer to a query on which the store failed.
pub const STATUS_INTERNAL_SERVER_ERROR: u16 = 500;

/// The field `status` of a body.
#[derive(Clone, Copy, Debug, PartialEq, Eq, Structural)]
pub enum Status {
    Success,
    Fail,
}

/// The field `message` of a body: the records found, or the words of the
/// error.
#[derive(Debug, PartialEq, Eq)]
pub enum Content {
    Records(Vec<ChatMessageResponse>),
    Text(String),
}

/// The body of an answer, an object with the two fields `status` and
/// `message`.
#[derive(Debug, PartialEq, Eq)]
pub struct Body {
    pub status: Status,
    pub message: Content,
}

/// An answer: the status code and the body.
#[derive(Debug, PartialEq, Eq)]
pub struct Answer {
    pub code: u16,
    pub body: Body,
}

/// The mathematical value of a `Content`.
pub ghost enum ContentView {
    Records(Seq<StoredRecord>),
    Text(Seq<char>),
}

/// The mathematical value of a `Body`.
pub ghost struct BodyView {
    pub status: Status,
    pub message: ContentView,
}

/// The mathematical value of an `Answer`.
pub ghost struct AnswerView {
    pub code: u16,
    pub body: BodyView,
}

/// The mathematical values of a list of records, in the same order.
pub open spec fn records_view(records: Seq<ChatMessageResponse>) -> Seq<StoredRecord> {
    records.map_values(|record: ChatMessageResponse| record@)
}

impl View for Content {
    type V = ContentView;

    open spec fn view(&self) -> ContentView {
        match self {
            Content::Records(records) => ContentView::Records(records_view(records@)),
            Content::Text(text) => ContentView::Text(text@),
        }
    }
}

impl View for Body {
    type V = BodyView;

    open spec fn view(&self) -> BodyView {
        BodyView { status: self.status, message: self.message@ }
    }
}

impl View for Answer {
    type V = AnswerView;

    open spec fn view(&self) -> AnswerView {
        AnswerView { code: self.code, body: self.body@ }
    }
}

/// The answer to a query, given what the store made of it: the records with
/// `STATUS_OK`, or the words of the store's error with
/// `STATUS_INTERNAL_SERVER_ERROR`.
pub open spec fn answer_for(outcome: Result<Seq<StoredRecord>, Seq<char>>) -> AnswerView {
    match outcome {
        Ok(records) => AnswerView {
            code: STATUS_OK,
            body: BodyView { status: Status::Success, message: ContentView::Records(records) },
        },
        Err(words) => AnswerView {
            code: STATUS_INTERNAL_SERVER_ERROR,
            body: BodyView { status: Status::Fail, message: ContentView::Text(words) },
        },
    }
}

/// The outcome of a query as a mathematical value.
pub open spec fn outcome_view(outcome: Result<Vec<ChatMessageResponse>, String>) -> Result<
    Seq<StoredRecord>,
    Seq<char>,
> {
    match outcome {
        Ok(records) => Ok(records_view(records@)),
        Err(words) => Err(words@),
    }
}

impl Status {
    /// The word that stands for the status in a body: `success` or `fail`.
    pub fn label(&self) -> (word: &'static str)
        ensures
            word@ == match self {
                Status::Success => "success"@,
                Status::Fail => "fail"@,
            },
    {
        match self {
            Status::Success => "success",
            Status::Fail => "fail",
        }
    }
}

/// The body that carries `payload`, the records that a query found.
pub fn build_success_multi_response(payload: Vec<ChatMessageResponse>) -> (body: Body)
    ensures
        body@ == (BodyView {
            status: Status::Success,
            message: ContentView::Records(records_view(payload@)),
        }),
{
    Body { status: Status::Success, message: Content::Records(payload) }
}

/// The body that carries `error`, the words of a failure.
pub fn build_error_response(error: String) -> (body: Body)
    ensures
        body@ == (BodyView { status: Status::Fail, message: ContentView::Text(error@) }),
{
    Body { status: Status::Fail, message: Content::Text(error) }
}

/// The answer of the endpoint that lists the messages for one receiver,
/// given the outcome of its query.
pub fn get_by_receiver_id(messages: Result<Vec<ChatMessageResponse>, String>) -> (answer: Answer)
    ensures
        answer@ == answer_for(outcome_view(messages)),
{
    match messages {
        Ok(messages) => Answer { code: STATUS_OK, body: build_success_multi_response(messages) },
        Err(err) => Answer {
            code: STATUS_INTERNAL_SERVER_ERROR,
            body: build_error_response(err),
        },
    }
}

/// The answer of the endpoint that lists the messages of one sender, given
/// the outcome of its query.
pub fn get_by_sender_id(messages: Result<Vec<ChatMessageResponse>, String>) -> (answer: Answer)
    ensures
        answer@ == answer_for(outcome_view(messages)),
{
    match messages {
        Ok(messages) => Answer { code: STATUS_OK, body: build_success_multi_response(messages) },
        Err(err) => Answer {
            code: STATUS_INTERNAL_SERVER_ERROR,
            body: build_error_response(err),
        },
    }
}

} // verus!
