use chat_relay::data::Bind;
use chat_relay::data::ChatMessageRepository;
use chat_relay::data::Statement;
use chat_relay::data::INSERT_MESSAGE;
use chat_relay::data::SELECT_BY_RECEIVER;
use chat_relay::data::SELECT_BY_SENDER;
use chat_relay::handlers::build_error_response;
use chat_relay::handlers::build_success_multi_response;
use chat_relay::handlers::get_by_receiver_id;
use chat_relay::handlers::get_by_sender_id;
use chat_relay::handlers::Answer;
use chat_relay::handlers::Body;
use chat_relay::handlers::Content;
use chat_relay::handlers::Status;
use chat_relay::handlers::STATUS_INTERNAL_SERVER_ERROR;
use chat_relay::handlers::STATUS_OK;
use chat_relay::model::ChatMessage;
use chat_relay::model::ChatMessageResponse;
use chat_relay::model::ClientMsg;
use chat_relay::model::ServerMsg;
use chat_relay::model::Timestamp;

fn row(id: i32, sender_id: i64) -> ChatMessageResponse {
    ChatMessageResponse {
        id,
        message: format!("message {}", id),
        sender_id,
        receiver_id: 2,
        created_at: Some(Timestamp { secs: 1_700_000_000 + id as i64, nanos: 0 }),
    }
}

#[test]
fn server_message_has_the_fields_of_the_client_message() {
    let inbound = ClientMsg { message: "hi".to_string(), sender_id: 1, receiver_id: 2 };
    let outbound = ServerMsg::from_client(inbound);
    assert_eq!(outbound, ServerMsg { message: "hi".to_string(), sender_id: 1, receiver_id: 2 });
}

#[test]
fn clones_are_equal_to_their_originals() {
    let inbound = ClientMsg { message: "päck".to_string(), sender_id: i64::MIN, receiver_id: 0 };
    assert_eq!(inbound.clone(), inbound);
    let outbound = ServerMsg { message: String::new(), sender_id: 0, receiver_id: i64::MAX };
    assert_eq!(outbound.clone(), outbound);
    let record = ChatMessage {
        message: "r".to_string(),
        sender_id: 1,
        receiver_id: 2,
        created_at: None,
    };
    assert_eq!(record.clone(), record);
    assert_eq!(row(4, 1).clone(), row(4, 1));
}

#[test]
fn record_at_a_given_time() {
    let inbound = ClientMsg { message: "hi".to_string(), sender_id: 1, receiver_id: 2 };
    let record = ChatMessage::at(&inbound, Timestamp { secs: 42, nanos: 7 });
    assert_eq!(
        record,
        ChatMessage {
            message: "hi".to_string(),
            sender_id: 1,
            receiver_id: 2,
            created_at: Some(Timestamp { secs: 42, nanos: 7 }),
        }
    );
}

#[test]
fn save_builds_the_insert() {
    let repository = ChatMessageRepository::new();
    let statement = repository.save(ChatMessage {
        message: "hello".to_string(),
        sender_id: 3,
        receiver_id: 4,
        created_at: Some(Timestamp { secs: 5, nanos: 6 }),
    });
    assert_eq!(
        statement,
        Statement {
            sql: "INSERT INTO chat_messages (message, sender_id, receiver_id, created_at) VALUES ($1, $2, $3, $4)",
            binds: vec![
                Bind::Text("hello".to_string()),
                Bind::Int(3),
                Bind::Int(4),
                Bind::Time(Some(Timestamp { secs: 5, nanos: 6 })),
            ],
        }
    );
    assert_eq!(statement.sql, INSERT_MESSAGE);
}

#[test]
fn save_of_a_record_without_time_binds_no_time() {
    let statement = ChatMessageRepository::new().save(ChatMessage {
        message: String::new(),
        sender_id: -1,
        receiver_id: -2,
        created_at: None,
    });
    assert_eq!(
        statement.binds,
        vec![Bind::Text(String::new()), Bind::Int(-1), Bind::Int(-2), Bind::Time(None)]
    );
}

#[test]
fn query_by_sender_binds_the_sender() {
    let statement = ChatMessageRepository::new().get_by_sender_id(1);
    assert_eq!(statement.sql, "SELECT * FROM chat_messages WHERE sender_id = $1");
    assert_eq!(statement.sql, SELECT_BY_SENDER);
    assert_eq!(statement.binds, vec![Bind::Int(1)]);
}

#[test]
fn query_by_receiver_binds_the_receiver() {
    let statement = ChatMessageRepository::default().get_by_receiver_id(i64::MAX);
    assert_eq!(statement.sql, "SELECT * FROM chat_messages WHERE receiver_id = $1");
    assert_eq!(statement.sql, SELECT_BY_RECEIVER);
    assert_eq!(statement.binds, vec![Bind::Int(i64::MAX)]);
}

#[test]
fn status_labels() {
    assert_eq!(Status::Success.label(), "success");
    assert_eq!(Status::Fail.label(), "fail");
}

#[test]
fn success_body_carries_the_records() {
    let body = build_success_multi_response(vec![row(1, 1), row(2, 1)]);
    assert_eq!(
        body,
        Body { status: Status::Success, message: Content::Records(vec![row(1, 1), row(2, 1)]) }
    );
}

#[test]
fn success_body_of_no_records() {
    let body = build_success_multi_response(Vec::new());
    assert_eq!(body, Body { status: Status::Success, message: Content::Records(Vec::new()) });
}

#[test]
fn error_body_carries_the_words() {
    let body = build_error_response("pool timed out".to_string());
    assert_eq!(
        body,
        Body { status: Status::Fail, message: Content::Text("pool timed out".to_string()) }
    );
}

#[test]
fn answer_to_a_query_that_found_records() {
    let answer = get_by_sender_id(Ok(vec![row(1, 1), row(2, 1)]));
    assert_eq!(
        answer,
        Answer {
            code: 200,
            body: Body {
                status: Status::Success,
                message: Content::Records(vec![row(1, 1), row(2, 1)]),
            },
        }
    );
    assert_eq!(answer.code, STATUS_OK);
    assert_eq!(get_by_receiver_id(Ok(vec![row(3, 9)])).code, 200);
}

#[test]
fn answer_to_a_query_that_failed() {
    let expected = Answer {
        code: 500,
        body: Body { status: Status::Fail, message: Content::Text("no table".to_string()) },
    };
    assert_eq!(get_by_receiver_id(Err("no table".to_string())), expected);
    assert_eq!(get_by_sender_id(Err("no table".to_string())), expected);
    assert_eq!(expected.code, STATUS_INTERNAL_SERVER_ERROR);
}
