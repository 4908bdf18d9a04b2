use specmaker::chat::{record_assistant_reply, send_user_message};
use specmaker::models::{CreateMessageInput, Message};
use specmaker::ollama::{
    chat_reply, check_ollama_connection, history_payload, ChatError, ChatMessage, ChatOutcome,
    ChatResponse, ProbeOutcome,
};
use specmaker::store::{create_conversation, get_conversation_messages, Database};

fn user_input(conversation_id: &str, content: &str) -> CreateMessageInput {
    CreateMessageInput {
        conversation_id: conversation_id.to_string(),
        role: "user".to_string(),
        content: content.to_string(),
        metadata: Some("{\"source\":\"ui\"}".to_string()),
    }
}

#[test]
fn send_message_persists_exactly_two_rows() {
    let mut db = Database::new_in_memory().unwrap();
    let v = create_conversation(&mut db, "project-1".to_string()).unwrap();
    let (user, history) = send_user_message(&mut db, user_input(&v.id, "hello there")).unwrap();
    assert_eq!(history, vec![user.clone()]);
    let reply = record_assistant_reply(&mut db, v.id.clone(), "hi, how can I help?".to_string())
        .unwrap();
    let listed = get_conversation_messages(&db, v.id.clone()).unwrap();
    assert_eq!(listed, vec![user.clone(), reply.clone()]);
    assert_eq!(user.role, "user");
    assert_eq!(user.content, "hello there");
    assert_eq!(user.metadata, Some("{\"source\":\"ui\"}".to_string()));
    assert_eq!(reply.role, "assistant");
    assert_eq!(reply.content, "hi, how can I help?");
    assert_eq!(reply.metadata, None);
    assert_eq!(reply.conversation_id, v.id);
}

#[test]
fn failed_inference_leaves_user_message_only() {
    let mut db = Database::new_in_memory().unwrap();
    let v = create_conversation(&mut db, "project-1".to_string()).unwrap();
    let (user, _) = send_user_message(&mut db, user_input(&v.id, "hello?")).unwrap();
    let r = chat_reply(ChatOutcome::Response {
        status: 503,
        body: Err("no body parsed".to_string()),
    });
    assert_eq!(r, Err(ChatError::ApiStatus(503)));
    let listed = get_conversation_messages(&db, v.id.clone()).unwrap();
    assert_eq!(listed, vec![user]);
}

#[test]
fn chat_reply_returns_message_content_on_success() {
    let r = chat_reply(ChatOutcome::Response {
        status: 200,
        body: Ok(ChatResponse {
            message: ChatMessage {
                role: "assistant".to_string(),
                content: "the reply".to_string(),
            },
            done: true,
        }),
    });
    assert_eq!(r, Ok("the reply".to_string()));
}

#[test]
fn chat_reply_reports_parse_error_on_malformed_body() {
    let r = chat_reply(ChatOutcome::Response {
        status: 200,
        body: Err("missing field `message`".to_string()),
    });
    assert_eq!(r, Err(ChatError::Parse("missing field `message`".to_string())));
}

#[test]
fn chat_reply_reports_transport_error_when_unreachable() {
    let r = chat_reply(ChatOutcome::Unreachable("connection refused".to_string()));
    assert_eq!(r, Err(ChatError::Transport("connection refused".to_string())));
}

#[test]
fn probe_outcomes_are_distinguishable() {
    assert_eq!(check_ollama_connection(ProbeOutcome::Response(200)), Ok(true));
    assert_eq!(check_ollama_connection(ProbeOutcome::Response(404)), Ok(false));
    assert_eq!(
        check_ollama_connection(ProbeOutcome::Unreachable("connection refused".to_string())),
        Err(ChatError::Transport("connection refused".to_string()))
    );
}

#[test]
fn history_payload_keeps_roles_and_contents_in_order() {
    let messages = vec![
        Message {
            id: "m1".to_string(),
            conversation_id: "c".to_string(),
            role: "user".to_string(),
            content: "first".to_string(),
            metadata: Some("{}".to_string()),
            created_at: "2024-01-01T00:00:00+00:00".to_string(),
        },
        Message {
            id: "m2".to_string(),
            conversation_id: "c".to_string(),
            role: "assistant".to_string(),
            content: "second".to_string(),
            metadata: None,
            created_at: "2024-01-01T00:00:01+00:00".to_string(),
        },
    ];
    let payload = history_payload(&messages);
    assert_eq!(
        payload,
        vec![
            ChatMessage { role: "user".to_string(), content: "first".to_string() },
            ChatMessage { role: "assistant".to_string(), content: "second".to_string() },
        ]
    );
}
