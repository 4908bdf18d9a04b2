//! The inference-client decisions: turning the observed outcome of one HTTP
//! round trip to the local Ollama endpoint into the reply text or an error.
//!
//! The round trips themselves (a `POST {base}/api/chat` and a liveness
//! `GET {base}/api/tags`) are network I/O and live in the surrounding
//! application; it hands the outcome — transport failure, or status plus
//! parsed body — to the functions here, which are verified for every outcome.

use vstd::prelude::*;

use crate::models::Message;

verus! {

/// One {role, content} line of the chat payload sent to the endpoint.
#[derive(Debug, Clone, PartialEq)]
pub struct ChatMessage {
    pub role: String,
    pub content: String,
}

/// The body shape a successful chat completion must have.
#[derive(Debug, Clone, PartialEq)]
pub struct ChatResponse {
    pub message: ChatMessage,
    pub done: bool,
}

/// How an inference call fails: the endpoint was unreachable, it answered
/// with a non-success status, or its success body did not have the expected
/// shape.
#[derive(Debug, Clone, PartialEq)]
pub enum ChatError {
    Transport(String),
    ApiStatus(u16),
    Parse(String),
}

/// What one chat round trip came to: a response with its status and the
/// attempt to read its body as a [`ChatResponse`], or no response at all.
pub enum ChatOutcome {
    Response { status: u16, body: Result<ChatResponse, String> },
    Unreachable(String),
}

/// What one liveness probe came to: a response status, or no response at all.
pub enum ProbeOutcome {
    Response(u16),
    Unreachable(String),
}

/// An HTTP status in the success range.
pub open spec fn is_success_status(status: u16) -> bool {
    200 <= status < 300
}

/// The payload line for one stored message: its role and content; ids,
/// metadata and timestamps are not sent to inference.
pub open spec fn chat_line(m: Message) -> ChatMessage {
    ChatMessage { role: m.role, content: m.content }
}

/// Maps stored conversation history to the {role, content} payload sent to
/// the endpoint, in the same order.
pub fn history_payload(messages: &Vec<Message>) -> (r: Vec<ChatMessage>)
    ensures
        r@ == messages@.map_values(|m: Message| chat_line(m)),
{
    let mut out: Vec<ChatMessage> = Vec::new();
    let mut i: usize = 0;
    while i < messages.len()
        invariant
            i <= messages.len(),
            out@ == messages@.take(i as int).map_values(|m: Message| chat_line(m)),
        decreases messages.len() - i,
    {
        out.push(ChatMessage {
            role: messages[i].role.clone(),
            content: messages[i].content.clone(),
        });
        proof {
            assert(messages@.take(i + 1) == messages@.take(i as int).push(messages@[i as int]));
        }
        i = i + 1;
    }
    proof {
        assert(messages@.take(messages@.len() as int) == messages@);
    }
    out
}

/// The chat contract: a reply is owed exactly when the endpoint answered
/// with a success status and a well-formed body, and each failure names its
/// cause — the transport error, the non-success status, or the parse error.
pub open spec fn chat_reply_post(outcome: ChatOutcome, r: Result<String, ChatError>) -> bool {
    &&& (outcome matches ChatOutcome::Unreachable(e) ==> r == Err::<String, ChatError>(
        ChatError::Transport(e),
    ))
    &&& (outcome matches ChatOutcome::Response { status, body } ==> {
        if !is_success_status(status) {
            r == Err::<String, ChatError>(ChatError::ApiStatus(status))
        } else {
            match body {
                Ok(resp) => r == Ok::<String, ChatError>(resp.message.content),
                Err(e) => r == Err::<String, ChatError>(ChatError::Parse(e)),
            }
        }
    })
}

/// Extracts the reply from one chat round trip: the single reply message's
/// content on success; the transport error, the non-success status (checked
/// before the body is even considered), or the parse error otherwise.
pub fn chat_reply(outcome: ChatOutcome) -> (r: Result<String, ChatError>)
    ensures
        chat_reply_post(outcome, r),
{
    match outcome {
        ChatOutcome::Unreachable(e) => Err(ChatError::Transport(e)),
        ChatOutcome::Response { status, body } => {
            if status < 200 || status >= 300 {
                Err(ChatError::ApiStatus(status))
            } else {
                match body {
                    Ok(resp) => Ok(resp.message.content),
                    Err(e) => Err(ChatError::Parse(e)),
                }
            }
        },
    }
}

/// The connection-check contract: a boolean is owed exactly when a response
/// arrived, and it is true exactly for a success status; transport failure is
/// an error, never `false`.
pub open spec fn check_connection_post(outcome: ProbeOutcome, r: Result<bool, ChatError>) -> bool {
    &&& (outcome matches ProbeOutcome::Response(status) ==> r == Ok::<bool, ChatError>(
        is_success_status(status),
    ))
    &&& (outcome matches ProbeOutcome::Unreachable(e) ==> r == Err::<bool, ChatError>(
        ChatError::Transport(e),
    ))
}

/// Interprets one liveness probe: `Ok(true)` for a success status, `Ok(false)`
/// for any other status, and an error — not `false` — when the endpoint was
/// unreachable.
pub fn check_ollama_connection(outcome: ProbeOutcome) -> (r: Result<bool, ChatError>)
    ensures
        check_connection_post(outcome, r),
{
    match outcome {
        ProbeOutcome::Response(status) => Ok(200 <= status && status < 300),
        ProbeOutcome::Unreachable(e) => Err(ChatError::Transport(e)),
    }
}

/// A caller can tell a refused probe from a failed one: `Ok(false)` comes
/// only from a response with an explicit non-success status, and an
/// unreachable endpoint comes back as a transport error, never as `false`.
pub proof fn law_probe_outcomes_distinguishable(outcome: ProbeOutcome, r: Result<bool, ChatError>)
    requires
        check_connection_post(outcome, r),
    ensures
        r == Ok::<bool, ChatError>(false) ==> (outcome matches ProbeOutcome::Response(s)
            && !is_success_status(s)),
        outcome is Unreachable ==> (r matches Err(e) && e is Transport),
{
}

} // verus!
