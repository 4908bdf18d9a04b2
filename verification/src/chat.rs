//! The send-message flow: the only multi-step operation.
//!
//! The flow is linear: persist the caller's message, re-read the ordered
//! history, map it to the chat payload, perform one HTTP round trip to the
//! inference endpoint, and persist the reply as an assistant message. The
//! round trip is network I/O and is performed by the surrounding application
//! between [`send_user_message`] and [`record_assistant_reply`]; everything
//! the flow decides or persists is verified here. There is no rollback: a
//! user message already persisted stays persisted when a later step fails.

use vstd::prelude::*;

use crate::models::{CreateMessageInput, Message};
use crate::ollama::{chat_reply_post, is_success_status, ChatError, ChatOutcome};
use crate::store::{
    append_message, get_conversation_messages, has_message_id, listing_post, Database, StoreError,
};

verus! {

/// Persists the caller's message with a fresh id and timestamp, then re-reads
/// the conversation's full ordered history (which contains the new row). On
/// success the pair is the persisted message and that history. When the
/// re-read fails the already-inserted message stays persisted.
pub fn send_user_message(db: &mut Database, input: CreateMessageInput) -> (r: Result<
    (Message, Vec<Message>),
    StoreError,
>)
    requires
        old(db).wf(),
    ensures
        final(db).wf(),
        r matches Ok(pair) ==> final(db).messages() == old(db).messages().push(pair.0)
            && !has_message_id(old(db).messages(), pair.0.id@),
        r matches Ok(pair) ==> pair.0.conversation_id == input.conversation_id && pair.0.role
            == input.role && pair.0.content == input.content && pair.0.metadata == input.metadata,
        r matches Ok(pair) ==> listing_post(
            final(db).messages(),
            input.conversation_id@,
            pair.1@,
        ),
        r is Err ==> final(db).messages() == old(db).messages() || (exists|m: Message|
            final(db).messages() == #[trigger] old(db).messages().push(m) && m.conversation_id
                == input.conversation_id && m.role == input.role && m.content == input.content),
        r matches Err(e) ==> e is Database,
        final(db).projects() == old(db).projects(),
        final(db).conversations() == old(db).conversations(),
{
    let cid = input.conversation_id.clone();
    match append_message(db, input) {
        Ok(m) => {
            match get_conversation_messages(db, cid) {
                Ok(h) => Ok((m, h)),
                Err(e) => Err(e),
            }
        },
        Err(e) => Err(e),
    }
}

/// Persists the inference reply as a new assistant message: role fixed to
/// `assistant`, the returned content, no metadata, a fresh id and timestamp.
/// The returned value is exactly the row persisted.
pub fn record_assistant_reply(db: &mut Database, conversation_id: String, content: String) -> (r:
    Result<Message, StoreError>)
    requires
        old(db).wf(),
    ensures
        final(db).wf(),
        r matches Ok(m) ==> final(db).messages() == old(db).messages().push(m)
            && !has_message_id(old(db).messages(), m.id@),
        r matches Ok(m) ==> m.conversation_id == conversation_id && m.role@ == "assistant"@
            && m.content == content && m.metadata is None,
        r is Err ==> final(db).messages() == old(db).messages(),
        r matches Err(e) ==> e is Database,
        final(db).projects() == old(db).projects(),
        final(db).conversations() == old(db).conversations(),
{
    append_message(
        db,
        CreateMessageInput {
            conversation_id,
            role: "assistant".to_owned(),
            content,
            metadata: None,
        },
    )
}

/// A send that runs to completion adds exactly two rows to the messages
/// table: the user message, then the assistant message, in that order at the
/// end of the table, with nothing else touched.
pub proof fn law_send_adds_exactly_two_rows(
    before: Seq<Message>,
    mid: Seq<Message>,
    after: Seq<Message>,
    user: Message,
    assistant: Message,
)
    requires
        mid == before.push(user),
        after == mid.push(assistant),
    ensures
        after =~= before + seq![user, assistant],
        after.len() == before.len() + 2,
        after[after.len() - 2] == user,
        after[after.len() - 1] == assistant,
{
}

/// When the endpoint answers with a non-success status, the flow reports that
/// status as the error, and the user message persisted by the first step
/// stays the last row of the table; no assistant row is owed, since only
/// [`record_assistant_reply`] appends one and it takes a reply that the
/// failed call never produced.
pub proof fn law_failed_inference_keeps_user_message(
    before: Seq<Message>,
    after: Seq<Message>,
    user: Message,
    outcome: ChatOutcome,
    r: Result<String, ChatError>,
)
    requires
        after == before.push(user),
        chat_reply_post(outcome, r),
        outcome matches ChatOutcome::Response { status, body } && !is_success_status(status),
    ensures
        outcome matches ChatOutcome::Response { status, body } ==> r == Err::<String, ChatError>(
            ChatError::ApiStatus(status),
        ),
        after.len() == before.len() + 1,
        after[after.len() - 1] == user,
{
}

} // verus!
