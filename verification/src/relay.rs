//! The consumer: one message is received, classified, posted, and deleted
//! only once the post has succeeded.

use vstd::prelude::*;
use crate::social_media::{classified, classify, MessageType, PostError};

verus! {

/// Where one invocation of the relay stands.
#[derive(Debug, PartialEq, Eq)]
pub enum RelayState {
    /// Nothing was received yet.
    Idle,
    /// A message is being posted; its receipt handle is kept for the
    /// acknowledgement.
    Posting { receipt_handle: Option<String> },
    /// The post succeeded; the message is to be deleted.
    Acknowledged,
    /// There was nothing to post.
    Finished,
    /// The post failed; the message stays in the queue.
    Failed,
}

/// What happened outside since the last step.
#[derive(Debug)]
pub enum RelayEvent {
    /// The queue held no message.
    NoMessage,
    /// The queue handed out a message.
    Message { body: Option<String>, receipt_handle: Option<String> },
    /// The post ended, well or not.
    Posted(Result<(), PostError>),
}

/// What is to be done outside next.
#[derive(Debug, PartialEq, Eq)]
pub enum RelayAction {
    /// Open a session and post the text of this message.
    Post { message: MessageType },
    /// Delete the message with this receipt handle from the queue.
    Delete { receipt_handle: Option<String> },
    /// End the invocation; nothing is deleted.
    Stop,
    /// End the invocation with this error; nothing is deleted.
    Fail { error: Option<PostError> },
}

/// The step deletes the message: it is the step that hears of a successful
/// post while a message is being posted.
pub open spec fn acknowledges(state: RelayState, event: RelayEvent) -> bool {
    state is Posting && event is Posted && event->Posted_0 is Ok
}

/// The state at the start of an invocation; the first thing to do outside
/// is to receive at most one message.
pub fn relay_start() -> (r: RelayState)
    ensures
        r is Idle,
{
    RelayState::Idle
}

/// One step of the relay: from where it stands and what happened, to where
/// it stands next and what to do.
pub fn relay_step(state: RelayState, event: RelayEvent) -> (r: (RelayState, RelayAction))
    ensures
        (r.1 is Delete) <==> acknowledges(state, event),
        acknowledges(state, event) ==> r.0 is Acknowledged && r.1->Delete_receipt_handle
            == state->Posting_receipt_handle,
        state is Idle && event is NoMessage ==> r.0 is Finished && r.1 is Stop,
        state is Idle && event is Message && event->Message_body is None ==> r.0 is Finished
            && r.1 is Stop,
        state is Idle && event is Message && event->Message_body is Some ==> {
            &&& r.0 is Posting
            &&& r.0->Posting_receipt_handle == event->Message_receipt_handle
            &&& r.1 is Post
            &&& r.1->Post_message@ == classified(event->Message_body->Some_0@)
        },
        state is Posting && event is Posted && event->Posted_0 is Err ==> {
            &&& r.0 is Failed
            &&& r.1 is Fail
            &&& r.1->Fail_error == Some(event->Posted_0->Err_0)
        },
        state is Idle && event is Posted ==> r.0 is Failed && r.1 is Fail && r.1->Fail_error is None,
        state is Posting && !(event is Posted) ==> r.0 is Failed && r.1 is Fail
            && r.1->Fail_error is None,
        state is Acknowledged || state is Finished ==> r.0 == state && r.1 is Stop,
        state is Failed ==> r.0 is Failed && r.1 is Fail && r.1->Fail_error is None,
{
    match state {
        RelayState::Idle => match event {
            RelayEvent::NoMessage => (RelayState::Finished, RelayAction::Stop),
            RelayEvent::Message { body, receipt_handle } => match body {
                Some(text) => {
                    let message = classify(text.as_str());
                    (RelayState::Posting { receipt_handle }, RelayAction::Post { message })
                },
                None => (RelayState::Finished, RelayAction::Stop),
            },
            RelayEvent::Posted(_) => (RelayState::Failed, RelayAction::Fail { error: None }),
        },
        RelayState::Posting { receipt_handle } => match event {
            RelayEvent::Posted(Ok(())) => (
                RelayState::Acknowledged,
                RelayAction::Delete { receipt_handle },
            ),
            RelayEvent::Posted(Err(e)) => (RelayState::Failed, RelayAction::Fail { error: Some(e) }),
            _ => (RelayState::Failed, RelayAction::Fail { error: None }),
        },
        RelayState::Acknowledged => (RelayState::Acknowledged, RelayAction::Stop),
        RelayState::Finished => (RelayState::Finished, RelayAction::Stop),
        RelayState::Failed => (RelayState::Failed, RelayAction::Fail { error: None }),
    }
}

} // verus!
