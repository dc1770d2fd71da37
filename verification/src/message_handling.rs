//! Decisions of the handler of incoming messages: which messages are
//! refused, what a received message is answered, and how an
//! acknowledgment changes the status of the message it acknowledges. The
//! storage and the event channel are the caller's part.

use vstd::prelude::*;
use crate::error::MePassaError;
use crate::ffi_types::MessageStatus;
use crate::protocol::{header_refusal, validate_message_fields};
use crate::text::string_of;

verus! {

/// Status carried by an acknowledgment, as far as the handler tells them apart.
#[derive(Debug, Clone, Copy, PartialEq, Eq, Structural)]
pub enum AckStatus {
    Unspecified,
    Received,
    Error,
}

/// Kind of payload a message carries.
#[derive(Debug, Clone, Copy, PartialEq, Eq, Structural)]
pub enum PayloadKind {
    Text,
    Ack,
    Typing,
    ReadReceipt,
}

/// Acknowledgment sent back for a received message.
#[derive(Debug)]
pub struct AckReply {
    pub message_id: String,
    pub status: AckStatus,
    /// Error text; empty unless the status is `Error`.
    pub error: String,
}

/// An acknowledgment for a message with a status and an optional error text.
pub fn create_ack(message_id: &str, status: AckStatus, error: Option<String>) -> (res: AckReply)
    ensures
        res.message_id@ == message_id@,
        res.status == status,
        res.error@ == match error {
            Some(e) => e@,
            None => Seq::<char>::empty(),
        },
{
    let error = match error {
        Some(e) => e,
        None => String::new(),
    };
    AckReply { message_id: string_of(message_id), status, error }
}

/// The payload to process for a received message, after its header was
/// checked: a refusal when the header is invalid or the payload is missing.
pub fn accept_incoming(
    local_peer_id: &str,
    message_id: &str,
    sender_peer_id: &str,
    recipient_peer_id: &str,
    payload: Option<PayloadKind>,
) -> (res: Result<PayloadKind, MePassaError>)
    ensures
        match header_refusal(local_peer_id@, message_id@, sender_peer_id@, recipient_peer_id@) {
            Some(m) => res matches Err(MePassaError::Protocol(s)) && s@ == m,
            None => match payload {
                Some(k) => res == Ok::<PayloadKind, MePassaError>(k),
                None => res matches Err(MePassaError::Protocol(s)) && s@
                    == "Message has no payload"@,
            },
        },
{
    match validate_message_fields(local_peer_id, message_id, sender_peer_id, recipient_peer_id) {
        Err(e) => Err(e),
        Ok(()) => match payload {
            Some(k) => Ok(k),
            None => Err(MePassaError::Protocol(string_of("Message has no payload"))),
        },
    }
}

/// The acknowledgment of a received message: `Received` when it was
/// processed, `Error` with the error's text when it was refused or failed.
pub fn ack_for_outcome(message_id: &str, outcome: &Result<(), MePassaError>) -> (res: AckReply)
    ensures
        res.message_id@ == message_id@,
        outcome is Ok ==> res.status == AckStatus::Received && res.error@.len() == 0,
        outcome matches Err(e) ==> res.status == AckStatus::Error && (!(e is Io) ==> res.error@
            == e.message_prefix() + e.detail()),
        outcome matches Err(MePassaError::Io(io)) ==> exists|t: String|
            vstd::string::to_string_from_display_ensures(io, t) && res.error@ == "IO error: "@ + t@,
{
    match outcome {
        Ok(()) => create_ack(message_id, AckStatus::Received, None),
        Err(e) => create_ack(message_id, AckStatus::Error, Some(e.to_string())),
    }
}

/// The status an acknowledged outgoing message takes: delivered when
/// received, failed on error; other statuses leave it as it is.
pub fn delivery_status(status: AckStatus) -> (res: Option<MessageStatus>)
    ensures
        res == match status {
            AckStatus::Received => Some(MessageStatus::Delivered),
            AckStatus::Error => Some(MessageStatus::Failed),
            AckStatus::Unspecified => None::<MessageStatus>,
        },
{
    match status {
        AckStatus::Received => Some(MessageStatus::Delivered),
        AckStatus::Error => Some(MessageStatus::Failed),
        AckStatus::Unspecified => None,
    }
}

/// The message a text replies to: none for an empty reply ID.
pub fn parent_message_id(reply_to_id: &str) -> (res: Option<String>)
    ensures
        reply_to_id@.len() == 0 ==> res is None,
        reply_to_id@.len() > 0 ==> (res matches Some(p) && p@ == reply_to_id@),
{
    if reply_to_id.is_empty() {
        None
    } else {
        Some(string_of(reply_to_id))
    }
}

} // verus!
