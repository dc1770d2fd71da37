//! Wire-level message records, and the checks a received message passes.

use vstd::prelude::*;
use crate::error::MePassaError;
use crate::text::{str_eq, string_of};

verus! {

/// Kind of message content.
#[derive(Debug, Clone, Copy, PartialEq, Eq, Structural)]
pub enum MessageType {
    Text,
    Image,
    Video,
    Audio,
    File,
    Location,
    Contact,
    Sticker,
    Reaction,
    Edit,
    Delete,
}

/// A message as sent between peers, its content encrypted.
#[derive(Debug, Clone)]
pub struct Message {
    pub id: String,
    pub sender: String,
    pub recipient: String,
    pub message_type: MessageType,
    pub encrypted_content: Vec<u8>,
    pub timestamp: i64,
    pub signature: Vec<u8>,
}

/// Decrypted message content.
#[derive(Debug, Clone)]
pub enum MessageContent {
    Text { text: String },
    Image { data: Vec<u8>, mime_type: String },
    Audio { data: Vec<u8>, duration: u32 },
}

/// Text of the error for a message addressed to another peer.
pub open spec fn not_addressed_message(local: Seq<char>, recipient: Seq<char>) -> Seq<char> {
    "Message not addressed to us (expected: "@ + local + ", got: "@ + recipient + ")"@
}

/// The refusal of a received message's header, if any: an empty ID, an
/// empty sender, or another peer as recipient, checked in that order.
pub open spec fn header_refusal(
    local_peer_id: Seq<char>,
    message_id: Seq<char>,
    sender_peer_id: Seq<char>,
    recipient_peer_id: Seq<char>,
) -> Option<Seq<char>> {
    if message_id.len() == 0 {
        Some("Empty message ID"@)
    } else if sender_peer_id.len() == 0 {
        Some("Empty sender peer ID"@)
    } else if recipient_peer_id != local_peer_id {
        Some(not_addressed_message(local_peer_id, recipient_peer_id))
    } else {
        None
    }
}

/// Checks the header of a received message: a non-empty ID, a non-empty
/// sender, and this peer as recipient, in that order. Any other content is
/// accepted.
pub fn validate_message_fields(
    local_peer_id: &str,
    message_id: &str,
    sender_peer_id: &str,
    recipient_peer_id: &str,
) -> (res: Result<(), MePassaError>)
    ensures
        match header_refusal(local_peer_id@, message_id@, sender_peer_id@, recipient_peer_id@) {
            None => res is Ok,
            Some(m) => res matches Err(MePassaError::Protocol(s)) && s@ == m,
        },
{
    if message_id.is_empty() {
        return Err(MePassaError::Protocol(string_of("Empty message ID")));
    }
    if sender_peer_id.is_empty() {
        return Err(MePassaError::Protocol(string_of("Empty sender peer ID")));
    }
    if !str_eq(recipient_peer_id, local_peer_id) {
        let mut m = string_of("Message not addressed to us (expected: ");
        m.append(local_peer_id);
        m.append(", got: ");
        m.append(recipient_peer_id);
        m.append(")");
        return Err(MePassaError::Protocol(m));
    }
    Ok(())
}

/// ID of the one-to-one conversation with a peer: `1:1:` and the peer ID.
pub fn direct_conversation_id(peer_id: &str) -> (res: String)
    ensures
        res@ == "1:1:"@ + peer_id@,
{
    let mut s = string_of("1:1:");
    s.append(peer_id);
    s
}

} // verus!
