//! Media attachments: the records stored for them and their type.

use vstd::prelude::*;
use vstd::string::StringSliceAdditionalSpecFns;
use crate::text::{bytes_prefix, str_eq, str_starts_with};

verus! {

/// Kind of media attachment.
#[derive(Debug, Clone, Copy, PartialEq, Eq, Structural)]
pub enum MediaType {
    Image,
    Video,
    Audio,
    Document,
    VoiceMessage,
}

/// The stored name of a media type.
pub open spec fn media_type_name(t: MediaType) -> Seq<char> {
    match t {
        MediaType::Image => "image"@,
        MediaType::Video => "video"@,
        MediaType::Audio => "audio"@,
        MediaType::Document => "document"@,
        MediaType::VoiceMessage => "voice_message"@,
    }
}

/// The media type of a stored name; unknown names are documents.
pub open spec fn media_type_of_name(s: Seq<char>) -> MediaType {
    if s == "image"@ {
        MediaType::Image
    } else if s == "video"@ {
        MediaType::Video
    } else if s == "audio"@ {
        MediaType::Audio
    } else if s == "document"@ {
        MediaType::Document
    } else if s == "voice_message"@ {
        MediaType::VoiceMessage
    } else {
        MediaType::Document
    }
}

/// The media type of a MIME type: by its `image/`, `video/` or `audio/`
/// prefix, and a document otherwise.
pub open spec fn media_type_of_mime(mime: Seq<u8>) -> MediaType {
    if bytes_prefix("image/".spec_bytes(), mime) {
        MediaType::Image
    } else if bytes_prefix("video/".spec_bytes(), mime) {
        MediaType::Video
    } else if bytes_prefix("audio/".spec_bytes(), mime) {
        MediaType::Audio
    } else {
        MediaType::Document
    }
}

impl MediaType {
    /// The stored name of this media type.
    pub fn as_str(&self) -> (res: &'static str)
        ensures
            res@ == media_type_name(*self),
    {
        match self {
            MediaType::Image => "image",
            MediaType::Video => "video",
            MediaType::Audio => "audio",
            MediaType::Document => "document",
            MediaType::VoiceMessage => "voice_message",
        }
    }

    /// The media type of a stored name; unknown names are documents.
    pub fn from_str(s: &str) -> (res: Self)
        ensures
            res == media_type_of_name(s@),
    {
        if str_eq(s, "image") {
            MediaType::Image
        } else if str_eq(s, "video") {
            MediaType::Video
        } else if str_eq(s, "audio") {
            MediaType::Audio
        } else if str_eq(s, "document") {
            MediaType::Document
        } else if str_eq(s, "voice_message") {
            MediaType::VoiceMessage
        } else {
            MediaType::Document
        }
    }

    /// Infers the media type from a MIME type.
    pub fn from_mime_type(mime: &str) -> (res: Self)
        ensures
            res == media_type_of_mime(mime.spec_bytes()),
    {
        if str_starts_with(mime, "image/") {
            MediaType::Image
        } else if str_starts_with(mime, "video/") {
            MediaType::Video
        } else if str_starts_with(mime, "audio/") {
            MediaType::Audio
        } else {
            MediaType::Document
        }
    }
}

/// Reading back the stored name of a media type gives the media type.
pub proof fn lemma_media_type_name_roundtrip(t: MediaType)
    ensures
        media_type_of_name(media_type_name(t)) == t,
{
    reveal_strlit("image");
    reveal_strlit("video");
    reveal_strlit("audio");
    reveal_strlit("document");
    reveal_strlit("voice_message");
    assert("image"@[0] != "video"@[0]);
    assert("image"@[0] != "audio"@[0]);
    assert("video"@[0] != "audio"@[0]);
    assert("image"@ != "document"@);
    assert("image"@ != "voice_message"@);
    assert("video"@ != "audio"@);
    assert("video"@ != "document"@);
    assert("video"@.len() != "voice_message"@.len());
    assert("audio"@ != "document"@);
    assert("audio"@ != "voice_message"@);
    assert("document"@.len() != "voice_message"@.len());
}

/// A stored media attachment.
#[derive(Debug, Clone)]
pub struct Media {
    pub id: i64,
    pub media_hash: String,
    pub message_id: String,
    pub media_type: MediaType,
    pub file_name: Option<String>,
    pub file_size: Option<i64>,
    pub mime_type: Option<String>,
    pub local_path: Option<String>,
    pub thumbnail_path: Option<String>,
    pub width: Option<i32>,
    pub height: Option<i32>,
    pub duration_seconds: Option<i32>,
    pub created_at: i64,
}

/// A media attachment to insert.
#[derive(Debug, Clone)]
pub struct NewMedia {
    pub media_hash: String,
    pub message_id: String,
    pub media_type: MediaType,
    pub file_name: Option<String>,
    pub file_size: Option<i64>,
    pub mime_type: Option<String>,
    pub local_path: Option<String>,
    pub thumbnail_path: Option<String>,
    pub width: Option<i32>,
    pub height: Option<i32>,
    pub duration_seconds: Option<i32>,
}

} // verus!
