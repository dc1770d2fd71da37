//! Error types of the library. Each has the message that its variants
//! render to, as a spec function and as an executable `message`.

use vstd::prelude::*;
use crate::text::string_of;

verus! {

/// `prefix` followed by `s`.
pub fn prefixed(prefix: &str, s: &String) -> (res: String)
    ensures
        res@ == prefix@ + s@,
{
    let mut m = string_of(prefix);
    m.append(s.as_str());
    m
}

/// Errors of the peer-to-peer network layer.
#[derive(Debug)]
pub enum NetworkError {
    ConnectionFailed(String),
    PeerNotFound(String),
    NatTraversalFailed,
    Timeout,
}

impl NetworkError {
    /// The text of the error message.
    pub open spec fn message_spec(&self) -> Seq<char> {
        match self {
            NetworkError::ConnectionFailed(s) => "Connection failed: "@ + s@,
            NetworkError::PeerNotFound(s) => "Peer not found: "@ + s@,
            NetworkError::NatTraversalFailed => "NAT traversal failed"@,
            NetworkError::Timeout => "Timeout"@,
        }
    }

    /// Renders the error message.
    pub fn to_string(&self) -> (res: String)
        ensures
            res@ == self.message_spec(),
    {
        match self {
            NetworkError::ConnectionFailed(s) => prefixed("Connection failed: ", s),
            NetworkError::PeerNotFound(s) => prefixed("Peer not found: ", s),
            NetworkError::NatTraversalFailed => string_of("NAT traversal failed"),
            NetworkError::Timeout => string_of("Timeout"),
        }
    }
}
/// Errors of local storage.
#[derive(Debug)]
pub enum StorageError {
    DatabaseError(String),
    NotFound(String),
    MigrationFailed(String),
}

impl StorageError {
    /// The text of the error message.
    pub open spec fn message_spec(&self) -> Seq<char> {
        match self {
            StorageError::DatabaseError(s) => "Database error: "@ + s@,
            StorageError::NotFound(s) => "Not found: "@ + s@,
            StorageError::MigrationFailed(s) => "Migration failed: "@ + s@,
        }
    }

    /// Renders the error message.
    pub fn to_string(&self) -> (res: String)
        ensures
            res@ == self.message_spec(),
    {
        match self {
            StorageError::DatabaseError(s) => prefixed("Database error: ", s),
            StorageError::NotFound(s) => prefixed("Not found: ", s),
            StorageError::MigrationFailed(s) => prefixed("Migration failed: ", s),
        }
    }
}
/// Errors of end-to-end sessions.
#[derive(Debug)]
pub enum CryptoError {
    SessionNotFound,
    EncryptionFailed(String),
    DecryptionFailed(String),
    InvalidMessageFormat,
}

impl CryptoError {
    /// The text of the error message.
    pub open spec fn message_spec(&self) -> Seq<char> {
        match self {
            CryptoError::SessionNotFound => "Session not found"@,
            CryptoError::EncryptionFailed(s) => "Encryption failed: "@ + s@,
            CryptoError::DecryptionFailed(s) => "Decryption failed: "@ + s@,
            CryptoError::InvalidMessageFormat => "Invalid message format"@,
        }
    }

    /// Renders the error message.
    pub fn to_string(&self) -> (res: String)
        ensures
            res@ == self.message_spec(),
    {
        match self {
            CryptoError::SessionNotFound => string_of("Session not found"),
            CryptoError::EncryptionFailed(s) => prefixed("Encryption failed: ", s),
            CryptoError::DecryptionFailed(s) => prefixed("Decryption failed: ", s),
            CryptoError::InvalidMessageFormat => string_of("Invalid message format"),
        }
    }
}
/// Errors of the client API.
#[derive(Debug)]
pub enum ApiError {
    NotInitialized,
    NetworkError(String),
    CryptoError(String),
    StorageError(String),
}

impl ApiError {
    /// The text of the error message.
    pub open spec fn message_spec(&self) -> Seq<char> {
        match self {
            ApiError::NotInitialized => "Client not initialized"@,
            ApiError::NetworkError(s) => "Network error: "@ + s@,
            ApiError::CryptoError(s) => "Crypto error: "@ + s@,
            ApiError::StorageError(s) => "Storage error: "@ + s@,
        }
    }

    /// Renders the error message.
    pub fn to_string(&self) -> (res: String)
        ensures
            res@ == self.message_spec(),
    {
        match self {
            ApiError::NotInitialized => string_of("Client not initialized"),
            ApiError::NetworkError(s) => prefixed("Network error: ", s),
            ApiError::CryptoError(s) => prefixed("Crypto error: ", s),
            ApiError::StorageError(s) => prefixed("Storage error: ", s),
        }
    }
}
/// Errors of multi-device synchronisation.
#[derive(Debug)]
pub enum SyncError {
    SyncFailed(String),
    DeviceNotLinked,
    ConflictResolutionFailed,
}

impl SyncError {
    /// The text of the error message.
    pub open spec fn message_spec(&self) -> Seq<char> {
        match self {
            SyncError::SyncFailed(s) => "Sync failed: "@ + s@,
            SyncError::DeviceNotLinked => "Device not linked"@,
            SyncError::ConflictResolutionFailed => "Conflict resolution failed"@,
        }
    }

    /// Renders the error message.
    pub fn to_string(&self) -> (res: String)
        ensures
            res@ == self.message_spec(),
    {
        match self {
            SyncError::SyncFailed(s) => prefixed("Sync failed: ", s),
            SyncError::DeviceNotLinked => string_of("Device not linked"),
            SyncError::ConflictResolutionFailed => string_of("Conflict resolution failed"),
        }
    }
}
/// Errors of voice and video calls.
#[derive(Debug)]
pub enum VoipError {
    CallSetupFailed(String),
    WebRtcError(String),
    CodecError(String),
    SignalingError(String),
    NetworkError(String),
    InvalidState(String),
}

impl VoipError {
    /// The text of the error message.
    pub open spec fn message_spec(&self) -> Seq<char> {
        match self {
            VoipError::CallSetupFailed(s) => "Call setup failed: "@ + s@,
            VoipError::WebRtcError(s) => "WebRTC error: "@ + s@,
            VoipError::CodecError(s) => "Codec error: "@ + s@,
            VoipError::SignalingError(s) => "Signaling error: "@ + s@,
            VoipError::NetworkError(s) => "Network error: "@ + s@,
            VoipError::InvalidState(s) => "Invalid state: "@ + s@,
        }
    }

    /// Renders the error message.
    pub fn to_string(&self) -> (res: String)
        ensures
            res@ == self.message_spec(),
    {
        match self {
            VoipError::CallSetupFailed(s) => prefixed("Call setup failed: ", s),
            VoipError::WebRtcError(s) => prefixed("WebRTC error: ", s),
            VoipError::CodecError(s) => prefixed("Codec error: ", s),
            VoipError::SignalingError(s) => prefixed("Signaling error: ", s),
            VoipError::NetworkError(s) => prefixed("Network error: ", s),
            VoipError::InvalidState(s) => prefixed("Invalid state: ", s),
        }
    }
}
/// Error type handed across the foreign-function boundary.
#[derive(Debug)]
pub enum MePassaFfiError {
    Identity { message: String },
    Crypto { message: String },
    Network { message: String },
    Storage { message: String },
    Protocol { message: String },
    Io { message: String },
    Other { message: String },
}

impl MePassaFfiError {
    /// The text of the error message.
    pub open spec fn message_spec(&self) -> Seq<char> {
        match self {
            MePassaFfiError::Identity { message } => "Identity error: "@ + message@,
            MePassaFfiError::Crypto { message } => "Crypto error: "@ + message@,
            MePassaFfiError::Network { message } => "Network error: "@ + message@,
            MePassaFfiError::Storage { message } => "Storage error: "@ + message@,
            MePassaFfiError::Protocol { message } => "Protocol error: "@ + message@,
            MePassaFfiError::Io { message } => "IO error: "@ + message@,
            MePassaFfiError::Other { message } => "Other error: "@ + message@,
        }
    }

    /// Renders the error message.
    pub fn to_string(&self) -> (res: String)
        ensures
            res@ == self.message_spec(),
    {
        match self {
            MePassaFfiError::Identity { message } => prefixed("Identity error: ", message),
            MePassaFfiError::Crypto { message } => prefixed("Crypto error: ", message),
            MePassaFfiError::Network { message } => prefixed("Network error: ", message),
            MePassaFfiError::Storage { message } => prefixed("Storage error: ", message),
            MePassaFfiError::Protocol { message } => prefixed("Protocol error: ", message),
            MePassaFfiError::Io { message } => prefixed("IO error: ", message),
            MePassaFfiError::Other { message } => prefixed("Other error: ", message),
        }
    }
}
/// `std::io::Error`, carried by `MePassaError::Io`.
#[verifier::external_type_specification]
#[verifier::external_body]
pub struct ExIoError(std::io::Error);

/// Main error type.
#[derive(Debug)]
pub enum MePassaError {
    Identity(String),
    Crypto(String),
    Network(String),
    Storage(String),
    Protocol(String),
    NotFound(String),
    Permission(String),
    AlreadyExists(String),
    Io(std::io::Error),
    Other(String),
}

impl MePassaError {
    /// The prefix of the error message; the rest is the carried text.
    pub open spec fn message_prefix(&self) -> Seq<char> {
        match self {
            MePassaError::Identity(_) => "Identity error: "@,
            MePassaError::Crypto(_) => "Crypto error: "@,
            MePassaError::Network(_) => "Network error: "@,
            MePassaError::Storage(_) => "Storage error: "@,
            MePassaError::Protocol(_) => "Protocol error: "@,
            MePassaError::NotFound(_) => "Not found: "@,
            MePassaError::Permission(_) => "Permission denied: "@,
            MePassaError::AlreadyExists(_) => "Already exists: "@,
            MePassaError::Io(_) => "IO error: "@,
            MePassaError::Other(_) => "Other error: "@,
        }
    }

    /// The carried text of every variant but `Io`.
    pub open spec fn detail(&self) -> Seq<char> {
        match self {
            MePassaError::Identity(s) => s@,
            MePassaError::Crypto(s) => s@,
            MePassaError::Network(s) => s@,
            MePassaError::Storage(s) => s@,
            MePassaError::Protocol(s) => s@,
            MePassaError::NotFound(s) => s@,
            MePassaError::Permission(s) => s@,
            MePassaError::AlreadyExists(s) => s@,
            MePassaError::Io(_) => Seq::empty(),
            MePassaError::Other(s) => s@,
        }
    }

    /// Renders the error message. For `Io` the rest of the text is the
    /// display text of the I/O error.
    pub fn to_string(&self) -> (res: String)
        ensures
            !(self is Io) ==> res@ == self.message_prefix() + self.detail(),
            self matches MePassaError::Io(e) ==> exists|t: String|
                vstd::string::to_string_from_display_ensures(e, t) && res@ == self.message_prefix() + t@,
    {
        match self {
            MePassaError::Identity(s) => prefixed("Identity error: ", s),
            MePassaError::Crypto(s) => prefixed("Crypto error: ", s),
            MePassaError::Network(s) => prefixed("Network error: ", s),
            MePassaError::Storage(s) => prefixed("Storage error: ", s),
            MePassaError::Protocol(s) => prefixed("Protocol error: ", s),
            MePassaError::NotFound(s) => prefixed("Not found: ", s),
            MePassaError::Permission(s) => prefixed("Permission denied: ", s),
            MePassaError::AlreadyExists(s) => prefixed("Already exists: ", s),
            MePassaError::Io(e) => {
                let t = e.to_string();
                prefixed("IO error: ", &t)
            },
            MePassaError::Other(s) => prefixed("Other error: ", s),
        }
    }
}

impl From<NetworkError> for MePassaError {
    fn from(err: NetworkError) -> (res: MePassaError)
        ensures
            res matches MePassaError::Network(s) && s@ == err.message_spec(),
    {
        MePassaError::Network(err.to_string())
    }
}

impl vstd::std_specs::convert::FromSpecImpl<NetworkError> for MePassaError {
    /// A `String` is not determined by its text, so the conversion is
    /// described by the ensures of `from` rather than by this function.
    open spec fn obeys_from_spec() -> bool {
        false
    }

    open spec fn from_spec(v: NetworkError) -> MePassaError {
        MePassaError::Network(choose|s: String| s@ == v.message_spec())
    }
}

impl From<StorageError> for MePassaError {
    fn from(err: StorageError) -> (res: MePassaError)
        ensures
            res matches MePassaError::Storage(s) && s@ == err.message_spec(),
    {
        MePassaError::Storage(err.to_string())
    }
}

impl vstd::std_specs::convert::FromSpecImpl<StorageError> for MePassaError {
    /// A `String` is not determined by its text, so the conversion is
    /// described by the ensures of `from` rather than by this function.
    open spec fn obeys_from_spec() -> bool {
        false
    }

    open spec fn from_spec(v: StorageError) -> MePassaError {
        MePassaError::Storage(choose|s: String| s@ == v.message_spec())
    }
}

/// The FFI error that a core error becomes: the five domain variants keep
/// their text, `NotFound`, `Permission` and `AlreadyExists` become `Other`
/// with a prefix naming them, and `Io` keeps the display text of the I/O
/// error (left open here).
pub open spec fn ffi_error_spec(err: MePassaError, res: MePassaFfiError) -> bool {
    match err {
        MePassaError::Identity(s) => res matches MePassaFfiError::Identity { message } && message@ == s@,
        MePassaError::Crypto(s) => res matches MePassaFfiError::Crypto { message } && message@ == s@,
        MePassaError::Network(s) => res matches MePassaFfiError::Network { message } && message@ == s@,
        MePassaError::Storage(s) => res matches MePassaFfiError::Storage { message } && message@ == s@,
        MePassaError::Protocol(s) => res matches MePassaFfiError::Protocol { message } && message@ == s@,
        MePassaError::NotFound(s) => res matches MePassaFfiError::Other { message }
            && message@ == "Not found: "@ + s@,
        MePassaError::Permission(s) => res matches MePassaFfiError::Other { message }
            && message@ == "Permission denied: "@ + s@,
        MePassaError::AlreadyExists(s) => res matches MePassaFfiError::Other { message }
            && message@ == "Already exists: "@ + s@,
        MePassaError::Io(e) => res matches MePassaFfiError::Io { message }
            && vstd::string::to_string_from_display_ensures(&e, message),
        MePassaError::Other(s) => res matches MePassaFfiError::Other { message } && message@ == s@,
    }
}

impl From<MePassaError> for MePassaFfiError {
    fn from(err: MePassaError) -> (res: MePassaFfiError)
        ensures
            ffi_error_spec(err, res),
    {
        match err {
            MePassaError::Identity(s) => MePassaFfiError::Identity { message: s },
            MePassaError::Crypto(s) => MePassaFfiError::Crypto { message: s },
            MePassaError::Network(s) => MePassaFfiError::Network { message: s },
            MePassaError::Storage(s) => MePassaFfiError::Storage { message: s },
            MePassaError::Protocol(s) => MePassaFfiError::Protocol { message: s },
            MePassaError::NotFound(s) => MePassaFfiError::Other { message: prefixed("Not found: ", &s) },
            MePassaError::Permission(s) => MePassaFfiError::Other {
                message: prefixed("Permission denied: ", &s),
            },
            MePassaError::AlreadyExists(s) => MePassaFfiError::Other {
                message: prefixed("Already exists: ", &s),
            },
            MePassaError::Io(e) => MePassaFfiError::Io { message: e.to_string() },
            MePassaError::Other(s) => MePassaFfiError::Other { message: s },
        }
    }
}

impl vstd::std_specs::convert::FromSpecImpl<MePassaError> for MePassaFfiError {
    /// A `String` is not determined by its text, so the conversion is
    /// described by the ensures of `from` rather than by this function.
    open spec fn obeys_from_spec() -> bool {
        false
    }

    open spec fn from_spec(v: MePassaError) -> MePassaFfiError {
        choose|r: MePassaFfiError| ffi_error_spec(v, r)
    }
}

} // verus!
