//! Verified core of a hybrid peer-to-peer messenger: end-to-end
//! encryption primitives (X3DH, a symmetric ratchet, sender keys),
//! prekey management, media and call configuration, and the small
//! decision rules of its servers.

pub mod text;
pub mod error;
pub mod primitives;
pub mod prekeys;
pub mod signal;
pub mod ratchet;
pub mod storage_crypto;
pub mod sender_keys;
pub mod media;
pub mod video;
pub mod ffi_types;
pub mod protocol;
pub mod server;
pub mod registration;
pub mod identity_storage;
pub mod migrations;
pub mod message_handling;
pub mod turn;
pub mod client_setup;
pub mod playback;
pub mod call_signaling;
pub mod call_registry;

use vstd::prelude::*;

verus! {

/// Version of the library.
pub const VERSION: &'static str = "0.1.0";

} // verus!
