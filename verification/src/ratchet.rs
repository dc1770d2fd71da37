//! A simplified symmetric ratchet for forward secrecy. Two chain keys are
//! derived from a root key (the X3DH shared secret); every message is
//! encrypted under a key derived from the current chain key and message
//! number, after which the chain key is replaced by its HKDF successor.
//! The initiator sends on the chain that the responder receives on.

use vstd::prelude::*;
use vstd::string::StringSliceAdditionalSpecFns;
use crate::error::MePassaError;
use crate::primitives::{aes256gcm_open, aes_gcm_max_plaintext, hkdf_sha256_expand32, hkdf_sha256_okm32};
use crate::signal::{decrypt_message, encrypt_message, is_crypto_error, seals, EncryptedMessage};
use crate::text::{decimal_ascii, push_decimal_bytes, string_of};

verus! {

/// Salt of the chain-key derivation from the root key.
pub open spec fn root_salt() -> Seq<u8> {
    "mepassa-ratchet-v1".spec_bytes()
}

/// Salt of the message-key derivation.
pub open spec fn message_key_salt() -> Seq<u8> {
    "mepassa-message-key-v1".spec_bytes()
}

/// Salt of the chain-key ratchet step.
pub open spec fn chain_ratchet_salt() -> Seq<u8> {
    "mepassa-chain-ratchet-v1".spec_bytes()
}

/// The first chain key of a root key (the initiator's sending chain).
pub open spec fn first_chain_key(root: Seq<u8>) -> Seq<u8> {
    hkdf_sha256_okm32(root_salt(), root, "sending-chain".spec_bytes())
}

/// The second chain key of a root key (the initiator's receiving chain).
pub open spec fn second_chain_key(root: Seq<u8>) -> Seq<u8> {
    hkdf_sha256_okm32(root_salt(), root, "receiving-chain".spec_bytes())
}

/// HKDF info of the key of message number `counter`: `message-` and the decimal number.
pub open spec fn message_key_info(counter: nat) -> Seq<u8> {
    "message-".spec_bytes() + decimal_ascii(counter)
}

/// Key of message number `counter` on a chain.
pub open spec fn message_key(chain_key: Seq<u8>, counter: nat) -> Seq<u8> {
    hkdf_sha256_okm32(message_key_salt(), chain_key, message_key_info(counter))
}

/// Successor of a chain key.
pub open spec fn next_chain_key(chain_key: Seq<u8>) -> Seq<u8> {
    hkdf_sha256_okm32(chain_ratchet_salt(), chain_key, "next-chain".spec_bytes())
}

/// Ratchet state of one session: root key, both chain keys and both
/// message counters.
#[derive(Debug, Clone)]
pub struct RatchetState {
    /// Root key (the X3DH shared secret).
    pub root_key: [u8; 32],
    /// Sending chain key, ratcheted after each sent message.
    pub sending_chain_key: [u8; 32],
    /// Receiving chain key, ratcheted after each received message.
    pub receiving_chain_key: [u8; 32],
    /// Number of messages sent.
    pub sending_counter: u64,
    /// Number of messages received.
    pub receiving_counter: u64,
}

impl RatchetState {
    /// Whether this is the state that `new(root, is_initiator)` creates:
    /// the initiator sends on the first chain and receives on the second,
    /// the responder the other way round, with both counters at zero.
    pub open spec fn is_initial(self, root: Seq<u8>, is_initiator: bool) -> bool {
        &&& self.root_key@ == root
        &&& self.sending_counter == 0
        &&& self.receiving_counter == 0
        &&& if is_initiator {
            self.sending_chain_key@ == first_chain_key(root) && self.receiving_chain_key@
                == second_chain_key(root)
        } else {
            self.sending_chain_key@ == second_chain_key(root) && self.receiving_chain_key@
                == first_chain_key(root)
        }
    }

    /// Key of the next message this state sends.
    pub open spec fn sending_message_key(self) -> Seq<u8> {
        message_key(self.sending_chain_key@, self.sending_counter as nat)
    }

    /// Key of the next message this state receives.
    pub open spec fn receiving_message_key(self) -> Seq<u8> {
        message_key(self.receiving_chain_key@, self.receiving_counter as nat)
    }

    /// `next` is `self` after one step of the sending chain.
    pub open spec fn sent_one(self, next: RatchetState) -> bool {
        &&& next.root_key == self.root_key
        &&& next.sending_chain_key@ == next_chain_key(self.sending_chain_key@)
        &&& next.sending_counter == self.sending_counter + 1
        &&& next.receiving_chain_key == self.receiving_chain_key
        &&& next.receiving_counter == self.receiving_counter
    }

    /// `next` is `self` after one step of the receiving chain.
    pub open spec fn received_one(self, next: RatchetState) -> bool {
        &&& next.root_key == self.root_key
        &&& next.receiving_chain_key@ == next_chain_key(self.receiving_chain_key@)
        &&& next.receiving_counter == self.receiving_counter + 1
        &&& next.sending_chain_key == self.sending_chain_key
        &&& next.sending_counter == self.sending_counter
    }

    /// Creates the ratchet state of a session from its root key.
    /// `is_initiator` is true for the party that initiated X3DH, so that
    /// its sending chain is the other party's receiving chain.
    pub fn new(root_key: [u8; 32], is_initiator: bool) -> (res: Result<Self, MePassaError>)
        ensures
            res is Ok,
            res matches Ok(s) ==> s.is_initial(root_key@, is_initiator),
    {
        let (chain_key_0, chain_key_1) = Self::derive_chain_keys(&root_key)?;
        let (sending_chain_key, receiving_chain_key) = if is_initiator {
            (chain_key_0, chain_key_1)
        } else {
            (chain_key_1, chain_key_0)
        };
        Ok(Self {
            root_key,
            sending_chain_key,
            receiving_chain_key,
            sending_counter: 0,
            receiving_counter: 0,
        })
    }

    /// Derives the two chain keys of a root key.
    fn derive_chain_keys(root_key: &[u8; 32]) -> (res: Result<([u8; 32], [u8; 32]), MePassaError>)
        ensures
            res is Ok,
            res matches Ok(k) ==> k.0@ == first_chain_key(root_key@) && k.1@ == second_chain_key(
                root_key@,
            ),
    {
        let first = match hkdf_sha256_expand32(
            "mepassa-ratchet-v1".as_bytes(),
            root_key,
            "sending-chain".as_bytes(),
        ) {
            Ok(k) => k,
            Err(_) => { return Err(MePassaError::Crypto(string_of("HKDF expand failed"))); },
        };
        let second = match hkdf_sha256_expand32(
            "mepassa-ratchet-v1".as_bytes(),
            root_key,
            "receiving-chain".as_bytes(),
        ) {
            Ok(k) => k,
            Err(_) => { return Err(MePassaError::Crypto(string_of("HKDF expand failed"))); },
        };
        Ok((first, second))
    }

    /// Derives the key of message number `counter` from a chain key.
    pub fn derive_message_key(chain_key: &[u8; 32], counter: u64) -> (res: Result<[u8; 32], MePassaError>)
        ensures
            res is Ok,
            res matches Ok(k) ==> k@ == message_key(chain_key@, counter as nat),
    {
        let mut info: Vec<u8> = Vec::new();
        let prefix = "message-".as_bytes();
        info.extend_from_slice(prefix);
        assert(info@ =~= "message-".spec_bytes());
        push_decimal_bytes(&mut info, counter);
        assert(info@ =~= message_key_info(counter as nat));
        match hkdf_sha256_expand32("mepassa-message-key-v1".as_bytes(), chain_key, info.as_slice()) {
            Ok(k) => Ok(k),
            Err(_) => Err(MePassaError::Crypto(string_of("HKDF expand failed"))),
        }
    }

    /// The successor of a chain key.
    fn ratchet_chain_key(chain_key: &[u8; 32]) -> (res: Result<[u8; 32], MePassaError>)
        ensures
            res is Ok,
            res matches Ok(k) ==> k@ == next_chain_key(chain_key@),
    {
        match hkdf_sha256_expand32(
            "mepassa-chain-ratchet-v1".as_bytes(),
            chain_key,
            "next-chain".as_bytes(),
        ) {
            Ok(k) => Ok(k),
            Err(_) => Err(MePassaError::Crypto(string_of("HKDF expand failed"))),
        }
    }

    /// Ratchets the sending chain forward by one message.
    fn ratchet_sending_chain(&mut self) -> (res: Result<(), MePassaError>)
        requires
            old(self).sending_counter < u64::MAX,
        ensures
            res is Ok,
            old(self).sent_one(*final(self)),
    {
        let next = Self::ratchet_chain_key(&self.sending_chain_key)?;
        self.sending_chain_key = next;
        self.sending_counter = self.sending_counter + 1;
        Ok(())
    }

    /// Ratchets the receiving chain forward by one message.
    fn ratchet_receiving_chain(&mut self) -> (res: Result<(), MePassaError>)
        requires
            old(self).receiving_counter < u64::MAX,
        ensures
            res is Ok,
            old(self).received_one(*final(self)),
    {
        let next = Self::ratchet_chain_key(&self.receiving_chain_key)?;
        self.receiving_chain_key = next;
        self.receiving_counter = self.receiving_counter + 1;
        Ok(())
    }

    /// Encrypts a message under the current sending message key and then
    /// ratchets the sending chain. Fails, leaving the state unchanged,
    /// exactly when the plaintext exceeds the AES-GCM limit.
    pub fn encrypt(&mut self, plaintext: &[u8]) -> (res: Result<EncryptedMessage, MePassaError>)
        requires
            old(self).sending_counter < u64::MAX,
        ensures
            res is Ok <==> plaintext@.len() <= aes_gcm_max_plaintext(),
            res matches Ok(m) ==> seals(old(self).sending_message_key(), m, plaintext@)
                && old(self).sent_one(*final(self)),
            res matches Err(e) ==> *final(self) == *old(self) && is_crypto_error(
                e,
                "Encryption failed: aead::Error"@,
            ),
    {
        let message_key = Self::derive_message_key(&self.sending_chain_key, self.sending_counter)?;
        let encrypted = encrypt_message(plaintext, &message_key)?;
        self.ratchet_sending_chain()?;
        Ok(encrypted)
    }

    /// Decrypts a message under the current receiving message key and then
    /// ratchets the receiving chain. A message that the paired sender
    /// encrypted gives its plaintext back; a message that does not
    /// authenticate is refused and leaves the state unchanged.
    pub fn decrypt(&mut self, encrypted: &EncryptedMessage) -> (res: Result<Vec<u8>, MePassaError>)
        requires
            old(self).receiving_counter < u64::MAX,
        ensures
            res matches Ok(p) ==> aes256gcm_open(
                old(self).receiving_message_key(),
                encrypted.nonce@,
                encrypted.ciphertext@,
            ) == Some(p@) && old(self).received_one(*final(self)),
            res matches Err(e) ==> aes256gcm_open(
                old(self).receiving_message_key(),
                encrypted.nonce@,
                encrypted.ciphertext@,
            ) is None && *final(self) == *old(self) && is_crypto_error(
                e,
                "Decryption failed: aead::Error"@,
            ),
            forall|p: Seq<u8>|
                #[trigger] seals(old(self).receiving_message_key(), *encrypted, p) ==> res is Ok
                    && res->Ok_0@ == p,
    {
        let message_key = Self::derive_message_key(&self.receiving_chain_key, self.receiving_counter)?;
        let plaintext = decrypt_message(encrypted, &message_key)?;
        self.ratchet_receiving_chain()?;
        Ok(plaintext)
    }

    /// The sending and receiving counters.
    pub fn counters(&self) -> (res: (u64, u64))
        ensures
            res == (self.sending_counter, self.receiving_counter),
    {
        (self.sending_counter, self.receiving_counter)
    }
}

/// Whether `receiver` receives what `sender` sends next: it stands on the
/// same chain key at the same message number.
pub open spec fn paired(sender: RatchetState, receiver: RatchetState) -> bool {
    &&& sender.sending_chain_key@ == receiver.receiving_chain_key@
    &&& sender.sending_counter == receiver.receiving_counter
}

/// Two sessions created from one root key, one as initiator and one as
/// responder, are paired in both directions.
pub proof fn lemma_fresh_sessions_paired(root: Seq<u8>, initiator: RatchetState, responder: RatchetState)
    requires
        initiator.is_initial(root, true),
        responder.is_initial(root, false),
    ensures
        paired(initiator, responder),
        paired(responder, initiator),
{
}

/// Pairing survives an exchange: after the sender sends one message and
/// the receiver receives one, the two are still paired.
pub proof fn lemma_pairing_survives_exchange(
    sender: RatchetState,
    sender_after: RatchetState,
    receiver: RatchetState,
    receiver_after: RatchetState,
)
    requires
        paired(sender, receiver),
        sender.sent_one(sender_after),
        receiver.received_one(receiver_after),
    ensures
        paired(sender_after, receiver_after),
{
}

/// What the sender of a paired pair encrypts, the receiver decrypts: a
/// message sealed under the sender's next message key is sealed under the
/// receiver's next message key, so `decrypt` returns its plaintext.
pub proof fn lemma_paired_sessions_roundtrip(
    sender: RatchetState,
    receiver: RatchetState,
    message: EncryptedMessage,
    plaintext: Seq<u8>,
)
    requires
        paired(sender, receiver),
        seals(sender.sending_message_key(), message, plaintext),
    ensures
        seals(receiver.receiving_message_key(), message, plaintext),
{
}

/// A run of `n` exchanges: the sender sends `n` messages, one step of its
/// sending chain each, sealing `plaintexts[i]` into `messages[i]`, and the
/// receiver receives them in the same order, one step of its receiving
/// chain each.
pub open spec fn exchange_run(
    senders: Seq<RatchetState>,
    receivers: Seq<RatchetState>,
    messages: Seq<EncryptedMessage>,
    plaintexts: Seq<Seq<u8>>,
) -> bool {
    &&& senders.len() == messages.len() + 1
    &&& receivers.len() == messages.len() + 1
    &&& plaintexts.len() == messages.len()
    &&& forall|i: int|
        0 <= i < messages.len() ==> #[trigger] senders[i].sent_one(senders[i + 1])
            && receivers[i].received_one(receivers[i + 1])
    &&& forall|i: int|
        0 <= i < messages.len() ==> seals(
            senders[i].sending_message_key(),
            #[trigger] messages[i],
            plaintexts[i],
        )
}

proof fn lemma_run_prefix_paired(
    senders: Seq<RatchetState>,
    receivers: Seq<RatchetState>,
    messages: Seq<EncryptedMessage>,
    plaintexts: Seq<Seq<u8>>,
    k: int,
)
    requires
        exchange_run(senders, receivers, messages, plaintexts),
        paired(senders[0], receivers[0]),
        0 <= k <= messages.len(),
    ensures
        paired(senders[k], receivers[k]),
        senders[k].sending_counter == senders[0].sending_counter + k,
        receivers[k].receiving_counter == receivers[0].receiving_counter + k,
    decreases k,
{
    if k > 0 {
        lemma_run_prefix_paired(senders, receivers, messages, plaintexts, k - 1);
        let j = k - 1;
        assert(senders[j].sent_one(senders[j + 1]) && receivers[j].received_one(receivers[j + 1]));
        assert(j + 1 == k);
        lemma_pairing_survives_exchange(senders[j], senders[k], receivers[j], receivers[k]);
    }
}

/// Law: sessions that start paired stay paired over any run of exchanges,
/// so the receiver opens every message in the order it was sent: message
/// `i` is sealed under the receiver's key at that point, which is what
/// `decrypt` needs to give back `plaintexts[i]`. Both counters advance by
/// the number of messages.
pub proof fn law_paired_sessions_in_order(
    senders: Seq<RatchetState>,
    receivers: Seq<RatchetState>,
    messages: Seq<EncryptedMessage>,
    plaintexts: Seq<Seq<u8>>,
)
    requires
        exchange_run(senders, receivers, messages, plaintexts),
        paired(senders[0], receivers[0]),
    ensures
        forall|i: int| 0 <= i <= messages.len() ==> #[trigger] paired(senders[i], receivers[i]),
        forall|i: int|
            0 <= i < messages.len() ==> seals(
                receivers[i].receiving_message_key(),
                #[trigger] messages[i],
                plaintexts[i],
            ),
        senders[messages.len() as int].sending_counter == senders[0].sending_counter
            + messages.len(),
        receivers[messages.len() as int].receiving_counter == receivers[0].receiving_counter
            + messages.len(),
{
    assert forall|i: int| 0 <= i <= messages.len() implies #[trigger] paired(
        senders[i],
        receivers[i],
    ) by {
        lemma_run_prefix_paired(senders, receivers, messages, plaintexts, i);
    }
    assert forall|i: int| 0 <= i < messages.len() implies seals(
        receivers[i].receiving_message_key(),
        #[trigger] messages[i],
        plaintexts[i],
    ) by {
        lemma_run_prefix_paired(senders, receivers, messages, plaintexts, i);
    }
    lemma_run_prefix_paired(senders, receivers, messages, plaintexts, messages.len() as int);
}

/// Law: two sessions created from one root key, as initiator and as
/// responder, open a run of the initiator's messages in order, and after
/// `n` messages both counters stand at `n`.
pub proof fn law_fresh_sessions_in_order(
    root: Seq<u8>,
    senders: Seq<RatchetState>,
    receivers: Seq<RatchetState>,
    messages: Seq<EncryptedMessage>,
    plaintexts: Seq<Seq<u8>>,
)
    requires
        senders.len() > 0 && receivers.len() > 0,
        senders[0].is_initial(root, true),
        receivers[0].is_initial(root, false),
        exchange_run(senders, receivers, messages, plaintexts),
    ensures
        forall|i: int|
            0 <= i < messages.len() ==> seals(
                receivers[i].receiving_message_key(),
                #[trigger] messages[i],
                plaintexts[i],
            ),
        senders[messages.len() as int].sending_counter == messages.len(),
        receivers[messages.len() as int].receiving_counter == messages.len(),
{
    lemma_fresh_sessions_paired(root, senders[0], receivers[0]);
    law_paired_sessions_in_order(senders, receivers, messages, plaintexts);
}

} // verus!
