//! X25519 prekeys for the X3DH key agreement, and the pool that signs,
//! hands out and replenishes them.

use vstd::prelude::*;
use std::collections::HashMap;
use vstd::std_specs::iter::IteratorSpec;
use crate::error::MePassaError;
use crate::primitives::{
    ed25519_public, ed25519_sign, ed25519_signature, ed25519_verifying_key, random_x25519_secret,
    x25519_dh, x25519_public, x25519_public_key, x25519_shared_secret,
};
use crate::signal::secrets_match_bundle;
use crate::text::{decimal_chars, push_decimal_str, string_of};

verus! {

/// One-time prekey as published in a bundle.
#[derive(Debug, Clone)]
pub struct OneTimePreKey {
    pub id: u32,
    pub public_key: [u8; 32],
}

/// Prekey bundle sent to peers for key exchange (no secret keys).
#[derive(Debug, Clone)]
pub struct PreKeyBundle {
    /// Identity key (Ed25519 verifying key).
    pub identity_key: [u8; 32],
    pub signed_prekey_id: u32,
    /// Signed prekey public bytes.
    pub signed_prekey: [u8; 32],
    /// Signature of the identity key over the signed prekey.
    pub signed_prekey_signature: [u8; 64],
    /// One-time prekey, consumed after use.
    pub one_time_prekey: Option<OneTimePreKey>,
}

/// Text of the error for a secret key of the wrong length.
pub open spec fn invalid_prekey_length_message(len: nat) -> Seq<char> {
    "Invalid prekey length: expected 32 bytes, got "@ + decimal_chars(len)
}

/// A single X25519 prekey: an ID, the secret key and its public key.
#[derive(Clone)]
pub struct PreKey {
    /// Unique ID of this prekey.
    pub id: u32,
    secret: [u8; 32],
    public: [u8; 32],
}

impl PreKey {
    /// The ID.
    pub closed spec fn id_view(&self) -> u32 {
        self.id
    }

    /// The secret key bytes.
    pub closed spec fn secret_view(&self) -> Seq<u8> {
        self.secret@
    }

    /// The public key bytes.
    pub closed spec fn public_view(&self) -> Seq<u8> {
        self.public@
    }

    /// The public key is the X25519 public key of the secret, and it
    /// agrees with every other secret: the other secret combined with this
    /// public key gives what this secret gives with the other's public key.
    pub open spec fn wf(&self) -> bool {
        &&& self.secret_view().len() == 32
        &&& self.public_view() == x25519_public(self.secret_view())
        &&& forall|other: Seq<u8>|
            #![trigger x25519_dh(other, self.public_view())]
            other.len() == 32 ==> x25519_dh(other, self.public_view()) == x25519_dh(
                self.secret_view(),
                x25519_public(other),
            )
    }

    /// The ID.
    pub fn id(&self) -> (res: u32)
        ensures
            res == self.id_view(),
    {
        self.id
    }

    /// Generates a prekey with a random secret.
    pub fn generate(id: u32) -> (res: Self)
        ensures
            res.id_view() == id,
            res.wf(),
    {
        let secret = random_x25519_secret();
        let public = x25519_public_key(&secret);
        Self { id, secret, public }
    }

    /// Creates a prekey from a 32-byte secret. Any other length is refused.
    pub fn from_bytes(id: u32, bytes: &[u8]) -> (res: Result<Self, MePassaError>)
        ensures
            res is Ok <==> bytes@.len() == 32,
            res matches Ok(k) ==> k.id_view() == id && k.wf() && k.secret_view() == bytes@,
            res matches Err(e) ==> e matches MePassaError::Identity(s) && s@
                == invalid_prekey_length_message(bytes@.len()),
    {
        if bytes.len() != 32 {
            let mut msg = string_of("Invalid prekey length: expected 32 bytes, got ");
            push_decimal_str(&mut msg, bytes.len() as u64);
            return Err(MePassaError::Identity(msg));
        }
        let mut secret = [0u8; 32];
        let mut i: usize = 0;
        while i < 32
            invariant
                i <= 32,
                bytes@.len() == 32,
                forall|j: int| 0 <= j < i ==> secret@[j] == bytes@[j],
            decreases 32 - i,
        {
            secret[i] = bytes[i];
            i = i + 1;
        }
        assert(secret@ =~= bytes@);
        let public = x25519_public_key(&secret);
        Ok(Self { id, secret, public })
    }

    /// The secret key bytes.
    pub fn secret_bytes(&self) -> (res: [u8; 32])
        ensures
            res@ == self.secret_view(),
    {
        self.secret
    }

    /// The public key bytes.
    pub fn public_bytes(&self) -> (res: [u8; 32])
        ensures
            res@ == self.public_view(),
    {
        self.public
    }

    /// X25519 key agreement with another party's public key.
    pub fn diffie_hellman(&self, their_public: &[u8; 32]) -> (res: [u8; 32])
        ensures
            res@ == x25519_dh(self.secret_view(), their_public@),
    {
        x25519_shared_secret(&self.secret, their_public)
    }
}

/// Law: two prekeys agree on a shared secret. Each one's
/// `diffie_hellman` with the other's public key gives the same bytes.
pub proof fn law_prekey_agreement(a: PreKey, b: PreKey)
    requires
        a.wf(),
        b.wf(),
    ensures
        x25519_dh(a.secret_view(), b.public_view()) == x25519_dh(b.secret_view(), a.public_view()),
{
    assert(x25519_dh(a.secret_view(), b.public_view()) == x25519_dh(
        b.secret_view(),
        x25519_public(a.secret_view()),
    ));
}

/// Pool of prekeys of one identity: a signed prekey with the identity's
/// signature over its public key, one-time prekeys by ID, and the next ID
/// to assign. IDs are handed out in increasing order and never reused.
#[derive(Clone)]
pub struct PreKeyPool {
    identity_seed: [u8; 32],
    signed_prekey: PreKey,
    signed_prekey_signature: [u8; 64],
    one_time_prekeys: HashMap<u32, PreKey>,
    next_prekey_id: u32,
}

impl PreKeyPool {
    /// The seed of the identity's Ed25519 signing key.
    pub closed spec fn identity_seed_view(&self) -> Seq<u8> {
        self.identity_seed@
    }

    /// The current signed prekey.
    pub closed spec fn signed_prekey_view(&self) -> PreKey {
        self.signed_prekey
    }

    /// The signature over the signed prekey.
    pub closed spec fn signature_view(&self) -> Seq<u8> {
        self.signed_prekey_signature@
    }

    /// The one-time prekeys by ID.
    pub closed spec fn one_time_view(&self) -> Map<u32, PreKey> {
        self.one_time_prekeys@
    }

    /// The next ID to assign.
    pub closed spec fn next_id(&self) -> u32 {
        self.next_prekey_id
    }

    /// Invariant: the signature is the identity's signature over the signed
    /// prekey; every prekey is well formed; every one-time prekey is stored
    /// under its own ID; every ID in use is below the next ID.
    pub open spec fn wf(&self) -> bool {
        &&& self.identity_seed_view().len() == 32
        &&& self.signed_prekey_view().wf()
        &&& self.signature_view() == ed25519_signature(
            self.identity_seed_view(),
            self.signed_prekey_view().public_view(),
        )
        &&& self.signed_prekey_view().id_view() < self.next_id()
        &&& self.one_time_view().dom().finite()
        &&& forall|id: u32| #[trigger]
            self.one_time_view().contains_key(id) ==> self.one_time_view()[id].id_view() == id
                && self.one_time_view()[id].wf() && id < self.next_id()
    }

    /// Creates a pool for an identity (given by its Ed25519 seed): signed
    /// prekey 1, signed by the identity, and `pool_size` one-time prekeys
    /// with IDs 2, 3, and so on.
    pub fn new(identity_seed: [u8; 32], pool_size: usize) -> (res: Self)
        requires
            pool_size + 2 <= u32::MAX,
        ensures
            res.wf(),
            res.identity_seed_view() == identity_seed@,
            res.signed_prekey_view().id_view() == 1,
            res.one_time_view().len() == pool_size,
            res.one_time_view().dom() == Set::new(|id: u32| 2 <= id < 2 + pool_size),
            res.next_id() == 2 + pool_size,
    {
        broadcast use vstd::std_specs::hash::group_hash_axioms;
        let signed_prekey = PreKey::generate(1);
        let public = signed_prekey.public_bytes();
        let signed_prekey_signature = ed25519_sign(&identity_seed, &public);
        let mut pool = Self {
            identity_seed,
            signed_prekey,
            signed_prekey_signature,
            one_time_prekeys: HashMap::new(),
            next_prekey_id: 2,
        };
        assert(pool.one_time_view().dom() =~= Set::empty());
        pool.replenish_prekeys(pool_size);
        assert(pool.one_time_view().dom() =~= Set::new(|id: u32| 2 <= id < 2 + pool_size));
        pool
    }

    /// The current signed prekey.
    pub fn signed_prekey(&self) -> (res: &PreKey)
        ensures
            *res == self.signed_prekey_view(),
    {
        &self.signed_prekey
    }

    /// The signature over the signed prekey.
    pub fn signed_prekey_signature(&self) -> (res: [u8; 64])
        ensures
            res@ == self.signature_view(),
    {
        self.signed_prekey_signature
    }

    /// Generates one-time prekeys with fresh IDs until the pool holds
    /// `target_count` of them; a pool that holds as many or more is left
    /// as it is.
    pub fn replenish_prekeys(&mut self, target_count: usize)
        requires
            old(self).wf(),
            old(self).one_time_view().len() >= target_count || old(self).next_id() + (target_count
                - old(self).one_time_view().len()) <= u32::MAX,
        ensures
            final(self).wf(),
            old(self).one_time_view().len() >= target_count ==> *final(self) == *old(self),
            old(self).one_time_view().len() < target_count ==> {
                let k = target_count - old(self).one_time_view().len();
                &&& final(self).one_time_view().len() == target_count
                &&& final(self).next_id() == old(self).next_id() + k
                &&& final(self).one_time_view().dom() == old(self).one_time_view().dom().union(
                    Set::new(|id: u32| old(self).next_id() <= id < old(self).next_id() + k),
                )
                &&& forall|id: u32| #[trigger]
                    old(self).one_time_view().contains_key(id) ==> final(self).one_time_view()[id]
                        == old(self).one_time_view()[id]
            },
            final(self).identity_seed_view() == old(self).identity_seed_view(),
            final(self).signed_prekey_view() == old(self).signed_prekey_view(),
            final(self).signature_view() == old(self).signature_view(),
    {
        broadcast use vstd::std_specs::hash::group_hash_axioms;
        let current_count = self.one_time_prekeys.len();
        if current_count >= target_count {
            return;
        }
        let to_generate = target_count - current_count;
        let ghost start = self.next_prekey_id;
        let ghost old_map = self.one_time_prekeys@;
        let mut n: usize = 0;
        while n < to_generate
            invariant
                n <= to_generate,
                to_generate == target_count - old_map.len(),
                start + to_generate <= u32::MAX,
                self.next_prekey_id == start + n,
                self.wf(),
                self.one_time_prekeys@.len() == old_map.len() + n,
                self.one_time_prekeys@.dom() == old_map.dom().union(
                    Set::new(|id: u32| start <= id < start + n),
                ),
                forall|id: u32| #[trigger] old_map.contains_key(id) ==> self.one_time_prekeys@[id] == old_map[id],
                forall|id: u32| #[trigger] old_map.contains_key(id) ==> id < start,
                self.identity_seed == old(self).identity_seed,
                self.signed_prekey == old(self).signed_prekey,
                self.signed_prekey_signature == old(self).signed_prekey_signature,
            decreases to_generate - n,
        {
            let ghost before = *self;
            let id = self.next_prekey_id;
            self.next_prekey_id = self.next_prekey_id + 1;
            let prekey = PreKey::generate(id);
            assert(!self.one_time_prekeys@.contains_key(id));
            let ghost pk = prekey;
            self.one_time_prekeys.insert(id, prekey);
            assert(self.one_time_prekeys@ == before.one_time_prekeys@.insert(id, pk));
            n = n + 1;
            assert forall|x: u32| #[trigger] self.one_time_view().contains_key(x) implies self.one_time_view()[x].id_view() == x
                && self.one_time_view()[x].wf() && x < self.next_id() by {
                if x != id {
                    assert(before.one_time_view().contains_key(x));
                    assert(self.one_time_view()[x] == before.one_time_view()[x]);
                } else {
                    assert(self.one_time_view()[x] == pk);
                }
            }
            assert(self.one_time_prekeys@.dom() =~= old_map.dom().union(
                Set::new(|x: u32| start <= x < start + n),
            ));
        }
    }

    /// Takes one one-time prekey (whichever the map yields first) out of
    /// the pool; `None` when the pool is empty.
    fn consume_one_time_prekey(&mut self) -> (res: Option<PreKey>)
        requires
            old(self).wf(),
        ensures
            final(self).wf(),
            res is None <==> old(self).one_time_view().len() == 0,
            res is None ==> *final(self) == *old(self),
            res matches Some(k) ==> {
                &&& old(self).one_time_view().contains_key(k.id_view())
                &&& old(self).one_time_view()[k.id_view()] == k
                &&& final(self).one_time_view() == old(self).one_time_view().remove(k.id_view())
            },
            final(self).identity_seed_view() == old(self).identity_seed_view(),
            final(self).signed_prekey_view() == old(self).signed_prekey_view(),
            final(self).signature_view() == old(self).signature_view(),
            final(self).next_id() == old(self).next_id(),
    {
        broadcast use vstd::std_specs::hash::group_hash_axioms;
        if self.one_time_prekeys.is_empty() {
            assert(self.one_time_prekeys@.dom() =~= Set::empty());
            return None;
        }
        let mut found: Option<u32> = None;
        proof {
            let r = vstd::std_specs::hash::spec_keys_iter(&self.one_time_prekeys).remaining();
            assert(r.len() == self.one_time_prekeys@.dom().len());
        }
        for k in it: self.one_time_prekeys.keys()
            invariant_except_break
                found is None,
                it.index() == 0,
            invariant
                it.seq().len() > 0,
            ensures
                found is Some,
                found matches Some(i) ==> self.one_time_prekeys@.contains_key(i),
        {
            proof {
                let r = it.seq();
                assert(r.unref().to_set().contains(*k));
            }
            found = Some(*k);
            break;
        }
        let id = match found {
            Some(i) => i,
            None => {
                return None;
            },
        };
        assert(self.one_time_prekeys@.contains_key(id));
        let ghost before = *self;
        let removed = self.one_time_prekeys.remove(&id);
        proof {
            assert forall|x: u32| #[trigger] self.one_time_view().contains_key(x) implies self.one_time_view()[x].id_view() == x
                && self.one_time_view()[x].wf() && x < self.next_id() by {
                assert(before.one_time_view().contains_key(x));
            }
        }
        removed
    }

    /// Builds a prekey bundle for key exchange, consuming one one-time
    /// prekey when the pool has any. The holder of the pool's secrets
    /// matches the bundle: the signed prekey secret gives its signed prekey
    /// and the consumed one-time prekey's secret its one-time prekey.
    pub fn get_bundle(&mut self) -> (res: PreKeyBundle)
        requires
            old(self).wf(),
        ensures
            final(self).wf(),
            res.identity_key@ == ed25519_public(old(self).identity_seed_view()),
            res.signed_prekey_id == old(self).signed_prekey_view().id_view(),
            res.signed_prekey@ == old(self).signed_prekey_view().public_view(),
            res.signed_prekey_signature@ == old(self).signature_view(),
            res.one_time_prekey is None <==> old(self).one_time_view().len() == 0,
            res.one_time_prekey is None ==> *final(self) == *old(self),
            res.one_time_prekey matches Some(k) ==> {
                &&& old(self).one_time_view().contains_key(k.id)
                &&& k.public_key@ == old(self).one_time_view()[k.id].public_view()
                &&& final(self).one_time_view() == old(self).one_time_view().remove(k.id)
                &&& final(self).one_time_view().len() == old(self).one_time_view().len() - 1
            },
            secrets_match_bundle(
                res,
                old(self).signed_prekey_view().secret_view(),
                match res.one_time_prekey {
                    Some(k) => Some(old(self).one_time_view()[k.id].secret_view()),
                    None => None,
                },
            ),
            final(self).identity_seed_view() == old(self).identity_seed_view(),
            final(self).signed_prekey_view() == old(self).signed_prekey_view(),
            final(self).signature_view() == old(self).signature_view(),
            final(self).next_id() == old(self).next_id(),
    {
        let one_time = self.consume_one_time_prekey();
        proof {
            if one_time is Some {
                old(self).one_time_view().lemma_remove_key_len(one_time->0.id_view());
            }
        }
        let one_time_prekey = match one_time {
            Some(pk) => Some(OneTimePreKey { id: pk.id, public_key: pk.public_bytes() }),
            None => None,
        };
        PreKeyBundle {
            identity_key: ed25519_verifying_key(&self.identity_seed),
            signed_prekey_id: self.signed_prekey.id,
            signed_prekey: self.signed_prekey.public_bytes(),
            signed_prekey_signature: self.signed_prekey_signature,
            one_time_prekey,
        }
    }

    /// The one-time prekey with an ID, without consuming it.
    pub fn get_prekey(&self, id: u32) -> (res: Option<&PreKey>)
        ensures
            res is Some <==> self.one_time_view().contains_key(id),
            res matches Some(k) ==> *k == self.one_time_view()[id],
    {
        broadcast use vstd::std_specs::hash::group_hash_axioms;
        self.one_time_prekeys.get(&id)
    }

    /// Removes the one-time prekey with an ID after use.
    pub fn remove_prekey(&mut self, id: u32) -> (res: Option<PreKey>)
        requires
            old(self).wf(),
        ensures
            final(self).wf(),
            res is Some <==> old(self).one_time_view().contains_key(id),
            res matches Some(k) ==> k == old(self).one_time_view()[id],
            final(self).one_time_view() == old(self).one_time_view().remove(id),
            final(self).one_time_view().len() == if res is Some {
                old(self).one_time_view().len() - 1
            } else {
                old(self).one_time_view().len() as int
            },
            final(self).identity_seed_view() == old(self).identity_seed_view(),
            final(self).signed_prekey_view() == old(self).signed_prekey_view(),
            final(self).signature_view() == old(self).signature_view(),
            final(self).next_id() == old(self).next_id(),
    {
        broadcast use vstd::std_specs::hash::group_hash_axioms;
        let ghost before = *self;
        proof {
            if self.one_time_view().contains_key(id) {
                self.one_time_view().lemma_remove_key_len(id);
            } else {
                assert(self.one_time_view().remove(id) =~= self.one_time_view());
            }
        }
        let removed = self.one_time_prekeys.remove(&id);
        proof {
            assert forall|x: u32| #[trigger] self.one_time_view().contains_key(x) implies self.one_time_view()[x].id_view() == x
                && self.one_time_view()[x].wf() && x < self.next_id() by {
                assert(before.one_time_view().contains_key(x));
            }
        }
        removed
    }

    /// Replaces the signed prekey by a new one with the next ID, signed by
    /// the identity. The one-time prekeys stay as they are.
    pub fn rotate_signed_prekey(&mut self)
        requires
            old(self).wf(),
            old(self).next_id() < u32::MAX,
        ensures
            final(self).wf(),
            final(self).signed_prekey_view().id_view() == old(self).next_id(),
            final(self).next_id() == old(self).next_id() + 1,
            final(self).one_time_view() == old(self).one_time_view(),
            final(self).identity_seed_view() == old(self).identity_seed_view(),
    {
        let ghost before = *self;
        let new_id = self.next_prekey_id;
        self.next_prekey_id = self.next_prekey_id + 1;
        self.signed_prekey = PreKey::generate(new_id);
        let public = self.signed_prekey.public_bytes();
        self.signed_prekey_signature = ed25519_sign(&self.identity_seed, &public);
        proof {
            assert forall|x: u32| #[trigger] self.one_time_view().contains_key(x) implies self.one_time_view()[x].id_view() == x
                && self.one_time_view()[x].wf() && x < self.next_id() by {
                assert(before.one_time_view().contains_key(x));
            }
        }
    }

    /// Number of one-time prekeys in the pool.
    pub fn prekey_count(&self) -> (res: usize)
        ensures
            res == self.one_time_view().len(),
    {
        broadcast use vstd::std_specs::hash::group_hash_axioms;
        self.one_time_prekeys.len()
    }

    /// Whether the pool has fallen below 20 one-time prekeys.
    pub fn needs_replenishment(&self) -> (res: bool)
        ensures
            res == (self.one_time_view().len() < 20),
    {
        self.prekey_count() < 20
    }
}

} // verus!
