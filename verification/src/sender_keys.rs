//! Sender keys for group messaging: each member holds one sender key per
//! group that it ratchets with every message, and a store indexed by group
//! and sender.

use vstd::prelude::*;
use crate::error::MePassaError;
use crate::primitives::random_bytes32;
use crate::text::{str_eq, string_of};

verus! {

/// Byte that the ratchet step mixes into position `i` of the chain key at
/// iteration `iteration`: the low bytes of both, added with wrap-around.
pub open spec fn ratchet_pad(iteration: u32, i: int) -> u8 {
    (((iteration as int) % 256 + i % 256) % 256) as u8
}

/// The chain key after one ratchet step at iteration `iteration`.
pub open spec fn ratcheted(chain_key: Seq<u8>, iteration: u32) -> Seq<u8> {
    Seq::new(chain_key.len(), |i: int| chain_key[i] ^ ratchet_pad(iteration, i))
}

/// The part of a sender key that messages advance: its chain key and
/// iteration.
pub struct ChainState {
    pub chain_key: Seq<u8>,
    pub iteration: u32,
}

/// The state after sending a message: the iteration advances and the chain
/// key is ratcheted at the new iteration.
pub open spec fn state_after_send(s: ChainState) -> ChainState {
    let it = (s.iteration + 1) as u32;
    ChainState { chain_key: ratcheted(s.chain_key, it), iteration: it }
}

/// The state after receiving a message sent at `iteration`: adopted and
/// ratcheted once when it is ahead, unchanged otherwise.
pub open spec fn state_after_receive(s: ChainState, iteration: u32) -> ChainState {
    if iteration > s.iteration {
        ChainState { chain_key: ratcheted(s.chain_key, iteration), iteration }
    } else {
        s
    }
}

/// Law: a receiver holding the same sender key as the sender is still in
/// step with it after the sender sends a message and the receiver receives
/// it at the iteration it was sent with.
pub proof fn law_receiver_follows_sender(s: ChainState)
    requires
        s.iteration < u32::MAX,
    ensures
        state_after_receive(s, state_after_send(s).iteration) == state_after_send(s),
{
}

/// Law: a receiver catches up with a sender however far ahead it is: a
/// message sent at any later iteration sets the key to that iteration, and
/// each byte of the chain key is mixed, once, with that iteration's low
/// byte plus its position; a message at an iteration not ahead of the key
/// leaves it as it is.
pub proof fn law_receive_catches_up(s: ChainState, iteration: u32)
    ensures
        iteration > s.iteration ==> {
            let after = state_after_receive(s, iteration);
            &&& after.iteration == iteration
            &&& after.chain_key.len() == s.chain_key.len()
            &&& forall|i: int|
                0 <= i < s.chain_key.len() ==> after.chain_key[i] == s.chain_key[i] ^ (((iteration
                    % 256) + (i % 256)) % 256) as u8
        },
        iteration <= s.iteration ==> state_after_receive(s, iteration) == s,
{
}

/// Law: receiving the same message twice changes nothing the second time.
pub proof fn law_receive_is_idempotent(s: ChainState, iteration: u32)
    ensures
        state_after_receive(state_after_receive(s, iteration), iteration) == state_after_receive(
            s,
            iteration,
        ),
{
}

/// Sender key of one group member.
#[derive(Debug, Clone)]
pub struct SenderKey {
    /// Group ID.
    pub group_id: String,
    /// Sender peer ID.
    pub sender_peer_id: String,
    /// Chain key, ratcheted forward for each message.
    pub chain_key: Vec<u8>,
    /// Message counter.
    pub iteration: u32,
    /// Public signing key (all zeros: signing is not in use).
    pub signing_key: Vec<u8>,
}

impl SenderKey {
    /// The chain key and iteration of this key.
    pub open spec fn chain_state(&self) -> ChainState {
        ChainState { chain_key: self.chain_key@, iteration: self.iteration }
    }

    /// Generates a sender key with a random 32-byte chain key, iteration 0
    /// and a zero signing key.
    pub fn generate(group_id: String, sender_peer_id: String) -> (res: Result<Self, MePassaError>)
        ensures
            res is Ok,
            res matches Ok(k) ==> {
                &&& k.group_id == group_id
                &&& k.sender_peer_id == sender_peer_id
                &&& k.chain_key@.len() == 32
                &&& k.iteration == 0
                &&& k.signing_key@ == Seq::new(32, |i: int| 0u8)
            },
    {
        let random = random_bytes32();
        let mut chain_key: Vec<u8> = Vec::new();
        let mut signing_key: Vec<u8> = Vec::new();
        let mut i: usize = 0;
        while i < 32
            invariant
                i <= 32,
                chain_key@.len() == i,
                signing_key@ =~= Seq::new(i as nat, |j: int| 0u8),
            decreases 32 - i,
        {
            chain_key.push(random[i]);
            signing_key.push(0u8);
            i = i + 1;
        }
        Ok(Self { group_id, sender_peer_id, chain_key, iteration: 0, signing_key })
    }

    /// Encrypts a message: advances the iteration, ratchets the chain key,
    /// and returns the plaintext unchanged (group messages are not
    /// encrypted end to end yet).
    pub fn encrypt(&mut self, plaintext: &[u8]) -> (res: Result<Vec<u8>, MePassaError>)
        requires
            old(self).iteration < u32::MAX,
        ensures
            res matches Ok(c) && c@ == plaintext@,
            final(self).chain_state() == state_after_send(old(self).chain_state()),
            final(self).group_id == old(self).group_id,
            final(self).sender_peer_id == old(self).sender_peer_id,
            final(self).signing_key == old(self).signing_key,
    {
        self.iteration = self.iteration + 1;
        self.ratchet_forward();
        Ok(copy_bytes(plaintext))
    }

    /// Decrypts a message sent at `iteration`: when that iteration is ahead
    /// of ours, adopts it and ratchets once. Returns the ciphertext unchanged.
    pub fn decrypt(&mut self, ciphertext: &[u8], iteration: u32) -> (res: Result<Vec<u8>, MePassaError>)
        ensures
            res matches Ok(p) && p@ == ciphertext@,
            final(self).chain_state() == state_after_receive(old(self).chain_state(), iteration),
            iteration <= old(self).iteration ==> *final(self) == *old(self),
            final(self).group_id == old(self).group_id,
            final(self).sender_peer_id == old(self).sender_peer_id,
            final(self).signing_key == old(self).signing_key,
    {
        if iteration > self.iteration {
            self.iteration = iteration;
            self.ratchet_forward();
        }
        Ok(copy_bytes(ciphertext))
    }

    /// Ratchets the chain key: every byte is mixed with the current
    /// iteration and its position.
    fn ratchet_forward(&mut self)
        ensures
            final(self).chain_key@ == ratcheted(old(self).chain_key@, old(self).iteration),
            final(self).iteration == old(self).iteration,
            final(self).group_id == old(self).group_id,
            final(self).sender_peer_id == old(self).sender_peer_id,
            final(self).signing_key == old(self).signing_key,
    {
        let ghost old_key = self.chain_key@;
        let it: u8 = self.iteration as u8;
        let n = self.chain_key.len();
        let mut i: usize = 0;
        while i < n
            invariant
                n == old_key.len(),
                self.chain_key@.len() == n,
                i <= n,
                it == self.iteration as u8,
                self.iteration == old(self).iteration,
                self.group_id == old(self).group_id,
                self.sender_peer_id == old(self).sender_peer_id,
                self.signing_key == old(self).signing_key,
                forall|j: int| 0 <= j < i ==> self.chain_key@[j] == old_key[j] ^ ratchet_pad(self.iteration, j),
                forall|j: int| i <= j < n ==> self.chain_key@[j] == old_key[j],
            decreases n - i,
        {
            let pad: u8 = it.wrapping_add(i as u8);
            proof {
                let itr = self.iteration;
                let ii = i;
                assert(((itr as u8) as u32) == itr % 256) by (bit_vector);
                assert(((ii as u8) as usize) == ii % 256) by (bit_vector);
            }
            assert(pad == ratchet_pad(self.iteration, i as int));
            let b = self.chain_key[i];
            self.chain_key.set(i, b ^ pad);
            i = i + 1;
        }
        assert(self.chain_key@ =~= ratcheted(old_key, self.iteration));
    }
}

/// A fresh vector with the bytes of a slice.
pub fn copy_bytes(s: &[u8]) -> (res: Vec<u8>)
    ensures
        res@ == s@,
{
    let mut v: Vec<u8> = Vec::new();
    v.extend_from_slice(s);
    assert(v@ =~= s@);
    v
}

/// The (group, sender) index of a sender key.
pub open spec fn index_of(k: SenderKey) -> (Seq<char>, Seq<char>) {
    (k.group_id@, k.sender_peer_id@)
}

/// An entry of the store: the index it is stored under, and the key.
pub type KeyEntry = (String, String, SenderKey);

/// The index an entry is stored under.
pub open spec fn entry_ix(e: KeyEntry) -> (Seq<char>, Seq<char>) {
    (e.0@, e.1@)
}

/// No index occurs twice among the entries.
pub open spec fn unique_indices(s: Seq<KeyEntry>) -> bool {
    forall|i: int, j: int|
        0 <= i < s.len() && 0 <= j < s.len() && i != j ==> entry_ix(s[i]) != entry_ix(s[j])
}

/// The entries as a map from index to key.
pub open spec fn entries_map(s: Seq<KeyEntry>) -> Map<(Seq<char>, Seq<char>), SenderKey> {
    Map::new(
        |ix: (Seq<char>, Seq<char>)| exists|i: int| 0 <= i < s.len() && entry_ix(s[i]) == ix,
        |ix: (Seq<char>, Seq<char>)| s[choose|i: int| 0 <= i < s.len() && entry_ix(s[i]) == ix].2,
    )
}

/// With unique indices, entry `i` is what the map holds at its index.
proof fn lemma_map_at(s: Seq<KeyEntry>, i: int)
    requires
        unique_indices(s),
        0 <= i < s.len(),
    ensures
        entries_map(s).contains_key(entry_ix(s[i])),
        entries_map(s)[entry_ix(s[i])] == s[i].2,
{
    let ix = entry_ix(s[i]);
    assert(exists|k: int| 0 <= k < s.len() && entry_ix(s[k]) == ix);
    let j = choose|k: int| 0 <= k < s.len() && entry_ix(s[k]) == ix;
    assert(j == i);
}

/// Replacing entry `i` by an entry under the same index replaces its key
/// in the map.
proof fn lemma_map_replace(s: Seq<KeyEntry>, i: int, e: KeyEntry)
    requires
        unique_indices(s),
        0 <= i < s.len(),
        entry_ix(e) == entry_ix(s[i]),
    ensures
        unique_indices(s.update(i, e)),
        entries_map(s.update(i, e)) == entries_map(s).insert(entry_ix(e), e.2),
{
    let s1 = s.update(i, e);
    let ix = entry_ix(e);
    assert(forall|a: int| 0 <= a < s1.len() ==> entry_ix(s1[a]) == entry_ix(s[a]));
    assert forall|x: (Seq<char>, Seq<char>)|
        entries_map(s1).contains_key(x) <==> entries_map(s).insert(ix, e.2).contains_key(x) by {
        if entries_map(s1).contains_key(x) {
            let j = choose|j: int| 0 <= j < s1.len() && entry_ix(s1[j]) == x;
            assert(entry_ix(s[j]) == x);
        }
        if entries_map(s).contains_key(x) {
            let j = choose|j: int| 0 <= j < s.len() && entry_ix(s[j]) == x;
            assert(entry_ix(s1[j]) == x);
        }
        if x == ix {
            assert(entry_ix(s1[i]) == x);
        }
    }
    assert forall|x: (Seq<char>, Seq<char>)| #[trigger] entries_map(s1).contains_key(x)
        implies entries_map(s1)[x] == entries_map(s).insert(ix, e.2)[x] by {
        let j = choose|j: int| 0 <= j < s1.len() && entry_ix(s1[j]) == x;
        lemma_map_at(s1, j);
        if j != i {
            lemma_map_at(s, j);
        }
    }
    assert(entries_map(s1) =~= entries_map(s).insert(ix, e.2));
}

/// Replacing the key of entry `i` replaces it in the map, whatever the new key.
proof fn lemma_map_update(s: Seq<KeyEntry>, i: int)
    requires
        unique_indices(s),
        0 <= i < s.len(),
    ensures
        forall|v: SenderKey|
            #[trigger] entries_map(s.update(i, (s[i].0, s[i].1, v))) == entries_map(s).insert(
                entry_ix(s[i]),
                v,
            ),
{
    assert forall|v: SenderKey|
        #[trigger] entries_map(s.update(i, (s[i].0, s[i].1, v))) == entries_map(s).insert(
            entry_ix(s[i]),
            v,
        ) by {
        lemma_map_replace(s, i, (s[i].0, s[i].1, v));
    }
}

/// The indices of one group's senders.
pub open spec fn group_indices(group_id: Seq<char>) -> Set<(Seq<char>, Seq<char>)> {
    Set::new(|ix: (Seq<char>, Seq<char>)| ix.0 == group_id)
}

/// Law: reading an index right after a key was stored gives that key when
/// the index is the key's own, and what it gave before otherwise.
pub proof fn law_get_after_store(
    before: Map<(Seq<char>, Seq<char>), SenderKey>,
    key: SenderKey,
    ix: (Seq<char>, Seq<char>),
)
    ensures
        ({
            let after = before.insert(index_of(key), key);
            &&& ix == index_of(key) ==> after.contains_key(ix) && after[ix] == key
            &&& ix != index_of(key) ==> (after.contains_key(ix) == before.contains_key(ix) && (
            before.contains_key(ix) ==> after[ix] == before[ix]))
        }),
{
}

/// Law: after a group is removed, none of its senders has a key, and the
/// keys of other groups read as before.
pub proof fn law_get_after_remove_group(
    before: Map<(Seq<char>, Seq<char>), SenderKey>,
    group_id: Seq<char>,
    ix: (Seq<char>, Seq<char>),
)
    ensures
        ({
            let after = before.remove_keys(group_indices(group_id));
            &&& ix.0 == group_id ==> !after.contains_key(ix)
            &&& ix.0 != group_id ==> (after.contains_key(ix) == before.contains_key(ix) && (
            before.contains_key(ix) ==> after[ix] == before[ix]))
        }),
{
}

/// Store of sender keys indexed by group ID and sender peer ID.
pub struct SenderKeyStore {
    entries: Vec<KeyEntry>,
}

impl SenderKeyStore {
    /// Well-formedness: no index occurs twice.
    pub closed spec fn wf(self) -> bool {
        unique_indices(self.entries@)
    }

    /// The stored keys as a map from (group, sender) to key.
    pub closed spec fn view(self) -> Map<(Seq<char>, Seq<char>), SenderKey> {
        entries_map(self.entries@)
    }

    /// Creates an empty store.
    pub fn new() -> (res: Self)
        ensures
            res.wf(),
            res@ == Map::<(Seq<char>, Seq<char>), SenderKey>::empty(),
    {
        let res = Self { entries: Vec::new() };
        assert(res@ =~= Map::<(Seq<char>, Seq<char>), SenderKey>::empty());
        res
    }

    /// Position of the entry for a group and sender.
    fn find(&self, group_id: &str, sender_peer_id: &str) -> (res: Option<usize>)
        ensures
            res matches Some(i) ==> i < self.entries@.len() && entry_ix(self.entries@[i as int]) == (
                group_id@,
                sender_peer_id@,
            ),
            res is None ==> forall|i: int|
                0 <= i < self.entries@.len() ==> entry_ix(self.entries@[i]) != (
                    group_id@,
                    sender_peer_id@,
                ),
    {
        let mut i: usize = 0;
        while i < self.entries.len()
            invariant
                i <= self.entries@.len(),
                forall|j: int|
                    0 <= j < i ==> entry_ix(self.entries@[j]) != (group_id@, sender_peer_id@),
            decreases self.entries@.len() - i,
        {
            if str_eq(self.entries[i].0.as_str(), group_id) && str_eq(
                self.entries[i].1.as_str(),
                sender_peer_id,
            ) {
                return Some(i);
            }
            i = i + 1;
        }
        None
    }

    /// Stores a sender key under its group and sender, replacing the key
    /// stored there before.
    pub fn store_key(&mut self, key: SenderKey)
        requires
            old(self).wf(),
        ensures
            final(self).wf(),
            final(self)@ == old(self)@.insert(index_of(key), key),
    {
        let ghost k0 = key;
        let ghost ix = index_of(k0);
        let ghost s0 = self.entries@;
        match self.find(key.group_id.as_str(), key.sender_peer_id.as_str()) {
            Some(i) => {
                let g = self.entries[i].0.clone();
                let p = self.entries[i].1.clone();
                self.entries.set(i, (g, p, key));
                proof {
                    lemma_map_replace(s0, i as int, self.entries@[i as int]);
                    assert(self.entries@ =~= s0.update(i as int, self.entries@[i as int]));
                }
            },
            None => {
                let g = key.group_id.clone();
                let p = key.sender_peer_id.clone();
                self.entries.push((g, p, key));
                proof {
                    let s1 = self.entries@;
                    let n = s0.len() as int;
                    assert(forall|a: int| 0 <= a < n ==> entry_ix(s1[a]) == entry_ix(s0[a]));
                    assert(entry_ix(s1[n]) == ix);
                    assert forall|x: (Seq<char>, Seq<char>)|
                        entries_map(s1).contains_key(x) <==> entries_map(s0).insert(ix, k0).contains_key(x) by {
                        if entries_map(s1).contains_key(x) {
                            let j = choose|j: int| 0 <= j < s1.len() && entry_ix(s1[j]) == x;
                            if j < n {
                                assert(entry_ix(s0[j]) == x);
                            }
                        }
                        if entries_map(s0).contains_key(x) {
                            let j = choose|j: int| 0 <= j < s0.len() && entry_ix(s0[j]) == x;
                            assert(entry_ix(s1[j]) == x);
                        }
                    }
                    assert forall|x: (Seq<char>, Seq<char>)| #[trigger] entries_map(s1).contains_key(x)
                        implies entries_map(s1)[x] == entries_map(s0).insert(ix, k0)[x] by {
                        let j = choose|j: int| 0 <= j < s1.len() && entry_ix(s1[j]) == x;
                        lemma_map_at(s1, j);
                        if j != n {
                            lemma_map_at(s0, j);
                        }
                    }
                    assert(entries_map(s1) =~= entries_map(s0).insert(ix, k0));
                }
            },
        }
    }

    /// The key stored for a group and sender, if any.
    pub fn get_key(&self, group_id: &str, sender_peer_id: &str) -> (res: Option<&SenderKey>)
        requires
            self.wf(),
        ensures
            res matches Some(k) ==> self@.contains_key((group_id@, sender_peer_id@)) && *k == self@[(
                group_id@,
                sender_peer_id@,
            )],
            res is None ==> !self@.contains_key((group_id@, sender_peer_id@)),
    {
        match self.find(group_id, sender_peer_id) {
            Some(i) => {
                proof {
                    lemma_map_at(self.entries@, i as int);
                }
                Some(&self.entries[i].2)
            },
            None => None,
        }
    }

    /// A mutable borrow of the key stored for a group and sender, if any.
    /// What the borrow leaves behind is stored under the same index.
    pub fn get_key_mut(&mut self, group_id: &str, sender_peer_id: &str) -> (res: Option<&mut SenderKey>)
        requires
            old(self).wf(),
        ensures
            final(self).wf(),
            res is Some <==> old(self)@.contains_key((group_id@, sender_peer_id@)),
            res matches Some(k) ==> *k == old(self)@[(group_id@, sender_peer_id@)] && final(self)@
                == old(self)@.insert((group_id@, sender_peer_id@), *final(k)),
            res is None ==> *final(self) == *old(self),
    {
        let ghost s0 = self.entries@;
        match self.find(group_id, sender_peer_id) {
            Some(i) => {
                proof {
                    lemma_map_at(s0, i as int);
                    lemma_map_update(s0, i as int);
                }
                let entry = &mut self.entries[i];
                Some(&mut entry.2)
            },
            None => None,
        }
    }

    /// Removes the keys of every sender of a group.
    pub fn remove_group(&mut self, group_id: &str)
        requires
            old(self).wf(),
        ensures
            final(self).wf(),
            final(self)@ == old(self)@.remove_keys(group_indices(group_id@)),
    {
        let ghost s0 = self.entries@;
        let ghost n = s0.len();
        let mut rest: Vec<KeyEntry> = Vec::new();
        std::mem::swap(&mut rest, &mut self.entries);
        let mut kept: Vec<KeyEntry> = Vec::new();
        let ghost mut origin: Seq<int> = Seq::empty();
        while rest.len() > 0
            invariant
                unique_indices(s0),
                n == s0.len(),
                rest@.len() <= n,
                rest@ == s0.subrange(0, rest@.len() as int),
                origin.len() == kept@.len(),
                forall|k: int|
                    0 <= k < origin.len() ==> rest@.len() <= #[trigger] origin[k] < n && kept@[k]
                        == s0[origin[k]] && entry_ix(s0[origin[k]]).0 != group_id@,
                forall|k: int, l: int| 0 <= k < l < origin.len() ==> origin[k] > origin[l],
                forall|j: int|
                    rest@.len() <= j < n && entry_ix(s0[j]).0 != group_id@ ==> exists|k: int|
                        0 <= k < origin.len() && #[trigger] origin[k] == j,
            decreases rest@.len(),
        {
            let ghost r = rest@.len() as int;
            let ghost old_origin = origin;
            assert(rest@[r - 1] == s0[r - 1]);
            match rest.pop() {
                Some(e) => {
                    assert(e == s0[r - 1]);
                    if !str_eq(e.0.as_str(), group_id) {
                        kept.push(e);
                        proof {
                            origin = origin.push(r - 1);
                            assert forall|j: int|
                                rest@.len() <= j < n && entry_ix(s0[j]).0 != group_id@
                                implies exists|k: int| 0 <= k < origin.len() && #[trigger] origin[k] == j by {
                                if j == r - 1 {
                                    assert(origin[origin.len() - 1] == j);
                                } else {
                                    let k = choose|k: int| 0 <= k < old_origin.len() && #[trigger] old_origin[k] == j;
                                    assert(origin[k] == j);
                                }
                            }
                        }
                    }
                    assert(rest@ =~= s0.subrange(0, rest@.len() as int));
                },
                None => {},
            }
        }
        self.entries = kept;
        proof {
            let s1 = self.entries@;
            assert forall|a: int, b: int| 0 <= a < s1.len() && 0 <= b < s1.len() && a != b
                implies entry_ix(s1[a]) != entry_ix(s1[b]) by {
                assert(origin[a] != origin[b]);
            }
            let gone = Set::new(|ix: (Seq<char>, Seq<char>)| ix.0 == group_id@);
            let target = entries_map(s0).remove_keys(gone);
            assert forall|x: (Seq<char>, Seq<char>)|
                entries_map(s1).contains_key(x) <==> target.contains_key(x) by {
                if entries_map(s1).contains_key(x) {
                    let j = choose|j: int| 0 <= j < s1.len() && entry_ix(s1[j]) == x;
                    assert(entry_ix(s0[origin[j]]) == x);
                }
                if target.contains_key(x) {
                    let j = choose|j: int| 0 <= j < s0.len() && entry_ix(s0[j]) == x;
                    let k = choose|k: int| 0 <= k < origin.len() && #[trigger] origin[k] == j;
                    assert(entry_ix(s1[k]) == x);
                }
            }
            assert forall|x: (Seq<char>, Seq<char>)| #[trigger] entries_map(s1).contains_key(x)
                implies entries_map(s1)[x] == target[x] by {
                let j = choose|j: int| 0 <= j < s1.len() && entry_ix(s1[j]) == x;
                lemma_map_at(s1, j);
                lemma_map_at(s0, origin[j]);
            }
            assert(entries_map(s1) =~= target);
        }
    }
}

impl Default for SenderKeyStore {
    fn default() -> (res: Self)
        ensures
            res.wf(),
            res@ == Map::<(Seq<char>, Seq<char>), SenderKey>::empty(),
    {
        Self::new()
    }
}

} // verus!
