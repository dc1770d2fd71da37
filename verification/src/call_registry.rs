//! The call manager's bookkeeping of its calls: the state of every active
//! call by its ID. An outgoing call starts as initiating, an accepted or
//! answered call becomes connecting, and an ended call leaves the registry.
//! The WebRTC connections themselves are the caller's part.

use vstd::prelude::*;
use crate::ffi_types::FfiCallState;
use crate::text::{str_eq, string_of};

verus! {

/// An entry: a call ID and the call's state.
pub type CallEntry = (String, FfiCallState);

/// No call ID occurs twice.
pub open spec fn unique_ids(s: Seq<CallEntry>) -> bool {
    forall|i: int, j: int| 0 <= i < s.len() && 0 <= j < s.len() && i != j ==> s[i].0@ != s[j].0@
}

/// The entries as a map from call ID to state.
pub open spec fn calls_map(s: Seq<CallEntry>) -> Map<Seq<char>, FfiCallState> {
    Map::new(
        |id: Seq<char>| exists|i: int| 0 <= i < s.len() && s[i].0@ == id,
        |id: Seq<char>| s[choose|i: int| 0 <= i < s.len() && s[i].0@ == id].1,
    )
}

proof fn lemma_calls_at(s: Seq<CallEntry>, i: int)
    requires
        unique_ids(s),
        0 <= i < s.len(),
    ensures
        calls_map(s).contains_key(s[i].0@),
        calls_map(s)[s[i].0@] == s[i].1,
{
    let id = s[i].0@;
    assert(exists|k: int| 0 <= k < s.len() && s[k].0@ == id);
    let j = choose|k: int| 0 <= k < s.len() && s[k].0@ == id;
    assert(j == i);
}

proof fn lemma_calls_replace(s: Seq<CallEntry>, i: int, e: CallEntry)
    requires
        unique_ids(s),
        0 <= i < s.len(),
        e.0@ == s[i].0@,
    ensures
        unique_ids(s.update(i, e)),
        calls_map(s.update(i, e)) == calls_map(s).insert(e.0@, e.1),
{
    let s1 = s.update(i, e);
    assert(forall|a: int| 0 <= a < s1.len() ==> s1[a].0@ == s[a].0@);
    assert forall|x: Seq<char>| calls_map(s1).contains_key(x) <==> calls_map(s).insert(
        e.0@,
        e.1,
    ).contains_key(x) by {
        if calls_map(s1).contains_key(x) {
            let j = choose|j: int| 0 <= j < s1.len() && s1[j].0@ == x;
            assert(s[j].0@ == x);
        }
        if calls_map(s).contains_key(x) {
            let j = choose|j: int| 0 <= j < s.len() && s[j].0@ == x;
            assert(s1[j].0@ == x);
        }
        if x == e.0@ {
            assert(s1[i].0@ == x);
        }
    }
    assert forall|x: Seq<char>| #[trigger] calls_map(s1).contains_key(x) implies calls_map(s1)[x]
        == calls_map(s).insert(e.0@, e.1)[x] by {
        let j = choose|j: int| 0 <= j < s1.len() && s1[j].0@ == x;
        lemma_calls_at(s1, j);
        if j != i {
            lemma_calls_at(s, j);
        }
    }
    assert(calls_map(s1) =~= calls_map(s).insert(e.0@, e.1));
}

proof fn lemma_calls_push(s: Seq<CallEntry>, e: CallEntry)
    requires
        unique_ids(s),
        !calls_map(s).contains_key(e.0@),
    ensures
        unique_ids(s.push(e)),
        calls_map(s.push(e)) == calls_map(s).insert(e.0@, e.1),
{
    let s1 = s.push(e);
    let n = s.len() as int;
    assert forall|i: int, j: int|
        0 <= i < s1.len() && 0 <= j < s1.len() && i != j implies s1[i].0@ != s1[j].0@ by {
        if i == n {
            if s[j].0@ == e.0@ {
                assert(calls_map(s).contains_key(e.0@));
            }
        } else if j == n {
            if s[i].0@ == e.0@ {
                assert(calls_map(s).contains_key(e.0@));
            }
        }
    }
    assert forall|x: Seq<char>| calls_map(s1).contains_key(x) <==> calls_map(s).insert(
        e.0@,
        e.1,
    ).contains_key(x) by {
        if calls_map(s1).contains_key(x) {
            let j = choose|j: int| 0 <= j < s1.len() && s1[j].0@ == x;
            if j < n {
                assert(s[j].0@ == x);
            }
        }
        if calls_map(s).contains_key(x) {
            let j = choose|j: int| 0 <= j < s.len() && s[j].0@ == x;
            assert(s1[j].0@ == x);
        }
        if x == e.0@ {
            assert(s1[n].0@ == x);
        }
    }
    assert forall|x: Seq<char>| #[trigger] calls_map(s1).contains_key(x) implies calls_map(s1)[x]
        == calls_map(s).insert(e.0@, e.1)[x] by {
        let j = choose|j: int| 0 <= j < s1.len() && s1[j].0@ == x;
        lemma_calls_at(s1, j);
        if j != n {
            lemma_calls_at(s, j);
        }
    }
    assert(calls_map(s1) =~= calls_map(s).insert(e.0@, e.1));
}

/// The active calls and their states.
pub struct CallRegistry {
    calls: Vec<CallEntry>,
}

impl CallRegistry {
    /// Well-formedness: no call ID occurs twice.
    pub closed spec fn wf(self) -> bool {
        unique_ids(self.calls@)
    }

    /// The calls as a map from call ID to state.
    pub closed spec fn view(self) -> Map<Seq<char>, FfiCallState> {
        calls_map(self.calls@)
    }

    /// A registry without calls.
    pub fn new() -> (res: Self)
        ensures
            res.wf(),
            res@ == Map::<Seq<char>, FfiCallState>::empty(),
    {
        let res = Self { calls: Vec::new() };
        assert(res@ =~= Map::<Seq<char>, FfiCallState>::empty());
        res
    }

    fn find(&self, call_id: &str) -> (res: Option<usize>)
        ensures
            res matches Some(i) ==> i < self.calls@.len() && self.calls@[i as int].0@ == call_id@,
            res is None ==> forall|i: int|
                0 <= i < self.calls@.len() ==> self.calls@[i].0@ != call_id@,
    {
        let mut i: usize = 0;
        while i < self.calls.len()
            invariant
                i <= self.calls@.len(),
                forall|j: int| 0 <= j < i ==> self.calls@[j].0@ != call_id@,
            decreases self.calls@.len() - i,
        {
            if str_eq(self.calls[i].0.as_str(), call_id) {
                return Some(i);
            }
            i = i + 1;
        }
        None
    }

    /// Records a call in a state, replacing what was recorded for its ID.
    pub fn insert(&mut self, call_id: &str, state: FfiCallState)
        requires
            old(self).wf(),
        ensures
            final(self).wf(),
            final(self)@ == old(self)@.insert(call_id@, state),
    {
        let ghost s0 = self.calls@;
        match self.find(call_id) {
            Some(i) => {
                self.calls.set(i, (string_of(call_id), state));
                proof {
                    lemma_calls_replace(s0, i as int, self.calls@[i as int]);
                    assert(self.calls@ =~= s0.update(i as int, self.calls@[i as int]));
                }
            },
            None => {
                self.calls.push((string_of(call_id), state));
                proof {
                    if calls_map(s0).contains_key(call_id@) {
                        let j = choose|j: int| 0 <= j < s0.len() && s0[j].0@ == call_id@;
                        assert(s0[j].0@ != call_id@);
                    }
                    lemma_calls_push(s0, self.calls@[s0.len() as int]);
                    assert(self.calls@ =~= s0.push(self.calls@[s0.len() as int]));
                }
            },
        }
    }

    /// An outgoing call starts: it is recorded as initiating.
    pub fn start_outgoing(&mut self, call_id: &str)
        requires
            old(self).wf(),
        ensures
            final(self).wf(),
            final(self)@ == old(self)@.insert(call_id@, FfiCallState::Initiating),
    {
        self.insert(call_id, FfiCallState::Initiating);
    }

    /// A call was accepted or answered: a recorded call becomes
    /// connecting; an unknown ID changes nothing. Returns whether the call
    /// was recorded.
    pub fn mark_connecting(&mut self, call_id: &str) -> (found: bool)
        requires
            old(self).wf(),
        ensures
            final(self).wf(),
            found == old(self)@.contains_key(call_id@),
            found ==> final(self)@ == old(self)@.insert(call_id@, FfiCallState::Connecting),
            !found ==> final(self)@ == old(self)@,
    {
        let ghost s0 = self.calls@;
        match self.find(call_id) {
            Some(i) => {
                proof {
                    lemma_calls_at(s0, i as int);
                }
                self.insert(call_id, FfiCallState::Connecting);
                true
            },
            None => {
                proof {
                    if calls_map(s0).contains_key(call_id@) {
                        let j = choose|j: int| 0 <= j < s0.len() && s0[j].0@ == call_id@;
                        assert(s0[j].0@ != call_id@);
                    }
                }
                false
            },
        }
    }

    /// A call ended (rejected, hung up or ended for another reason): it
    /// leaves the registry.
    pub fn remove(&mut self, call_id: &str)
        requires
            old(self).wf(),
        ensures
            final(self).wf(),
            final(self)@ == old(self)@.remove(call_id@),
    {
        let ghost s0 = self.calls@;
        match self.find(call_id) {
            Some(i) => {
                let ghost e = s0[i as int];
                proof {
                    lemma_calls_at(s0, i as int);
                }
                self.calls.remove(i);
                proof {
                    let s1 = self.calls@;
                    assert(s1 =~= s0.remove(i as int));
                    assert forall|a: int, b: int|
                        0 <= a < s1.len() && 0 <= b < s1.len() && a != b implies s1[a].0@
                        != s1[b].0@ by {
                        let a0 = if a < i { a } else { a + 1 };
                        let b0 = if b < i { b } else { b + 1 };
                        assert(s1[a] == s0[a0] && s1[b] == s0[b0]);
                    }
                    let target = calls_map(s0).remove(call_id@);
                    assert forall|x: Seq<char>| calls_map(s1).contains_key(x) <==> target.contains_key(
                        x,
                    ) by {
                        if calls_map(s1).contains_key(x) {
                            let j = choose|j: int| 0 <= j < s1.len() && s1[j].0@ == x;
                            let j0 = if j < i { j } else { j + 1 };
                            assert(s0[j0].0@ == x);
                            assert(j0 != i);
                        }
                        if target.contains_key(x) {
                            let j = choose|j: int| 0 <= j < s0.len() && s0[j].0@ == x;
                            assert(j != i);
                            let j1 = if j < i { j } else { j - 1 };
                            assert(s1[j1].0@ == x);
                        }
                    }
                    assert forall|x: Seq<char>| #[trigger] calls_map(s1).contains_key(x) implies calls_map(
                        s1,
                    )[x] == target[x] by {
                        let j = choose|j: int| 0 <= j < s1.len() && s1[j].0@ == x;
                        let j0 = if j < i { j } else { j + 1 };
                        lemma_calls_at(s1, j);
                        lemma_calls_at(s0, j0);
                    }
                    assert(calls_map(s1) =~= target);
                }
            },
            None => {
                proof {
                    if calls_map(s0).contains_key(call_id@) {
                        let j = choose|j: int| 0 <= j < s0.len() && s0[j].0@ == call_id@;
                        assert(s0[j].0@ != call_id@);
                    }
                    assert(calls_map(s0).remove(call_id@) =~= calls_map(s0));
                }
            },
        }
    }

    /// The state of a call, if it is recorded.
    pub fn get_call_state(&self, call_id: &str) -> (res: Option<FfiCallState>)
        requires
            self.wf(),
        ensures
            res == (if self@.contains_key(call_id@) {
                Some(self@[call_id@])
            } else {
                None
            }),
    {
        match self.find(call_id) {
            Some(i) => {
                proof {
                    lemma_calls_at(self.calls@, i as int);
                }
                Some(self.calls[i].1)
            },
            None => {
                proof {
                    if self@.contains_key(call_id@) {
                        let j = choose|j: int| 0 <= j < self.calls@.len() && self.calls@[j].0@ == call_id@;
                        assert(self.calls@[j].0@ != call_id@);
                    }
                }
                None
            },
        }
    }

    /// The IDs of the active calls, each once.
    pub fn get_active_calls(&self) -> (res: Vec<String>)
        requires
            self.wf(),
        ensures
            forall|i: int| 0 <= i < res@.len() ==> self@.contains_key(#[trigger] res@[i]@),
            forall|id: Seq<char>|
                #[trigger] self@.contains_key(id) ==> exists|i: int| 0 <= i < res@.len() && res@[i]@
                    == id,
            forall|i: int, j: int| 0 <= i < res@.len() && 0 <= j < res@.len() && i != j ==> res@[i]@
                != res@[j]@,
    {
        let mut ids: Vec<String> = Vec::new();
        let mut i: usize = 0;
        while i < self.calls.len()
            invariant
                unique_ids(self.calls@),
                i <= self.calls@.len(),
                ids@.len() == i,
                forall|k: int| 0 <= k < i ==> ids@[k]@ == self.calls@[k].0@,
            decreases self.calls@.len() - i,
        {
            ids.push(string_of(self.calls[i].0.as_str()));
            i = i + 1;
        }
        proof {
            assert forall|k: int| 0 <= k < ids@.len() implies self@.contains_key(#[trigger] ids@[k]@) by {
                lemma_calls_at(self.calls@, k);
            }
            assert forall|id: Seq<char>| #[trigger] self@.contains_key(id) implies exists|k: int|
                0 <= k < ids@.len() && ids@[k]@ == id by {
                let j = choose|j: int| 0 <= j < self.calls@.len() && self.calls@[j].0@ == id;
                assert(ids@[j]@ == id);
            }
        }
        ids
    }
}

/// Law: a call that was started and then ended is no longer active, and
/// the other calls keep their states.
pub proof fn law_ended_call_is_gone(
    before: Map<Seq<char>, FfiCallState>,
    call_id: Seq<char>,
    other: Seq<char>,
)
    requires
        other != call_id,
    ensures
        !before.insert(call_id, FfiCallState::Initiating).remove(call_id).contains_key(call_id),
        before.insert(call_id, FfiCallState::Initiating).remove(call_id).contains_key(other)
            == before.contains_key(other),
        before.contains_key(other) ==> before.insert(call_id, FfiCallState::Initiating).remove(
            call_id,
        )[other] == before[other],
{
}

} // verus!
