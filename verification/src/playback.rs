//! The sample queue behind audio playback: decoded samples are queued as
//! they arrive, and each request of the output device is filled from the
//! front of the queue, with silence after the queued samples run out.

use vstd::prelude::*;

verus! {

/// Queue of samples waiting to be played.
pub struct PlaybackBuffer<T> {
    samples: Vec<T>,
}

impl<T: Copy> PlaybackBuffer<T> {
    /// The queued samples, oldest first.
    pub closed spec fn view(&self) -> Seq<T> {
        self.samples@
    }

    /// An empty queue.
    pub fn new() -> (res: Self)
        ensures
            res@ == Seq::<T>::empty(),
    {
        Self { samples: Vec::new() }
    }

    /// Number of queued samples.
    pub fn len(&self) -> (res: usize)
        ensures
            res == self@.len(),
    {
        self.samples.len()
    }

    /// Queues samples after those already queued.
    pub fn push_samples(&mut self, samples: &[T])
        ensures
            final(self)@ == old(self)@ + samples@,
    {
        let mut i: usize = 0;
        while i < samples.len()
            invariant
                i <= samples@.len(),
                self@ == old(self)@ + samples@.subrange(0, i as int),
            decreases samples@.len() - i,
        {
            self.samples.push(samples[i]);
            i = i + 1;
            assert(self@ =~= old(self)@ + samples@.subrange(0, i as int));
        }
        assert(samples@.subrange(0, samples@.len() as int) =~= samples@);
    }

    /// Fills `out` from the front of the queue and with `silence` after the
    /// queued samples run out; the samples played leave the queue. Returns
    /// how many queued samples were played.
    pub fn fill(&mut self, out: &mut Vec<T>, silence: T) -> (played: usize)
        ensures
            played == if old(out)@.len() <= old(self)@.len() {
                old(out)@.len()
            } else {
                old(self)@.len()
            },
            final(out)@.len() == old(out)@.len(),
            final(out)@.subrange(0, played as int) == old(self)@.subrange(0, played as int),
            forall|i: int| played <= i < final(out)@.len() ==> final(out)@[i] == silence,
            final(self)@ == old(self)@.subrange(played as int, old(self)@.len() as int),
    {
        let n = out.len();
        let played: usize = if n <= self.samples.len() {
            n
        } else {
            self.samples.len()
        };
        let mut i: usize = 0;
        while i < n
            invariant
                n == out@.len(),
                n == old(out)@.len(),
                played <= n,
                played <= self.samples@.len(),
                self.samples@ == old(self)@,
                i <= n,
                forall|j: int| 0 <= j < i && j < played ==> out@[j] == self.samples@[j],
                forall|j: int| played <= j < i ==> out@[j] == silence,
            decreases n - i,
        {
            let v = if i < played {
                self.samples[i]
            } else {
                silence
            };
            out.set(i, v);
            i = i + 1;
        }
        let mut rest: Vec<T> = Vec::new();
        let mut k: usize = played;
        let len = self.samples.len();
        while k < len
            invariant
                played <= k <= len,
                len == self.samples@.len(),
                self.samples@ == old(self)@,
                rest@ == self.samples@.subrange(played as int, k as int),
            decreases len - k,
        {
            rest.push(self.samples[k]);
            k = k + 1;
            assert(rest@ =~= self.samples@.subrange(played as int, k as int));
        }
        assert(out@.subrange(0, played as int) =~= old(self)@.subrange(0, played as int));
        self.samples = rest;
        played
    }
}

/// Law: what the queue gives out over a fill, followed by what it still
/// holds, is what it held: no sample is lost, repeated or reordered.
pub proof fn law_fill_keeps_order<T>(queued: Seq<T>, played: int)
    requires
        0 <= played <= queued.len(),
    ensures
        queued.subrange(0, played) + queued.subrange(played, queued.len() as int) == queued,
{
    assert(queued.subrange(0, played) + queued.subrange(played, queued.len() as int) =~= queued);
}

} // verus!
