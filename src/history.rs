use std::collections::VecDeque;
use vstd::prelude::*;

verus! {

/// Sum of a sequence of samples, as a mathematical integer.
pub open spec fn seq_sum(s: Seq<u64>) -> int
    decreases s.len(),
{
    if s.len() == 0 {
        0
    } else {
        seq_sum(s.drop_last()) + s.last()
    }
}

/// Integer mean of a non-empty sequence of samples (rounded down).
pub open spec fn seq_mean(s: Seq<u64>) -> int {
    seq_sum(s) / (s.len() as int)
}

/// The last `n` elements of `s`, or all of `s` when it is not longer than `n`.
pub open spec fn keep_last(s: Seq<u64>, n: nat) -> Seq<u64> {
    if s.len() <= n {
        s
    } else {
        s.subrange(s.len() - n, s.len() as int)
    }
}

/// What a history holds after `sample` is pushed with capacity `n`.
pub open spec fn pushed(s: Seq<u64>, sample: u64, n: nat) -> Seq<u64> {
    keep_last(s.push(sample), n)
}

/// What a history holds after each of `samples` is pushed in turn, with
/// capacity `n`, starting from `start`.
pub open spec fn pushed_all(start: Seq<u64>, samples: Seq<u64>, n: nat) -> Seq<u64>
    decreases samples.len(),
{
    if samples.len() == 0 {
        start
    } else {
        pushed(pushed_all(start, samples.drop_last(), n), samples.last(), n)
    }
}

proof fn lemma_keep_last_push(s: Seq<u64>, x: u64, n: nat)
    requires
        n >= 1,
    ensures
        keep_last(keep_last(s, n).push(x), n) == keep_last(s.push(x), n),
{
    let k = keep_last(s, n);
    if s.len() > n {
        assert(keep_last(k.push(x), n) =~= keep_last(s.push(x), n));
    } else {
        assert(k == s);
    }
}

/// Whatever is pushed, a history of capacity `n` (at least one) that starts
/// within its capacity never holds more than `n` samples, and holds exactly
/// the most recent `n` of all that it has seen, oldest first.
pub proof fn lemma_history_keeps_latest(start: Seq<u64>, samples: Seq<u64>, n: nat)
    requires
        n >= 1,
        start.len() <= n,
    ensures
        pushed_all(start, samples, n).len() <= n,
        pushed_all(start, samples, n) == keep_last(start + samples, n),
    decreases samples.len(),
{
    if samples.len() == 0 {
        assert(start + samples =~= start);
    } else {
        let prev = samples.drop_last();
        lemma_history_keeps_latest(start, prev, n);
        lemma_keep_last_push(start + prev, samples.last(), n);
        assert((start + prev).push(samples.last()) =~= start + samples);
    }
}

proof fn lemma_sum_of_constant(s: Seq<u64>, v: u64)
    requires
        forall|i: int| 0 <= i < s.len() ==> s[i] == v,
    ensures
        seq_sum(s) == (s.len() as int) * (v as int),
    decreases s.len(),
{
    if s.len() > 0 {
        lemma_sum_of_constant(s.drop_last(), v);
        assert((s.len() as int - 1) * (v as int) + v == (s.len() as int) * (v as int))
            by (nonlinear_arith);
    }
}

/// Once a history of capacity `n` has been pushed at least `n` samples and
/// the last `n` of them all equal `v`, its mean is exactly `v`, whatever it
/// held before.
pub proof fn lemma_mean_settles(start: Seq<u64>, samples: Seq<u64>, n: nat, v: u64)
    requires
        n >= 1,
        start.len() <= n,
        samples.len() >= n,
        forall|i: int| samples.len() - n <= i < samples.len() ==> samples[i] == v,
    ensures
        seq_mean(pushed_all(start, samples, n)) == v,
{
    lemma_history_keeps_latest(start, samples, n);
    let all = start + samples;
    let r = keep_last(all, n);
    assert(r.len() == n);
    assert forall|i: int| 0 <= i < r.len() implies r[i] == v by {
        assert(r[i] == all[all.len() - n + i]);
        assert(all[all.len() - n + i] == samples[samples.len() - n + i]);
    }
    lemma_sum_of_constant(r, v);
    assert((n as int) * (v as int) / (n as int) == v) by (nonlinear_arith)
        requires n >= 1;
}

/// A bounded, insertion-ordered history of samples: the oldest leave first.
pub struct SampleHistory {
    samples: VecDeque<u64>,
}

impl View for SampleHistory {
    type V = Seq<u64>;

    closed spec fn view(&self) -> Seq<u64> {
        self.samples@
    }
}

impl SampleHistory {
    /// A history holding the single sample `seed`.
    pub fn seeded(seed: u64) -> (r: SampleHistory)
        ensures
            r@ == seq![seed],
    {
        let mut samples: VecDeque<u64> = VecDeque::new();
        samples.push_back(seed);
        proof {
            assert(samples@ =~= seq![seed]);
        }
        SampleHistory { samples }
    }

    pub fn len(&self) -> (r: usize)
        ensures
            r == self@.len(),
    {
        self.samples.len()
    }

    /// The samples, oldest first.
    pub fn to_vec(&self) -> (r: Vec<u64>)
        ensures
            r@ == self@,
    {
        let n = self.samples.len();
        let mut out: Vec<u64> = Vec::new();
        let mut i: usize = 0;
        while i < n
            invariant
                n == self@.len(),
                i <= n,
                out@ == self@.subrange(0, i as int),
            decreases n - i,
        {
            out.push(self.samples[i]);
            i = i + 1;
            proof {
                assert(out@ =~= self@.subrange(0, i as int));
            }
        }
        proof {
            assert(out@ =~= self@);
        }
        out
    }

    /// Appends `sample`, then drops the oldest samples until at most
    /// `capacity` remain.
    pub fn push(&mut self, sample: u64, capacity: usize)
        requires
            capacity >= 1,
        ensures
            final(self)@ == pushed(old(self)@, sample, capacity as nat),
    {
        self.samples.push_back(sample);
        proof {
            assert(self.samples@ =~= self.samples@.subrange(0, self.samples@.len() as int));
        }
        let ghost full = self.samples@;
        while self.samples.len() > capacity
            invariant
                capacity >= 1,
                full == old(self)@.push(sample),
                self.samples@.len() <= full.len(),
                self.samples@.len() >= capacity || self.samples@.len() == full.len(),
                self.samples@ == full.subrange(full.len() - self.samples@.len(), full.len() as int),
            decreases self.samples@.len(),
        {
            self.samples.pop_front();
            proof {
                assert(self.samples@ =~= full.subrange(
                    full.len() - self.samples@.len(),
                    full.len() as int,
                ));
            }
        }
        proof {
            if full.len() <= capacity {
                assert(self.samples@ =~= full);
            }
        }
    }

    /// Mean of the samples, rounded down.
    pub fn mean(&self) -> (r: u64)
        requires
            self@.len() >= 1,
        ensures
            r == seq_mean(self@),
    {
        let n = self.samples.len();
        let mut total: u128 = 0;
        let mut i: usize = 0;
        while i < n
            invariant
                n == self@.len(),
                i <= n,
                total == seq_sum(self@.subrange(0, i as int)),
                total <= (i as int) * (u64::MAX as int),
            decreases n - i,
        {
            let x = self.samples[i];
            proof {
                let s = self@.subrange(0, i as int + 1);
                assert(s.drop_last() =~= self@.subrange(0, i as int));
                assert((i as int) * (u64::MAX as int) + (u64::MAX as int) == (i as int + 1) * (u64::MAX as int)) by (nonlinear_arith);
                assert((i as int + 1) * (u64::MAX as int) <= (usize::MAX as int) * (u64::MAX as int)) by (nonlinear_arith)
                    requires i < n, n <= usize::MAX;
            }
            total = total + x as u128;
            i = i + 1;
        }
        proof {
            assert(self@.subrange(0, n as int) =~= self@);
            let t = total as int;
            assert(t / (n as int) <= u64::MAX) by (nonlinear_arith)
                requires n >= 1, t <= (n as int) * (u64::MAX as int);
        }
        (total / (n as u128)) as u64
    }
}

} // verus!
