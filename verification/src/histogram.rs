//! Scaling of the four-channel (R, G, B, luma) histogram shown in the
//! Develop panel.
use vstd::prelude::*;

verus! {

/// The largest value of `s`, or 0 when empty.
pub open spec fn seq_max(s: Seq<u32>) -> int
    decreases s.len(),
{
    if s.len() == 0 {
        0
    } else {
        let m = seq_max(s.drop_last());
        if s.last() > m {
            s.last() as int
        } else {
            m
        }
    }
}

proof fn lemma_seq_max(s: Seq<u32>)
    ensures
        forall|i: int| 0 <= i < s.len() ==> s[i] <= seq_max(s),
        s.len() == 0 ==> seq_max(s) == 0,
        s.len() > 0 ==> exists|i: int| 0 <= i < s.len() && s[i] == seq_max(s),
    decreases s.len(),
{
    if s.len() > 0 {
        let r = s.drop_last();
        lemma_seq_max(r);
        assert forall|i: int| 0 <= i < r.len() implies r[i] == s[i] by {}
        if r.len() > 0 && s.last() <= seq_max(r) {
            let j = choose|j: int| 0 <= j < r.len() && r[j] == seq_max(r);
            assert(s[j] == seq_max(s));
        } else {
            assert(s[s.len() - 1] == seq_max(s));
        }
    }
}

/// The largest bin count across all channels, floored at 1 so it can be used
/// as a common divisor; channels are drawn against this shared scale.
pub fn peak_bin(bins: &[u32]) -> (peak: u32)
    ensures
        peak == (if seq_max(bins@) > 1 { seq_max(bins@) } else { 1 }),
        peak >= 1,
        forall|i: int| 0 <= i < bins@.len() ==> bins@[i] <= peak,
{
    let mut m: u32 = 0;
    let mut i: usize = 0;
    while i < bins.len()
        invariant
            i <= bins@.len(),
            m == seq_max(bins@.take(i as int)),
        decreases bins@.len() - i,
    {
        proof {
            assert(bins@.take(i + 1).drop_last() =~= bins@.take(i as int));
        }
        if bins[i] > m {
            m = bins[i];
        }
        i = i + 1;
    }
    proof {
        assert(bins@.take(bins@.len() as int) =~= bins@);
        lemma_seq_max(bins@);
    }
    if m > 1 {
        m
    } else {
        1
    }
}

/// The shared histogram scale is the largest bin: no bin exceeds it, and
/// when any bin is positive some bin equals it.
pub proof fn lemma_peak_is_attained(bins: Seq<u32>)
    ensures
        forall|i: int| 0 <= i < bins.len() ==> bins[i] <= seq_max(bins),
        seq_max(bins) > 0 ==> exists|i: int| 0 <= i < bins.len() && bins[i] == seq_max(bins),
{
    lemma_seq_max(bins);
}

} // verus!
