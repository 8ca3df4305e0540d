//! Rolling sample histories behind the dashboard's graphs.
use vstd::prelude::*;
use std::collections::VecDeque;

verus! {

broadcast use vstd::std_specs::vecdeque::group_vec_dequeue_axioms;

/// How many samples a history keeps.
pub const HIST: usize = 120;

/// A history after a new sample: the sample goes to the back, and the oldest sample is
/// dropped when the history was already full.
pub open spec fn push_spec(h: Seq<u64>, v: u64) -> Seq<u64> {
    if h.len() >= HIST {
        h.drop_first().push(v)
    } else {
        h.push(v)
    }
}

/// Records a new sample.
pub fn push(buf: &mut VecDeque<u64>, v: u64)
    ensures
        final(buf)@ == push_spec(old(buf)@, v),
{
    if buf.len() >= HIST {
        buf.pop_front();
    }
    buf.push_back(v);
}


/// A history holds at most `HIST` samples, and once full it stays full; the new sample
/// is always the newest.
pub proof fn law_push_keeps_bound(h: Seq<u64>, v: u64)
    requires
        h.len() <= HIST,
    ensures
        push_spec(h, v).len() <= HIST,
        h.len() == HIST ==> push_spec(h, v).len() == HIST,
        push_spec(h, v).last() == v,
{
}

/// A history is always the most recent samples: pushing onto a history of at most `HIST`
/// samples leaves the last `HIST` (or all) of the old samples followed by the new one.
pub proof fn law_push_keeps_most_recent(h: Seq<u64>, v: u64)
    requires
        h.len() <= HIST,
    ensures
        push_spec(h, v) == h.push(v).subrange(
            h.push(v).len() - (if h.push(v).len() <= HIST { h.push(v).len() as int } else { HIST as int }),
            h.push(v).len() as int,
        ),
{
    assert(push_spec(h, v) =~= h.push(v).subrange(
        h.push(v).len() - (if h.push(v).len() <= HIST { h.push(v).len() as int } else { HIST as int }),
        h.push(v).len() as int,
    ));
}

/// A full history of zero samples, as the dashboard starts with.
pub fn zero_history() -> (h: VecDeque<u64>)
    ensures
        h@ == Seq::new(HIST as nat, |_i: int| 0u64),
{
    let mut h: VecDeque<u64> = VecDeque::new();
    let mut i: usize = 0;
    while i < HIST
        invariant
            i <= HIST,
            h@ == Seq::new(i as nat, |_j: int| 0u64),
        decreases HIST - i,
    {
        h.push_back(0);
        i = i + 1;
        assert(h@ =~= Seq::new(i as nat, |_j: int| 0u64));
    }
    h
}

/// The number of samples shown in a graph `w` columns wide.
pub open spec fn shown_count(len: nat, w: nat) -> nat {
    if len < w { len } else { w }
}

/// The most recent `w` samples (or all, when there are fewer), oldest first.
pub open spec fn window_spec(h: Seq<u64>, w: nat) -> Seq<u64> {
    h.subrange(h.len() - shown_count(h.len(), w), h.len() as int)
}

/// The samples that a graph `w` columns wide shows, and the number of empty columns on
/// its left.
pub fn graph_window(hist: &VecDeque<u64>, w: usize) -> (r: (usize, Vec<u64>))
    ensures
        r.1@ == window_spec(hist@, w as nat),
        r.0 == w - shown_count(hist@.len(), w as nat),
{
    let len = hist.len();
    let k: usize = if len < w { len } else { w };
    let mut data: Vec<u64> = Vec::new();
    let mut i: usize = len - k;
    while i < len
        invariant
            len == hist@.len(),
            k == shown_count(len as nat, w as nat),
            len - k <= i <= len,
            data@ == hist@.subrange(len - k, i as int),
        decreases len - i,
    {
        data.push(hist[i]);
        i = i + 1;
        assert(data@ =~= hist@.subrange(len - k, i as int));
    }
    (w - k, data)
}

/// A graph shows the newest samples in their order, as many as fit: `w` columns or all
/// samples, whichever is fewer, the newest in the last column; the rest of the columns are
/// empty on the left.
pub proof fn law_graph_shows_newest(h: Seq<u64>, w: nat)
    ensures
        window_spec(h, w).len() == if h.len() < w { h.len() } else { w },
        window_spec(h, w).len() + (w - shown_count(h.len(), w)) == w,
        forall|j: int| 0 <= j < window_spec(h, w).len() ==>
            #[trigger] window_spec(h, w)[j] == h[h.len() - window_spec(h, w).len() + j],
        h.len() > 0 && w > 0 ==> window_spec(h, w).last() == h.last(),
{
}

/// The largest of some samples, 0 for none.
pub open spec fn max_spec(h: Seq<u64>) -> u64
    decreases h.len(),
{
    if h.len() == 0 {
        0
    } else if max_spec(h.drop_last()) < h.last() {
        h.last()
    } else {
        max_spec(h.drop_last())
    }
}

/// The top of the network graph's scale: the largest sample (1 for no samples), but at
/// least 10.
pub open spec fn peak_spec(h: Seq<u64>) -> u64 {
    let m = if h.len() == 0 { 1 } else { max_spec(h) };
    if m < 10 { 10 } else { m }
}

/// The top of the network graph's scale.
pub fn graph_peak(hist: &VecDeque<u64>) -> (p: u64)
    ensures
        p == peak_spec(hist@),
{
    let len = hist.len();
    let mut m: u64 = 0;
    let mut i: usize = 0;
    while i < len
        invariant
            len == hist@.len(),
            i <= len,
            m == max_spec(hist@.subrange(0, i as int)),
        decreases len - i,
    {
        let v = hist[i];
        proof {
            assert(hist@.subrange(0, i + 1).drop_last() =~= hist@.subrange(0, i as int));
        }
        if m < v {
            m = v;
        }
        i = i + 1;
    }
    proof {
        assert(hist@.subrange(0, len as int) =~= hist@);
    }
    let top: u64 = if len == 0 { 1 } else { m };
    if top < 10 { 10 } else { top }
}

/// Every sample lies within the network graph's scale.
pub proof fn law_peak_bounds_samples(h: Seq<u64>)
    ensures
        forall|i: int| 0 <= i < h.len() ==> h[i] <= peak_spec(h),
        10 <= peak_spec(h),
{
    lemma_max_bounds(h);
}

proof fn lemma_max_bounds(h: Seq<u64>)
    ensures
        forall|i: int| 0 <= i < h.len() ==> h[i] <= max_spec(h),
    decreases h.len(),
{
    if h.len() > 0 {
        lemma_max_bounds(h.drop_last());
        assert forall|i: int| 0 <= i < h.len() implies h[i] <= max_spec(h) by {
            if i < h.len() - 1 {
                assert(h.drop_last()[i] == h[i]);
            }
        }
    }
}

} // verus!
