//! Release policy for reference pictures, kept apart from the pool
//! mechanics: H.264 sliding-window marking of short-term references.
use vstd::prelude::*;
use crate::dpb::{count_in_use, DpbPool, DpbSlot, SlotState};

verus! {

/// The number of reference pictures kept under sliding-window marking.
pub open spec fn window_size(max_num_ref_frames: u32) -> nat {
    if max_num_ref_frames == 0 { 1 } else { max_num_ref_frames as nat }
}

/// `k` holds the oldest reference picture (lowest `frame_num`, the lowest
/// slot among equals).
pub open spec fn is_oldest_reference(s: Seq<DpbSlot>, k: int) -> bool {
    &&& 0 <= k < s.len()
    &&& s[k].state is InUse
    &&& forall|j: int| 0 <= j < s.len() && (#[trigger] s[j]).state is InUse
        ==> s[k].reference.frame_num <= s[j].reference.frame_num
    &&& forall|j: int| 0 <= j < k && (#[trigger] s[j]).state is InUse
        ==> s[k].reference.frame_num < s[j].reference.frame_num
}

proof fn lemma_some_in_use(s: Seq<DpbSlot>)
    requires
        count_in_use(s) > 0,
    ensures
        exists|j: int| 0 <= j < s.len() && (#[trigger] s[j]).state is InUse,
    decreases s.len(),
{
    if !(s.last().state is InUse) {
        lemma_some_in_use(s.drop_last());
        let j = choose|j: int| 0 <= j < s.drop_last().len() && (#[trigger] s.drop_last()[j]).state is InUse;
        assert(s[j] == s.drop_last()[j]);
    } else {
        assert(s[s.len() - 1].state is InUse);
    }
}

/// The slot to release before the next picture is stored as a reference:
/// when the pool already holds as many reference pictures as the stream
/// keeps (`max_num_ref_frames`, at least one), the oldest of them; else none.
pub fn sliding_window_release(pool: &DpbPool, max_num_ref_frames: u32) -> (r: Option<usize>)
    ensures
        count_in_use(pool@) >= window_size(max_num_ref_frames) <==> r is Some,
        r matches Some(k) ==> is_oldest_reference(pool@, k as int),
{
    let held = pool.in_use_count();
    let window: usize = if max_num_ref_frames == 0 { 1 } else { max_num_ref_frames as usize };
    if held < window {
        return None;
    }
    proof {
        lemma_some_in_use(pool@);
    }
    let n = pool.capacity();
    let mut best: Option<usize> = None;
    let mut i: usize = 0;
    while i < n
        invariant
            n == pool@.len(),
            i <= n,
            best is None ==> forall|j: int| 0 <= j < i ==> !((#[trigger] pool@[j]).state is InUse),
            best matches Some(b) ==> {
                &&& b < i
                &&& pool@[b as int].state is InUse
                &&& forall|j: int| 0 <= j < i && (#[trigger] pool@[j]).state is InUse
                    ==> pool@[b as int].reference.frame_num <= pool@[j].reference.frame_num
                &&& forall|j: int| 0 <= j < b && (#[trigger] pool@[j]).state is InUse
                    ==> pool@[b as int].reference.frame_num < pool@[j].reference.frame_num
            },
        decreases n - i,
    {
        let s = pool.slot(i).unwrap();
        if s.state == SlotState::InUse {
            match best {
                None => {
                    best = Some(i);
                },
                Some(b) => {
                    let cur = pool.slot(b).unwrap();
                    if s.reference.frame_num < cur.reference.frame_num {
                        best = Some(i);
                    }
                },
            }
        }
        i += 1;
    }
    best
}

} // verus!
