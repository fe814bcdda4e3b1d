//! The decoded picture buffer: a fixed pool of reference-picture slots and
//! their Free -> Reserved -> InUse -> Free lifecycle.
use vstd::prelude::*;
use crate::error::PoolError;

verus! {

#[derive(Clone, Copy, Debug, PartialEq, Eq, Structural)]
pub enum SlotState {
    /// Holds no picture and may be assigned.
    Free,
    /// Assigned to a decode operation that has not completed.
    Reserved,
    /// Holds a decoded picture that may still be referenced.
    InUse,
}

/// Reference-picture metadata of the picture held by a slot.
#[derive(Clone, Copy, Debug, PartialEq, Eq, Structural)]
pub struct ReferenceInfo {
    pub frame_num: u32,
    pub pic_order_cnt: i32,
}

#[derive(Clone, Copy, Debug, PartialEq, Eq, Structural)]
pub struct DpbSlot {
    pub state: SlotState,
    pub reference: ReferenceInfo,
}

/// One call on the pool, for reasoning about sequences of calls.
#[derive(Clone, Copy, Debug, PartialEq, Eq, Structural)]
pub enum PoolOp {
    Reserve(ReferenceInfo),
    MarkDecoded(usize),
    Release(usize),
}

/// What one call on the pool returned.
#[derive(Clone, Copy, Debug, PartialEq, Eq, Structural)]
pub enum PoolOutcome {
    Reserved(usize),
    Done,
    Refused(PoolError),
}

/// A fixed-size pool of DPB slots.
pub struct DpbPool {
    slots: Vec<DpbSlot>,
}

/// The metadata a slot holds while it holds no picture.
pub open spec fn empty_reference() -> ReferenceInfo {
    ReferenceInfo { frame_num: 0, pic_order_cnt: 0 }
}

/// A slot holding no picture.
pub open spec fn free_slot() -> DpbSlot {
    DpbSlot { state: SlotState::Free, reference: empty_reference() }
}

/// Number of slots in state InUse.
pub open spec fn count_in_use(s: Seq<DpbSlot>) -> nat
    decreases s.len(),
{
    if s.len() == 0 {
        0
    } else {
        count_in_use(s.drop_last()) + if s.last().state is InUse { 1nat } else { 0nat }
    }
}

/// `k` is the lowest free slot.
pub open spec fn is_first_free(s: Seq<DpbSlot>, k: int) -> bool {
    &&& 0 <= k < s.len()
    &&& s[k].state is Free
    &&& forall|j: int| 0 <= j < k ==> !((#[trigger] s[j]).state is Free)
}

/// Position of the lowest free slot.
pub open spec fn first_free(s: Seq<DpbSlot>) -> int {
    choose|k: int| is_first_free(s, k)
}

/// `reserve_slot`: the lowest free slot becomes Reserved for the picture.
pub open spec fn reserve_spec(s: Seq<DpbSlot>, reference: ReferenceInfo) -> (Seq<DpbSlot>, PoolOutcome) {
    if exists|k: int| is_first_free(s, k) {
        let k = first_free(s);
        (s.update(k, DpbSlot { state: SlotState::Reserved, reference }), PoolOutcome::Reserved(k as usize))
    } else {
        (s, PoolOutcome::Refused(PoolError::PoolExhausted))
    }
}

/// Moves slot `k` from state `from` to state `to`, keeping its picture.
pub open spec fn transition_spec(s: Seq<DpbSlot>, k: usize, from: SlotState, to: SlotState, r: ReferenceInfo)
    -> (Seq<DpbSlot>, PoolOutcome)
{
    if k >= s.len() {
        (s, PoolOutcome::Refused(PoolError::InvalidSlot))
    } else if s[k as int].state != from {
        (s, PoolOutcome::Refused(PoolError::WrongState))
    } else {
        (s.update(k as int, DpbSlot { state: to, reference: r }), PoolOutcome::Done)
    }
}

/// `mark_decoded`: a Reserved slot whose decode completed becomes InUse.
pub open spec fn mark_decoded_spec(s: Seq<DpbSlot>, k: usize) -> (Seq<DpbSlot>, PoolOutcome) {
    transition_spec(s, k, SlotState::Reserved, SlotState::InUse, if k < s.len() { s[k as int].reference } else { empty_reference() })
}

/// `release_slot`: an InUse slot that is no longer referenced becomes Free.
pub open spec fn release_spec(s: Seq<DpbSlot>, k: usize) -> (Seq<DpbSlot>, PoolOutcome) {
    transition_spec(s, k, SlotState::InUse, SlotState::Free, empty_reference())
}

/// One call on the pool: the pool after it and what it returned.
pub open spec fn step(s: Seq<DpbSlot>, op: PoolOp) -> (Seq<DpbSlot>, PoolOutcome) {
    match op {
        PoolOp::Reserve(r) => reserve_spec(s, r),
        PoolOp::MarkDecoded(k) => mark_decoded_spec(s, k),
        PoolOp::Release(k) => release_spec(s, k),
    }
}

/// The pool after running `ops` in order from `s`.
pub open spec fn run(s: Seq<DpbSlot>, ops: Seq<PoolOp>) -> Seq<DpbSlot>
    decreases ops.len(),
{
    if ops.len() == 0 {
        s
    } else {
        step(run(s, ops.drop_last()), ops.last()).0
    }
}

/// A reservation that succeeded handed out a slot that was Free before.
pub open spec fn hands_out_free(before: Seq<DpbSlot>, out: PoolOutcome) -> bool {
    out matches PoolOutcome::Reserved(k) ==> k < before.len() && before[k as int].state is Free
}

/// The pool size a session needs: the driver's slot count, but at least
/// one more than the reference pictures kept.
pub open spec fn pool_size_spec(max_dpb_slots: u32, reference_count: u32) -> int {
    if max_dpb_slots as int >= reference_count as int + 1 {
        max_dpb_slots as int
    } else {
        reference_count as int + 1
    }
}

/// The InUse slots never outnumber the pool.
pub proof fn lemma_count_in_use_bounded(s: Seq<DpbSlot>)
    ensures
        count_in_use(s) <= s.len(),
    decreases s.len(),
{
    if s.len() > 0 {
        lemma_count_in_use_bounded(s.drop_last());
    }
}

proof fn lemma_step_keeps_len(s: Seq<DpbSlot>, op: PoolOp)
    ensures
        step(s, op).0.len() == s.len(),
{
}

proof fn lemma_run_keeps_len(s: Seq<DpbSlot>, ops: Seq<PoolOp>)
    ensures
        run(s, ops).len() == s.len(),
    decreases ops.len(),
{
    if ops.len() > 0 {
        lemma_run_keeps_len(s, ops.drop_last());
        lemma_step_keeps_len(run(s, ops.drop_last()), ops.last());
    }
}

proof fn lemma_first_free_unique(s: Seq<DpbSlot>, k: int)
    requires
        is_first_free(s, k),
    ensures
        first_free(s) == k,
{
    let c = first_free(s);
    assert(is_first_free(s, c));
    if c < k {
        assert(!(s[c].state is Free));
    } else if k < c {
        assert(!(s[k].state is Free));
    }
}

/// Reservation and release form a closed cycle: along any sequence of calls
/// the pool keeps its capacity, the InUse slots never outnumber it, and a
/// reservation only ever hands out a slot that was Free, never one InUse.
pub proof fn lemma_slot_cycle(s: Seq<DpbSlot>, ops: Seq<PoolOp>)
    requires
        s.len() <= usize::MAX,
    ensures
        forall|i: int| 0 <= i <= ops.len() ==> {
            &&& (#[trigger] run(s, ops.take(i))).len() == s.len()
            &&& count_in_use(run(s, ops.take(i))) <= s.len()
        },
        forall|i: int| 0 <= i < ops.len() ==> hands_out_free(run(s, ops.take(i)), #[trigger] step(run(s, ops.take(i)), ops[i]).1),
{
    assert forall|i: int| 0 <= i <= ops.len() implies {
        &&& (#[trigger] run(s, ops.take(i))).len() == s.len()
        &&& count_in_use(run(s, ops.take(i))) <= s.len()
    } by {
        lemma_run_keeps_len(s, ops.take(i));
        lemma_count_in_use_bounded(run(s, ops.take(i)));
    }
    assert forall|i: int| 0 <= i < ops.len() implies hands_out_free(run(s, ops.take(i)), #[trigger] step(run(s, ops.take(i)), ops[i]).1) by {
        let t = run(s, ops.take(i));
        lemma_run_keeps_len(s, ops.take(i));
        if let PoolOp::Reserve(r) = ops[i] {
            if exists|k: int| is_first_free(t, k) {
                let k = choose|k: int| is_first_free(t, k);
                lemma_first_free_unique(t, k);
            }
        }
    }
}

proof fn lemma_free_has_first(s: Seq<DpbSlot>, k: int)
    requires
        0 <= k < s.len(),
        s[k].state is Free,
    ensures
        exists|j: int| is_first_free(s, j),
    decreases k,
{
    if exists|j: int| 0 <= j < k && (#[trigger] s[j]).state is Free {
        let j = choose|j: int| 0 <= j < k && (#[trigger] s[j]).state is Free;
        lemma_free_has_first(s, j);
    } else {
        assert(is_first_free(s, k));
    }
}

/// Releasing closes the cycle: after a successful release the next
/// reservation succeeds, whatever picture it is for.
pub proof fn lemma_release_reopens(s: Seq<DpbSlot>, k: usize, reference: ReferenceInfo)
    requires
        release_spec(s, k).1 == PoolOutcome::Done,
    ensures
        reserve_spec(release_spec(s, k).0, reference).1 is Reserved,
{
    let t = release_spec(s, k).0;
    assert(t[k as int].state is Free);
    lemma_free_has_first(t, k as int);
}

/// The pool size for a session keeping `reference_count` reference pictures
/// on a driver that reports `max_dpb_slots`.
pub fn pool_size(max_dpb_slots: u32, reference_count: u32) -> (r: u32)
    requires
        reference_count < u32::MAX,
    ensures
        r == pool_size_spec(max_dpb_slots, reference_count),
{
    if max_dpb_slots >= reference_count + 1 {
        max_dpb_slots
    } else {
        reference_count + 1
    }
}

impl DpbPool {
    pub closed spec fn view(&self) -> Seq<DpbSlot> {
        self.slots@
    }

    /// A pool of `size` free slots.
    pub fn new(size: usize) -> (r: DpbPool)
        ensures
            r@ == Seq::new(size as nat, |_i: int| free_slot()),
    {
        let mut slots: Vec<DpbSlot> = Vec::new();
        let mut i: usize = 0;
        while i < size
            invariant
                i <= size,
                slots@ == Seq::new(i as nat, |_i: int| free_slot()),
            decreases size - i,
        {
            slots.push(DpbSlot { state: SlotState::Free, reference: ReferenceInfo { frame_num: 0, pic_order_cnt: 0 } });
            i += 1;
            assert(slots@ =~= Seq::new(i as nat, |_i: int| free_slot()));
        }
        DpbPool { slots }
    }

    /// Number of slots.
    pub fn capacity(&self) -> (r: usize)
        ensures
            r == self@.len(),
    {
        self.slots.len()
    }

    /// The slot's record, if `slot` is inside the pool.
    pub fn slot(&self, slot: usize) -> (r: Option<DpbSlot>)
        ensures
            slot < self@.len() ==> r == Some(self@[slot as int]),
            slot >= self@.len() ==> r is None,
    {
        if slot < self.slots.len() {
            Some(self.slots[slot])
        } else {
            None
        }
    }

    /// Number of slots holding a picture that may still be referenced.
    pub fn in_use_count(&self) -> (r: usize)
        ensures
            r == count_in_use(self@),
    {
        let mut n: usize = 0;
        let mut i: usize = 0;
        while i < self.slots.len()
            invariant
                i <= self.slots@.len(),
                n == count_in_use(self.slots@.take(i as int)),
            decreases self.slots@.len() - i,
        {
            proof {
                assert(self.slots@.take(i as int + 1).drop_last() =~= self.slots@.take(i as int));
                lemma_count_in_use_bounded(self.slots@.take(i as int));
            }
            if self.slots[i].state == SlotState::InUse {
                n += 1;
            }
            i += 1;
        }
        assert(self.slots@.take(i as int) =~= self.slots@);
        n
    }

    /// The slots holding reference pictures, in increasing order.
    pub fn in_use_slots(&self) -> (r: Vec<usize>)
        ensures
            forall|i: int| 0 <= i < r@.len() ==> r@[i] < self@.len() && (self@[#[trigger] r@[i] as int].state is InUse),
            forall|i: int, j: int| 0 <= i < j < r@.len() ==> r@[i] < r@[j],
            forall|k: int| 0 <= k < self@.len() && (#[trigger] self@[k]).state is InUse ==> r@.contains(k as usize),
    {
        let mut r: Vec<usize> = Vec::new();
        let mut k: usize = 0;
        while k < self.slots.len()
            invariant
                k <= self.slots@.len(),
                forall|i: int| 0 <= i < r@.len() ==> r@[i] < k && (self.slots@[#[trigger] r@[i] as int].state is InUse),
                forall|i: int, j: int| 0 <= i < j < r@.len() ==> r@[i] < r@[j],
                forall|m: int| 0 <= m < k && (#[trigger] self.slots@[m]).state is InUse ==> r@.contains(m as usize),
            decreases self.slots@.len() - k,
        {
            if self.slots[k].state == SlotState::InUse {
                let ghost old_r = r@;
                r.push(k);
                assert forall|m: int| 0 <= m < k + 1 && (#[trigger] self.slots@[m]).state is InUse implies r@.contains(m as usize) by {
                    if m == k {
                        assert(r@[r@.len() - 1] == k);
                    } else {
                        let i = choose|i: int| 0 <= i < old_r.len() && old_r[i] == m as usize;
                        assert(r@[i] == m as usize);
                    }
                }
            }
            k += 1;
        }
        r
    }

    /// Assigns the lowest free slot to an incoming decode operation; fails
    /// with `PoolExhausted`, leaving the pool as it was, when none is free.
    pub fn reserve_slot(&mut self, reference: ReferenceInfo) -> (r: Result<usize, PoolError>)
        ensures
            (final(self)@, match r { Ok(k) => PoolOutcome::Reserved(k), Err(e) => PoolOutcome::Refused(e) })
                == reserve_spec(old(self)@, reference),
            r matches Err(e) ==> e == PoolError::PoolExhausted,
    {
        let mut k: usize = 0;
        while k < self.slots.len()
            invariant
                self.slots@ == old(self).slots@,
                k <= self.slots@.len(),
                forall|j: int| 0 <= j < k ==> !((#[trigger] self.slots@[j]).state is Free),
            decreases self.slots@.len() - k,
        {
            if self.slots[k].state == SlotState::Free {
                proof {
                    lemma_first_free_unique(self.slots@, k as int);
                    assert(is_first_free(old(self)@, k as int));
                }
                self.slots.set(k, DpbSlot { state: SlotState::Reserved, reference });
                assert(self@ == old(self)@.update(k as int, DpbSlot { state: SlotState::Reserved, reference }));
                return Ok(k);
            }
            k += 1;
        }
        Err(PoolError::PoolExhausted)
    }

    /// Records that the decode into a Reserved slot completed: it now holds
    /// a reference picture (InUse).
    pub fn mark_decoded(&mut self, slot: usize) -> (r: Result<(), PoolError>)
        ensures
            (final(self)@, match r { Ok(_) => PoolOutcome::Done, Err(e) => PoolOutcome::Refused(e) })
                == mark_decoded_spec(old(self)@, slot),
    {
        if slot >= self.slots.len() {
            return Err(PoolError::InvalidSlot);
        }
        let cur = self.slots[slot];
        if cur.state != SlotState::Reserved {
            return Err(PoolError::WrongState);
        }
        self.slots.set(slot, DpbSlot { state: SlotState::InUse, reference: cur.reference });
        Ok(())
    }

    /// Frees an InUse slot once its picture is no longer referenced.
    pub fn release_slot(&mut self, slot: usize) -> (r: Result<(), PoolError>)
        ensures
            (final(self)@, match r { Ok(_) => PoolOutcome::Done, Err(e) => PoolOutcome::Refused(e) })
                == release_spec(old(self)@, slot),
    {
        if slot >= self.slots.len() {
            return Err(PoolError::InvalidSlot);
        }
        if self.slots[slot].state != SlotState::InUse {
            return Err(PoolError::WrongState);
        }
        self.slots.set(slot, DpbSlot { state: SlotState::Free, reference: ReferenceInfo { frame_num: 0, pic_order_cnt: 0 } });
        Ok(())
    }

    /// Applies one call, as `step` describes it.
    pub fn apply(&mut self, op: PoolOp) -> (r: PoolOutcome)
        ensures
            (final(self)@, r) == step(old(self)@, op),
    {
        match op {
            PoolOp::Reserve(info) => match self.reserve_slot(info) {
                Ok(k) => PoolOutcome::Reserved(k),
                Err(e) => PoolOutcome::Refused(e),
            },
            PoolOp::MarkDecoded(k) => match self.mark_decoded(k) {
                Ok(_) => PoolOutcome::Done,
                Err(e) => PoolOutcome::Refused(e),
            },
            PoolOp::Release(k) => match self.release_slot(k) {
                Ok(_) => PoolOutcome::Done,
                Err(e) => PoolOutcome::Refused(e),
            },
        }
    }
}

} // verus!
