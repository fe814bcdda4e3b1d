//! The decode session: negotiated configuration, the decode queue family it
//! is bound to, and its pool of reference-picture slots.
use vstd::prelude::*;
use crate::device::QueueSelection;
use crate::dpb::{
    free_slot, mark_decoded_spec, pool_size, pool_size_spec, release_spec, reserve_spec, DpbPool,
    PoolOutcome, ReferenceInfo, SlotState,
};
use crate::error::{PoolError, SetupError};
use crate::profile::{negotiate, negotiate_spec, CapabilityReport, ImageMode, NegotiatedConfig, VideoProfile};

verus! {

/// A byte range of the bitstream buffer holding one access unit.
#[derive(Clone, Copy, Debug, PartialEq, Eq, Structural)]
pub struct BitstreamRange {
    pub offset: u64,
    pub size: u64,
}

/// Where a decode operation writes its picture.
#[derive(Clone, Copy, Debug, PartialEq, Eq, Structural)]
pub enum DecodeOutput {
    /// Into the image of the reserved DPB slot (coincident mode).
    DpbSlot(usize),
    /// Into the separate decode output image (distinct mode).
    OutputImage,
}

/// The decode work to record on the session's queue for one picture.
#[derive(Clone, Debug)]
pub struct DecodeCommand {
    pub queue_family: u32,
    pub bitstream: BitstreamRange,
    /// The reserved slot that receives the reconstructed picture.
    pub setup_slot: usize,
    pub output: DecodeOutput,
    pub reference_slots: Vec<usize>,
}

pub struct DecodeSession {
    config: NegotiatedConfig,
    queue_family: u32,
    pool: DpbPool,
}

/// Why `record_decode` refuses the given slots, if it does.
pub open spec fn decode_refusal(s: Seq<crate::dpb::DpbSlot>, target: usize, refs: Seq<usize>) -> Option<PoolError> {
    if target >= s.len() {
        Some(PoolError::InvalidSlot)
    } else if !(s[target as int].state is Reserved) {
        Some(PoolError::WrongState)
    } else if exists|i: int| 0 <= i < refs.len() && #[trigger] refs[i] >= s.len() {
        Some(PoolError::InvalidSlot)
    } else if exists|i: int| 0 <= i < refs.len() && !(s[#[trigger] refs[i] as int].state is InUse) {
        Some(PoolError::WrongState)
    } else {
        None
    }
}

impl DecodeSession {
    /// The configuration negotiated at startup.
    pub closed spec fn config_spec(&self) -> NegotiatedConfig {
        self.config
    }

    /// The decode queue family the session is bound to.
    pub closed spec fn queue_family_spec(&self) -> u32 {
        self.queue_family
    }

    /// The session's slots.
    pub closed spec fn slots(&self) -> Seq<crate::dpb::DpbSlot> {
        self.pool@
    }

    /// Negotiates `profile` against the capability query result and the
    /// listed formats and, only when that succeeds, creates the session on
    /// the selected decode family with a pool of
    /// `max(max_dpb_slots, reference_count + 1)` free slots.
    pub fn open(
        selection: &QueueSelection,
        profile: &VideoProfile,
        report: &CapabilityReport,
        dst_formats: &Vec<u32>,
        dpb_formats: &Vec<u32>,
        shared_formats: &Vec<u32>,
        reference_count: u32,
    ) -> (r: Result<DecodeSession, SetupError>)
        requires
            reference_count < u32::MAX,
        ensures
            r is Ok <==> negotiate_spec(*profile, *report, dst_formats@, dpb_formats@, shared_formats@) is Ok,
            negotiate_spec(*profile, *report, dst_formats@, dpb_formats@, shared_formats@) matches Err(e)
                ==> r == Err::<DecodeSession, SetupError>(e),
            r matches Ok(s) ==> {
                &&& negotiate_spec(*profile, *report, dst_formats@, dpb_formats@, shared_formats@)
                    == Ok::<NegotiatedConfig, SetupError>(s.config_spec())
                &&& s.queue_family_spec() == selection.decode_family
                &&& s.slots() == Seq::new(
                    pool_size_spec(s.config_spec().capabilities.max_dpb_slots, reference_count) as nat,
                    |_i: int| free_slot(),
                )
            },
    {
        let config = match negotiate(profile, report, dst_formats, dpb_formats, shared_formats) {
            Err(e) => return Err(e),
            Ok(c) => c,
        };
        let size = pool_size(config.capabilities.max_dpb_slots, reference_count);
        let pool = DpbPool::new(size as usize);
        Ok(DecodeSession { config, queue_family: selection.decode_family, pool })
    }

    pub fn config(&self) -> (r: NegotiatedConfig)
        ensures
            r == self.config_spec(),
    {
        self.config
    }

    pub fn queue_family(&self) -> (r: u32)
        ensures
            r == self.queue_family_spec(),
    {
        self.queue_family
    }

    pub fn pool(&self) -> (r: &DpbPool)
        ensures
            r@ == self.slots(),
    {
        &self.pool
    }

    /// `DpbPool::reserve_slot` on the session's pool.
    pub fn reserve_slot(&mut self, reference: ReferenceInfo) -> (r: Result<usize, PoolError>)
        ensures
            (final(self).slots(), match r { Ok(k) => PoolOutcome::Reserved(k), Err(e) => PoolOutcome::Refused(e) })
                == reserve_spec(old(self).slots(), reference),
            final(self).config_spec() == old(self).config_spec(),
            final(self).queue_family_spec() == old(self).queue_family_spec(),
    {
        self.pool.reserve_slot(reference)
    }

    /// `DpbPool::mark_decoded` on the session's pool.
    pub fn mark_decoded(&mut self, slot: usize) -> (r: Result<(), PoolError>)
        ensures
            (final(self).slots(), match r { Ok(_) => PoolOutcome::Done, Err(e) => PoolOutcome::Refused(e) })
                == mark_decoded_spec(old(self).slots(), slot),
            final(self).config_spec() == old(self).config_spec(),
            final(self).queue_family_spec() == old(self).queue_family_spec(),
    {
        self.pool.mark_decoded(slot)
    }

    /// `DpbPool::release_slot` on the session's pool.
    pub fn release_slot(&mut self, slot: usize) -> (r: Result<(), PoolError>)
        ensures
            (final(self).slots(), match r { Ok(_) => PoolOutcome::Done, Err(e) => PoolOutcome::Refused(e) })
                == release_spec(old(self).slots(), slot),
            final(self).config_spec() == old(self).config_spec(),
            final(self).queue_family_spec() == old(self).queue_family_spec(),
    {
        self.pool.release_slot(slot)
    }

    /// The decode work for one access unit: the picture goes into the
    /// Reserved slot `target`, predicted from the InUse slots `references`.
    /// The output is that slot's image in coincident mode and the separate
    /// output image in distinct mode. Nothing is recorded when a slot is
    /// outside the pool (`InvalidSlot`) or in the wrong state (`WrongState`).
    pub fn record_decode(&self, bitstream: BitstreamRange, target: usize, references: &Vec<usize>)
        -> (r: Result<DecodeCommand, PoolError>)
        ensures
            decode_refusal(self.slots(), target, references@) matches Some(e) ==> r == Err::<DecodeCommand, PoolError>(e),
            decode_refusal(self.slots(), target, references@) is None ==> r is Ok,
            r matches Ok(cmd) ==> {
                &&& cmd.queue_family == self.queue_family_spec()
                &&& cmd.bitstream == bitstream
                &&& cmd.setup_slot == target
                &&& cmd.reference_slots@ == references@
                &&& cmd.output == if self.config_spec().formats.mode == ImageMode::Coincident {
                    DecodeOutput::DpbSlot(target)
                } else {
                    DecodeOutput::OutputImage
                }
            },
    {
        let n = self.pool.capacity();
        if target >= n {
            return Err(PoolError::InvalidSlot);
        }
        let t = self.pool.slot(target).unwrap();
        if t.state != SlotState::Reserved {
            return Err(PoolError::WrongState);
        }
        let mut i: usize = 0;
        while i < references.len()
            invariant
                n == self.slots().len(),
                target < n,
                self.slots()[target as int].state is Reserved,
                i <= references@.len(),
                forall|j: int| 0 <= j < i ==> #[trigger] references@[j] < n,
            decreases references@.len() - i,
        {
            if references[i] >= n {
                assert(references@[i as int] >= self.slots().len());
                return Err(PoolError::InvalidSlot);
            }
            i += 1;
        }
        let mut i: usize = 0;
        while i < references.len()
            invariant
                n == self.slots().len(),
                target < n,
                self.slots()[target as int].state is Reserved,
                i <= references@.len(),
                forall|j: int| 0 <= j < references@.len() ==> #[trigger] references@[j] < n,
                forall|j: int| 0 <= j < i ==> (self.slots()[#[trigger] references@[j] as int].state is InUse),
            decreases references@.len() - i,
        {
            let s = self.pool.slot(references[i]).unwrap();
            if s.state != SlotState::InUse {
                assert(!(self.slots()[references@[i as int] as int].state is InUse));
                return Err(PoolError::WrongState);
            }
            i += 1;
        }
        let output = match self.config.formats.mode {
            ImageMode::Coincident => DecodeOutput::DpbSlot(target),
            ImageMode::Distinct => DecodeOutput::OutputImage,
        };
        Ok(DecodeCommand {
            queue_family: self.queue_family,
            bitstream,
            setup_slot: target,
            output,
            reference_slots: references.clone(),
        })
    }
}

} // verus!
