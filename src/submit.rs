//! The per-frame protocol between the decode queue and the graphics queue,
//! a timeline model of its execution, and the ring of in-flight frames.
use vstd::prelude::*;

verus! {

/// The pipeline stage at which a graphics submission waits on a semaphore.
#[derive(Clone, Copy, Debug, PartialEq, Eq, Structural)]
pub enum WaitStage {
    /// Where the decoded picture is sampled.
    FragmentShader,
    /// Where the swapchain image is written.
    ColorAttachmentOutput,
}

/// One step of a frame, in submission order. Timeline semaphore values are
/// the frame number plus one.
#[derive(Clone, Copy, Debug, PartialEq, Eq, Structural)]
pub enum FrameStep {
    /// Acquire the next swapchain image; signals the image-acquired
    /// semaphore.
    AcquireImage,
    /// Decode on the decode queue; signals the decode-complete timeline.
    SubmitDecode { signal_value: u64 },
    /// Queue-family ownership transfer of the decoded image, acquired on
    /// the graphics queue.
    OwnershipTransfer { src_family: u32, dst_family: u32 },
    /// Render on the graphics queue: waits on the image-acquired semaphore
    /// (when `wait_image_acquired`) at `acquire_wait_stage` and on the
    /// decode-complete timeline at `decode_wait_stage`, then signals the
    /// render-complete timeline.
    SubmitRender {
        wait_image_acquired: bool,
        acquire_wait_stage: WaitStage,
        wait_decode_value: u64,
        decode_wait_stage: WaitStage,
        signal_value: u64,
    },
    /// Present once the render-complete timeline is reached.
    Present { wait_render_value: u64 },
}

/// The render step of the frame whose timeline value is `v`.
pub open spec fn render_step(v: u64) -> FrameStep {
    FrameStep::SubmitRender {
        wait_image_acquired: true,
        acquire_wait_stage: WaitStage::ColorAttachmentOutput,
        wait_decode_value: v,
        decode_wait_stage: WaitStage::FragmentShader,
        signal_value: v,
    }
}

/// The steps of frame `frame`: acquire, decode, the ownership transfer when
/// the two families differ, render, present.
pub open spec fn frame_plan_spec(frame: u64, decode_family: u32, graphics_family: u32) -> Seq<FrameStep> {
    let v = (frame + 1) as u64;
    if decode_family == graphics_family {
        seq![
            FrameStep::AcquireImage,
            FrameStep::SubmitDecode { signal_value: v },
            render_step(v),
            FrameStep::Present { wait_render_value: v },
        ]
    } else {
        seq![
            FrameStep::AcquireImage,
            FrameStep::SubmitDecode { signal_value: v },
            FrameStep::OwnershipTransfer { src_family: decode_family, dst_family: graphics_family },
            render_step(v),
            FrameStep::Present { wait_render_value: v },
        ]
    }
}

/// Number of ownership-transfer steps.
pub open spec fn count_transfers(s: Seq<FrameStep>) -> nat
    decreases s.len(),
{
    if s.len() == 0 {
        0
    } else {
        count_transfers(s.drop_last()) + if s.last() is OwnershipTransfer { 1nat } else { 0nat }
    }
}

/// The decode-complete value last signaled in `s`, zero when none.
pub open spec fn last_decode_value(s: Seq<FrameStep>) -> u64
    decreases s.len(),
{
    if s.len() == 0 {
        0
    } else if s.last() is SubmitDecode {
        s.last()->SubmitDecode_signal_value
    } else {
        last_decode_value(s.drop_last())
    }
}

/// The render-complete value last signaled in `s`, zero when none.
pub open spec fn last_render_value(s: Seq<FrameStep>) -> u64
    decreases s.len(),
{
    if s.len() == 0 {
        0
    } else if s.last() is SubmitRender {
        s.last()->SubmitRender_signal_value
    } else {
        last_render_value(s.drop_last())
    }
}

/// Some step of `s` acquires a swapchain image.
pub open spec fn acquires_image(s: Seq<FrameStep>) -> bool
    decreases s.len(),
{
    s.len() > 0 && (s.last() is AcquireImage || acquires_image(s.drop_last()))
}

/// Step `j`, if it renders, waits on an image acquired before it and on
/// exactly the latest decode signaled before it.
pub open spec fn render_is_synchronized(p: Seq<FrameStep>, j: int) -> bool {
    p[j] is SubmitRender ==> {
        &&& p[j]->wait_image_acquired
        &&& acquires_image(p.take(j))
        &&& p[j]->wait_decode_value > 0
        &&& p[j]->wait_decode_value == last_decode_value(p.take(j))
    }
}

/// Step `j`, if it presents, waits on a render signaled before it.
pub open spec fn present_is_synchronized(p: Seq<FrameStep>, j: int) -> bool {
    p[j] is Present ==> 0 < p[j]->wait_render_value <= last_render_value(p.take(j))
}

/// Plans frame `frame` for the given decode and graphics queue families.
pub fn plan_frame(frame: u64, decode_family: u32, graphics_family: u32) -> (r: Vec<FrameStep>)
    requires
        frame < u64::MAX,
    ensures
        r@ == frame_plan_spec(frame, decode_family, graphics_family),
{
    let v = frame + 1;
    let mut r: Vec<FrameStep> = Vec::new();
    r.push(FrameStep::AcquireImage);
    r.push(FrameStep::SubmitDecode { signal_value: v });
    if decode_family != graphics_family {
        r.push(FrameStep::OwnershipTransfer { src_family: decode_family, dst_family: graphics_family });
    }
    r.push(FrameStep::SubmitRender {
        wait_image_acquired: true,
        acquire_wait_stage: WaitStage::ColorAttachmentOutput,
        wait_decode_value: v,
        decode_wait_stage: WaitStage::FragmentShader,
        signal_value: v,
    });
    r.push(FrameStep::Present { wait_render_value: v });
    assert(r@ =~= frame_plan_spec(frame, decode_family, graphics_family));
    r
}

/// A frame's plan holds exactly one ownership transfer when the decode and
/// graphics families differ and none when they are the same; the transfer
/// hands the decoded image from the decode family to the graphics family,
/// after the decode submission and before the render submission.
pub proof fn lemma_transfer_once_per_frame(frame: u64, decode_family: u32, graphics_family: u32)
    requires
        frame < u64::MAX,
    ensures
        count_transfers(frame_plan_spec(frame, decode_family, graphics_family))
            == if decode_family != graphics_family { 1nat } else { 0nat },
        forall|t: int| 0 <= t < frame_plan_spec(frame, decode_family, graphics_family).len()
            && (#[trigger] frame_plan_spec(frame, decode_family, graphics_family)[t]) is OwnershipTransfer
            ==> frame_plan_spec(frame, decode_family, graphics_family)[t]
                == (FrameStep::OwnershipTransfer { src_family: decode_family, dst_family: graphics_family })
            && exists|i: int, j: int| 0 <= i < t < j < frame_plan_spec(frame, decode_family, graphics_family).len()
                && frame_plan_spec(frame, decode_family, graphics_family)[i] is SubmitDecode
                && frame_plan_spec(frame, decode_family, graphics_family)[j] is SubmitRender,
{
    let p = frame_plan_spec(frame, decode_family, graphics_family);
    reveal_with_fuel(count_transfers, 6);
    if decode_family == graphics_family {
        assert(p.drop_last().drop_last().drop_last().drop_last() =~= Seq::<FrameStep>::empty());
        assert(p.drop_last().drop_last().drop_last().last() is AcquireImage);
    } else {
        assert(p.drop_last().drop_last().drop_last().drop_last().drop_last() =~= Seq::<FrameStep>::empty());
        assert(p.drop_last().drop_last().drop_last().drop_last().last() is AcquireImage);
        assert(p.drop_last().drop_last().drop_last().last() is SubmitDecode);
        assert(p.drop_last().drop_last().last() is OwnershipTransfer);
        assert forall|t: int| 0 <= t < p.len() && (#[trigger] p[t]) is OwnershipTransfer
            implies p[t] == (FrameStep::OwnershipTransfer { src_family: decode_family, dst_family: graphics_family })
            && exists|i: int, j: int| 0 <= i < t < j < p.len() && p[i] is SubmitDecode && p[j] is SubmitRender by {
            assert(t == 2);
            assert(p[1] is SubmitDecode && p[3] is SubmitRender);
        }
    }
}

/// Every render of a frame's plan waits, at the stage where the decoded
/// picture is sampled, on exactly the timeline value that the frame's
/// decode signals before it, and waits on the swapchain image acquired
/// before it; its present waits on the render.
pub proof fn lemma_render_waits_for_decode(frame: u64, decode_family: u32, graphics_family: u32)
    requires
        frame < u64::MAX,
    ensures
        forall|j: int| 0 <= j < frame_plan_spec(frame, decode_family, graphics_family).len() ==> {
            &&& render_is_synchronized(frame_plan_spec(frame, decode_family, graphics_family), j)
            &&& present_is_synchronized(frame_plan_spec(frame, decode_family, graphics_family), j)
            &&& (#[trigger] frame_plan_spec(frame, decode_family, graphics_family)[j]) is SubmitRender
                ==> frame_plan_spec(frame, decode_family, graphics_family)[j]->decode_wait_stage
                    == WaitStage::FragmentShader
        },
{
    let p = frame_plan_spec(frame, decode_family, graphics_family);
    lemma_plan_steps(frame, decode_family, graphics_family);
    let at: int = if decode_family == graphics_family { 2 } else { 3 };
    let v = (frame + 1) as u64;
    assert(p.take(1).drop_last() =~= Seq::<FrameStep>::empty());
    assert(acquires_image(p.take(1)));
    assert(p.take(2).drop_last() =~= p.take(1));
    assert(last_decode_value(p.take(2)) == v);
    assert(acquires_image(p.take(2)));
    if at == 3 {
        assert(p.take(3).drop_last() =~= p.take(2));
        assert(last_decode_value(p.take(3)) == v);
        assert(acquires_image(p.take(3)));
    }
    assert(p.take(at + 1).drop_last() =~= p.take(at));
    assert(last_render_value(p.take(at + 1)) == v);
    assert forall|j: int| 0 <= j < p.len() implies {
        &&& render_is_synchronized(p, j)
        &&& present_is_synchronized(p, j)
        &&& (#[trigger] p[j]) is SubmitRender ==> p[j]->decode_wait_stage == WaitStage::FragmentShader
    } by {
        if j == at {
            assert(p[j] == render_step(v));
        } else if j == at + 1 {
            assert(p[j] == FrameStep::Present { wait_render_value: v });
        } else if j == 0 {
            assert(p[j] is AcquireImage);
        } else if j == 1 {
            assert(p[j] is SubmitDecode);
        } else {
            assert(p[j] is OwnershipTransfer);
        }
    }
}

/// When each queue becomes free and how long its work takes, in ticks.
#[derive(Clone, Copy, Debug, PartialEq, Eq, Structural)]
pub struct QueueTiming {
    pub decode_start: u64,
    pub graphics_start: u64,
    pub decode_duration: u64,
    pub render_duration: u64,
}

/// GPU-side times of the first render of a plan and of the decode it read.
#[derive(Clone, Copy, Debug, PartialEq, Eq, Structural)]
pub struct FrameTimestamps {
    pub decode_complete: u64,
    pub render_start: u64,
    pub render_complete: u64,
}

/// Runs a plan on a model of two queues ordered only by semaphores: a queue
/// starts a submission when it is free and every value it waits on has been
/// signaled. Returns the times of the first render and of the decode it
/// waited on. Returns `None` when the plan cannot run as written: a render
/// that does not wait on an image acquired before it, or whose decode wait
/// is not the latest decode signaled before it (a stale or never-signaled
/// value); a present that waits on a render value not yet signaled; a
/// timeline that does not increase; a time past `u64::MAX`; or no render.
pub fn simulate_frame(plan: &Vec<FrameStep>, timing: &QueueTiming) -> (r: Option<FrameTimestamps>)
    ensures
        r matches Some(t) ==> t.decode_complete <= t.render_start <= t.render_complete,
        r matches Some(t) ==> timing.decode_start <= t.decode_complete && timing.graphics_start <= t.render_start,
        r is Some ==> forall|j: int| 0 <= j < plan@.len()
            ==> render_is_synchronized(plan@, j) && present_is_synchronized(plan@, j),
        (exists|f: u64, d: u32, g: u32| f < u64::MAX && plan@ == frame_plan_spec(f, d, g))
            && fits_in_time(*timing) ==> r == Some(frame_times_spec(*timing)),
{
    let ghost is_plan = (exists|f: u64, d: u32, g: u32| f < u64::MAX && plan@ == frame_plan_spec(f, d, g))
        && fits_in_time(*timing);
    let ghost f: u64 = 0;
    let ghost d: u32 = 0;
    let ghost g: u32 = 0;
    proof {
        if is_plan {
            let (f0, d0, g0) = choose|f: u64, d: u32, g: u32| f < u64::MAX && plan@ == frame_plan_spec(f, d, g);
            f = f0;
            d = d0;
            g = g0;
        }
    }
    let ghost render_at: int = if d == g { 2 } else { 3 };
    let mut decode_clock: u64 = timing.decode_start;
    let mut graphics_clock: u64 = timing.graphics_start;
    let mut decode_value: u64 = 0;
    let mut decode_time: u64 = 0;
    let mut render_value: u64 = 0;
    let mut acquired = false;
    let mut first: Option<FrameTimestamps> = None;
    let mut i: usize = 0;
    while i < plan.len()
        invariant
            i <= plan@.len(),
            timing.decode_start <= decode_clock,
            timing.graphics_start <= graphics_clock,
            decode_value > 0 ==> timing.decode_start <= decode_time,
            decode_value == last_decode_value(plan@.take(i as int)),
            render_value == last_render_value(plan@.take(i as int)),
            acquired == acquires_image(plan@.take(i as int)),
            forall|j: int| 0 <= j < i ==> render_is_synchronized(plan@, j) && present_is_synchronized(plan@, j),
            first matches Some(t) ==> t.decode_complete <= t.render_start <= t.render_complete,
            first matches Some(t) ==> timing.decode_start <= t.decode_complete && timing.graphics_start <= t.render_start,
            is_plan == ((exists|f: u64, d: u32, g: u32| f < u64::MAX && plan@ == frame_plan_spec(f, d, g))
                && fits_in_time(*timing)),
            is_plan ==> {
                &&& f < u64::MAX
                &&& plan@ == frame_plan_spec(f, d, g)
                &&& render_at == if d == g { 2int } else { 3int }
                &&& fits_in_time(*timing)
                &&& i >= 1 ==> acquired
                &&& i < 2 ==> decode_value == 0 && decode_clock == timing.decode_start
                &&& i >= 2 ==> decode_value == f + 1 && decode_time == timing.decode_start + timing.decode_duration
                    && decode_clock == decode_time
                &&& i <= render_at ==> render_value == 0 && graphics_clock == timing.graphics_start && first is None
                &&& i > render_at ==> render_value == f + 1 && first == Some(frame_times_spec(*timing))
            },
        decreases plan@.len() - i,
    {
        proof {
            assert(plan@.take(i as int + 1).drop_last() =~= plan@.take(i as int));
            assert(plan@.take(i as int + 1).last() == plan@[i as int]);
            if is_plan {
                lemma_plan_steps(f, d, g);
                let p = frame_plan_spec(f, d, g);
                if i == 0 {
                    assert(p[i as int] is AcquireImage);
                } else if i == 1 {
                    assert(p[i as int] == FrameStep::SubmitDecode { signal_value: (f + 1) as u64 });
                } else if i < render_at {
                    assert(p[i as int] is OwnershipTransfer);
                } else if i == render_at {
                    assert(p[i as int] == render_step((f + 1) as u64));
                } else {
                    assert(p[i as int] == FrameStep::Present { wait_render_value: (f + 1) as u64 });
                }
            }
        }
        match plan[i] {
            FrameStep::AcquireImage => {
                acquired = true;
            },
            FrameStep::SubmitDecode { signal_value } => {
                if signal_value <= decode_value {
                    return None;
                }
                let end = match decode_clock.checked_add(timing.decode_duration) {
                    Some(e) => e,
                    None => return None,
                };
                decode_clock = end;
                decode_value = signal_value;
                decode_time = end;
            },
            FrameStep::OwnershipTransfer { .. } => {},
            FrameStep::SubmitRender { wait_image_acquired, wait_decode_value, signal_value, .. } => {
                if !wait_image_acquired || !acquired || wait_decode_value == 0 || wait_decode_value != decode_value
                    || signal_value <= render_value {
                    return None;
                }
                let start = if graphics_clock >= decode_time { graphics_clock } else { decode_time };
                let end = match start.checked_add(timing.render_duration) {
                    Some(e) => e,
                    None => return None,
                };
                graphics_clock = end;
                render_value = signal_value;
                if first.is_none() {
                    first = Some(FrameTimestamps { decode_complete: decode_time, render_start: start, render_complete: end });
                }
            },
            FrameStep::Present { wait_render_value } => {
                if wait_render_value == 0 || wait_render_value > render_value {
                    return None;
                }
            },
        }
        i += 1;
    }
    proof {
        assert(plan@.take(i as int) =~= plan@);
    }
    first
}

proof fn lemma_plan_steps(f: u64, d: u32, g: u32)
    requires
        f < u64::MAX,
    ensures
        ({
            let p = frame_plan_spec(f, d, g);
            let v = (f + 1) as u64;
            let at: int = if d == g { 2 } else { 3 };
            &&& p.len() == at + 2
            &&& p[0] == FrameStep::AcquireImage
            &&& p[1] == FrameStep::SubmitDecode { signal_value: v }
            &&& d != g ==> p[2] == (FrameStep::OwnershipTransfer { src_family: d, dst_family: g })
            &&& p[at] == render_step(v)
            &&& p[at + 1] == FrameStep::Present { wait_render_value: v }
        }),
{
}

/// The times of a frame's plan: the decode runs as soon as the decode queue
/// is free; the render starts once the graphics queue is free and the
/// decode has completed.
pub open spec fn frame_times_spec(timing: QueueTiming) -> FrameTimestamps {
    let decoded = (timing.decode_start + timing.decode_duration) as u64;
    let start = if timing.graphics_start >= decoded { timing.graphics_start } else { decoded };
    FrameTimestamps {
        decode_complete: decoded,
        render_start: start,
        render_complete: (start + timing.render_duration) as u64,
    }
}

/// The two queues' start times and work fit in `u64` ticks together.
pub open spec fn fits_in_time(timing: QueueTiming) -> bool {
    timing.decode_start + timing.decode_duration + timing.graphics_start + timing.render_duration <= u64::MAX
}

/// What the control thread must do before recording into a frame slot.
#[derive(Clone, Copy, Debug, PartialEq, Eq, Structural)]
pub enum FrameGate {
    /// The slot's reuse fence is still pending: wait on it first.
    WaitFence(usize),
    /// The slot is free: its command buffers may be recorded.
    Record(usize),
}

/// The ring of in-flight frames: one reuse fence per slot, pending from
/// submission until the GPU signals it.
pub struct InFlightFrames {
    pending: Vec<bool>,
    next: usize,
}

impl InFlightFrames {
    /// Whether each slot's fence is pending.
    pub closed spec fn fences(&self) -> Seq<bool> {
        self.pending@
    }

    /// The slot the next frame uses.
    pub closed spec fn next_slot(&self) -> nat {
        self.next as nat
    }

    pub open spec fn wf(&self) -> bool {
        0 < self.fences().len() && self.next_slot() < self.fences().len()
    }

    /// A ring of `depth` slots, none pending.
    pub fn new(depth: usize) -> (r: InFlightFrames)
        requires
            depth > 0,
        ensures
            r.wf(),
            r.fences() == Seq::new(depth as nat, |_i: int| false),
            r.next_slot() == 0,
    {
        let mut pending: Vec<bool> = Vec::new();
        let mut i: usize = 0;
        while i < depth
            invariant
                i <= depth,
                pending@ == Seq::new(i as nat, |_i: int| false),
            decreases depth - i,
        {
            pending.push(false);
            i += 1;
            assert(pending@ =~= Seq::new(i as nat, |_i: int| false));
        }
        InFlightFrames { pending, next: 0 }
    }

    pub fn depth(&self) -> (r: usize)
        ensures
            r == self.fences().len(),
    {
        self.pending.len()
    }

    /// What must happen before the next frame is recorded.
    pub fn gate(&self) -> (r: FrameGate)
        requires
            self.wf(),
        ensures
            self.fences()[self.next_slot() as int] ==> r == FrameGate::WaitFence(self.next_slot() as usize),
            !self.fences()[self.next_slot() as int] ==> r == FrameGate::Record(self.next_slot() as usize),
    {
        if self.pending[self.next] {
            FrameGate::WaitFence(self.next)
        } else {
            FrameGate::Record(self.next)
        }
    }

    /// Records that the fence of `slot` was signaled; a slot outside the
    /// ring changes nothing.
    pub fn fence_signaled(&mut self, slot: usize)
        requires
            old(self).wf(),
        ensures
            final(self).wf(),
            final(self).next_slot() == old(self).next_slot(),
            slot < old(self).fences().len() ==> final(self).fences() == old(self).fences().update(slot as int, false),
            slot >= old(self).fences().len() ==> final(self).fences() == old(self).fences(),
    {
        if slot < self.pending.len() {
            self.pending.set(slot, false);
        }
    }

    /// Records the submission of the next frame: its fence becomes pending
    /// and the ring moves on. Refused, changing nothing, while that slot's
    /// fence is still pending, so the CPU never runs more than `depth`
    /// frames ahead of the GPU.
    pub fn submitted(&mut self) -> (r: Result<usize, FrameGate>)
        requires
            old(self).wf(),
        ensures
            final(self).wf(),
            old(self).fences()[old(self).next_slot() as int] ==> {
                &&& r == Err::<usize, FrameGate>(FrameGate::WaitFence(old(self).next_slot() as usize))
                &&& final(self).fences() == old(self).fences()
                &&& final(self).next_slot() == old(self).next_slot()
            },
            !old(self).fences()[old(self).next_slot() as int] ==> {
                &&& r == Ok::<usize, FrameGate>(old(self).next_slot() as usize)
                &&& final(self).fences() == old(self).fences().update(old(self).next_slot() as int, true)
                &&& final(self).next_slot() == (old(self).next_slot() + 1) % old(self).fences().len()
            },
    {
        let slot = self.next;
        let depth = self.pending.len();
        assert(slot < depth);
        if self.pending[slot] {
            return Err(FrameGate::WaitFence(slot));
        }
        self.pending.set(slot, true);
        self.next = if slot + 1 == depth { 0 } else { slot + 1 };
        proof {
            if slot + 1 == depth {
                vstd::arithmetic::div_mod::lemma_mod_self_0(depth as int);
            } else {
                vstd::arithmetic::div_mod::lemma_small_mod((slot + 1) as nat, depth as nat);
            }
        }
        Ok(slot)
    }
}

} // verus!
