//! Enumeration of GPU candidates and choice of the decode and graphics queue
//! families.
use vstd::prelude::*;
use crate::error::SetupError;
use crate::flags::{contains, has_bits, QUEUE_GRAPHICS, QUEUE_VIDEO_DECODE};

verus! {

/// What the driver reports of one queue family, in enumeration order.
#[derive(Clone, Copy, Debug, PartialEq, Eq, Structural)]
pub struct FamilyReport {
    /// `VkQueueFlags` of the family.
    pub queue_flags: u32,
    /// `VkVideoCodecOperationFlagsKHR` from the family's video properties.
    pub codec_operations: u32,
    /// Whether the platform can present to the target surface from it.
    pub presentable: bool,
}

/// What the driver reports of one physical device.
#[derive(Clone, Debug)]
pub struct DeviceReport {
    pub handle: u64,
    pub families: Vec<FamilyReport>,
}

/// A queue family of a candidate device.
#[derive(Clone, Copy, Debug, PartialEq, Eq, Structural)]
pub struct QueueFamily {
    pub index: u32,
    pub queue_flags: u32,
    pub codec_operations: u32,
    pub presentable: bool,
}

/// A physical device with its queue families.
#[derive(Clone, Debug)]
pub struct DeviceCandidate {
    pub handle: u64,
    pub queue_families: Vec<QueueFamily>,
}

/// The chosen device and its two (possibly equal) queue family indices.
#[derive(Clone, Copy, Debug, PartialEq, Eq, Structural)]
pub struct QueueSelection {
    /// Position of the device in the candidate list.
    pub device_index: usize,
    pub handle: u64,
    pub decode_family: u32,
    pub graphics_family: u32,
}

/// The family `k` of a device as a candidate describes it.
pub open spec fn family_of(report: FamilyReport, k: int) -> QueueFamily {
    QueueFamily {
        index: k as u32,
        queue_flags: report.queue_flags,
        codec_operations: report.codec_operations,
        presentable: report.presentable,
    }
}

/// `c` describes `report`, family indices following enumeration order.
pub open spec fn describes(c: DeviceCandidate, report: DeviceReport) -> bool {
    &&& c.handle == report.handle
    &&& c.queue_families@.len() == report.families@.len()
    &&& forall|k: int| 0 <= k < c.queue_families@.len()
        ==> c.queue_families@[k] == family_of(report.families@[k], k)
}

/// The family can run decode work for codec operation `op`.
pub open spec fn is_decode_family(f: QueueFamily, op: u32) -> bool {
    has_bits(f.queue_flags, QUEUE_VIDEO_DECODE) && has_bits(f.codec_operations, op)
}

/// The family runs graphics work and can present to the surface.
pub open spec fn is_present_family(f: QueueFamily) -> bool {
    has_bits(f.queue_flags, QUEUE_GRAPHICS) && f.presentable
}

/// Some family of the device decodes `op`.
pub open spec fn offers_decode(c: DeviceCandidate, op: u32) -> bool {
    exists|k: int| 0 <= k < c.queue_families@.len() && is_decode_family(#[trigger] c.queue_families@[k], op)
}

/// Some family of the device runs graphics and can present.
pub open spec fn offers_presentation(c: DeviceCandidate) -> bool {
    exists|k: int| 0 <= k < c.queue_families@.len() && is_present_family(#[trigger] c.queue_families@[k])
}

/// The device can both decode `op` and present.
pub open spec fn is_suitable(c: DeviceCandidate, op: u32) -> bool {
    offers_decode(c, op) && offers_presentation(c)
}

/// `k` is the first decode family for `op` in `fams`.
pub open spec fn is_first_decode(fams: Seq<QueueFamily>, op: u32, k: int) -> bool {
    &&& 0 <= k < fams.len()
    &&& is_decode_family(fams[k], op)
    &&& forall|j: int| 0 <= j < k ==> !is_decode_family(#[trigger] fams[j], op)
}

/// `k` is the first presentable graphics family in `fams`.
pub open spec fn is_first_present(fams: Seq<QueueFamily>, k: int) -> bool {
    &&& 0 <= k < fams.len()
    &&& is_present_family(fams[k])
    &&& forall|j: int| 0 <= j < k ==> !is_present_family(#[trigger] fams[j])
}

/// Position of the first decode family for `op`.
pub open spec fn first_decode(fams: Seq<QueueFamily>, op: u32) -> int {
    choose|k: int| is_first_decode(fams, op, k)
}

/// Position of the first presentable graphics family.
pub open spec fn first_present(fams: Seq<QueueFamily>) -> int {
    choose|k: int| is_first_present(fams, k)
}

/// What the selector owes on the candidate list: the first suitable device,
/// with its first decode family and its first presentable graphics family.
pub open spec fn is_selection_of(sel: QueueSelection, cands: Seq<DeviceCandidate>, op: u32) -> bool {
    let i = sel.device_index as int;
    let fams = cands[i].queue_families@;
    &&& 0 <= i < cands.len()
    &&& is_suitable(cands[i], op)
    &&& forall|j: int| 0 <= j < i ==> !is_suitable(#[trigger] cands[j], op)
    &&& sel.handle == cands[i].handle
    &&& sel.decode_family == fams[first_decode(fams, op)].index
    &&& sel.graphics_family == fams[first_present(fams)].index
}

proof fn lemma_first_decode_unique(fams: Seq<QueueFamily>, op: u32, k: int)
    requires
        is_first_decode(fams, op, k),
    ensures
        first_decode(fams, op) == k,
{
    let c = first_decode(fams, op);
    assert(is_first_decode(fams, op, c));
    if c < k {
        assert(!is_decode_family(fams[c], op));
    } else if k < c {
        assert(!is_decode_family(fams[k], op));
    }
}

proof fn lemma_first_present_unique(fams: Seq<QueueFamily>, k: int)
    requires
        is_first_present(fams, k),
    ensures
        first_present(fams) == k,
{
    let c = first_present(fams);
    assert(is_first_present(fams, c));
    if c < k {
        assert(!is_present_family(fams[c]));
    } else if k < c {
        assert(!is_present_family(fams[k]));
    }
}

/// Turns the driver's report of one device into a candidate.
pub fn describe_device(report: &DeviceReport) -> (c: DeviceCandidate)
    requires
        report.families@.len() <= u32::MAX,
    ensures
        describes(c, *report),
{
    let mut families: Vec<QueueFamily> = Vec::new();
    let mut k: usize = 0;
    while k < report.families.len()
        invariant
            k <= report.families@.len() <= u32::MAX,
            families@.len() == k,
            forall|j: int| 0 <= j < k ==> families@[j] == family_of(report.families@[j], j),
        decreases report.families@.len() - k,
    {
        let f = report.families[k];
        families.push(QueueFamily {
            index: k as u32,
            queue_flags: f.queue_flags,
            codec_operations: f.codec_operations,
            presentable: f.presentable,
        });
        k += 1;
    }
    DeviceCandidate { handle: report.handle, queue_families: families }
}

/// Produces the candidates in enumeration order; fails with
/// `NoDevicesFound` when the instance reports no device.
pub fn enumerate_candidates(reports: &Vec<DeviceReport>) -> (r: Result<Vec<DeviceCandidate>, SetupError>)
    requires
        forall|i: int| 0 <= i < reports@.len() ==> (#[trigger] reports@[i]).families@.len() <= u32::MAX,
    ensures
        reports@.len() == 0 <==> r == Err::<Vec<DeviceCandidate>, SetupError>(SetupError::NoDevicesFound),
        reports@.len() > 0 <==> r is Ok,
        r matches Err(e) ==> e == SetupError::NoDevicesFound,
        r matches Ok(cands) ==> {
            &&& cands@.len() == reports@.len()
            &&& forall|i: int| 0 <= i < cands@.len() ==> describes(#[trigger] cands@[i], reports@[i])
        },
{
    if reports.len() == 0 {
        return Err(SetupError::NoDevicesFound);
    }
    let mut cands: Vec<DeviceCandidate> = Vec::new();
    let mut i: usize = 0;
    while i < reports.len()
        invariant
            i <= reports@.len(),
            cands@.len() == i,
            forall|j: int| 0 <= j < reports@.len() ==> (#[trigger] reports@[j]).families@.len() <= u32::MAX,
            forall|j: int| 0 <= j < i ==> describes(#[trigger] cands@[j], reports@[j]),
        decreases reports@.len() - i,
    {
        let c = describe_device(&reports[i]);
        cands.push(c);
        i += 1;
    }
    Ok(cands)
}

/// Position of the first family of `c` that decodes `op`.
fn find_decode_family(c: &DeviceCandidate, op: u32) -> (r: Option<usize>)
    ensures
        r matches Some(k) ==> is_first_decode(c.queue_families@, op, k as int),
        r is None ==> !offers_decode(*c, op),
{
    let fams = &c.queue_families;
    let mut k: usize = 0;
    while k < fams.len()
        invariant
            fams@ == c.queue_families@,
            k <= fams@.len(),
            forall|j: int| 0 <= j < k ==> !is_decode_family(#[trigger] fams@[j], op),
        decreases fams@.len() - k,
    {
        let f = fams[k];
        if contains(f.queue_flags, QUEUE_VIDEO_DECODE) && contains(f.codec_operations, op) {
            return Some(k);
        }
        k += 1;
    }
    None
}

/// Position of the first graphics family of `c` that can present.
fn find_present_family(c: &DeviceCandidate) -> (r: Option<usize>)
    ensures
        r matches Some(k) ==> is_first_present(c.queue_families@, k as int),
        r is None ==> !offers_presentation(*c),
{
    let fams = &c.queue_families;
    let mut k: usize = 0;
    while k < fams.len()
        invariant
            fams@ == c.queue_families@,
            k <= fams@.len(),
            forall|j: int| 0 <= j < k ==> !is_present_family(#[trigger] fams@[j]),
        decreases fams@.len() - k,
    {
        let f = fams[k];
        if contains(f.queue_flags, QUEUE_GRAPHICS) && f.presentable {
            return Some(k);
        }
        k += 1;
    }
    None
}

/// Picks the first candidate, in enumeration order, that has both a queue
/// family decoding `op` and a graphics family that can present.
///
/// Fails with `DecodeUnsupported` when no candidate decodes `op`, and with
/// `PresentationUnsupported` when some do but none of them can present.
pub fn select_queues(cands: &Vec<DeviceCandidate>, op: u32) -> (r: Result<QueueSelection, SetupError>)
    ensures
        r is Ok <==> exists|i: int| 0 <= i < cands@.len() && is_suitable(#[trigger] cands@[i], op),
        r matches Ok(sel) ==> is_selection_of(sel, cands@, op),
        r == Err::<QueueSelection, SetupError>(SetupError::DecodeUnsupported)
            <==> forall|i: int| 0 <= i < cands@.len() ==> !offers_decode(#[trigger] cands@[i], op),
        r == Err::<QueueSelection, SetupError>(SetupError::PresentationUnsupported) <==> {
            &&& exists|i: int| 0 <= i < cands@.len() && offers_decode(#[trigger] cands@[i], op)
            &&& forall|i: int| 0 <= i < cands@.len() ==> !is_suitable(#[trigger] cands@[i], op)
        },
{
    let mut any_decode = false;
    let mut i: usize = 0;
    while i < cands.len()
        invariant
            i <= cands@.len(),
            forall|j: int| 0 <= j < i ==> !is_suitable(#[trigger] cands@[j], op),
            any_decode <==> exists|j: int| 0 <= j < i && offers_decode(#[trigger] cands@[j], op),
        decreases cands@.len() - i,
    {
        let c = &cands[i];
        let d = find_decode_family(c, op);
        let g = find_present_family(c);
        match (d, g) {
            (Some(dk), Some(gk)) => {
                proof {
                    lemma_first_decode_unique(c.queue_families@, op, dk as int);
                    lemma_first_present_unique(c.queue_families@, gk as int);
                }
                let sel = QueueSelection {
                    device_index: i,
                    handle: c.handle,
                    decode_family: c.queue_families[dk].index,
                    graphics_family: c.queue_families[gk].index,
                };
                return Ok(sel);
            },
            (Some(_), None) => {
                any_decode = true;
            },
            _ => {},
        }
        i += 1;
    }
    if any_decode {
        Err(SetupError::PresentationUnsupported)
    } else {
        Err(SetupError::DecodeUnsupported)
    }
}

/// The distinct queue families to create queues on, graphics first.
pub fn queue_create_families(sel: &QueueSelection) -> (r: Vec<u32>)
    ensures
        sel.graphics_family == sel.decode_family ==> r@ == seq![sel.graphics_family],
        sel.graphics_family != sel.decode_family ==> r@ == seq![sel.graphics_family, sel.decode_family],
{
    let mut r: Vec<u32> = Vec::new();
    r.push(sel.graphics_family);
    if sel.decode_family != sel.graphics_family {
        r.push(sel.decode_family);
    }
    r
}

} // verus!
