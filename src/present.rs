//! Swapchain parameters, the presentation loop's reaction to present
//! results, and the order in which resources are rebuilt and torn down.
use vstd::prelude::*;
use crate::error::SetupError;
use crate::flags::{contains, has_bits, PRESENT_MODE_FIFO, PRESENT_MODE_MAILBOX, TRANSFORM_IDENTITY};
use crate::profile::Extent;

verus! {

/// What the surface reports of itself.
#[derive(Clone, Copy, Debug, PartialEq, Eq, Structural)]
pub struct SurfaceCapabilities {
    pub min_image_count: u32,
    /// Zero when there is no limit.
    pub max_image_count: u32,
    /// Width `u32::MAX` when the swapchain decides the extent.
    pub current_extent: Extent,
    pub supported_transforms: u32,
    pub current_transform: u32,
}

#[derive(Clone, Copy, Debug, PartialEq, Eq, Structural)]
pub struct SurfaceFormat {
    pub format: u32,
    pub color_space: u32,
}

/// The parameters a swapchain is created with.
#[derive(Clone, Copy, Debug, PartialEq, Eq, Structural)]
pub struct SwapchainParams {
    pub image_count: u32,
    pub extent: Extent,
    pub pre_transform: u32,
    pub present_mode: u32,
    pub surface_format: SurfaceFormat,
}

/// One image more than the minimum, within the maximum when there is one.
pub open spec fn image_count_spec(caps: SurfaceCapabilities) -> u32 {
    let want: int = if caps.min_image_count == u32::MAX { u32::MAX as int } else { caps.min_image_count + 1 };
    if caps.max_image_count > 0 && want > caps.max_image_count {
        caps.max_image_count
    } else {
        want as u32
    }
}

/// The surface's extent, or the window's when the surface leaves it open.
pub open spec fn extent_spec(caps: SurfaceCapabilities, window: Extent) -> Extent {
    if caps.current_extent.width == u32::MAX { window } else { caps.current_extent }
}

/// The identity transform when supported, else the current one.
pub open spec fn transform_spec(caps: SurfaceCapabilities) -> u32 {
    if has_bits(caps.supported_transforms, TRANSFORM_IDENTITY) { TRANSFORM_IDENTITY } else { caps.current_transform }
}

/// Mailbox when offered, else FIFO, which every surface offers.
pub open spec fn present_mode_spec(modes: Seq<u32>) -> u32 {
    if modes.contains(PRESENT_MODE_MAILBOX) { PRESENT_MODE_MAILBOX } else { PRESENT_MODE_FIFO }
}

/// How many images to ask the swapchain for.
pub fn desired_image_count(caps: &SurfaceCapabilities) -> (r: u32)
    ensures
        r == image_count_spec(*caps),
{
    let want = caps.min_image_count.saturating_add(1);
    if caps.max_image_count > 0 && want > caps.max_image_count {
        caps.max_image_count
    } else {
        want
    }
}

/// The extent of the swapchain images.
pub fn swapchain_extent(caps: &SurfaceCapabilities, window: Extent) -> (r: Extent)
    ensures
        r == extent_spec(*caps, window),
{
    if caps.current_extent.width == u32::MAX {
        window
    } else {
        caps.current_extent
    }
}

/// The transform applied before presentation.
pub fn pre_transform(caps: &SurfaceCapabilities) -> (r: u32)
    ensures
        r == transform_spec(*caps),
{
    if contains(caps.supported_transforms, TRANSFORM_IDENTITY) {
        TRANSFORM_IDENTITY
    } else {
        caps.current_transform
    }
}

/// The present mode among those the surface offers.
pub fn choose_present_mode(modes: &Vec<u32>) -> (r: u32)
    ensures
        r == present_mode_spec(modes@),
{
    let mut i: usize = 0;
    while i < modes.len()
        invariant
            i <= modes@.len(),
            forall|j: int| 0 <= j < i ==> modes@[j] != PRESENT_MODE_MAILBOX,
        decreases modes@.len() - i,
    {
        if modes[i] == PRESENT_MODE_MAILBOX {
            assert(modes@.contains(PRESENT_MODE_MAILBOX)) by {
                assert(modes@[i as int] == PRESENT_MODE_MAILBOX);
            }
            return PRESENT_MODE_MAILBOX;
        }
        i += 1;
    }
    PRESENT_MODE_FIFO
}

/// All swapchain parameters; the first surface format the driver lists is
/// used, and an empty list is `NoCompatibleFormat`.
pub fn plan_swapchain(
    caps: &SurfaceCapabilities,
    window: Extent,
    formats: &Vec<SurfaceFormat>,
    modes: &Vec<u32>,
) -> (r: Result<SwapchainParams, SetupError>)
    ensures
        formats@.len() == 0 ==> r == Err::<SwapchainParams, SetupError>(SetupError::NoCompatibleFormat),
        formats@.len() > 0 ==> r == Ok::<SwapchainParams, SetupError>(SwapchainParams {
            image_count: image_count_spec(*caps),
            extent: extent_spec(*caps, window),
            pre_transform: transform_spec(*caps),
            present_mode: present_mode_spec(modes@),
            surface_format: formats@[0],
        }),
{
    if formats.len() == 0 {
        return Err(SetupError::NoCompatibleFormat);
    }
    Ok(SwapchainParams {
        image_count: desired_image_count(caps),
        extent: swapchain_extent(caps, window),
        pre_transform: pre_transform(caps),
        present_mode: choose_present_mode(modes),
        surface_format: formats[0],
    })
}

/// How an acquire or a present came back.
#[derive(Clone, Copy, Debug, PartialEq, Eq, Structural)]
pub enum PresentResult {
    Success,
    Suboptimal,
    OutOfDate,
    /// The window reported a new size.
    Resized,
    /// Any other failure of the GPU API.
    Failed,
}

/// What the presentation loop does next.
#[derive(Clone, Copy, Debug, PartialEq, Eq, Structural)]
pub enum LoopAction {
    Continue,
    /// Rebuild the swapchain and the images that depend on its extent.
    RecreateSwapchain,
    Fatal,
}

/// The loop's reaction to an acquire or present result.
pub open spec fn loop_action_spec(res: PresentResult) -> LoopAction {
    match res {
        PresentResult::Success => LoopAction::Continue,
        PresentResult::Failed => LoopAction::Fatal,
        _ => LoopAction::RecreateSwapchain,
    }
}

/// Transient swapchain conditions are recovered by recreation; any other
/// failure is fatal.
pub fn on_present_result(res: PresentResult) -> (r: LoopAction)
    ensures
        r == loop_action_spec(res),
{
    match res {
        PresentResult::Success => LoopAction::Continue,
        PresentResult::Failed => LoopAction::Fatal,
        _ => LoopAction::RecreateSwapchain,
    }
}

/// The GPU objects of the pipeline.
#[derive(Clone, Copy, Debug, PartialEq, Eq, Structural)]
pub enum Resource {
    Instance,
    DebugMessenger,
    Surface,
    Device,
    Swapchain,
    SwapchainImageViews,
    CommandPool,
    DepthImage,
    FrameSync,
    DecodeSession,
    DpbImages,
    OutputImage,
    BitstreamBuffer,
    RenderPass,
    Framebuffers,
    Pipeline,
}

/// Resources that depend on the swapchain's extent.
pub open spec fn depends_on_extent(r: Resource) -> bool {
    match r {
        Resource::Swapchain => true,
        Resource::SwapchainImageViews => true,
        Resource::DepthImage => true,
        Resource::Framebuffers => true,
        _ => false,
    }
}

/// Whether the resource must be rebuilt when the extent changes.
pub fn is_extent_dependent(r: Resource) -> (b: bool)
    ensures
        b == depends_on_extent(r),
{
    match r {
        Resource::Swapchain => true,
        Resource::SwapchainImageViews => true,
        Resource::DepthImage => true,
        Resource::Framebuffers => true,
        _ => false,
    }
}

/// The resources to rebuild on recreation, in creation order: only those
/// that depend on the extent; negotiation and the decode session stay.
pub fn recreation_order(created: &Vec<Resource>) -> (r: Vec<Resource>)
    ensures
        r@ == created@.filter(|x: Resource| depends_on_extent(x)),
{
    let mut r: Vec<Resource> = Vec::new();
    let mut i: usize = 0;
    while i < created.len()
        invariant
            i <= created@.len(),
            r@ == created@.take(i as int).filter(|x: Resource| depends_on_extent(x)),
        decreases created@.len() - i,
    {
        proof {
            reveal(Seq::filter);
            assert(created@.take(i as int + 1).drop_last() =~= created@.take(i as int));
        }
        let x = created[i];
        if is_extent_dependent(x) {
            r.push(x);
        }
        i += 1;
    }
    assert(created@.take(i as int) =~= created@);
    r
}

/// One step of shutdown.
#[derive(Clone, Copy, Debug, PartialEq, Eq, Structural)]
pub enum TeardownStep {
    /// Wait until the device has finished all submitted work.
    WaitIdle,
    Destroy(Resource),
}

/// Shutdown: drain the device, then destroy in reverse creation order.
pub open spec fn teardown_spec(created: Seq<Resource>) -> Seq<TeardownStep> {
    seq![TeardownStep::WaitIdle] + Seq::new(created.len(), |i: int| TeardownStep::Destroy(created[created.len() - 1 - i]))
}

/// The shutdown steps for the resources, given in creation order.
pub fn teardown_order(created: &Vec<Resource>) -> (r: Vec<TeardownStep>)
    ensures
        r@ == teardown_spec(created@),
{
    let mut r: Vec<TeardownStep> = Vec::new();
    r.push(TeardownStep::WaitIdle);
    let n = created.len();
    let mut i: usize = 0;
    while i < n
        invariant
            n == created@.len(),
            i <= n,
            r@.len() == i + 1,
            r@[0] == TeardownStep::WaitIdle,
            forall|j: int| 1 <= j <= i ==> #[trigger] r@[j] == TeardownStep::Destroy(created@[n - j]),
        decreases n - i,
    {
        r.push(TeardownStep::Destroy(created[n - 1 - i]));
        i += 1;
    }
    assert(r@ =~= teardown_spec(created@));
    r
}

} // verus!
