use vkvideo::error::SetupError;
use vkvideo::flags::{PRESENT_MODE_FIFO, PRESENT_MODE_MAILBOX, TRANSFORM_IDENTITY};
use vkvideo::memory::{find_memorytype_index, MemoryProperties, MemoryRequirements};
use vkvideo::present::{
    desired_image_count, on_present_result, plan_swapchain, pre_transform, recreation_order,
    swapchain_extent, teardown_order, LoopAction, PresentResult, Resource, SurfaceCapabilities,
    SurfaceFormat, TeardownStep,
};
use vkvideo::profile::Extent;

fn caps(min: u32, max: u32, width: u32) -> SurfaceCapabilities {
    SurfaceCapabilities {
        min_image_count: min,
        max_image_count: max,
        current_extent: Extent { width, height: 600 },
        supported_transforms: TRANSFORM_IDENTITY | 0x2,
        current_transform: 0x2,
    }
}

#[test]
fn image_count_is_one_above_minimum_within_maximum() {
    assert_eq!(desired_image_count(&caps(2, 8, 800)), 3);
    assert_eq!(desired_image_count(&caps(3, 3, 800)), 3);
    assert_eq!(desired_image_count(&caps(3, 0, 800)), 4);
    assert_eq!(desired_image_count(&caps(u32::MAX, 0, 800)), u32::MAX);
}

#[test]
fn extent_follows_window_when_surface_leaves_it_open() {
    let w = Extent { width: 640, height: 360 };
    assert_eq!(swapchain_extent(&caps(2, 0, u32::MAX), w), w);
    assert_eq!(swapchain_extent(&caps(2, 0, 800), w), Extent { width: 800, height: 600 });
}

#[test]
fn identity_transform_when_supported() {
    assert_eq!(pre_transform(&caps(2, 0, 800)), TRANSFORM_IDENTITY);
    let mut c = caps(2, 0, 800);
    c.supported_transforms = 0x2;
    assert_eq!(pre_transform(&c), 0x2);
}

#[test]
fn swapchain_plan_prefers_mailbox() {
    let formats = vec![SurfaceFormat { format: 44, color_space: 0 }, SurfaceFormat { format: 50, color_space: 0 }];
    let p = plan_swapchain(&caps(2, 0, 800), Extent { width: 1, height: 1 }, &formats, &vec![0, PRESENT_MODE_MAILBOX]).unwrap();
    assert_eq!(p.present_mode, PRESENT_MODE_MAILBOX);
    assert_eq!(p.surface_format, formats[0]);
    assert_eq!(p.image_count, 3);
    assert_eq!(p.extent, Extent { width: 800, height: 600 });
    let p = plan_swapchain(&caps(2, 0, 800), Extent { width: 1, height: 1 }, &formats, &vec![0, PRESENT_MODE_FIFO]).unwrap();
    assert_eq!(p.present_mode, PRESENT_MODE_FIFO);
    let none: Vec<SurfaceFormat> = Vec::new();
    assert_eq!(plan_swapchain(&caps(2, 0, 800), Extent { width: 1, height: 1 }, &none, &vec![]), Err(SetupError::NoCompatibleFormat));
}

#[test]
fn transient_present_results_recreate() {
    assert_eq!(on_present_result(PresentResult::Success), LoopAction::Continue);
    assert_eq!(on_present_result(PresentResult::Suboptimal), LoopAction::RecreateSwapchain);
    assert_eq!(on_present_result(PresentResult::OutOfDate), LoopAction::RecreateSwapchain);
    assert_eq!(on_present_result(PresentResult::Resized), LoopAction::RecreateSwapchain);
    assert_eq!(on_present_result(PresentResult::Failed), LoopAction::Fatal);
}

fn created() -> Vec<Resource> {
    vec![
        Resource::Instance,
        Resource::Surface,
        Resource::Device,
        Resource::Swapchain,
        Resource::SwapchainImageViews,
        Resource::DepthImage,
        Resource::DecodeSession,
        Resource::Framebuffers,
    ]
}

#[test]
fn teardown_drains_then_reverses_creation() {
    let steps = teardown_order(&created());
    assert_eq!(steps.len(), 9);
    assert_eq!(steps[0], TeardownStep::WaitIdle);
    assert_eq!(steps[1], TeardownStep::Destroy(Resource::Framebuffers));
    assert_eq!(steps[2], TeardownStep::Destroy(Resource::DecodeSession));
    assert_eq!(steps[8], TeardownStep::Destroy(Resource::Instance));
}

#[test]
fn recreation_rebuilds_only_extent_dependent_resources() {
    assert_eq!(
        recreation_order(&created()),
        vec![Resource::Swapchain, Resource::SwapchainImageViews, Resource::DepthImage, Resource::Framebuffers]
    );
}

#[test]
fn memory_type_is_the_first_allowed_with_all_flags() {
    let props = MemoryProperties { memory_type_flags: vec![0x6, 0x1, 0x7, 0x1] };
    let req = MemoryRequirements { size: 4096, memory_type_bits: 0b1100 };
    assert_eq!(find_memorytype_index(&req, &props, 0x1), Some(2));
    assert_eq!(find_memorytype_index(&req, &props, 0x2), Some(2));
    assert_eq!(find_memorytype_index(&req, &props, 0x8), None);
    let req = MemoryRequirements { size: 4096, memory_type_bits: 0b0011 };
    assert_eq!(find_memorytype_index(&req, &props, 0x1), Some(1));
    assert_eq!(find_memorytype_index(&req, &props, 0x0), Some(0));
    let req = MemoryRequirements { size: 4096, memory_type_bits: 0 };
    assert_eq!(find_memorytype_index(&req, &props, 0x0), None);
}
