use ash::vk;
use vkvideo::flags;

#[test]
fn flag_values_match_the_vulkan_headers() {
    assert_eq!(vk::QueueFlags::GRAPHICS.as_raw(), flags::QUEUE_GRAPHICS);
    assert_eq!(vk::QueueFlags::VIDEO_DECODE_KHR.as_raw(), flags::QUEUE_VIDEO_DECODE);
    assert_eq!(vk::VideoCodecOperationFlagsKHR::DECODE_H264.as_raw(), flags::CODEC_OP_DECODE_H264);
    assert_eq!(vk::VideoCodecOperationFlagsKHR::DECODE_H265.as_raw(), flags::CODEC_OP_DECODE_H265);
    assert_eq!(vk::VideoDecodeCapabilityFlagsKHR::DPB_AND_OUTPUT_COINCIDE.as_raw(), flags::DECODE_CAP_COINCIDE);
    assert_eq!(vk::VideoDecodeCapabilityFlagsKHR::DPB_AND_OUTPUT_DISTINCT.as_raw(), flags::DECODE_CAP_DISTINCT);
    assert_eq!(vk::VideoChromaSubsamplingFlagsKHR::TYPE_420.as_raw(), flags::CHROMA_420);
    assert_eq!(vk::VideoComponentBitDepthFlagsKHR::TYPE_8.as_raw(), flags::BIT_DEPTH_8);
    assert_eq!(vk::native::StdVideoH264ProfileIdc_STD_VIDEO_H264_PROFILE_IDC_MAIN as u32, flags::H264_PROFILE_IDC_MAIN);
    assert_eq!(vk::VideoDecodeH264PictureLayoutFlagsKHR::PROGRESSIVE.as_raw(), flags::H264_LAYOUT_PROGRESSIVE);
    assert_eq!(vk::MemoryPropertyFlags::DEVICE_LOCAL.as_raw(), flags::MEMORY_DEVICE_LOCAL);
    assert_eq!(vk::SurfaceTransformFlagsKHR::IDENTITY.as_raw(), flags::TRANSFORM_IDENTITY);
    assert_eq!(vk::PresentModeKHR::MAILBOX.as_raw() as u32, flags::PRESENT_MODE_MAILBOX);
    assert_eq!(vk::PresentModeKHR::FIFO.as_raw() as u32, flags::PRESENT_MODE_FIFO);
}

#[test]
fn contains_tests_every_bit() {
    assert!(flags::contains(0x21, flags::QUEUE_VIDEO_DECODE));
    assert!(flags::contains(0x21, 0x21));
    assert!(!flags::contains(0x01, flags::QUEUE_VIDEO_DECODE));
    assert!(!flags::contains(0x20, 0x21));
    assert!(flags::contains(0, 0));
}
