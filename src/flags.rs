//! Raw bit values of the Vulkan flags that the decision logic reads.
use vstd::prelude::*;

verus! {

/// `VK_QUEUE_GRAPHICS_BIT`.
pub const QUEUE_GRAPHICS: u32 = 0x1;

/// `VK_QUEUE_VIDEO_DECODE_BIT_KHR`.
pub const QUEUE_VIDEO_DECODE: u32 = 0x20;

/// `VK_VIDEO_CODEC_OPERATION_DECODE_H264_BIT_KHR`.
pub const CODEC_OP_DECODE_H264: u32 = 0x1;

/// `VK_VIDEO_CODEC_OPERATION_DECODE_H265_BIT_KHR`.
pub const CODEC_OP_DECODE_H265: u32 = 0x2;

/// `VK_VIDEO_DECODE_CAPABILITY_DPB_AND_OUTPUT_COINCIDE_BIT_KHR`.
pub const DECODE_CAP_COINCIDE: u32 = 0x1;

/// `VK_VIDEO_DECODE_CAPABILITY_DPB_AND_OUTPUT_DISTINCT_BIT_KHR`.
pub const DECODE_CAP_DISTINCT: u32 = 0x2;

/// `VK_VIDEO_CHROMA_SUBSAMPLING_420_BIT_KHR`.
pub const CHROMA_420: u32 = 0x2;

/// `VK_VIDEO_COMPONENT_BIT_DEPTH_8_BIT_KHR`.
pub const BIT_DEPTH_8: u32 = 0x1;

/// `STD_VIDEO_H264_PROFILE_IDC_MAIN`.
pub const H264_PROFILE_IDC_MAIN: u32 = 77;

/// `VK_VIDEO_DECODE_H264_PICTURE_LAYOUT_PROGRESSIVE_KHR` (the empty mask).
pub const H264_LAYOUT_PROGRESSIVE: u32 = 0x0;

/// `VK_MEMORY_PROPERTY_DEVICE_LOCAL_BIT`.
pub const MEMORY_DEVICE_LOCAL: u32 = 0x1;

/// `VK_SURFACE_TRANSFORM_IDENTITY_BIT_KHR`.
pub const TRANSFORM_IDENTITY: u32 = 0x1;

/// `VK_PRESENT_MODE_MAILBOX_KHR`.
pub const PRESENT_MODE_MAILBOX: u32 = 1;

/// `VK_PRESENT_MODE_FIFO_KHR`.
pub const PRESENT_MODE_FIFO: u32 = 2;

/// Every bit of `bits` is set in `flags`.
pub open spec fn has_bits(flags: u32, bits: u32) -> bool {
    flags & bits == bits
}

/// Whether every bit of `bits` is set in `flags`.
pub fn contains(flags: u32, bits: u32) -> (r: bool)
    ensures
        r == has_bits(flags, bits),
{
    flags & bits == bits
}

} // verus!
