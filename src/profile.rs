//! The decode profile, checking a stream against it, and negotiation of
//! decode capabilities and image formats with the driver.
use vstd::prelude::*;
use crate::error::SetupError;
use crate::flags::{
    contains, has_bits, BIT_DEPTH_8, CHROMA_420, CODEC_OP_DECODE_H264, DECODE_CAP_COINCIDE,
    DECODE_CAP_DISTINCT, H264_LAYOUT_PROGRESSIVE, H264_PROFILE_IDC_MAIN,
};

verus! {

/// The codec of a video track, as the container demuxer names it.
#[derive(Clone, Copy, Debug, PartialEq, Eq, Structural)]
pub enum CodecTag {
    Unknown,
    H264,
    H263,
    Mp4v,
    Av1,
    Vp8,
    Vp9,
    Encrypted,
    Other,
}

/// What the demuxer reports of the video track.
#[derive(Clone, Copy, Debug, PartialEq, Eq, Structural)]
pub struct StreamInfo {
    pub width: u16,
    pub height: u16,
    pub codec: CodecTag,
}

impl Default for StreamInfo {
    fn default() -> (r: StreamInfo)
        ensures
            r == (StreamInfo { width: 0, height: 0, codec: CodecTag::Unknown }),
    {
        StreamInfo { width: 0, height: 0, codec: CodecTag::Unknown }
    }
}

/// Description of the decode operation, used as the key of capability and
/// format queries.
#[derive(Clone, Copy, Debug, PartialEq, Eq, Structural)]
pub struct VideoProfile {
    pub codec_operation: u32,
    pub chroma_subsampling: u32,
    pub luma_bit_depth: u32,
    pub chroma_bit_depth: u32,
    pub std_profile_idc: u32,
    pub picture_layout: u32,
}

/// H.264 Main profile, 4:2:0, 8-bit luma and chroma, progressive.
pub open spec fn h264_main_spec() -> VideoProfile {
    VideoProfile {
        codec_operation: CODEC_OP_DECODE_H264,
        chroma_subsampling: CHROMA_420,
        luma_bit_depth: BIT_DEPTH_8,
        chroma_bit_depth: BIT_DEPTH_8,
        std_profile_idc: H264_PROFILE_IDC_MAIN,
        picture_layout: H264_LAYOUT_PROGRESSIVE,
    }
}

impl VideoProfile {
    /// The one profile this pipeline decodes.
    pub fn h264_main() -> (r: VideoProfile)
        ensures
            r == h264_main_spec(),
    {
        VideoProfile {
            codec_operation: CODEC_OP_DECODE_H264,
            chroma_subsampling: CHROMA_420,
            luma_bit_depth: BIT_DEPTH_8,
            chroma_bit_depth: BIT_DEPTH_8,
            std_profile_idc: H264_PROFILE_IDC_MAIN,
            picture_layout: H264_LAYOUT_PROGRESSIVE,
        }
    }
}

/// The profile for a demuxed stream; anything but H.264 is refused before
/// any GPU object exists.
pub fn profile_for_stream(info: &StreamInfo) -> (r: Result<VideoProfile, SetupError>)
    ensures
        info.codec == CodecTag::H264 ==> r == Ok::<VideoProfile, SetupError>(h264_main_spec()),
        info.codec != CodecTag::H264 ==> r == Err::<VideoProfile, SetupError>(SetupError::UnsupportedCodec),
{
    match info.codec {
        CodecTag::H264 => Ok(VideoProfile::h264_main()),
        _ => Err(SetupError::UnsupportedCodec),
    }
}

#[derive(Clone, Copy, Debug, PartialEq, Eq, Structural)]
pub struct Extent {
    pub width: u32,
    pub height: u32,
}

/// What the capability query for a profile handed back, field by field.
#[derive(Clone, Copy, Debug, PartialEq, Eq, Structural)]
pub struct CapabilityReport {
    /// Codec operations the device offers for the profile.
    pub codec_operations: u32,
    /// The codec-specific structure was chained into the query.
    pub codec_attachment: bool,
    /// `VkVideoDecodeCapabilityFlagsKHR`.
    pub decode_flags: u32,
    pub min_extent: Extent,
    pub max_extent: Extent,
    pub picture_access_granularity: Extent,
    pub max_dpb_slots: u32,
    pub max_active_reference_pictures: u32,
    /// `StdVideoH264LevelIdc` from the codec-specific structure.
    pub max_level_idc: u32,
}

/// Decode capabilities of a (device, profile) pair.
#[derive(Clone, Copy, Debug, PartialEq, Eq, Structural)]
pub struct DecodeCapabilities {
    pub flags: u32,
    pub min_extent: Extent,
    pub max_extent: Extent,
    pub picture_access_granularity: Extent,
    pub max_dpb_slots: u32,
    pub max_active_reference_pictures: u32,
    pub max_level_idc: u32,
}

/// The capabilities a valid query result describes.
pub open spec fn capabilities_from(report: CapabilityReport) -> DecodeCapabilities {
    DecodeCapabilities {
        flags: report.decode_flags,
        min_extent: report.min_extent,
        max_extent: report.max_extent,
        picture_access_granularity: report.picture_access_granularity,
        max_dpb_slots: report.max_dpb_slots,
        max_active_reference_pictures: report.max_active_reference_pictures,
        max_level_idc: report.max_level_idc,
    }
}

/// The query result holds no usable capability.
pub open spec fn is_empty_report(report: CapabilityReport) -> bool {
    report.decode_flags == 0 || report.max_extent.width == 0 || report.max_extent.height == 0
}

/// Outcome of checking a capability query result against the profile.
pub open spec fn validate_spec(profile: VideoProfile, report: CapabilityReport) -> Result<DecodeCapabilities, SetupError> {
    if !has_bits(report.codec_operations, profile.codec_operation) || report.codec_operations == 0 {
        Err(SetupError::DecodeUnsupported)
    } else if !report.codec_attachment {
        Err(SetupError::MissingProfileExtension)
    } else if is_empty_report(report) {
        Err(SetupError::EmptyCapabilities)
    } else {
        Ok(capabilities_from(report))
    }
}

/// Checks what the capability query handed back: the codec operation must
/// be offered, the codec-specific structure must have been chained, and the
/// result must not be empty.
pub fn validate_capabilities(profile: &VideoProfile, report: &CapabilityReport) -> (r: Result<DecodeCapabilities, SetupError>)
    ensures
        r == validate_spec(*profile, *report),
{
    if !contains(report.codec_operations, profile.codec_operation) || report.codec_operations == 0 {
        Err(SetupError::DecodeUnsupported)
    } else if !report.codec_attachment {
        Err(SetupError::MissingProfileExtension)
    } else if report.decode_flags == 0 || report.max_extent.width == 0 || report.max_extent.height == 0 {
        Err(SetupError::EmptyCapabilities)
    } else {
        Ok(DecodeCapabilities {
            flags: report.decode_flags,
            min_extent: report.min_extent,
            max_extent: report.max_extent,
            picture_access_granularity: report.picture_access_granularity,
            max_dpb_slots: report.max_dpb_slots,
            max_active_reference_pictures: report.max_active_reference_pictures,
            max_level_idc: report.max_level_idc,
        })
    }
}

/// Whether the decode output and the reference pictures share images.
#[derive(Clone, Copy, Debug, PartialEq, Eq, Structural)]
pub enum ImageMode {
    Coincident,
    Distinct,
}

/// The negotiated formats of the decode output and of the DPB images.
#[derive(Clone, Copy, Debug, PartialEq, Eq, Structural)]
pub struct FormatChoice {
    pub mode: ImageMode,
    pub dst_format: u32,
    pub dpb_format: u32,
}

/// Outcome of format negotiation: coincident images when the capabilities
/// allow them and a format serves both usages, else distinct images when
/// allowed; the first format the driver lists wins.
pub open spec fn format_choice_spec(
    caps: DecodeCapabilities,
    dst: Seq<u32>,
    dpb: Seq<u32>,
    shared: Seq<u32>,
) -> Result<FormatChoice, SetupError> {
    if dst.len() == 0 || dpb.len() == 0 {
        Err(SetupError::NoCompatibleFormat)
    } else if has_bits(caps.flags, DECODE_CAP_COINCIDE) && shared.len() > 0 {
        Ok(FormatChoice { mode: ImageMode::Coincident, dst_format: shared[0], dpb_format: shared[0] })
    } else if has_bits(caps.flags, DECODE_CAP_DISTINCT) {
        Ok(FormatChoice { mode: ImageMode::Distinct, dst_format: dst[0], dpb_format: dpb[0] })
    } else {
        Err(SetupError::NoCompatibleFormat)
    }
}

/// Chooses the image mode and formats from the formats the driver lists for
/// decode output (`dst_formats`), for reference pictures (`dpb_formats`)
/// and for images serving both (`shared_formats`).
pub fn choose_formats(
    caps: &DecodeCapabilities,
    dst_formats: &Vec<u32>,
    dpb_formats: &Vec<u32>,
    shared_formats: &Vec<u32>,
) -> (r: Result<FormatChoice, SetupError>)
    ensures
        r == format_choice_spec(*caps, dst_formats@, dpb_formats@, shared_formats@),
{
    if dst_formats.len() == 0 || dpb_formats.len() == 0 {
        Err(SetupError::NoCompatibleFormat)
    } else if contains(caps.flags, DECODE_CAP_COINCIDE) && shared_formats.len() > 0 {
        Ok(FormatChoice { mode: ImageMode::Coincident, dst_format: shared_formats[0], dpb_format: shared_formats[0] })
    } else if contains(caps.flags, DECODE_CAP_DISTINCT) {
        Ok(FormatChoice { mode: ImageMode::Distinct, dst_format: dst_formats[0], dpb_format: dpb_formats[0] })
    } else {
        Err(SetupError::NoCompatibleFormat)
    }
}

/// The configuration fixed at startup and handed to the session and the
/// submission pipeline.
#[derive(Clone, Copy, Debug, PartialEq, Eq, Structural)]
pub struct NegotiatedConfig {
    pub profile: VideoProfile,
    pub capabilities: DecodeCapabilities,
    pub formats: FormatChoice,
}

/// Whole negotiation: capabilities first, then formats.
pub open spec fn negotiate_spec(
    profile: VideoProfile,
    report: CapabilityReport,
    dst: Seq<u32>,
    dpb: Seq<u32>,
    shared: Seq<u32>,
) -> Result<NegotiatedConfig, SetupError> {
    match validate_spec(profile, report) {
        Err(e) => Err(e),
        Ok(caps) => match format_choice_spec(caps, dst, dpb, shared) {
            Err(e) => Err(e),
            Ok(formats) => Ok(NegotiatedConfig { profile, capabilities: caps, formats }),
        },
    }
}

/// Negotiates capabilities and formats for `profile`.
pub fn negotiate(
    profile: &VideoProfile,
    report: &CapabilityReport,
    dst_formats: &Vec<u32>,
    dpb_formats: &Vec<u32>,
    shared_formats: &Vec<u32>,
) -> (r: Result<NegotiatedConfig, SetupError>)
    ensures
        r == negotiate_spec(*profile, *report, dst_formats@, dpb_formats@, shared_formats@),
{
    let caps = match validate_capabilities(profile, report) {
        Err(e) => return Err(e),
        Ok(c) => c,
    };
    let formats = match choose_formats(&caps, dst_formats, dpb_formats, shared_formats) {
        Err(e) => return Err(e),
        Ok(f) => f,
    };
    Ok(NegotiatedConfig { profile: *profile, capabilities: caps, formats })
}

} // verus!
