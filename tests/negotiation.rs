use vkvideo::device::QueueSelection;
use vkvideo::error::SetupError;
use vkvideo::flags::{CODEC_OP_DECODE_H264, DECODE_CAP_COINCIDE, DECODE_CAP_DISTINCT};
use vkvideo::profile::{
    choose_formats, negotiate, profile_for_stream, validate_capabilities, CapabilityReport, CodecTag,
    DecodeCapabilities, Extent, FormatChoice, ImageMode, StreamInfo, VideoProfile,
};
use vkvideo::registry::CapabilityRegistry;
use vkvideo::session::DecodeSession;

const NV12: u32 = 1000156003;
const P010: u32 = 1000156027;

fn report(decode_flags: u32) -> CapabilityReport {
    CapabilityReport {
        codec_operations: CODEC_OP_DECODE_H264,
        codec_attachment: true,
        decode_flags,
        min_extent: Extent { width: 16, height: 16 },
        max_extent: Extent { width: 4096, height: 4096 },
        picture_access_granularity: Extent { width: 16, height: 16 },
        max_dpb_slots: 17,
        max_active_reference_pictures: 16,
        max_level_idc: 12,
    }
}

fn selection() -> QueueSelection {
    QueueSelection { device_index: 0, handle: 1, decode_family: 2, graphics_family: 0 }
}

#[test]
fn h264_stream_gets_main_profile() {
    let info = StreamInfo { width: 640, height: 360, codec: CodecTag::H264 };
    let p = profile_for_stream(&info).unwrap();
    assert_eq!(p, VideoProfile::h264_main());
    assert_eq!(p.codec_operation, CODEC_OP_DECODE_H264);
    assert_eq!(p.std_profile_idc, 77);
    assert_eq!(p.chroma_subsampling, 0x2);
    assert_eq!(p.luma_bit_depth, 0x1);
    assert_eq!(p.chroma_bit_depth, 0x1);
    assert_eq!(p.picture_layout, 0);
}

#[test]
fn other_codecs_are_refused() {
    for codec in [CodecTag::Vp9, CodecTag::Av1, CodecTag::Unknown, CodecTag::H263] {
        let info = StreamInfo { width: 640, height: 360, codec };
        assert_eq!(profile_for_stream(&info), Err(SetupError::UnsupportedCodec));
    }
}

#[test]
fn default_stream_info_is_empty() {
    let info = StreamInfo::default();
    assert_eq!(info, StreamInfo { width: 0, height: 0, codec: CodecTag::Unknown });
    assert_eq!(profile_for_stream(&info), Err(SetupError::UnsupportedCodec));
}

#[test]
fn valid_report_gives_its_capabilities() {
    let caps = validate_capabilities(&VideoProfile::h264_main(), &report(DECODE_CAP_DISTINCT)).unwrap();
    assert_eq!(caps.flags, DECODE_CAP_DISTINCT);
    assert_eq!(caps.max_dpb_slots, 17);
    assert_eq!(caps.max_active_reference_pictures, 16);
    assert_eq!(caps.max_extent, Extent { width: 4096, height: 4096 });
    assert_eq!(caps.max_level_idc, 12);
}

#[test]
fn zero_codec_operations_is_decode_unsupported_and_no_session() {
    let mut r = report(DECODE_CAP_COINCIDE);
    r.codec_operations = 0;
    let p = VideoProfile::h264_main();
    assert_eq!(validate_capabilities(&p, &r), Err(SetupError::DecodeUnsupported));
    let session = DecodeSession::open(&selection(), &p, &r, &vec![NV12], &vec![NV12], &vec![NV12], 3);
    assert!(matches!(session, Err(SetupError::DecodeUnsupported)));
}

#[test]
fn missing_codec_attachment_is_a_protocol_error() {
    let mut r = report(DECODE_CAP_COINCIDE);
    r.codec_attachment = false;
    let e = validate_capabilities(&VideoProfile::h264_main(), &r).unwrap_err();
    assert_eq!(e, SetupError::MissingProfileExtension);
    assert!(!e.is_unsupported_hardware());
}

#[test]
fn empty_capabilities_are_a_protocol_error() {
    let r = report(0);
    assert_eq!(validate_capabilities(&VideoProfile::h264_main(), &r), Err(SetupError::EmptyCapabilities));
    let mut r = report(DECODE_CAP_DISTINCT);
    r.max_extent = Extent { width: 0, height: 0 };
    let e = validate_capabilities(&VideoProfile::h264_main(), &r).unwrap_err();
    assert_eq!(e, SetupError::EmptyCapabilities);
    assert!(!e.is_unsupported_hardware());
    assert!(SetupError::DecodeUnsupported.is_unsupported_hardware());
}

fn caps(flags: u32) -> DecodeCapabilities {
    validate_capabilities(&VideoProfile::h264_main(), &report(flags)).unwrap()
}

#[test]
fn coincident_mode_is_preferred() {
    let c = caps(DECODE_CAP_COINCIDE | DECODE_CAP_DISTINCT);
    let f = choose_formats(&c, &vec![P010, NV12], &vec![NV12], &vec![NV12, P010]).unwrap();
    assert_eq!(f, FormatChoice { mode: ImageMode::Coincident, dst_format: NV12, dpb_format: NV12 });
}

#[test]
fn distinct_mode_is_the_fallback() {
    let c = caps(DECODE_CAP_COINCIDE | DECODE_CAP_DISTINCT);
    let f = choose_formats(&c, &vec![P010, NV12], &vec![NV12], &vec![]).unwrap();
    assert_eq!(f, FormatChoice { mode: ImageMode::Distinct, dst_format: P010, dpb_format: NV12 });
    let c = caps(DECODE_CAP_DISTINCT);
    let f = choose_formats(&c, &vec![NV12], &vec![P010], &vec![NV12]).unwrap();
    assert_eq!(f, FormatChoice { mode: ImageMode::Distinct, dst_format: NV12, dpb_format: P010 });
}

#[test]
fn empty_format_list_is_no_compatible_format() {
    let c = caps(DECODE_CAP_COINCIDE | DECODE_CAP_DISTINCT);
    assert_eq!(choose_formats(&c, &vec![], &vec![NV12], &vec![NV12]), Err(SetupError::NoCompatibleFormat));
    assert_eq!(choose_formats(&c, &vec![NV12], &vec![], &vec![NV12]), Err(SetupError::NoCompatibleFormat));
    let c = caps(DECODE_CAP_COINCIDE);
    assert_eq!(choose_formats(&c, &vec![NV12], &vec![NV12], &vec![]), Err(SetupError::NoCompatibleFormat));
}

#[test]
fn negotiation_builds_the_configuration() {
    let p = VideoProfile::h264_main();
    let cfg = negotiate(&p, &report(DECODE_CAP_COINCIDE), &vec![NV12], &vec![NV12], &vec![NV12]).unwrap();
    assert_eq!(cfg.profile, p);
    assert_eq!(cfg.capabilities.max_dpb_slots, 17);
    assert_eq!(cfg.formats.mode, ImageMode::Coincident);
}

#[test]
fn repeated_negotiation_returns_the_first_capabilities() {
    let p = VideoProfile::h264_main();
    let mut reg = CapabilityRegistry::new();
    assert_eq!(reg.lookup(5, &p), None);
    let first = reg.negotiate(5, &p, &report(DECODE_CAP_COINCIDE)).unwrap();
    let mut later = report(DECODE_CAP_DISTINCT);
    later.max_dpb_slots = 2;
    let second = reg.negotiate(5, &p, &later).unwrap();
    assert_eq!(first, second);
    assert_eq!(second.flags, DECODE_CAP_COINCIDE);
    assert_eq!(reg.lookup(5, &p), Some(first));
    let other = reg.negotiate(6, &p, &later).unwrap();
    assert_eq!(other.max_dpb_slots, 2);
}

#[test]
fn failed_negotiation_is_not_remembered() {
    let p = VideoProfile::h264_main();
    let mut reg = CapabilityRegistry::new();
    assert_eq!(reg.negotiate(5, &p, &report(0)), Err(SetupError::EmptyCapabilities));
    assert_eq!(reg.lookup(5, &p), None);
    assert!(reg.negotiate(5, &p, &report(DECODE_CAP_DISTINCT)).is_ok());
}
