use vkvideo::device::{
    describe_device, enumerate_candidates, queue_create_families, select_queues, DeviceCandidate,
    DeviceReport, FamilyReport,
};
use vkvideo::error::SetupError;
use vkvideo::flags::{CODEC_OP_DECODE_H264, CODEC_OP_DECODE_H265, QUEUE_GRAPHICS, QUEUE_VIDEO_DECODE};

fn family(queue_flags: u32, codec_operations: u32, presentable: bool) -> FamilyReport {
    FamilyReport { queue_flags, codec_operations, presentable }
}

fn graphics_only(handle: u64) -> DeviceReport {
    DeviceReport { handle, families: vec![family(QUEUE_GRAPHICS, 0, true)] }
}

fn full_support(handle: u64) -> DeviceReport {
    DeviceReport {
        handle,
        families: vec![
            family(0x4, 0, false),
            family(QUEUE_GRAPHICS | 0x2 | 0x4, 0, true),
            family(QUEUE_VIDEO_DECODE, CODEC_OP_DECODE_H264, false),
        ],
    }
}

fn candidates(reports: Vec<DeviceReport>) -> Vec<DeviceCandidate> {
    enumerate_candidates(&reports).unwrap()
}

#[test]
fn capable_gpu_listed_first_is_chosen() {
    let cands = candidates(vec![full_support(7), graphics_only(9)]);
    let sel = select_queues(&cands, CODEC_OP_DECODE_H264).unwrap();
    assert_eq!(sel.device_index, 0);
    assert_eq!(sel.handle, 7);
    assert_eq!(sel.graphics_family, 1);
    assert_eq!(sel.decode_family, 2);
}

#[test]
fn capable_gpu_listed_second_is_chosen() {
    let cands = candidates(vec![graphics_only(9), full_support(7)]);
    let sel = select_queues(&cands, CODEC_OP_DECODE_H264).unwrap();
    assert_eq!(sel.device_index, 1);
    assert_eq!(sel.handle, 7);
    assert_eq!(sel.graphics_family, 1);
    assert_eq!(sel.decode_family, 2);
}

#[test]
fn first_suitable_candidate_wins() {
    let cands = candidates(vec![full_support(1), full_support(2)]);
    let sel = select_queues(&cands, CODEC_OP_DECODE_H264).unwrap();
    assert_eq!(sel.handle, 1);
}

#[test]
fn no_decoder_is_decode_unsupported() {
    let cands = candidates(vec![graphics_only(1), graphics_only(2)]);
    assert_eq!(select_queues(&cands, CODEC_OP_DECODE_H264), Err(SetupError::DecodeUnsupported));
}

#[test]
fn wrong_codec_is_decode_unsupported() {
    let cands = candidates(vec![DeviceReport {
        handle: 3,
        families: vec![family(QUEUE_GRAPHICS | QUEUE_VIDEO_DECODE, CODEC_OP_DECODE_H265, true)],
    }]);
    assert_eq!(select_queues(&cands, CODEC_OP_DECODE_H264), Err(SetupError::DecodeUnsupported));
}

#[test]
fn decode_family_without_decode_flag_is_ignored() {
    let cands = candidates(vec![DeviceReport {
        handle: 3,
        families: vec![family(QUEUE_GRAPHICS, CODEC_OP_DECODE_H264, true)],
    }]);
    assert_eq!(select_queues(&cands, CODEC_OP_DECODE_H264), Err(SetupError::DecodeUnsupported));
}

#[test]
fn decoder_without_presentation_is_presentation_unsupported() {
    let cands = candidates(vec![
        DeviceReport {
            handle: 4,
            families: vec![
                family(QUEUE_GRAPHICS, 0, false),
                family(QUEUE_VIDEO_DECODE, CODEC_OP_DECODE_H264, false),
            ],
        },
        graphics_only(5),
    ]);
    assert_eq!(select_queues(&cands, CODEC_OP_DECODE_H264), Err(SetupError::PresentationUnsupported));
}

#[test]
fn empty_candidate_list_is_decode_unsupported() {
    let cands: Vec<DeviceCandidate> = Vec::new();
    assert_eq!(select_queues(&cands, CODEC_OP_DECODE_H264), Err(SetupError::DecodeUnsupported));
}

#[test]
fn one_family_may_serve_both() {
    let cands = candidates(vec![DeviceReport {
        handle: 8,
        families: vec![
            family(QUEUE_GRAPHICS | QUEUE_VIDEO_DECODE, CODEC_OP_DECODE_H264 | CODEC_OP_DECODE_H265, true),
            family(QUEUE_VIDEO_DECODE, CODEC_OP_DECODE_H264, false),
        ],
    }]);
    let sel = select_queues(&cands, CODEC_OP_DECODE_H264).unwrap();
    assert_eq!(sel.decode_family, 0);
    assert_eq!(sel.graphics_family, 0);
    assert_eq!(queue_create_families(&sel), vec![0]);
}

#[test]
fn distinct_families_each_get_a_queue() {
    let cands = candidates(vec![full_support(7)]);
    let sel = select_queues(&cands, CODEC_OP_DECODE_H264).unwrap();
    assert_eq!(queue_create_families(&sel), vec![1, 2]);
}

#[test]
fn no_devices_is_reported() {
    let reports: Vec<DeviceReport> = Vec::new();
    assert_eq!(enumerate_candidates(&reports).unwrap_err(), SetupError::NoDevicesFound);
}

#[test]
fn enumeration_numbers_families_in_order() {
    let c = describe_device(&full_support(11));
    assert_eq!(c.handle, 11);
    assert_eq!(c.queue_families.len(), 3);
    for (k, f) in c.queue_families.iter().enumerate() {
        assert_eq!(f.index, k as u32);
    }
    assert_eq!(c.queue_families[2].codec_operations, CODEC_OP_DECODE_H264);
    assert!(c.queue_families[1].presentable);
}

#[test]
fn any_device_list_enumerates() {
    let reports = vec![graphics_only(1)];
    let cands = enumerate_candidates(&reports).unwrap();
    assert_eq!(cands.len(), 1);
    assert_eq!(cands[0].handle, 1);
}
