use vkvideo::profile::{CodecTag, StreamInfo};
use vkvideo::stream::{first_video_stream, first_video_track, TrackKind, TrackSummary};

fn video(width: u16, codec: CodecTag) -> TrackSummary {
    TrackSummary { kind: TrackKind::Video, video_entry: Some(StreamInfo { width, height: 360, codec }) }
}

#[test]
fn first_playable_video_track_is_chosen() {
    let tracks = vec![
        TrackSummary { kind: TrackKind::Audio, video_entry: None },
        TrackSummary { kind: TrackKind::Video, video_entry: None },
        video(640, CodecTag::H264),
        video(1280, CodecTag::Vp9),
    ];
    assert_eq!(first_video_stream(&tracks), Some(StreamInfo { width: 640, height: 360, codec: CodecTag::H264 }));
}

#[test]
fn container_without_video_has_no_stream() {
    let tracks = vec![
        TrackSummary { kind: TrackKind::Audio, video_entry: None },
        TrackSummary { kind: TrackKind::Other, video_entry: Some(StreamInfo { width: 1, height: 1, codec: CodecTag::H264 }) },
    ];
    assert_eq!(first_video_stream(&tracks), None);
    assert_eq!(first_video_stream(&Vec::new()), None);
}

#[test]
fn first_playable_track_position_is_reported() {
    let tracks = vec![
        TrackSummary { kind: TrackKind::Video, video_entry: None },
        TrackSummary { kind: TrackKind::Audio, video_entry: None },
        video(640, CodecTag::H264),
    ];
    assert_eq!(first_video_track(&tracks), Some(2));
    assert_eq!(first_video_track(&tracks[..2].to_vec()), None);
}
