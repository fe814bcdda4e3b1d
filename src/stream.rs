//! Choice of the video stream among the tracks the demuxer reports.
use vstd::prelude::*;
use crate::profile::StreamInfo;

verus! {

#[derive(Clone, Copy, Debug, PartialEq, Eq, Structural)]
pub enum TrackKind {
    Video,
    Audio,
    Other,
}

/// What the demuxer reports of one track: its kind and, when its first
/// sample entry describes video, that description.
#[derive(Clone, Copy, Debug, PartialEq, Eq, Structural)]
pub struct TrackSummary {
    pub kind: TrackKind,
    pub video_entry: Option<StreamInfo>,
}

/// The track is a video track with a video sample entry.
pub open spec fn is_playable(t: TrackSummary) -> bool {
    t.kind == TrackKind::Video && t.video_entry is Some
}

/// `i` is the first playable video track.
pub open spec fn is_first_playable(tracks: Seq<TrackSummary>, i: int) -> bool {
    &&& 0 <= i < tracks.len()
    &&& is_playable(tracks[i])
    &&& forall|j: int| 0 <= j < i ==> !is_playable(#[trigger] tracks[j])
}

/// Position of the first playable video track, in container order; `None`
/// when the container has none.
pub fn first_video_track(tracks: &Vec<TrackSummary>) -> (r: Option<usize>)
    ensures
        r is None <==> forall|i: int| 0 <= i < tracks@.len() ==> !is_playable(#[trigger] tracks@[i]),
        r matches Some(i) ==> is_first_playable(tracks@, i as int),
{
    let mut i: usize = 0;
    while i < tracks.len()
        invariant
            i <= tracks@.len(),
            forall|j: int| 0 <= j < i ==> !is_playable(#[trigger] tracks@[j]),
        decreases tracks@.len() - i,
    {
        let t = tracks[i];
        if t.kind == TrackKind::Video && t.video_entry.is_some() {
            assert(is_playable(tracks@[i as int]));
            return Some(i);
        }
        i += 1;
    }
    None
}

/// The stream of the first playable video track; `None` when the container
/// has none.
pub fn first_video_stream(tracks: &Vec<TrackSummary>) -> (r: Option<StreamInfo>)
    ensures
        r is None <==> forall|i: int| 0 <= i < tracks@.len() ==> !is_playable(#[trigger] tracks@[i]),
        r matches Some(s) ==> exists|i: int| is_first_playable(tracks@, i) && tracks@[i].video_entry == Some(s),
{
    match first_video_track(tracks) {
        Some(i) => {
            assert(is_first_playable(tracks@, i as int));
            tracks[i].video_entry
        },
        None => None,
    }
}

} // verus!
