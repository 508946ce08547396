use editor_core::timeline::active_clip_index;
use editor_core::timeline::advance_playhead;
use editor_core::timeline::import_offset;
use editor_core::timeline::jump_back;
use editor_core::timeline::move_clip;
use editor_core::timeline::playhead_offset;
use editor_core::timeline::trim_left;
use editor_core::timeline::trim_right;
use editor_core::timeline::Clip;
use editor_core::timeline::JUMP_MS;
use editor_core::timeline::MIN_CLIP_DURATION;

fn clip(duration: u32, timeline_start: u32, trim_start: u32, trim_end: u32) -> Clip {
    Clip {
        path: "a.mp4".to_string(),
        name: "a".to_string(),
        duration,
        timeline_start,
        trim_start,
        trim_end,
    }
}

#[test]
fn active_clip_resolution() {
    let clips = vec![
        clip(5000, 0, 0, 2000),     // timeline [0, 2000)
        clip(8000, 3000, 500, 4000), // timeline [3000, 6500)
    ];
    assert_eq!(active_clip_index(&clips, 0), Some(0));
    assert_eq!(active_clip_index(&clips, 1999), Some(0));
    assert_eq!(active_clip_index(&clips, 2000), None); // gap
    assert_eq!(active_clip_index(&clips, 2999), None);
    assert_eq!(active_clip_index(&clips, 3000), Some(1));
    assert_eq!(active_clip_index(&clips, 6499), Some(1));
    assert_eq!(active_clip_index(&clips, 6500), None);
    assert_eq!(active_clip_index(&Vec::new(), 0), None);
}

#[test]
fn first_matching_clip_wins_on_overlap() {
    let clips = vec![clip(5000, 0, 0, 3000), clip(5000, 2000, 0, 3000)];
    assert_eq!(active_clip_index(&clips, 2500), Some(0));
}

#[test]
fn playhead_offset_is_relative_to_clip_start() {
    let c = clip(8000, 3000, 500, 4000);
    assert_eq!(playhead_offset(&c, 3000), 0);
    assert_eq!(playhead_offset(&c, 4250), 1250);
}

#[test]
fn imported_clip_lands_after_furthest_end() {
    assert_eq!(import_offset(&Vec::new()), 0);
    let clips = vec![clip(5000, 0, 0, 2000), clip(8000, 3000, 500, 4000)];
    assert_eq!(import_offset(&clips), 6500);
    // order does not matter
    let clips2 = vec![clip(8000, 3000, 500, 4000), clip(5000, 0, 0, 2000)];
    assert_eq!(import_offset(&clips2), 6500);
}

#[test]
fn playhead_advance_stops_at_timeline_end() {
    assert_eq!(advance_playhead(0, 16, 30000), 16);
    assert_eq!(advance_playhead(29990, 16, 30000), 30000);
    assert_eq!(advance_playhead(30000, 16, 30000), 30000);
    assert_eq!(advance_playhead(u32::MAX, u32::MAX, 30000), 30000);
}

#[test]
fn jump_back_saturates_at_zero() {
    assert_eq!(jump_back(12000), 12000 - JUMP_MS);
    assert_eq!(jump_back(JUMP_MS), 0);
    assert_eq!(jump_back(3000), 0);
    assert_eq!(jump_back(0), 0);
}

#[test]
fn left_trim_keeps_timeline_end_fixed() {
    // clip shows media [1000, 4000) at timeline [2000, 5000)
    let c = clip(8000, 2000, 1000, 4000);
    let (new_start, new_trim_start) = trim_left(&c, 3000, 30000);
    assert_eq!(new_start, 3000);
    assert_eq!(new_trim_start, 2000);
    // dragging left is limited by the media available before the trim
    let (ns2, nt2) = trim_left(&c, 0, 30000);
    assert_eq!(ns2, 1000);
    assert_eq!(nt2, 0);
    // dragging right leaves at least the minimum window
    let (ns3, nt3) = trim_left(&c, 30000, 30000);
    assert_eq!(ns3, 5000 - MIN_CLIP_DURATION);
    assert_eq!(nt3, 4000 - MIN_CLIP_DURATION);
}

#[test]
fn right_trim_is_limited_by_media_and_minimum() {
    // clip shows media [1000, 4000) at timeline [2000, 5000)
    let c = clip(8000, 2000, 1000, 4000);
    assert_eq!(trim_right(&c, 6000, 30000), 5000);
    // cannot trim shorter than the minimum window
    assert_eq!(trim_right(&c, 0, 30000), 1000 + MIN_CLIP_DURATION);
    // cannot extend past the media's duration
    assert_eq!(trim_right(&c, 20000, 30000), 8000);
}

#[test]
fn moving_a_clip_respects_both_neighbours() {
    let clips = vec![
        clip(5000, 0, 0, 2000),      // timeline [0, 2000)
        clip(8000, 3000, 500, 2500), // timeline [3000, 5000), the one dragged
        clip(5000, 8000, 0, 1000),   // timeline [8000, 9000)
    ];
    // free movement inside the gap
    assert_eq!(move_clip(&clips, 1, 4000, 30000), 4000);
    // cannot cross the end of the previous clip
    assert_eq!(move_clip(&clips, 1, 100, 30000), 2000);
    // cannot cross the start of the next clip
    assert_eq!(move_clip(&clips, 1, 25000, 30000), 6000);
}

#[test]
fn moving_the_last_clip_is_limited_by_the_timeline() {
    let clips = vec![clip(5000, 0, 0, 2000)];
    assert_eq!(move_clip(&clips, 0, 29500, 30000), 28000);
    assert_eq!(move_clip(&clips, 0, 500, 30000), 500);
}
