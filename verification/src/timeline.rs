//! Timeline arithmetic.
//!
//! Clips sit on a shared timeline; each carries its media duration, its
//! position on the timeline, and the trimmed window `[trim_start,
//! trim_end]` of the media that is actually played. Everything the editing
//! surface computes about them — which clip is under the playhead, where an
//! imported clip lands, how a drag of a handle moves the trim points —
//! lives here; the surface only draws and feeds pointer positions in.

use vstd::prelude::*;

verus! {

/// Shortest playable window a trim operation may leave, in milliseconds.
pub const MIN_CLIP_DURATION: u32 = 100;

/// How far one transport jump moves the playhead, in milliseconds.
pub const JUMP_MS: u32 = 5000;

/// A clip placed on the timeline.
pub struct Clip {
    /// Path of the media file.
    pub path: String,
    /// Display name.
    pub name: String,
    /// Full duration of the media, in milliseconds.
    pub duration: u32,
    /// Where the clip starts on the timeline, in milliseconds.
    pub timeline_start: u32,
    /// Start of the trimmed window within the media.
    pub trim_start: u32,
    /// End of the trimmed window within the media.
    pub trim_end: u32,
}

/// Mathematical model of a clip.
pub ghost struct ClipV {
    pub path: Seq<char>,
    pub name: Seq<char>,
    pub duration: u32,
    pub timeline_start: u32,
    pub trim_start: u32,
    pub trim_end: u32,
}

impl View for Clip {
    type V = ClipV;

    open spec fn view(&self) -> ClipV {
        ClipV {
            path: self.path@,
            name: self.name@,
            duration: self.duration,
            timeline_start: self.timeline_start,
            trim_start: self.trim_start,
            trim_end: self.trim_end,
        }
    }
}

impl DeepView for Clip {
    type V = ClipV;

    open spec fn deep_view(&self) -> ClipV {
        self@
    }
}

impl ClipV {
    /// The trimmed window is ordered and lies within the media, and the
    /// clip's end position still fits the timeline's integer type.
    pub open spec fn wf(self) -> bool {
        &&& self.trim_start <= self.trim_end <= self.duration
        &&& self.timeline_start + (self.trim_end - self.trim_start) <= u32::MAX
    }

    /// Played length: the extent of the trimmed window.
    pub open spec fn len_ms(self) -> int {
        self.trim_end - self.trim_start
    }

    /// Where the clip ends on the timeline.
    pub open spec fn timeline_end(self) -> int {
        self.timeline_start + self.len_ms()
    }

    /// Whether the playhead lies inside this clip's extent.
    pub open spec fn contains_playhead(self, playhead: u32) -> bool {
        self.timeline_start <= playhead < self.timeline_end()
    }
}

/// All clips of a sequence are well formed.
pub open spec fn all_wf(s: Seq<ClipV>) -> bool {
    forall|i: int| 0 <= i < s.len() ==> s[i].wf()
}

/// `v` forced into `[lo, hi]` (meaningful only when `lo <= hi`).
pub open spec fn clamped(v: int, lo: int, hi: int) -> int {
    if v < lo {
        lo
    } else if v > hi {
        hi
    } else {
        v
    }
}

impl Clip {
    /// Played length of the clip.
    pub fn len_ms(&self) -> (r: u32)
        requires
            self@.wf(),
        ensures
            r == self@.len_ms(),
    {
        self.trim_end - self.trim_start
    }

    /// Where the clip ends on the timeline.
    pub fn timeline_end(&self) -> (r: u32)
        requires
            self@.wf(),
        ensures
            r == self@.timeline_end(),
    {
        self.timeline_start + (self.trim_end - self.trim_start)
    }
}

/// The first clip whose extent contains the playhead, if any — the clip
/// the preview shows and transport commands address.
pub fn active_clip_index(clips: &Vec<Clip>, playhead: u32) -> (r: Option<usize>)
    requires
        all_wf(clips.deep_view()),
    ensures
        r matches Some(i) ==> {
            &&& i < clips@.len()
            &&& clips.deep_view()[i as int].contains_playhead(playhead)
            &&& forall|j: int|
                0 <= j < i ==> !clips.deep_view()[j].contains_playhead(playhead)
        },
        r is None ==> forall|j: int|
            0 <= j < clips@.len() ==> !clips.deep_view()[j].contains_playhead(playhead),
{
    let mut i: usize = 0;
    while i < clips.len()
        invariant
            all_wf(clips.deep_view()),
            i <= clips@.len(),
            forall|j: int| 0 <= j < i ==> !clips.deep_view()[j].contains_playhead(playhead),
        decreases clips@.len() - i,
    {
        let c = &clips[i];
        proof {
            assert(c@ == clips.deep_view()[i as int]);
        }
        if c.timeline_start <= playhead && playhead < c.timeline_end() {
            return Some(i);
        }
        i = i + 1;
    }
    None
}

/// Offset of the playhead within a clip, relative to the trimmed window —
/// the position handed to playback and seek commands.
pub fn playhead_offset(c: &Clip, playhead: u32) -> (r: u32)
    requires
        c@.wf(),
        c@.contains_playhead(playhead),
    ensures
        r == playhead - c@.timeline_start,
{
    playhead - c.timeline_start
}

/// The furthest timeline end over a sequence of clips, zero when empty.
pub open spec fn max_timeline_end(s: Seq<ClipV>) -> int
    decreases s.len(),
{
    if s.len() == 0 {
        0
    } else {
        let rest = max_timeline_end(s.drop_last());
        let e = s.last().timeline_end();
        if e > rest {
            e
        } else {
            rest
        }
    }
}

/// Where a newly imported clip is appended: right after the furthest
/// timeline end of the clips already placed.
pub fn import_offset(clips: &Vec<Clip>) -> (r: u32)
    requires
        all_wf(clips.deep_view()),
    ensures
        r == max_timeline_end(clips.deep_view()),
{
    let mut acc: u32 = 0;
    let mut i: usize = 0;
    while i < clips.len()
        invariant
            all_wf(clips.deep_view()),
            i <= clips@.len(),
            acc == max_timeline_end(clips.deep_view().take(i as int)),
        decreases clips@.len() - i,
    {
        let c = &clips[i];
        proof {
            assert(c@ == clips.deep_view()[i as int]);
        }
        let e = c.timeline_end();
        proof {
            let pre = clips.deep_view().take(i as int);
            let cur = clips.deep_view().take(i as int + 1);
            assert(cur.drop_last() =~= pre);
            assert(cur.last() == clips.deep_view()[i as int]);
        }
        if e > acc {
            acc = e;
        }
        i = i + 1;
    }
    proof {
        assert(clips.deep_view().take(clips@.len() as int) =~= clips.deep_view());
    }
    acc
}

/// The playhead moved forward by `elapsed_ms`, stopped at the end of the
/// timeline.
pub fn advance_playhead(playhead: u32, elapsed_ms: u32, total: u32) -> (r: u32)
    ensures
        r == if playhead + elapsed_ms <= total {
            playhead + elapsed_ms
        } else {
            total as int
        },
{
    let sum = playhead as u64 + elapsed_ms as u64;
    if sum <= total as u64 {
        sum as u32
    } else {
        total
    }
}

/// The playhead moved one jump backwards, stopped at zero.
pub fn jump_back(playhead: u32) -> (r: u32)
    ensures
        r == if playhead >= JUMP_MS {
            playhead - JUMP_MS
        } else {
            0
        },
{
    if playhead >= JUMP_MS {
        playhead - JUMP_MS
    } else {
        0
    }
}

/// Dragging a clip's left handle to timeline position `target`: the
/// clip's timeline end stays fixed while its start — and with it the trim
/// start within the media — moves. The start is confined to the timeline,
/// to the media available before the current trim, and to leaving at least
/// the minimum playable window.
///
/// Returns the new timeline start and the new trim start.
pub fn trim_left(c: &Clip, target: u32, total: u32) -> (r: (u32, u32))
    requires
        c@.wf(),
        MIN_CLIP_DURATION <= total,
        c@.trim_start <= c@.timeline_start,
        MIN_CLIP_DURATION <= c@.trim_end,
    ensures
        r.0 == clamped(
            clamped(target as int, 0, total - MIN_CLIP_DURATION),
            c@.timeline_start - c@.trim_start,
            c@.timeline_end() - MIN_CLIP_DURATION,
        ),
        r.1 == c@.trim_end - (c@.timeline_end() - r.0),
        r.1 <= c@.trim_end,
        c@.trim_end - r.1 >= MIN_CLIP_DURATION,
        r.0 + (c@.trim_end - r.1) == c@.timeline_end(),
{
    let timeline_end = c.timeline_start + (c.trim_end - c.trim_start);
    let hi1 = total - MIN_CLIP_DURATION;
    let a = if target > hi1 {
        hi1
    } else {
        target
    };
    let lo2 = c.timeline_start - c.trim_start;
    let hi2 = timeline_end - MIN_CLIP_DURATION;
    let b = if a < lo2 {
        lo2
    } else if a > hi2 {
        hi2
    } else {
        a
    };
    let new_trim_start = c.trim_end - (timeline_end - b);
    (b, new_trim_start)
}

/// Dragging a clip's right handle to timeline position `target`: the
/// clip's start stays fixed while its trim end moves. The end is confined
/// to the timeline, to the media actually available, and to leaving at
/// least the minimum playable window.
///
/// Returns the new trim end.
pub fn trim_right(c: &Clip, target: u32, total: u32) -> (r: u32)
    requires
        c@.wf(),
        c@.timeline_start + MIN_CLIP_DURATION <= total,
        c@.trim_start + MIN_CLIP_DURATION <= c@.duration,
        c@.trim_start + (clamped(
            target as int,
            c@.timeline_start + MIN_CLIP_DURATION,
            total as int,
        ) - c@.timeline_start) <= u32::MAX,
    ensures
        r == clamped(
            c@.trim_start + (clamped(
                target as int,
                c@.timeline_start + MIN_CLIP_DURATION,
                total as int,
            ) - c@.timeline_start),
            c@.trim_start + MIN_CLIP_DURATION,
            c@.duration as int,
        ),
        c@.trim_start + MIN_CLIP_DURATION <= r <= c@.duration,
        c@.timeline_start + (r - c@.trim_start) <= total,
{
    let lo1 = c.timeline_start + MIN_CLIP_DURATION;
    let new_timeline_end = if target < lo1 {
        lo1
    } else if target > total {
        total
    } else {
        target
    };
    let grown = c.trim_start + (new_timeline_end - c.timeline_start);
    let lo2 = c.trim_start + MIN_CLIP_DURATION;
    if grown < lo2 {
        lo2
    } else if grown > c.duration {
        c.duration
    } else {
        grown
    }
}

/// The furthest timeline end at or before position `ts` over a sequence of
/// clips, zero when none ends there — the left wall a dragged clip may not
/// cross.
pub open spec fn prev_bound(s: Seq<ClipV>, ts: u32) -> int
    decreases s.len(),
{
    if s.len() == 0 {
        0
    } else {
        let rest = prev_bound(s.drop_last(), ts);
        let e = s.last().timeline_end();
        if e <= ts && e > rest {
            e
        } else {
            rest
        }
    }
}

/// The nearest clip start at or after position `tl_end` over a sequence of
/// clips, if any — the right wall a dragged clip may not cross.
pub open spec fn next_start(s: Seq<ClipV>, tl_end: int) -> Option<int>
    decreases s.len(),
{
    if s.len() == 0 {
        None
    } else {
        let rest = next_start(s.drop_last(), tl_end);
        let st = s.last().timeline_start as int;
        if st >= tl_end {
            match rest {
                Some(m) => if st < m {
                    Some(st)
                } else {
                    Some(m)
                },
                None => Some(st),
            }
        } else {
            rest
        }
    }
}

/// A nearest start found at or after `tl_end` indeed lies at or after it.
proof fn lemma_next_start_ge(s: Seq<ClipV>, tl_end: int)
    ensures
        next_start(s, tl_end) matches Some(m) ==> m >= tl_end,
    decreases s.len(),
{
    if s.len() > 0 {
        lemma_next_start_ge(s.drop_last(), tl_end);
    }
}

/// Dragging the whole clip at index `idx` so that its start would land on
/// `desired`: the start is confined between the end of the nearest clip
/// ending at or before it and the start of the nearest clip beginning at or
/// after its end (or the end of the timeline), so dragged clips never
/// overlap their neighbours.
pub fn move_clip(clips: &Vec<Clip>, idx: usize, desired: u32, total: u32) -> (r: u32)
    requires
        all_wf(clips.deep_view()),
        idx < clips@.len(),
        next_start(clips.deep_view(), clips.deep_view()[idx as int].timeline_end()) is None
            ==> clips.deep_view()[idx as int].len_ms() <= total,
        prev_bound(clips.deep_view(), clips.deep_view()[idx as int].timeline_start) <= (match
            next_start(clips.deep_view(), clips.deep_view()[idx as int].timeline_end()) {
            Some(m) => m,
            None => total as int,
        }) - clips.deep_view()[idx as int].len_ms(),
    ensures
        r == clamped(
            desired as int,
            prev_bound(clips.deep_view(), clips.deep_view()[idx as int].timeline_start),
            (match next_start(clips.deep_view(), clips.deep_view()[idx as int].timeline_end()) {
                Some(m) => m,
                None => total as int,
            }) - clips.deep_view()[idx as int].len_ms(),
        ),
        prev_bound(clips.deep_view(), clips.deep_view()[idx as int].timeline_start) <= r,
        r + clips.deep_view()[idx as int].len_ms() <= (match next_start(
            clips.deep_view(),
            clips.deep_view()[idx as int].timeline_end(),
        ) {
            Some(m) => m,
            None => total as int,
        }),
{
    let ghost s = clips.deep_view();
    let c = &clips[idx];
    proof {
        assert(c@ == s[idx as int]);
    }
    let c_start = c.timeline_start;
    let c_len = c.len_ms();
    let c_end = c.timeline_end();

    let mut prev: u32 = 0;
    let mut i: usize = 0;
    while i < clips.len()
        invariant
            all_wf(s),
            s == clips.deep_view(),
            i <= s.len(),
            prev == prev_bound(s.take(i as int), c_start),
        decreases s.len() - i,
    {
        let ci = &clips[i];
        proof {
            assert(ci@ == s[i as int]);
        }
        let e = ci.timeline_end();
        proof {
            let pre = s.take(i as int);
            let cur = s.take(i as int + 1);
            assert(cur.drop_last() =~= pre);
            assert(cur.last() == s[i as int]);
        }
        if e <= c_start && e > prev {
            prev = e;
        }
        i = i + 1;
    }
    proof {
        assert(s.take(s.len() as int) =~= s);
    }

    let mut next: Option<u32> = None;
    let mut k: usize = 0;
    while k < clips.len()
        invariant
            all_wf(s),
            s == clips.deep_view(),
            k <= s.len(),
            idx < s.len(),
            c_end == s[idx as int].timeline_end(),
            match (next, next_start(s.take(k as int), c_end as int)) {
                (Some(a), Some(b)) => a == b,
                (None, None) => true,
                _ => false,
            },
        decreases s.len() - k,
    {
        let ck = &clips[k];
        proof {
            assert(ck@ == s[k as int]);
        }
        let st = ck.timeline_start;
        proof {
            let pre = s.take(k as int);
            let cur = s.take(k as int + 1);
            assert(cur.drop_last() =~= pre);
            assert(cur.last() == s[k as int]);
        }
        if st >= c_end {
            next = match next {
                Some(m) => if st < m {
                    Some(st)
                } else {
                    Some(m)
                },
                None => Some(st),
            };
        }
        k = k + 1;
    }
    proof {
        assert(s.take(s.len() as int) =~= s);
    }

    proof {
        lemma_next_start_ge(s, c_end as int);
    }
    let hi = match next {
        Some(m) => m - c_len,
        None => total - c_len,
    };
    if desired < prev {
        prev
    } else if desired > hi {
        hi
    } else {
        desired
    }
}

} // verus!
