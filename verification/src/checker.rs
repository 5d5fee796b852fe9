//! The post-capture consistency checker.
//!
//! After capture stops, the recorded per-frame snapshots are cross-validated
//! against the raw event timeline and against the facts independently
//! measured from the encoded video file. Every finding is diagnostic only:
//! the checker never fails, it reports.

use vstd::prelude::*;
use crate::codeset::{code_set, contains_code, copy_codes, insert_code, remove_code,
    same_code_set};
use crate::config::InputConfig;
use crate::event::{DeviceEvent, Event};
use crate::frame::{wf_frames, InputFrame};
use crate::geom::{lemma_coord_scale, sum_x, sum_y, Vec2, COORD_BOUND, MAX_SAMPLES};

verus! {

broadcast use vstd::seq_lib::lemma_seq_contains_after_push, vstd::set::group_set_axioms;

/// One diagnostic finding, reported to the session's error sink.
#[derive(Clone, Copy, Debug, PartialEq, Eq, Structural)]
pub enum Finding {
    /// The container's measured frame rate is more than one frame per second
    /// away from the configured target.
    FpsMismatch { measured_milli: u64 },
    /// The file's decoded frame count differs from the number of times the
    /// encoder callback fired.
    FrameCountMismatch { expected: u32, actual: u32 },
    /// The file's decoded frame count differs from the number of recorded
    /// snapshots.
    AnnotationCountMismatch { expected: u32, actual: u32 },
    /// The decoded frame count is further than two percent from what the
    /// wall-clock duration and the target rate predict.
    TimeFrameCountMismatch { expected: u32, actual: u32 },
    /// The mouse deltas attributed to the frame do not add up to the frame's
    /// recorded user plus system delta.
    MouseDeltaMismatch { frame: usize },
    /// The wheel events attributed to the frame do not add up to the frame's
    /// recorded user plus system scroll.
    MouseScrollMismatch { frame: usize },
    /// The most recent absolute mouse position does not match the frame's
    /// recorded user plus system position.
    MousePositionMismatch { frame: usize },
    /// Replaying the timeline yields different user buttons than recorded.
    UserButtonsMismatch { frame: usize },
    /// Replaying the timeline yields different system buttons than recorded.
    SystemButtonsMismatch { frame: usize },
    /// Replaying the timeline yields different user keys than recorded.
    UserKeysMismatch { frame: usize },
    /// Replaying the timeline yields different system keys than recorded.
    SystemKeysMismatch { frame: usize },
    /// The frame records both user keys and system keys.
    Overlap { frame: usize },
    /// The frame records user keys while the model was in control.
    UserKeysDuringInference { frame: usize },
    /// The frame records system keys while the model was not in control.
    SystemKeysOutsideInference { frame: usize },
}

/// A frame whose attributed events fall outside its time window; expected
/// occasionally from lock timing, so logged but never escalated.
#[derive(Clone, Copy, Debug, PartialEq, Eq, Structural)]
pub struct CheckWarning {
    pub frame: usize,
    /// How many events fell outside the window.
    pub count: usize,
}

/// Everything the checker found.
#[derive(Debug)]
pub struct CheckReport {
    pub findings: Vec<Finding>,
    pub warnings: Vec<CheckWarning>,
}

/// Replay keyboard events of one provenance over a pressed-key set,
/// excluding the designated hotkeys.
pub open spec fn replay_keys(s: Set<u32>, evs: Seq<DeviceEvent>, simulated: bool, hot: Set<u32>) -> Set<u32>
    decreases evs.len(),
{
    if evs.len() == 0 {
        s
    } else {
        let prev = replay_keys(s, evs.drop_last(), simulated, hot);
        match evs.last().event {
            Event::KeyboardInput { key, pressed } => if evs.last().simulated == simulated
                && !hot.contains(key) {
                if pressed {
                    prev.insert(key)
                } else {
                    prev.remove(key)
                }
            } else {
                prev
            },
            _ => prev,
        }
    }
}

/// Replay mouse-button events of one provenance over a pressed-button set.
pub open spec fn replay_buttons(s: Set<u32>, evs: Seq<DeviceEvent>, simulated: bool) -> Set<u32>
    decreases evs.len(),
{
    if evs.len() == 0 {
        s
    } else {
        let prev = replay_buttons(s, evs.drop_last(), simulated);
        match evs.last().event {
            Event::MouseButton { button, pressed } => if evs.last().simulated == simulated {
                if pressed {
                    prev.insert(button)
                } else {
                    prev.remove(button)
                }
            } else {
                prev
            },
            _ => prev,
        }
    }
}

/// The starting key set: what the first frame recorded, since events from
/// before the recording started were never delivered.
pub open spec fn seed_keys(frames: Seq<InputFrame>, user: bool) -> Set<u32> {
    if frames.len() == 0 {
        Set::empty()
    } else if user {
        code_set(frames[0].user_keys@)
    } else {
        code_set(frames[0].system_keys@)
    }
}

/// The starting button set, from the first frame.
pub open spec fn seed_buttons(frames: Seq<InputFrame>, user: bool) -> Set<u32> {
    if frames.len() == 0 {
        Set::empty()
    } else if user {
        code_set(frames[0].user_mouse.buttons@)
    } else {
        code_set(frames[0].system_mouse.buttons@)
    }
}

/// The replayed key set of one space after frame `i`'s events.
pub open spec fn keys_at(frames: Seq<InputFrame>, hot: Set<u32>, user: bool, i: int) -> Set<u32>
    decreases i + 1,
{
    if i <= 0 {
        replay_keys(seed_keys(frames, user), frames[0].timeline@, !user, hot)
    } else {
        replay_keys(keys_at(frames, hot, user, i - 1), frames[i].timeline@, !user, hot)
    }
}

/// The replayed button set of one space after frame `i`'s events.
pub open spec fn buttons_at(frames: Seq<InputFrame>, user: bool, i: int) -> Set<u32>
    decreases i + 1,
{
    if i <= 0 {
        replay_buttons(seed_buttons(frames, user), frames[0].timeline@, !user)
    } else {
        replay_buttons(buttons_at(frames, user, i - 1), frames[i].timeline@, !user)
    }
}

/// Whether the model-control flag flips at frame `i`.
pub open spec fn flag_changed(frames: Seq<InputFrame>, i: int) -> bool {
    i > 0 && frames[i].inference_running != frames[i - 1].inference_running
}

/// The suppression counter in force for frame `i`'s system-space reports:
/// reset to `window` at every flag flip, counting down otherwise. The model
/// may legitimately have stale actions in flight across a transition.
pub open spec fn strictness_hold(frames: Seq<InputFrame>, window: u32, i: int) -> int
    decreases i + 1,
{
    if i <= 0 {
        0
    } else if flag_changed(frames, i) {
        window as int
    } else if strictness_hold(frames, window, i - 1) > 0 {
        strictness_hold(frames, window, i - 1) - 1
    } else {
        0
    }
}

/// The relative mouse motions among a frame's events, in order.
pub open spec fn delta_events(evs: Seq<DeviceEvent>) -> Seq<Vec2>
    decreases evs.len(),
{
    if evs.len() == 0 {
        Seq::empty()
    } else {
        delta_events(evs.drop_last()) + match evs.last().event {
            Event::MouseDelta(d) => seq![d],
            _ => Seq::empty(),
        }
    }
}

/// The wheel motions among a frame's events, in order.
pub open spec fn wheel_events(evs: Seq<DeviceEvent>) -> Seq<Vec2>
    decreases evs.len(),
{
    if evs.len() == 0 {
        Seq::empty()
    } else {
        wheel_events(evs.drop_last()) + match evs.last().event {
            Event::MouseWheel(d) => seq![d],
            _ => Seq::empty(),
        }
    }
}

/// The last absolute mouse position among a frame's events, if any.
pub open spec fn last_move_in(evs: Seq<DeviceEvent>) -> Option<Vec2>
    decreases evs.len(),
{
    if evs.len() == 0 {
        None
    } else {
        match evs.last().event {
            Event::MouseMove(p) => Some(p),
            _ => last_move_in(evs.drop_last()),
        }
    }
}

/// The absolute mouse position carried forward to frame `i`: the last move
/// event in frame `i` or, when it has none, in any earlier frame.
pub open spec fn carried_pos(frames: Seq<InputFrame>, i: int) -> Option<Vec2>
    decreases i + 1,
{
    if i < 0 {
        None
    } else {
        match last_move_in(frames[i].timeline@) {
            Some(p) => Some(p),
            None => carried_pos(frames, i - 1),
        }
    }
}

/// How many of a frame's events fall outside its time window.
pub open spec fn out_of_window(evs: Seq<DeviceEvent>, lo: u64, hi: u64) -> int
    decreases evs.len(),
{
    if evs.len() == 0 {
        0int
    } else {
        out_of_window(evs.drop_last(), lo, hi) + if evs.last().time < lo || evs.last().time
            > hi {
            1int
        } else {
            0int
        }
    }
}

/// The lower edge of frame `i`'s time window: the previous frame's sample
/// time, or the session start for the first frame.
pub open spec fn window_lo(frames: Seq<InputFrame>, start_time: u64, i: int) -> u64 {
    if i == 0 {
        start_time
    } else {
        frames[i - 1].time
    }
}

/// Replay one frame's keyboard events of one provenance over the running
/// pressed-key set.
fn replay_frame_keys(cur: &mut Vec<u32>, evs: &Vec<DeviceEvent>, simulated: bool, hot: &Vec<u32>)
    requires
        old(cur)@.no_duplicates(),
    ensures
        final(cur)@.no_duplicates(),
        code_set(final(cur)@) == replay_keys(code_set(old(cur)@), evs@, simulated, code_set(hot@)),
{
    let ghost s0 = code_set(cur@);
    let ghost hotset = code_set(hot@);
    let n = evs.len();
    let mut j: usize = 0;
    while j < n
        invariant
            n == evs@.len(),
            j <= n,
            cur@.no_duplicates(),
            hotset == code_set(hot@),
            code_set(cur@) == replay_keys(s0, evs@.take(j as int), simulated, hotset),
        decreases n - j,
    {
        proof {
            assert(evs@.take(j as int + 1).drop_last() =~= evs@.take(j as int));
            assert(evs@.take(j as int + 1).last() == evs@[j as int]);
        }
        let ghost before = code_set(cur@);
        match evs[j].event {
            Event::KeyboardInput { key, pressed } => {
                if evs[j].simulated == simulated && !contains_code(hot, key) {
                    proof {
                        assert(!hotset.contains(key));
                    }
                    if pressed {
                        insert_code(cur, key);
                        proof {
                            assert(code_set(cur@) == before.insert(key));
                        }
                    } else {
                        remove_code(cur, key);
                        proof {
                            assert(code_set(cur@) == before.remove(key));
                        }
                    }
                } else {
                    proof {
                        if evs@[j as int].simulated == simulated {
                            assert(hotset.contains(key));
                        }
                    }
                }
            },
            _ => {},
        }
        proof {
            assert(code_set(cur@) == replay_keys(s0, evs@.take(j as int + 1), simulated, hotset));
        }
        j = j + 1;
    }
    proof {
        assert(evs@.take(n as int) =~= evs@);
    }
}

/// Replay one frame's mouse-button events of one provenance over the running
/// pressed-button set.
fn replay_frame_buttons(cur: &mut Vec<u32>, evs: &Vec<DeviceEvent>, simulated: bool)
    requires
        old(cur)@.no_duplicates(),
    ensures
        final(cur)@.no_duplicates(),
        code_set(final(cur)@) == replay_buttons(code_set(old(cur)@), evs@, simulated),
{
    let ghost s0 = code_set(cur@);
    let n = evs.len();
    let mut j: usize = 0;
    while j < n
        invariant
            n == evs@.len(),
            j <= n,
            cur@.no_duplicates(),
            code_set(cur@) == replay_buttons(s0, evs@.take(j as int), simulated),
        decreases n - j,
    {
        proof {
            assert(evs@.take(j as int + 1).drop_last() =~= evs@.take(j as int));
            assert(evs@.take(j as int + 1).last() == evs@[j as int]);
        }
        match evs[j].event {
            Event::MouseButton { button, pressed } => {
                if evs[j].simulated == simulated {
                    if pressed {
                        insert_code(cur, button);
                    } else {
                        remove_code(cur, button);
                    }
                }
            },
            _ => {},
        }
        j = j + 1;
    }
    proof {
        assert(evs@.take(n as int) =~= evs@);
    }
}

/// Sum the relative mouse motions among a frame's events.
fn sum_delta_events(evs: &Vec<DeviceEvent>) -> (r: Vec2)
    requires
        evs@.len() <= MAX_SAMPLES,
        crate::event::wf_events(evs@),
    ensures
        r.x == sum_x(delta_events(evs@)),
        r.y == sum_y(delta_events(evs@)),
        r.in_sum_range(),
{
    let mut total = Vec2 { x: 0, y: 0 };
    let n = evs.len();
    let mut j: usize = 0;
    while j < n
        invariant
            n == evs@.len(),
            n <= MAX_SAMPLES,
            j <= n,
            crate::event::wf_events(evs@),
            total.x == sum_x(delta_events(evs@.take(j as int))),
            total.y == sum_y(delta_events(evs@.take(j as int))),
            delta_events(evs@.take(j as int)).len() <= j,
            -(COORD_BOUND * (j as int)) <= total.x <= COORD_BOUND * (j as int),
            -(COORD_BOUND * (j as int)) <= total.y <= COORD_BOUND * (j as int),
        decreases n - j,
    {
        proof {
            assert(evs@.take(j as int + 1).drop_last() =~= evs@.take(j as int));
            assert(evs@.take(j as int + 1).last() == evs@[j as int]);
            lemma_coord_scale(j as int);
            lemma_coord_scale(j as int + 1);
            assert(COORD_BOUND * (j as int) + COORD_BOUND == COORD_BOUND * (j as int + 1))
                by (nonlinear_arith);
            assert(evs@[j as int].wf());
        }
        match evs[j].event {
            Event::MouseDelta(d) => {
                proof {
                    let prev = delta_events(evs@.take(j as int));
                    assert((prev + seq![d]).drop_last() =~= prev);
                    assert((prev + seq![d]).last() == d);
                    assert(sum_x(prev + seq![d]) == sum_x(prev) + d.x);
                }
                total = Vec2 { x: total.x + d.x, y: total.y + d.y };
            },
            _ => {},
        }
        j = j + 1;
    }
    proof {
        assert(evs@.take(n as int) =~= evs@);
        lemma_coord_scale(n as int);
    }
    total
}

/// Sum the wheel motions among a frame's events.
fn sum_wheel_events(evs: &Vec<DeviceEvent>) -> (r: Vec2)
    requires
        evs@.len() <= MAX_SAMPLES,
        crate::event::wf_events(evs@),
    ensures
        r.x == sum_x(wheel_events(evs@)),
        r.y == sum_y(wheel_events(evs@)),
        r.in_sum_range(),
{
    let mut total = Vec2 { x: 0, y: 0 };
    let n = evs.len();
    let mut j: usize = 0;
    while j < n
        invariant
            n == evs@.len(),
            n <= MAX_SAMPLES,
            j <= n,
            crate::event::wf_events(evs@),
            total.x == sum_x(wheel_events(evs@.take(j as int))),
            total.y == sum_y(wheel_events(evs@.take(j as int))),
            wheel_events(evs@.take(j as int)).len() <= j,
            -(COORD_BOUND * (j as int)) <= total.x <= COORD_BOUND * (j as int),
            -(COORD_BOUND * (j as int)) <= total.y <= COORD_BOUND * (j as int),
        decreases n - j,
    {
        proof {
            assert(evs@.take(j as int + 1).drop_last() =~= evs@.take(j as int));
            assert(evs@.take(j as int + 1).last() == evs@[j as int]);
            lemma_coord_scale(j as int);
            lemma_coord_scale(j as int + 1);
            assert(COORD_BOUND * (j as int) + COORD_BOUND == COORD_BOUND * (j as int + 1))
                by (nonlinear_arith);
            assert(evs@[j as int].wf());
        }
        match evs[j].event {
            Event::MouseWheel(d) => {
                proof {
                    let prev = wheel_events(evs@.take(j as int));
                    assert((prev + seq![d]).drop_last() =~= prev);
                    assert((prev + seq![d]).last() == d);
                    assert(sum_x(prev + seq![d]) == sum_x(prev) + d.x);
                }
                total = Vec2 { x: total.x + d.x, y: total.y + d.y };
            },
            _ => {},
        }
        j = j + 1;
    }
    proof {
        assert(evs@.take(n as int) =~= evs@);
        lemma_coord_scale(n as int);
    }
    total
}

/// The last absolute mouse position among a frame's events, if any.
fn last_move_pos(evs: &Vec<DeviceEvent>) -> (r: Option<Vec2>)
    ensures
        r == last_move_in(evs@),
{
    let mut cur: Option<Vec2> = None;
    let n = evs.len();
    let mut j: usize = 0;
    while j < n
        invariant
            n == evs@.len(),
            j <= n,
            cur == last_move_in(evs@.take(j as int)),
        decreases n - j,
    {
        proof {
            assert(evs@.take(j as int + 1).drop_last() =~= evs@.take(j as int));
            assert(evs@.take(j as int + 1).last() == evs@[j as int]);
        }
        match evs[j].event {
            Event::MouseMove(p) => {
                cur = Some(p);
            },
            _ => {},
        }
        j = j + 1;
    }
    proof {
        assert(evs@.take(n as int) =~= evs@);
    }
    cur
}

/// Count the events outside the frame's time window.
fn count_out_of_window(evs: &Vec<DeviceEvent>, lo: u64, hi: u64) -> (r: usize)
    ensures
        r as int == out_of_window(evs@, lo, hi),
{
    let mut count: usize = 0;
    let n = evs.len();
    let mut j: usize = 0;
    while j < n
        invariant
            n == evs@.len(),
            j <= n,
            count as int == out_of_window(evs@.take(j as int), lo, hi),
            count <= j,
        decreases n - j,
    {
        proof {
            assert(evs@.take(j as int + 1).drop_last() =~= evs@.take(j as int));
            assert(evs@.take(j as int + 1).last() == evs@[j as int]);
        }
        if evs[j].time < lo || evs[j].time > hi {
            count = count + 1;
        }
        j = j + 1;
    }
    proof {
        assert(evs@.take(n as int) =~= evs@);
    }
    count
}

/// The measured rate is more than one frame per second off the target.
pub open spec fn fps_bad(measured_milli: u64, target_fps: u32) -> bool {
    measured_milli < (target_fps - 1) * 1000 || measured_milli > (target_fps + 1) * 1000
}

/// The frame count the wall-clock duration and the target rate predict,
/// rounded to the nearest frame.
pub open spec fn time_based_count(duration_ms: u64, target_fps: u32) -> int {
    (duration_ms * target_fps + 500) / 1000
}

/// Two percent below the predicted count, rounded to the nearest frame.
pub open spec fn time_based_min(tb: int) -> int {
    (tb * 98 + 50) / 100
}

/// Two percent above the predicted count, rounded to the nearest frame.
pub open spec fn time_based_max(tb: int) -> int {
    (tb * 102 + 50) / 100
}

/// The session-level conditions: rate, count and duration agreement between
/// the encoder, the file and the clock.
pub open spec fn scalar_finding_holds(
    f: Finding,
    n_frames: int,
    encoder_frame_count: u32,
    decoded: u32,
    measured_fps_milli: u64,
    target_fps: u32,
    duration_ms: u64,
) -> bool {
    match f {
        Finding::FpsMismatch { measured_milli } => measured_milli == measured_fps_milli
            && fps_bad(measured_fps_milli, target_fps),
        Finding::FrameCountMismatch { expected, actual } => decoded != encoder_frame_count
            && expected == encoder_frame_count && actual == decoded,
        Finding::AnnotationCountMismatch { expected, actual } => decoded != n_frames && expected
            == decoded && actual == n_frames,
        Finding::TimeFrameCountMismatch { expected, actual } => {
            let tb = time_based_count(duration_ms, target_fps);
            &&& (decoded < time_based_min(tb) || decoded > time_based_max(tb))
            &&& expected == tb
            &&& actual == decoded
        },
        _ => false,
    }
}

/// The mouse deltas attributed to frame `i` do not add up to its recorded
/// user plus system delta.
pub open spec fn delta_mismatch(frames: Seq<InputFrame>, i: int) -> bool {
    let fi = frames[i];
    sum_x(delta_events(fi.timeline@)) != fi.user_mouse.delta.x + fi.system_mouse.delta.x || sum_y(
        delta_events(fi.timeline@),
    ) != fi.user_mouse.delta.y + fi.system_mouse.delta.y
}

/// The wheel events attributed to frame `i` do not add up to its recorded
/// user plus system scroll.
pub open spec fn scroll_mismatch(frames: Seq<InputFrame>, i: int) -> bool {
    let fi = frames[i];
    sum_x(wheel_events(fi.timeline@)) != fi.user_mouse.scroll.x + fi.system_mouse.scroll.x
        || sum_y(wheel_events(fi.timeline@)) != fi.user_mouse.scroll.y + fi.system_mouse.scroll.y
}

/// The carried absolute position disagrees with frame `i`'s recorded user
/// plus system position. Before any move event there is nothing to check.
pub open spec fn pos_mismatch(frames: Seq<InputFrame>, i: int) -> bool {
    match carried_pos(frames, i) {
        Some(p) => {
            let fi = frames[i];
            p.x != fi.user_mouse.mouse_pos.x + fi.system_mouse.mouse_pos.x || p.y
                != fi.user_mouse.mouse_pos.y + fi.system_mouse.mouse_pos.y
        },
        None => false,
    }
}

/// The per-frame conditions, for frames below `i_limit`.
pub open spec fn frame_finding_holds(
    f: Finding,
    frames: Seq<InputFrame>,
    hot: Set<u32>,
    window: u32,
    i_limit: int,
) -> bool {
    match f {
        Finding::MouseDeltaMismatch { frame } => frame < i_limit && 0 <= frame < frames.len()
            && delta_mismatch(frames, frame as int),
        Finding::MouseScrollMismatch { frame } => frame < i_limit && 0 <= frame < frames.len()
            && scroll_mismatch(frames, frame as int),
        Finding::MousePositionMismatch { frame } => frame < i_limit && 0 <= frame < frames.len()
            && pos_mismatch(frames, frame as int),
        Finding::UserButtonsMismatch { frame } => frame < i_limit && 0 <= frame < frames.len()
            && buttons_at(frames, true, frame as int) != code_set(
            frames[frame as int].user_mouse.buttons@,
        ),
        Finding::SystemButtonsMismatch { frame } => frame < i_limit && 0 <= frame < frames.len()
            && strictness_hold(frames, window, frame as int) == 0 && buttons_at(
            frames,
            false,
            frame as int,
        ) != code_set(frames[frame as int].system_mouse.buttons@),
        Finding::UserKeysMismatch { frame } => frame < i_limit && 0 <= frame < frames.len()
            && keys_at(frames, hot, true, frame as int) != code_set(
            frames[frame as int].user_keys@,
        ),
        Finding::SystemKeysMismatch { frame } => frame < i_limit && 0 <= frame < frames.len()
            && strictness_hold(frames, window, frame as int) == 0 && keys_at(
            frames,
            hot,
            false,
            frame as int,
        ) != code_set(frames[frame as int].system_keys@),
        Finding::Overlap { frame } => frame < i_limit && 0 <= frame < frames.len()
            && frames[frame as int].user_keys@.len() > 0
            && frames[frame as int].system_keys@.len() > 0,
        Finding::UserKeysDuringInference { frame } => frame < i_limit && 0 <= frame
            < frames.len() && frames[frame as int].inference_running
            && frames[frame as int].user_keys@.len() > 0,
        Finding::SystemKeysOutsideInference { frame } => frame < i_limit && 0 <= frame
            < frames.len() && !frames[frame as int].inference_running
            && frames[frame as int].system_keys@.len() > 0,
        _ => false,
    }
}

/// Everything the checker may report, over the whole session.
pub open spec fn finding_holds(
    f: Finding,
    frames: Seq<InputFrame>,
    hot: Set<u32>,
    window: u32,
    encoder_frame_count: u32,
    decoded: u32,
    measured_fps_milli: u64,
    target_fps: u32,
    duration_ms: u64,
) -> bool {
    ||| scalar_finding_holds(
        f,
        frames.len() as int,
        encoder_frame_count,
        decoded,
        measured_fps_milli,
        target_fps,
        duration_ms,
    )
    ||| frame_finding_holds(f, frames, hot, window, frames.len() as int)
}

/// The warning-level condition: events attributed to a frame outside its
/// time window, for frames below `i_limit`.
pub open spec fn warning_holds(
    w: CheckWarning,
    frames: Seq<InputFrame>,
    start_time: u64,
    i_limit: int,
) -> bool {
    &&& w.frame < i_limit
    &&& 0 <= w.frame < frames.len()
    &&& w.count == out_of_window(
        frames[w.frame as int].timeline@,
        window_lo(frames, start_time, w.frame as int),
        frames[w.frame as int].time,
    )
    &&& w.count > 0
}

/// The findings gathered so far are exactly the session-level ones plus the
/// per-frame ones below `limit`.
pub open spec fn findings_ok(
    findings: Seq<Finding>,
    scalar_done: Seq<Finding>,
    frames: Seq<InputFrame>,
    hot: Set<u32>,
    window: u32,
    limit: int,
) -> bool {
    forall|f: Finding|
        findings.contains(f) <==> (scalar_done.contains(f) || frame_finding_holds(
            f,
            frames,
            hot,
            window,
            limit,
        ))
}

/// The warnings gathered so far are exactly the per-frame ones below
/// `limit`.
pub open spec fn warnings_ok(
    warnings: Seq<CheckWarning>,
    frames: Seq<InputFrame>,
    start_time: u64,
    limit: int,
) -> bool {
    forall|w: CheckWarning| warnings.contains(w) <==> warning_holds(w, frames, start_time, limit)
}

/// Cross-validate the recorded frames against the raw timeline and the
/// independently measured video facts. Pure validation: every departure is
/// reported as a finding (error level, sent to the session's error sink) or
/// a warning (logged only); nothing is ever raised.
#[verifier::rlimit(100)]
pub fn on_finish_check(
    frames: &Vec<InputFrame>,
    encoder_frame_count: u32,
    decoded_frame_count: u32,
    measured_fps_milli: u64,
    target_fps: u32,
    duration_ms: u64,
    start_time: u64,
    config: &InputConfig,
    strictness_window: u32,
) -> (report: CheckReport)
    requires
        wf_frames(frames@),
        frames@.len() <= u32::MAX,
        1 <= target_fps <= 1000,
        duration_ms <= 0x1_0000_0000,
        time_based_count(duration_ms, target_fps) <= u32::MAX,
    ensures
        forall|f: Finding|
            report.findings@.contains(f) <==> finding_holds(
                f,
                frames@,
                config.hot_set(),
                strictness_window,
                encoder_frame_count,
                decoded_frame_count,
                measured_fps_milli,
                target_fps,
                duration_ms,
            ),
        forall|w: CheckWarning|
            report.warnings@.contains(w) <==> warning_holds(
                w,
                frames@,
                start_time,
                frames@.len() as int,
            ),
{
    let ghost hot = config.hot_set();
    let mut findings: Vec<Finding> = Vec::new();
    let mut warnings: Vec<CheckWarning> = Vec::new();

    // rate, count and duration agreement
    if measured_fps_milli < (target_fps - 1) as u64 * 1000 || measured_fps_milli > (target_fps
        + 1) as u64 * 1000 {
        findings.push(Finding::FpsMismatch { measured_milli: measured_fps_milli });
    }
    if decoded_frame_count != encoder_frame_count {
        findings.push(
            Finding::FrameCountMismatch {
                expected: encoder_frame_count,
                actual: decoded_frame_count,
            },
        );
    }
    let annotations_len = frames.len() as u32;
    if decoded_frame_count != annotations_len {
        findings.push(
            Finding::AnnotationCountMismatch {
                expected: decoded_frame_count,
                actual: annotations_len,
            },
        );
    }
    proof {
        assert(duration_ms * target_fps <= 0x1_0000_0000 * 1000) by (nonlinear_arith)
            requires
                duration_ms <= 0x1_0000_0000,
                target_fps <= 1000,
        ;
    }
    let time_based = ((duration_ms * (target_fps as u64) + 500) / 1000) as u32;
    let tb_min = ((time_based as u64 * 98 + 50) / 100) as u32;
    let tb_max_64 = (time_based as u64 * 102 + 50) / 100;
    if (decoded_frame_count as u64) < (tb_min as u64) || (decoded_frame_count as u64)
        > tb_max_64 {
        findings.push(
            Finding::TimeFrameCountMismatch { expected: time_based, actual: decoded_frame_count },
        );
    }
    proof {
        assert forall|f: Finding| findings@.contains(f) <==> scalar_finding_holds(
            f,
            frames@.len() as int,
            encoder_frame_count,
            decoded_frame_count,
            measured_fps_milli,
            target_fps,
            duration_ms,
        ) by {}
    }

    // the replay pass
    let n = frames.len();
    let mut cur_user_keys: Vec<u32> = Vec::new();
    let mut cur_sys_keys: Vec<u32> = Vec::new();
    let mut cur_user_buttons: Vec<u32> = Vec::new();
    let mut cur_sys_buttons: Vec<u32> = Vec::new();
    if n > 0 {
        let first = &frames[0];
        cur_user_keys = copy_codes(&first.user_keys);
        cur_sys_keys = copy_codes(&first.system_keys);
        cur_user_buttons = copy_codes(&first.user_mouse.buttons);
        cur_sys_buttons = copy_codes(&first.system_mouse.buttons);
    }
    proof {
        if n == 0 {
            assert(code_set(cur_user_keys@) =~= seed_keys(frames@, true));
            assert(code_set(cur_sys_keys@) =~= seed_keys(frames@, false));
            assert(code_set(cur_user_buttons@) =~= seed_buttons(frames@, true));
            assert(code_set(cur_sys_buttons@) =~= seed_buttons(frames@, false));
        }
    }
    let mut cur_pos: Option<Vec2> = None;
    let mut strict: u32 = 0;
    let ghost scalar_done = findings@;
    let mut i: usize = 0;
    while i < n
        invariant
            n == frames@.len(),
            n <= u32::MAX,
            i <= n,
            wf_frames(frames@),
            hot == config.hot_set(),
            cur_user_keys@.no_duplicates(),
            cur_sys_keys@.no_duplicates(),
            cur_user_buttons@.no_duplicates(),
            cur_sys_buttons@.no_duplicates(),
            code_set(cur_user_keys@) == if i == 0 {
                seed_keys(frames@, true)
            } else {
                keys_at(frames@, hot, true, i as int - 1)
            },
            code_set(cur_sys_keys@) == if i == 0 {
                seed_keys(frames@, false)
            } else {
                keys_at(frames@, hot, false, i as int - 1)
            },
            code_set(cur_user_buttons@) == if i == 0 {
                seed_buttons(frames@, true)
            } else {
                buttons_at(frames@, true, i as int - 1)
            },
            code_set(cur_sys_buttons@) == if i == 0 {
                seed_buttons(frames@, false)
            } else {
                buttons_at(frames@, false, i as int - 1)
            },
            cur_pos == carried_pos(frames@, i as int - 1),
            strict as int == strictness_hold(frames@, strictness_window, i as int - 1),
            findings_ok(findings@, scalar_done, frames@, hot, strictness_window, i as int),
            forall|f: Finding|
                scalar_done.contains(f) <==> scalar_finding_holds(
                    f,
                    frames@.len() as int,
                    encoder_frame_count,
                    decoded_frame_count,
                    measured_fps_milli,
                    target_fps,
                    duration_ms,
                ),
            warnings_ok(warnings@, frames@, start_time, i as int),
        decreases n - i,
    {
        let ghost findings_top = findings@;
        let ghost warnings_top = warnings@;
        let ghost fs = frames@;
        let ghost ii = i as int;
        let fi = &frames[i];
        proof {
            assert(frames@[i as int].wf());
        }

        // suppression counter for this frame's system-space reports
        let changed = i > 0 && fi.inference_running != frames[i - 1].inference_running;
        let new_strict = if changed {
            strictness_window
        } else if strict > 0 {
            strict - 1
        } else {
            0
        };
        proof {
            assert(new_strict as int == strictness_hold(frames@, strictness_window, i as int));
        }

        // events attributed to this frame must fall inside its time window
        let lo = if i == 0 {
            start_time
        } else {
            frames[i - 1].time
        };
        let cnt = count_out_of_window(&fi.timeline, lo, fi.time);
        if cnt > 0 {
            warnings.push(CheckWarning { frame: i, count: cnt });
        }

        // summed deltas and scrolls must match the recorded aggregates
        let dsum = sum_delta_events(&fi.timeline);
        let dexp = fi.user_mouse.delta.add(fi.system_mouse.delta);
        if dsum.x != dexp.x || dsum.y != dexp.y {
            findings.push(Finding::MouseDeltaMismatch { frame: i });
        }
        let ssum = sum_wheel_events(&fi.timeline);
        let sexp = fi.user_mouse.scroll.add(fi.system_mouse.scroll);
        if ssum.x != sexp.x || ssum.y != sexp.y {
            findings.push(Finding::MouseScrollMismatch { frame: i });
        }

        // the carried absolute position must match the recorded positions
        match last_move_pos(&fi.timeline) {
            Some(p) => {
                cur_pos = Some(p);
            },
            None => {},
        }
        match cur_pos {
            Some(p) => {
                let pexp = fi.user_mouse.mouse_pos.add(fi.system_mouse.mouse_pos);
                if p.x != pexp.x || p.y != pexp.y {
                    findings.push(Finding::MousePositionMismatch { frame: i });
                }
            },
            None => {},
        }

        // replayed button sets must match the recorded ones
        replay_frame_buttons(&mut cur_user_buttons, &fi.timeline, false);
        replay_frame_buttons(&mut cur_sys_buttons, &fi.timeline, true);
        if !same_code_set(&cur_user_buttons, &fi.user_mouse.buttons) {
            findings.push(Finding::UserButtonsMismatch { frame: i });
        }
        if !same_code_set(&cur_sys_buttons, &fi.system_mouse.buttons) {
            if new_strict == 0 {
                findings.push(Finding::SystemButtonsMismatch { frame: i });
            }
        }

        // replayed key sets must match the recorded ones
        replay_frame_keys(&mut cur_user_keys, &fi.timeline, false, &config.hot_keys);
        replay_frame_keys(&mut cur_sys_keys, &fi.timeline, true, &config.hot_keys);
        if !same_code_set(&cur_user_keys, &fi.user_keys) {
            findings.push(Finding::UserKeysMismatch { frame: i });
        }
        if !same_code_set(&cur_sys_keys, &fi.system_keys) {
            if new_strict == 0 {
                findings.push(Finding::SystemKeysMismatch { frame: i });
            }
        }

        // user and model input must be mutually exclusive per frame
        let user_nonempty = fi.user_keys.len() > 0;
        let system_nonempty = fi.system_keys.len() > 0;
        if user_nonempty && system_nonempty {
            findings.push(Finding::Overlap { frame: i });
        }
        if fi.inference_running {
            if user_nonempty {
                findings.push(Finding::UserKeysDuringInference { frame: i });
            }
        } else if system_nonempty {
            findings.push(Finding::SystemKeysOutsideInference { frame: i });
        }

        proof {
            assert(code_set(cur_user_buttons@) == buttons_at(fs, true, ii));
            assert(code_set(cur_sys_buttons@) == buttons_at(fs, false, ii));
            assert(code_set(cur_user_keys@) == keys_at(fs, hot, true, ii));
            assert(code_set(cur_sys_keys@) == keys_at(fs, hot, false, ii));
            assert(cur_pos == carried_pos(fs, ii));
            assert(delta_mismatch(fs, ii) == (dsum.x != dexp.x || dsum.y != dexp.y));
            assert(scroll_mismatch(fs, ii) == (ssum.x != sexp.x || ssum.y != sexp.y));
            assert forall|f: Finding|
                frame_finding_holds(f, fs, hot, strictness_window, ii) implies
                frame_finding_holds(f, fs, hot, strictness_window, ii + 1) by {}
            assert forall|f: Finding| findings_top.contains(f) implies findings@.contains(
                f,
            ) by {}
            assert forall|f: Finding| findings@.contains(f) && !findings_top.contains(f) implies
                frame_finding_holds(f, fs, hot, strictness_window, ii + 1) by {}
            assert forall|f: Finding|
                frame_finding_holds(f, fs, hot, strictness_window, ii + 1)
                    && !frame_finding_holds(f, fs, hot, strictness_window, ii) implies findings@
                .contains(f) by {}
            assert forall|f: Finding| findings@.contains(f) <==> (scalar_done.contains(f)
                || frame_finding_holds(f, fs, hot, strictness_window, ii + 1)) by {
                assert(findings_top.contains(f) <==> (scalar_done.contains(f)
                    || frame_finding_holds(f, fs, hot, strictness_window, ii)));
            }
            assert(findings_ok(findings@, scalar_done, fs, hot, strictness_window, ii + 1));
            assert forall|w: CheckWarning| warnings@.contains(w) <==> warning_holds(
                w,
                fs,
                start_time,
                ii + 1,
            ) by {
                assert(warnings_top.contains(w) <==> warning_holds(w, fs, start_time, ii));
            }
            assert(warnings_ok(warnings@, fs, start_time, ii + 1));
        }
        strict = new_strict;
        i = i + 1;
    }
    proof {
        assert forall|f: Finding| findings@.contains(f) <==> finding_holds(
            f,
            frames@,
            hot,
            strictness_window,
            encoder_frame_count,
            decoded_frame_count,
            measured_fps_milli,
            target_fps,
            duration_ms,
        ) by {
            assert(findings_ok(
                findings@,
                scalar_done,
                frames@,
                hot,
                strictness_window,
                frames@.len() as int,
            ));
        }
        assert forall|w: CheckWarning| warnings@.contains(w) <==> warning_holds(
            w,
            frames@,
            start_time,
            frames@.len() as int,
        ) by {
            assert(warnings_ok(warnings@, frames@, start_time, frames@.len() as int));
        }
    }
    CheckReport { findings, warnings }
}

} // verus!
