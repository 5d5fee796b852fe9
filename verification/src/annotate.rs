//! The annotation builder.
//!
//! After a session ends, the recorded frame snapshots and the voice-activity
//! samples are folded into the final serializable artifact: one frame
//! annotation per snapshot, each carrying a user action, a system action and
//! the frame's raw events with frame-relative timestamps. The transform is
//! per-frame independent and order-preserving; the output order is the frame
//! index order. The platform layer serializes the artifact into the binary
//! container.

use vstd::prelude::*;
use crate::event::{DeviceEvent, Event, PadAxis, PadButton, PadEvent};
use crate::frame::{GamePad, InputFrame, InputFrameMouse};
use crate::geom::Vec2;

verus! {

/// One voice-activity transition as captured, in absolute time.
#[derive(Clone, Copy, Debug, PartialEq, Eq, Structural)]
pub struct VoiceSample {
    pub speaking: bool,
    pub time: u64,
}

/// One voice-activity transition in the artifact, frame-relative.
#[derive(Clone, Copy, Debug, PartialEq, Eq, Structural)]
pub struct VoiceEvent {
    pub speaking: bool,
    /// Nanoseconds from the session start.
    pub time: u64,
}

/// The mouse state of one action in the artifact.
#[derive(Debug, Clone)]
pub struct MouseActionRecord {
    pub mouse_absolute: Vec2,
    pub mouse_delta: Vec2,
    pub scroll_delta: Vec2,
    pub buttons_down: Vec<u32>,
}

/// One per-frame action of one space.
#[derive(Debug, Clone)]
pub struct LowLevelAction {
    pub mouse: MouseActionRecord,
    /// Keys held; empty when the space held none.
    pub keys: Vec<u32>,
    /// Whether this action's space was the one in control of the session at
    /// that frame.
    pub is_known: bool,
    pub game_pad: Option<GamePad>,
}

/// One raw input event in the artifact, frame-relative.
#[derive(Clone, Copy, Debug, PartialEq, Eq, Structural)]
pub struct InputEventRecord {
    /// Nanoseconds from the session start.
    pub time: u64,
    pub simulated: bool,
    pub event: Event,
}

/// One frame of the artifact.
#[derive(Debug, Clone)]
pub struct FrameAnnotation {
    pub user_action: LowLevelAction,
    pub system_action: LowLevelAction,
    /// Nanoseconds from the session start to the frame's sample time.
    pub frame_time: u64,
    pub input_events: Vec<InputEventRecord>,
}

/// The serialized session record: metadata, schema version, ordered frames,
/// voice events. The metadata travels through untouched.
#[derive(Debug)]
pub struct VideoAnnotation<M> {
    pub metadata: M,
    /// Schema version; readers must reject or migrate unknown versions.
    pub version: u32,
    pub frame_annotations: Vec<FrameAnnotation>,
    pub voice_events: Vec<VoiceEvent>,
}

/// A timestamp from before the session start where none may occur.
#[derive(Clone, Copy, Debug, PartialEq, Eq, Structural)]
pub enum AnnotationError {
    /// A frame was sampled before the session start.
    FrameEarly { frame: usize },
    /// A raw event of a frame precedes the session start.
    EventEarly { frame: usize, index: usize },
    /// A voice sample precedes the session start.
    VoiceEarly { index: usize },
}

/// Whether a controller event has a place in the artifact.
pub open spec fn pad_event_kept(e: PadEvent) -> bool {
    match e {
        PadEvent::ButtonPressed(b) => b != PadButton::Mode && b != PadButton::Other,
        PadEvent::ButtonReleased(b) => b != PadButton::Mode && b != PadButton::Other,
        PadEvent::ButtonChanged(b, _) => b == PadButton::LeftTrigger || b
            == PadButton::RightTrigger,
        PadEvent::AxisChanged(a, _) => a != PadAxis::Other,
        _ => false,
    }
}

/// Whether a raw event has a place in the artifact.
pub open spec fn event_kept(e: Event) -> bool {
    match e {
        Event::GamePadAction(p) => pad_event_kept(p),
        _ => true,
    }
}

/// The artifact records of a frame's raw events: the kept events, in order,
/// with frame-relative timestamps.
pub open spec fn event_records(timeline: Seq<DeviceEvent>, start: u64) -> Seq<InputEventRecord>
    decreases timeline.len(),
{
    if timeline.len() == 0 {
        Seq::empty()
    } else {
        event_records(timeline.drop_last(), start) + if event_kept(timeline.last().event) {
            seq![
                InputEventRecord {
                    time: (timeline.last().time - start) as u64,
                    simulated: timeline.last().simulated,
                    event: timeline.last().event,
                },
            ]
        } else {
            Seq::empty()
        }
    }
}

/// An action record carries exactly one space of one frame.
pub open spec fn action_matches(
    a: LowLevelAction,
    keys: Seq<u32>,
    mouse: InputFrameMouse,
    is_known: bool,
    pad: Option<GamePad>,
) -> bool {
    &&& a.keys@ == keys
    &&& a.mouse.mouse_absolute == mouse.mouse_pos
    &&& a.mouse.mouse_delta == mouse.delta
    &&& a.mouse.scroll_delta == mouse.scroll
    &&& a.mouse.buttons_down@ == mouse.buttons@
    &&& a.is_known == is_known
    &&& a.game_pad == pad
}

/// A frame annotation carries exactly one snapshot: the user action marked
/// known outside model control, the system action marked known under it (and
/// never carrying the gamepad), the frame-relative sample time, and the kept
/// raw events.
pub open spec fn frame_annotation_matches(fa: FrameAnnotation, f: InputFrame, start: u64) -> bool {
    &&& action_matches(
        fa.user_action,
        f.user_keys@,
        f.user_mouse,
        !f.inference_running,
        f.game_pad,
    )
    &&& action_matches(fa.system_action, f.system_keys@, f.system_mouse, f.inference_running, None)
    &&& fa.frame_time == f.time - start
    &&& fa.input_events@ == event_records(f.timeline@, start)
}

/// No timestamp of the frame precedes the session start.
pub open spec fn frame_times_ok(f: InputFrame, start: u64) -> bool {
    &&& start <= f.time
    &&& forall|j: int| 0 <= j < f.timeline@.len() ==> start <= (#[trigger] f.timeline@[j]).time
}

/// Copy one frame's raw events into artifact records.
fn collect_event_records(timeline: &Vec<DeviceEvent>, start: u64) -> (r: Result<
    Vec<InputEventRecord>,
    usize,
>)
    ensures
        r is Ok <==> forall|j: int|
            0 <= j < timeline@.len() ==> start <= (#[trigger] timeline@[j]).time,
        r matches Ok(recs) ==> recs@ == event_records(timeline@, start),
        r matches Err(j) ==> j < timeline@.len() && timeline@[j as int].time < start && forall|
            k: int,
        | 0 <= k < j ==> start <= (#[trigger] timeline@[k]).time,
{
    let mut recs: Vec<InputEventRecord> = Vec::new();
    let n = timeline.len();
    let mut j: usize = 0;
    while j < n
        invariant
            n == timeline@.len(),
            j <= n,
            forall|k: int| 0 <= k < j ==> start <= (#[trigger] timeline@[k]).time,
            recs@ == event_records(timeline@.take(j as int), start),
        decreases n - j,
    {
        proof {
            assert(timeline@.take(j as int + 1).drop_last() =~= timeline@.take(j as int));
            assert(timeline@.take(j as int + 1).last() == timeline@[j as int]);
        }
        let ev = timeline[j];
        if ev.time < start {
            return Err(j);
        }
        let kept = match ev.event {
            Event::GamePadAction(p) => match p {
                PadEvent::ButtonPressed(b) => !(matches!(b, PadButton::Mode) || matches!(
                    b,
                    PadButton::Other,
                )),
                PadEvent::ButtonReleased(b) => !(matches!(b, PadButton::Mode) || matches!(
                    b,
                    PadButton::Other,
                )),
                PadEvent::ButtonChanged(b, _) => matches!(b, PadButton::LeftTrigger) || matches!(
                    b,
                    PadButton::RightTrigger,
                ),
                PadEvent::AxisChanged(a, _) => !matches!(a, PadAxis::Other),
                _ => false,
            },
            _ => true,
        };
        if kept {
            recs.push(
                InputEventRecord { time: ev.time - start, simulated: ev.simulated, event: ev.event },
            );
            proof {
                assert(recs@ =~= event_records(timeline@.take(j as int + 1), start));
            }
        }
        j = j + 1;
    }
    proof {
        assert(timeline@.take(n as int) =~= timeline@);
    }
    Ok(recs)
}

/// Fold the recorded frames and voice samples into the artifact. Fails if
/// and only if some recorded timestamp precedes the session start, naming
/// the first such timestamp in frame order, then voice order.
pub fn build_annotation<M>(
    frames: &Vec<InputFrame>,
    metadata: M,
    version: u32,
    start_time: u64,
    voice: &Vec<VoiceSample>,
) -> (r: Result<VideoAnnotation<M>, AnnotationError>)
    ensures
        r is Ok <==> ((forall|i: int|
            0 <= i < frames@.len() ==> frame_times_ok(#[trigger] frames@[i], start_time))
            && (forall|k: int|
            0 <= k < voice@.len() ==> start_time <= (#[trigger] voice@[k]).time)),
        r matches Ok(a) ==> {
            &&& a.version == version
            &&& a.frame_annotations@.len() == frames@.len()
            &&& forall|i: int|
                0 <= i < frames@.len() ==> frame_annotation_matches(
                    #[trigger] a.frame_annotations@[i],
                    frames@[i],
                    start_time,
                )
            &&& a.voice_events@.len() == voice@.len()
            &&& forall|k: int|
                0 <= k < voice@.len() ==> #[trigger] a.voice_events@[k] == (VoiceEvent {
                    speaking: voice@[k].speaking,
                    time: (voice@[k].time - start_time) as u64,
                })
        },
        r matches Err(e) ==> match e {
            AnnotationError::FrameEarly { frame } => {
                &&& frame < frames@.len()
                &&& frames@[frame as int].time < start_time
                &&& forall|i: int|
                    0 <= i < frame ==> frame_times_ok(#[trigger] frames@[i], start_time)
            },
            AnnotationError::EventEarly { frame, index } => {
                &&& frame < frames@.len()
                &&& start_time <= frames@[frame as int].time
                &&& index < frames@[frame as int].timeline@.len()
                &&& frames@[frame as int].timeline@[index as int].time < start_time
                &&& forall|i: int|
                    0 <= i < frame ==> frame_times_ok(#[trigger] frames@[i], start_time)
                &&& forall|k: int|
                    0 <= k < index ==> start_time <= (
                    #[trigger] frames@[frame as int].timeline@[k]).time
            },
            AnnotationError::VoiceEarly { index } => {
                &&& (forall|i: int|
                    0 <= i < frames@.len() ==> frame_times_ok(#[trigger] frames@[i], start_time))
                &&& index < voice@.len()
                &&& voice@[index as int].time < start_time
                &&& forall|k: int| 0 <= k < index ==> start_time <= (#[trigger] voice@[k]).time
            },
        },
{
    let mut annotations: Vec<FrameAnnotation> = Vec::new();
    let n = frames.len();
    let mut i: usize = 0;
    while i < n
        invariant
            n == frames@.len(),
            i <= n,
            annotations@.len() == i,
            forall|k: int| 0 <= k < i ==> frame_times_ok(#[trigger] frames@[k], start_time),
            forall|k: int|
                0 <= k < i ==> frame_annotation_matches(
                    #[trigger] annotations@[k],
                    frames@[k],
                    start_time,
                ),
        decreases n - i,
    {
        let f = &frames[i];
        if f.time < start_time {
            return Err(AnnotationError::FrameEarly { frame: i });
        }
        let input_events = match collect_event_records(&f.timeline, start_time) {
            Ok(recs) => recs,
            Err(j) => {
                return Err(AnnotationError::EventEarly { frame: i, index: j });
            },
        };
        let user_action = LowLevelAction {
            mouse: MouseActionRecord {
                mouse_absolute: f.user_mouse.mouse_pos,
                mouse_delta: f.user_mouse.delta,
                scroll_delta: f.user_mouse.scroll,
                buttons_down: crate::codeset::copy_codes(&f.user_mouse.buttons),
            },
            keys: crate::codeset::copy_codes(&f.user_keys),
            is_known: !f.inference_running,
            game_pad: f.game_pad,
        };
        let system_action = LowLevelAction {
            mouse: MouseActionRecord {
                mouse_absolute: f.system_mouse.mouse_pos,
                mouse_delta: f.system_mouse.delta,
                scroll_delta: f.system_mouse.scroll,
                buttons_down: crate::codeset::copy_codes(&f.system_mouse.buttons),
            },
            keys: crate::codeset::copy_codes(&f.system_keys),
            is_known: f.inference_running,
            game_pad: None,
        };
        annotations.push(
            FrameAnnotation {
                user_action,
                system_action,
                frame_time: f.time - start_time,
                input_events,
            },
        );
        i = i + 1;
    }

    let mut voice_events: Vec<VoiceEvent> = Vec::new();
    let m = voice.len();
    let mut k: usize = 0;
    while k < m
        invariant
            m == voice@.len(),
            k <= m,
            voice_events@.len() == k,
            forall|j: int|
                0 <= j < frames@.len() ==> frame_times_ok(#[trigger] frames@[j], start_time),
            forall|j: int| 0 <= j < k ==> start_time <= (#[trigger] voice@[j]).time,
            forall|j: int|
                0 <= j < k ==> #[trigger] voice_events@[j] == (VoiceEvent {
                    speaking: voice@[j].speaking,
                    time: (voice@[j].time - start_time) as u64,
                }),
        decreases m - k,
    {
        let v = voice[k];
        if v.time < start_time {
            return Err(AnnotationError::VoiceEarly { index: k });
        }
        voice_events.push(VoiceEvent { speaking: v.speaking, time: v.time - start_time });
        k = k + 1;
    }

    Ok(
        VideoAnnotation {
            metadata,
            version,
            frame_annotations: annotations,
            voice_events,
        },
    )
}

} // verus!
