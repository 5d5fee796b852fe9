//! The capture lifecycle, the annotation builder and the widget view.

use recap::annotate::{build_annotation, AnnotationError, VoiceSample};
use recap::capture::{next_multiple_of, output_width, too_many_keys, trim_pre_start_event,
    CaptureControl};
use recap::config::InputConfig;
use recap::event::{DeviceEvent, Event, PadAxis, PadButton, PadEvent};
use recap::frame::{GamePad, InputFrame, InputFrameMouse};
use recap::geom::Vec2;
use recap::manager::setup;
use recap::view::KeyView;

const KEY_A: u32 = 30;
const KEY_REENABLE: u32 = 26;

fn empty_mouse() -> InputFrameMouse {
    InputFrameMouse {
        delta: Vec2 { x: 0, y: 0 },
        mouse_pos: Vec2 { x: 0, y: 0 },
        buttons: vec![],
        scroll: Vec2 { x: 0, y: 0 },
    }
}

fn empty_frame(time: u64) -> InputFrame {
    InputFrame {
        time,
        user_keys: vec![],
        system_keys: vec![],
        inference_running: false,
        user_mouse: empty_mouse(),
        system_mouse: empty_mouse(),
        game_pad: None,
        timeline: vec![],
    }
}

#[test]
fn capture_control_refuses_a_second_start() {
    let mut ctl = CaptureControl::new();
    assert!(ctl.try_begin(true).is_ok());
    assert!(ctl.running && ctl.inference_enabled && ctl.started_inference);
    assert!(ctl.try_begin(false).is_err());
    ctl.toggle_model_control();
    assert!(!ctl.inference_enabled);
    ctl.finish();
    assert!(!ctl.running);
    assert!(ctl.try_begin(false).is_ok());
    assert!(!ctl.inference_enabled);
}

#[test]
fn next_multiple_of_exact_values() {
    assert_eq!(next_multiple_of(853, 4), 856);
    assert_eq!(next_multiple_of(856, 4), 856);
    assert_eq!(next_multiple_of(0, 4), 0);
    assert_eq!(next_multiple_of(1, 7), 7);
    assert_eq!(next_multiple_of(-5, 4), -4);
    // a negative step rounds the other way, so -1 is the identity
    assert_eq!(next_multiple_of(5, -1), 5);
    assert_eq!(next_multiple_of(-5, -1), -5);
    assert_eq!(next_multiple_of(5, -4), 4);
    assert_eq!(next_multiple_of(-5, -4), -8);
}

#[test]
fn output_width_scales_and_pads_to_four() {
    // 1920x1080 at output height 480: 853.3 rounds to 853, padded to 856
    assert_eq!(output_width(1920, 1080, 480), 856);
    // 640x480 at output height 480: already 640, a multiple of four
    assert_eq!(output_width(640, 480, 480), 640);
}

#[test]
fn ghosting_bound_is_ten_keys() {
    let mut frame = empty_frame(0);
    frame.user_keys = (1..=10u32).collect();
    assert!(!too_many_keys(&frame));
    frame.user_keys = (1..=11u32).collect();
    assert!(too_many_keys(&frame));
}

#[test]
fn single_early_event_is_trimmed_once() {
    let early = DeviceEvent {
        time: 5,
        event: Event::KeyboardInput { key: KEY_A, pressed: true },
        simulated: false,
    };
    let late = DeviceEvent {
        time: 20,
        event: Event::KeyboardInput { key: KEY_A, pressed: false },
        simulated: false,
    };
    let mut frame = empty_frame(30);
    frame.timeline = vec![early, late];
    let mut frames = vec![frame];
    let (removed, still) = trim_pre_start_event(&mut frames, 10);
    assert!(removed);
    assert!(!still);
    assert_eq!(frames[0].timeline.len(), 1);
    assert_eq!(frames[0].timeline[0].time, 20);
    // nothing early: nothing touched
    let (removed, still) = trim_pre_start_event(&mut frames, 10);
    assert!(!removed);
    assert!(!still);
    // two early events: one removed, the second still reported
    let mut frame = empty_frame(30);
    frame.timeline = vec![early, early, late];
    let mut frames = vec![frame];
    let (removed, still) = trim_pre_start_event(&mut frames, 10);
    assert!(removed);
    assert!(still);
}

#[test]
fn annotation_carries_frames_relative_times_and_provenance() {
    let press = DeviceEvent {
        time: 110,
        event: Event::KeyboardInput { key: KEY_A, pressed: true },
        simulated: false,
    };
    let mut frame = empty_frame(150);
    frame.user_keys = vec![KEY_A];
    frame.inference_running = false;
    frame.user_mouse.mouse_pos = Vec2 { x: 3, y: 4 };
    frame.timeline = vec![press];
    let voice = vec![VoiceSample { speaking: true, time: 120 }];
    let annotation =
        build_annotation(&vec![frame], (), 9, 100, &voice).unwrap();
    assert_eq!(annotation.version, 9);
    assert_eq!(annotation.frame_annotations.len(), 1);
    let fa = &annotation.frame_annotations[0];
    assert_eq!(fa.frame_time, 50);
    assert_eq!(fa.user_action.keys, vec![KEY_A]);
    assert!(fa.user_action.is_known);
    assert!(!fa.system_action.is_known);
    assert!(fa.system_action.game_pad.is_none());
    assert_eq!(fa.user_action.mouse.mouse_absolute, Vec2 { x: 3, y: 4 });
    assert_eq!(fa.input_events.len(), 1);
    assert_eq!(fa.input_events[0].time, 10);
    assert!(!fa.input_events[0].simulated);
    assert_eq!(annotation.voice_events.len(), 1);
    assert_eq!(annotation.voice_events[0].time, 20);
    assert!(annotation.voice_events[0].speaking);
}

#[test]
fn annotation_drops_unmapped_controller_events() {
    let kept = DeviceEvent {
        time: 110,
        event: Event::GamePadAction(PadEvent::AxisChanged(PadAxis::LeftStickX, 500)),
        simulated: false,
    };
    let dropped = DeviceEvent {
        time: 115,
        event: Event::GamePadAction(PadEvent::Connected),
        simulated: false,
    };
    let mut frame = empty_frame(150);
    frame.timeline = vec![kept, dropped];
    let annotation = build_annotation(&vec![frame], (), 9, 100, &vec![]).unwrap();
    let fa = &annotation.frame_annotations[0];
    assert_eq!(fa.input_events.len(), 1);
    assert_eq!(fa.input_events[0].time, 10);
}

#[test]
fn annotation_rejects_times_before_session_start() {
    let frame = empty_frame(50);
    let r = build_annotation(&vec![frame], (), 9, 100, &vec![]);
    assert_eq!(r.err(), Some(AnnotationError::FrameEarly { frame: 0 }));

    let early_event = DeviceEvent {
        time: 90,
        event: Event::KeyboardInput { key: KEY_A, pressed: true },
        simulated: false,
    };
    let mut frame = empty_frame(150);
    frame.timeline = vec![early_event];
    let r = build_annotation(&vec![frame], (), 9, 100, &vec![]);
    assert_eq!(r.err(), Some(AnnotationError::EventEarly { frame: 0, index: 0 }));

    let frame = empty_frame(150);
    let voice = vec![VoiceSample { speaking: false, time: 99 }];
    let r = build_annotation(&vec![frame], (), 9, 100, &voice);
    assert_eq!(r.err(), Some(AnnotationError::VoiceEarly { index: 0 }));
}

#[test]
fn suspicious_start_keys_detected() {
    let suspicious = vec![12, 13];
    let mut frame = empty_frame(0);
    frame.user_keys = vec![KEY_A];
    assert!(!recap::capture::start_keys_suspicious(&frame, &suspicious));
    frame.user_keys = vec![KEY_A, 13];
    assert!(recap::capture::start_keys_suspicious(&frame, &suspicious));
}

#[test]
fn frames_carry_the_latest_gamepad_snapshot() {
    let mut mgr = setup(InputConfig::new(vec![KEY_REENABLE], KEY_REENABLE), 0);
    mgr.reset_recording(0);
    assert!(mgr.collect_input_frames(10).game_pad.is_none());
    let mut pad = GamePad::default();
    pad.apply(PadEvent::ButtonPressed(PadButton::Start));
    mgr.set_game_pad(Some(pad));
    let frame = mgr.collect_input_frames(20);
    assert!(frame.game_pad.unwrap().buttons.start);
}

#[test]
fn trace_events_reach_only_the_timeline() {
    let mut mgr = setup(InputConfig::new(vec![KEY_REENABLE], KEY_REENABLE), 0);
    mgr.reset_recording(0);
    let ev = DeviceEvent {
        time: 3,
        event: Event::KeyboardInput { key: KEY_A, pressed: true },
        simulated: false,
    };
    mgr.push_timeline_event(ev);
    assert!(mgr.state.currently_pressed_keys.is_empty());
    let frame = mgr.collect_input_frames(10);
    assert_eq!(frame.timeline.len(), 1);
    assert!(frame.user_keys.is_empty());
}

#[test]
fn gamepad_snapshot_follows_controller_events() {
    let mut pad = GamePad::default();
    pad.apply(PadEvent::ButtonPressed(PadButton::South));
    assert!(pad.buttons.south);
    pad.apply(PadEvent::AxisChanged(PadAxis::RightStickY, -750));
    assert_eq!(pad.right_stick.y, -750);
    pad.apply(PadEvent::ButtonChanged(PadButton::LeftTrigger, 333));
    assert_eq!(pad.triggers.left_trigger, 333);
    pad.apply(PadEvent::ButtonReleased(PadButton::South));
    assert!(!pad.buttons.south);
    // unmapped events change nothing
    let before = pad;
    pad.apply(PadEvent::ButtonPressed(PadButton::Mode));
    assert_eq!(pad, before);
}

#[test]
fn key_view_mirrors_the_aggregate() {
    let mut mgr = setup(InputConfig::new(vec![KEY_REENABLE], KEY_REENABLE), 0);
    mgr.ingest(
        DeviceEvent {
            time: 1,
            event: Event::KeyboardInput { key: KEY_A, pressed: true },
            simulated: false,
        },
        true,
    );
    mgr.ingest(
        DeviceEvent {
            time: 2,
            event: Event::MouseButton { pressed: true, button: 0 },
            simulated: true,
        },
        true,
    );
    let mut view = KeyView::new();
    view.update(&mgr.state);
    assert_eq!(view.user_keys, vec![KEY_A]);
    assert_eq!(view.system_buttons, vec![0]);
    assert!(view.system_keys.is_empty());
    assert!(view.user_buttons.is_empty());
}
