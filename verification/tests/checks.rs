//! The post-capture consistency checker.

use recap::checker::{on_finish_check, Finding};
use recap::config::InputConfig;
use recap::event::{DeviceEvent, Event};
use recap::frame::{InputFrame, InputFrameMouse};
use recap::geom::Vec2;
use recap::manager::setup;

const KEY_A: u32 = 30;
const KEY_B: u32 = 48;
const KEY_REENABLE: u32 = 26;

fn empty_mouse() -> InputFrameMouse {
    InputFrameMouse {
        delta: Vec2 { x: 0, y: 0 },
        mouse_pos: Vec2 { x: 0, y: 0 },
        buttons: vec![],
        scroll: Vec2 { x: 0, y: 0 },
    }
}

fn empty_frame(time: u64) -> InputFrame {
    InputFrame {
        time,
        user_keys: vec![],
        system_keys: vec![],
        inference_running: false,
        user_mouse: empty_mouse(),
        system_mouse: empty_mouse(),
        game_pad: None,
        timeline: vec![],
    }
}

fn cfg() -> InputConfig {
    InputConfig::new(vec![KEY_REENABLE], KEY_REENABLE)
}

fn has(findings: &[Finding], f: Finding) -> bool {
    findings.iter().any(|x| *x == f)
}

#[test]
fn frame_count_mismatch_reported_but_duration_accepted() {
    // 118 decoded frames, 120 encoder callbacks, 120 snapshots, 20 fps over
    // 6 seconds: a count mismatch, but no time-based mismatch.
    let frames: Vec<InputFrame> = (0..120u64).map(|i| empty_frame(i * 50_000_000)).collect();
    let report = on_finish_check(&frames, 120, 118, 20_000, 20, 6_000, 0, &cfg(), 5);
    assert!(has(&report.findings, Finding::FrameCountMismatch { expected: 120, actual: 118 }));
    assert!(has(
        &report.findings,
        Finding::AnnotationCountMismatch { expected: 118, actual: 120 }
    ));
    assert!(!report
        .findings
        .iter()
        .any(|f| matches!(f, Finding::TimeFrameCountMismatch { .. })));
    assert!(!report.findings.iter().any(|f| matches!(f, Finding::FpsMismatch { .. })));
}

#[test]
fn clean_session_yields_no_findings() {
    let frames = vec![empty_frame(50_000_000), empty_frame(100_000_000)];
    let report = on_finish_check(&frames, 2, 2, 20_000, 20, 100, 0, &cfg(), 5);
    assert!(report.findings.is_empty());
    assert!(report.warnings.is_empty());
}

#[test]
fn duration_mismatch_beyond_two_percent_reported() {
    // 110 decoded frames against 6 seconds at 20 fps: the prediction is 120
    // frames, the two-percent band is 118 to 122, so 110 is reported
    let frames: Vec<InputFrame> = (0..110u64).map(|i| empty_frame(i * 50_000_000)).collect();
    let report = on_finish_check(&frames, 110, 110, 20_000, 20, 6_000, 0, &cfg(), 5);
    assert!(has(
        &report.findings,
        Finding::TimeFrameCountMismatch { expected: 120, actual: 110 }
    ));
    // 118 sits exactly on the band's edge and passes
    let frames: Vec<InputFrame> = (0..118u64).map(|i| empty_frame(i * 50_000_000)).collect();
    let report = on_finish_check(&frames, 118, 118, 20_000, 20, 6_000, 0, &cfg(), 5);
    assert!(!report
        .findings
        .iter()
        .any(|f| matches!(f, Finding::TimeFrameCountMismatch { .. })));
}

#[test]
fn fps_boundaries_are_one_frame_wide() {
    let frames = vec![empty_frame(50)];
    // exactly one frame per second off: still accepted
    let report = on_finish_check(&frames, 1, 1, 19_000, 20, 50, 0, &cfg(), 5);
    assert!(!report.findings.iter().any(|f| matches!(f, Finding::FpsMismatch { .. })));
    // just beyond: reported
    let report = on_finish_check(&frames, 1, 1, 18_999, 20, 50, 0, &cfg(), 5);
    assert!(has(&report.findings, Finding::FpsMismatch { measured_milli: 18_999 }));
    let report = on_finish_check(&frames, 1, 1, 21_001, 20, 50, 0, &cfg(), 5);
    assert!(has(&report.findings, Finding::FpsMismatch { measured_milli: 21_001 }));
}

#[test]
fn overlap_and_mode_exclusivity_reported_per_frame() {
    let mut overlap = empty_frame(10);
    overlap.user_keys = vec![KEY_A];
    overlap.system_keys = vec![KEY_B];
    // inference off with system keys: also an exclusivity finding
    let report = on_finish_check(&vec![overlap], 1, 1, 20_000, 20, 50, 0, &cfg(), 5);
    assert!(has(&report.findings, Finding::Overlap { frame: 0 }));
    assert!(has(&report.findings, Finding::SystemKeysOutsideInference { frame: 0 }));

    let mut during = empty_frame(10);
    during.user_keys = vec![KEY_A];
    during.inference_running = true;
    // the replay seeds from the first frame, so only the mode check fires
    let report = on_finish_check(&vec![during], 1, 1, 20_000, 20, 50, 0, &cfg(), 5);
    assert!(has(&report.findings, Finding::UserKeysDuringInference { frame: 0 }));
    assert!(!has(&report.findings, Finding::Overlap { frame: 0 }));
}

#[test]
fn replay_flags_a_recorded_set_the_events_contradict() {
    let press = DeviceEvent {
        time: 5,
        event: Event::KeyboardInput { key: KEY_A, pressed: true },
        simulated: false,
    };
    let release = DeviceEvent {
        time: 15,
        event: Event::KeyboardInput { key: KEY_A, pressed: false },
        simulated: false,
    };
    let mut first = empty_frame(10);
    first.user_keys = vec![KEY_A];
    first.timeline = vec![press];
    let mut second = empty_frame(20);
    second.timeline = vec![release];
    // consistent: press recorded, release clears it
    let report =
        on_finish_check(&vec![first.clone(), second.clone()], 2, 2, 20_000, 20, 100, 0, &cfg(), 5);
    assert!(!report.findings.iter().any(|f| matches!(f, Finding::UserKeysMismatch { .. })));
    // inconsistent: the second frame still claims the key is held
    let mut bad_second = second.clone();
    bad_second.user_keys = vec![KEY_A];
    let report = on_finish_check(&vec![first, bad_second], 2, 2, 20_000, 20, 100, 0, &cfg(), 5);
    assert!(has(&report.findings, Finding::UserKeysMismatch { frame: 1 }));
}

#[test]
fn system_mismatch_suppressed_after_control_transition() {
    let stale_release = DeviceEvent {
        time: 25,
        event: Event::KeyboardInput { key: KEY_B, pressed: true },
        simulated: true,
    };
    let mut first = empty_frame(10);
    first.inference_running = true;
    let mut second = empty_frame(20);
    second.inference_running = false;
    second.timeline = vec![stale_release];
    // the stale synthetic press contradicts the empty recorded system set,
    // but the flag flipped one frame ago, so the report is suppressed
    let report =
        on_finish_check(&vec![first.clone(), second.clone()], 2, 2, 20_000, 20, 100, 0, &cfg(), 5);
    assert!(!report.findings.iter().any(|f| matches!(f, Finding::SystemKeysMismatch { .. })));
    // with a zero-length window the same session is reported
    let report = on_finish_check(&vec![first, second], 2, 2, 20_000, 20, 100, 0, &cfg(), 0);
    assert!(has(&report.findings, Finding::SystemKeysMismatch { frame: 1 }));
}

#[test]
fn replay_flags_contradicted_button_sets() {
    let press = DeviceEvent {
        time: 5,
        event: Event::MouseButton { pressed: true, button: 0 },
        simulated: false,
    };
    let mut frame = empty_frame(10);
    frame.timeline = vec![press];
    // the events show the left button held, the frame claims nothing held
    let report = on_finish_check(&vec![frame.clone()], 1, 1, 20_000, 20, 50, 0, &cfg(), 5);
    assert!(has(&report.findings, Finding::UserButtonsMismatch { frame: 0 }));
    frame.user_mouse.buttons = vec![0];
    let report = on_finish_check(&vec![frame.clone()], 1, 1, 20_000, 20, 50, 0, &cfg(), 5);
    assert!(!report.findings.iter().any(|f| matches!(f, Finding::UserButtonsMismatch { .. })));
    // the same for a synthetic button, outside any suppression window
    frame.timeline.push(DeviceEvent {
        time: 6,
        event: Event::MouseButton { pressed: true, button: 1 },
        simulated: true,
    });
    let report = on_finish_check(&vec![frame], 1, 1, 20_000, 20, 50, 0, &cfg(), 5);
    assert!(has(&report.findings, Finding::SystemButtonsMismatch { frame: 0 }));
}

#[test]
fn delta_scroll_and_position_cross_checked() {
    let mut frame = empty_frame(10);
    frame.timeline = vec![
        DeviceEvent { time: 1, event: Event::MouseDelta(Vec2 { x: 3, y: 4 }), simulated: false },
        DeviceEvent { time: 2, event: Event::MouseWheel(Vec2 { x: 0, y: 2 }), simulated: false },
        DeviceEvent { time: 3, event: Event::MouseMove(Vec2 { x: 9, y: 9 }), simulated: false },
    ];
    frame.user_mouse.delta = Vec2 { x: 3, y: 4 };
    frame.user_mouse.scroll = Vec2 { x: 0, y: 2 };
    frame.user_mouse.mouse_pos = Vec2 { x: 9, y: 9 };
    let report = on_finish_check(&vec![frame.clone()], 1, 1, 20_000, 20, 50, 0, &cfg(), 5);
    assert!(report.findings.is_empty());

    let mut bad = frame.clone();
    bad.user_mouse.delta = Vec2 { x: 1, y: 1 };
    let report = on_finish_check(&vec![bad], 1, 1, 20_000, 20, 50, 0, &cfg(), 5);
    assert!(has(&report.findings, Finding::MouseDeltaMismatch { frame: 0 }));

    let mut bad = frame.clone();
    bad.user_mouse.scroll = Vec2 { x: 5, y: 0 };
    let report = on_finish_check(&vec![bad], 1, 1, 20_000, 20, 50, 0, &cfg(), 5);
    assert!(has(&report.findings, Finding::MouseScrollMismatch { frame: 0 }));

    let mut bad = frame.clone();
    bad.user_mouse.mouse_pos = Vec2 { x: 1, y: 1 };
    let report = on_finish_check(&vec![bad], 1, 1, 20_000, 20, 50, 0, &cfg(), 5);
    assert!(has(&report.findings, Finding::MousePositionMismatch { frame: 0 }));
}

#[test]
fn position_carries_forward_across_frames() {
    let mut first = empty_frame(10);
    first.timeline = vec![DeviceEvent {
        time: 1,
        event: Event::MouseMove(Vec2 { x: 5, y: 6 }),
        simulated: false,
    }];
    first.user_mouse.mouse_pos = Vec2 { x: 5, y: 6 };
    // the second frame has no move event; its recorded position must still
    // match the carried-forward one
    let mut second = empty_frame(20);
    second.user_mouse.mouse_pos = Vec2 { x: 0, y: 0 };
    let report =
        on_finish_check(&vec![first, second], 2, 2, 20_000, 20, 100, 0, &cfg(), 5);
    assert!(has(&report.findings, Finding::MousePositionMismatch { frame: 1 }));
}

#[test]
fn out_of_window_events_warn_but_do_not_err() {
    let mut frame = empty_frame(10);
    frame.timeline = vec![DeviceEvent {
        time: 99,
        event: Event::MouseDelta(Vec2 { x: 0, y: 0 }),
        simulated: false,
    }];
    let report = on_finish_check(&vec![frame], 1, 1, 20_000, 20, 50, 0, &cfg(), 5);
    assert_eq!(report.warnings.len(), 1);
    assert_eq!(report.warnings[0].frame, 0);
    assert_eq!(report.warnings[0].count, 1);
    assert!(report.findings.is_empty());
}

#[test]
fn engine_session_passes_replay_checks() {
    // run a small session through the real engine, then hand its frames to
    // the checker: the replay must agree with what was recorded
    let mut mgr = setup(cfg(), 0);
    let start = mgr.reset_recording(0);
    mgr.ingest(
        DeviceEvent {
            time: 5_000_000,
            event: Event::KeyboardInput { key: KEY_A, pressed: true },
            simulated: false,
        },
        true,
    );
    let f1 = mgr.collect_input_frames(50_000_000);
    mgr.ingest(
        DeviceEvent {
            time: 60_000_000,
            event: Event::KeyboardInput { key: KEY_A, pressed: false },
            simulated: false,
        },
        true,
    );
    let f2 = mgr.collect_input_frames(100_000_000);
    assert_eq!(f1.user_keys, vec![KEY_A]);
    assert!(f2.user_keys.is_empty());
    let report =
        on_finish_check(&vec![f1, f2], 2, 2, 20_000, 20, 100, start, &cfg(), 5);
    assert!(report.findings.is_empty());
}
