//! End-to-end behaviour of the aggregator, the bus consumer and the
//! snapshot builder.

use recap::config::InputConfig;
use recap::event::{DeviceEvent, Event};
use recap::geom::Vec2;
use recap::manager::{setup, InputManager};
use recap::state::SimCommand;

const KEY_W: u32 = 17;
const KEY_A: u32 = 30;
const KEY_SPACE: u32 = 57;
const KEY_REENABLE: u32 = 26;

fn mk_manager() -> InputManager {
    setup(InputConfig::new(vec![KEY_REENABLE], KEY_REENABLE), 0)
}

fn key_event(time: u64, key: u32, pressed: bool, simulated: bool) -> DeviceEvent {
    DeviceEvent { time, event: Event::KeyboardInput { key, pressed }, simulated }
}

#[test]
fn released_key_absent_but_timeline_holds_both_events() {
    let mut mgr = mk_manager();
    mgr.reset_recording(0);
    mgr.ingest(key_event(10, KEY_W, true, false), true);
    mgr.ingest(key_event(50, KEY_W, false, false), true);
    let frame = mgr.collect_input_frames(60);
    assert!(frame.user_keys.is_empty());
    assert_eq!(frame.timeline.len(), 2);
    assert_eq!(frame.timeline[0].time, 10);
    assert!(matches!(
        frame.timeline[0].event,
        Event::KeyboardInput { key: KEY_W, pressed: true }
    ));
    assert_eq!(frame.timeline[1].time, 50);
    assert!(matches!(
        frame.timeline[1].event,
        Event::KeyboardInput { key: KEY_W, pressed: false }
    ));
    assert!(!frame.timeline[0].simulated);
}

#[test]
fn held_key_shows_until_released() {
    let mut mgr = mk_manager();
    mgr.reset_recording(0);
    mgr.ingest(key_event(5, KEY_A, true, false), true);
    let frame = mgr.collect_input_frames(10);
    assert_eq!(frame.user_keys, vec![KEY_A]);
    mgr.ingest(key_event(20, KEY_A, false, false), true);
    let frame = mgr.collect_input_frames(30);
    assert!(frame.user_keys.is_empty());
}

#[test]
fn model_keys_live_in_system_space_and_lift_on_user_press() {
    let mut mgr = mk_manager();
    mgr.reset_recording(0);
    mgr.set_inference_running(Some(true));
    // the remote model presses SPACE: a synthetic event
    let cmds = mgr.ingest(key_event(10, KEY_SPACE, true, true), true);
    assert!(cmds.is_empty());
    assert_eq!(mgr.state.simulated_key, vec![KEY_SPACE]);
    assert!(mgr.state.currently_pressed_keys.is_empty());
    // a physical press of any key hands control back and lifts SPACE
    let cmds = mgr.ingest(key_event(20, KEY_W, true, false), true);
    assert_eq!(mgr.state.inference_running, Some(false));
    assert!(mgr.state.simulated_key.is_empty());
    assert_eq!(cmds, vec![SimCommand::KeyRelease(KEY_SPACE)]);
    let frame = mgr.collect_input_frames(30);
    assert_eq!(frame.user_keys, vec![KEY_W]);
    assert!(frame.system_keys.is_empty());
    assert!(!(frame.user_keys.len() > 0 && frame.system_keys.len() > 0) || false);
}

#[test]
fn repeated_presses_toggle_control_only_once() {
    let mut mgr = mk_manager();
    mgr.reset_recording(0);
    mgr.set_inference_running(Some(true));
    mgr.ingest(key_event(10, KEY_W, true, false), true);
    assert_eq!(mgr.state.inference_running, Some(false));
    // auto-repeat: more presses of the same key without a release
    mgr.ingest(key_event(20, KEY_W, true, false), true);
    mgr.ingest(key_event(30, KEY_W, true, false), true);
    assert_eq!(mgr.state.inference_running, Some(false));
}

#[test]
fn reenable_key_hands_control_back_to_model() {
    let mut mgr = mk_manager();
    mgr.reset_recording(0);
    mgr.set_inference_running(Some(true));
    mgr.ingest(key_event(10, KEY_W, true, false), true);
    assert_eq!(mgr.state.inference_running, Some(false));
    mgr.ingest(key_event(20, KEY_REENABLE, true, false), true);
    assert_eq!(mgr.state.inference_running, Some(true));
}

#[test]
fn hotkeys_never_reach_the_recorded_sets() {
    let mut mgr = mk_manager();
    mgr.reset_recording(0);
    mgr.ingest(key_event(10, KEY_REENABLE, true, false), true);
    mgr.ingest(key_event(12, KEY_A, true, false), true);
    let frame = mgr.collect_input_frames(20);
    assert_eq!(frame.user_keys, vec![KEY_A]);
}

#[test]
fn without_inference_support_everything_is_user_space() {
    let mut mgr = mk_manager();
    mgr.reset_recording(0);
    // the synthetic flag is forced off when the build has no inference
    mgr.ingest(key_event(10, KEY_SPACE, true, true), false);
    assert_eq!(mgr.state.currently_pressed_keys.len(), 1);
    assert!(mgr.state.simulated_key.is_empty());
    let frame = mgr.collect_input_frames(20);
    assert!(!frame.timeline[0].simulated);
}

#[test]
fn deltas_and_scrolls_accumulate_and_drain_per_frame() {
    let mut mgr = mk_manager();
    mgr.reset_recording(0);
    mgr.ingest(
        DeviceEvent { time: 1, event: Event::MouseDelta(Vec2 { x: 3, y: -2 }), simulated: false },
        true,
    );
    mgr.ingest(
        DeviceEvent { time: 2, event: Event::MouseDelta(Vec2 { x: 4, y: 9 }), simulated: false },
        true,
    );
    mgr.ingest(
        DeviceEvent { time: 3, event: Event::MouseWheel(Vec2 { x: 0, y: 1 }), simulated: false },
        true,
    );
    mgr.ingest(
        DeviceEvent { time: 4, event: Event::MouseMove(Vec2 { x: 100, y: 200 }), simulated: false },
        true,
    );
    let frame = mgr.collect_input_frames(10);
    assert_eq!(frame.user_mouse.delta, Vec2 { x: 7, y: 7 });
    assert_eq!(frame.user_mouse.scroll, Vec2 { x: 0, y: 1 });
    assert_eq!(frame.user_mouse.mouse_pos, Vec2 { x: 100, y: 200 });
    // drained: the next frame starts from zero, but the position persists
    let frame = mgr.collect_input_frames(20);
    assert_eq!(frame.user_mouse.delta, Vec2 { x: 0, y: 0 });
    assert_eq!(frame.user_mouse.mouse_pos, Vec2 { x: 100, y: 200 });
}

#[test]
fn sampling_reads_positions_without_clearing_them() {
    let mut mgr = mk_manager();
    mgr.reset_recording(0);
    mgr.ingest(
        DeviceEvent { time: 1, event: Event::MouseMove(Vec2 { x: 11, y: 12 }), simulated: true },
        true,
    );
    let frame = mgr.collect_input_frames(10);
    assert_eq!(frame.system_mouse.mouse_pos, Vec2 { x: 11, y: 12 });
    // positions are only read at sample time: the next frame reports the
    // same cursor positions even though nothing moved
    let frame = mgr.collect_input_frames(20);
    assert_eq!(frame.system_mouse.mouse_pos, Vec2 { x: 11, y: 12 });
}

#[test]
fn seeded_keys_balance_future_releases() {
    let mut mgr = mk_manager();
    mgr.reset_recording(0);
    // keys already held when the recording began
    mgr.seed_pressed_keys(&vec![KEY_W, KEY_A], 0);
    let frame = mgr.collect_input_frames(5);
    let mut keys = frame.user_keys.clone();
    keys.sort();
    let mut expected = vec![KEY_W, KEY_A];
    expected.sort();
    assert_eq!(keys, expected);
    mgr.ingest(key_event(10, KEY_W, false, false), true);
    let frame = mgr.collect_input_frames(20);
    assert_eq!(frame.user_keys, vec![KEY_A]);
}

#[test]
fn lift_keeps_user_held_keys_without_injecting_releases() {
    let mut mgr = mk_manager();
    mgr.reset_recording(0);
    // the user physically holds W; the model also holds W and SPACE
    mgr.ingest(key_event(1, KEY_W, true, false), true);
    mgr.ingest(key_event(2, KEY_W, true, true), true);
    mgr.ingest(key_event(3, KEY_SPACE, true, true), true);
    let cmds = mgr.lift_simulated_keys();
    // W only loses its marking; SPACE keeps it until its release returns
    assert_eq!(cmds, vec![SimCommand::KeyRelease(KEY_SPACE)]);
    assert_eq!(mgr.state.simulated_key, vec![KEY_SPACE]);
}

#[test]
fn reset_clears_session_state_but_keeps_mouse_position() {
    let mut mgr = mk_manager();
    mgr.ingest(
        DeviceEvent { time: 1, event: Event::MouseMove(Vec2 { x: 7, y: 8 }), simulated: false },
        true,
    );
    mgr.ingest(key_event(2, KEY_A, true, false), true);
    mgr.reset_recording(100);
    assert!(mgr.state.currently_pressed_keys.is_empty());
    assert_eq!(mgr.state.current_mouse_position, Vec2 { x: 7, y: 8 });
    assert_eq!(mgr.timeline.start, 100);
    assert!(mgr.timeline.events.is_empty());
    assert!(mgr.timeline.full_events.is_empty());
}

#[test]
fn timeline_frame_drain_keeps_session_history() {
    let mut mgr = mk_manager();
    mgr.reset_recording(0);
    mgr.ingest(key_event(1, KEY_A, true, false), true);
    mgr.collect_input_frames(5);
    mgr.ingest(key_event(6, KEY_A, false, false), true);
    mgr.collect_input_frames(10);
    let full = mgr.timeline.drain_full_events();
    assert_eq!(full.len(), 2);
    assert_eq!(full[0].time, 1);
    assert_eq!(full[1].time, 6);
}

#[test]
fn listener_handles_are_fresh_and_removable() {
    let mut mgr = mk_manager();
    let a = mgr.listen();
    let b = mgr.listen();
    assert_ne!(a, b);
    mgr.remove_listener(a);
    assert!(!mgr.listeners.ids.contains(&a));
    assert!(mgr.listeners.ids.contains(&b));
    // removing an unknown handle is a no-op
    mgr.remove_listener(a);
    assert!(mgr.listeners.ids.contains(&b));
}
