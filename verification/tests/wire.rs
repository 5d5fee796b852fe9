//! Framing, latency accounting, model actions and the resize stage.

use recap::event::{BUTTON_LEFT, BUTTON_RIGHT};
use recap::resize::{build_inference_frame, resize_image_core, SizeMismatch};
use recap::state::SimCommand;
use recap::geom::Vec2;
use recap::wire::{
    encode_with_length, parse_length, process_action, process_keys, process_mouse, ActionMsg,
    LatencyMap, MouseActionMsg, MouseChange,
};

#[test]
fn length_prefix_is_little_endian() {
    let payload: Vec<u8> = vec![7; 0x01_02_03];
    let framed = encode_with_length(&payload);
    assert_eq!(framed.len(), payload.len() + 4);
    assert_eq!(&framed[0..4], &[0x03, 0x02, 0x01, 0x00]);
    assert_eq!(&framed[4..], &payload[..]);
    let len = parse_length(&vec![framed[0], framed[1], framed[2], framed[3]]);
    assert_eq!(len as usize, payload.len());
}

#[test]
fn parse_length_exact_value() {
    assert_eq!(parse_length(&vec![0x78, 0x56, 0x34, 0x12]), 0x12345678);
    assert_eq!(parse_length(&vec![5, 0, 0, 0]), 5);
}

#[test]
fn latency_map_matches_actions_to_sends() {
    let mut map = LatencyMap::new();
    map.record_send(1, 100);
    map.record_send(2, 150);
    assert_eq!(map.take_latency(1, 130), Some(30));
    // an id is measured once: the stamp is gone
    assert_eq!(map.take_latency(1, 200), None);
    // re-sending an id overwrites the stamp
    map.record_send(2, 180);
    assert_eq!(map.take_latency(2, 200), Some(20));
    // an answer no send was stamped for
    assert_eq!(map.take_latency(9, 300), None);
}

#[test]
fn key_want_diff_presses_new_and_releases_gone() {
    let mut prev: Vec<u32> = vec![10, 11];
    let cmds = process_keys(&vec![11, 12], &mut prev);
    assert_eq!(cmds, vec![SimCommand::KeyPress(12), SimCommand::KeyRelease(10)]);
    assert_eq!(prev, vec![11, 12]);
}

#[test]
fn mouse_action_orders_buttons_motion_and_scroll() {
    let mut prev: Vec<u32> = vec![BUTTON_LEFT];
    let action = MouseActionMsg {
        buttons_down: vec![BUTTON_RIGHT],
        change: Some(MouseChange::DeltaPx(Vec2 { x: 4, y: -1 })),
        scroll: Some(Vec2 { x: 0, y: 3 }),
    };
    let cmds = process_mouse(&action, &mut prev);
    assert_eq!(
        cmds,
        vec![
            SimCommand::ButtonPress(BUTTON_RIGHT),
            SimCommand::ButtonRelease(BUTTON_LEFT),
            SimCommand::MouseDeltaMove(Vec2 { x: 4, y: -1 }),
            SimCommand::MouseScroll(Vec2 { x: 0, y: 3 }),
        ]
    );
    assert_eq!(prev, vec![BUTTON_RIGHT]);
}

#[test]
fn zero_scroll_orders_nothing() {
    let mut prev: Vec<u32> = vec![];
    let action = MouseActionMsg {
        buttons_down: vec![],
        change: None,
        scroll: Some(Vec2 { x: 0, y: 0 }),
    };
    let cmds = process_mouse(&action, &mut prev);
    assert!(cmds.is_empty());
}

#[test]
fn disabled_model_clears_wants_and_injects_nothing() {
    let mut keys: Vec<u32> = vec![5, 6];
    let mut buttons: Vec<u32> = vec![0];
    let action = ActionMsg { id: 3, keys: vec![7], mouse: None };
    let cmds = process_action(&action, false, &mut keys, &mut buttons);
    assert!(cmds.is_empty());
    assert!(keys.is_empty());
    assert!(buttons.is_empty());
}

#[test]
fn enabled_model_want_is_applied_and_remembered() {
    let mut keys: Vec<u32> = vec![];
    let mut buttons: Vec<u32> = vec![];
    let action = ActionMsg {
        id: 4,
        keys: vec![57],
        mouse: Some(MouseActionMsg { buttons_down: vec![], change: None, scroll: None }),
    };
    let cmds = process_action(&action, true, &mut keys, &mut buttons);
    assert_eq!(cmds, vec![SimCommand::KeyPress(57)]);
    assert_eq!(keys, vec![57]);
}

#[test]
fn resize_scales_to_the_model_input_size() {
    // a 2x2 RGB image shrunk to 1x1: the pixel buffer really changes shape
    let data: Vec<u8> = vec![
        255, 0, 0, 0, 255, 0, //
        0, 0, 255, 255, 255, 255,
    ];
    let out = resize_image_core(&data, 2, 2, 1, 1).unwrap();
    assert_eq!(out.len(), 3);
    let frame = build_inference_frame(&data, 2, 2, 1, 1, 42).unwrap();
    assert_eq!(frame.id, 42);
    assert_eq!(frame.width, 1);
    assert_eq!(frame.height, 1);
    assert_eq!(frame.data.len(), 3);
}

#[test]
fn mis_sized_pixel_buffer_is_rejected() {
    let data: Vec<u8> = vec![0; 11];
    assert_eq!(
        resize_image_core(&data, 2, 2, 1, 1),
        Err(SizeMismatch { expected: 12, got: 11 })
    );
}
