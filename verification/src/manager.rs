//! The input service: bus consumption, snapshotting, session lifecycle.
//!
//! One [`InputManager`] bundles the canonical aggregate, the session
//! timeline, the listener registry and the session configuration. The
//! platform layer owns the actual queue and threads; it hands every queued
//! event, in submission order, to [`InputManager::ingest`], which is the
//! single consumer the ordering guarantees speak of: the timeline and the
//! listeners see every event the aggregator saw, in the same order.

use vstd::prelude::*;
use crate::codeset::{code_set, copy_codes, filter_codes};
use crate::config::InputConfig;
use crate::event::DeviceEvent;
use crate::frame::{GamePad, InputFrame, InputFrameMouse};
use crate::geom::{sum_samples, sum_vec, Vec2, MAX_SAMPLES};
use crate::registry::ListenerRegistry;
use crate::state::{
    hold_codes, lift_commands_ok, lift_view, step, stop_transition, AggView, InputState,
    KeyHold, SimCommand,
};
use crate::timeline::Timeline;

verus! {

broadcast use vstd::seq_lib::lemma_seq_contains_after_push;

/// How the shared flag reads at sample time: in control only when installed
/// and set.
pub open spec fn flag_reads_running(flag: Option<bool>) -> bool {
    flag == Some(true)
}

/// The event actually processed: without inference support every event is
/// treated as physical, collapsing the system space into the user space.
pub open spec fn bus_event(event: DeviceEvent, inference_supported: bool) -> DeviceEvent {
    if inference_supported {
        event
    } else {
        DeviceEvent { simulated: false, ..event }
    }
}

/// The capture engine's service object. Construct exactly one per process,
/// at startup, and drive it from a single consumer thread.
#[derive(Debug)]
pub struct InputManager {
    pub state: InputState,
    pub timeline: Timeline,
    pub listeners: ListenerRegistry,
    pub config: InputConfig,
    pub game_pad: Option<GamePad>,
}

/// Build the input service. This is the once-per-process setup of the
/// capture core; the platform layer starts its hook threads around it.
pub fn setup(config: InputConfig, now: u64) -> (r: InputManager)
    ensures
        r.wf(),
        r.config == config,
        r.state.view_of().flag is None,
        r.state.view_of().user_keys == Set::<u32>::empty(),
        r.state.view_of().system_keys == Set::<u32>::empty(),
        r.state.view_of().user_buttons == Set::<u32>::empty(),
        r.state.view_of().system_buttons == Set::<u32>::empty(),
        r.state.view_of().user_pos == (Vec2 { x: 0, y: 0 }),
        r.state.view_of().system_pos == (Vec2 { x: 0, y: 0 }),
        r.state.view_of().user_delta == Seq::<Vec2>::empty(),
        r.state.view_of().user_scroll == Seq::<Vec2>::empty(),
        r.state.view_of().system_delta == Seq::<Vec2>::empty(),
        r.state.view_of().system_scroll == Seq::<Vec2>::empty(),
        r.can_ingest(),
        r.timeline.start == now,
        r.timeline.events@ == Seq::<DeviceEvent>::empty(),
        r.timeline.full_events@ == Seq::<DeviceEvent>::empty(),
        r.game_pad is None,
{
    InputManager {
        state: InputState::new(),
        timeline: Timeline::new(now),
        listeners: ListenerRegistry::new(),
        config,
        game_pad: None,
    }
}

impl InputManager {
    pub open spec fn wf(&self) -> bool {
        &&& self.state.wf()
        &&& self.timeline.wf()
        &&& self.listeners.wf()
    }

    /// Room for one more event in every per-frame accumulator.
    pub open spec fn can_ingest(&self) -> bool {
        &&& self.timeline.events@.len() < MAX_SAMPLES
        &&& self.state.mouse_delta@.len() < MAX_SAMPLES
        &&& self.state.scroll_delta@.len() < MAX_SAMPLES
        &&& self.state.simulated_mouse_delta@.len() < MAX_SAMPLES
        &&& self.state.simulated_scroll_delta@.len() < MAX_SAMPLES
    }

    /// Consume one bus event: append it to the timeline, then apply it to
    /// the aggregate. Without inference support the `simulated` flag is
    /// forced off first. The caller fans the same event out to every
    /// registered listener. Returns the release orders of any lift the
    /// override policy performed.
    pub fn ingest(&mut self, event: DeviceEvent, inference_supported: bool) -> (commands: Vec<
        SimCommand,
    >)
        requires
            old(self).wf(),
            old(self).can_ingest(),
            event.wf(),
        ensures
            final(self).wf(),
            final(self).timeline.events@ == old(self).timeline.events@.push(
                bus_event(event, inference_supported),
            ),
            final(self).timeline.full_events@ == old(self).timeline.full_events@.push(
                bus_event(event, inference_supported),
            ),
            final(self).timeline.start == old(self).timeline.start,
            final(self).state.view_of() == step(
                old(self).state.view_of(),
                bus_event(event, inference_supported).event,
                bus_event(event, inference_supported).simulated,
                old(self).config.reenable_key,
            ),
            final(self).config == old(self).config,
            final(self).listeners == old(self).listeners,
            final(self).game_pad == old(self).game_pad,
            if stop_transition(
                old(self).state.view_of(),
                bus_event(event, inference_supported).event,
                bus_event(event, inference_supported).simulated,
            ) {
                lift_commands_ok(commands@, old(self).state.view_of())
            } else {
                commands@ == Seq::<SimCommand>::empty()
            },
    {
        let ev = if inference_supported {
            event
        } else {
            DeviceEvent { simulated: false, ..event }
        };
        self.timeline.push_event(ev);
        self.state.handle_event(ev.event, ev.simulated, ev.time, self.config.reenable_key)
    }

    /// Append one event to the session timeline without applying it to the
    /// aggregate (trace-only producers use this).
    pub fn push_timeline_event(&mut self, event: DeviceEvent)
        requires
            old(self).wf(),
            old(self).timeline.events@.len() < MAX_SAMPLES,
            event.wf(),
        ensures
            final(self).wf(),
            final(self).timeline.events@ == old(self).timeline.events@.push(event),
            final(self).timeline.full_events@ == old(self).timeline.full_events@.push(event),
            final(self).timeline.start == old(self).timeline.start,
            final(self).state == old(self).state,
            final(self).config == old(self).config,
            final(self).listeners == old(self).listeners,
    {
        self.timeline.push_event(event);
    }

    /// Start a fresh recording: clear the aggregate's per-session state and
    /// restart the timeline at `now`, which is returned as the session start.
    pub fn reset_recording(&mut self, now: u64) -> (r: u64)
        requires
            old(self).wf(),
        ensures
            final(self).wf(),
            r == now,
            final(self).timeline.start == now,
            final(self).timeline.events@ == Seq::<DeviceEvent>::empty(),
            final(self).timeline.full_events@ == Seq::<DeviceEvent>::empty(),
            final(self).state.view_of() == (AggView {
                user_keys: Set::<u32>::empty(),
                system_keys: Set::<u32>::empty(),
                user_buttons: Set::<u32>::empty(),
                system_buttons: Set::<u32>::empty(),
                system_pos: Vec2 { x: 0, y: 0 },
                user_delta: Seq::<Vec2>::empty(),
                user_scroll: Seq::<Vec2>::empty(),
                system_delta: Seq::<Vec2>::empty(),
                system_scroll: Seq::<Vec2>::empty(),
                ..old(self).state.view_of()
            }),
            final(self).config == old(self).config,
            final(self).listeners == old(self).listeners,
    {
        self.state.reset();
        self.timeline.start_timeline(now)
    }

    /// Seed the user pressed-key set from an external poll of the actual key
    /// state. Events from before the recording started are never delivered,
    /// so keys already held when it began must be seeded here for their
    /// release events to balance.
    pub fn seed_pressed_keys(&mut self, down: &Vec<u32>, now: u64)
        requires
            old(self).wf(),
        ensures
            final(self).wf(),
            final(self).state.view_of() == (AggView {
                user_keys: code_set(down@),
                ..old(self).state.view_of()
            }),
            final(self).timeline == old(self).timeline,
            final(self).config == old(self).config,
            final(self).listeners == old(self).listeners,
            final(self).game_pad == old(self).game_pad,
    {
        let mut seeded: Vec<KeyHold> = Vec::new();
        let n = down.len();
        let mut i: usize = 0;
        while i < n
            invariant
                n == down@.len(),
                i <= n,
                hold_codes(seeded@).no_duplicates(),
                hold_codes(seeded@).to_set() == code_set(down@.take(i as int)),
            decreases n - i,
        {
            proof {
                assert(down@.take(i as int + 1) =~= down@.take(i as int).push(down@[i as int]));
                assert(code_set(down@.take(i as int + 1)) =~= code_set(
                    down@.take(i as int),
                ).insert(down@[i as int]));
            }
            crate::state::hold_insert(&mut seeded, down[i], now);
            i = i + 1;
        }
        proof {
            assert(down@.take(n as int) =~= down@);
        }
        self.state.currently_pressed_keys = seeded;
        proof {
            assert(self.state.view_of() =~= (AggView {
                user_keys: code_set(down@),
                ..old(self).state.view_of()
            }));
        }
    }

    /// Lift all synthetic keys, only dropping markings for those the user is
    /// physically holding; the rest keep their marking until the returned
    /// release orders have made it back through the bus.
    pub fn lift_simulated_keys(&mut self) -> (commands: Vec<SimCommand>)
        requires
            old(self).wf(),
        ensures
            final(self).wf(),
            final(self).state.view_of() == lift_view(old(self).state.view_of(), false),
            lift_commands_ok(commands@, old(self).state.view_of()),
            final(self).timeline == old(self).timeline,
            final(self).config == old(self).config,
            final(self).listeners == old(self).listeners,
    {
        self.state.lift_simulated_keys_inner(false)
    }

    /// Install or withdraw the shared model-control flag.
    pub fn set_inference_running(&mut self, inference_running: Option<bool>)
        requires
            old(self).wf(),
        ensures
            final(self).wf(),
            final(self).state.view_of() == (AggView {
                flag: inference_running,
                ..old(self).state.view_of()
            }),
            final(self).timeline == old(self).timeline,
            final(self).config == old(self).config,
            final(self).listeners == old(self).listeners,
            final(self).game_pad == old(self).game_pad,
    {
        self.state.set_inference_running(inference_running);
    }

    /// Record the latest gamepad snapshot (or its loss).
    pub fn set_game_pad(&mut self, game_pad: Option<GamePad>)
        requires
            old(self).wf(),
        ensures
            final(self).wf(),
            final(self).game_pad == game_pad,
            final(self).state == old(self).state,
            final(self).timeline == old(self).timeline,
            final(self).config == old(self).config,
            final(self).listeners == old(self).listeners,
    {
        self.game_pad = game_pad;
    }

    /// Register a listener handle.
    pub fn listen(&mut self) -> (id: u64)
        requires
            old(self).wf(),
            old(self).listeners.next_id < u64::MAX,
        ensures
            final(self).wf(),
            id == old(self).listeners.next_id,
            !old(self).listeners.ids@.contains(id),
            final(self).listeners.ids@ == old(self).listeners.ids@.push(id),
            final(self).state == old(self).state,
            final(self).timeline == old(self).timeline,
            final(self).config == old(self).config,
    {
        self.listeners.listen()
    }

    /// Remove a listener handle; unknown handles are ignored.
    pub fn remove_listener(&mut self, id: u64)
        requires
            old(self).wf(),
        ensures
            final(self).wf(),
            forall|x: u64|
                final(self).listeners.ids@.contains(x) <==> (old(self).listeners.ids@.contains(x)
                    && x != id),
            final(self).listeners.next_id == old(self).listeners.next_id,
            final(self).state == old(self).state,
            final(self).timeline == old(self).timeline,
            final(self).config == old(self).config,
    {
        self.listeners.remove_listener(id)
    }

    /// Sample one frame: read the model-control flag, drain the per-frame
    /// timeline, take and clear the accumulated delta and scroll buffers of
    /// both spaces, read the pressed sets (hotkeys excluded from the key
    /// sets) and both cursor positions, and bundle everything with the
    /// latest gamepad snapshot. Only the delta and scroll buffers are
    /// cleared; positions, pressed sets and the flag carry over.
    pub fn collect_input_frames(&mut self, now: u64) -> (frame: InputFrame)
        requires
            old(self).wf(),
        ensures
            final(self).wf(),
            frame.wf(),
            frame.time == now,
            code_set(frame.user_keys@) == old(self).state.view_of().user_keys.difference(
                old(self).config.hot_set(),
            ),
            code_set(frame.system_keys@) == old(self).state.view_of().system_keys.difference(
                old(self).config.hot_set(),
            ),
            frame.inference_running == flag_reads_running(old(self).state.view_of().flag),
            frame.user_mouse.delta == sum_vec(old(self).state.view_of().user_delta),
            frame.user_mouse.scroll == sum_vec(old(self).state.view_of().user_scroll),
            frame.user_mouse.mouse_pos == old(self).state.view_of().user_pos,
            code_set(frame.user_mouse.buttons@) == old(self).state.view_of().user_buttons,
            frame.system_mouse.delta == sum_vec(old(self).state.view_of().system_delta),
            frame.system_mouse.scroll == sum_vec(old(self).state.view_of().system_scroll),
            frame.system_mouse.mouse_pos == old(self).state.view_of().system_pos,
            code_set(frame.system_mouse.buttons@) == old(self).state.view_of().system_buttons,
            frame.game_pad == old(self).game_pad,
            frame.timeline@ == old(self).timeline.events@,
            final(self).state.view_of() == (AggView {
                user_delta: Seq::<Vec2>::empty(),
                user_scroll: Seq::<Vec2>::empty(),
                system_delta: Seq::<Vec2>::empty(),
                system_scroll: Seq::<Vec2>::empty(),
                ..old(self).state.view_of()
            }),
            final(self).timeline.events@ == Seq::<DeviceEvent>::empty(),
            final(self).timeline.full_events@ == old(self).timeline.full_events@,
            final(self).timeline.start == old(self).timeline.start,
            final(self).config == old(self).config,
            final(self).listeners == old(self).listeners,
            final(self).game_pad == old(self).game_pad,
    {
        let inference_running = match self.state.inference_running {
            Some(b) => b,
            None => false,
        };
        let timeline = self.timeline.drain_frame_events();

        let delta = sum_samples(&self.state.mouse_delta);
        let scroll = sum_samples(&self.state.scroll_delta);
        let system_delta = sum_samples(&self.state.simulated_mouse_delta);
        let system_scroll = sum_samples(&self.state.simulated_scroll_delta);
        self.state.mouse_delta.clear();
        self.state.scroll_delta.clear();
        self.state.simulated_mouse_delta.clear();
        self.state.simulated_scroll_delta.clear();

        let system_mouse_pos = self.state.simulated_mouse_position;

        let buttons = copy_codes(&self.state.currently_pressed_mouse_buttons);
        let simulated_buttons = copy_codes(&self.state.simulated_mouse_buttons);
        let mouse_pos = self.state.current_mouse_position;

        let mut user_key_codes: Vec<u32> = Vec::new();
        let nk = self.state.currently_pressed_keys.len();
        let mut i: usize = 0;
        while i < nk
            invariant
                nk == self.state.currently_pressed_keys@.len(),
                i <= nk,
                user_key_codes@ == hold_codes(self.state.currently_pressed_keys@).take(i as int),
            decreases nk - i,
        {
            user_key_codes.push(self.state.currently_pressed_keys[i].code);
            proof {
                assert(user_key_codes@ =~= hold_codes(self.state.currently_pressed_keys@).take(
                    i as int + 1,
                ));
            }
            i = i + 1;
        }
        proof {
            assert(hold_codes(self.state.currently_pressed_keys@).take(nk as int) =~= hold_codes(
                self.state.currently_pressed_keys@,
            ));
        }

        let user_keys = filter_codes(&user_key_codes, &self.config.hot_keys);
        let system_keys = filter_codes(&self.state.simulated_key, &self.config.hot_keys);

        let frame = InputFrame {
            time: now,
            user_mouse: InputFrameMouse { delta, mouse_pos, buttons, scroll },
            system_mouse: InputFrameMouse {
                delta: system_delta,
                mouse_pos: system_mouse_pos,
                buttons: simulated_buttons,
                scroll: system_scroll,
            },
            user_keys,
            system_keys,
            inference_running,
            game_pad: self.game_pad,
            timeline,
        };
        proof {
            assert(code_set(frame.user_keys@) =~= old(self).state.view_of().user_keys.difference(
                old(self).config.hot_set(),
            ));
            assert(code_set(frame.system_keys@)
                =~= old(self).state.view_of().system_keys.difference(old(self).config.hot_set()));
            assert(self.state.view_of() =~= (AggView {
                user_delta: Seq::<Vec2>::empty(),
                user_scroll: Seq::<Vec2>::empty(),
                system_delta: Seq::<Vec2>::empty(),
                system_scroll: Seq::<Vec2>::empty(),
                ..old(self).state.view_of()
            }));
        }
        frame
    }
}

} // verus!
