//! The canonical state aggregator.
//!
//! One value of [`InputState`] is the single source of truth for "what is
//! pressed right now", split by provenance: the user space holds state caused
//! by physical devices, the system space holds state caused by this process's
//! own synthetic injection. The aggregator also owns the model-control flag
//! and its user-override policy: any physical press while the model is in
//! control hands control back to the human and lifts every synthetic key, and
//! a press of the designated re-enable key hands control back to the model.
//! Both transitions are edge-triggered.

use vstd::prelude::*;
use crate::geom::{Vec2, MAX_SAMPLES};
use crate::event::Event;

verus! {

broadcast use vstd::seq_lib::lemma_seq_contains_after_push;

/// A key that is currently held, with the time its press was observed
/// (the time is diagnostic only: it feeds hold-duration traces).
#[derive(Clone, Copy, Debug, PartialEq, Eq, Structural)]
pub struct KeyHold {
    pub code: u32,
    pub since: u64,
}

/// An input-injection order for the platform layer: the synthetic half of the
/// engine never touches the OS itself, it only decides what to inject.
#[derive(Clone, Copy, Debug, PartialEq, Eq, Structural)]
pub enum SimCommand {
    KeyPress(u32),
    KeyRelease(u32),
    ButtonPress(u32),
    ButtonRelease(u32),
    MouseDeltaMove(Vec2),
    MouseAbsoluteMove(Vec2),
    MouseScroll(Vec2),
}

/// The codes of a sequence of held keys.
pub open spec fn hold_codes(s: Seq<KeyHold>) -> Seq<u32> {
    s.map_values(|h: KeyHold| h.code)
}

/// The mathematical content of an [`InputState`]: pressed sets, positions,
/// accumulated samples and the model-control flag.
#[verifier::ext_equal]
pub struct AggView {
    pub user_keys: Set<u32>,
    pub system_keys: Set<u32>,
    pub user_buttons: Set<u32>,
    pub system_buttons: Set<u32>,
    pub user_pos: Vec2,
    pub system_pos: Vec2,
    pub user_delta: Seq<Vec2>,
    pub user_scroll: Seq<Vec2>,
    pub system_delta: Seq<Vec2>,
    pub system_scroll: Seq<Vec2>,
    pub flag: Option<bool>,
}

/// Lifting synthetic keys: a key the user is physically holding merely loses
/// its synthetic marking; any other synthetic key keeps its marking until the
/// injected release comes back through the bus, unless `skip_wait` drops it
/// at once.
pub open spec fn lift_view(v: AggView, skip_wait: bool) -> AggView {
    AggView {
        system_keys: if skip_wait {
            Set::empty()
        } else {
            v.system_keys.difference(v.user_keys)
        },
        system_buttons: if skip_wait {
            Set::empty()
        } else {
            v.system_buttons.difference(v.user_buttons)
        },
        ..v
    }
}

/// A physical press while the model is in control: the human takes over.
pub open spec fn stop_transition(v: AggView, e: Event, simulated: bool) -> bool {
    !simulated && v.flag == Some(true) && e.is_press()
}

/// A physical press of the re-enable key while the model is not in control:
/// the human hands control back.
pub open spec fn start_transition(v: AggView, e: Event, simulated: bool, reenable_key: u32) -> bool {
    &&& !simulated
    &&& v.flag == Some(false)
    &&& e matches Event::KeyboardInput { key, pressed: true } && key == reenable_key
}

/// The override policy applied before an event's own effect: flip the flag on
/// an edge and lift synthetic state when the human takes over.
pub open spec fn inference_phase(v: AggView, e: Event, simulated: bool, reenable_key: u32) -> AggView {
    if stop_transition(v, e, simulated) {
        AggView { flag: Some(false), ..lift_view(v, true) }
    } else if start_transition(v, e, simulated, reenable_key) {
        AggView { flag: Some(true), ..v }
    } else {
        v
    }
}

/// The effect of the event itself on the space its `simulated` flag selects.
pub open spec fn apply_phase(v: AggView, e: Event, simulated: bool) -> AggView {
    match e {
        Event::MouseButton { pressed, button } => if pressed {
            if simulated {
                AggView { system_buttons: v.system_buttons.insert(button), ..v }
            } else {
                AggView { user_buttons: v.user_buttons.insert(button), ..v }
            }
        } else {
            if simulated {
                AggView { system_buttons: v.system_buttons.remove(button), ..v }
            } else {
                AggView { user_buttons: v.user_buttons.remove(button), ..v }
            }
        },
        Event::KeyboardInput { key, pressed } => if pressed {
            if simulated {
                AggView { system_keys: v.system_keys.insert(key), ..v }
            } else {
                AggView { user_keys: v.user_keys.insert(key), ..v }
            }
        } else {
            if simulated {
                AggView { system_keys: v.system_keys.remove(key), ..v }
            } else {
                AggView { user_keys: v.user_keys.remove(key), ..v }
            }
        },
        Event::MouseMove(p) => if simulated {
            AggView { system_pos: p, ..v }
        } else {
            AggView { user_pos: p, ..v }
        },
        Event::MouseWheel(d) => if simulated {
            AggView { system_scroll: v.system_scroll.push(d), ..v }
        } else {
            AggView { user_scroll: v.user_scroll.push(d), ..v }
        },
        Event::MouseDelta(d) => if simulated {
            AggView { system_delta: v.system_delta.push(d), ..v }
        } else {
            AggView { user_delta: v.user_delta.push(d), ..v }
        },
        Event::GamePadAction(_) => v,
    }
}

/// One full aggregator step: override policy first, then the event's effect.
pub open spec fn step(v: AggView, e: Event, simulated: bool, reenable_key: u32) -> AggView {
    apply_phase(inference_phase(v, e, simulated, reenable_key), e, simulated)
}

/// What a lift is allowed to order: exactly one release for every synthetic
/// key or button the user is not physically holding, and nothing else.
pub open spec fn lift_commands_ok(cmds: Seq<SimCommand>, v: AggView) -> bool {
    &&& forall|k: u32|
        v.system_keys.contains(k) && !v.user_keys.contains(k) ==> cmds.contains(
            SimCommand::KeyRelease(k),
        )
    &&& forall|b: u32|
        v.system_buttons.contains(b) && !v.user_buttons.contains(b) ==> cmds.contains(
            SimCommand::ButtonRelease(b),
        )
    &&& forall|i: int|
        0 <= i < cmds.len() ==> match #[trigger] cmds[i] {
            SimCommand::KeyRelease(k) => v.system_keys.contains(k) && !v.user_keys.contains(k),
            SimCommand::ButtonRelease(b) => v.system_buttons.contains(b)
                && !v.user_buttons.contains(b),
            _ => false,
        }
}

/// Whether a hold list records `code` as held.
fn hold_contains(v: &Vec<KeyHold>, code: u32) -> (r: bool)
    ensures
        r == hold_codes(v@).contains(code),
{
    let n = v.len();
    for i in 0..n
        invariant
            n == v@.len(),
            forall|j: int| 0 <= j < i ==> v@[j].code != code,
    {
        if v[i].code == code {
            proof {
                assert(hold_codes(v@)[i as int] == code);
            }
            return true;
        }
    }
    proof {
        if hold_codes(v@).contains(code) {
            let j = choose|j: int| 0 <= j < v@.len() && hold_codes(v@)[j] == code;
            assert(v@[j].code == code);
        }
    }
    false
}

/// Record `code` as held since `now` unless it is already held (a repeated
/// press keeps the original press time).
pub(crate) fn hold_insert(v: &mut Vec<KeyHold>, code: u32, now: u64)
    requires
        hold_codes(old(v)@).no_duplicates(),
    ensures
        hold_codes(final(v)@).no_duplicates(),
        hold_codes(final(v)@).to_set() == hold_codes(old(v)@).to_set().insert(code),
        final(v)@.len() <= old(v)@.len() + 1,
{
    let ghost orig = hold_codes(v@);
    if !hold_contains(v, code) {
        v.push(KeyHold { code, since: now });
        proof {
            assert(hold_codes(v@) =~= orig.push(code));
            assert(hold_codes(v@).to_set() =~= orig.to_set().insert(code));
        }
    } else {
        proof {
            assert(hold_codes(v@).to_set() =~= orig.to_set().insert(code));
        }
    }
}

/// Forget that `code` is held; returns the recorded press time if it was
/// (the hold duration trace is derived from it).
fn hold_remove(v: &mut Vec<KeyHold>, code: u32) -> (r: Option<u64>)
    requires
        hold_codes(old(v)@).no_duplicates(),
    ensures
        hold_codes(final(v)@).no_duplicates(),
        hold_codes(final(v)@).to_set() == hold_codes(old(v)@).to_set().remove(code),
        final(v)@.len() <= old(v)@.len(),
        r is Some <==> hold_codes(old(v)@).contains(code),
{
    let ghost orig = v@;
    let n = v.len();
    let mut idx: usize = 0;
    let mut found: bool = false;
    for i in 0..n
        invariant
            n == v@.len(),
            v@ == orig,
            found ==> idx < n && v@[idx as int].code == code,
            !found ==> forall|j: int| 0 <= j < i ==> v@[j].code != code,
    {
        if !found && v[i].code == code {
            idx = i;
            found = true;
        }
    }
    if found {
        let hold = v.remove(idx);
        proof {
            let kc = |h: KeyHold| h.code;
            assert(orig.map_values(kc) =~= hold_codes(orig));
            crate::codeset::lemma_remove_keyed(orig, idx as int, kc);
            let s = orig.remove(idx as int);
            assert(s.map_values(kc) =~= hold_codes(s));
            assert(hold_codes(orig)[idx as int] == code);
            assert(hold_codes(s).to_set() =~= hold_codes(orig).to_set().remove(code));
        }
        Some(hold.since)
    } else {
        proof {
            if hold_codes(orig).contains(code) {
                let j = choose|j: int| 0 <= j < orig.len() && hold_codes(orig)[j] == code;
                assert(orig[j].code == code);
            }
            assert(hold_codes(v@).to_set() =~= hold_codes(orig).to_set().remove(code));
        }
        None
    }
}

/// The canonical aggregate, mutated only by the bus's single consumer.
#[derive(Debug, Clone)]
pub struct InputState {
    pub currently_pressed_keys: Vec<KeyHold>,
    pub currently_pressed_mouse_buttons: Vec<u32>,
    pub current_mouse_position: Vec2,
    pub mouse_delta: Vec<Vec2>,
    pub scroll_delta: Vec<Vec2>,
    pub simulated_key: Vec<u32>,
    pub simulated_mouse_buttons: Vec<u32>,
    pub simulated_mouse_position: Vec2,
    pub simulated_scroll_delta: Vec<Vec2>,
    pub simulated_mouse_delta: Vec<Vec2>,
    pub inference_running: Option<bool>,
}

/// All vectors of a sample list stay in the event coordinate range.
pub open spec fn samples_in_range(s: Seq<Vec2>) -> bool {
    forall|i: int| 0 <= i < s.len() ==> (#[trigger] s[i]).in_coord_range()
}

impl InputState {
    /// The mathematical content of this aggregate.
    pub open spec fn view_of(&self) -> AggView {
        AggView {
            user_keys: hold_codes(self.currently_pressed_keys@).to_set(),
            system_keys: self.simulated_key@.to_set(),
            user_buttons: self.currently_pressed_mouse_buttons@.to_set(),
            system_buttons: self.simulated_mouse_buttons@.to_set(),
            user_pos: self.current_mouse_position,
            system_pos: self.simulated_mouse_position,
            user_delta: self.mouse_delta@,
            user_scroll: self.scroll_delta@,
            system_delta: self.simulated_mouse_delta@,
            system_scroll: self.simulated_scroll_delta@,
            flag: self.inference_running,
        }
    }

    /// Pressed sets are duplicate-free, sample lists bounded and in range,
    /// positions in range.
    pub open spec fn wf(&self) -> bool {
        &&& hold_codes(self.currently_pressed_keys@).no_duplicates()
        &&& self.simulated_key@.no_duplicates()
        &&& self.currently_pressed_mouse_buttons@.no_duplicates()
        &&& self.simulated_mouse_buttons@.no_duplicates()
        &&& self.mouse_delta@.len() <= MAX_SAMPLES
        &&& self.scroll_delta@.len() <= MAX_SAMPLES
        &&& self.simulated_mouse_delta@.len() <= MAX_SAMPLES
        &&& self.simulated_scroll_delta@.len() <= MAX_SAMPLES
        &&& samples_in_range(self.mouse_delta@)
        &&& samples_in_range(self.scroll_delta@)
        &&& samples_in_range(self.simulated_mouse_delta@)
        &&& samples_in_range(self.simulated_scroll_delta@)
        &&& self.current_mouse_position.in_coord_range()
        &&& self.simulated_mouse_position.in_coord_range()
    }

    /// A fresh aggregate: nothing pressed, nothing accumulated, no model
    /// control flag installed.
    pub fn new() -> (r: InputState)
        ensures
            r.wf(),
            r.view_of().user_keys == Set::<u32>::empty(),
            r.view_of().system_keys == Set::<u32>::empty(),
            r.view_of().user_buttons == Set::<u32>::empty(),
            r.view_of().system_buttons == Set::<u32>::empty(),
            r.view_of().user_pos == (Vec2 { x: 0, y: 0 }),
            r.view_of().system_pos == (Vec2 { x: 0, y: 0 }),
            r.view_of().user_delta == Seq::<Vec2>::empty(),
            r.view_of().user_scroll == Seq::<Vec2>::empty(),
            r.view_of().system_delta == Seq::<Vec2>::empty(),
            r.view_of().system_scroll == Seq::<Vec2>::empty(),
            r.view_of().flag is None,
    {
        let r = InputState {
            currently_pressed_keys: Vec::new(),
            currently_pressed_mouse_buttons: Vec::new(),
            current_mouse_position: Vec2::zero(),
            mouse_delta: Vec::new(),
            scroll_delta: Vec::new(),
            simulated_key: Vec::new(),
            simulated_mouse_buttons: Vec::new(),
            simulated_mouse_position: Vec2::zero(),
            simulated_scroll_delta: Vec::new(),
            simulated_mouse_delta: Vec::new(),
            inference_running: None,
        };
        proof {
            assert(hold_codes(r.currently_pressed_keys@) =~= Seq::<u32>::empty());
            assert(r.view_of().user_keys =~= Set::<u32>::empty());
            assert(r.view_of().system_keys =~= Set::<u32>::empty());
            assert(r.view_of().user_buttons =~= Set::<u32>::empty());
            assert(r.view_of().system_buttons =~= Set::<u32>::empty());
        }
        r
    }

    /// Lift every synthetic key and button: a code the user is physically
    /// holding just loses its synthetic marking; for any other code a release
    /// is ordered, and with `skip_wait` the marking is dropped at once
    /// instead of waiting for the injected release to return through the bus.
    pub fn lift_simulated_keys_inner(&mut self, skip_wait: bool) -> (commands: Vec<SimCommand>)
        requires
            old(self).wf(),
        ensures
            final(self).wf(),
            final(self).view_of() == lift_view(old(self).view_of(), skip_wait),
            lift_commands_ok(commands@, old(self).view_of()),
    {
        let ghost v0 = self.view_of();
        let mut commands: Vec<SimCommand> = Vec::new();

        let mut kept_keys: Vec<u32> = Vec::new();
        let nk = self.simulated_key.len();
        let ghost sim0 = self.simulated_key@;
        let mut i: usize = 0;
        while i < nk
            invariant
                nk == self.simulated_key@.len(),
                self.simulated_key@ == sim0,
                sim0.no_duplicates(),
                i <= nk,
                hold_codes(self.currently_pressed_keys@).to_set() == v0.user_keys,
                kept_keys@.no_duplicates(),
                forall|c: u32|
                    kept_keys@.contains(c) <==> (sim0.take(i as int).contains(c)
                        && !v0.user_keys.contains(c) && !skip_wait),
                forall|c: u32|
                    sim0.take(i as int).contains(c) && !v0.user_keys.contains(c)
                        ==> commands@.contains(SimCommand::KeyRelease(c)),
                forall|j: int|
                    0 <= j < commands@.len() ==> match #[trigger] commands@[j] {
                        SimCommand::KeyRelease(k) => sim0.take(i as int).contains(k)
                            && !v0.user_keys.contains(k),
                        _ => false,
                    },
            decreases nk - i,
        {
            let code = self.simulated_key[i];
            proof {
                assert(sim0.take(i as int + 1) =~= sim0.take(i as int).push(code));
            }
            if hold_contains(&self.currently_pressed_keys, code) {
                // the user is physically holding it: just drop the marking
            } else {
                if !skip_wait {
                    proof {
                        if kept_keys@.contains(code) {
                            assert(sim0.take(i as int).contains(code));
                            let j = choose|j: int|
                                0 <= j < i && sim0.take(i as int)[j] == code;
                            assert(sim0[j] == sim0[i as int]);
                        }
                    }
                    kept_keys.push(code);
                }
                commands.push(SimCommand::KeyRelease(code));
            }
            i = i + 1;
        }
        proof {
            assert(sim0.take(nk as int) =~= sim0);
        }
        self.simulated_key = kept_keys;

        let mut kept_buttons: Vec<u32> = Vec::new();
        let nb = self.simulated_mouse_buttons.len();
        let ghost simb0 = self.simulated_mouse_buttons@;
        let ghost cmds_keys = commands@;
        let mut i: usize = 0;
        while i < nb
            invariant
                nb == self.simulated_mouse_buttons@.len(),
                self.simulated_mouse_buttons@ == simb0,
                simb0.no_duplicates(),
                i <= nb,
                self.currently_pressed_mouse_buttons@.to_set() == v0.user_buttons,
                kept_buttons@.no_duplicates(),
                commands@.len() >= cmds_keys.len(),
                commands@.take(cmds_keys.len() as int) == cmds_keys,
                forall|c: u32|
                    kept_buttons@.contains(c) <==> (simb0.take(i as int).contains(c)
                        && !v0.user_buttons.contains(c) && !skip_wait),
                forall|c: u32|
                    simb0.take(i as int).contains(c) && !v0.user_buttons.contains(c)
                        ==> commands@.contains(SimCommand::ButtonRelease(c)),
                forall|j: int|
                    cmds_keys.len() <= j < commands@.len() ==> match #[trigger] commands@[j] {
                        SimCommand::ButtonRelease(b) => simb0.take(i as int).contains(b)
                            && !v0.user_buttons.contains(b),
                        _ => false,
                    },
            decreases nb - i,
        {
            let button = self.simulated_mouse_buttons[i];
            proof {
                assert(simb0.take(i as int + 1) =~= simb0.take(i as int).push(button));
            }
            if crate::codeset::contains_code(&self.currently_pressed_mouse_buttons, button) {
                // the user is physically holding it: just drop the marking
            } else {
                if !skip_wait {
                    proof {
                        if kept_buttons@.contains(button) {
                            assert(simb0.take(i as int).contains(button));
                            let j = choose|j: int|
                                0 <= j < i && simb0.take(i as int)[j] == button;
                            assert(simb0[j] == simb0[i as int]);
                        }
                    }
                    kept_buttons.push(button);
                }
                commands.push(SimCommand::ButtonRelease(button));
                proof {
                    assert(commands@.take(cmds_keys.len() as int) =~= cmds_keys);
                }
            }
            i = i + 1;
        }
        proof {
            assert(simb0.take(nb as int) =~= simb0);
        }
        self.simulated_mouse_buttons = kept_buttons;

        proof {
            assert(self.view_of().system_keys =~= lift_view(v0, skip_wait).system_keys);
            assert(self.view_of().system_buttons =~= lift_view(v0, skip_wait).system_buttons);
            assert(self.view_of() =~= lift_view(v0, skip_wait));
            assert forall|j: int| 0 <= j < commands@.len() implies match #[trigger] commands@[j] {
                SimCommand::KeyRelease(k) => v0.system_keys.contains(k)
                    && !v0.user_keys.contains(k),
                SimCommand::ButtonRelease(b) => v0.system_buttons.contains(b)
                    && !v0.user_buttons.contains(b),
                _ => false,
            } by {
                if j < cmds_keys.len() {
                    assert(commands@[j] == commands@.take(cmds_keys.len() as int)[j]);
                }
            }
        }
        commands
    }

    /// The user-override policy, examined for every non-simulated press:
    /// flip the model-control flag on an edge, lifting synthetic state when
    /// the human takes over. Returns the release orders of the lift.
    fn handle_inference_stop(&mut self, event: &Event, simulated: bool, reenable_key: u32) -> (commands: Vec<SimCommand>)
        requires
            old(self).wf(),
        ensures
            final(self).wf(),
            final(self).view_of() == inference_phase(
                old(self).view_of(),
                *event,
                simulated,
                reenable_key,
            ),
            if stop_transition(old(self).view_of(), *event, simulated) {
                lift_commands_ok(commands@, old(self).view_of())
            } else {
                commands@ == Seq::<SimCommand>::empty()
            },
    {
        if simulated {
            proof {
                assert(self.view_of() =~= inference_phase(
                    old(self).view_of(),
                    *event,
                    simulated,
                    reenable_key,
                ));
            }
            return Vec::new();
        }
        let flag = match self.inference_running {
            Some(b) => b,
            None => {
                proof {
                    assert(self.view_of() =~= inference_phase(
                        old(self).view_of(),
                        *event,
                        simulated,
                        reenable_key,
                    ));
                }
                return Vec::new();
            },
        };
        let pressed = match event {
            Event::KeyboardInput { pressed: true, .. } => true,
            Event::MouseButton { pressed: true, .. } => true,
            _ => false,
        };
        if pressed && flag {
            // the human takes over: flip the flag once and lift everything
            self.inference_running = Some(false);
            let commands = self.lift_simulated_keys_inner(true);
            proof {
                assert(self.view_of() =~= inference_phase(
                    old(self).view_of(),
                    *event,
                    simulated,
                    reenable_key,
                ));
            }
            commands
        } else {
            let reenable = match event {
                Event::KeyboardInput { pressed: true, key } => *key == reenable_key,
                _ => false,
            };
            if pressed && !flag && reenable {
                // the designated key hands control back to the model
                self.inference_running = Some(true);
            }
            proof {
                assert(self.view_of() =~= inference_phase(
                    old(self).view_of(),
                    *event,
                    simulated,
                    reenable_key,
                ));
            }
            Vec::new()
        }
    }

    /// Apply one bus event to the aggregate: the override policy first, then
    /// the event's own effect on the space its provenance selects. Returns
    /// the release orders of any lift the policy performed.
    pub fn handle_event(&mut self, event: Event, simulated: bool, now: u64, reenable_key: u32) -> (commands: Vec<SimCommand>)
        requires
            old(self).wf(),
            event.coords_in_range(),
            old(self).mouse_delta@.len() < MAX_SAMPLES,
            old(self).scroll_delta@.len() < MAX_SAMPLES,
            old(self).simulated_mouse_delta@.len() < MAX_SAMPLES,
            old(self).simulated_scroll_delta@.len() < MAX_SAMPLES,
        ensures
            final(self).wf(),
            final(self).view_of() == step(old(self).view_of(), event, simulated, reenable_key),
            if stop_transition(old(self).view_of(), event, simulated) {
                lift_commands_ok(commands@, old(self).view_of())
            } else {
                commands@ == Seq::<SimCommand>::empty()
            },
    {
        let commands = self.handle_inference_stop(&event, simulated, reenable_key);
        let ghost mid = self.view_of();
        match event {
            Event::MouseButton { pressed, button } => {
                if pressed {
                    if simulated {
                        crate::codeset::insert_code(&mut self.simulated_mouse_buttons, button);
                    } else {
                        crate::codeset::insert_code(
                            &mut self.currently_pressed_mouse_buttons,
                            button,
                        );
                    }
                } else if simulated {
                    crate::codeset::remove_code(&mut self.simulated_mouse_buttons, button);
                } else {
                    crate::codeset::remove_code(&mut self.currently_pressed_mouse_buttons, button);
                }
            },
            Event::KeyboardInput { pressed, key } => {
                if pressed {
                    if simulated {
                        crate::codeset::insert_code(&mut self.simulated_key, key);
                    } else {
                        hold_insert(&mut self.currently_pressed_keys, key, now);
                    }
                } else if simulated {
                    crate::codeset::remove_code(&mut self.simulated_key, key);
                } else {
                    // the press time would feed a hold-duration trace
                    let _since = hold_remove(&mut self.currently_pressed_keys, key);
                }
            },
            Event::MouseMove(position) => {
                if simulated {
                    self.simulated_mouse_position = position;
                } else {
                    self.current_mouse_position = position;
                }
            },
            Event::MouseWheel(delta) => {
                if simulated {
                    self.simulated_scroll_delta.push(delta);
                } else {
                    self.scroll_delta.push(delta);
                }
            },
            Event::MouseDelta(delta) => {
                if simulated {
                    self.simulated_mouse_delta.push(delta);
                } else {
                    self.mouse_delta.push(delta);
                }
            },
            Event::GamePadAction(_) => {},
        }
        proof {
            assert(self.view_of() =~= apply_phase(mid, event, simulated));
        }
        commands
    }

    /// Install or withdraw the shared model-control flag.
    pub fn set_inference_running(&mut self, inference_running: Option<bool>)
        requires
            old(self).wf(),
        ensures
            final(self).wf(),
            final(self).view_of() == (AggView {
                flag: inference_running,
                ..old(self).view_of()
            }),
    {
        self.inference_running = inference_running;
        proof {
            assert(self.view_of() =~= (AggView {
                flag: inference_running,
                ..old(self).view_of()
            }));
        }
    }

    /// Clear all per-session accumulation and every pressed set; called at
    /// the start of every new recording and never mid-recording. The user
    /// mouse position and the model-control flag carry over.
    pub fn reset(&mut self)
        requires
            old(self).wf(),
        ensures
            final(self).wf(),
            final(self).view_of() == (AggView {
                user_keys: Set::<u32>::empty(),
                system_keys: Set::<u32>::empty(),
                user_buttons: Set::<u32>::empty(),
                system_buttons: Set::<u32>::empty(),
                system_pos: Vec2 { x: 0, y: 0 },
                user_delta: Seq::<Vec2>::empty(),
                user_scroll: Seq::<Vec2>::empty(),
                system_delta: Seq::<Vec2>::empty(),
                system_scroll: Seq::<Vec2>::empty(),
                ..old(self).view_of()
            }),
    {
        self.mouse_delta.clear();
        self.scroll_delta.clear();
        self.simulated_scroll_delta.clear();
        self.simulated_mouse_delta.clear();
        self.simulated_key.clear();
        self.simulated_mouse_buttons.clear();
        self.simulated_mouse_position = Vec2::zero();
        self.currently_pressed_keys.clear();
        self.currently_pressed_mouse_buttons.clear();
        proof {
            assert(hold_codes(self.currently_pressed_keys@) =~= Seq::<u32>::empty());
            assert(self.view_of() =~= (AggView {
                user_keys: Set::<u32>::empty(),
                system_keys: Set::<u32>::empty(),
                user_buttons: Set::<u32>::empty(),
                system_buttons: Set::<u32>::empty(),
                system_pos: Vec2 { x: 0, y: 0 },
                user_delta: Seq::<Vec2>::empty(),
                user_scroll: Seq::<Vec2>::empty(),
                system_delta: Seq::<Vec2>::empty(),
                system_scroll: Seq::<Vec2>::empty(),
                ..old(self).view_of()
            }));
        }
    }
}

} // verus!
