//! Session-level laws of the capture engine.
//!
//! These theorems relate whole event sequences to the aggregator's state
//! and to the consistency checker's replay: pressed sets are decided by the
//! last matching event, the checker's replay reconstructs the recorded
//! sets, a physical press while the model is in control empties the
//! synthetic space, and the control hand-over is edge-triggered.

use vstd::prelude::*;
use crate::checker::{buttons_at, keys_at, replay_buttons, replay_keys, seed_buttons, seed_keys};
use crate::codeset::code_set;
use crate::event::{DeviceEvent, Event};
use crate::frame::InputFrame;
use crate::state::{step, stop_transition, AggView};

verus! {

/// The aggregator's state after consuming a whole event sequence in order.
pub open spec fn run_events(v: AggView, evs: Seq<DeviceEvent>, reenable_key: u32) -> AggView
    decreases evs.len(),
{
    if evs.len() == 0 {
        v
    } else {
        step(
            run_events(v, evs.drop_last(), reenable_key),
            evs.last().event,
            evs.last().simulated,
            reenable_key,
        )
    }
}

/// The `pressed` flag of the last keyboard event for key `k` of the given
/// provenance, if any.
pub open spec fn last_key_state(evs: Seq<DeviceEvent>, k: u32, simulated: bool) -> Option<bool>
    decreases evs.len(),
{
    if evs.len() == 0 {
        None
    } else {
        match evs.last().event {
            Event::KeyboardInput { key, pressed } => if key == k && evs.last().simulated
                == simulated {
                Some(pressed)
            } else {
                last_key_state(evs.drop_last(), k, simulated)
            },
            _ => last_key_state(evs.drop_last(), k, simulated),
        }
    }
}

/// The `pressed` flag of the last mouse-button event for button `b` of the
/// given provenance, if any.
pub open spec fn last_button_state(evs: Seq<DeviceEvent>, b: u32, simulated: bool) -> Option<bool>
    decreases evs.len(),
{
    if evs.len() == 0 {
        None
    } else {
        match evs.last().event {
            Event::MouseButton { button, pressed } => if button == b && evs.last().simulated
                == simulated {
                Some(pressed)
            } else {
                last_button_state(evs.drop_last(), b, simulated)
            },
            _ => last_button_state(evs.drop_last(), b, simulated),
        }
    }
}

/// Membership in the checker's replayed key set is decided by the last
/// matching event: hotkeys are never touched, any other key follows the
/// last keyboard event of the right provenance, and an untouched key keeps
/// its seeded state. In particular a key whose last event is a release is
/// never in the set.
pub proof fn lemma_replay_keys_membership(
    s: Set<u32>,
    evs: Seq<DeviceEvent>,
    simulated: bool,
    hot: Set<u32>,
    k: u32,
)
    ensures
        replay_keys(s, evs, simulated, hot).contains(k) == if hot.contains(k) {
            s.contains(k)
        } else {
            match last_key_state(evs, k, simulated) {
                Some(p) => p,
                None => s.contains(k),
            }
        },
    decreases evs.len(),
{
    if evs.len() > 0 {
        lemma_replay_keys_membership(s, evs.drop_last(), simulated, hot, k);
    }
}

/// Membership in the checker's replayed button set is decided by the last
/// matching event.
pub proof fn lemma_replay_buttons_membership(
    s: Set<u32>,
    evs: Seq<DeviceEvent>,
    simulated: bool,
    b: u32,
)
    ensures
        replay_buttons(s, evs, simulated).contains(b) == match last_button_state(
            evs,
            b,
            simulated,
        ) {
            Some(p) => p,
            None => s.contains(b),
        },
    decreases evs.len(),
{
    if evs.len() > 0 {
        lemma_replay_buttons_membership(s, evs.drop_last(), simulated, b);
    }
}

/// Law: the user pressed-key set never holds a key with an outstanding,
/// unmatched release. Membership after any event sequence is decided by the
/// last physical keyboard event for that key, whatever the model-control
/// policy did meanwhile; a key whose last physical event is a release is
/// out.
pub proof fn lemma_user_keys_last_event(
    v: AggView,
    evs: Seq<DeviceEvent>,
    reenable_key: u32,
    k: u32,
)
    ensures
        run_events(v, evs, reenable_key).user_keys.contains(k) == match last_key_state(
            evs,
            k,
            false,
        ) {
            Some(p) => p,
            None => v.user_keys.contains(k),
        },
    decreases evs.len(),
{
    if evs.len() > 0 {
        lemma_user_keys_last_event(v, evs.drop_last(), reenable_key, k);
    }
}

/// Law: the user pressed-button set never holds a button with an
/// outstanding, unmatched release.
pub proof fn lemma_user_buttons_last_event(
    v: AggView,
    evs: Seq<DeviceEvent>,
    reenable_key: u32,
    b: u32,
)
    ensures
        run_events(v, evs, reenable_key).user_buttons.contains(b) == match last_button_state(
            evs,
            b,
            false,
        ) {
            Some(p) => p,
            None => v.user_buttons.contains(b),
        },
    decreases evs.len(),
{
    if evs.len() > 0 {
        lemma_user_buttons_last_event(v, evs.drop_last(), reenable_key, b);
    }
}

/// With no model-control flag installed the override policy never fires, so
/// the flag stays uninstalled.
pub proof fn lemma_run_keeps_flag_none(v: AggView, evs: Seq<DeviceEvent>, reenable_key: u32)
    requires
        v.flag is None,
    ensures
        run_events(v, evs, reenable_key).flag is None,
    decreases evs.len(),
{
    if evs.len() > 0 {
        lemma_run_keeps_flag_none(v, evs.drop_last(), reenable_key);
    }
}

/// Law: while no model-control flag is installed, the system pressed-key
/// set too is decided by the last synthetic keyboard event: no lift can
/// empty it behind the timeline's back.
pub proof fn lemma_system_keys_last_event(
    v: AggView,
    evs: Seq<DeviceEvent>,
    reenable_key: u32,
    k: u32,
)
    requires
        v.flag is None,
    ensures
        run_events(v, evs, reenable_key).system_keys.contains(k) == match last_key_state(
            evs,
            k,
            true,
        ) {
            Some(p) => p,
            None => v.system_keys.contains(k),
        },
    decreases evs.len(),
{
    if evs.len() > 0 {
        lemma_run_keeps_flag_none(v, evs.drop_last(), reenable_key);
        lemma_system_keys_last_event(v, evs.drop_last(), reenable_key, k);
    }
}

/// Law: while no model-control flag is installed, the system pressed-button
/// set is decided by the last synthetic button event.
pub proof fn lemma_system_buttons_last_event(
    v: AggView,
    evs: Seq<DeviceEvent>,
    reenable_key: u32,
    b: u32,
)
    requires
        v.flag is None,
    ensures
        run_events(v, evs, reenable_key).system_buttons.contains(b) == match last_button_state(
            evs,
            b,
            true,
        ) {
            Some(p) => p,
            None => v.system_buttons.contains(b),
        },
    decreases evs.len(),
{
    if evs.len() > 0 {
        lemma_run_keeps_flag_none(v, evs.drop_last(), reenable_key);
        lemma_system_buttons_last_event(v, evs.drop_last(), reenable_key, b);
    }
}

/// Law: even under model control — where a human override may lift
/// synthetic keys without a bus event — the system pressed-key set never
/// holds a key with an outstanding, unmatched release: a lift only ever
/// removes keys.
pub proof fn lemma_system_keys_no_unmatched_release(
    v: AggView,
    evs: Seq<DeviceEvent>,
    reenable_key: u32,
    k: u32,
)
    requires
        last_key_state(evs, k, true) == Some(false) || (last_key_state(evs, k, true) is None
            && !v.system_keys.contains(k)),
    ensures
        !run_events(v, evs, reenable_key).system_keys.contains(k),
    decreases evs.len(),
{
    if evs.len() > 0 {
        match evs.last().event {
            Event::KeyboardInput { key, pressed } => {
                if !(key == k && evs.last().simulated) {
                    lemma_system_keys_no_unmatched_release(v, evs.drop_last(), reenable_key, k);
                }
            },
            _ => {
                lemma_system_keys_no_unmatched_release(v, evs.drop_last(), reenable_key, k);
            },
        }
    }
}

/// Law: the system pressed-button set never holds a button with an
/// outstanding, unmatched release, under any model-control policy.
pub proof fn lemma_system_buttons_no_unmatched_release(
    v: AggView,
    evs: Seq<DeviceEvent>,
    reenable_key: u32,
    b: u32,
)
    requires
        last_button_state(evs, b, true) == Some(false) || (last_button_state(evs, b, true) is None
            && !v.system_buttons.contains(b)),
    ensures
        !run_events(v, evs, reenable_key).system_buttons.contains(b),
    decreases evs.len(),
{
    if evs.len() > 0 {
        match evs.last().event {
            Event::MouseButton { button, pressed } => {
                if !(button == b && evs.last().simulated) {
                    lemma_system_buttons_no_unmatched_release(v, evs.drop_last(), reenable_key, b);
                }
            },
            _ => {
                lemma_system_buttons_no_unmatched_release(v, evs.drop_last(), reenable_key, b);
            },
        }
    }
}

/// The aggregator's state after the events of frames `0..=i`.
pub open spec fn session_view(
    v0: AggView,
    frames: Seq<InputFrame>,
    reenable_key: u32,
    i: int,
) -> AggView
    decreases i + 1,
{
    if i < 0 {
        v0
    } else {
        run_events(session_view(v0, frames, reenable_key, i - 1), frames[i].timeline@, reenable_key)
    }
}

/// The frames were produced by this engine from initial state `v0`: each
/// frame's recorded pressed sets are the aggregator's state right after that
/// frame's own events, with hotkeys excluded from the key sets — which is
/// exactly what the bus consumer and the snapshot builder guarantee.
pub open spec fn frames_record_session(
    v0: AggView,
    frames: Seq<InputFrame>,
    hot: Set<u32>,
    reenable_key: u32,
) -> bool {
    forall|i: int|
        0 <= i < frames.len() ==> {
            let vi = session_view(v0, frames, reenable_key, i);
            &&& code_set((#[trigger] frames[i]).user_keys@) == vi.user_keys.difference(hot)
            &&& code_set(frames[i].system_keys@) == vi.system_keys.difference(hot)
            &&& code_set(frames[i].user_mouse.buttons@) == vi.user_buttons
            &&& code_set(frames[i].system_mouse.buttons@) == vi.system_buttons
        }
}

/// The flag stays uninstalled across whole frames.
proof fn lemma_session_keeps_flag_none(
    v0: AggView,
    frames: Seq<InputFrame>,
    reenable_key: u32,
    i: int,
)
    requires
        v0.flag is None,
    ensures
        session_view(v0, frames, reenable_key, i).flag is None,
    decreases i + 1,
{
    if i >= 0 {
        lemma_session_keeps_flag_none(v0, frames, reenable_key, i - 1);
        lemma_run_keeps_flag_none(
            session_view(v0, frames, reenable_key, i - 1),
            frames[i].timeline@,
            reenable_key,
        );
    }
}

/// Law: replaying the full timeline from the session start reconstructs,
/// frame by frame, pressed-key and pressed-button sets identical to those
/// recorded in each frame — for any session during which no model-control
/// flag was installed. (Under model control a human override lifts
/// synthetic keys without bus events, which is exactly what the checker's
/// suppression window exists for.)
pub proof fn lemma_replay_reconstructs_frames(
    v0: AggView,
    frames: Seq<InputFrame>,
    hot: Set<u32>,
    reenable_key: u32,
    i: int,
)
    requires
        frames_record_session(v0, frames, hot, reenable_key),
        v0.flag is None,
        0 <= i < frames.len(),
    ensures
        keys_at(frames, hot, true, i) == code_set(frames[i].user_keys@),
        keys_at(frames, hot, false, i) == code_set(frames[i].system_keys@),
        buttons_at(frames, true, i) == code_set(frames[i].user_mouse.buttons@),
        buttons_at(frames, false, i) == code_set(frames[i].system_mouse.buttons@),
    decreases i,
{
    let vi = session_view(v0, frames, reenable_key, i);
    let vprev = session_view(v0, frames, reenable_key, i - 1);
    let batch = frames[i].timeline@;
    lemma_session_keeps_flag_none(v0, frames, reenable_key, i - 1);
    if i == 0 {
        // the replay is seeded from frame 0's own recorded sets
        assert forall|k: u32|
            keys_at(frames, hot, true, 0).contains(k) == code_set(frames[0].user_keys@).contains(
                k,
            ) by {
            lemma_replay_keys_membership(seed_keys(frames, true), batch, false, hot, k);
            lemma_user_keys_last_event(vprev, batch, reenable_key, k);
        }
        assert(keys_at(frames, hot, true, 0) =~= code_set(frames[0].user_keys@));
        assert forall|k: u32|
            keys_at(frames, hot, false, 0).contains(k) == code_set(
                frames[0].system_keys@,
            ).contains(k) by {
            lemma_replay_keys_membership(seed_keys(frames, false), batch, true, hot, k);
            lemma_system_keys_last_event(vprev, batch, reenable_key, k);
        }
        assert(keys_at(frames, hot, false, 0) =~= code_set(frames[0].system_keys@));
        assert forall|b: u32|
            buttons_at(frames, true, 0).contains(b) == code_set(
                frames[0].user_mouse.buttons@,
            ).contains(b) by {
            lemma_replay_buttons_membership(seed_buttons(frames, true), batch, false, b);
            lemma_user_buttons_last_event(vprev, batch, reenable_key, b);
        }
        assert(buttons_at(frames, true, 0) =~= code_set(frames[0].user_mouse.buttons@));
        assert forall|b: u32|
            buttons_at(frames, false, 0).contains(b) == code_set(
                frames[0].system_mouse.buttons@,
            ).contains(b) by {
            lemma_replay_buttons_membership(seed_buttons(frames, false), batch, true, b);
            lemma_system_buttons_last_event(vprev, batch, reenable_key, b);
        }
        assert(buttons_at(frames, false, 0) =~= code_set(frames[0].system_mouse.buttons@));
    } else {
        lemma_replay_reconstructs_frames(v0, frames, hot, reenable_key, i - 1);
        assert forall|k: u32|
            keys_at(frames, hot, true, i).contains(k) == code_set(frames[i].user_keys@).contains(
                k,
            ) by {
            lemma_replay_keys_membership(keys_at(frames, hot, true, i - 1), batch, false, hot, k);
            lemma_user_keys_last_event(vprev, batch, reenable_key, k);
        }
        assert(keys_at(frames, hot, true, i) =~= code_set(frames[i].user_keys@));
        assert forall|k: u32|
            keys_at(frames, hot, false, i).contains(k) == code_set(
                frames[i].system_keys@,
            ).contains(k) by {
            lemma_replay_keys_membership(keys_at(frames, hot, false, i - 1), batch, true, hot, k);
            lemma_system_keys_last_event(vprev, batch, reenable_key, k);
        }
        assert(keys_at(frames, hot, false, i) =~= code_set(frames[i].system_keys@));
        assert forall|b: u32|
            buttons_at(frames, true, i).contains(b) == code_set(
                frames[i].user_mouse.buttons@,
            ).contains(b) by {
            lemma_replay_buttons_membership(buttons_at(frames, true, i - 1), batch, false, b);
            lemma_user_buttons_last_event(vprev, batch, reenable_key, b);
        }
        assert(buttons_at(frames, true, i) =~= code_set(frames[i].user_mouse.buttons@));
        assert forall|b: u32|
            buttons_at(frames, false, i).contains(b) == code_set(
                frames[i].system_mouse.buttons@,
            ).contains(b) by {
            lemma_replay_buttons_membership(buttons_at(frames, false, i - 1), batch, true, b);
            lemma_system_buttons_last_event(vprev, batch, reenable_key, b);
        }
        assert(buttons_at(frames, false, i) =~= code_set(frames[i].system_mouse.buttons@));
    }
}

/// Law: a physical press while the model is in control empties the whole
/// synthetic space in the same step — the designated mechanism by which a
/// human regains control — and withdraws control from the model.
pub proof fn lemma_user_press_lifts_system(v: AggView, e: Event, reenable_key: u32)
    requires
        stop_transition(v, e, false),
    ensures
        step(v, e, false, reenable_key).system_keys == Set::<u32>::empty(),
        step(v, e, false, reenable_key).system_buttons == Set::<u32>::empty(),
        step(v, e, false, reenable_key).flag == Some(false),
{
    assert(step(v, e, false, reenable_key).system_keys =~= Set::<u32>::empty());
    assert(step(v, e, false, reenable_key).system_buttons =~= Set::<u32>::empty());
}

/// Law: the control hand-over is edge-triggered. Any run of repeated
/// presses of one key (other than the designated re-enable key) delivered
/// while the model is in control flips the flag exactly once: after the
/// first press it reads `false` and every further press leaves it there.
pub proof fn lemma_toggle_edge_triggered(
    v: AggView,
    evs: Seq<DeviceEvent>,
    x: u32,
    reenable_key: u32,
)
    requires
        v.flag == Some(true),
        x != reenable_key,
        evs.len() >= 1,
        forall|j: int|
            0 <= j < evs.len() ==> !(#[trigger] evs[j]).simulated && evs[j].event == (
            Event::KeyboardInput { key: x, pressed: true }),
    ensures
        run_events(v, evs, reenable_key).flag == Some(false),
    decreases evs.len(),
{
    if evs.len() == 1 {
        assert(run_events(v, evs.drop_last(), reenable_key) == v);
    } else {
        lemma_toggle_edge_triggered(v, evs.drop_last(), x, reenable_key);
    }
}

} // verus!
