//! The inference round-trip: wire framing, latency accounting, and the
//! application of remote-model actions.
//!
//! Frames travel to the remote model as length-prefixed binary messages: a
//! 4-byte little-endian unsigned length followed by the payload. Actions
//! come back the same way. The platform layer owns the byte stream and the
//! message serialization; this module owns the framing arithmetic, the
//! `{id -> send time}` map used for latency measurement, and the decision
//! of which key and mouse injections each decoded action requires.

use vstd::prelude::*;
use crate::geom::Vec2;
use crate::state::SimCommand;

verus! {

/// The integer a 4-byte little-endian length prefix denotes.
pub open spec fn le32(b0: u8, b1: u8, b2: u8, b3: u8) -> int {
    b0 + 0x100 * b1 + 0x1_0000 * b2 + 0x100_0000 * b3
}

/// Prefix a payload with its 4-byte little-endian length.
pub fn encode_with_length(payload: &Vec<u8>) -> (r: Vec<u8>)
    requires
        payload@.len() <= u32::MAX,
    ensures
        r@.len() == payload@.len() + 4,
        le32(r@[0], r@[1], r@[2], r@[3]) == payload@.len(),
        r@.skip(4) == payload@,
{
    let len = payload.len() as u32;
    proof {
        assert((len & 0xff) < 0x100) by (bit_vector);
        assert(((len >> 8u32) & 0xff) < 0x100) by (bit_vector);
        assert(((len >> 16u32) & 0xff) < 0x100) by (bit_vector);
        assert(((len >> 24u32) & 0xff) < 0x100) by (bit_vector);
    }
    let b0 = (len & 0xff) as u8;
    let b1 = ((len >> 8u32) & 0xff) as u8;
    let b2 = ((len >> 16u32) & 0xff) as u8;
    let b3 = ((len >> 24u32) & 0xff) as u8;
    proof {
        assert(((len & 0xff) as u64) + 0x100u64 * (((len >> 8u32) & 0xff) as u64) + 0x1_0000u64
            * (((len >> 16u32) & 0xff) as u64) + 0x100_0000u64 * (((len >> 24u32) & 0xff) as u64)
            == len as u64) by (bit_vector);
    }
    let mut r: Vec<u8> = Vec::new();
    r.push(b0);
    r.push(b1);
    r.push(b2);
    r.push(b3);
    let n = payload.len();
    let mut i: usize = 0;
    while i < n
        invariant
            n == payload@.len(),
            i <= n,
            r@.len() == 4 + i,
            r@[0] == b0 && r@[1] == b1 && r@[2] == b2 && r@[3] == b3,
            r@.skip(4) == payload@.take(i as int),
        decreases n - i,
    {
        r.push(payload[i]);
        proof {
            assert(r@.skip(4) =~= payload@.take(i as int + 1));
        }
        i = i + 1;
    }
    proof {
        assert(payload@.take(n as int) =~= payload@);
    }
    r
}

/// Read a 4-byte little-endian length prefix.
pub fn parse_length(b: &Vec<u8>) -> (r: u32)
    requires
        b@.len() == 4,
    ensures
        r == le32(b@[0], b@[1], b@[2], b@[3]),
{
    let b0 = b[0] as u32;
    let b1 = b[1] as u32;
    let b2 = b[2] as u32;
    let b3 = b[3] as u32;
    b0 + 0x100 * b1 + 0x1_0000 * b2 + 0x100_0000 * b3
}

/// One outbound frame's send time, keyed by the frame id.
#[derive(Clone, Copy, Debug, PartialEq, Eq, Structural)]
pub struct SendStamp {
    pub id: i64,
    pub sent: u64,
}

/// The ids of a stamp sequence.
pub open spec fn stamp_ids(s: Seq<SendStamp>) -> Seq<i64> {
    s.map_values(|st: SendStamp| st.id)
}

/// The `{id -> send time}` map shared between the frame sender and the
/// action receiver.
#[derive(Debug)]
pub struct LatencyMap {
    pub stamps: Vec<SendStamp>,
}

impl LatencyMap {
    /// Each id appears at most once.
    pub open spec fn wf(&self) -> bool {
        stamp_ids(self.stamps@).no_duplicates()
    }

    pub fn new() -> (r: LatencyMap)
        ensures
            r.wf(),
            r.stamps@ == Seq::<SendStamp>::empty(),
    {
        LatencyMap { stamps: Vec::new() }
    }

    /// Remove the stamp with this id, if any, returning its send time.
    fn take_stamp(&mut self, id: i64) -> (r: Option<u64>)
        requires
            old(self).wf(),
        ensures
            final(self).wf(),
            r is Some <==> stamp_ids(old(self).stamps@).contains(id),
            r is Some ==> old(self).stamps@.contains(SendStamp { id, sent: r->0 }),
            forall|st: SendStamp|
                final(self).stamps@.contains(st) <==> (old(self).stamps@.contains(st) && st.id
                    != id),
            final(self).stamps@.len() <= old(self).stamps@.len(),
    {
        let ghost orig = self.stamps@;
        let n = self.stamps.len();
        let mut idx: usize = 0;
        let mut found: bool = false;
        for i in 0..n
            invariant
                n == self.stamps@.len(),
                self.stamps@ == orig,
                found ==> idx < n && self.stamps@[idx as int].id == id,
                !found ==> forall|j: int| 0 <= j < i ==> self.stamps@[j].id != id,
        {
            if !found && self.stamps[i].id == id {
                idx = i;
                found = true;
            }
        }
        if found {
            let stamp = self.stamps.remove(idx);
            proof {
                let ki = |st: SendStamp| st.id;
                assert(orig.map_values(ki) =~= stamp_ids(orig));
                crate::codeset::lemma_remove_keyed(orig, idx as int, ki);
                let s = orig.remove(idx as int);
                assert(s.map_values(ki) =~= stamp_ids(s));
                assert(stamp_ids(orig)[idx as int] == id);
                assert(orig.contains(orig[idx as int]));
            }
            Some(stamp.sent)
        } else {
            proof {
                if stamp_ids(orig).contains(id) {
                    let j = choose|j: int| 0 <= j < orig.len() && stamp_ids(orig)[j] == id;
                    assert(orig[j].id == id);
                }
            }
            None
        }
    }

    /// Record that the frame with this id was sent at `now`; a repeated id
    /// overwrites the earlier stamp.
    pub fn record_send(&mut self, id: i64, now: u64)
        requires
            old(self).wf(),
        ensures
            final(self).wf(),
            forall|st: SendStamp|
                final(self).stamps@.contains(st) <==> ((old(self).stamps@.contains(st) && st.id
                    != id) || st == (SendStamp { id, sent: now })),
            final(self).stamps@.len() <= old(self).stamps@.len() + 1,
    {
        let _ = self.take_stamp(id);
        let ghost mid = self.stamps@;
        self.stamps.push(SendStamp { id, sent: now });
        proof {
            assert forall|st: SendStamp| self.stamps@.contains(st) implies (mid.contains(st) || st
                == (SendStamp { id, sent: now })) by {
                let j = choose|j: int| 0 <= j < self.stamps@.len() && self.stamps@[j] == st;
                if j < mid.len() {
                    assert(mid[j] == st);
                }
            }
            assert(self.stamps@[mid.len() as int] == (SendStamp { id, sent: now }));
            assert forall|st: SendStamp| mid.contains(st) implies self.stamps@.contains(st) by {
                let j = choose|j: int| 0 <= j < mid.len() && mid[j] == st;
                assert(self.stamps@[j] == st);
            }
            assert forall|i: int, j: int|
                0 <= i < self.stamps@.len() && 0 <= j < self.stamps@.len() && i != j implies
                stamp_ids(self.stamps@)[i] != stamp_ids(self.stamps@)[j] by {
                let s = self.stamps@;
                if i < mid.len() && j < mid.len() {
                    assert(stamp_ids(mid)[i] == stamp_ids(s)[i]);
                    assert(stamp_ids(mid)[j] == stamp_ids(s)[j]);
                } else if i < mid.len() {
                    assert(s[j] == (SendStamp { id, sent: now }));
                    assert(mid.contains(mid[i]));
                    assert(stamp_ids(s)[i] == mid[i].id);
                } else {
                    assert(s[i] == (SendStamp { id, sent: now }));
                    assert(mid.contains(mid[j]));
                    assert(stamp_ids(s)[j] == mid[j].id);
                }
            }
        }
    }

    /// On receipt of the action answering frame `id`: drop the stamp and
    /// report the elapsed time, if the id was ever stamped. A clock reading
    /// earlier than the stamp reports zero elapsed.
    pub fn take_latency(&mut self, id: i64, now: u64) -> (r: Option<u64>)
        requires
            old(self).wf(),
        ensures
            final(self).wf(),
            r is Some <==> stamp_ids(old(self).stamps@).contains(id),
            r is Some ==> exists|st: SendStamp|
                #[trigger] old(self).stamps@.contains(st) && st.id == id && r->0 == if st.sent
                    <= now {
                    (now - st.sent) as u64
                } else {
                    0u64
                },
            forall|st: SendStamp|
                final(self).stamps@.contains(st) <==> (old(self).stamps@.contains(st) && st.id
                    != id),
    {
        match self.take_stamp(id) {
            Some(sent) => {
                let elapsed = if sent <= now {
                    now - sent
                } else {
                    0
                };
                proof {
                    let st = SendStamp { id, sent };
                    assert(old(self).stamps@.contains(st));
                }
                Some(elapsed)
            },
            None => None,
        }
    }
}

/// A mouse change ordered by the remote model.
#[derive(Clone, Copy, Debug, PartialEq, Eq, Structural)]
pub enum MouseChange {
    /// Relative motion in pixels.
    DeltaPx(Vec2),
    /// An absolute cursor position.
    AbsolutePos(Vec2),
}

/// The mouse half of a decoded model action.
#[derive(Debug, Clone)]
pub struct MouseActionMsg {
    /// Buttons the model wants held from now on.
    pub buttons_down: Vec<u32>,
    /// Cursor motion, if any.
    pub change: Option<MouseChange>,
    /// Wheel motion, if any.
    pub scroll: Option<Vec2>,
}

/// A decoded remote-model action.
#[derive(Debug, Clone)]
pub struct ActionMsg {
    /// The id of the inference frame this action answers.
    pub id: i64,
    /// Keys the model wants held from now on.
    pub keys: Vec<u32>,
    /// The mouse part, if any.
    pub mouse: Option<MouseActionMsg>,
}

/// Press orders for every code newly wanted: codes in `wanted` (in order)
/// that the previous want did not contain.
pub open spec fn press_cmds(wanted: Seq<u32>, prev: Seq<u32>, key: bool) -> Seq<SimCommand>
    decreases wanted.len(),
{
    if wanted.len() == 0 {
        Seq::empty()
    } else {
        press_cmds(wanted.drop_last(), prev, key) + if !prev.contains(wanted.last()) {
            seq![
                if key {
                    SimCommand::KeyPress(wanted.last())
                } else {
                    SimCommand::ButtonPress(wanted.last())
                },
            ]
        } else {
            Seq::empty()
        }
    }
}

/// Release orders for every code no longer wanted: codes in `prev` (in
/// order) that the new want does not contain.
pub open spec fn release_cmds(prev: Seq<u32>, wanted: Seq<u32>, key: bool) -> Seq<SimCommand>
    decreases prev.len(),
{
    if prev.len() == 0 {
        Seq::empty()
    } else {
        release_cmds(prev.drop_last(), wanted, key) + if !wanted.contains(prev.last()) {
            seq![
                if key {
                    SimCommand::KeyRelease(prev.last())
                } else {
                    SimCommand::ButtonRelease(prev.last())
                },
            ]
        } else {
            Seq::empty()
        }
    }
}

/// The difference between what was wanted and what is wanted now, as press
/// orders followed by release orders.
fn diff_cmds(wanted: &Vec<u32>, previous: &mut Vec<u32>, key: bool) -> (commands: Vec<SimCommand>)
    ensures
        commands@ == press_cmds(wanted@, old(previous)@, key) + release_cmds(
            old(previous)@,
            wanted@,
            key,
        ),
        final(previous)@ == wanted@,
{
    let ghost prev0 = previous@;
    let mut commands: Vec<SimCommand> = Vec::new();
    let n = wanted.len();
    let mut i: usize = 0;
    while i < n
        invariant
            n == wanted@.len(),
            i <= n,
            previous@ == prev0,
            commands@ == press_cmds(wanted@.take(i as int), prev0, key),
        decreases n - i,
    {
        proof {
            assert(wanted@.take(i as int + 1).drop_last() =~= wanted@.take(i as int));
        }
        if !crate::codeset::contains_code(previous, wanted[i]) {
            commands.push(
                if key {
                    SimCommand::KeyPress(wanted[i])
                } else {
                    SimCommand::ButtonPress(wanted[i])
                },
            );
        }
        i = i + 1;
    }
    proof {
        assert(wanted@.take(n as int) =~= wanted@);
    }
    let ghost presses = commands@;
    let m = previous.len();
    let mut j: usize = 0;
    while j < m
        invariant
            m == previous@.len(),
            j <= m,
            previous@ == prev0,
            commands@ == presses + release_cmds(prev0.take(j as int), wanted@, key),
        decreases m - j,
    {
        proof {
            assert(prev0.take(j as int + 1).drop_last() =~= prev0.take(j as int));
        }
        if !crate::codeset::contains_code(wanted, previous[j]) {
            commands.push(
                if key {
                    SimCommand::KeyRelease(previous[j])
                } else {
                    SimCommand::ButtonRelease(previous[j])
                },
            );
        }
        j = j + 1;
    }
    proof {
        assert(prev0.take(m as int) =~= prev0);
    }
    let mut new_prev = crate::codeset::copy_codes(wanted);
    core::mem::swap(previous, &mut new_prev);
    commands
}

/// Apply the keyboard half of an action: press what is newly wanted,
/// release what is no longer wanted, remember the want.
pub fn process_keys(keys: &Vec<u32>, previous_keys: &mut Vec<u32>) -> (commands: Vec<SimCommand>)
    ensures
        commands@ == press_cmds(keys@, old(previous_keys)@, true) + release_cmds(
            old(previous_keys)@,
            keys@,
            true,
        ),
        final(previous_keys)@ == keys@,
{
    diff_cmds(keys, previous_keys, true)
}

/// The cursor order a mouse change denotes.
pub open spec fn change_cmds(change: Option<MouseChange>) -> Seq<SimCommand> {
    match change {
        Some(MouseChange::DeltaPx(d)) => seq![SimCommand::MouseDeltaMove(d)],
        Some(MouseChange::AbsolutePos(p)) => seq![SimCommand::MouseAbsoluteMove(p)],
        None => Seq::empty(),
    }
}

/// The wheel order a scroll denotes; zero motion orders nothing.
pub open spec fn scroll_cmds(scroll: Option<Vec2>) -> Seq<SimCommand> {
    match scroll {
        Some(s) => if s.x == 0 && s.y == 0 {
            Seq::empty()
        } else {
            seq![SimCommand::MouseScroll(s)]
        },
        None => Seq::empty(),
    }
}

/// Apply the mouse half of an action: button presses and releases against
/// the previous want, then the cursor change, then the wheel motion.
pub fn process_mouse(actions: &MouseActionMsg, previous_mouse_buttons: &mut Vec<u32>) -> (commands:
    Vec<SimCommand>)
    ensures
        commands@ == press_cmds(actions.buttons_down@, old(previous_mouse_buttons)@, false)
            + release_cmds(old(previous_mouse_buttons)@, actions.buttons_down@, false)
            + change_cmds(actions.change) + scroll_cmds(actions.scroll),
        final(previous_mouse_buttons)@ == actions.buttons_down@,
{
    let mut commands = diff_cmds(&actions.buttons_down, previous_mouse_buttons, false);
    match &actions.change {
        Some(MouseChange::DeltaPx(d)) => commands.push(SimCommand::MouseDeltaMove(*d)),
        Some(MouseChange::AbsolutePos(p)) => commands.push(SimCommand::MouseAbsoluteMove(*p)),
        None => {},
    }
    match &actions.scroll {
        Some(s) => {
            if !(s.x == 0 && s.y == 0) {
                commands.push(SimCommand::MouseScroll(*s));
            }
        },
        None => {},
    }
    proof {
        assert(commands@ =~= press_cmds(actions.buttons_down@, old(previous_mouse_buttons)@, false)
            + release_cmds(old(previous_mouse_buttons)@, actions.buttons_down@, false)
            + change_cmds(actions.change) + scroll_cmds(actions.scroll));
    }
    commands
}

/// Apply one decoded action. While the model owns synthetic input, its want
/// is turned into injection orders; while it does not, any lingering want is
/// forgotten so a disabled model cannot leave stuck inputs, and nothing is
/// injected.
pub fn process_action(
    action: &ActionMsg,
    model_control_enabled: bool,
    keys_pressed: &mut Vec<u32>,
    mouse_buttons_pressed: &mut Vec<u32>,
) -> (commands: Vec<SimCommand>)
    ensures
        model_control_enabled ==> {
            &&& commands@ == press_cmds(action.keys@, old(keys_pressed)@, true) + release_cmds(
                old(keys_pressed)@,
                action.keys@,
                true,
            ) + match action.mouse {
                Some(m) => press_cmds(m.buttons_down@, old(mouse_buttons_pressed)@, false)
                    + release_cmds(old(mouse_buttons_pressed)@, m.buttons_down@, false)
                    + change_cmds(m.change) + scroll_cmds(m.scroll),
                None => Seq::empty(),
            }
            &&& final(keys_pressed)@ == action.keys@
            &&& final(mouse_buttons_pressed)@ == match action.mouse {
                Some(m) => m.buttons_down@,
                None => old(mouse_buttons_pressed)@,
            }
        },
        !model_control_enabled ==> {
            &&& commands@ == Seq::<SimCommand>::empty()
            &&& final(keys_pressed)@ == Seq::<u32>::empty()
            &&& final(mouse_buttons_pressed)@ == Seq::<u32>::empty()
        },
{
    if model_control_enabled {
        let mut commands = process_keys(&action.keys, keys_pressed);
        match &action.mouse {
            Some(mouse_action) => {
                let mut mouse_commands = process_mouse(mouse_action, mouse_buttons_pressed);
                let ghost before = commands@;
                let ghost mcs = mouse_commands@;
                commands.append(&mut mouse_commands);
                proof {
                    assert(commands@ == before + mcs);
                }
            },
            None => {
                proof {
                    assert(commands@ =~= commands@ + Seq::<SimCommand>::empty());
                }
            },
        }
        commands
    } else {
        keys_pressed.clear();
        mouse_buttons_pressed.clear();
        Vec::new()
    }
}

} // verus!
