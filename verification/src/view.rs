//! A read-only widget model of what is currently pressed.
//!
//! The display layer refreshes one of these from a short-lived snapshot of
//! the aggregator and renders it; it never holds the aggregator itself.

use vstd::prelude::*;
use crate::codeset::copy_codes;
use crate::state::{hold_codes, InputState};

verus! {

/// The four pressed sets as the display layer shows them.
#[derive(Debug, Clone)]
pub struct KeyView {
    pub user_keys: Vec<u32>,
    pub user_buttons: Vec<u32>,
    pub system_keys: Vec<u32>,
    pub system_buttons: Vec<u32>,
}

impl KeyView {
    /// An empty view, before the first refresh.
    pub fn new() -> (r: KeyView)
        ensures
            r.user_keys@ == Seq::<u32>::empty(),
            r.user_buttons@ == Seq::<u32>::empty(),
            r.system_keys@ == Seq::<u32>::empty(),
            r.system_buttons@ == Seq::<u32>::empty(),
    {
        KeyView {
            user_keys: Vec::new(),
            user_buttons: Vec::new(),
            system_keys: Vec::new(),
            system_buttons: Vec::new(),
        }
    }

    /// Refresh the view from a snapshot of the aggregate.
    pub fn update(&mut self, state: &InputState)
        ensures
            final(self).user_keys@ == hold_codes(state.currently_pressed_keys@),
            final(self).user_buttons@ == state.currently_pressed_mouse_buttons@,
            final(self).system_keys@ == state.simulated_key@,
            final(self).system_buttons@ == state.simulated_mouse_buttons@,
    {
        let mut user_keys: Vec<u32> = Vec::new();
        let n = state.currently_pressed_keys.len();
        let mut i: usize = 0;
        while i < n
            invariant
                n == state.currently_pressed_keys@.len(),
                i <= n,
                user_keys@ == hold_codes(state.currently_pressed_keys@).take(i as int),
            decreases n - i,
        {
            user_keys.push(state.currently_pressed_keys[i].code);
            proof {
                assert(user_keys@ =~= hold_codes(state.currently_pressed_keys@).take(
                    i as int + 1,
                ));
            }
            i = i + 1;
        }
        proof {
            assert(hold_codes(state.currently_pressed_keys@).take(n as int) =~= hold_codes(
                state.currently_pressed_keys@,
            ));
        }
        self.user_keys = user_keys;
        self.user_buttons = copy_codes(&state.currently_pressed_mouse_buttons);
        self.system_keys = copy_codes(&state.simulated_key);
        self.system_buttons = copy_codes(&state.simulated_mouse_buttons);
    }
}

} // verus!
