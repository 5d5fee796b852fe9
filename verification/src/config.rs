//! Session configuration: designated hotkeys and the model-control policy.

use vstd::prelude::*;
use crate::codeset::code_set;

verus! {

/// An application-level action bound to a key combination.
#[derive(Clone, Copy, Debug, PartialEq, Eq, Structural)]
pub enum HotKey {
    ToggleRecording,
    ToggleRecordingWithInference,
    TogglePlayback,
    ToggleModelControl,
}

/// The designated keys the capture core must know about: every hotkey (these
/// are excluded from recorded pressed-key sets), and the single key whose
/// press re-enables model control after a human override.
#[derive(Clone, Debug)]
pub struct InputConfig {
    /// Key codes of every bound hotkey combination.
    pub hot_keys: Vec<u32>,
    /// The key whose press hands control back to the model.
    pub reenable_key: u32,
}

impl InputConfig {
    /// The hotkey codes as a set.
    pub open spec fn hot_set(&self) -> Set<u32> {
        code_set(self.hot_keys@)
    }

    pub fn new(hot_keys: Vec<u32>, reenable_key: u32) -> (r: InputConfig)
        ensures
            r.hot_keys == hot_keys,
            r.reenable_key == reenable_key,
    {
        InputConfig { hot_keys, reenable_key }
    }
}

} // verus!
