//! Capture-session decisions.
//!
//! The pipeline itself (encoder, window capture, audio) is an external
//! collaborator; this module holds the decisions the session makes around
//! it: the run/inference lifecycle flags, the output geometry, the
//! defensive checks on the first sampled frames, and the workaround that
//! drops a single timeline event arriving just before the recorded session
//! start.

use vstd::prelude::*;
use vstd::arithmetic::div_mod::{lemma_fundamental_div_mod, lemma_fundamental_div_mod_converse_mod,
    lemma_mod_decreases};
use crate::frame::InputFrame;

verus! {

/// More simultaneously pressed keys than a healthy keyboard reports;
/// anything above this is logged as ghosting or a driver fault.
pub const MAX_EXPECTED_KEYS: usize = 10;

/// The run/inference lifecycle of one capture session.
#[derive(Debug, Clone, Copy, PartialEq, Eq, Structural)]
pub struct CaptureControl {
    /// A capture is running.
    pub running: bool,
    /// The model currently owns synthetic input.
    pub inference_enabled: bool,
    /// This session was started with inference support.
    pub started_inference: bool,
}

impl CaptureControl {
    pub fn new() -> (r: CaptureControl)
        ensures
            !r.running && !r.inference_enabled && !r.started_inference,
    {
        CaptureControl { running: false, inference_enabled: false, started_inference: false }
    }

    /// Begin a capture; refused if and only if one is already running.
    pub fn try_begin(&mut self, with_inference: bool) -> (r: Result<(), ()>)
        ensures
            r is Err <==> old(self).running,
            old(self).running ==> *final(self) == *old(self),
            !old(self).running ==> *final(self) == (CaptureControl {
                running: true,
                inference_enabled: with_inference,
                started_inference: with_inference,
            }),
    {
        if self.running {
            return Err(());
        }
        self.running = true;
        self.inference_enabled = with_inference;
        self.started_inference = with_inference;
        Ok(())
    }

    /// Hand control to or from the model.
    pub fn toggle_model_control(&mut self)
        ensures
            *final(self) == (CaptureControl {
                inference_enabled: !old(self).inference_enabled,
                ..*old(self)
            }),
    {
        self.inference_enabled = !self.inference_enabled;
    }

    /// Withdraw control from the model (session shutdown path).
    pub fn stop_inference(&mut self)
        ensures
            *final(self) == (CaptureControl { inference_enabled: false, ..*old(self) }),
    {
        self.inference_enabled = false;
    }

    /// The capture finished or was torn down.
    pub fn finish(&mut self)
        ensures
            *final(self) == (CaptureControl {
                running: false,
                inference_enabled: false,
                started_inference: false,
            }),
    {
        self.running = false;
        self.inference_enabled = false;
        self.started_inference = false;
    }
}

/// Rounding a magnitude `ai` down or up to a multiple of `d` yields a
/// multiple of `d`, on either side of zero, and never rounds below zero.
proof fn lemma_step_multiples(ai: int, d: int)
    requires
        d > 0,
        ai >= 0,
    ensures
        ai % d <= ai,
        (ai - ai % d) % d == 0,
        (ai - ai % d + d) % d == 0,
        (0 - (ai - ai % d)) % d == 0,
        (0 - (ai - ai % d + d)) % d == 0,
{
    lemma_mod_decreases(ai as nat, d as nat);
    lemma_fundamental_div_mod(ai, d);
    let q = ai / d;
    let m = ai % d;
    assert(q * d == d * q) by (nonlinear_arith);
    assert((q + 1) * d == q * d + d) by (nonlinear_arith);
    assert((0 - q) * d == 0 - q * d) by (nonlinear_arith);
    assert((0 - (q + 1)) * d == 0 - (q * d + d)) by (nonlinear_arith);
    lemma_fundamental_div_mod_converse_mod(ai - m, d, q, 0);
    lemma_fundamental_div_mod_converse_mod(ai - m + d, d, q + 1, 0);
    lemma_fundamental_div_mod_converse_mod(0 - (ai - m), d, 0 - q, 0);
    lemma_fundamental_div_mod_converse_mod(0 - (ai - m + d), d, 0 - (q + 1), 0);
}

/// The next multiple of `rhs` from `start`: for a positive step, the
/// smallest multiple of `rhs` not below `start`; for a negative step, the
/// greatest one not above it (so a step of `-1` returns `start` itself).
pub fn next_multiple_of(start: i32, rhs: i32) -> (r: i32)
    requires
        rhs != 0,
        -0x4000_0000 <= start <= 0x4000_0000,
        -0x4000_0000 <= rhs <= 0x4000_0000,
    ensures
        rhs > 0 ==> (r as int) % (rhs as int) == 0 && start <= r < start + rhs,
        rhs < 0 ==> (r as int) % (0 - rhs as int) == 0 && start + rhs < r <= start,
{
    let step: u32 = if rhs < 0 {
        (-(rhs as i64)) as u32
    } else {
        rhs as u32
    };
    proof {
        assert(1 <= step as int <= 0x4000_0000);
        assert(step as int == if rhs < 0 {
            0 - rhs as int
        } else {
            rhs as int
        });
    }
    if start >= 0 {
        let a = start as u32;
        let m = a % step;
        proof {
            lemma_step_multiples(a as int, step as int);
        }
        if rhs > 0 {
            if m == 0 {
                start
            } else {
                ((a - m) + step) as i32
            }
        } else {
            (a - m) as i32
        }
    } else {
        let a = (-(start as i64)) as u32;
        let m = a % step;
        proof {
            lemma_step_multiples(a as int, step as int);
        }
        if rhs > 0 {
            -((a - m) as i32)
        } else {
            if m == 0 {
                start
            } else {
                -(((a - m) + step) as i32)
            }
        }
    }
}

/// The width the video output should use: the source width scaled so the
/// source height lands on `output_height`, rounded to the nearest integer
/// (halves up), then up to a multiple of four for the encoder.
pub open spec fn scaled_width(size_width: int, size_height: int, output_height: int) -> int {
    (2 * size_width * output_height + size_height) / (2 * size_height)
}

/// Compute the encoder output width for a capture target.
pub fn output_width(size_width: u32, size_height: u32, output_height: u32) -> (r: u32)
    requires
        1 <= size_height,
        size_width <= 0x1_0000,
        size_height <= 0x1_0000,
        output_height <= 0x1000,
    ensures
        r % 4 == 0,
        scaled_width(size_width as int, size_height as int, output_height as int) <= r
            < scaled_width(size_width as int, size_height as int, output_height as int) + 4,
{
    proof {
        assert(2 * (size_width as int) * (output_height as int) + (size_height as int)
            <= 0x2_0001_0000) by (nonlinear_arith)
            requires
                0 <= size_width as int <= 0x1_0000,
                0 <= output_height as int <= 0x1000,
                0 <= size_height as int <= 0x1_0000,
        ;
    }
    let num: u64 = 2 * (size_width as u64) * (output_height as u64) + (size_height as u64);
    let rounded_64: u64 = num / (2 * (size_height as u64));
    proof {
        assert(rounded_64 as int <= 0x1000_0001) by (nonlinear_arith)
            requires
                rounded_64 as int == num as int / (2 * (size_height as int)),
                num as int == 2 * (size_width as int) * (output_height as int) + (
                size_height as int),
                1 <= size_height as int <= 0x1_0000,
                size_width as int <= 0x1_0000,
                output_height as int <= 0x1000,
        ;
    }
    let rounded: u32 = rounded_64 as u32;
    let r = next_multiple_of(rounded as i32, 4);
    proof {
        assert((r as int) % 4 == 0);
    }
    r as u32
}

/// Whether a frame records more simultaneously pressed user keys than a
/// healthy keyboard can report.
pub fn too_many_keys(frame: &InputFrame) -> (r: bool)
    ensures
        r == (frame.user_keys@.len() > MAX_EXPECTED_KEYS),
{
    frame.user_keys.len() > MAX_EXPECTED_KEYS
}

/// Whether the first sampled frame shows one of the designated suspicious
/// codes already held, which points at a broken hook at session start.
pub fn start_keys_suspicious(frame: &InputFrame, suspicious: &Vec<u32>) -> (r: bool)
    ensures
        r == exists|k: u32| suspicious@.contains(k) && frame.user_keys@.contains(k),
{
    let n = suspicious.len();
    for i in 0..n
        invariant
            n == suspicious@.len(),
            forall|j: int| 0 <= j < i ==> !frame.user_keys@.contains(#[trigger] suspicious@[j]),
    {
        if crate::codeset::contains_code(&frame.user_keys, suspicious[i]) {
            proof {
                assert(suspicious@.contains(suspicious@[i as int]));
            }
            return true;
        }
    }
    proof {
        if exists|k: u32| suspicious@.contains(k) && frame.user_keys@.contains(k) {
            let k = choose|k: u32| suspicious@.contains(k) && frame.user_keys@.contains(k);
            let j = choose|j: int| 0 <= j < suspicious@.len() && suspicious@[j] == k;
        }
    }
    false
}

/// Whether the first frame's first raw event precedes the session start.
/// This can happen once, by lock timing, between the timeline restart and
/// the first sample.
pub open spec fn first_event_early(frames: Seq<InputFrame>, start_time: u64) -> bool {
    frames.len() > 0 && frames[0].timeline@.len() > 0 && frames[0].timeline@[0].time < start_time
}

/// Drop a single first timeline event that precedes the session start; the
/// first result says whether one was dropped, the second whether the next
/// event is still early (which is unexpected and reported).
pub fn trim_pre_start_event(frames: &mut Vec<InputFrame>, start_time: u64) -> (r: (bool, bool))
    ensures
        r.0 == first_event_early(old(frames)@, start_time),
        r.1 == first_event_early(final(frames)@, start_time),
        !r.0 ==> final(frames)@ == old(frames)@,
        r.0 ==> {
            &&& final(frames)@.len() == old(frames)@.len()
            &&& final(frames)@[0].timeline@ == old(frames)@[0].timeline@.drop_first()
            &&& forall|i: int|
                1 <= i < old(frames)@.len() ==> final(frames)@[i] == old(frames)@[i]
        },
{
    if frames.len() == 0 {
        return (false, false);
    }
    let early = frames[0].timeline.len() > 0 && frames[0].timeline[0].time < start_time;
    if !early {
        return (false, early);
    }
    let mut first = frames.remove(0);
    first.timeline.remove(0);
    frames.insert(0, first);
    proof {
        assert(final(frames)@[0].timeline@ =~= old(frames)@[0].timeline@.drop_first());
        assert forall|i: int| 1 <= i < old(frames)@.len() implies final(frames)@[i] == old(
            frames,
        )@[i] by {}
    }
    let still = frames[0].timeline.len() > 0 && frames[0].timeline[0].time < start_time;
    (true, still)
}

} // verus!
