//! Append-only per-session and per-frame event buffers.
//!
//! Every event pushed lands in both buffers in arrival order. The per-frame
//! buffer is drained once per video frame; the full-session buffer persists
//! until the session ends.

use vstd::prelude::*;
use crate::event::{wf_events, DeviceEvent};
use crate::geom::MAX_SAMPLES;

verus! {

/// The two event buffers of one recording session.
#[derive(Debug, Clone)]
pub struct Timeline {
    /// Session start, nanoseconds from the process epoch.
    pub start: u64,
    /// Events since the last per-frame drain.
    pub events: Vec<DeviceEvent>,
    /// Events since the session started.
    pub full_events: Vec<DeviceEvent>,
}

impl Timeline {
    /// The per-frame buffer never outgrows the per-frame sample bound, and
    /// holds only well-formed events.
    pub open spec fn wf(&self) -> bool {
        &&& self.events@.len() <= MAX_SAMPLES
        &&& wf_events(self.events@)
        &&& wf_events(self.full_events@)
    }

    /// An empty timeline starting at `now`.
    pub fn new(now: u64) -> (r: Timeline)
        ensures
            r.start == now,
            r.events@ == Seq::<DeviceEvent>::empty(),
            r.full_events@ == Seq::<DeviceEvent>::empty(),
            r.wf(),
    {
        Timeline { start: now, events: Vec::new(), full_events: Vec::new() }
    }

    /// Begin collecting a new session: clear both buffers and record the new
    /// start time, which is also returned.
    pub fn start_timeline(&mut self, now: u64) -> (r: u64)
        ensures
            r == now,
            final(self).start == now,
            final(self).events@ == Seq::<DeviceEvent>::empty(),
            final(self).full_events@ == Seq::<DeviceEvent>::empty(),
            final(self).wf(),
    {
        self.start = now;
        self.events.clear();
        self.full_events.clear();
        now
    }

    /// Append one event to both buffers.
    pub fn push_event(&mut self, event: DeviceEvent)
        requires
            old(self).wf(),
            old(self).events@.len() < MAX_SAMPLES,
            event.wf(),
        ensures
            final(self).wf(),
            final(self).start == old(self).start,
            final(self).events@ == old(self).events@.push(event),
            final(self).full_events@ == old(self).full_events@.push(event),
    {
        self.events.push(event);
        self.full_events.push(event);
    }

    /// Empty the per-frame buffer, returning its contents in arrival order.
    /// The full-session buffer is untouched.
    pub fn drain_frame_events(&mut self) -> (r: Vec<DeviceEvent>)
        requires
            old(self).wf(),
        ensures
            final(self).wf(),
            r@ == old(self).events@,
            final(self).events@ == Seq::<DeviceEvent>::empty(),
            final(self).full_events@ == old(self).full_events@,
            final(self).start == old(self).start,
    {
        let mut taken: Vec<DeviceEvent> = Vec::new();
        core::mem::swap(&mut taken, &mut self.events);
        taken
    }

    /// Empty the full-session buffer, returning its contents in arrival
    /// order. The per-frame buffer is untouched.
    pub fn drain_full_events(&mut self) -> (r: Vec<DeviceEvent>)
        requires
            old(self).wf(),
        ensures
            final(self).wf(),
            r@ == old(self).full_events@,
            final(self).full_events@ == Seq::<DeviceEvent>::empty(),
            final(self).events@ == old(self).events@,
            final(self).start == old(self).start,
    {
        let mut taken: Vec<DeviceEvent> = Vec::new();
        core::mem::swap(&mut taken, &mut self.full_events);
        taken
    }
}

} // verus!
