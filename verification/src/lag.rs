//! The single-slot, most-recent-wins, non-blocking handoff.
//!
//! The capture pipeline must never block waiting for a slow network
//! consumer: at most one stale item is ever held, and newer items always
//! win. This module verifies the channel's state machine; the platform layer
//! adds the waker plumbing that parks and wakes the single receiver task.

use vstd::prelude::*;

verus! {

/// What a receive poll observes.
#[derive(Debug, PartialEq, Eq)]
pub enum RecvPoll<T> {
    /// An item was available; the slot is now empty.
    Ready(T),
    /// The channel is closed; nothing will ever arrive.
    Closed,
    /// Nothing is available yet; the receiver suspends until a send or a
    /// close wakes it.
    Pending,
}

/// The channel: one slot, a closed marker, and a count of live sender
/// handles.
#[derive(Debug)]
pub struct LagChannel<T> {
    /// The occupant, if any.
    pub item: Option<T>,
    /// Set once the last sender or the receiver goes away.
    pub closed: bool,
    /// Live sender handles; the channel closes when the count reaches zero.
    pub senders: usize,
}

/// The channel after one send: a send on a closed channel changes nothing,
/// any other send overwrites whatever the slot held.
pub open spec fn sent<T>(c: LagChannel<T>, value: T) -> LagChannel<T> {
    if c.closed {
        c
    } else {
        LagChannel { item: Some(value), ..c }
    }
}

/// The channel after a whole sequence of sends, first element first.
pub open spec fn sent_all<T>(c: LagChannel<T>, values: Seq<T>) -> LagChannel<T>
    decreases values.len(),
{
    if values.len() == 0 {
        c
    } else {
        sent(sent_all(c, values.drop_last()), values.last())
    }
}

impl<T> LagChannel<T> {
    /// A fresh channel: empty, open, one sender handle.
    pub fn new() -> (r: LagChannel<T>)
        ensures
            r.item is None,
            !r.closed,
            r.senders == 1,
    {
        LagChannel { item: None, closed: false, senders: 1 }
    }

    /// Non-blocking send: fails (handing the value back) only if the channel
    /// is closed; otherwise the value unconditionally takes the slot,
    /// dropping any previous occupant.
    pub fn send(&mut self, value: T) -> (r: Result<(), T>)
        ensures
            *final(self) == sent(*old(self), value),
            r is Err <==> old(self).closed,
            old(self).closed ==> r == Result::<(), T>::Err(value),
            final(self).closed == old(self).closed,
            final(self).senders == old(self).senders,
    {
        if self.closed {
            return Err(value);
        }
        self.item = Some(value);
        Ok(())
    }

    /// Take the occupant, if any, leaving the slot empty.
    pub fn try_recv(&mut self) -> (r: Option<T>)
        ensures
            r == old(self).item,
            final(self).item is None,
            final(self).closed == old(self).closed,
            final(self).senders == old(self).senders,
    {
        self.item.take()
    }

    /// One poll of the receiver: a closed channel reports `Closed` even if
    /// an item is still in the slot; otherwise an available item is taken;
    /// otherwise the receiver must suspend until a send or a close.
    pub fn poll_recv(&mut self) -> (r: RecvPoll<T>)
        ensures
            old(self).closed ==> r is Closed && final(self).item == old(self).item,
            !old(self).closed && old(self).item is Some ==> r == RecvPoll::Ready(
                old(self).item->0,
            ) && final(self).item is None,
            !old(self).closed && old(self).item is None ==> r is Pending && final(self).item
                is None,
            final(self).closed == old(self).closed,
            final(self).senders == old(self).senders,
    {
        if self.closed {
            return RecvPoll::Closed;
        }
        match self.item.take() {
            Some(value) => RecvPoll::Ready(value),
            None => RecvPoll::Pending,
        }
    }

    /// Close the channel (receiver dropped, or explicit shutdown).
    pub fn close(&mut self)
        ensures
            final(self).closed,
            final(self).item == old(self).item,
            final(self).senders == old(self).senders,
    {
        self.closed = true;
    }

    /// A sender handle was cloned.
    pub fn clone_sender(&mut self)
        requires
            old(self).senders < usize::MAX,
        ensures
            final(self).senders == old(self).senders + 1,
            final(self).item == old(self).item,
            final(self).closed == old(self).closed,
    {
        self.senders = self.senders + 1;
    }

    /// A sender handle was dropped; dropping the last one closes the
    /// channel, waking any pending receiver.
    pub fn drop_sender(&mut self)
        requires
            old(self).senders >= 1,
        ensures
            final(self).senders == old(self).senders - 1,
            final(self).item == old(self).item,
            final(self).closed == (old(self).closed || old(self).senders == 1),
    {
        self.senders = self.senders - 1;
        if self.senders == 0 {
            self.closed = true;
        }
    }
}

/// Law: on an open channel, any number of sends without a receive leaves
/// exactly the last value sent retrievable; no earlier value survives.
pub proof fn lemma_last_send_wins<T>(c: LagChannel<T>, values: Seq<T>)
    requires
        !c.closed,
        values.len() >= 1,
    ensures
        sent_all(c, values).item == Some(values.last()),
        sent_all(c, values).closed == c.closed,
        sent_all(c, values).senders == c.senders,
    decreases values.len(),
{
    if values.len() > 1 {
        lemma_last_send_wins(c, values.drop_last());
    } else {
        assert(values.drop_last().len() == 0);
        assert(sent_all(c, values.drop_last()) == c);
    }
}

} // verus!
