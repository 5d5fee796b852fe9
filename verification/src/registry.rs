//! Listener registration handles.
//!
//! Higher layers observe the raw event stream without coupling to the
//! aggregator. The registry issues monotonically increasing handles; the
//! platform layer keeps the callbacks themselves, keyed by the same handles,
//! and fans each bus event out to every registered handle.

use vstd::prelude::*;

verus! {

broadcast use vstd::seq_lib::lemma_seq_contains_after_push;

/// The set of live listener handles.
#[derive(Debug, Clone)]
pub struct ListenerRegistry {
    /// Handles currently registered.
    pub ids: Vec<u64>,
    /// The next handle to issue.
    pub next_id: u64,
}

impl ListenerRegistry {
    /// Handles are unique and always below the next one to be issued.
    pub open spec fn wf(&self) -> bool {
        &&& self.ids@.no_duplicates()
        &&& forall|i: int| 0 <= i < self.ids@.len() ==> #[trigger] self.ids@[i] < self.next_id
    }

    /// An empty registry; the first handle issued is `0`.
    pub fn new() -> (r: ListenerRegistry)
        ensures
            r.wf(),
            r.ids@ == Seq::<u64>::empty(),
            r.next_id == 0,
    {
        ListenerRegistry { ids: Vec::new(), next_id: 0 }
    }

    /// Register a listener; the returned handle is fresh and handles are
    /// issued in increasing order.
    pub fn listen(&mut self) -> (id: u64)
        requires
            old(self).wf(),
            old(self).next_id < u64::MAX,
        ensures
            final(self).wf(),
            id == old(self).next_id,
            !old(self).ids@.contains(id),
            final(self).ids@ == old(self).ids@.push(id),
            final(self).next_id == old(self).next_id + 1,
    {
        let id = self.next_id;
        self.ids.push(id);
        self.next_id = self.next_id + 1;
        id
    }

    /// Remove a listener by its handle; unknown handles are ignored.
    pub fn remove_listener(&mut self, id: u64)
        requires
            old(self).wf(),
        ensures
            final(self).wf(),
            final(self).next_id == old(self).next_id,
            forall|x: u64| final(self).ids@.contains(x) <==> (old(self).ids@.contains(x) && x != id),
    {
        let ghost orig = self.ids@;
        let n = self.ids.len();
        let mut idx: usize = 0;
        let mut found: bool = false;
        for i in 0..n
            invariant
                n == self.ids@.len(),
                self.ids@ == orig,
                found ==> idx < n && self.ids@[idx as int] == id,
                !found ==> forall|j: int| 0 <= j < i ==> self.ids@[j] != id,
        {
            if !found && self.ids[i] == id {
                idx = i;
                found = true;
            }
        }
        if found {
            self.ids.remove(idx);
            proof {
                let hid = |x: u64| x;
                assert(orig.map_values(hid) =~= orig);
                crate::codeset::lemma_remove_keyed(orig, idx as int, hid);
                assert(orig.remove(idx as int).map_values(hid) =~= orig.remove(idx as int));
            }
        } else {
            proof {
                if orig.contains(id) {
                    let j = choose|j: int| 0 <= j < orig.len() && orig[j] == id;
                }
            }
        }
    }
}

} // verus!
