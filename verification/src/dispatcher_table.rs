use vstd::prelude::*;

verus! {

/// The dispatchers waiting on one registered I/O source: one for read
/// readiness and one for write readiness, each named by its id.
#[derive(Clone, Copy)]
pub struct Slot {
    pub readable_dispatcher: Option<usize>,
    pub writable_dispatcher: Option<usize>,
}

impl Slot {
    /// A slot with no dispatcher on either side.
    pub fn new() -> (r: Slot)
        ensures
            r.readable_dispatcher is None,
            r.writable_dispatcher is None,
    {
        Slot { readable_dispatcher: None, writable_dispatcher: None }
    }
}

/// A slot with no dispatcher on either side.
pub open spec fn empty_slot() -> Slot {
    Slot { readable_dispatcher: None, writable_dispatcher: None }
}

#[verifier::external_type_specification]
#[verifier::external_body]
#[verifier::reject_recursive_types(T)]
pub struct ExSlab<T>(slab::Slab<T>);

/// The entries of a slab: each occupied key with the slot stored under it.
pub uninterp spec fn slab_entries(slab: slab::Slab<Slot>) -> Map<usize, Slot>;

/// Calls `slab::Slab::new`, which holds no entry.
#[verifier::external_body]
fn slab_new() -> (fresh: slab::Slab<Slot>)
    ensures
        slab_entries(fresh).dom() == Set::<usize>::empty(),
{
    slab::Slab::new()
}

/// Calls `slab::Slab::insert`, which stores `val` under a key that was vacant
/// and returns that key; the other entries stay as they were.
#[verifier::external_body]
fn slab_insert(slab: &mut slab::Slab<Slot>, val: Slot) -> (key: usize)
    ensures
        !slab_entries(*old(slab)).dom().contains(key),
        slab_entries(*final(slab)) == slab_entries(*old(slab)).insert(key, val),
{
    slab.insert(val)
}

/// Calls `slab::Slab::get`, which returns the slot stored under `key`, if
/// any, here copied out.
#[verifier::external_body]
fn slab_get(slab: &slab::Slab<Slot>, key: usize) -> (r: Option<Slot>)
    ensures
        r == (if slab_entries(*slab).dom().contains(key) {
            Some(slab_entries(*slab)[key])
        } else {
            None::<Slot>
        }),
{
    slab.get(key).copied()
}

/// Calls the `IndexMut` of `slab::Slab`, which panics on a vacant key, to
/// replace the slot stored under an occupied `key`.
#[verifier::external_body]
fn slab_set(slab: &mut slab::Slab<Slot>, key: usize, val: Slot)
    requires
        slab_entries(*old(slab)).dom().contains(key),
    ensures
        slab_entries(*final(slab)) == slab_entries(*old(slab)).insert(key, val),
{
    slab[key] = val;
}

/// Calls `slab::Slab::remove`, which panics on a vacant key, and otherwise
/// takes the slot out from under `key` and returns it.
#[verifier::external_body]
fn slab_remove(slab: &mut slab::Slab<Slot>, key: usize) -> (r: Slot)
    requires
        slab_entries(*old(slab)).dom().contains(key),
    ensures
        r == slab_entries(*old(slab))[key],
        slab_entries(*final(slab)) == slab_entries(*old(slab)).remove(key),
{
    slab.remove(key)
}

/// The event loop's table of registered I/O sources: a slot per key, and the
/// keys whose sources were dropped and wait to be removed by the event loop.
pub struct DispatcherTable {
    slots: slab::Slab<Slot>,
    deferred_remove: Vec<usize>,
}

impl DispatcherTable {
    /// The slot of each registered key.
    pub closed spec fn slots(&self) -> Map<usize, Slot> {
        slab_entries(self.slots)
    }

    /// The keys waiting for removal, in the order in which they were released.
    pub closed spec fn deferred(&self) -> Seq<usize> {
        self.deferred_remove@
    }

    /// Every key waiting for removal is registered, and none waits twice.
    pub open spec fn wf(&self) -> bool {
        &&& forall|i: int| 0 <= i < self.deferred().len() ==> self.slots().dom().contains(#[trigger] self.deferred()[i])
        &&& self.deferred().no_duplicates()
    }

    /// An empty table.
    pub fn new() -> (r: DispatcherTable)
        ensures
            r.wf(),
            r.slots() == Map::<usize, Slot>::empty(),
            r.deferred() == Seq::<usize>::empty(),
    {
        let t = DispatcherTable { slots: slab_new(), deferred_remove: Vec::new() };
        assert(t.slots() =~= Map::<usize, Slot>::empty());
        t
    }

    /// Registers a new I/O source with an empty slot and returns its key.
    pub fn register(&mut self) -> (key: usize)
        requires
            old(self).wf(),
        ensures
            final(self).wf(),
            !old(self).slots().dom().contains(key),
            final(self).slots() == old(self).slots().insert(key, empty_slot()),
            final(self).deferred() == old(self).deferred(),
    {
        let key = slab_insert(&mut self.slots, Slot::new());
        key
    }

    /// The slot registered under `key`, if any.
    pub fn slot(&self, key: usize) -> (r: Option<Slot>)
        ensures
            r == (if self.slots().dom().contains(key) {
                Some(self.slots()[key])
            } else {
                None::<Slot>
            }),
    {
        slab_get(&self.slots, key)
    }

    /// Puts `dispatcher` on the read side (`readable`) or the write side of
    /// the slot under `key`; that side must be free.
    pub fn attach(&mut self, key: usize, readable: bool, dispatcher: usize)
        requires
            old(self).wf(),
            old(self).slots().dom().contains(key),
            readable ==> old(self).slots()[key].readable_dispatcher is None,
            !readable ==> old(self).slots()[key].writable_dispatcher is None,
        ensures
            final(self).wf(),
            final(self).deferred() == old(self).deferred(),
            final(self).slots() == old(self).slots().insert(
                key,
                if readable {
                    Slot { readable_dispatcher: Some(dispatcher), ..old(self).slots()[key] }
                } else {
                    Slot { writable_dispatcher: Some(dispatcher), ..old(self).slots()[key] }
                },
            ),
    {
        let slot = slab_get(&self.slots, key).unwrap();
        let new_slot = if readable {
            Slot { readable_dispatcher: Some(dispatcher), writable_dispatcher: slot.writable_dispatcher }
        } else {
            Slot { readable_dispatcher: slot.readable_dispatcher, writable_dispatcher: Some(dispatcher) }
        };
        slab_set(&mut self.slots, key, new_slot);
    }

    /// Takes `dispatcher` off the slot under `key`: off the read side if it
    /// sits there, else off the write side, where it must then sit.
    pub fn detach(&mut self, key: usize, dispatcher: usize)
        requires
            old(self).wf(),
            old(self).slots().dom().contains(key),
            old(self).slots()[key].readable_dispatcher == Some(dispatcher)
                || old(self).slots()[key].writable_dispatcher == Some(dispatcher),
        ensures
            final(self).wf(),
            final(self).deferred() == old(self).deferred(),
            final(self).slots() == old(self).slots().insert(
                key,
                if old(self).slots()[key].readable_dispatcher == Some(dispatcher) {
                    Slot { readable_dispatcher: None, ..old(self).slots()[key] }
                } else {
                    Slot { writable_dispatcher: None, ..old(self).slots()[key] }
                },
            ),
    {
        let slot = slab_get(&self.slots, key).unwrap();
        let on_read_side = match slot.readable_dispatcher {
            Some(d) => d == dispatcher,
            None => false,
        };
        let new_slot = if on_read_side {
            Slot { readable_dispatcher: None, writable_dispatcher: slot.writable_dispatcher }
        } else {
            Slot { readable_dispatcher: slot.readable_dispatcher, writable_dispatcher: None }
        };
        slab_set(&mut self.slots, key, new_slot);
    }

    /// Whether the source under `key` may be released: it is registered, no
    /// dispatcher waits on it, and it is not already waiting for removal.
    pub fn can_release(&self, key: usize) -> (r: bool)
        ensures
            r == (self.slots().dom().contains(key)
                && self.slots()[key].readable_dispatcher is None
                && self.slots()[key].writable_dispatcher is None
                && !self.deferred().contains(key)),
    {
        match slab_get(&self.slots, key) {
            Some(slot) => {
                if slot.readable_dispatcher.is_some() || slot.writable_dispatcher.is_some() {
                    return false;
                }
                let mut i: usize = 0;
                while i < self.deferred_remove.len()
                    invariant
                        0 <= i <= self.deferred_remove@.len(),
                        forall|j: int| 0 <= j < i ==> self.deferred_remove@[j] != key,
                    decreases self.deferred_remove@.len() - i,
                {
                    if self.deferred_remove[i] == key {
                        return false;
                    }
                    i = i + 1;
                }
                true
            },
            None => false,
        }
    }

    /// Releases the source under `key`: its key waits for the event loop to
    /// remove it.
    pub fn release(&mut self, key: usize)
        requires
            old(self).wf(),
            old(self).slots().dom().contains(key),
            old(self).slots()[key].readable_dispatcher is None,
            old(self).slots()[key].writable_dispatcher is None,
            !old(self).deferred().contains(key),
        ensures
            final(self).wf(),
            final(self).slots() == old(self).slots(),
            final(self).deferred() == old(self).deferred().push(key),
    {
        self.deferred_remove.push(key);
        proof {
            assert forall|i: int, j: int|
                0 <= i < self.deferred().len() && 0 <= j < self.deferred().len() && i != j
                implies self.deferred()[i] != self.deferred()[j] by {
                if i < old(self).deferred().len() && j < old(self).deferred().len() {
                } else if i == old(self).deferred().len() {
                    assert(old(self).deferred()[j] != key);
                } else {
                    assert(old(self).deferred()[i] != key);
                }
            }
        }
    }

    /// The dispatchers to notify for a readiness event on `key`: the read
    /// side's when the event is readable, the write side's when it is
    /// writable. An unregistered key notifies nobody.
    pub fn notify_targets(&self, key: usize, readable: bool, writable: bool) -> (r: (Option<usize>, Option<usize>))
        ensures
            r.0 == (if readable && self.slots().dom().contains(key) {
                self.slots()[key].readable_dispatcher
            } else {
                None::<usize>
            }),
            r.1 == (if writable && self.slots().dom().contains(key) {
                self.slots()[key].writable_dispatcher
            } else {
                None::<usize>
            }),
    {
        match slab_get(&self.slots, key) {
            Some(slot) => {
                let r = if readable { slot.readable_dispatcher } else { None };
                let w = if writable { slot.writable_dispatcher } else { None };
                (r, w)
            },
            None => (None, None),
        }
    }

    /// Removes every key that waits for removal, and empties that list.
    pub fn drain_deferred(&mut self)
        requires
            old(self).wf(),
        ensures
            final(self).wf(),
            final(self).deferred() == Seq::<usize>::empty(),
            final(self).slots() == old(self).slots().remove_keys(old(self).deferred().to_set()),
    {
        let ghost start = self.slots();
        let ghost keys = self.deferred();
        while self.deferred_remove.len() > 0
            invariant
                self.wf(),
                keys.len() >= self.deferred().len(),
                self.deferred() == keys.subrange(0, self.deferred().len() as int),
                self.slots() == start.remove_keys(
                    keys.subrange(self.deferred().len() as int, keys.len() as int).to_set(),
                ),
                keys.no_duplicates(),
                forall|i: int| 0 <= i < keys.len() ==> start.dom().contains(#[trigger] keys[i]),
            decreases self.deferred().len(),
        {
            let ghost n = self.deferred().len();
            let key = self.deferred_remove.pop().unwrap();
            slab_remove(&mut self.slots, key);
            proof {
                assert(key == keys[n - 1]);
                let done_before = keys.subrange(n as int, keys.len() as int);
                let done_after = keys.subrange(n - 1, keys.len() as int);
                assert(done_after.to_set() =~= done_before.to_set().insert(key)) by {
                    assert forall|k: usize| done_after.to_set().contains(k) <==> (done_before.to_set().contains(k) || k == key) by {
                        if done_after.to_set().contains(k) {
                            let i = choose|i: int| 0 <= i < done_after.len() && done_after[i] == k;
                            if i > 0 {
                                assert(done_before[i - 1] == k);
                            }
                        }
                        if done_before.to_set().contains(k) {
                            let i = choose|i: int| 0 <= i < done_before.len() && done_before[i] == k;
                            assert(done_after[i + 1] == k);
                        }
                        if k == key {
                            assert(done_after[0] == k);
                        }
                    }
                }
                assert(self.slots() =~= start.remove_keys(done_after.to_set()));
                assert(self.deferred() =~= keys.subrange(0, n - 1));
                assert forall|i: int| 0 <= i < self.deferred().len()
                    implies self.slots().dom().contains(#[trigger] self.deferred()[i]) by {
                    let k = self.deferred()[i];
                    assert(k == keys[i]);
                    assert(start.dom().contains(k));
                    if done_after.to_set().contains(k) {
                        let j = choose|j: int| 0 <= j < done_after.len() && done_after[j] == k;
                        assert(keys[n - 1 + j] == k);
                    }
                }
            }
        }
        proof {
            assert(keys.subrange(0, keys.len() as int) =~= keys);
        }
    }
}

/// Removal of released keys keeps every other source: a key stays registered
/// with its slot unless it was waiting for removal.
pub proof fn lemma_drain_keeps_live_keys(table: DispatcherTable, key: usize)
    requires
        table.slots().dom().contains(key),
        !table.deferred().contains(key),
    ensures
        table.slots().remove_keys(table.deferred().to_set()).dom().contains(key),
        table.slots().remove_keys(table.deferred().to_set())[key] == table.slots()[key],
{
}

} // verus!
