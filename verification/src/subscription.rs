//! The table of live signal subscriptions: at most one per kind of signal,
//! and none that the table does not know of.

use vstd::prelude::*;

verus! {

/// The signals that are subscribed to.
#[derive(Debug, Clone, Copy, PartialEq, Eq, Hash, Structural)]
pub enum SubscriptionKind {
    /// Changes of the adapter's properties.
    AdapterProperties,
    /// Objects that appear on the bus.
    InterfacesAdded,
    /// Objects that leave the bus.
    InterfacesRemoved,
}

/// The token of one live subscription, as the bus handed it out. The bus
/// takes it back to end the subscription.
#[derive(Debug, Clone, Copy, PartialEq, Eq, Hash, Structural)]
pub struct SubscriptionHandle {
    pub id: u64,
}

/// Whether the caller holds the lock that guards the table. The table is
/// touched from the bus dispatcher's callbacks as well, so each operation is
/// told whether its caller got the lock, and leaves the table alone if not.
#[derive(Debug, Clone, Copy, PartialEq, Eq, Structural)]
pub enum LockAttempt {
    Acquired,
    Contended,
}

/// What an operation on the table leaves for its caller to do.
#[derive(Debug, Clone, Copy, PartialEq, Eq, Structural)]
pub struct Released {
    /// A subscription that the table no longer answers for, or never did:
    /// the caller has to end it on the bus.
    pub handle: Option<SubscriptionHandle>,
    /// The lock was not to be had. The table is as it was, and the caller
    /// has to make that known.
    pub contended: bool,
}

/// The table.
#[derive(Debug, PartialEq, Eq)]
pub struct SubscriptionRegistry {
    adapter_properties: Option<SubscriptionHandle>,
    interfaces_added: Option<SubscriptionHandle>,
    interfaces_removed: Option<SubscriptionHandle>,
}

/// The handle under which a kind is subscribed, if it is.
pub open spec fn handle_of(
    table: Map<SubscriptionKind, SubscriptionHandle>,
    kind: SubscriptionKind,
) -> Option<SubscriptionHandle> {
    if table.contains_key(kind) {
        Some(table[kind])
    } else {
        None
    }
}

/// Entering a subscription: with the lock, the handle takes the kind's
/// place, and the handle that held it before is handed out, unless it is the
/// same. Without the lock the table stays, and the new handle is handed
/// back.
pub open spec fn started(
    table: Map<SubscriptionKind, SubscriptionHandle>,
    kind: SubscriptionKind,
    handle: SubscriptionHandle,
    lock: LockAttempt,
) -> (Map<SubscriptionKind, SubscriptionHandle>, Released) {
    match lock {
        LockAttempt::Acquired => (
            table.insert(kind, handle),
            Released {
                handle: if handle_of(table, kind) == Some(handle) {
                    None
                } else {
                    handle_of(table, kind)
                },
                contended: false,
            },
        ),
        LockAttempt::Contended => (table, Released { handle: Some(handle), contended: true }),
    }
}

/// Taking a subscription out: with the lock, the kind's place is emptied and
/// the handle that held it is handed out. Without the lock the table stays.
pub open spec fn stopped(
    table: Map<SubscriptionKind, SubscriptionHandle>,
    kind: SubscriptionKind,
    lock: LockAttempt,
) -> (Map<SubscriptionKind, SubscriptionHandle>, Released) {
    match lock {
        LockAttempt::Acquired => (
            table.remove(kind),
            Released { handle: handle_of(table, kind), contended: false },
        ),
        LockAttempt::Contended => (table, Released { handle: None, contended: true }),
    }
}

/// The subscriptions that are live on the bus once the caller has done what
/// an operation left to it.
pub open spec fn live_after(live: Set<SubscriptionHandle>, released: Released) -> Set<
    SubscriptionHandle,
> {
    match released.handle {
        Some(handle) => live.remove(handle),
        None => live,
    }
}

impl View for SubscriptionRegistry {
    type V = Map<SubscriptionKind, SubscriptionHandle>;

    closed spec fn view(&self) -> Map<SubscriptionKind, SubscriptionHandle> {
        Map::new(
            |kind: SubscriptionKind| self.slot(kind) is Some,
            |kind: SubscriptionKind| self.slot(kind)->0,
        )
    }
}

impl SubscriptionRegistry {
    closed spec fn slot(&self, kind: SubscriptionKind) -> Option<SubscriptionHandle> {
        match kind {
            SubscriptionKind::AdapterProperties => self.adapter_properties,
            SubscriptionKind::InterfacesAdded => self.interfaces_added,
            SubscriptionKind::InterfacesRemoved => self.interfaces_removed,
        }
    }

    /// The empty table.
    pub fn new() -> (registry: Self)
        ensures
            registry@ == Map::<SubscriptionKind, SubscriptionHandle>::empty(),
    {
        let registry = SubscriptionRegistry {
            adapter_properties: None,
            interfaces_added: None,
            interfaces_removed: None,
        };
        assert(registry@ =~= Map::<SubscriptionKind, SubscriptionHandle>::empty());
        registry
    }

    /// The handle under which `kind` is subscribed, if it is.
    pub fn get(&self, kind: SubscriptionKind) -> (handle: Option<SubscriptionHandle>)
        ensures
            handle == handle_of(self@, kind),
    {
        match kind {
            SubscriptionKind::AdapterProperties => self.adapter_properties,
            SubscriptionKind::InterfacesAdded => self.interfaces_added,
            SubscriptionKind::InterfacesRemoved => self.interfaces_removed,
        }
    }

    fn put(&mut self, kind: SubscriptionKind, handle: Option<SubscriptionHandle>)
        ensures
            handle matches Some(entered) ==> final(self)@ == old(self)@.insert(kind, entered),
            handle is None ==> final(self)@ == old(self)@.remove(kind),
    {
        match kind {
            SubscriptionKind::AdapterProperties => {
                self.adapter_properties = handle;
            },
            SubscriptionKind::InterfacesAdded => {
                self.interfaces_added = handle;
            },
            SubscriptionKind::InterfacesRemoved => {
                self.interfaces_removed = handle;
            },
        }
        proof {
            match handle {
                Some(entered) => {
                    assert(self@ =~= old(self)@.insert(kind, entered));
                },
                None => {
                    assert(self@ =~= old(self)@.remove(kind));
                },
            }
        }
    }

    /// Enters the subscription `handle`, which the caller has just made on
    /// the bus, under `kind`.
    pub fn start(
        &mut self,
        kind: SubscriptionKind,
        handle: SubscriptionHandle,
        lock: LockAttempt,
    ) -> (released: Released)
        ensures
            (final(self)@, released) == started(old(self)@, kind, handle, lock),
    {
        match lock {
            LockAttempt::Acquired => {
                let before = self.get(kind);
                self.put(kind, Some(handle));
                let displaced = match before {
                    Some(held) => if held == handle {
                        None
                    } else {
                        Some(held)
                    },
                    None => None,
                };
                Released { handle: displaced, contended: false }
            },
            LockAttempt::Contended => Released { handle: Some(handle), contended: true },
        }
    }

    /// Takes the subscription under `kind` out of the table. Where there is
    /// none, nothing changes and nothing is left to do.
    pub fn stop(&mut self, kind: SubscriptionKind, lock: LockAttempt) -> (released: Released)
        ensures
            (final(self)@, released) == stopped(old(self)@, kind, lock),
    {
        match lock {
            LockAttempt::Acquired => {
                let before = self.get(kind);
                self.put(kind, None);
                Released { handle: before, contended: false }
            },
            LockAttempt::Contended => Released { handle: None, contended: true },
        }
    }
}

/// Stopping a kind twice in a row: the second time nothing is handed out,
/// and the table stays as the first left it.
pub proof fn second_stop_is_a_no_op(
    table: Map<SubscriptionKind, SubscriptionHandle>,
    kind: SubscriptionKind,
)
    ensures
        ({
            let once = stopped(table, kind, LockAttempt::Acquired).0;
            stopped(once, kind, LockAttempt::Acquired) == (
                once,
                Released { handle: None, contended: false },
            )
        }),
{
    let once = stopped(table, kind, LockAttempt::Acquired).0;
    assert(once.remove(kind) =~= once);
}

/// Starting a kind twice in a row: the first handle is handed out for
/// release, and the second alone stands under the kind.
pub proof fn second_start_displaces_the_first(
    table: Map<SubscriptionKind, SubscriptionHandle>,
    kind: SubscriptionKind,
    first: SubscriptionHandle,
    second: SubscriptionHandle,
)
    requires
        first != second,
    ensures
        ({
            let once = started(table, kind, first, LockAttempt::Acquired).0;
            let (twice, released) = started(once, kind, second, LockAttempt::Acquired);
            &&& released == Released { handle: Some(first), contended: false }
            &&& handle_of(twice, kind) == Some(second)
            &&& forall|other: SubscriptionKind|
                other != kind ==> handle_of(twice, other) == handle_of(table, other)
        }),
{
}

/// No subscription is lost sight of. Suppose the table holds exactly the
/// subscriptions that are live, each under one kind, and a new one is made.
/// Once it is entered and the caller has released what was handed out, the
/// table again holds exactly the live ones, whether or not the lock was had.
pub proof fn start_keeps_account(
    table: Map<SubscriptionKind, SubscriptionHandle>,
    live: Set<SubscriptionHandle>,
    kind: SubscriptionKind,
    handle: SubscriptionHandle,
    lock: LockAttempt,
)
    requires
        table.is_injective(),
        live == table.values(),
        !live.contains(handle),
    ensures
        ({
            let (next, released) = started(table, kind, handle, lock);
            &&& next.is_injective()
            &&& live_after(live.insert(handle), released) == next.values()
        }),
{
    let (next, released) = started(table, kind, handle, lock);
    let settled = live_after(live.insert(handle), released);
    assert(next.is_injective()) by {
        assert(forall|k: SubscriptionKind|
            table.contains_key(k) ==> table.values().contains(#[trigger] table[k]));
    }
    assert(settled =~= next.values()) by {
        assert forall|h: SubscriptionHandle| settled.contains(h) <==> next.values().contains(
            h,
        ) by {
            if next.values().contains(h) {
                let k = choose|k: SubscriptionKind| next.contains_key(k) && next[k] == h;
                if h != handle {
                    assert(table.contains_key(k) && table[k] == h);
                    assert(table.values().contains(h));
                }
            }
            if settled.contains(h) {
                if h == handle {
                    assert(lock == LockAttempt::Acquired);
                    assert(next.contains_key(kind) && next[kind] == h);
                } else {
                    assert(table.values().contains(h));
                    let k = choose|k: SubscriptionKind| table.contains_key(k) && table[k] == h;
                    assert(next.contains_key(k) && next[k] == h);
                }
            }
        }
    }
}

/// The same for a stop: once the caller has released what was handed out,
/// the table holds exactly the live subscriptions.
pub proof fn stop_keeps_account(
    table: Map<SubscriptionKind, SubscriptionHandle>,
    live: Set<SubscriptionHandle>,
    kind: SubscriptionKind,
    lock: LockAttempt,
)
    requires
        table.is_injective(),
        live == table.values(),
    ensures
        ({
            let (next, released) = stopped(table, kind, lock);
            &&& next.is_injective()
            &&& live_after(live, released) == next.values()
        }),
{
    let (next, released) = stopped(table, kind, lock);
    let settled = live_after(live, released);
    assert(settled =~= next.values()) by {
        assert forall|h: SubscriptionHandle| settled.contains(h) <==> next.values().contains(
            h,
        ) by {
            if next.values().contains(h) {
                let k = choose|k: SubscriptionKind| next.contains_key(k) && next[k] == h;
                assert(table.contains_key(k) && table[k] == h);
                assert(table.values().contains(h));
            }
            if settled.contains(h) {
                assert(table.values().contains(h));
                let k = choose|k: SubscriptionKind| table.contains_key(k) && table[k] == h;
                assert(next.contains_key(k) && next[k] == h);
            }
        }
    }
}

} // verus!
