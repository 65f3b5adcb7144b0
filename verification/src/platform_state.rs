//! The platform-state handle: an explicit container of the shared
//! sub-states — bus, router tables, storage, event listeners — carried
//! through every call instead of back-pointers.

use vstd::prelude::*;
use crate::extn_client::ExtnClient;
use crate::json::str_eq;
use crate::rpc_router::RouterState;
use crate::storage_manager::StorageState;

verus! {

/// Whether `(event, app)` is registered.
pub open spec fn spec_listening(s: Seq<(String, String)>, event: Seq<char>, app: Seq<char>)
    -> bool
{
    exists|j: int| 0 <= j < s.len() && s[j].0@ == event && s[j].1@ == app
}

/// The registry with every entry for `(event, app)` removed.
pub open spec fn spec_unlisten(s: Seq<(String, String)>, event: Seq<char>, app: Seq<char>)
    -> Seq<(String, String)>
    decreases s,
{
    if s.len() == 0 {
        Seq::empty()
    } else if s.last().0@ == event && s.last().1@ == app {
        spec_unlisten(s.drop_last(), event, app)
    } else {
        spec_unlisten(s.drop_last(), event, app).push(s.last())
    }
}

/// Which applications listen to which events.
#[derive(Debug)]
pub struct ListenerRegistry {
    entries: Vec<(String, String)>,
}

impl ListenerRegistry {
    /// The registry view: `(event, app)` pairs.
    pub closed spec fn entries_view(&self) -> Seq<(String, String)> {
        self.entries@
    }

    /// An empty registry.
    pub fn new() -> (r: ListenerRegistry)
        ensures
            r.entries_view().len() == 0,
    {
        ListenerRegistry { entries: Vec::new() }
    }

    /// Whether `app` listens to `event`.
    pub fn is_listening(&self, event: &str, app: &str) -> (r: bool)
        ensures
            r == spec_listening(self.entries_view(), event@, app@),
    {
        let mut i: usize = 0;
        while i < self.entries.len()
            invariant
                0 <= i <= self.entries@.len(),
                forall|j: int| 0 <= j < i
                    ==> !(self.entries@[j].0@ == event@ && self.entries@[j].1@ == app@),
            decreases self.entries@.len() - i,
        {
            let entry = &self.entries[i];
            if str_eq(entry.0.as_str(), event) && str_eq(entry.1.as_str(), app) {
                return true;
            }
            i += 1;
        }
        false
    }

    /// Registers `app` as a listener of `event`; registering twice
    /// leaves a single entry.
    pub fn listen(&mut self, event: String, app: String)
        ensures
            spec_listening(final(self).entries_view(), event@, app@),
            forall|e: Seq<char>, a: Seq<char>| !(e == event@ && a == app@)
                ==> spec_listening(final(self).entries_view(), e, a)
                    == spec_listening(old(self).entries_view(), e, a),
    {
        if self.is_listening(event.as_str(), app.as_str()) {
            return;
        }
        let ghost before = self.entries@;
        self.entries.push((event, app));
        proof {
            assert(self.entries@.last().0@ == event@ && self.entries@.last().1@ == app@);
            assert(spec_listening(self.entries@, event@, app@)) by {
                assert(self.entries@[self.entries@.len() - 1].0@ == event@);
            }
            assert forall|e: Seq<char>, a: Seq<char>| !(e == event@ && a == app@)
                implies spec_listening(self.entries@, e, a) == spec_listening(before, e, a) by {
                if spec_listening(self.entries@, e, a) {
                    let j = choose|j: int| 0 <= j < self.entries@.len()
                        && #[trigger] self.entries@[j].0@ == e && self.entries@[j].1@ == a;
                    if j < self.entries@.len() - 1 {
                        assert(before[j].0@ == e && before[j].1@ == a);
                    }
                }
                if spec_listening(before, e, a) {
                    let j = choose|j: int| 0 <= j < before.len()
                        && #[trigger] before[j].0@ == e && before[j].1@ == a;
                    assert(self.entries@[j].0@ == e && self.entries@[j].1@ == a);
                }
            }
        }
    }

    /// Removes `app` from the listeners of `event`; removing an absent
    /// listener changes nothing.
    pub fn unlisten(&mut self, event: &str, app: &str)
        ensures
            final(self).entries_view() == spec_unlisten(old(self).entries_view(), event@, app@),
            !spec_listening(final(self).entries_view(), event@, app@),
    {
        let ghost p = self.entries@;
        let mut kept: Vec<(String, String)> = Vec::new();
        let mut i: usize = 0;
        proof {
            assert(p.take(0) =~= Seq::<(String, String)>::empty());
        }
        while i < self.entries.len()
            invariant
                0 <= i <= p.len(),
                self.entries@ == p,
                kept@ == spec_unlisten(p.take(i as int), event@, app@),
                forall|j: int| 0 <= j < kept@.len()
                    ==> !(kept@[j].0@ == event@ && kept@[j].1@ == app@),
            decreases p.len() - i,
        {
            proof {
                assert(p.take(i as int + 1).drop_last() =~= p.take(i as int));
                assert(p.take(i as int + 1).last() == p[i as int]);
            }
            let entry = &self.entries[i];
            if !(str_eq(entry.0.as_str(), event) && str_eq(entry.1.as_str(), app)) {
                kept.push((entry.0.clone(), entry.1.clone()));
                proof {
                    assert(kept@.last().0@ == p[i as int].0@ && kept@.last().1@ == p[i as int].1@);
                    assert(kept@ =~= spec_unlisten(p.take(i as int + 1), event@, app@));
                }
            }
            i += 1;
        }
        proof {
            assert(p.take(p.len() as int) =~= p);
        }
        self.entries = kept;
    }
}

/// Removing a listener pair leaves no entry for it, and removing it
/// again changes nothing: removal is idempotent.
pub proof fn law_unlisten_idempotent(s: Seq<(String, String)>, event: Seq<char>, app: Seq<char>)
    ensures
        !spec_listening(spec_unlisten(s, event, app), event, app),
        spec_unlisten(spec_unlisten(s, event, app), event, app) == spec_unlisten(s, event, app),
    decreases s,
{
    if s.len() > 0 {
        law_unlisten_idempotent(s.drop_last(), event, app);
        let r = spec_unlisten(s, event, app);
        if !(s.last().0@ == event && s.last().1@ == app) {
            let rd = spec_unlisten(s.drop_last(), event, app);
            if spec_listening(r, event, app) {
                let j = choose|j: int| 0 <= j < r.len()
                    && #[trigger] r[j].0@ == event && r[j].1@ == app;
                if j < r.len() - 1 {
                    assert(rd[j].0@ == event && rd[j].1@ == app);
                }
            }
            assert(spec_unlisten(r, event, app) =~= r) by {
                assert(r.drop_last() =~= rd);
                assert(spec_unlisten(rd, event, app) == rd);
            }
        }
    }
}

/// The clonable container of the gateway's shared sub-states.
#[derive(Debug)]
pub struct PlatformState {
    /// The in-process message bus.
    pub extn_client: ExtnClient,
    /// The method table and resource budgets.
    pub router_state: RouterState,
    /// The key/value property store.
    pub storage: StorageState,
    /// Application event listeners.
    pub listeners: ListenerRegistry,
}

impl PlatformState {
    /// A fresh platform state with everything empty.
    pub fn new() -> (r: PlatformState)
        ensures
            r.extn_client.wf(),
            r.extn_client.routes().len() == 0,
            r.extn_client.pending_view().len() == 0,
            r.router_state.wf(),
            r.router_state.methods_view().len() == 0,
            r.storage.props().len() == 0,
            r.storage.namespaces().len() == 0,
            r.listeners.entries_view().len() == 0,
    {
        PlatformState {
            extn_client: ExtnClient::new(),
            router_state: RouterState::new(),
            storage: StorageState::new(),
            listeners: ListenerRegistry::new(),
        }
    }
}

} // verus!
