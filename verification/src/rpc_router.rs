//! The RPC router: a dynamic method table merged at runtime, a resource
//! budget honoured at registration and claimed around every dispatch,
//! and the framing of JSON-RPC replies.

use vstd::prelude::*;
use crate::json::{encode_json, jv_entries, spec_json_text, str_eq, JsonValS, JsonValue};
use crate::localization_rpc::LocalizationMethod;

verus! {

/// Whether a method entry runs inline or returns a future the router
/// awaits.
#[derive(Clone, Copy, Debug, PartialEq, Eq, Structural)]
pub enum MethodKind {
    Sync,
    Async,
}

/// The handler a method entry routes to, as a tagged value.
#[derive(Clone, Copy, Debug, PartialEq, Eq, Structural)]
pub enum RpcHandler {
    Localization(LocalizationMethod),
}

/// One registered method.
#[derive(Clone, Debug)]
pub struct MethodEntry {
    pub kind: MethodKind,
    /// Weights this method claims on named resources while it runs.
    pub weights: Vec<(String, u64)>,
    pub handler: RpcHandler,
}

/// One resource budget.
#[derive(Clone, Debug)]
pub struct ResourceEntry {
    pub name: String,
    pub cap: u64,
    pub used: u64,
}

/// The registered entry a method name resolves to: the most recent
/// registration wins.
pub open spec fn spec_method_lookup(ms: Seq<(String, MethodEntry)>, name: Seq<char>)
    -> Option<MethodEntry>
    decreases ms,
{
    if ms.len() == 0 {
        None
    } else if ms.last().0@ == name {
        Some(ms.last().1)
    } else {
        spec_method_lookup(ms.drop_last(), name)
    }
}

/// The budget entry for a resource name.
pub open spec fn spec_res_find(es: Seq<ResourceEntry>, name: Seq<char>) -> Option<(u64, u64)>
    decreases es,
{
    if es.len() == 0 {
        None
    } else if es.last().name@ == name {
        Some((es.last().cap, es.last().used))
    } else {
        spec_res_find(es.drop_last(), name)
    }
}

/// The weight a weight list assigns to a resource name; zero if absent.
pub open spec fn spec_weight_of(ws: Seq<(String, u64)>, name: Seq<char>) -> u64
    decreases ws,
{
    if ws.len() == 0 {
        0
    } else if ws.last().0@ == name {
        ws.last().1
    } else {
        spec_weight_of(ws.drop_last(), name)
    }
}

/// No two weights name the same resource.
pub open spec fn spec_weights_unique(ws: Seq<(String, u64)>) -> bool {
    forall|j: int, k: int| 0 <= j < k < ws.len() ==> ws[j].0@ != ws[k].0@
}

/// Whether the weights can be claimed right now: every named resource
/// exists and has room.
pub open spec fn spec_can_claim(es: Seq<ResourceEntry>, ws: Seq<(String, u64)>) -> bool {
    forall|j: int| 0 <= j < ws.len() ==> match spec_res_find(es, #[trigger] ws[j].0@) {
        Some((cap, used)) => used + ws[j].1 <= cap,
        None => false,
    }
}

/// Whether an entry may be registered: its weights name distinct,
/// existing resources and none exceeds the resource's cap.
pub open spec fn spec_admit(es: Seq<ResourceEntry>, e: MethodEntry) -> bool {
    &&& spec_weights_unique(e.weights@)
    &&& forall|j: int| 0 <= j < e.weights@.len()
        ==> match spec_res_find(es, #[trigger] e.weights@[j].0@) {
            Some((cap, _)) => e.weights@[j].1 <= cap,
            None => false,
        }
}

/// The method table after merging `updates`: each admissible update is
/// registered in order, displacing earlier entries of the same name;
/// inadmissible updates are refused.
pub open spec fn spec_merge(
    ms: Seq<(String, MethodEntry)>,
    updates: Seq<(String, MethodEntry)>,
    es: Seq<ResourceEntry>,
) -> Seq<(String, MethodEntry)>
    decreases updates,
{
    if updates.len() == 0 {
        ms
    } else {
        let merged = spec_merge(ms, updates.drop_last(), es);
        if spec_admit(es, updates.last().1) {
            merged.push(updates.last())
        } else {
            merged
        }
    }
}

/// The shared router state: the method table and the resource budgets.
#[derive(Debug)]
pub struct RouterState {
    methods: Vec<(String, MethodEntry)>,
    resources: Vec<ResourceEntry>,
}

impl RouterState {
    /// The method table view.
    pub closed spec fn methods_view(&self) -> Seq<(String, MethodEntry)> {
        self.methods@
    }

    /// The resource budget view.
    pub closed spec fn resources_view(&self) -> Seq<ResourceEntry> {
        self.resources@
    }

    /// Budgets are sane: distinct names, nothing over cap, and every
    /// registered method was admissible when it was registered.
    pub closed spec fn wf(&self) -> bool {
        &&& forall|j: int, k: int| 0 <= j < k < self.resources@.len()
            ==> self.resources@[j].name@ != self.resources@[k].name@
        &&& forall|j: int| 0 <= j < self.resources@.len()
            ==> self.resources@[j].used <= self.resources@[j].cap
        &&& forall|i: int| 0 <= i < self.methods@.len()
            ==> spec_weights_unique(#[trigger] self.methods@[i].1.weights@)
    }

    /// An empty router: no methods, no budgets.
    pub fn new() -> (r: RouterState)
        ensures
            r.wf(),
            r.methods_view().len() == 0,
            r.resources_view().len() == 0,
    {
        RouterState { methods: Vec::new(), resources: Vec::new() }
    }

    /// Adds a resource budget with nothing used; a name already present
    /// is left untouched.
    pub fn add_resource(&mut self, name: String, cap: u64)
        requires
            old(self).wf(),
        ensures
            final(self).wf(),
            final(self).methods_view() == old(self).methods_view(),
            spec_res_find(old(self).resources_view(), name@) is Some
                ==> final(self).resources_view() == old(self).resources_view(),
            spec_res_find(old(self).resources_view(), name@) is None
                ==> spec_res_find(final(self).resources_view(), name@) == Some((cap, 0u64))
                    && forall|n: Seq<char>| n != name@
                        ==> spec_res_find(final(self).resources_view(), n)
                            == spec_res_find(old(self).resources_view(), n),
    {
        if find_resource(&self.resources, name.as_str()).is_some() {
            return;
        }
        let ghost before = self.resources@;
        self.resources.push(ResourceEntry { name, cap, used: 0 });
        proof {
            assert(self.resources@.drop_last() =~= before);
            assert forall|j: int, k: int| 0 <= j < k < self.resources@.len()
                implies self.resources@[j].name@ != self.resources@[k].name@ by {
                if k == self.resources@.len() - 1 {
                    lemma_res_find_present(before, j);
                }
            }
        }
    }

    /// Merges a provider's method set into the table.  Each entry whose
    /// weights are admissible against the budgets is registered, the
    /// most recent registration of a name winning; the rest are refused.
    pub fn update_methods(&mut self, updates: Vec<(String, MethodEntry)>)
        requires
            old(self).wf(),
        ensures
            final(self).wf(),
            final(self).methods_view() == spec_merge(
                old(self).methods_view(), updates@, old(self).resources_view()),
            final(self).resources_view() == old(self).resources_view(),
    {
        let ghost ups = updates@;
        let ghost es = self.resources@;
        let mut updates = updates;
        proof {
            assert(ups.take(0) =~= Seq::<(String, MethodEntry)>::empty());
            assert(updates@ =~= ups.skip(0));
        }
        while updates.len() > 0
            invariant
                updates@.len() <= ups.len(),
                self.resources@ == es,
                updates@ == ups.skip(ups.len() - updates@.len()),
                self.methods@ == spec_merge(
                    old(self).methods_view(), ups.take(ups.len() - updates@.len()), es),
                old(self).wf(),
                forall|i2: int| 0 <= i2 < self.methods@.len()
                    ==> spec_weights_unique(#[trigger] self.methods@[i2].1.weights@),
            decreases updates@.len(),
        {
            let ghost i = ups.len() - updates@.len();
            let entry = updates.remove(0);
            proof {
                assert(entry == ups[i as int]);
                assert(updates@ =~= ups.skip(i as int + 1));
                assert(ups.take(i as int + 1).drop_last() =~= ups.take(i as int));
                assert(ups.take(i as int + 1).last() == ups[i as int]);
            }
            let ghost before = self.methods@;
            if entry_admissible(&self.resources, &entry.1) {
                self.methods.push(entry);
                proof {
                    assert(self.methods@.drop_last() =~= before);
                    assert(spec_admit(es, entry.1));
                    assert(spec_weights_unique(entry.1.weights@));
                    assert forall|i2: int| 0 <= i2 < self.methods@.len()
                        implies spec_weights_unique(
                            (#[trigger] self.methods@[i2]).1.weights@) by {
                        if i2 < self.methods@.len() - 1 {
                            assert(spec_weights_unique(before[i2].1.weights@));
                            assert(self.methods@[i2] == before[i2]);
                        } else {
                            assert(self.methods@[i2].1 == entry.1);
                        }
                    }
                }
            }
        }
        proof {
            assert(ups.take(ups.len() as int) =~= ups);
        }
    }
}

/// `spec_res_find` on a table with distinct names finds the entry that
/// is there.
pub proof fn lemma_res_find_present(es: Seq<ResourceEntry>, i: int)
    requires
        0 <= i < es.len(),
        forall|j: int, k: int| 0 <= j < k < es.len() ==> es[j].name@ != es[k].name@,
    ensures
        spec_res_find(es, es[i].name@) == Some((es[i].cap, es[i].used)),
    decreases es,
{
    if i < es.len() - 1 {
        assert(es.last().name@ != es[i].name@);
        assert forall|j: int, k: int| 0 <= j < k < es.drop_last().len()
            implies es.drop_last()[j].name@ != es.drop_last()[k].name@ by {
            assert(es[j].name@ != es[k].name@);
        }
        lemma_res_find_present(es.drop_last(), i);
    }
}

fn find_resource(es: &Vec<ResourceEntry>, name: &str) -> (r: Option<usize>)
    ensures
        match r {
            Some(i) => i < es@.len() && es@[i as int].name@ == name@
                && spec_res_find(es@, name@) == Some((es@[i as int].cap, es@[i as int].used)),
            None => spec_res_find(es@, name@) is None,
        },
{
    let mut j: usize = es.len();
    proof {
        assert(es@.take(j as int) =~= es@);
    }
    while j > 0
        invariant
            0 <= j <= es@.len(),
            spec_res_find(es@, name@) == spec_res_find(es@.take(j as int), name@),
        decreases j,
    {
        j = j - 1;
        proof {
            assert(es@.take(j as int + 1).drop_last() =~= es@.take(j as int));
            assert(es@.take(j as int + 1).last() == es@[j as int]);
        }
        if str_eq(es[j].name.as_str(), name) {
            return Some(j);
        }
    }
    None
}

#[verifier::loop_isolation(false)]
fn entry_admissible(es: &Vec<ResourceEntry>, e: &MethodEntry) -> (r: bool)
    ensures
        r == spec_admit(es@, *e),
{
    let ws = &e.weights;
    let mut j: usize = 0;
    while j < ws.len()
        invariant
            0 <= j <= ws@.len(),
            forall|a: int, b: int| 0 <= a < b < j ==> ws@[a].0@ != ws@[b].0@,
            forall|a: int| 0 <= a < j ==> match spec_res_find(es@, #[trigger] ws@[a].0@) {
                Some((cap, _)) => ws@[a].1 <= cap,
                None => false,
            },
        decreases ws@.len() - j,
    {
        let mut k: usize = 0;
        while k < j
            invariant
                0 <= k <= j < ws@.len(),
                forall|b: int| 0 <= b < k ==> ws@[b].0@ != ws@[j as int].0@,
            decreases j - k,
        {
            if str_eq(ws[k].0.as_str(), ws[j].0.as_str()) {
                proof {
                    assert(!spec_weights_unique(ws@));
                }
                return false;
            }
            k += 1;
        }
        match find_resource(es, ws[j].0.as_str()) {
            Some(i) => {
                if ws[j].1 > es[i].cap {
                    proof {
                        assert(spec_res_find(es@, ws@[j as int].0@)
                            == Some((es@[i as int].cap, es@[i as int].used)));
                        assert(!spec_admit(es@, *e));
                    }
                    return false;
                }
            },
            None => {
                proof {
                    assert(spec_res_find(es@, ws@[j as int].0@) is None);
                    assert(!spec_admit(es@, *e));
                }
                return false;
            },
        }
        j += 1;
    }
    true
}

} // verus!

verus! {

use crate::localization_rpc::{
    dispatch_local, resume_local, spec_dispatch_post, spec_resume_post, Continuation,
    DispatchOutcome, PendingCall, RpcError, CODE_METHOD_NOT_FOUND,
};
use crate::platform_state::PlatformState;
use crate::rpc_gateway_api::{ApiMessage, EffectiveTransport, RpcRequest, Session};
use crate::extn_client_message::{ExtnMessage, ExtnPayload, ExtnResponse};
use crate::RippleError;

/// Every weight can be given back: each named resource exists and has
/// at least that much in use.
pub open spec fn spec_can_release(es: Seq<ResourceEntry>, ws: Seq<(String, u64)>) -> bool {
    forall|j: int| 0 <= j < ws.len() ==> match spec_res_find(es, #[trigger] ws[j].0@) {
        Some((_, used)) => ws[j].1 <= used,
        None => false,
    }
}

/// The registered method a name resolves to, found from the back so the
/// most recent registration wins.
fn find_method(ms: &Vec<(String, MethodEntry)>, name: &str) -> (r: Option<usize>)
    ensures
        match r {
            Some(i) => i < ms@.len() && ms@[i as int].0@ == name@
                && spec_method_lookup(ms@, name@) == Some(ms@[i as int].1),
            None => spec_method_lookup(ms@, name@) is None,
        },
{
    let mut j: usize = ms.len();
    proof {
        assert(ms@.take(j as int) =~= ms@);
    }
    while j > 0
        invariant
            0 <= j <= ms@.len(),
            spec_method_lookup(ms@, name@) == spec_method_lookup(ms@.take(j as int), name@),
        decreases j,
    {
        j = j - 1;
        proof {
            assert(ms@.take(j as int + 1).drop_last() =~= ms@.take(j as int));
            assert(ms@.take(j as int + 1).last() == ms@[j as int]);
        }
        if str_eq(ms[j].0.as_str(), name) {
            return Some(j);
        }
    }
    None
}

impl RouterState {
    /// A read-only view of the method table, the snapshot a dispatch
    /// resolves against.
    pub fn get_methods(&self) -> (r: &Vec<(String, MethodEntry)>)
        ensures
            r@ == self.methods_view(),
    {
        &self.methods
    }

    /// Claims the weights of the registered method at `i`: on success
    /// every named resource's use grows by the method's weight on it.
    /// A refused claim leaves the budgets untouched.
    fn claim_at(&mut self, i: usize) -> (r: bool)
        requires
            old(self).wf(),
            i < old(self).methods_view().len(),
        ensures
            final(self).wf(),
            final(self).methods_view() == old(self).methods_view(),
            r == spec_can_claim(
                old(self).resources_view(), old(self).methods_view()[i as int].1.weights@),
            r ==> final(self).resources_view().len() == old(self).resources_view().len()
                && (forall|k: int| 0 <= k < old(self).resources_view().len()
                    ==> (#[trigger] final(self).resources_view()[k]).name
                            == old(self).resources_view()[k].name
                        && final(self).resources_view()[k].cap == old(self).resources_view()[k].cap
                        && final(self).resources_view()[k].used
                            == old(self).resources_view()[k].used + spec_weight_of(
                                old(self).methods_view()[i as int].1.weights@,
                                old(self).resources_view()[k].name@)),
            !r ==> *final(self) == *old(self),
            r ==> spec_can_release(
                final(self).resources_view(), old(self).methods_view()[i as int].1.weights@),
    {
        let ghost ws = self.methods@[i as int].1.weights@;
        let ws_len = self.methods[i].1.weights.len();
        let mut j: usize = 0;
        while j < ws_len
            invariant
                0 <= j <= ws_len,
                i < self.methods@.len(),
                ws_len == ws.len(),
                ws == self.methods@[i as int].1.weights@,
                *self == *old(self),
                old(self).wf(),
                forall|a: int| 0 <= a < j ==> match spec_res_find(
                    self.resources@, (#[trigger] ws[a]).0@) {
                    Some((cap, used)) => used + ws[a].1 <= cap,
                    None => false,
                },
            decreases ws_len - j,
        {
            let w: u64 = self.methods[i].1.weights[j].1;
            match find_resource(&self.resources, self.methods[i].1.weights[j].0.as_str()) {
                Some(idx) => {
                    if w > self.resources[idx].cap - self.resources[idx].used {
                        proof {
                            assert(!spec_can_claim(self.resources@, ws));
                        }
                        return false;
                    }
                },
                None => {
                    proof {
                        assert(!spec_can_claim(self.resources@, ws));
                    }
                    return false;
                },
            }
            j += 1;
        }
        proof {
            assert(spec_can_claim(self.resources@, ws));
            assert(spec_weights_unique(ws));
        }
        let ghost orig = self.resources@;
        proof {
            assert forall|k: int| 0 <= k < orig.len()
                implies orig[k].used + spec_weight_of(ws, (#[trigger] orig[k]).name@)
                    <= orig[k].cap by {
                lemma_weight_bound(orig, ws, k);
            }
            assert forall|k: int| 0 <= k < orig.len()
                implies (#[trigger] orig[k]).used
                    == orig[k].used + spec_weight_of(ws.take(0), orig[k].name@) by {
                assert(ws.take(0).len() == 0);
            }
        }
        let mut j: usize = 0;
        while j < ws_len
            invariant
                0 <= j <= ws_len,
                i < self.methods@.len(),
                ws_len == ws.len(),
                ws == self.methods@[i as int].1.weights@,
                self.methods@ == old(self).methods@,
                spec_weights_unique(ws),
                spec_can_claim(orig, ws),
                self.resources@.len() == orig.len(),
                forall|k: int, l: int| 0 <= k < l < orig.len() ==> orig[k].name@ != orig[l].name@,
                forall|k: int| 0 <= k < orig.len()
                    ==> orig[k].used + spec_weight_of(ws, (#[trigger] orig[k]).name@)
                        <= orig[k].cap,
                forall|k: int| 0 <= k < orig.len()
                    ==> (#[trigger] self.resources@[k]).name == orig[k].name
                        && self.resources@[k].cap == orig[k].cap
                        && self.resources@[k].used
                            == orig[k].used + spec_weight_of(ws.take(j as int), orig[k].name@),
            decreases ws_len - j,
        {
            let w: u64 = self.methods[i].1.weights[j].1;
            proof {
                assert(ws.take(j as int + 1).drop_last() =~= ws.take(j as int));
                assert(ws.take(j as int + 1).last() == ws[j as int]);
                lemma_weight_take_unique(ws, j as int);
            }
            match find_resource(&self.resources, self.methods[i].1.weights[j].0.as_str()) {
                Some(idx) => {
                    proof {
                        assert(self.resources@[idx as int].name@ == ws[j as int].0@);
                        assert(spec_weight_of(ws.take(j as int), orig[idx as int].name@) == 0);
                        lemma_weight_bound(orig, ws, idx as int);
                        lemma_weight_unique(ws, j as int);
                    }
                    let bumped: u64 = self.resources[idx].used + w;
                    self.resources[idx].used = bumped;
                    proof {
                        assert forall|k: int| 0 <= k < orig.len()
                            implies (#[trigger] self.resources@[k]).used
                                == orig[k].used
                                    + spec_weight_of(ws.take(j as int + 1), orig[k].name@) by {
                            if k != idx as int {
                                assert(orig[k].name@ != orig[idx as int].name@);
                            }
                        }
                    }
                },
                None => {
                    proof {
                        assert(spec_res_find(self.resources@, ws[j as int].0@) is None);
                        lemma_res_find_stable(orig, self.resources@, ws[j as int].0@);
                        assert(false);
                    }
                },
            }
            j += 1;
        }
        proof {
            assert(ws.take(ws.len() as int) =~= ws);
            assert forall|a: int| 0 <= a < ws.len()
                implies match spec_res_find(self.resources@, (#[trigger] ws[a]).0@) {
                    Some((_, used)) => ws[a].1 <= used,
                    None => false,
                } by {
                let k = lemma_res_find_witness(orig, ws[a].0@);
                lemma_res_find_present(self.resources@, k);
                lemma_weight_unique(ws, a);
            }
        }
        true
    }

    /// Gives the weights of the registered method at `i` back: every
    /// named resource's use shrinks by the method's weight on it.
    fn release_at(&mut self, i: usize)
        requires
            old(self).wf(),
            i < old(self).methods_view().len(),
            spec_can_release(
                old(self).resources_view(), old(self).methods_view()[i as int].1.weights@),
        ensures
            final(self).wf(),
            final(self).methods_view() == old(self).methods_view(),
            final(self).resources_view().len() == old(self).resources_view().len(),
            forall|k: int| 0 <= k < old(self).resources_view().len()
                ==> (#[trigger] final(self).resources_view()[k]).name
                        == old(self).resources_view()[k].name
                    && final(self).resources_view()[k].cap == old(self).resources_view()[k].cap
                    && final(self).resources_view()[k].used
                        == old(self).resources_view()[k].used - spec_weight_of(
                            old(self).methods_view()[i as int].1.weights@,
                            old(self).resources_view()[k].name@),
    {
        let ghost ws = self.methods@[i as int].1.weights@;
        let ghost orig = self.resources@;
        let ws_len = self.methods[i].1.weights.len();
        proof {
            assert forall|k: int| 0 <= k < orig.len()
                implies spec_weight_of(ws, (#[trigger] orig[k]).name@) <= orig[k].used by {
                lemma_release_bound(orig, ws, k);
            }
            assert forall|k: int| 0 <= k < orig.len()
                implies (#[trigger] orig[k]).used
                    == orig[k].used - spec_weight_of(ws.take(0), orig[k].name@) by {
                assert(ws.take(0).len() == 0);
            }
        }
        let mut j: usize = 0;
        while j < ws_len
            invariant
                0 <= j <= ws_len,
                i < self.methods@.len(),
                ws_len == ws.len(),
                ws == self.methods@[i as int].1.weights@,
                self.methods@ == old(self).methods@,
                spec_weights_unique(ws),
                spec_can_release(orig, ws),
                self.resources@.len() == orig.len(),
                forall|k: int, l: int| 0 <= k < l < orig.len() ==> orig[k].name@ != orig[l].name@,
                forall|k: int| 0 <= k < orig.len()
                    ==> spec_weight_of(ws, (#[trigger] orig[k]).name@) <= orig[k].used,
                forall|k: int| 0 <= k < orig.len() ==> orig[k].used <= orig[k].cap,
                forall|k: int| 0 <= k < orig.len()
                    ==> (#[trigger] self.resources@[k]).name == orig[k].name
                        && self.resources@[k].cap == orig[k].cap
                        && self.resources@[k].used
                            == orig[k].used - spec_weight_of(ws.take(j as int), orig[k].name@),
            decreases ws_len - j,
        {
            let w: u64 = self.methods[i].1.weights[j].1;
            proof {
                assert(ws.take(j as int + 1).drop_last() =~= ws.take(j as int));
                assert(ws.take(j as int + 1).last() == ws[j as int]);
                lemma_weight_take_unique(ws, j as int);
            }
            match find_resource(&self.resources, self.methods[i].1.weights[j].0.as_str()) {
                Some(idx) => {
                    proof {
                        assert(self.resources@[idx as int].name@ == ws[j as int].0@);
                        assert(spec_weight_of(ws.take(j as int), orig[idx as int].name@) == 0);
                        lemma_release_bound(orig, ws, idx as int);
                        lemma_weight_unique(ws, j as int);
                    }
                    let dropped: u64 = self.resources[idx].used - w;
                    self.resources[idx].used = dropped;
                    proof {
                        assert forall|k: int| 0 <= k < orig.len()
                            implies (#[trigger] self.resources@[k]).used
                                == orig[k].used
                                    - spec_weight_of(ws.take(j as int + 1), orig[k].name@) by {
                            if k != idx as int {
                                assert(orig[k].name@ != orig[idx as int].name@);
                            }
                        }
                    }
                },
                None => {
                    proof {
                        lemma_res_find_stable(orig, self.resources@, ws[j as int].0@);
                        assert(false);
                    }
                },
            }
            j += 1;
        }
        proof {
            assert(ws.take(ws.len() as int) =~= ws);
        }
    }
}


/// In a unique weight list, the weight a name resolves to is the weight
/// written beside it.
pub proof fn lemma_weight_unique(ws: Seq<(String, u64)>, a: int)
    requires
        spec_weights_unique(ws),
        0 <= a < ws.len(),
    ensures
        spec_weight_of(ws, ws[a].0@) == ws[a].1,
    decreases ws,
{
    if a < ws.len() - 1 {
        assert(ws.last().0@ != ws[a].0@);
        assert forall|j: int, k: int| 0 <= j < k < ws.drop_last().len()
            implies ws.drop_last()[j].0@ != ws.drop_last()[k].0@ by {
            assert(ws[j].0@ != ws[k].0@);
        }
        lemma_weight_unique(ws.drop_last(), a);
    }
}

/// A name that occurs nowhere in a weight list carries no weight.
pub proof fn lemma_weight_of_absent(ws: Seq<(String, u64)>, name: Seq<char>)
    requires
        forall|a: int| 0 <= a < ws.len() ==> (#[trigger] ws[a]).0@ != name,
    ensures
        spec_weight_of(ws, name) == 0,
    decreases ws,
{
    if ws.len() > 0 {
        assert(ws[ws.len() - 1] == ws.last());
        assert forall|a: int| 0 <= a < ws.drop_last().len()
            implies (#[trigger] ws.drop_last()[a]).0@ != name by {
            assert(ws[a].0@ != name);
        }
        lemma_weight_of_absent(ws.drop_last(), name);
    }
}

/// A name whose only occurrence is at position `j` carries no weight in
/// the prefix before `j`.
pub proof fn lemma_weight_take_unique(ws: Seq<(String, u64)>, j: int)
    requires
        spec_weights_unique(ws),
        0 <= j < ws.len(),
    ensures
        spec_weight_of(ws.take(j), ws[j].0@) == 0,
{
    assert forall|a: int| 0 <= a < ws.take(j).len()
        implies (#[trigger] ws.take(j)[a]).0@ != ws[j].0@ by {
        assert(ws[a].0@ != ws[j].0@);
    }
    lemma_weight_of_absent(ws.take(j), ws[j].0@);
}

/// When every weight can be claimed, each budget has room for the
/// weight its name carries.
pub proof fn lemma_weight_bound(orig: Seq<ResourceEntry>, ws: Seq<(String, u64)>, k: int)
    requires
        0 <= k < orig.len(),
        forall|a: int, b: int| 0 <= a < b < orig.len() ==> orig[a].name@ != orig[b].name@,
        forall|a: int| 0 <= a < orig.len() ==> (#[trigger] orig[a]).used <= orig[a].cap,
        spec_can_claim(orig, ws),
        spec_weights_unique(ws),
    ensures
        orig[k].used + spec_weight_of(ws, orig[k].name@) <= orig[k].cap,
    decreases ws,
{
    if ws.len() == 0 {
    } else if ws.last().0@ == orig[k].name@ {
        assert(ws[ws.len() - 1] == ws.last());
        assert(ws[ws.len() - 1].0@ == orig[k].name@);
        assert(spec_res_find(orig, ws.last().0@) == Some((orig[k].cap, orig[k].used))) by {
            lemma_res_find_present(orig, k);
        }
        assert(orig[k].used + ws.last().1 <= orig[k].cap);
    } else {
        assert forall|a: int| 0 <= a < ws.drop_last().len()
            implies match spec_res_find(orig, (#[trigger] ws.drop_last()[a]).0@) {
                Some((cap, used)) => used + ws.drop_last()[a].1 <= cap,
                None => false,
            } by {
            assert(ws[a] == ws.drop_last()[a]);
        }
        assert forall|a: int, b: int| 0 <= a < b < ws.drop_last().len()
            implies ws.drop_last()[a].0@ != ws.drop_last()[b].0@ by {
            assert(ws[a].0@ != ws[b].0@);
        }
        lemma_weight_bound(orig, ws.drop_last(), k);
    }
}

/// When every weight can be released, each budget holds at least the
/// weight its name carries.
pub proof fn lemma_release_bound(orig: Seq<ResourceEntry>, ws: Seq<(String, u64)>, k: int)
    requires
        0 <= k < orig.len(),
        forall|a: int, b: int| 0 <= a < b < orig.len() ==> orig[a].name@ != orig[b].name@,
        spec_can_release(orig, ws),
        spec_weights_unique(ws),
    ensures
        spec_weight_of(ws, orig[k].name@) <= orig[k].used,
    decreases ws,
{
    if ws.len() == 0 {
    } else if ws.last().0@ == orig[k].name@ {
        assert(ws[ws.len() - 1] == ws.last());
        assert(ws[ws.len() - 1].0@ == orig[k].name@);
        assert(spec_res_find(orig, ws.last().0@) == Some((orig[k].cap, orig[k].used))) by {
            lemma_res_find_present(orig, k);
        }
    } else {
        assert forall|a: int| 0 <= a < ws.drop_last().len()
            implies match spec_res_find(orig, (#[trigger] ws.drop_last()[a]).0@) {
                Some((_, used)) => ws.drop_last()[a].1 <= used,
                None => false,
            } by {
            assert(ws[a] == ws.drop_last()[a]);
        }
        assert forall|a: int, b: int| 0 <= a < b < ws.drop_last().len()
            implies ws.drop_last()[a].0@ != ws.drop_last()[b].0@ by {
            assert(ws[a].0@ != ws[b].0@);
        }
        lemma_release_bound(orig, ws.drop_last(), k);
    }
}

/// Two tables with the same names and caps resolve every name the same
/// way up to the used column: a name found in one is found in the other.
pub proof fn lemma_res_find_stable(a: Seq<ResourceEntry>, b: Seq<ResourceEntry>, name: Seq<char>)
    requires
        a.len() == b.len(),
        forall|k: int| 0 <= k < a.len() ==> (#[trigger] b[k]).name == a[k].name,
    ensures
        spec_res_find(a, name) is Some <==> spec_res_find(b, name) is Some,
    decreases a,
{
    if a.len() > 0 {
        assert(b.last().name == a.last().name);
        if a.last().name@ != name {
            assert forall|k: int| 0 <= k < a.drop_last().len()
                implies (#[trigger] b.drop_last()[k]).name == a.drop_last()[k].name by {
                assert(b[k].name == a[k].name);
            }
            lemma_res_find_stable(a.drop_last(), b.drop_last(), name);
        }
    }
}

/// The index at which a findable name sits.
pub proof fn lemma_res_find_witness(es: Seq<ResourceEntry>, name: Seq<char>) -> (k: int)
    requires
        spec_res_find(es, name) is Some,
    ensures
        0 <= k < es.len(),
        es[k].name@ == name,
    decreases es,
{
    if es.last().name@ == name {
        es.len() - 1
    } else {
        lemma_res_find_witness(es.drop_last(), name)
    }
}

} // verus!

verus! {

/// The JSON body of a successful reply frame.
pub open spec fn spec_result_frame(id: int, v: JsonValS) -> JsonValS {
    JsonValS::Obj(seq![
        ("jsonrpc"@, JsonValS::Str("2.0"@)),
        ("id"@, JsonValS::Int(id)),
        ("result"@, v),
    ])
}

/// The JSON body of an error reply frame.
pub open spec fn spec_error_frame(id: int, code: int, message: Seq<char>) -> JsonValS {
    JsonValS::Obj(seq![
        ("jsonrpc"@, JsonValS::Str("2.0"@)),
        ("id"@, JsonValS::Int(id)),
        ("error"@, JsonValS::Obj(seq![
            ("code"@, JsonValS::Int(code)),
            ("message"@, JsonValS::Str(message)),
        ])),
    ])
}

/// The reply text a handler outcome is framed into.
pub open spec fn spec_reply_text(id: int, result: Result<JsonValue, RpcError>) -> Seq<char> {
    match result {
        Ok(v) => spec_json_text(spec_result_frame(id, v.deep_view())),
        Err(e) => spec_json_text(spec_error_frame(id, e.code as int, e.message@)),
    }
}

/// The largest JSON-RPC id the framer accepts.
pub const MAX_CALL_ID: u64 = 0x7fff_ffff_ffff_ffff;

fn reply_json(call_id: u64, result: &Result<JsonValue, RpcError>) -> (r: JsonValue)
    requires
        call_id <= MAX_CALL_ID,
    ensures
        r.deep_view() == match result {
            Ok(v) => spec_result_frame(call_id as int, v.deep_view()),
            Err(e) => spec_error_frame(call_id as int, e.code as int, e.message@),
        },
{
    let mut entries: Vec<(String, JsonValue)> = Vec::new();
    entries.push((String::from_str("jsonrpc"), JsonValue::Str(String::from_str("2.0"))));
    entries.push((String::from_str("id"), JsonValue::Int(call_id as i64)));
    match result {
        Ok(v) => {
            entries.push((String::from_str("result"), v.clone()));
            let r = JsonValue::Obj(entries);
            proof {
                jv_entries_all(r->Obj_0@);
                assert(crate::json::jv(r)->Obj_0
                    =~= spec_result_frame(call_id as int, v.deep_view())->Obj_0);
                assert(crate::json::jv(r) == spec_result_frame(call_id as int, v.deep_view()));
            }
            r
        },
        Err(e) => {
            let mut err_entries: Vec<(String, JsonValue)> = Vec::new();
            err_entries.push((String::from_str("code"), JsonValue::Int(e.code)));
            err_entries.push((String::from_str("message"), JsonValue::Str(e.message.clone())));
            let inner = JsonValue::Obj(err_entries);
            proof {
                jv_entries_all(inner->Obj_0@);
                assert(crate::json::jv(inner)->Obj_0 =~= seq![
                    ("code"@, JsonValS::Int(e.code as int)),
                    ("message"@, JsonValS::Str(e.message@)),
                ]);
                assert(crate::json::jv(inner) == JsonValS::Obj(seq![
                    ("code"@, JsonValS::Int(e.code as int)),
                    ("message"@, JsonValS::Str(e.message@)),
                ]));
            }
            entries.push((String::from_str("error"), inner));
            let r = JsonValue::Obj(entries);
            proof {
                jv_entries_all(r->Obj_0@);
                assert(crate::json::jv(r)->Obj_0
                    =~= spec_error_frame(call_id as int, e.code as int, e.message@)->Obj_0);
                assert(crate::json::jv(r)
                    == spec_error_frame(call_id as int, e.code as int, e.message@));
            }
            r
        },
    }
}

proof fn jv_entries_all(o: Seq<(String, JsonValue)>)
    ensures
        jv_entries(o).len() == o.len(),
        forall|i: int| 0 <= i < o.len() ==> jv_entries(o)[i] == (o[i].0@, crate::json::jv(o[i].1)),
{
    crate::json::lemma_jv_entries(o);
}

/// Frames a handler outcome as the single JSON-RPC reply text.
pub fn build_reply(call_id: u64, result: &Result<JsonValue, RpcError>) -> (r: String)
    requires
        call_id <= MAX_CALL_ID,
    ensures
        r@ == spec_reply_text(call_id as int, *result),
{
    let v = reply_json(call_id, result);
    encode_json(&v)
}

/// Where a dispatch ended.
#[derive(Debug)]
pub enum RouteOutcome {
    /// The call completed: the framed reply and the outcome it frames.
    Completed { message: ApiMessage, result: Result<JsonValue, RpcError> },
    /// The handler waits for the device-information contract.
    Suspended(PendingCall),
}

/// Resolves a request against the method table: absent methods and
/// refused resource claims answer "method not found" — deliberately
/// indistinguishable to the caller — and a found method's claim is
/// taken around its handler and given back on every completed path.
pub fn resolve_route(state: &mut PlatformState, req: &RpcRequest) -> (r: RouteOutcome)
    requires
        old(state).router_state.wf(),
        req.ctx.call_id <= MAX_CALL_ID,
    ensures
        final(state).router_state.wf(),
        final(state).router_state.methods_view() == old(state).router_state.methods_view(),
        final(state).extn_client == old(state).extn_client,
        r matches RouteOutcome::Completed { message, result }
            ==> message.jsonrpc_msg@ == spec_reply_text(req.ctx.call_id as int, result)
                && message.protocol == req.ctx.protocol
                && message.request_id == req.ctx.request_id,
        match spec_method_lookup(old(state).router_state.methods_view(), req.method@) {
            None => (r matches RouteOutcome::Completed { message, result }
                    && result matches Err(e) && e.code == CODE_METHOD_NOT_FOUND
                    && e.message@ == "Method not found"@)
                && *final(state) == *old(state),
            Some(entry) => {
                if spec_can_claim(old(state).router_state.resources_view(), entry.weights@) {
                    final(state).router_state.resources_view()
                        == old(state).router_state.resources_view()
                    && (entry.handler matches RpcHandler::Localization(m)
                        && spec_dispatch_post(
                            m,
                            *old(state),
                            *final(state),
                            req.ctx.app_id,
                            req.ctx.call_id,
                            req.ctx.request_id,
                            req.ctx.protocol,
                            req.params.deep_view(),
                            match r {
                                RouteOutcome::Completed { message: _, result }
                                    => DispatchOutcome::Done(result),
                                RouteOutcome::Suspended(pc) => DispatchOutcome::Pending(pc),
                            },
                        ))
                } else {
                    (r matches RouteOutcome::Completed { message, result }
                        && result matches Err(e) && e.code == CODE_METHOD_NOT_FOUND
                        && e.message@ == "Method not found"@)
                    && *final(state) == *old(state)
                }
            },
        },
{
    let found = find_method(&state.router_state.methods, req.method.as_str());
    match found {
        None => {
            let result: Result<JsonValue, RpcError> = Err(RpcError::method_not_found());
            let text = build_reply(req.ctx.call_id, &result);
            let message = ApiMessage::new(req.ctx.protocol, text, req.ctx.request_id.clone());
            RouteOutcome::Completed { message, result }
        },
        Some(i) => {
            let claimed = state.router_state.claim_at(i);
            if !claimed {
                let result: Result<JsonValue, RpcError> = Err(RpcError::method_not_found());
                let text = build_reply(req.ctx.call_id, &result);
                let message = ApiMessage::new(req.ctx.protocol, text, req.ctx.request_id.clone());
                return RouteOutcome::Completed { message, result };
            }
            let ghost claimed_res = state.router_state.resources_view();
            let ghost pre_dispatch = *state;
            let handler = state.router_state.methods[i].1.handler;
            let m = match handler {
                RpcHandler::Localization(m0) => m0,
            };
            let out = dispatch_local(state, m, &req.ctx, &req.params);
            let ghost post_dispatch = *state;
            state.router_state.release_at(i);
            proof {
                assert forall|k: int| 0 <= k < old(state).router_state.resources_view().len()
                    implies final(state).router_state.resources_view()[k]
                        == old(state).router_state.resources_view()[k] by {
                }
                assert(final(state).router_state.resources_view()
                    =~= old(state).router_state.resources_view());
                // the dispatch postcondition transfers across the
                // claim/release pair: only the budgets moved, and they
                // are restored
                assert(pre_dispatch.storage == old(state).storage);
                assert(pre_dispatch.listeners == old(state).listeners);
                assert(post_dispatch.storage == final(state).storage);
                assert(post_dispatch.listeners == final(state).listeners);
                assert(spec_dispatch_post(
                    m, pre_dispatch, post_dispatch, req.ctx.app_id, req.ctx.call_id,
                    req.ctx.request_id, req.ctx.protocol, req.params.deep_view(), out));
                assert(spec_dispatch_post(
                    m, *old(state), *final(state), req.ctx.app_id, req.ctx.call_id,
                    req.ctx.request_id, req.ctx.protocol, req.params.deep_view(), out));
            }
            match out {
                DispatchOutcome::Done(result) => {
                    let text = build_reply(req.ctx.call_id, &result);
                    let message = ApiMessage::new(
                        req.ctx.protocol, text, req.ctx.request_id.clone());
                    RouteOutcome::Completed { message, result }
                },
                DispatchOutcome::Pending(pc) => RouteOutcome::Suspended(pc),
            }
        },
    }
}

} // verus!

verus! {

/// The router's public entry points.
#[derive(Debug)]
pub struct RpcRouter;

/// Where a completed reply is delivered.
#[derive(Debug)]
pub enum Delivery {
    /// Written to the session's socket.
    Websocket,
    /// Handed to the out-of-process bridge owning this container.
    Bridge(String),
}

impl RpcRouter {
    /// Dispatches a request and picks the reply's transport from the
    /// session it arrived on.
    pub fn route(state: &mut PlatformState, req: &RpcRequest, session: &Session)
        -> (r: (RouteOutcome, Delivery))
        requires
            old(state).router_state.wf(),
            req.ctx.call_id <= MAX_CALL_ID,
        ensures
            final(state).router_state.wf(),
            final(state).router_state.methods_view() == old(state).router_state.methods_view(),
            final(state).extn_client == old(state).extn_client,
            r.0 matches RouteOutcome::Completed { message, result }
                ==> message.jsonrpc_msg@ == spec_reply_text(req.ctx.call_id as int, result)
                    && message.protocol == req.ctx.protocol
                    && message.request_id == req.ctx.request_id,
            spec_method_lookup(old(state).router_state.methods_view(), req.method@) is None
                ==> (r.0 matches RouteOutcome::Completed { message, result }
                    && (result matches Err(e) && e.code == CODE_METHOD_NOT_FOUND)),
            match spec_method_lookup(old(state).router_state.methods_view(), req.method@) {
                Some(entry) => spec_can_claim(
                    old(state).router_state.resources_view(), entry.weights@)
                    ==> (entry.handler matches RpcHandler::Localization(m)
                        && spec_dispatch_post(
                            m,
                            *old(state),
                            *final(state),
                            req.ctx.app_id,
                            req.ctx.call_id,
                            req.ctx.request_id,
                            req.ctx.protocol,
                            req.params.deep_view(),
                            match r.0 {
                                RouteOutcome::Completed { message: _, result }
                                    => DispatchOutcome::Done(result),
                                RouteOutcome::Suspended(pc) => DispatchOutcome::Pending(pc),
                            },
                        )),
                None => true,
            },
            match session.transport {
                EffectiveTransport::Websocket => r.1 is Websocket,
                EffectiveTransport::Bridge(container) => r.1 matches Delivery::Bridge(c)
                    && c@ == container@,
            },
    {
        let outcome = resolve_route(state, req);
        let delivery = match session.get_transport() {
            EffectiveTransport::Websocket => Delivery::Websocket,
            EffectiveTransport::Bridge(container) => Delivery::Bridge(container.clone()),
        };
        (outcome, delivery)
    }

    /// Routes a request that arrived over the extension bus: the reply
    /// is wrapped as a bus response for the message's return channel
    /// instead of being framed for a transport.  A message that is not
    /// a request, or carries no return channel, is dropped.
    pub fn route_extn_protocol(state: &mut PlatformState, req: &RpcRequest, extn_msg: ExtnMessage)
        -> (r: ExtnRouteOutcome)
        requires
            old(state).router_state.wf(),
            req.ctx.call_id <= MAX_CALL_ID,
        ensures
            final(state).router_state.wf(),
            final(state).router_state.methods_view() == old(state).router_state.methods_view(),
            final(state).extn_client == old(state).extn_client,
            !(extn_msg.payload is Request) || extn_msg.callback is None
                ==> r is Dropped && *final(state) == *old(state),
            r matches ExtnRouteOutcome::Reply { message: m, result }
                ==> extn_msg.payload is Request && extn_msg.callback is Some
                    && m.id == extn_msg.id
                    && m.requestor == extn_msg.requestor
                    && m.target == extn_msg.target
                    && m.callback is None
                    && (m.payload matches ExtnPayload::Response(ExtnResponse::Value(v))
                        && v.deep_view() == spec_reply_value(result)),
            spec_method_lookup(old(state).router_state.methods_view(), req.method@) is None
                && extn_msg.payload is Request && extn_msg.callback is Some
                ==> (r matches ExtnRouteOutcome::Reply { message: m, result }
                    && (result matches Err(e) && e.code == CODE_METHOD_NOT_FOUND)
                    && (m.payload matches ExtnPayload::Response(ExtnResponse::Value(v))
                        && v.deep_view() == spec_error_value(
                            CODE_METHOD_NOT_FOUND as int, "Method not found"@))),
            extn_msg.payload is Request && extn_msg.callback is Some
                ==> match spec_method_lookup(
                    old(state).router_state.methods_view(), req.method@) {
                    Some(entry) => spec_can_claim(
                        old(state).router_state.resources_view(), entry.weights@)
                        ==> (entry.handler matches RpcHandler::Localization(m)
                            && match r {
                                ExtnRouteOutcome::Reply { message: _, result }
                                    => spec_dispatch_post(
                                        m, *old(state), *final(state), req.ctx.app_id,
                                        req.ctx.call_id, req.ctx.request_id, req.ctx.protocol,
                                        req.params.deep_view(), DispatchOutcome::Done(result)),
                                ExtnRouteOutcome::Waiting(pc) => spec_dispatch_post(
                                    m, *old(state), *final(state), req.ctx.app_id,
                                    req.ctx.call_id, req.ctx.request_id, req.ctx.protocol,
                                    req.params.deep_view(), DispatchOutcome::Pending(pc)),
                                ExtnRouteOutcome::Dropped => false,
                            }),
                    None => true,
                },
    {
        if extn_msg.callback.is_none() {
            return ExtnRouteOutcome::Dropped;
        }
        match &extn_msg.payload {
            ExtnPayload::Request(_) => {},
            _ => {
                return ExtnRouteOutcome::Dropped;
            },
        }
        match resolve_route(state, req) {
            RouteOutcome::Completed { message: _, result } => {
                let value = reply_value(&result);
                match extn_msg.get_response(ExtnResponse::Value(value)) {
                    Ok(m) => ExtnRouteOutcome::Reply { message: m, result },
                    Err(_) => {
                        proof {
                            // get_response refuses only non-requests, and
                            // the payload was checked to be a request
                            assert(false);
                        }
                        ExtnRouteOutcome::Dropped
                    },
                }
            },
            RouteOutcome::Suspended(pc) => ExtnRouteOutcome::Waiting(pc),
        }
    }

    /// Resumes a suspended call with the bus response and frames the
    /// reply exactly as the original dispatch would have.
    pub fn resume_route(
        state: &mut PlatformState,
        cont: Continuation,
        response: Result<ExtnResponse, RippleError>,
    ) -> (r: RouteOutcome)
        requires
            cont.call_id <= MAX_CALL_ID,
        ensures
            final(state).router_state == old(state).router_state,
            final(state).extn_client == old(state).extn_client,
            r matches RouteOutcome::Completed { message, result }
                ==> message.jsonrpc_msg@ == spec_reply_text(cont.call_id as int, result)
                    && message.protocol == cont.protocol
                    && message.request_id == cont.request_id,
            match r {
                RouteOutcome::Completed { message: _, result } => spec_resume_post(
                    cont, response, *old(state), *final(state), DispatchOutcome::Done(result)),
                RouteOutcome::Suspended(pc) => spec_resume_post(
                    cont, response, *old(state), *final(state), DispatchOutcome::Pending(pc)),
            },
    {
        let call_id = cont.call_id;
        let protocol = cont.protocol;
        let request_id = cont.request_id.clone();
        match resume_local(state, cont, response) {
            DispatchOutcome::Done(result) => {
                let text = build_reply(call_id, &result);
                let message = ApiMessage::new(protocol, text, request_id);
                RouteOutcome::Completed { message, result }
            },
            DispatchOutcome::Pending(pc) => RouteOutcome::Suspended(pc),
        }
    }
}

/// Where an extension-originated dispatch ended.
#[derive(Debug)]
pub enum ExtnRouteOutcome {
    /// The bus response to send on the request's return channel, and
    /// the handler outcome it reports.
    Reply { message: ExtnMessage, result: Result<JsonValue, RpcError> },
    /// The handler waits for the device-information contract.
    Waiting(PendingCall),
    /// The message violated the request shape and was dropped.
    Dropped,
}

/// The JSON value a handler error is reported as on the bus.
pub open spec fn spec_error_value(code: int, message: Seq<char>) -> JsonValS {
    JsonValS::Obj(seq![
        ("code"@, JsonValS::Int(code)),
        ("message"@, JsonValS::Str(message)),
    ])
}

/// The JSON value a completed handler outcome is reported as on the bus:
/// the result itself, or the error object.
pub open spec fn spec_reply_value(result: Result<JsonValue, RpcError>) -> JsonValS {
    match result {
        Ok(v) => v.deep_view(),
        Err(e) => spec_error_value(e.code as int, e.message@),
    }
}

fn reply_value(result: &Result<JsonValue, RpcError>) -> (r: JsonValue)
    ensures
        r.deep_view() == spec_reply_value(*result),
{
    match result {
        Ok(v) => v.clone(),
        Err(e) => {
            let mut entries: Vec<(String, JsonValue)> = Vec::new();
            entries.push((String::from_str("code"), JsonValue::Int(e.code)));
            entries.push((String::from_str("message"), JsonValue::Str(e.message.clone())));
            let r = JsonValue::Obj(entries);
            proof {
                jv_entries_all(r->Obj_0@);
                assert(crate::json::jv(r)->Obj_0
                    =~= spec_error_value(e.code as int, e.message@)->Obj_0);
                assert(crate::json::jv(r) == spec_error_value(e.code as int, e.message@));
            }
            r
        },
    }
}

/// After an update registers `name` with an admissible entry, the
/// merged table routes `name` to that entry: no dispatch reaches a
/// displaced registration.
pub proof fn law_registration_wins(
    ms: Seq<(String, MethodEntry)>,
    ups: Seq<(String, MethodEntry)>,
    es: Seq<ResourceEntry>,
    name: String,
    e: MethodEntry,
)
    ensures
        spec_method_lookup(spec_merge(ms, ups.push((name, e)), es), name@)
            == if spec_admit(es, e) {
                Some(e)
            } else {
                spec_method_lookup(spec_merge(ms, ups, es), name@)
            },
{
    assert(ups.push((name, e)).drop_last() =~= ups);
    assert(ups.push((name, e)).last() == (name, e));
}

/// A name no update touches resolves after the merge exactly as before
/// it: a dispatch routes to a registered method or to nothing, never to
/// an entry the merge made up.
pub proof fn law_merge_preserves_others(
    ms: Seq<(String, MethodEntry)>,
    ups: Seq<(String, MethodEntry)>,
    es: Seq<ResourceEntry>,
    name: Seq<char>,
)
    requires
        forall|j: int| 0 <= j < ups.len() ==> (#[trigger] ups[j]).0@ != name,
    ensures
        spec_method_lookup(spec_merge(ms, ups, es), name) == spec_method_lookup(ms, name),
    decreases ups,
{
    if ups.len() > 0 {
        assert(ups[ups.len() - 1] == ups.last());
        assert forall|j: int| 0 <= j < ups.drop_last().len()
            implies (#[trigger] ups.drop_last()[j]).0@ != name by {
            assert(ups[j].0@ != name);
        }
        law_merge_preserves_others(ms, ups.drop_last(), es, name);
        let merged = spec_merge(ms, ups.drop_last(), es);
        if spec_admit(es, ups.last().1) {
            assert(merged.push(ups.last()).drop_last() =~= merged);
            assert(merged.push(ups.last()).last() == ups.last());
        }
    }
}

} // verus!
