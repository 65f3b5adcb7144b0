//! The contract-addressed extension client: the in-process message bus.
//!
//! The bus owns a routing table from capability contract to the
//! extension that fulfils it, and a correlation table of in-flight
//! requests.  Sending installs a pending entry under a fresh id;
//! a response delivers to that entry exactly once and removes it; a
//! reaper removes entries whose deadline has passed and completes them
//! with a timeout.  The delivery of framed messages over channels is the
//! caller's concern: every operation here returns the routed message or
//! the outcome instead of performing I/O.

use vstd::prelude::*;
use crate::RippleError;
use crate::extn_client_message::{ExtnEvent, ExtnMessage, ExtnPayload, ExtnRequest};
use crate::ripple_contract::RippleContract;

verus! {

/// Default correlation deadline: five seconds.
pub const DEFAULT_EXTN_TIMEOUT_MS: u64 = 5000;

/// The contract a request payload targets.
pub open spec fn spec_request_contract(r: ExtnRequest) -> RippleContract {
    match r {
        ExtnRequest::Device(d) => match d {
            crate::device_request::DeviceRequest::DeviceInfo(_) => RippleContract::DeviceInfo,
            crate::device_request::DeviceRequest::Browser(_) => RippleContract::Browser,
            crate::device_request::DeviceRequest::Wifi(_) => RippleContract::Wifi,
        },
        ExtnRequest::AuthorizedInfo(_) => RippleContract::Caps,
        ExtnRequest::Permission(_) => RippleContract::Permissions,
        ExtnRequest::Advertising(_) => RippleContract::Advertising,
    }
}

/// The contract an event payload is broadcast under.
pub open spec fn spec_event_contract(e: ExtnEvent) -> RippleContract {
    match e {
        ExtnEvent::AppEvent(_) => RippleContract::AppEvents,
        ExtnEvent::Value(_) => RippleContract::AppEvents,
        ExtnEvent::PowerState(_) => RippleContract::DeviceEvents,
        ExtnEvent::Status(_) => RippleContract::DeviceEvents,
    }
}

/// Exec mirror of [`spec_request_contract`].
pub fn request_contract(r: &ExtnRequest) -> (c: RippleContract)
    ensures
        c == spec_request_contract(*r),
{
    match r {
        ExtnRequest::Device(d) => match d {
            crate::device_request::DeviceRequest::DeviceInfo(_) => RippleContract::DeviceInfo,
            crate::device_request::DeviceRequest::Browser(_) => RippleContract::Browser,
            crate::device_request::DeviceRequest::Wifi(_) => RippleContract::Wifi,
        },
        ExtnRequest::AuthorizedInfo(_) => RippleContract::Caps,
        ExtnRequest::Permission(_) => RippleContract::Permissions,
        ExtnRequest::Advertising(_) => RippleContract::Advertising,
    }
}

/// Exec mirror of [`spec_event_contract`].
pub fn event_contract(e: &ExtnEvent) -> (c: RippleContract)
    ensures
        c == spec_event_contract(*e),
{
    match e {
        ExtnEvent::AppEvent(_) => RippleContract::AppEvents,
        ExtnEvent::Value(_) => RippleContract::AppEvents,
        ExtnEvent::PowerState(_) => RippleContract::DeviceEvents,
        ExtnEvent::Status(_) => RippleContract::DeviceEvents,
    }
}

/// The extension a contract routes to: the most recent registration wins.
pub open spec fn spec_route_lookup(r: Seq<(RippleContract, String)>, c: RippleContract)
    -> Option<Seq<char>>
    decreases r,
{
    if r.len() == 0 {
        None
    } else if r.last().0 == c {
        Some(r.last().1@)
    } else {
        spec_route_lookup(r.drop_last(), c)
    }
}

/// Whether a correlation id is pending.
pub open spec fn spec_pending_contains(p: Seq<(u64, u64)>, id: u64) -> bool {
    exists|j: int| 0 <= j < p.len() && p[j].0 == id
}

/// The pending table with every entry under `id` removed.
pub open spec fn spec_remove_id(p: Seq<(u64, u64)>, id: u64) -> Seq<(u64, u64)>
    decreases p,
{
    if p.len() == 0 {
        Seq::empty()
    } else if p.last().0 == id {
        spec_remove_id(p.drop_last(), id)
    } else {
        spec_remove_id(p.drop_last(), id).push(p.last())
    }
}

/// The pending entries whose deadline lies after `now`.
pub open spec fn spec_keep_live(p: Seq<(u64, u64)>, now: u64) -> Seq<(u64, u64)>
    decreases p,
{
    if p.len() == 0 {
        Seq::empty()
    } else if p.last().1 <= now {
        spec_keep_live(p.drop_last(), now)
    } else {
        spec_keep_live(p.drop_last(), now).push(p.last())
    }
}

/// The ids of the pending entries whose deadline has passed at `now`.
pub open spec fn spec_expired_ids(p: Seq<(u64, u64)>, now: u64) -> Seq<u64>
    decreases p,
{
    if p.len() == 0 {
        Seq::empty()
    } else if p.last().1 <= now {
        spec_expired_ids(p.drop_last(), now).push(p.last().0)
    } else {
        spec_expired_ids(p.drop_last(), now)
    }
}

/// The per-contract deadline, falling back to the default.
pub open spec fn spec_timeout_lookup(t: Seq<(RippleContract, u64)>, c: RippleContract, dflt: u64)
    -> u64
    decreases t,
{
    if t.len() == 0 {
        dflt
    } else if t.last().0 == c {
        t.last().1
    } else {
        spec_timeout_lookup(t.drop_last(), c, dflt)
    }
}

/// The outcome of delivering a response for a correlation id.
#[derive(Clone, Copy, Debug, PartialEq, Eq, Structural)]
pub enum RespondOutcome {
    /// The pending entry existed; the response went to its one-shot.
    Delivered,
    /// No such entry: the response is dropped with a warning.
    UnknownId,
}

/// The in-process message bus.
#[derive(Debug)]
pub struct ExtnClient {
    /// Contract to fulfilling extension; later entries displace earlier.
    routing: Vec<(RippleContract, String)>,
    /// Correlation id to deadline, one entry per in-flight request.
    pending: Vec<(u64, u64)>,
    /// Source of fresh correlation ids.
    next_id: u64,
    /// Per-contract deadlines.
    timeouts: Vec<(RippleContract, u64)>,
    /// Deadline for contracts without an override.
    default_timeout_ms: u64,
}

impl ExtnClient {
    /// Every pending id was allocated: it is below the next fresh id,
    /// so a newly allocated id is never already pending.
    pub closed spec fn wf(&self) -> bool {
        forall|j: int| 0 <= j < self.pending@.len() ==> self.pending@[j].0 < self.next_id
    }

    /// The routing table view.
    pub closed spec fn routes(&self) -> Seq<(RippleContract, String)> {
        self.routing@
    }

    /// The correlation table view.
    pub closed spec fn pending_view(&self) -> Seq<(u64, u64)> {
        self.pending@
    }

    /// The deadline applied to requests targeting `c`.
    pub closed spec fn timeout_for(&self, c: RippleContract) -> u64 {
        spec_timeout_lookup(self.timeouts@, c, self.default_timeout_ms)
    }

    /// A fresh bus with no routes and no pending requests.
    pub fn new() -> (r: ExtnClient)
        ensures
            r.wf(),
            r.routes().len() == 0,
            r.pending_view().len() == 0,
            r.next_id_view() == 0,
            forall|c: RippleContract| r.timeout_for(c) == DEFAULT_EXTN_TIMEOUT_MS,
    {
        ExtnClient {
            routing: Vec::new(),
            pending: Vec::new(),
            next_id: 0,
            timeouts: Vec::new(),
            default_timeout_ms: DEFAULT_EXTN_TIMEOUT_MS,
        }
    }

    /// Overrides the deadline for one contract.
    pub fn set_timeout(&mut self, c: RippleContract, ms: u64)
        requires
            old(self).wf(),
        ensures
            final(self).wf(),
            final(self).timeout_for(c) == ms,
            forall|d: RippleContract| d != c ==> final(self).timeout_for(d) == old(self).timeout_for(d),
            final(self).routes() == old(self).routes(),
            final(self).pending_view() == old(self).pending_view(),
            final(self).next_id_view() == old(self).next_id_view(),
    {
        self.timeouts.push((c, ms));
        proof {
            assert forall|d: RippleContract| true implies
                spec_timeout_lookup(self.timeouts@, d, self.default_timeout_ms) == (
                    if d == c { ms } else { spec_timeout_lookup(old(self).timeouts@, d, self.default_timeout_ms) }
                ) by {
                assert(self.timeouts@.drop_last() =~= old(self).timeouts@);
            }
        }
    }

    /// Declares that `extn_id` fulfils each contract in `contracts`.
    /// The most recent registration for a contract wins; a previous
    /// holder is silently displaced.
    pub fn register(&mut self, extn_id: &String, contracts: &Vec<RippleContract>)
        requires
            old(self).wf(),
        ensures
            final(self).wf(),
            forall|c: RippleContract| contracts@.contains(c)
                ==> spec_route_lookup(final(self).routes(), c) == Some(extn_id@),
            forall|c: RippleContract| !contracts@.contains(c)
                ==> spec_route_lookup(final(self).routes(), c)
                    == spec_route_lookup(old(self).routes(), c),
            final(self).pending_view() == old(self).pending_view(),
            final(self).next_id_view() == old(self).next_id_view(),
            forall|c: RippleContract| final(self).timeout_for(c) == old(self).timeout_for(c),
    {
        let mut i: usize = 0;
        while i < contracts.len()
            invariant
                0 <= i <= contracts@.len(),
                self.wf(),
                self.pending@ == old(self).pending@,
                self.timeouts@ == old(self).timeouts@,
                self.next_id == old(self).next_id,
                self.default_timeout_ms == old(self).default_timeout_ms,
                forall|c: RippleContract| contracts@.take(i as int).contains(c)
                    ==> spec_route_lookup(self.routing@, c) == Some(extn_id@),
                forall|c: RippleContract| !contracts@.take(i as int).contains(c)
                    ==> spec_route_lookup(self.routing@, c)
                        == spec_route_lookup(old(self).routing@, c),
            decreases contracts@.len() - i,
        {
            let ghost before = self.routing@;
            let cloned = extn_id.clone();
            proof {
                assert(cloned@ == extn_id@);
            }
            self.routing.push((contracts[i], cloned));
            proof {
                assert(self.routing@.drop_last() =~= before);
                assert(self.routing@.last().1@ == extn_id@);
                assert(contracts@.take(i as int + 1).drop_last() =~= contracts@.take(i as int));
                assert forall|c: RippleContract| contracts@.take(i as int + 1).contains(c)
                    implies spec_route_lookup(self.routing@, c) == Some(extn_id@) by {
                    if c == self.routing@.last().0 {
                        assert(spec_route_lookup(self.routing@, c)
                            == Some(self.routing@.last().1@));
                    } else {
                        let j = choose|j: int| 0 <= j < contracts@.take(i as int + 1).len()
                            && #[trigger] contracts@.take(i as int + 1)[j] == c;
                        assert(contracts@.take(i as int)[j] == c);
                        assert(contracts@.take(i as int).contains(c));
                        assert(spec_route_lookup(before, c) == Some(extn_id@));
                        assert(self.routing@.drop_last() == before);
                        assert(spec_route_lookup(self.routing@, c)
                            == spec_route_lookup(before, c));
                    }
                }
                assert forall|c: RippleContract| !contracts@.take(i as int + 1).contains(c)
                    implies spec_route_lookup(self.routing@, c)
                        == spec_route_lookup(old(self).routing@, c) by {
                    assert(!contracts@.take(i as int).contains(c));
                    assert(contracts@.take(i as int + 1)[i as int] == contracts@[i as int]);
                    assert(c != contracts@[i as int]);
                }
            }
            i += 1;
        }
        proof {
            assert(contracts@.take(contracts@.len() as int) =~= contracts@);
        }
    }

    /// Looks up the extension currently fulfilling `c`.
    pub fn route_for(&self, c: RippleContract) -> (r: Option<&String>)
        ensures
            match r {
                Some(s) => spec_route_lookup(self.routes(), c) == Some(s@),
                None => spec_route_lookup(self.routes(), c) is None,
            },
    {
        let mut j: usize = self.routing.len();
        proof {
            assert(self.routing@.take(j as int) =~= self.routing@);
        }
        while j > 0
            invariant
                0 <= j <= self.routing@.len(),
                spec_route_lookup(self.routing@, c)
                    == spec_route_lookup(self.routing@.take(j as int), c),
            decreases j,
        {
            j = j - 1;
            let entry = &self.routing[j];
            proof {
                assert(self.routing@.take(j as int + 1).drop_last() =~= self.routing@.take(j as int));
                assert(self.routing@.take(j as int + 1).last() == self.routing@[j as int]);
            }
            if entry.0 == c {
                return Some(&entry.1);
            }
        }
        None
    }
}

} // verus!

verus! {

impl ExtnClient {
    /// Sends a request on the bus: routes it by the contract the payload
    /// targets, allocates a fresh correlation id, installs a pending
    /// entry with the contract's deadline, and returns the routed
    /// message.  Fails with `NoContract` when no extension fulfils the
    /// targeted contract, leaving the bus untouched.
    pub fn send_extn_request(&mut self, requestor: String, request: ExtnRequest, now_ms: u64)
        -> (r: Result<ExtnMessage, RippleError>)
        requires
            old(self).wf(),
            old(self).next_id_view() < u64::MAX,
            now_ms + old(self).timeout_for(spec_request_contract(request)) <= u64::MAX,
        ensures
            final(self).wf(),
            final(self).routes() == old(self).routes(),
            forall|c: RippleContract| final(self).timeout_for(c) == old(self).timeout_for(c),
            match r {
                Ok(msg) => {
                    let c = spec_request_contract(request);
                    &&& spec_route_lookup(old(self).routes(), c) is Some
                    &&& msg == (ExtnMessage {
                        id: old(self).next_id_view(),
                        requestor: requestor,
                        target: c,
                        payload: ExtnPayload::Request(request),
                        callback: Some(old(self).next_id_view()),
                    })
                    &&& !spec_pending_contains(old(self).pending_view(), msg.id)
                    &&& final(self).pending_view() == old(self).pending_view().push(
                        (msg.id, (now_ms + old(self).timeout_for(c)) as u64))
                    &&& final(self).next_id_view() == old(self).next_id_view() + 1
                },
                Err(e) => {
                    &&& e == RippleError::NoContract
                    &&& spec_route_lookup(old(self).routes(), spec_request_contract(request)) is None
                    &&& final(self).pending_view() == old(self).pending_view()
                    &&& final(self).next_id_view() == old(self).next_id_view()
                },
            },
    {
        let c = request_contract(&request);
        if self.route_for(c).is_none() {
            return Err(RippleError::NoContract);
        }
        let timeout = self.timeout_ms_for(c);
        let id = self.next_id;
        self.next_id = self.next_id + 1;
        self.pending.push((id, now_ms + timeout));
        proof {
            assert forall|j: int| 0 <= j < self.pending@.len()
                implies self.pending@[j].0 < self.next_id by {
                if j < self.pending@.len() - 1 {
                    assert(old(self).pending_view()[j].0 < old(self).next_id_view());
                }
            }
            if spec_pending_contains(old(self).pending_view(), id) {
                let j = choose|j: int| 0 <= j < old(self).pending_view().len()
                    && #[trigger] old(self).pending_view()[j].0 == id;
                assert(old(self).pending_view()[j].0 < id);
            }
        }
        Ok(ExtnMessage {
            id,
            requestor,
            target: c,
            payload: ExtnPayload::Request(request),
            callback: Some(id),
        })
    }

    /// Like `send_extn_request`, but the response is discarded: no
    /// pending entry is installed, so a later response to the allocated
    /// id is dropped as unknown.
    pub fn request_transient(&mut self, requestor: String, request: ExtnRequest)
        -> (r: Result<ExtnMessage, RippleError>)
        requires
            old(self).wf(),
            old(self).next_id_view() < u64::MAX,
        ensures
            final(self).wf(),
            final(self).routes() == old(self).routes(),
            final(self).pending_view() == old(self).pending_view(),
            forall|c: RippleContract| final(self).timeout_for(c) == old(self).timeout_for(c),
            match r {
                Ok(msg) => {
                    let c = spec_request_contract(request);
                    &&& spec_route_lookup(old(self).routes(), c) is Some
                    &&& msg == (ExtnMessage {
                        id: old(self).next_id_view(),
                        requestor: requestor,
                        target: c,
                        payload: ExtnPayload::Request(request),
                        callback: Some(old(self).next_id_view()),
                    })
                    &&& !spec_pending_contains(old(self).pending_view(), msg.id)
                    &&& final(self).next_id_view() == old(self).next_id_view() + 1
                },
                Err(e) => {
                    &&& e == RippleError::NoContract
                    &&& spec_route_lookup(old(self).routes(), spec_request_contract(request)) is None
                    &&& final(self).next_id_view() == old(self).next_id_view()
                },
            },
    {
        let c = request_contract(&request);
        if self.route_for(c).is_none() {
            return Err(RippleError::NoContract);
        }
        let id = self.next_id;
        self.next_id = self.next_id + 1;
        proof {
            if spec_pending_contains(self.pending@, id) {
                let j = choose|j: int| 0 <= j < self.pending@.len()
                    && #[trigger] self.pending@[j].0 == id;
                assert(old(self).pending_view()[j].0 < id);
            }
        }
        Ok(ExtnMessage {
            id,
            requestor,
            target: c,
            payload: ExtnPayload::Request(request),
            callback: Some(id),
        })
    }

    /// Broadcasts an event to the extension subscribed to the event's
    /// contract.  Events carry no correlation id and no return channel.
    pub fn event(&self, requestor: String, event: ExtnEvent)
        -> (r: Result<ExtnMessage, RippleError>)
        ensures
            match r {
                Ok(msg) => {
                    &&& spec_route_lookup(self.routes(), spec_event_contract(event)) is Some
                    &&& msg == (ExtnMessage {
                        id: 0,
                        requestor: requestor,
                        target: spec_event_contract(event),
                        payload: ExtnPayload::Event(event),
                        callback: None,
                    })
                },
                Err(e) => {
                    &&& e == RippleError::NoContract
                    &&& spec_route_lookup(self.routes(), spec_event_contract(event)) is None
                },
            },
    {
        let c = event_contract(&event);
        if self.route_for(c).is_none() {
            return Err(RippleError::NoContract);
        }
        Ok(ExtnMessage {
            id: 0,
            requestor,
            target: c,
            payload: ExtnPayload::Event(event),
            callback: None,
        })
    }

    /// Delivers a response for correlation id `id`: if the entry is
    /// pending the response goes to its one-shot and the entry is
    /// removed; otherwise the response is dropped as unknown.  Either
    /// way no entry under `id` remains.
    pub fn respond(&mut self, id: u64) -> (r: RespondOutcome)
        requires
            old(self).wf(),
        ensures
            final(self).wf(),
            final(self).routes() == old(self).routes(),
            final(self).next_id_view() == old(self).next_id_view(),
            forall|c: RippleContract| final(self).timeout_for(c) == old(self).timeout_for(c),
            final(self).pending_view() == spec_remove_id(old(self).pending_view(), id),
            r == RespondOutcome::Delivered
                <==> spec_pending_contains(old(self).pending_view(), id),
    {
        let ghost p = self.pending@;
        let mut kept: Vec<(u64, u64)> = Vec::new();
        let mut found = false;
        let mut i: usize = 0;
        proof {
            assert(p.take(0) =~= Seq::<(u64, u64)>::empty());
        }
        while i < self.pending.len()
            invariant
                0 <= i <= p.len(),
                self.pending@ == p,
                kept@ == spec_remove_id(p.take(i as int), id),
                found <==> spec_pending_contains(p.take(i as int), id),
                forall|j: int| 0 <= j < kept@.len() ==> kept@[j].0 < self.next_id,
                forall|j: int| 0 <= j < p.len() ==> p[j].0 < self.next_id,
            decreases p.len() - i,
        {
            let entry = self.pending[i];
            proof {
                assert(p.take(i as int + 1).drop_last() =~= p.take(i as int));
                assert(p.take(i as int + 1).last() == p[i as int]);
            }
            if entry.0 == id {
                found = true;
                proof {
                    assert(p.take(i as int + 1)[i as int] == p[i as int]);
                }
            } else {
                kept.push(entry);
                proof {
                    if spec_pending_contains(p.take(i as int + 1), id) {
                        let j = choose|j: int| 0 <= j < p.take(i as int + 1).len()
                            && #[trigger] p.take(i as int + 1)[j].0 == id;
                        if j < i {
                            assert(p.take(i as int)[j].0 == id);
                        }
                    }
                    if spec_pending_contains(p.take(i as int), id) {
                        let j = choose|j: int| 0 <= j < p.take(i as int).len()
                            && #[trigger] p.take(i as int)[j].0 == id;
                        assert(p.take(i as int + 1)[j].0 == id);
                    }
                }
            }
            i += 1;
        }
        proof {
            assert(p.take(p.len() as int) =~= p);
        }
        self.pending = kept;
        if found {
            RespondOutcome::Delivered
        } else {
            RespondOutcome::UnknownId
        }
    }

    /// Removes every pending entry whose deadline has passed at
    /// `now_ms` and returns their correlation ids; each of those
    /// requests is completed with `Timeout` by the caller.  Every entry
    /// that survives has a deadline strictly after `now_ms`.
    pub fn reap_expired(&mut self, now_ms: u64) -> (r: Vec<u64>)
        requires
            old(self).wf(),
        ensures
            final(self).wf(),
            final(self).routes() == old(self).routes(),
            final(self).next_id_view() == old(self).next_id_view(),
            forall|c: RippleContract| final(self).timeout_for(c) == old(self).timeout_for(c),
            final(self).pending_view() == spec_keep_live(old(self).pending_view(), now_ms),
            r@ == spec_expired_ids(old(self).pending_view(), now_ms),
            forall|j: int| 0 <= j < final(self).pending_view().len()
                ==> final(self).pending_view()[j].1 > now_ms,
    {
        let ghost p = self.pending@;
        let mut kept: Vec<(u64, u64)> = Vec::new();
        let mut expired: Vec<u64> = Vec::new();
        let mut i: usize = 0;
        proof {
            assert(p.take(0) =~= Seq::<(u64, u64)>::empty());
        }
        while i < self.pending.len()
            invariant
                0 <= i <= p.len(),
                self.pending@ == p,
                kept@ == spec_keep_live(p.take(i as int), now_ms),
                expired@ == spec_expired_ids(p.take(i as int), now_ms),
                forall|j: int| 0 <= j < kept@.len() ==> kept@[j].1 > now_ms,
                forall|j: int| 0 <= j < kept@.len() ==> kept@[j].0 < self.next_id,
                forall|j: int| 0 <= j < p.len() ==> p[j].0 < self.next_id,
            decreases p.len() - i,
        {
            let entry = self.pending[i];
            proof {
                assert(p.take(i as int + 1).drop_last() =~= p.take(i as int));
                assert(p.take(i as int + 1).last() == p[i as int]);
            }
            if entry.1 <= now_ms {
                expired.push(entry.0);
            } else {
                kept.push(entry);
            }
            i += 1;
        }
        proof {
            assert(p.take(p.len() as int) =~= p);
        }
        self.pending = kept;
        expired
    }

    /// The next correlation id that will be allocated.
    pub closed spec fn next_id_view(&self) -> u64 {
        self.next_id
    }

    fn timeout_ms_for(&self, c: RippleContract) -> (r: u64)
        ensures
            r == self.timeout_for(c),
    {
        let mut j: usize = self.timeouts.len();
        proof {
            assert(self.timeouts@.take(j as int) =~= self.timeouts@);
        }
        while j > 0
            invariant
                0 <= j <= self.timeouts@.len(),
                spec_timeout_lookup(self.timeouts@, c, self.default_timeout_ms)
                    == spec_timeout_lookup(self.timeouts@.take(j as int), c, self.default_timeout_ms),
            decreases j,
        {
            j = j - 1;
            proof {
                assert(self.timeouts@.take(j as int + 1).drop_last() =~= self.timeouts@.take(j as int));
                assert(self.timeouts@.take(j as int + 1).last() == self.timeouts@[j as int]);
            }
            let entry = self.timeouts[j];
            if entry.0 == c {
                return entry.1;
            }
        }
        self.default_timeout_ms
    }
}

/// Everything the pending table keeps after removing `id` came from the
/// table, carries a different id, and every entry under a different id
/// survives.
pub proof fn lemma_remove_id_membership(p: Seq<(u64, u64)>, id: u64)
    ensures
        forall|e: (u64, u64)| #[trigger] spec_remove_id(p, id).contains(e)
            ==> p.contains(e) && e.0 != id,
        forall|e: (u64, u64)| p.contains(e) && e.0 != id
            ==> spec_remove_id(p, id).contains(e),
    decreases p,
{
    broadcast use vstd::seq_lib::group_seq_properties;

    if p.len() > 0 {
        lemma_remove_id_membership(p.drop_last(), id);
        assert(p.drop_last() =~= p.take(p.len() - 1));
        assert forall|e: (u64, u64)| p.contains(e) && e.0 != id
            implies spec_remove_id(p, id).contains(e) by {
            let j = choose|j: int| 0 <= j < p.len() && #[trigger] p[j] == e;
            if j < p.len() - 1 {
                assert(p.take(p.len() - 1)[j] == e);
                assert(p.drop_last().contains(e));
                assert(spec_remove_id(p.drop_last(), id).contains(e));
            } else {
                assert(e == p.last());
                assert(spec_remove_id(p, id).last() == e);
            }
        }
        assert forall|e: (u64, u64)| #[trigger] spec_remove_id(p, id).contains(e)
            implies p.contains(e) && e.0 != id by {
            if p.last().0 == id || e != p.last() {
                assert(spec_remove_id(p.drop_last(), id).contains(e));
                assert(p.drop_last().contains(e));
                let j = choose|j: int| 0 <= j < p.drop_last().len()
                    && #[trigger] p.drop_last()[j] == e;
                assert(p[j] == e);
            } else {
                assert(p.contains(p.last()));
            }
        }
    }
}

/// Exactly one outcome per request: delivering a response removes the
/// pending entry, so a second response with the same correlation id
/// finds nothing and is dropped.
pub proof fn law_response_delivered_once(p: Seq<(u64, u64)>, id: u64)
    ensures
        !spec_pending_contains(spec_remove_id(p, id), id),
        spec_remove_id(spec_remove_id(p, id), id) == spec_remove_id(p, id),
{
    lemma_remove_id_membership(p, id);
    lemma_remove_id_membership(spec_remove_id(p, id), id);
    if spec_pending_contains(spec_remove_id(p, id), id) {
        let j = choose|j: int| 0 <= j < spec_remove_id(p, id).len()
            && #[trigger] spec_remove_id(p, id)[j].0 == id;
        assert(spec_remove_id(p, id).contains(spec_remove_id(p, id)[j]));
    }
    lemma_remove_absent(spec_remove_id(p, id), id);
}

/// Removing an id that is not pending changes nothing.
pub proof fn lemma_remove_absent(p: Seq<(u64, u64)>, id: u64)
    requires
        !spec_pending_contains(p, id),
    ensures
        spec_remove_id(p, id) == p,
    decreases p,
{
    if p.len() > 0 {
        assert(p[p.len() - 1].0 != id);
        assert forall|j: int| 0 <= j < p.drop_last().len()
            implies p.drop_last()[j].0 != id by {
            assert(p[j].0 != id);
        }
        lemma_remove_absent(p.drop_last(), id);
        assert(spec_remove_id(p, id) =~= p);
    } else {
        assert(spec_remove_id(p, id) =~= p);
    }
}

/// A reaper pass at `now` completes exactly the requests whose deadline
/// has passed — their ids come back, their entries go away — and every
/// entry it keeps still has time left.  Together with
/// `law_response_delivered_once` this pins the fate of a request to one
/// of: a delivered response, or one timeout after its deadline.
pub proof fn law_reaper_clears_expired(p: Seq<(u64, u64)>, now: u64)
    ensures
        forall|j: int| 0 <= j < spec_keep_live(p, now).len()
            ==> #[trigger] spec_keep_live(p, now)[j].1 > now,
        forall|e: (u64, u64)| p.contains(e) && e.1 <= now
            ==> spec_expired_ids(p, now).contains(e.0),
        forall|e: (u64, u64)| p.contains(e) && e.1 > now
            ==> spec_keep_live(p, now).contains(e),
    decreases p,
{
    broadcast use vstd::seq_lib::group_seq_properties;

    if p.len() > 0 {
        law_reaper_clears_expired(p.drop_last(), now);
        assert(p.drop_last() =~= p.take(p.len() - 1));
        assert forall|j: int| 0 <= j < spec_keep_live(p, now).len()
            implies spec_keep_live(p, now)[j].1 > now by {
            if p.last().1 > now {
                if j < spec_keep_live(p, now).len() - 1 {
                    assert(spec_keep_live(p, now)[j] == spec_keep_live(p.drop_last(), now)[j]);
                } else {
                    assert(spec_keep_live(p, now)[j] == p.last());
                }
            } else {
                assert(spec_keep_live(p, now)[j] == spec_keep_live(p.drop_last(), now)[j]);
            }
        }
        assert forall|e: (u64, u64)| p.contains(e) && e.1 <= now
            implies spec_expired_ids(p, now).contains(e.0) by {
            let j = choose|j: int| 0 <= j < p.len() && #[trigger] p[j] == e;
            if j < p.len() - 1 {
                assert(p.take(p.len() - 1)[j] == e);
                assert(p.drop_last().contains(e));
            }
        }
        assert forall|e: (u64, u64)| p.contains(e) && e.1 > now
            implies spec_keep_live(p, now).contains(e) by {
            let j = choose|j: int| 0 <= j < p.len() && #[trigger] p[j] == e;
            if j < p.len() - 1 {
                assert(p.take(p.len() - 1)[j] == e);
                assert(p.drop_last().contains(e));
            }
        }
    }
}

/// The most recent registration for a contract wins: after an extension
/// registers a contract already held by another, the bus routes the
/// contract to the newcomer.
pub proof fn law_last_registration_wins(
    r: Seq<(RippleContract, String)>,
    c: RippleContract,
    first: String,
    second: String,
)
    ensures
        spec_route_lookup(r.push((c, first)).push((c, second)), c) == Some(second@),
{
    assert(r.push((c, first)).push((c, second)).last() == (c, second));
}

} // verus!
