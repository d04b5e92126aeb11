//! Gateway-side routing: the method-ownership registry (first writer wins,
//! explicit unregister required to replace), the correlation table tying each
//! in-flight request to its single-use reply channel, and the dispatch and
//! reply paths that guarantee each request exactly one terminal outcome.

use vstd::prelude::*;

use crate::ext::oneshot_send;
use crate::messages::{
    APIGatewayServiceRegistrationResponse, FireboltMethodHandlerAPIRegistration, ServiceCall,
    ServiceCallResponse, ServiceRegistration,
};
use crate::types::{JqRule, RoutingError, RpcRequest, ServiceId, ServiceRequestId};

verus! {

broadcast use vstd::std_specs::hash::group_hash_axioms;

/// A request handed to the gateway for routing, with the single-use channel
/// its one outcome must be delivered on.
pub struct ServiceRoutingRequest {
    pub request_id: ServiceRequestId,
    pub payload: RpcRequest,
    pub respond_to: tokio::sync::oneshot::Sender<ServiceRoutingResponse>,
}

/// The successful terminal outcome of a routed request.
#[derive(Debug)]
pub struct ServiceRoutingSuccessResponse {
    pub request_id: ServiceRequestId,
    pub response: serde_json::Value,
}

/// The failing terminal outcome of a routed request.
#[derive(Debug, Clone)]
pub struct ServiceRoutingErrorResponse {
    pub request_id: ServiceRequestId,
    pub error: String,
}

/// The terminal outcome of a routed request: produced exactly once.
#[derive(Debug)]
pub enum ServiceRoutingResponse {
    Success(ServiceRoutingSuccessResponse),
    Error(ServiceRoutingErrorResponse),
}

/// How the gateway answers a connection attempt that it accepts.
#[derive(Debug)]
pub enum APIGatewayServiceConnectionDisposition {
    Accept(ServiceId),
    Connected(ServiceId),
}

/// Why the gateway refuses a connection attempt.
#[derive(Debug)]
pub enum APIGatewayServiceConnectionError {
    ConnectionError,
    NotAService,
}

/// What one accepted registration records about a method: who owns it and how
/// its raw replies are reshaped.
pub struct MethodOwnership {
    pub service: ServiceId,
    pub rule: Option<JqRule>,
}

/// One row of the ownership registry.
pub struct OwnerEntry {
    pub method: String,
    pub service: ServiceId,
    pub rule: Option<JqRule>,
}

pub open spec fn entry_ownership(e: OwnerEntry) -> MethodOwnership {
    MethodOwnership { service: e.service, rule: e.rule }
}

/// The registry rows as a map from method name to its ownership; with
/// distinct method names, the unique row for each name.
pub open spec fn owners_map(s: Seq<OwnerEntry>) -> Map<Seq<char>, MethodOwnership>
    decreases s.len(),
{
    if s.len() == 0 {
        Map::empty()
    } else {
        owners_map(s.drop_last()).insert(s.last().method@, entry_ownership(s.last()))
    }
}

/// No two registry rows claim the same method name.
pub open spec fn distinct_methods(s: Seq<OwnerEntry>) -> bool {
    forall|i: int, j: int| 0 <= i < j < s.len() ==> s[i].method@ != s[j].method@
}

/// A method name is in the map exactly when some row claims it.
pub proof fn lemma_owners_map_dom(s: Seq<OwnerEntry>)
    ensures
        forall|k: Seq<char>| #[trigger] owners_map(s).dom().contains(k)
            <==> (exists|i: int| 0 <= i < s.len() && s[i].method@ == k),
    decreases s.len(),
{
    if s.len() > 0 {
        lemma_owners_map_dom(s.drop_last());
        assert forall|k: Seq<char>| #[trigger] owners_map(s).dom().contains(k)
            implies (exists|i: int| 0 <= i < s.len() && s[i].method@ == k) by {
            if k == s.last().method@ {
                assert(s[s.len() - 1].method@ == k);
            } else {
                assert(owners_map(s.drop_last()).dom().contains(k));
                let i = choose|i: int| 0 <= i < s.drop_last().len() && s.drop_last()[i].method@ == k;
                assert(s.drop_last()[i] == s[i]);
                assert(s[i].method@ == k);
            }
        }
        assert forall|k: Seq<char>| (exists|i: int| 0 <= i < s.len() && s[i].method@ == k)
            implies #[trigger] owners_map(s).dom().contains(k) by {
            let i = choose|i: int| 0 <= i < s.len() && s[i].method@ == k;
            if i < s.len() - 1 {
                assert(s.drop_last()[i].method@ == k);
                assert(owners_map(s.drop_last()).dom().contains(k));
            } else {
                assert(k == s.last().method@);
            }
        }
    }
}

/// The method names a given service owns in a registry map.
pub open spec fn methods_owned_by(m: Map<Seq<char>, MethodOwnership>, sid: Seq<char>) -> Set<Seq<char>> {
    Set::new(|k: Seq<char>| m.dom().contains(k) && m[k].service.service_id@ == sid)
}

/// The registry rows left after one service withdraws.
pub open spec fn kept_entries(s: Seq<OwnerEntry>, sid: Seq<char>) -> Seq<OwnerEntry>
    decreases s.len(),
{
    if s.len() == 0 {
        Seq::empty()
    } else if s.last().service.service_id@ == sid {
        kept_entries(s.drop_last(), sid)
    } else {
        kept_entries(s.drop_last(), sid).push(s.last())
    }
}

/// Withdrawing a service removes exactly the methods it owned.
pub proof fn lemma_kept_entries_map(s: Seq<OwnerEntry>, sid: Seq<char>)
    requires
        distinct_methods(s),
    ensures
        distinct_methods(kept_entries(s, sid)),
        owners_map(kept_entries(s, sid)) == owners_map(s).remove_keys(
            methods_owned_by(owners_map(s), sid),
        ),
    decreases s.len(),
{
    if s.len() == 0 {
        assert(owners_map(kept_entries(s, sid)) =~= owners_map(s).remove_keys(
            methods_owned_by(owners_map(s), sid),
        ));
    } else {
        let t = s.drop_last();
        let e = s.last();
        assert(distinct_methods(t));
        lemma_kept_entries_map(t, sid);
        lemma_owners_map_dom(t);
        assert(!owners_map(t).dom().contains(e.method@));
        lemma_owners_map_dom(kept_entries(t, sid));
        assert forall|i: int| 0 <= i < kept_entries(t, sid).len()
            implies #[trigger] kept_entries(t, sid)[i].method@ != e.method@ by {
            lemma_kept_in_source(t, sid, i);
        }
        if e.service.service_id@ == sid {
            assert(kept_entries(s, sid) == kept_entries(t, sid));
            assert(owners_map(kept_entries(s, sid)) =~= owners_map(s).remove_keys(
                methods_owned_by(owners_map(s), sid),
            ));
        } else {
            assert(kept_entries(s, sid) == kept_entries(t, sid).push(e));
            assert(kept_entries(t, sid).push(e).drop_last() =~= kept_entries(t, sid));
            assert(owners_map(kept_entries(s, sid)) == owners_map(kept_entries(t, sid)).insert(
                e.method@,
                entry_ownership(e),
            ));
            assert(distinct_methods(kept_entries(t, sid).push(e)));
            assert(owners_map(kept_entries(s, sid)) =~= owners_map(s).remove_keys(
                methods_owned_by(owners_map(s), sid),
            ));
        }
    }
}

/// How a batch registration folds over the registry, first writer winning:
/// the registry after the batch, and the handlers that were accepted, in
/// submission order.
pub open spec fn register_fold(
    m: Map<Seq<char>, MethodOwnership>,
    sid: ServiceId,
    hs: Seq<FireboltMethodHandlerAPIRegistration>,
) -> (Map<Seq<char>, MethodOwnership>, Seq<FireboltMethodHandlerAPIRegistration>)
    decreases hs.len(),
{
    if hs.len() == 0 {
        (m, Seq::empty())
    } else {
        let h = hs[0];
        if m.dom().contains(h.firebolt_method@) {
            register_fold(m, sid, hs.drop_first())
        } else {
            let rec = register_fold(
                m.insert(h.firebolt_method@, MethodOwnership { service: sid, rule: h.jq_rule }),
                sid,
                hs.drop_first(),
            );
            (rec.0, seq![h] + rec.1)
        }
    }
}

/// The correlation id a service reply answers.
pub open spec fn reply_id_spec(response: ServiceCallResponse) -> u64 {
    match response {
        ServiceCallResponse::Success(s) => s.request_id.request_id,
        ServiceCallResponse::Error(e) => e.request_id.request_id,
    }
}

/// Every kept row appears among the source rows.
pub proof fn lemma_kept_in_source(s: Seq<OwnerEntry>, sid: Seq<char>, i: int)
    requires
        0 <= i < kept_entries(s, sid).len(),
    ensures
        exists|j: int| 0 <= j < s.len() && s[j] == kept_entries(s, sid)[i],
    decreases s.len(),
{
    if s.len() > 0 {
        let t = s.drop_last();
        if s.last().service.service_id@ == sid {
            lemma_kept_in_source(t, sid, i);
            let j = choose|j: int| 0 <= j < t.len() && t[j] == kept_entries(t, sid)[i];
            assert(s[j] == kept_entries(s, sid)[i]);
        } else {
            if i < kept_entries(t, sid).len() {
                lemma_kept_in_source(t, sid, i);
                let j = choose|j: int| 0 <= j < t.len() && t[j] == kept_entries(t, sid)[i];
                assert(s[j] == kept_entries(s, sid)[i]);
            } else {
                assert(s[s.len() - 1] == kept_entries(s, sid)[i]);
            }
        }
    }
}

/// The gateway's shared routing state: the method-ownership registry and the
/// table of in-flight requests keyed by correlation id. All mutation is
/// serialized by the single owner of this value.
pub struct ApiGateway {
    entries: Vec<OwnerEntry>,
    pending_replies: vstd::hash_map::HashMapWithView<
        u64,
        tokio::sync::oneshot::Sender<ServiceRoutingResponse>,
    >,
}

impl ApiGateway {
    /// Method name to ownership, as the registry stands.
    pub closed spec fn owners(&self) -> Map<Seq<char>, MethodOwnership> {
        owners_map(self.entries@)
    }

    /// Correlation id to the reply channel still owed an outcome.
    pub closed spec fn pending_map(&self) -> Map<
        u64,
        tokio::sync::oneshot::Sender<ServiceRoutingResponse>,
    > {
        self.pending_replies@
    }

    /// No two registry rows claim one method name.
    pub closed spec fn wf(&self) -> bool {
        distinct_methods(self.entries@)
    }

    pub fn new() -> (r: Self)
        ensures
            r.wf(),
            r.owners() == Map::<Seq<char>, MethodOwnership>::empty(),
            r.pending_map() == Map::<u64, tokio::sync::oneshot::Sender<ServiceRoutingResponse>>::empty(),
    {
        let r = ApiGateway {
            entries: Vec::new(),
            pending_replies: vstd::hash_map::HashMapWithView::new(),
        };
        proof {
            assert(r.owners() =~= Map::<Seq<char>, MethodOwnership>::empty());
        }
        r
    }

    /// The registry row claiming this method, if any.
    fn find_owner_index(&self, method: &String) -> (r: Option<usize>)
        requires
            self.wf(),
        ensures
            match r {
                Some(i) => i < self.entries@.len() && self.entries@[i as int].method@ == method@
                    && self.owners().dom().contains(method@),
                None => !self.owners().dom().contains(method@),
            },
    {
        proof {
            lemma_owners_map_dom(self.entries@);
        }
        let mut i: usize = 0;
        while i < self.entries.len()
            invariant
                i <= self.entries@.len(),
                forall|j: int| 0 <= j < i ==> self.entries@[j].method@ != method@,
                self.wf(),
                forall|k: Seq<char>| #[trigger] owners_map(self.entries@).dom().contains(k)
                    <==> (exists|m: int| 0 <= m < self.entries@.len() && self.entries@[m].method@ == k),
            decreases self.entries@.len() - i,
        {
            if self.entries[i].method == *method {
                return Some(i);
            }
            i = i + 1;
        }
        None
    }

    /// Whether any service currently owns this method.
    pub fn owns_method(&self, method: &String) -> (r: bool)
        requires
            self.wf(),
        ensures
            r == self.owners().dom().contains(method@),
    {
        self.find_owner_index(method).is_some()
    }

    /// Records one method claim, first writer winning: a method already owned
    /// is refused with `DuplicateRegistration`, and only an explicit
    /// unregister frees it.
    pub fn register_method(&mut self, method: String, service: &ServiceId, rule: Option<JqRule>) -> (r: Result<(), RoutingError>)
        requires
            old(self).wf(),
        ensures
            final(self).wf(),
            final(self).pending_map() == old(self).pending_map(),
            old(self).owners().dom().contains(method@) ==> {
                &&& r == Err::<(), RoutingError>(RoutingError::DuplicateRegistration)
                &&& final(self).owners() == old(self).owners()
            },
            !old(self).owners().dom().contains(method@) ==> {
                &&& r == Ok::<(), RoutingError>(())
                &&& final(self).owners() == old(self).owners().insert(
                    method@,
                    MethodOwnership { service: *service, rule },
                )
            },
    {
        match self.find_owner_index(&method) {
            Some(_) => Err(RoutingError::DuplicateRegistration),
            None => {
                proof {
                    lemma_owners_map_dom(self.entries@);
                }
                let ghost before = self.entries@;
                self.entries.push(OwnerEntry { method, service: service.duplicate(), rule });
                proof {
                    assert(self.entries@.drop_last() =~= before);
                    assert(distinct_methods(self.entries@));
                }
                Ok(())
            },
        }
    }

    /// Records a service's whole registration, first writer winning per
    /// method: accepted handlers are echoed in submission order; a non-empty
    /// submission in which no method could be accepted is refused whole.
    pub fn register_service(&mut self, registration: &ServiceRegistration) -> (r: Result<
        APIGatewayServiceRegistrationResponse,
        RoutingError,
    >)
        requires
            old(self).wf(),
        ensures
            final(self).wf(),
            final(self).pending_map() == old(self).pending_map(),
            final(self).owners() == register_fold(
                old(self).owners(),
                registration.service_id,
                registration.firebolt_handlers@,
            ).0,
            ({
                let accepted = register_fold(
                    old(self).owners(),
                    registration.service_id,
                    registration.firebolt_handlers@,
                ).1;
                match r {
                    Ok(resp) => resp.firebolt_handlers@ == accepted && (accepted.len() > 0
                        || registration.firebolt_handlers@.len() == 0),
                    Err(e) => e == RoutingError::DuplicateRegistration && accepted.len() == 0
                        && registration.firebolt_handlers@.len() > 0,
                }
            }),
    {
        let ghost m0 = self.owners();
        let ghost sid = registration.service_id;
        let ghost hs = registration.firebolt_handlers@;
        let mut accepted: Vec<FireboltMethodHandlerAPIRegistration> = Vec::new();
        let mut i: usize = 0;
        proof {
            assert(hs.skip(0) =~= hs);
            assert(accepted@ + register_fold(self.owners(), sid, hs.skip(0)).1
                =~= register_fold(m0, sid, hs).1);
        }
        while i < registration.firebolt_handlers.len()
            invariant
                i <= hs.len(),
                registration.firebolt_handlers@ == hs,
                registration.service_id == sid,
                self.wf(),
                self.pending_map() == old(self).pending_map(),
                register_fold(m0, sid, hs).0 == register_fold(self.owners(), sid, hs.skip(i as int)).0,
                register_fold(m0, sid, hs).1 == accepted@ + register_fold(
                    self.owners(),
                    sid,
                    hs.skip(i as int),
                ).1,
            decreases hs.len() - i,
        {
            let h = &registration.firebolt_handlers[i];
            let ghost cur = self.owners();
            proof {
                assert(hs.skip(i as int)[0] == hs[i as int]);
                assert(hs.skip(i as int).drop_first() =~= hs.skip(i + 1 as int));
            }
            let rule = match &h.jq_rule {
                Option::Some(jq) => Option::Some(JqRule { alias: jq.alias.clone(), rule: jq.rule.clone() }),
                Option::None => Option::None,
            };
            let outcome = self.register_method(h.firebolt_method.clone(), &registration.service_id, rule);
            match outcome {
                Ok(_) => {
                    accepted.push(FireboltMethodHandlerAPIRegistration {
                        firebolt_method: h.firebolt_method.clone(),
                        jq_rule: match &h.jq_rule {
                            Option::Some(jq) => Option::Some(JqRule { alias: jq.alias.clone(), rule: jq.rule.clone() }),
                            Option::None => Option::None,
                        },
                    });
                    proof {
                        assert(accepted@.drop_last() + (seq![hs[i as int]] + register_fold(
                            self.owners(),
                            sid,
                            hs.skip(i + 1 as int),
                        ).1) =~= accepted@ + register_fold(self.owners(), sid, hs.skip(i + 1 as int)).1);
                    }
                },
                Err(_) => {},
            }
            i = i + 1;
        }
        proof {
            assert(hs.skip(hs.len() as int) =~= Seq::<FireboltMethodHandlerAPIRegistration>::empty());
            assert(register_fold(m0, sid, hs).1 =~= accepted@);
        }
        if accepted.len() == 0 && registration.firebolt_handlers.len() > 0 {
            Err(RoutingError::DuplicateRegistration)
        } else {
            Ok(APIGatewayServiceRegistrationResponse { firebolt_handlers: accepted })
        }
    }

    /// Withdraws a service: every method it owns is freed atomically.
    pub fn unregister_service(&mut self, service_id: &ServiceId)
        requires
            old(self).wf(),
        ensures
            final(self).wf(),
            final(self).pending_map() == old(self).pending_map(),
            final(self).owners() == old(self).owners().remove_keys(
                methods_owned_by(old(self).owners(), service_id.service_id@),
            ),
    {
        let ghost src = self.entries@;
        let ghost sid = service_id.service_id@;
        let mut kept: Vec<OwnerEntry> = Vec::new();
        let mut i: usize = 0;
        while i < self.entries.len()
            invariant
                i <= self.entries@.len(),
                self.entries@ == src,
                service_id.service_id@ == sid,
                kept@ == kept_entries(src.subrange(0, i as int), sid),
            decreases self.entries@.len() - i,
        {
            let ghost prefix = src.subrange(0, i as int);
            proof {
                assert(src.subrange(0, i + 1 as int).drop_last() =~= prefix);
                assert(src.subrange(0, i + 1 as int).last() == src[i as int]);
            }
            let e = &self.entries[i];
            if !(e.service == *service_id) {
                kept.push(OwnerEntry {
                    method: e.method.clone(),
                    service: e.service.duplicate(),
                    rule: match &e.rule {
                        Option::Some(jq) => Option::Some(JqRule { alias: jq.alias.clone(), rule: jq.rule.clone() }),
                        Option::None => Option::None,
                    },
                });
                proof {
                    assert(kept@.drop_last() == kept_entries(prefix, sid));
                    assert(kept@.last() == src[i as int]);
                    assert(kept@ =~= kept_entries(prefix, sid).push(src[i as int]));
                }
            }
            i = i + 1;
        }
        proof {
            assert(src.subrange(0, src.len() as int) =~= src);
            lemma_kept_entries_map(src, sid);
        }
        self.entries = kept;
    }

    /// Whether a reply for this correlation id is still owed.
    pub fn has_pending(&self, id: u64) -> (r: bool)
        ensures
            r == self.pending_map().dom().contains(id),
    {
        self.pending_replies.contains_key(&id)
    }

    /// Routes one request to the owning service: on a route, the reply
    /// channel is parked under the request's correlation id and the call to
    /// forward is returned; with no owner the channel is resolved at once
    /// with an error, so the caller still gets exactly one outcome.
    pub fn dispatch(&mut self, request: ServiceRoutingRequest) -> (r: Result<ServiceCall, RoutingError>)
        requires
            old(self).wf(),
            !old(self).pending_map().dom().contains(request.request_id.request_id),
        ensures
            final(self).wf(),
            final(self).owners() == old(self).owners(),
            old(self).owners().dom().contains(request.payload.method@) ==> {
                &&& final(self).pending_map() == old(self).pending_map().insert(
                    request.request_id.request_id,
                    request.respond_to,
                )
                &&& r matches Ok(call) && call.request_id == request.request_id
                    && call.method == request.payload.method && call.payload == request.payload.params
            },
            !old(self).owners().dom().contains(request.payload.method@) ==> {
                &&& r == Err::<ServiceCall, RoutingError>(RoutingError::NoRouteForMethod)
                &&& final(self).pending_map() == old(self).pending_map()
            },
    {
        let ServiceRoutingRequest { request_id, payload, respond_to } = request;
        if self.find_owner_index(&payload.method).is_some() {
            self.pending_replies.insert(request_id.request_id, respond_to);
            Ok(ServiceCall { request_id, method: payload.method, payload: payload.params })
        } else {
            let outcome = ServiceRoutingResponse::Error(ServiceRoutingErrorResponse {
                request_id,
                error: String::from_str("no route for method"),
            });
            let _ = oneshot_send(respond_to, outcome);
            Err(RoutingError::NoRouteForMethod)
        }
    }

    /// Resolves the in-flight request a service reply correlates with: the
    /// parked channel receives the outcome and the id is retired. A reply
    /// whose id is unknown — already resolved, or never issued — changes
    /// nothing and reports `false`.
    pub fn handle_service_reply(&mut self, response: ServiceCallResponse) -> (r: bool)
        requires
            old(self).wf(),
        ensures
            final(self).wf(),
            final(self).owners() == old(self).owners(),
            old(self).pending_map().dom().contains(reply_id_spec(response))
                ==> r && final(self).pending_map() == old(self).pending_map().remove(reply_id_spec(response)),
            !old(self).pending_map().dom().contains(reply_id_spec(response))
                ==> !r && final(self).pending_map() == old(self).pending_map(),
    {
        let id: u64 = match &response {
            ServiceCallResponse::Success(s) => s.request_id.request_id,
            ServiceCallResponse::Error(e) => e.request_id.request_id,
        };
        match self.pending_replies.remove(&id) {
            Some(tx) => {
                let outcome = match response {
                    ServiceCallResponse::Success(s) => ServiceRoutingResponse::Success(
                        ServiceRoutingSuccessResponse { request_id: s.request_id, response: s.response },
                    ),
                    ServiceCallResponse::Error(e) => ServiceRoutingResponse::Error(
                        ServiceRoutingErrorResponse { request_id: e.request_id, error: e.error },
                    ),
                };
                let _ = oneshot_send(tx, outcome);
                true
            },
            None => false,
        }
    }
}

} // verus!
