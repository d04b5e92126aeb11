//! Provider broker: registers UI listeners per (capability, app), dispatches
//! capability challenges to the single listening app, correlates provider
//! answers by correlation id, enforces per-challenge deadlines, and routes
//! focus directives — every pending challenge ends in exactly one of answer,
//! error or timeout.

use vstd::prelude::*;

use crate::ext::oneshot_send;
use crate::types::{CallContext, RoutingError};

verus! {

/// Default deadline for a provider's answer to a challenge, in milliseconds.
pub const DEFAULT_PROVIDER_RESPONSE_TIMEOUT_MS: u64 = 15000;

/// A code-and-message error as a provider reports it.
#[derive(Debug, Clone)]
pub struct ErrorObject {
    pub code: i64,
    pub message: String,
}

/// What a provider answers a challenge with.
#[derive(Debug)]
pub enum ProviderResponsePayload {
    ChallengeResponse(serde_json::Value),
    ChallengeError(serde_json::Value),
    PinChallengeResponse(serde_json::Value),
    GenericResponse(serde_json::Value),
    GenericError(ErrorObject),
}

/// Which payload shape a provider method delivers.
#[derive(Debug, Clone, Copy, PartialEq, Eq, Structural)]
pub enum ProviderResponsePayloadType {
    ChallengeResponse,
    ChallengeError,
    PinChallengeResponse,
    GenericResponse,
    GenericError,
}

/// A provider's answer, correlated to the challenge it resolves.
#[derive(Debug)]
pub struct ProviderResponse {
    pub correlation_id: String,
    pub result: ProviderResponsePayload,
}

/// The one outcome delivered on a challenge's reply channel.
#[derive(Debug)]
pub enum ChallengeReply {
    Answer(ProviderResponsePayload),
    Timeout,
}

/// A caller's request to start or stop listening.
#[derive(Debug, Clone)]
pub struct ListenRequest {
    pub listen: bool,
}

/// Confirmation of a listener toggle: the event delivered and whether the
/// app now listens.
#[derive(Debug, Clone)]
pub struct ListenerResponse {
    pub listening: bool,
    pub event: String,
}

/// One app listening for challenges of one capability.
#[derive(Debug, Clone)]
pub struct ProviderListener {
    pub capability: String,
    pub app_id: String,
    pub method: String,
    pub event: String,
}

/// An outstanding challenge awaiting the provider's answer.
pub struct PendingChallenge {
    pub correlation_id: String,
    pub capability: String,
    pub app_id: String,
    pub caller: CallContext,
    pub deadline: u64,
    pub respond_to: tokio::sync::oneshot::Sender<ChallengeReply>,
}

/// What the gateway must deliver to the listening app for one challenge.
#[derive(Debug, Clone)]
pub struct ChallengeDelivery {
    pub correlation_id: String,
    pub app_id: String,
    pub event: String,
}

/// Where a focus directive goes.
#[derive(Debug, Clone)]
pub struct FocusDelivery {
    pub app_id: String,
    pub event: String,
}

/// A focus directive as a caller submits it.
#[derive(Debug, Clone)]
pub struct FocusRequest {
    pub focused: bool,
}

/// The listener rows as a map keyed by (capability, app identity).
pub open spec fn listener_map(s: Seq<ProviderListener>) -> Map<(Seq<char>, Seq<char>), ProviderListener>
    decreases s.len(),
{
    if s.len() == 0 {
        Map::empty()
    } else {
        listener_map(s.drop_last()).insert(
            (s.last().capability@, s.last().app_id@),
            s.last(),
        )
    }
}

/// No two listener rows cover the same (capability, app) pair.
pub open spec fn distinct_listeners(s: Seq<ProviderListener>) -> bool {
    forall|i: int, j: int| 0 <= i < j < s.len()
        ==> (s[i].capability@, s[i].app_id@) != (s[j].capability@, s[j].app_id@)
}

/// A (capability, app) pair is in the map exactly when some row covers it.
pub proof fn lemma_listener_map_dom(s: Seq<ProviderListener>)
    ensures
        forall|k: (Seq<char>, Seq<char>)| #[trigger] listener_map(s).dom().contains(k)
            <==> (exists|i: int| 0 <= i < s.len()
                && (s[i].capability@, s[i].app_id@) == k),
    decreases s.len(),
{
    if s.len() > 0 {
        lemma_listener_map_dom(s.drop_last());
        assert forall|k: (Seq<char>, Seq<char>)| #[trigger] listener_map(s).dom().contains(k)
            implies (exists|i: int| 0 <= i < s.len() && (s[i].capability@, s[i].app_id@) == k) by {
            if k == (s.last().capability@, s.last().app_id@) {
                assert((s[s.len() - 1].capability@, s[s.len() - 1].app_id@) == k);
            } else {
                assert(listener_map(s.drop_last()).dom().contains(k));
                let i = choose|i: int| 0 <= i < s.drop_last().len()
                    && (s.drop_last()[i].capability@, s.drop_last()[i].app_id@) == k;
                assert((s[i].capability@, s[i].app_id@) == k);
            }
        }
        assert forall|k: (Seq<char>, Seq<char>)| (exists|i: int| 0 <= i < s.len()
            && (s[i].capability@, s[i].app_id@) == k)
            implies #[trigger] listener_map(s).dom().contains(k) by {
            let i = choose|i: int| 0 <= i < s.len() && (s[i].capability@, s[i].app_id@) == k;
            if i < s.len() - 1 {
                assert((s.drop_last()[i].capability@, s.drop_last()[i].app_id@) == k);
                assert(listener_map(s.drop_last()).dom().contains(k));
            } else {
                assert(k == (s.last().capability@, s.last().app_id@));
            }
        }
    }
}

/// The listener rows left after removing one (capability, app) pair.
pub open spec fn removed_listener(s: Seq<ProviderListener>, cap: Seq<char>, app: Seq<char>) -> Seq<ProviderListener>
    decreases s.len(),
{
    if s.len() == 0 {
        Seq::empty()
    } else if s.last().capability@ == cap && s.last().app_id@ == app {
        removed_listener(s.drop_last(), cap, app)
    } else {
        removed_listener(s.drop_last(), cap, app).push(s.last())
    }
}

/// Every row kept by the removal appears among the source rows.
pub proof fn lemma_removed_listener_in_source(s: Seq<ProviderListener>, cap: Seq<char>, app: Seq<char>, i: int)
    requires
        0 <= i < removed_listener(s, cap, app).len(),
    ensures
        exists|j: int| 0 <= j < s.len() && s[j] == removed_listener(s, cap, app)[i],
    decreases s.len(),
{
    if s.len() > 0 {
        let t = s.drop_last();
        if s.last().capability@ == cap && s.last().app_id@ == app {
            lemma_removed_listener_in_source(t, cap, app, i);
            let j = choose|j: int| 0 <= j < t.len() && t[j] == removed_listener(t, cap, app)[i];
            assert(s[j] == removed_listener(s, cap, app)[i]);
        } else {
            if i < removed_listener(t, cap, app).len() {
                lemma_removed_listener_in_source(t, cap, app, i);
                let j = choose|j: int| 0 <= j < t.len() && t[j] == removed_listener(t, cap, app)[i];
                assert(s[j] == removed_listener(s, cap, app)[i]);
            } else {
                assert(s[s.len() - 1] == removed_listener(s, cap, app)[i]);
            }
        }
    }
}

/// Removing a (capability, app) pair from the rows removes exactly that key
/// from the map.
pub proof fn lemma_removed_listener_map(s: Seq<ProviderListener>, cap: Seq<char>, app: Seq<char>)
    requires
        distinct_listeners(s),
    ensures
        distinct_listeners(removed_listener(s, cap, app)),
        listener_map(removed_listener(s, cap, app)) == listener_map(s).remove((cap, app)),
    decreases s.len(),
{
    if s.len() == 0 {
        assert(listener_map(removed_listener(s, cap, app)) =~= listener_map(s).remove((cap, app)));
    } else {
        let t = s.drop_last();
        let e = s.last();
        assert(distinct_listeners(t));
        lemma_removed_listener_map(t, cap, app);
        lemma_listener_map_dom(t);
        assert(!listener_map(t).dom().contains((e.capability@, e.app_id@)));
        assert forall|i: int| 0 <= i < removed_listener(t, cap, app).len()
            implies ((#[trigger] removed_listener(t, cap, app)[i]).capability@, removed_listener(
            t,
            cap,
            app,
        )[i].app_id@) != (e.capability@, e.app_id@) by {
            lemma_removed_listener_in_source(t, cap, app, i);
        }
        if e.capability@ == cap && e.app_id@ == app {
            assert(removed_listener(s, cap, app) == removed_listener(t, cap, app));
            assert(listener_map(removed_listener(s, cap, app)) =~= listener_map(s).remove((cap, app)));
        } else {
            assert(removed_listener(s, cap, app) == removed_listener(t, cap, app).push(e));
            assert(removed_listener(t, cap, app).push(e).drop_last() =~= removed_listener(t, cap, app));
            assert(distinct_listeners(removed_listener(t, cap, app).push(e)));
            assert(listener_map(removed_listener(s, cap, app)) =~= listener_map(s).remove((cap, app)));
        }
    }
}

/// How many rows listen for a capability.
pub open spec fn cap_count(s: Seq<ProviderListener>, cap: Seq<char>) -> nat
    decreases s.len(),
{
    if s.len() == 0 {
        0
    } else {
        cap_count(s.drop_last(), cap) + if s.last().capability@ == cap { 1nat } else { 0nat }
    }
}

/// A zero count means no row listens; a positive count names a row.
pub proof fn lemma_cap_count_zero(s: Seq<ProviderListener>, cap: Seq<char>)
    ensures
        cap_count(s, cap) == 0 <==> (forall|i: int| 0 <= i < s.len() ==> s[i].capability@ != cap),
    decreases s.len(),
{
    if s.len() > 0 {
        lemma_cap_count_zero(s.drop_last(), cap);
        if cap_count(s, cap) == 0 {
            assert forall|i: int| 0 <= i < s.len() implies s[i].capability@ != cap by {
                if i < s.len() - 1 {
                    assert(s.drop_last()[i] == s[i]);
                }
            }
        } else {
            if s.last().capability@ == cap {
                assert(s[s.len() - 1].capability@ == cap);
            } else {
                let i = choose|i: int| 0 <= i < s.drop_last().len() && s.drop_last()[i].capability@ == cap;
                assert(s[i].capability@ == cap);
            }
        }
    }
}

/// The pending challenges as a map keyed by correlation id.
pub open spec fn challenge_map(s: Seq<PendingChallenge>) -> Map<Seq<char>, PendingChallenge>
    decreases s.len(),
{
    if s.len() == 0 {
        Map::empty()
    } else {
        challenge_map(s.drop_last()).insert(s.last().correlation_id@, s.last())
    }
}

/// No two pending challenges share a correlation id.
pub open spec fn distinct_challenges(s: Seq<PendingChallenge>) -> bool {
    forall|i: int, j: int| 0 <= i < j < s.len() ==> s[i].correlation_id@ != s[j].correlation_id@
}

/// A correlation id is pending exactly when some entry carries it.
pub proof fn lemma_challenge_map_dom(s: Seq<PendingChallenge>)
    ensures
        forall|k: Seq<char>| #[trigger] challenge_map(s).dom().contains(k)
            <==> (exists|i: int| 0 <= i < s.len() && s[i].correlation_id@ == k),
    decreases s.len(),
{
    if s.len() > 0 {
        lemma_challenge_map_dom(s.drop_last());
        assert forall|k: Seq<char>| #[trigger] challenge_map(s).dom().contains(k)
            implies (exists|i: int| 0 <= i < s.len() && s[i].correlation_id@ == k) by {
            if k == s.last().correlation_id@ {
                assert(s[s.len() - 1].correlation_id@ == k);
            } else {
                assert(challenge_map(s.drop_last()).dom().contains(k));
                let i = choose|i: int| 0 <= i < s.drop_last().len() && s.drop_last()[i].correlation_id@ == k;
                assert(s[i].correlation_id@ == k);
            }
        }
        assert forall|k: Seq<char>| (exists|i: int| 0 <= i < s.len() && s[i].correlation_id@ == k)
            implies #[trigger] challenge_map(s).dom().contains(k) by {
            let i = choose|i: int| 0 <= i < s.len() && s[i].correlation_id@ == k;
            if i < s.len() - 1 {
                assert(s.drop_last()[i].correlation_id@ == k);
                assert(challenge_map(s.drop_last()).dom().contains(k));
            } else {
                assert(k == s.last().correlation_id@);
            }
        }
    }
}

/// With distinct ids, each pending entry is the map's value for its id.
pub proof fn lemma_challenge_map_index(s: Seq<PendingChallenge>, i: int)
    requires
        distinct_challenges(s),
        0 <= i < s.len(),
    ensures
        challenge_map(s).dom().contains(s[i].correlation_id@),
        challenge_map(s)[s[i].correlation_id@] == s[i],
    decreases s.len(),
{
    if i == s.len() - 1 {
    } else {
        assert(distinct_challenges(s.drop_last()));
        lemma_challenge_map_index(s.drop_last(), i);
        assert(s.drop_last()[i] == s[i]);
        assert(s[i].correlation_id@ != s.last().correlation_id@);
    }
}

/// Taking the entry at one index out of the rows takes exactly its id out of
/// the map.
pub proof fn lemma_challenge_map_remove(s: Seq<PendingChallenge>, i: int)
    requires
        distinct_challenges(s),
        0 <= i < s.len(),
    ensures
        distinct_challenges(s.remove(i)),
        challenge_map(s.remove(i)) == challenge_map(s).remove(s[i].correlation_id@),
    decreases s.len(),
{
    let t = s.drop_last();
    if i == s.len() - 1 {
        assert(s.remove(i) =~= t);
        lemma_challenge_map_dom(t);
        assert(!challenge_map(t).dom().contains(s[i].correlation_id@));
        assert(challenge_map(s.remove(i)) =~= challenge_map(s).remove(s[i].correlation_id@));
    } else {
        assert(distinct_challenges(t));
        lemma_challenge_map_remove(t, i);
        assert(s.remove(i).drop_last() =~= t.remove(i));
        assert(s.remove(i).last() == s.last());
        assert(challenge_map(s.remove(i)) == challenge_map(t.remove(i)).insert(
            s.last().correlation_id@,
            s.last(),
        ));
        assert(s[i].correlation_id@ != s.last().correlation_id@);
        assert(challenge_map(s.remove(i)) =~= challenge_map(s).remove(s[i].correlation_id@));
    }
}

/// The challenges still within their deadline at a given time.
pub open spec fn surviving(m: Map<Seq<char>, PendingChallenge>, now: u64) -> Map<Seq<char>, PendingChallenge> {
    Map::new(|k: Seq<char>| m.dom().contains(k) && m[k].deadline > now, |k: Seq<char>| m[k])
}

/// No row kept by a removal carries the removed (capability, app) pair.
pub proof fn lemma_removed_listener_no_key(s: Seq<ProviderListener>, cap: Seq<char>, app: Seq<char>)
    ensures
        forall|i: int| 0 <= i < removed_listener(s, cap, app).len()
            ==> ((#[trigger] removed_listener(s, cap, app)[i]).capability@ != cap
                || removed_listener(s, cap, app)[i].app_id@ != app),
    decreases s.len(),
{
    if s.len() > 0 {
        let t = s.drop_last();
        lemma_removed_listener_no_key(t, cap, app);
        assert forall|i: int| 0 <= i < removed_listener(s, cap, app).len()
            implies ((#[trigger] removed_listener(s, cap, app)[i]).capability@ != cap
                || removed_listener(s, cap, app)[i].app_id@ != app) by {
            if s.last().capability@ == cap && s.last().app_id@ == app {
                assert(removed_listener(s, cap, app) == removed_listener(t, cap, app));
                assert(removed_listener(t, cap, app)[i].capability@ != cap
                    || removed_listener(t, cap, app)[i].app_id@ != app);
            } else {
                assert(removed_listener(s, cap, app) == removed_listener(t, cap, app).push(s.last()));
                if i < removed_listener(t, cap, app).len() {
                    assert(removed_listener(s, cap, app)[i] == removed_listener(t, cap, app)[i]);
                    assert(removed_listener(t, cap, app)[i].capability@ != cap
                        || removed_listener(t, cap, app)[i].app_id@ != app);
                } else {
                    assert(removed_listener(s, cap, app)[i] == s.last());
                }
            }
        }
    }
}

/// One capability's registered provider method name.
#[derive(Debug, Clone)]
pub struct CapabilityMethod {
    pub capability: String,
    pub method: String,
}

/// The provider broker's whole state: who listens per (capability, app),
/// which challenges await an answer, and how capabilities map to provider
/// method names.
pub struct ProviderBroker {
    listeners: Vec<ProviderListener>,
    pending: Vec<PendingChallenge>,
    methods: Vec<CapabilityMethod>,
}

impl ProviderBroker {
    /// The listener rows, in registration order.
    pub closed spec fn listeners_seq(&self) -> Seq<ProviderListener> {
        self.listeners@
    }

    /// (capability, app) to its listener row.
    pub closed spec fn listeners_map(&self) -> Map<(Seq<char>, Seq<char>), ProviderListener> {
        listener_map(self.listeners@)
    }

    /// Correlation id to its outstanding challenge.
    pub closed spec fn challenges(&self) -> Map<Seq<char>, PendingChallenge> {
        challenge_map(self.pending@)
    }

    /// The capability-to-method rows.
    pub closed spec fn methods_seq(&self) -> Seq<CapabilityMethod> {
        self.methods@
    }

    /// No (capability, app) pair listens twice; no correlation id is pending
    /// twice.
    pub closed spec fn wf(&self) -> bool {
        distinct_listeners(self.listeners@) && distinct_challenges(self.pending@)
    }

    pub fn new() -> (r: Self)
        ensures
            r.wf(),
            r.listeners_seq() == Seq::<ProviderListener>::empty(),
            r.listeners_map() == Map::<(Seq<char>, Seq<char>), ProviderListener>::empty(),
            r.challenges() == Map::<Seq<char>, PendingChallenge>::empty(),
            r.methods_seq() == Seq::<CapabilityMethod>::empty(),
    {
        ProviderBroker { listeners: Vec::new(), pending: Vec::new(), methods: Vec::new() }
    }

    /// Records which provider method serves a capability.
    pub fn set_method(&mut self, capability: String, method: String)
        requires
            old(self).wf(),
        ensures
            final(self).wf(),
            final(self).listeners_seq() == old(self).listeners_seq(),
            final(self).challenges() == old(self).challenges(),
            final(self).methods_seq() == old(self).methods_seq().push(
                CapabilityMethod { capability, method },
            ),
    {
        self.methods.push(CapabilityMethod { capability, method });
    }

    /// The provider method serving a capability, if one is recorded.
    pub fn get_method(&self, capability: &String) -> (r: Option<String>)
        ensures
            match r {
                Some(m) => exists|i: int| 0 <= i < self.methods_seq().len()
                    && (#[trigger] self.methods_seq()[i]).capability@ == capability@
                    && m@ == self.methods_seq()[i].method@,
                None => forall|i: int| 0 <= i < self.methods_seq().len()
                    ==> (#[trigger] self.methods_seq()[i]).capability@ != capability@,
            },
    {
        let mut i: usize = 0;
        while i < self.methods.len()
            invariant
                i <= self.methods@.len(),
                forall|j: int| 0 <= j < i ==> (#[trigger] self.methods@[j]).capability@ != capability@,
            decreases self.methods@.len() - i,
        {
            if self.methods[i].capability == *capability {
                let m = self.methods[i].method.clone();
                proof {
                    assert((self.methods_seq()[i as int]).capability@ == capability@
                        && m@ == self.methods_seq()[i as int].method@);
                }
                return Some(m);
            }
            i = i + 1;
        }
        None
    }

    /// Toggles one (capability, app) listener: `listen` inserts or refreshes
    /// the row, `!listen` removes it; either way is idempotent, and in-flight
    /// challenges are untouched.
    pub fn register_or_unregister_listener(
        &mut self,
        capability: String,
        method: String,
        event: String,
        ctx: &CallContext,
        request: &ListenRequest,
    ) -> (r: ListenerResponse)
        requires
            old(self).wf(),
        ensures
            final(self).wf(),
            final(self).challenges() == old(self).challenges(),
            final(self).methods_seq() == old(self).methods_seq(),
            r.listening == request.listen,
            r.event@ == event@,
            request.listen ==> {
                &&& final(self).listeners_map() == old(self).listeners_map().insert(
                    (capability@, ctx.app_id@),
                    final(self).listeners_map()[(capability@, ctx.app_id@)],
                )
                &&& final(self).listeners_map().dom().contains((capability@, ctx.app_id@))
                &&& final(self).listeners_map()[(capability@, ctx.app_id@)].capability@ == capability@
                &&& final(self).listeners_map()[(capability@, ctx.app_id@)].app_id@ == ctx.app_id@
                &&& final(self).listeners_map()[(capability@, ctx.app_id@)].method@ == method@
                &&& final(self).listeners_map()[(capability@, ctx.app_id@)].event@ == event@
            },
            !request.listen ==> final(self).listeners_map() == old(self).listeners_map().remove(
                (capability@, ctx.app_id@),
            ),
            !request.listen ==> final(self).listeners_seq() == removed_listener(
                old(self).listeners_seq(),
                capability@,
                ctx.app_id@,
            ),
            request.listen ==> {
                &&& final(self).listeners_seq().len() == removed_listener(
                    old(self).listeners_seq(),
                    capability@,
                    ctx.app_id@,
                ).len() + 1
                &&& final(self).listeners_seq().drop_last() == removed_listener(
                    old(self).listeners_seq(),
                    capability@,
                    ctx.app_id@,
                )
                &&& final(self).listeners_seq().last().capability@ == capability@
                &&& final(self).listeners_seq().last().app_id@ == ctx.app_id@
                &&& final(self).listeners_seq().last().method@ == method@
                &&& final(self).listeners_seq().last().event@ == event@
            },
    {
        let ghost src = self.listeners@;
        let ghost capv = capability@;
        let ghost appv = ctx.app_id@;
        let mut kept: Vec<ProviderListener> = Vec::new();
        let mut i: usize = 0;
        while i < self.listeners.len()
            invariant
                i <= self.listeners@.len(),
                self.listeners@ == src,
                capability@ == capv,
                ctx.app_id@ == appv,
                kept@ == removed_listener(src.subrange(0, i as int), capv, appv),
            decreases self.listeners@.len() - i,
        {
            let ghost prefix = src.subrange(0, i as int);
            proof {
                assert(src.subrange(0, i + 1 as int).drop_last() =~= prefix);
                assert(src.subrange(0, i + 1 as int).last() == src[i as int]);
            }
            let l = &self.listeners[i];
            if !(l.capability == capability && l.app_id == ctx.app_id) {
                kept.push(ProviderListener {
                    capability: l.capability.clone(),
                    app_id: l.app_id.clone(),
                    method: l.method.clone(),
                    event: l.event.clone(),
                });
                proof {
                    assert(kept@.drop_last() == removed_listener(prefix, capv, appv));
                    assert(kept@.last() == src[i as int]);
                    assert(kept@ =~= removed_listener(prefix, capv, appv).push(src[i as int]));
                }
            }
            i = i + 1;
        }
        proof {
            assert(src.subrange(0, src.len() as int) =~= src);
            lemma_removed_listener_map(src, capv, appv);
            lemma_removed_listener_no_key(src, capv, appv);
        }
        self.listeners = kept;
        let listening = request.listen;
        let response_event = event.clone();
        if listening {
            let ghost before = self.listeners@;
            self.listeners.push(ProviderListener {
                capability,
                app_id: ctx.app_id.clone(),
                method,
                event,
            });
            proof {
                assert(self.listeners@.drop_last() =~= before);
                assert(distinct_listeners(self.listeners@));
                assert(final(self).listeners_map() =~= old(self).listeners_map().insert(
                    (capv, appv),
                    self.listeners@.last(),
                ));
            }
        }
        ListenerResponse { listening, event: response_event }
    }

    /// Whether a challenge with this correlation id is outstanding.
    pub fn has_pending_challenge(&self, correlation_id: &String) -> (r: bool)
        requires
            self.wf(),
        ensures
            r == self.challenges().dom().contains(correlation_id@),
    {
        proof {
            lemma_challenge_map_dom(self.pending@);
        }
        let mut i: usize = 0;
        while i < self.pending.len()
            invariant
                i <= self.pending@.len(),
                forall|j: int| 0 <= j < i ==> (#[trigger] self.pending@[j]).correlation_id@ != correlation_id@,
                forall|k: Seq<char>| #[trigger] challenge_map(self.pending@).dom().contains(k)
                    <==> (exists|m: int| 0 <= m < self.pending@.len() && self.pending@[m].correlation_id@ == k),
            decreases self.pending@.len() - i,
        {
            if self.pending[i].correlation_id == *correlation_id {
                return true;
            }
            i = i + 1;
        }
        false
    }

    /// Counts the rows listening for a capability and finds the first.
    fn find_cap_listener(&self, capability: &String) -> (r: (usize, Option<usize>))
        ensures
            r.0 as nat == cap_count(self.listeners_seq(), capability@),
            match r.1 {
                Some(fi) => fi < self.listeners_seq().len()
                    && (#[trigger] self.listeners_seq()[fi as int]).capability@ == capability@,
                None => cap_count(self.listeners_seq(), capability@) == 0,
            },
    {
        let ghost src = self.listeners@;
        let ghost capv = capability@;
        let mut count: usize = 0;
        let mut found: Option<usize> = None;
        let mut i: usize = 0;
        while i < self.listeners.len()
            invariant
                i <= self.listeners@.len(),
                self.listeners@ == src,
                capability@ == capv,
                count as nat == cap_count(src.subrange(0, i as int), capv),
                count <= i,
                match found {
                    Some(fi) => fi < i && src[fi as int].capability@ == capv,
                    None => forall|j: int| 0 <= j < i ==> (#[trigger] src[j]).capability@ != capv,
                },
            decreases self.listeners@.len() - i,
        {
            proof {
                assert(src.subrange(0, i + 1 as int).drop_last() =~= src.subrange(0, i as int));
                assert(src.subrange(0, i + 1 as int).last() == src[i as int]);
            }
            if self.listeners[i].capability == *capability {
                count = count + 1;
                if found.is_none() {
                    found = Some(i);
                }
            }
            i = i + 1;
        }
        proof {
            assert(src.subrange(0, src.len() as int) =~= src);
            if found is None {
                lemma_cap_count_zero(src, capv);
            }
        }
        (count, found)
    }

    /// Dispatches a capability challenge to its single listening app: the
    /// challenge is parked under the given fresh correlation id with a
    /// deadline `timeout_ms` from now, and what to deliver to that app is
    /// returned. Zero listeners or more than one is an error and changes
    /// nothing; the reply channel is then dropped, which its holder observes
    /// as cancellation alongside the returned error.
    pub fn dispatch_challenge(
        &mut self,
        capability: &String,
        caller: CallContext,
        correlation_id: String,
        now: u64,
        timeout_ms: u64,
        respond_to: tokio::sync::oneshot::Sender<ChallengeReply>,
    ) -> (r: Result<ChallengeDelivery, RoutingError>)
        requires
            old(self).wf(),
            !old(self).challenges().dom().contains(correlation_id@),
            now + timeout_ms <= u64::MAX,
        ensures
            final(self).wf(),
            final(self).listeners_seq() == old(self).listeners_seq(),
            final(self).methods_seq() == old(self).methods_seq(),
            cap_count(old(self).listeners_seq(), capability@) == 0 ==> {
                &&& r == Err::<ChallengeDelivery, RoutingError>(RoutingError::NoProviderRegistered)
                &&& final(self).challenges() == old(self).challenges()
            },
            cap_count(old(self).listeners_seq(), capability@) >= 2 ==> {
                &&& r == Err::<ChallengeDelivery, RoutingError>(RoutingError::AmbiguousProvider)
                &&& final(self).challenges() == old(self).challenges()
            },
            cap_count(old(self).listeners_seq(), capability@) == 1 ==> {
                &&& r matches Ok(d) && d.correlation_id@ == correlation_id@
                    && (exists|i: int| 0 <= i < old(self).listeners_seq().len()
                        && (#[trigger] old(self).listeners_seq()[i]).capability@ == capability@
                        && d.app_id@ == old(self).listeners_seq()[i].app_id@
                        && d.event@ == old(self).listeners_seq()[i].event@)
                &&& final(self).challenges() == old(self).challenges().insert(
                    correlation_id@,
                    final(self).challenges()[correlation_id@],
                )
                &&& final(self).challenges().dom().contains(correlation_id@)
                &&& final(self).challenges()[correlation_id@].correlation_id@ == correlation_id@
                &&& final(self).challenges()[correlation_id@].capability@ == capability@
                &&& final(self).challenges()[correlation_id@].deadline == now + timeout_ms
                &&& final(self).challenges()[correlation_id@].respond_to == respond_to
                &&& final(self).challenges()[correlation_id@].caller == caller
            },
    {
        let (count, found) = self.find_cap_listener(capability);
        if count == 0 {
            return Err(RoutingError::NoProviderRegistered);
        }
        if count >= 2 {
            return Err(RoutingError::AmbiguousProvider);
        }
        let idx = match found {
            Some(fi) => fi,
            None => {
                proof {
                    assert(false);
                }
                0
            },
        };
        let delivery = ChallengeDelivery {
            correlation_id: correlation_id.clone(),
            app_id: self.listeners[idx].app_id.clone(),
            event: self.listeners[idx].event.clone(),
        };
        let ghost before = self.pending@;
        proof {
            lemma_challenge_map_dom(before);
        }
        self.pending.push(PendingChallenge {
            correlation_id,
            capability: capability.clone(),
            app_id: self.listeners[idx].app_id.clone(),
            caller,
            deadline: now + timeout_ms,
            respond_to,
        });
        proof {
            assert(self.pending@.drop_last() =~= before);
            assert(distinct_challenges(self.pending@));
            assert(final(self).challenges() =~= old(self).challenges().insert(
                self.pending@.last().correlation_id@,
                self.pending@.last(),
            ));
        }
        Ok(delivery)
    }

    /// Resolves the challenge a provider's answer correlates with: the parked
    /// reply channel receives the answer and the id is retired. An unknown id
    /// — already resolved, timed out, or never issued — changes nothing and
    /// reports `false`.
    pub fn provider_response(&mut self, resp: ProviderResponse) -> (r: bool)
        requires
            old(self).wf(),
        ensures
            final(self).wf(),
            final(self).listeners_seq() == old(self).listeners_seq(),
            final(self).methods_seq() == old(self).methods_seq(),
            old(self).challenges().dom().contains(resp.correlation_id@)
                ==> r && final(self).challenges() == old(self).challenges().remove(resp.correlation_id@),
            !old(self).challenges().dom().contains(resp.correlation_id@)
                ==> !r && final(self).challenges() == old(self).challenges(),
    {
        let mut i: usize = 0;
        while i < self.pending.len()
            invariant
                i <= self.pending@.len(),
                self.pending@ == old(self).pending@,
                self.listeners@ == old(self).listeners@,
                self.methods@ == old(self).methods@,
                old(self).wf(),
                forall|j: int| 0 <= j < i ==> (#[trigger] self.pending@[j]).correlation_id@ != resp.correlation_id@,
            decreases self.pending@.len() - i,
        {
            if self.pending[i].correlation_id == resp.correlation_id {
                proof {
                    lemma_challenge_map_dom(self.pending@);
                    lemma_challenge_map_remove(self.pending@, i as int);
                }
                let c = self.pending.remove(i);
                let _ = oneshot_send(c.respond_to, ChallengeReply::Answer(resp.result));
                return true;
            }
            i = i + 1;
        }
        proof {
            lemma_challenge_map_dom(self.pending@);
        }
        false
    }

    /// Routes a focus directive to the single listening app for the
    /// capability; zero listeners or more than one is an error.
    pub fn focus(&self, ctx: &CallContext, capability: &String, request: &FocusRequest) -> (r: Result<
        FocusDelivery,
        RoutingError,
    >)
        requires
            self.wf(),
        ensures
            cap_count(self.listeners_seq(), capability@) == 0 ==> r == Err::<FocusDelivery, RoutingError>(
                RoutingError::NoProviderRegistered,
            ),
            cap_count(self.listeners_seq(), capability@) >= 2 ==> r == Err::<FocusDelivery, RoutingError>(
                RoutingError::AmbiguousProvider,
            ),
            cap_count(self.listeners_seq(), capability@) == 1 ==> (r matches Ok(d)
                && (exists|i: int| 0 <= i < self.listeners_seq().len()
                    && (#[trigger] self.listeners_seq()[i]).capability@ == capability@
                    && d.app_id@ == self.listeners_seq()[i].app_id@
                    && d.event@ == self.listeners_seq()[i].event@)),
    {
        let _ = ctx;
        let _ = request;
        let (count, found) = self.find_cap_listener(capability);
        if count == 0 {
            return Err(RoutingError::NoProviderRegistered);
        }
        if count >= 2 {
            return Err(RoutingError::AmbiguousProvider);
        }
        match found {
            Some(fi) => Ok(FocusDelivery {
                app_id: self.listeners[fi].app_id.clone(),
                event: self.listeners[fi].event.clone(),
            }),
            None => {
                proof {
                    assert(false);
                }
                Err(RoutingError::NoProviderRegistered)
            },
        }
    }

    /// Resolves every challenge whose deadline has passed with a timeout
    /// outcome and retires it; challenges still within their deadline stay
    /// untouched. This is what guarantees exactly-once resolution even when a
    /// provider never answers.
    pub fn expire(&mut self, now: u64)
        requires
            old(self).wf(),
        ensures
            final(self).wf(),
            final(self).listeners_seq() == old(self).listeners_seq(),
            final(self).methods_seq() == old(self).methods_seq(),
            final(self).challenges() == surviving(old(self).challenges(), now),
    {
        let mut i: usize = 0;
        while i < self.pending.len()
            invariant
                i <= self.pending@.len(),
                distinct_challenges(self.pending@),
                self.listeners@ == old(self).listeners@,
                self.methods@ == old(self).methods@,
                surviving(challenge_map(self.pending@), now) == surviving(old(self).challenges(), now),
                forall|j: int| 0 <= j < i ==> (#[trigger] self.pending@[j]).deadline > now,
            decreases self.pending@.len() - i,
        {
            if self.pending[i].deadline <= now {
                proof {
                    lemma_challenge_map_remove(self.pending@, i as int);
                    lemma_challenge_map_index(self.pending@, i as int);
                    assert(surviving(
                        challenge_map(self.pending@).remove(self.pending@[i as int].correlation_id@),
                        now,
                    ) =~= surviving(challenge_map(self.pending@), now));
                }
                let c = self.pending.remove(i);
                let _ = oneshot_send(c.respond_to, ChallengeReply::Timeout);
            } else {
                i = i + 1;
            }
        }
        proof {
            lemma_challenge_map_dom(self.pending@);
            assert forall|k: Seq<char>| #[trigger] challenge_map(self.pending@).dom().contains(k)
                implies challenge_map(self.pending@)[k].deadline > now by {
                let i = choose|i: int| 0 <= i < self.pending@.len() && self.pending@[i].correlation_id@ == k;
                lemma_challenge_map_index(self.pending@, i);
            }
            assert(challenge_map(self.pending@) =~= surviving(challenge_map(self.pending@), now));
        }
    }
}

} // verus!
