//! The routing layer's guarantees, stated over the models its contracts
//! speak in: the correlation tables (`ApiGateway::pending_map`,
//! `ProviderBroker::challenges`), the method-ownership registry
//! (`ApiGateway::owners`) and the listener rows
//! (`ProviderBroker::listeners_seq`).

use vstd::prelude::*;

use crate::provider::{
    cap_count, lemma_cap_count_zero, removed_listener, surviving, PendingChallenge,
    ProviderListener,
};
use crate::routing::{methods_owned_by, MethodOwnership};
use crate::types::{JqRule, ServiceId};

verus! {

/// Exactly-once resolution: delivering the outcome for a correlation id
/// retires the id — the table no longer holds it — while every other
/// in-flight request keeps its own reply channel. `ApiGateway::dispatch` and
/// `ProviderBroker::dispatch_challenge` park a channel under a fresh id;
/// `handle_service_reply`, `provider_response` and `expire` remove an id
/// exactly when they deliver its one outcome.
pub proof fn lemma_reply_consumed_once<K, V>(pending: Map<K, V>, id: K)
    requires
        pending.dom().contains(id),
    ensures
        !pending.remove(id).dom().contains(id),
        forall|other: K| other != id && pending.dom().contains(other)
            ==> (#[trigger] pending.remove(id).dom().contains(other))
                && pending.remove(id)[other] == pending[other],
{
}

/// Correlation correctness: replies are matched by correlation id alone, so
/// replies delivered out of order still reach their own callers — resolving
/// the second request first leaves the first request's channel in place,
/// untouched, and the other way round.
pub proof fn lemma_out_of_order_replies<K, V>(pending: Map<K, V>, first: K, second: K)
    requires
        pending.dom().contains(first),
        pending.dom().contains(second),
        first != second,
    ensures
        pending.remove(second).dom().contains(first),
        pending.remove(second)[first] == pending[first],
        pending.remove(first).dom().contains(second),
        pending.remove(first)[second] == pending[second],
{
}

/// A duplicate reply is a no-op: a reply whose correlation id is no longer
/// in the table resolves nothing and leaves the table exactly as it was —
/// the branch `handle_service_reply` and `provider_response` take for an
/// unknown id.
pub proof fn lemma_duplicate_reply_is_noop<K, V>(pending: Map<K, V>, id: K)
    requires
        !pending.dom().contains(id),
    ensures
        pending.remove(id) == pending,
{
    assert(pending.remove(id) =~= pending);
}

/// Timeouts fire deterministically: a pending challenge keeps its channel
/// through every sweep strictly before its deadline, and any sweep at or
/// past the deadline resolves it with the timeout outcome and retires it —
/// `dispatch_challenge` sets the deadline to dispatch time plus the timeout,
/// and `expire(now)` leaves exactly the challenges with `deadline > now`.
pub proof fn lemma_timeout_fires_deterministically(
    pending: Map<Seq<char>, PendingChallenge>,
    id: Seq<char>,
    now: u64,
)
    requires
        pending.dom().contains(id),
    ensures
        now < pending[id].deadline ==> surviving(pending, now).dom().contains(id) && surviving(
            pending,
            now,
        )[id] == pending[id],
        now >= pending[id].deadline ==> !surviving(pending, now).dom().contains(id),
{
}

/// Ownership conflicts resolve first-writer-wins: once a service owns a
/// method, the name is taken — `register_method` refuses every owned name
/// with a duplicate-registration error — and only after that owner
/// unregisters (which frees all its methods at once) is the name open to
/// another service.
pub proof fn lemma_ownership_conflict(
    owners: Map<Seq<char>, MethodOwnership>,
    method: Seq<char>,
    first: ServiceId,
    rule: Option<JqRule>,
)
    requires
        !owners.dom().contains(method),
    ensures
        owners.insert(method, MethodOwnership { service: first, rule }).dom().contains(method),
        !owners.insert(method, MethodOwnership { service: first, rule }).remove_keys(
            methods_owned_by(
                owners.insert(method, MethodOwnership { service: first, rule }),
                first.service_id@,
            ),
        ).dom().contains(method),
{
    let after_first = owners.insert(method, MethodOwnership { service: first, rule });
    assert(methods_owned_by(after_first, first.service_id@).contains(method));
}

/// Listener toggling governs delivery: with no other listener for the
/// capability, toggling one (capability, app) listener on leaves exactly one
/// listening row — the one every dispatch and focus for that capability must
/// target — and toggling it off leaves none, so a dispatch reports that no
/// provider is registered. `register_or_unregister_listener` rebuilds the
/// rows as `removed_listener` and appends the row exactly when listening
/// starts.
pub proof fn lemma_listener_toggle(s: Seq<ProviderListener>, l: ProviderListener)
    requires
        cap_count(removed_listener(s, l.capability@, l.app_id@), l.capability@) == 0,
    ensures
        cap_count(removed_listener(s, l.capability@, l.app_id@).push(l), l.capability@) == 1,
        forall|i: int| 0 <= i < removed_listener(s, l.capability@, l.app_id@).push(l).len()
            && (#[trigger] removed_listener(s, l.capability@, l.app_id@).push(l)[i]).capability@
                == l.capability@ ==> removed_listener(s, l.capability@, l.app_id@).push(l)[i] == l,
{
    let t = removed_listener(s, l.capability@, l.app_id@);
    assert(t.push(l).drop_last() =~= t);
    assert(t.push(l).last() == l);
    lemma_cap_count_zero(t, l.capability@);
    assert forall|i: int| 0 <= i < t.push(l).len() && (#[trigger] t.push(l)[i]).capability@
        == l.capability@ implies t.push(l)[i] == l by {
        if i < t.len() {
            assert(t[i].capability@ != l.capability@);
        }
    }
}

} // verus!
