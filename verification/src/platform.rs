//! The shared platform state the RPC layer hands around: the provider
//! broker, the declared provider relations, the app-event listener table and
//! the handle into the gateway's routing queue.

use vstd::prelude::*;

use crate::provider::{ListenRequest, ProviderBroker};
use crate::registrar::ProviderRelationSet;
use crate::routing::ServiceRoutingRequest;
use crate::types::CallContext;

verus! {

/// One app listening for a plain application event.
#[derive(Debug, Clone)]
pub struct AppEventListener {
    pub event: String,
    pub app_id: String,
    pub call_id: u64,
}

/// The app-event rows left after one (event, app) pair stops listening.
pub open spec fn removed_app_listener(s: Seq<AppEventListener>, event: Seq<char>, app: Seq<char>) -> Seq<AppEventListener>
    decreases s.len(),
{
    if s.len() == 0 {
        Seq::empty()
    } else if s.last().event@ == event && s.last().app_id@ == app {
        removed_app_listener(s.drop_last(), event, app)
    } else {
        removed_app_listener(s.drop_last(), event, app).push(s.last())
    }
}

/// What the assembled gateway process shares across its RPC handlers.
pub struct PlatformState {
    pub provider_broker: ProviderBroker,
    pub provider_relations: Vec<(String, ProviderRelationSet)>,
    pub app_event_listeners: Vec<AppEventListener>,
    pub services_gateway_sender: Option<tokio::sync::mpsc::Sender<ServiceRoutingRequest>>,
}

impl PlatformState {
    /// A fresh state with no listeners, no relations and no gateway handle.
    pub fn new() -> (r: Self)
        ensures
            r.provider_broker.wf(),
            r.provider_broker.listeners_seq() == Seq::<crate::provider::ProviderListener>::empty(),
            r.provider_broker.challenges() == Map::<Seq<char>, crate::provider::PendingChallenge>::empty(),
            r.provider_relations@ == Seq::<(String, ProviderRelationSet)>::empty(),
            r.app_event_listeners@ == Seq::<AppEventListener>::empty(),
            r.services_gateway_sender is None,
    {
        PlatformState {
            provider_broker: ProviderBroker::new(),
            provider_relations: Vec::new(),
            app_event_listeners: Vec::new(),
            services_gateway_sender: None,
        }
    }

    /// Replaces the declared provider relations wholesale.
    pub fn set_provider_relation_map(&mut self, relations: Vec<(String, ProviderRelationSet)>)
        ensures
            final(self).provider_relations == relations,
            final(self).provider_broker == old(self).provider_broker,
            final(self).app_event_listeners == old(self).app_event_listeners,
            final(self).services_gateway_sender == old(self).services_gateway_sender,
    {
        self.provider_relations = relations;
    }

    /// Attaches the gateway's routing queue.
    pub fn set_services_gateway_sender(&mut self, sender: tokio::sync::mpsc::Sender<ServiceRoutingRequest>)
        ensures
            final(self).services_gateway_sender == Some(sender),
            final(self).provider_broker == old(self).provider_broker,
            final(self).provider_relations == old(self).provider_relations,
            final(self).app_event_listeners == old(self).app_event_listeners,
    {
        self.services_gateway_sender = Some(sender);
    }
}

/// Starts or stops one app's subscription to an application event: `listen`
/// appends a row, `!listen` drops every row for that (event, app) pair.
pub fn add_app_event_listener(
    state: &mut PlatformState,
    event: String,
    ctx: &CallContext,
    request: &ListenRequest,
)
    ensures
        final(state).provider_broker == old(state).provider_broker,
        final(state).provider_relations == old(state).provider_relations,
        final(state).services_gateway_sender == old(state).services_gateway_sender,
        request.listen ==> {
            &&& final(state).app_event_listeners@.len() == old(state).app_event_listeners@.len() + 1
            &&& final(state).app_event_listeners@.drop_last() == old(state).app_event_listeners@
            &&& final(state).app_event_listeners@.last().event@ == event@
            &&& final(state).app_event_listeners@.last().app_id@ == ctx.app_id@
            &&& final(state).app_event_listeners@.last().call_id == ctx.call_id
        },
        !request.listen ==> final(state).app_event_listeners@ == removed_app_listener(
            old(state).app_event_listeners@,
            event@,
            ctx.app_id@,
        ),
{
    if request.listen {
        state.app_event_listeners.push(AppEventListener {
            event,
            app_id: ctx.app_id.clone(),
            call_id: ctx.call_id,
        });
    } else {
        let ghost src = state.app_event_listeners@;
        let mut kept: Vec<AppEventListener> = Vec::new();
        let mut i: usize = 0;
        while i < state.app_event_listeners.len()
            invariant
                i <= state.app_event_listeners@.len(),
                state.app_event_listeners@ == src,
                kept@ == removed_app_listener(src.subrange(0, i as int), event@, ctx.app_id@),
            decreases state.app_event_listeners@.len() - i,
        {
            let ghost prefix = src.subrange(0, i as int);
            proof {
                assert(src.subrange(0, i + 1 as int).drop_last() =~= prefix);
                assert(src.subrange(0, i + 1 as int).last() == src[i as int]);
            }
            let l = &state.app_event_listeners[i];
            if !(l.event == event && l.app_id == ctx.app_id) {
                kept.push(AppEventListener {
                    event: l.event.clone(),
                    app_id: l.app_id.clone(),
                    call_id: l.call_id,
                });
                proof {
                    assert(kept@ =~= removed_app_listener(prefix, event@, ctx.app_id@).push(src[i as int]));
                }
            }
            i = i + 1;
        }
        proof {
            assert(src.subrange(0, src.len() as int) =~= src);
        }
        state.app_event_listeners = kept;
    }
}

} // verus!
