//! The reshaping rule a handler declaration turns into: the gateway's rules
//! engine consumes these to transform a service's raw reply (the engine
//! itself is an outside collaborator; only the rule shape lives here).

use vstd::prelude::*;

use crate::types::Handler;

verus! {

/// Transforms a rule may apply around a call.
#[derive(Debug, Clone)]
pub struct RuleTransform {
    pub request: Option<String>,
    pub response: Option<String>,
    pub event: Option<String>,
}

impl RuleTransform {
    /// A transform that changes nothing.
    pub fn none() -> (r: Self)
        ensures
            r.request is None,
            r.response is None,
            r.event is None,
    {
        RuleTransform { request: None, response: None, event: None }
    }
}

/// One rule of the rules engine, as a handler declares it.
#[derive(Debug, Clone)]
pub struct Rule {
    pub alias: String,
    pub filter: Option<String>,
    pub transform: RuleTransform,
    pub event_handler: Option<String>,
    pub endpoint: Option<String>,
    pub sources: Option<Vec<String>>,
}

impl Handler {
    /// The rule a handler stands for: its alias and filter expression, with
    /// no further transform; a handler with no rule filters nothing.
    pub fn to_rule(&self) -> (r: Rule)
        ensures
            r.alias@ == self.display_name_spec(),
            match self {
                Handler::NoRule => r.filter is None,
                Handler::JqRule(jq) => r.filter matches Some(f) && f@ == jq.rule@,
                Handler::StaticRule(st) => r.filter matches Some(f) && f@ == st.rule@,
            },
            r.transform.request is None,
            r.transform.response is None,
            r.transform.event is None,
            r.event_handler is None,
            r.endpoint is None,
            r.sources is None,
    {
        match self {
            Handler::NoRule => Rule {
                alias: self.display_name(),
                filter: None,
                transform: RuleTransform::none(),
                event_handler: None,
                endpoint: None,
                sources: None,
            },
            Handler::JqRule(jq_rule) => Rule {
                alias: jq_rule.alias.clone(),
                filter: Some(jq_rule.rule.clone()),
                transform: RuleTransform::none(),
                event_handler: None,
                endpoint: None,
                sources: None,
            },
            Handler::StaticRule(static_rule) => Rule {
                alias: static_rule.alias.clone(),
                filter: Some(static_rule.rule.clone()),
                transform: RuleTransform::none(),
                event_handler: None,
                endpoint: None,
                sources: None,
            },
        }
    }
}

} // verus!
