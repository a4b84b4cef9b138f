//! Traffic policies: rules applied to traffic entering or leaving the edge.

use vstd::prelude::*;

use crate::proto;
use vstd::string::StrSliceExecFns;
use crate::text::{copy_opt_string, copy_strings, opt_view, owned, strs_view};

verus! {

/// A policy that defines rules that should be applied to incoming or outgoing
/// connections to the edge.
#[derive(Clone, Debug)]
pub struct Policy {
    pub inbound: Vec<Rule>,
    pub outbound: Vec<Rule>,
}

/// A policy rule.
#[derive(Clone, Debug)]
pub struct Rule {
    pub name: String,
    pub expressions: Vec<String>,
    pub actions: Vec<Action>,
}

/// An action taken when a rule matches. `config` holds the action's JSON
/// configuration in its compact serialized form.
#[derive(Clone, Debug)]
pub struct Action {
    pub type_: String,
    pub config: Option<String>,
}

#[verifier::external_type_specification]
#[verifier::external_body]
pub struct ExJsonError(serde_json::Error);

/// Errors in creating policies.
#[derive(Debug)]
pub enum InvalidPolicy {
    /// The text is not valid JSON, or not a policy.
    SerializationError(serde_json::Error),
    /// The policy file at the given path could not be read.
    FileReadError(std::io::Error, String),
}

/// The compact serialization of the JSON value that a text denotes, or
/// `None` when the text is not valid JSON (`serde_json::from_str` into a
/// `serde_json::Value`, then `to_string`).
pub uninterp spec fn spec_json_compact(s: Seq<char>) -> Option<Seq<char>>;

/// Parses JSON text and serializes it back compactly.
///
/// Trusted: `serde_json::from_str::<serde_json::Value>` succeeds exactly when
/// `spec_json_compact` is `Some`, and the value's `to_string` is that text.
/// What the compact form looks like is not stated.
#[verifier::external_body]
fn json_compact(s: &str) -> (r: Result<String, serde_json::Error>)
    ensures
        match r {
            Ok(t) => spec_json_compact(s@) == Some(t@),
            Err(_) => spec_json_compact(s@) is None,
        },
{
    serde_json::from_str::<serde_json::Value>(s).map(|v| v.to_string())
}

impl Policy {
    /// An empty policy.
    pub fn new() -> (r: Policy)
        ensures
            r.inbound@.len() == 0,
            r.outbound@.len() == 0,
    {
        Policy { inbound: Vec::new(), outbound: Vec::new() }
    }

    /// Adds an inbound rule.
    pub fn add_inbound(&mut self, rule: Rule) -> (r: &mut Self)
        ensures
            r.inbound@ == old(self).inbound@.push(rule),
            r.outbound@ == old(self).outbound@,
            *final(self) == *final(r),
    {
        self.inbound.push(rule);
        self
    }

    /// Adds an outbound rule.
    pub fn add_outbound(&mut self, rule: Rule) -> (r: &mut Self)
        ensures
            r.outbound@ == old(self).outbound@.push(rule),
            r.inbound@ == old(self).inbound@,
            *final(self) == *final(r),
    {
        self.outbound.push(rule);
        self
    }

    /// The wire form: each rule converted, in order.
    pub fn to_proto(&self) -> (r: proto::Policy)
        ensures
            rules_match(self.inbound@, r.inbound@),
            rules_match(self.outbound@, r.outbound@),
    {
        proto::Policy { inbound: rules_to_proto(&self.inbound), outbound: rules_to_proto(&self.outbound) }
    }
}

/// A list of wire rules converts a list of rules, one for one.
pub open spec fn rules_match(rs: Seq<Rule>, ps: Seq<proto::Rule>) -> bool {
    rs.len() == ps.len() && forall|i: int| 0 <= i < rs.len() ==> rule_matches(#[trigger] rs[i], ps[i])
}

/// A wire rule converts a rule: same name, expressions and actions.
pub open spec fn rule_matches(r: Rule, p: proto::Rule) -> bool {
    &&& p.name@ == r.name@
    &&& strs_view(p.expressions@) == strs_view(r.expressions@)
    &&& p.actions@.len() == r.actions@.len()
    &&& forall|j: int| 0 <= j < r.actions@.len() ==> action_matches(#[trigger] r.actions@[j], p.actions@[j])
}

/// A wire action converts an action: same type; the configuration's UTF-8
/// bytes, or no bytes when there is no configuration.
pub open spec fn action_matches(a: Action, p: proto::Action) -> bool {
    &&& p.type_@ == a.type_@
    &&& p.config@ == match a.config {
        Some(c) => vstd::utf8::encode_utf8(c@),
        None => Seq::<u8>::empty(),
    }
}

fn rules_to_proto(rs: &Vec<Rule>) -> (r: Vec<proto::Rule>)
    ensures
        rules_match(rs@, r@),
{
    let mut out: Vec<proto::Rule> = Vec::new();
    let mut i: usize = 0;
    while i < rs.len()
        invariant
            i <= rs.len(),
            out@.len() == i,
            forall|k: int| 0 <= k < i ==> rule_matches(#[trigger] rs@[k], out@[k]),
        decreases rs.len() - i,
    {
        out.push(rs[i].to_proto());
        i = i + 1;
    }
    out
}

/// Copies a list of rules.
fn copy_rules(rs: &Vec<Rule>) -> (r: Vec<Rule>)
    ensures
        r@.len() == rs@.len(),
        forall|i: int| 0 <= i < rs@.len() ==> rule_same(#[trigger] r@[i], rs@[i]),
{
    let mut out: Vec<Rule> = Vec::new();
    let mut i: usize = 0;
    while i < rs.len()
        invariant
            i <= rs.len(),
            out@.len() == i,
            forall|k: int| 0 <= k < i ==> rule_same(#[trigger] out@[k], rs@[k]),
        decreases rs.len() - i,
    {
        out.push(rs[i].copy());
        i = i + 1;
    }
    out
}

/// Two rules hold the same texts.
pub open spec fn rule_same(a: Rule, b: Rule) -> bool {
    &&& a.name@ == b.name@
    &&& a.expressions@ == b.expressions@
    &&& a.actions@.len() == b.actions@.len()
    &&& forall|j: int| 0 <= j < a.actions@.len() ==> action_same(#[trigger] a.actions@[j], b.actions@[j])
}

/// Two actions hold the same texts.
pub open spec fn action_same(a: Action, b: Action) -> bool {
    a.type_@ == b.type_@ && opt_view(a.config) == opt_view(b.config)
}

/// Two policies hold the same rules.
pub open spec fn policy_same(a: Policy, b: Policy) -> bool {
    &&& a.inbound@.len() == b.inbound@.len()
    &&& forall|i: int| 0 <= i < a.inbound@.len() ==> rule_same(#[trigger] a.inbound@[i], b.inbound@[i])
    &&& a.outbound@.len() == b.outbound@.len()
    &&& forall|i: int| 0 <= i < a.outbound@.len() ==> rule_same(#[trigger] a.outbound@[i], b.outbound@[i])
}

impl Default for Policy {
    /// An empty policy.
    fn default() -> (r: Policy)
        ensures
            r.inbound@.len() == 0,
            r.outbound@.len() == 0,
    {
        Policy::new()
    }
}

impl Default for Rule {
    /// A rule with an empty name, no expressions and no actions.
    fn default() -> (r: Rule)
        ensures
            r.name@.len() == 0,
            r.expressions@.len() == 0,
            r.actions@.len() == 0,
    {
        Rule { name: String::new(), expressions: Vec::new(), actions: Vec::new() }
    }
}

impl Default for Action {
    /// An action with an empty type and no configuration.
    fn default() -> (r: Action)
        ensures
            r.type_@.len() == 0,
            r.config is None,
    {
        Action { type_: String::new(), config: None }
    }
}

impl Policy {
    /// A copy of this policy.
    pub fn copy(&self) -> (r: Policy)
        ensures
            policy_same(r, *self),
    {
        Policy { inbound: copy_rules(&self.inbound), outbound: copy_rules(&self.outbound) }
    }
}

impl Rule {
    /// A copy of this rule.
    pub fn copy(&self) -> (r: Rule)
        ensures
            rule_same(r, *self),
    {
        let mut actions: Vec<Action> = Vec::new();
        let mut i: usize = 0;
        while i < self.actions.len()
            invariant
                i <= self.actions.len(),
                actions@.len() == i,
                forall|k: int| 0 <= k < i ==> action_same(#[trigger] actions@[k], self.actions@[k]),
            decreases self.actions.len() - i,
        {
            let a = Action { type_: self.actions[i].type_.clone(), config: copy_opt_string(&self.actions[i].config) };
            actions.push(a);
            i = i + 1;
        }
        Rule { name: self.name.clone(), expressions: copy_strings(&self.expressions), actions }
    }

    /// A rule with the given name and no expressions or actions.
    pub fn new(name: &str) -> (r: Rule)
        ensures
            r.name@ == name@,
            r.expressions@.len() == 0,
            r.actions@.len() == 0,
    {
        Rule { name: owned(name), expressions: Vec::new(), actions: Vec::new() }
    }

    /// Adds an expression.
    pub fn add_expression(&mut self, expression: &str) -> (r: &mut Self)
        ensures
            r.name == old(self).name,
            strs_view(r.expressions@) == strs_view(old(self).expressions@).push(expression@),
            r.actions@ == old(self).actions@,
            *final(self) == *final(r),
    {
        let ghost before = self.expressions@;
        self.expressions.push(owned(expression));
        assert(strs_view(self.expressions@) =~= strs_view(before).push(expression@));
        self
    }

    /// Adds an action.
    pub fn add_action(&mut self, action: Action) -> (r: &mut Self)
        ensures
            r.name == old(self).name,
            r.expressions@ == old(self).expressions@,
            r.actions@ == old(self).actions@.push(action),
            *final(self) == *final(r),
    {
        self.actions.push(action);
        self
    }

    /// The wire form.
    pub fn to_proto(&self) -> (r: proto::Rule)
        ensures
            rule_matches(*self, r),
    {
        let mut actions: Vec<proto::Action> = Vec::new();
        let mut i: usize = 0;
        while i < self.actions.len()
            invariant
                i <= self.actions.len(),
                actions@.len() == i,
                forall|k: int| 0 <= k < i ==> action_matches(#[trigger] self.actions@[k], actions@[k]),
            decreases self.actions.len() - i,
        {
            actions.push(self.actions[i].to_proto());
            i = i + 1;
        }
        let expressions = copy_strings(&self.expressions);
        proto::Rule { name: self.name.clone(), expressions, actions }
    }
}

impl Action {
    /// An action of the given type; its configuration, if any, must be JSON.
    pub fn new(type_: &str, config: Option<&str>) -> (r: Result<Action, InvalidPolicy>)
        ensures
            match config {
                None => r matches Ok(a) && a.type_@ == type_@ && a.config is None,
                Some(c) => match spec_json_compact(c@) {
                    Some(t) => r matches Ok(a) && a.type_@ == type_@ && opt_view(a.config) == Some(t),
                    None => r matches Err(InvalidPolicy::SerializationError(_)),
                },
            },
    {
        match config {
            None => Ok(Action { type_: owned(type_), config: None }),
            Some(c) => match json_compact(c) {
                Ok(t) => Ok(Action { type_: owned(type_), config: Some(t) }),
                Err(e) => Err(InvalidPolicy::SerializationError(e)),
            },
        }
    }

    /// The wire form.
    pub fn to_proto(&self) -> (r: proto::Action)
        ensures
            action_matches(*self, r),
    {
        let config = match &self.config {
            Some(c) => c.as_str().as_bytes_vec(),
            None => Vec::new(),
        };
        proto::Action { type_: self.type_.clone(), config }
    }
}

} // verus!
