//! Labeled tunnels: options, builder, and the bind request they produce.

use vstd::prelude::*;

use crate::config::common::{
    common_with_forwards_proto, common_with_forwards_to, common_with_metadata, is_default_common,
    text_or_empty, CommonOpts,
};
use crate::config::http::{bind_extra_for, bind_extra_of};
use crate::proto::{BindExtra, BindOpts};
use crate::strmap::StringMap;
use crate::text::{copy_string, owned};
use crate::urls::UrlParts;

verus! {

/// The options of a labeled tunnel.
#[derive(Clone)]
pub struct LabeledOptions {
    pub common_opts: CommonOpts,
    /// The labels that route traffic from edges to this tunnel.
    pub labels: StringMap,
}

/// `o` with its common options replaced by `c`.
pub open spec fn labeled_with_common(o: LabeledOptions, c: CommonOpts) -> LabeledOptions {
    LabeledOptions { common_opts: c, ..o }
}

impl LabeledOptions {
    /// The defaults: nothing set, no labels.
    pub fn new() -> (r: LabeledOptions)
        ensures
            is_default_common(r.common_opts),
            r.labels.view() == Map::<Seq<char>, Seq<char>>::empty(),
    {
        LabeledOptions { common_opts: CommonOpts::new(), labels: StringMap::new() }
    }

    /// The "forwards to" text: the one set, or else `default`.
    pub fn forwards_to(&self, default: &str) -> (r: String)
        ensures
            r@ == match self.common_opts.forwards_to {
                Some(f) => f@,
                None => default@,
            },
    {
        self.common_opts.forwards_to_or(default)
    }

    /// The L7 protocol of the upstream; empty when unset.
    pub fn forwards_proto(&self) -> (r: String)
        ensures
            r@ == text_or_empty(self.common_opts.forwards_proto),
    {
        self.common_opts.forwards_proto_text()
    }

    /// Whether the upstream's TLS certificate is verified.
    pub fn verify_upstream_tls(&self) -> (r: bool)
        ensures
            r == self.common_opts.verify_upstream_tls,
    {
        self.common_opts.verify_upstream_tls
    }

    /// The bind-request extras.
    pub fn extra(&self) -> (r: BindExtra)
        ensures
            bind_extra_for(self.common_opts, r),
    {
        bind_extra_of(&self.common_opts)
    }

    /// The protocol: empty, as labeled tunnels are started by label.
    pub fn proto(&self) -> (r: String)
        ensures
            r@.len() == 0,
    {
        String::new()
    }

    /// The bind options: none.
    pub fn opts(&self) -> (r: Option<BindOpts>)
        ensures
            r is None,
    {
        None
    }

    /// The labels.
    pub fn labels(&self) -> (r: StringMap)
        ensures
            r.view() == self.labels.view(),
    {
        self.labels.copy()
    }
}

/// A builder for a labeled tunnel.
#[derive(Clone)]
pub struct LabeledTunnelBuilder {
    /// The options built so far.
    pub options: LabeledOptions,
}

impl LabeledTunnelBuilder {
    /// A builder holding the default options.
    pub fn new() -> (r: LabeledTunnelBuilder)
        ensures
            is_default_common(r.options.common_opts),
            r.options.labels.view() == Map::<Seq<char>, Seq<char>>::empty(),
    {
        LabeledTunnelBuilder { options: LabeledOptions::new() }
    }

    /// Sets the opaque metadata string for this tunnel.
    pub fn metadata(&mut self, metadata: &str) -> (r: &mut Self)
        ensures
            common_with_metadata(old(self).options.common_opts, r.options.common_opts, metadata@),
            r.options == labeled_with_common(old(self).options, r.options.common_opts),
            *final(self) == *final(r),
    {
        self.options.common_opts.metadata = Some(owned(metadata));
        self
    }

    /// Adds (or replaces) a label for this tunnel.
    pub fn label(&mut self, label: &str, value: &str) -> (r: &mut Self)
        ensures
            r.options.labels.view() == old(self).options.labels.view().insert(label@, value@),
            r.options.common_opts == old(self).options.common_opts,
            *final(self) == *final(r),
    {
        self.options.labels.insert(owned(label), owned(value));
        self
    }

    /// Sets the "forwards to" text for this tunnel, shown in the API and
    /// dashboard.
    pub fn forwards_to(&mut self, forwards_to: &str) -> (r: &mut Self)
        ensures
            common_with_forwards_to(old(self).options.common_opts, r.options.common_opts, forwards_to@),
            r.options == labeled_with_common(old(self).options, r.options.common_opts),
            *final(self) == *final(r),
    {
        self.options.common_opts.forwards_to = Some(owned(forwards_to));
        self
    }

    /// Sets the L7 protocol for this tunnel.
    pub fn app_protocol(&mut self, app_protocol: &str) -> (r: &mut Self)
        ensures
            common_with_forwards_proto(old(self).options.common_opts, r.options.common_opts, app_protocol@),
            r.options == labeled_with_common(old(self).options, r.options.common_opts),
            *final(self) == *final(r),
    {
        self.options.common_opts.forwards_proto = Some(owned(app_protocol));
        self
    }

    /// Sets whether the upstream's TLS certificate is verified for forwards
    /// from this tunnel.
    pub fn verify_upstream_tls(&mut self, verify_upstream_tls: bool) -> (r: &mut Self)
        ensures
            r.options == labeled_with_common(
                old(self).options,
                (CommonOpts { verify_upstream_tls, ..old(self).options.common_opts }),
            ),
            *final(self) == *final(r),
    {
        self.options.common_opts.set_verify_upstream_tls(verify_upstream_tls);
        self
    }

    /// Prepares the options for forwarding to a URL: records it as the
    /// "forwards to" text.
    pub fn for_forwarding_to(&mut self, to_url: &UrlParts) -> (r: &mut Self)
        ensures
            common_with_forwards_to(
                old(self).options.common_opts,
                r.options.common_opts,
                to_url.serialization@,
            ),
            r.options == labeled_with_common(old(self).options, r.options.common_opts),
            *final(self) == *final(r),
    {
        self.options.common_opts.forwards_to = Some(copy_string(&to_url.serialization));
        self
    }
}

} // verus!
