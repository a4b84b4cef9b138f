//! Options shared by all tunnel kinds.

use vstd::prelude::*;

use crate::config::policies::Policy;
use crate::proto::{IpRestriction, ProxyProto};
use crate::text::{
    copy_strings, decimal, opt_view, owned, push_char, push_decimal, push_str, spec_to_lowercase,
    strs_view, to_lowercase,
};

verus! {

/// The text `app://{hostname}/{exe}?pid={pid}` that describes the current
/// process when no forwarding target was given.
pub open spec fn default_forwards_to_text(hostname: Seq<char>, exe: Seq<char>, pid: nat) -> Seq<
    char,
> {
    seq!['a', 'p', 'p', ':', '/', '/'] + hostname + seq!['/'] + exe + seq!['?', 'p', 'i', 'd', '=']
        + decimal(pid)
}

/// Describes the current process as `app://{hostname}/{exe}?pid={pid}`.
pub fn default_forwards_to(hostname: &str, exe: &str, pid: u32) -> (r: String)
    ensures
        r@ == default_forwards_to_text(hostname@, exe@, pid as nat),
{
    let mut r = String::new();
    let pre = "app://";
    let q = "?pid=";
    proof {
        reveal_strlit("app://");
        reveal_strlit("?pid=");
    }
    push_str(&mut r, pre);
    push_str(&mut r, hostname);
    push_char(&mut r, '/');
    push_str(&mut r, exe);
    push_str(&mut r, q);
    push_decimal(&mut r, pid as u128);
    assert(r@ =~= default_forwards_to_text(hostname@, exe@, pid as nat));
    r
}

/// The application layer (L7) protocols that an upstream may speak.
#[derive(Clone, Copy, Debug, PartialEq, Eq, Structural)]
pub enum AppProtocol {
    /// No specific protocol is specified.
    Unspecified,
    /// HTTP/1.1.
    HTTP1,
    /// HTTP/2.
    HTTP2,
}

/// Errors that can occur while parsing a string into an `AppProtocol`.
#[derive(Clone, Debug, PartialEq, Eq)]
pub enum AppProtocolParseError {
    /// The input string does not match any valid `AppProtocol` variant.
    Invalid(String),
    /// The input string matches a known but unsupported `AppProtocol` variant.
    Unsupported(String),
}

/// `"http1"`.
pub open spec fn http1_text() -> Seq<char> {
    seq!['h', 't', 't', 'p', '1']
}

/// `"http2"`.
pub open spec fn http2_text() -> Seq<char> {
    seq!['h', 't', 't', 'p', '2']
}

/// `"http3"`.
pub open spec fn http3_text() -> Seq<char> {
    seq!['h', 't', 't', 'p', '3']
}

/// Whether a string is exactly the given characters.
pub fn str_is(s: &str, t: &Vec<char>) -> (r: bool)
    ensures
        r == (s@ == t@),
{
    let n = s.unicode_len();
    if n != t.len() {
        return false;
    }
    let mut i: usize = 0;
    while i < n
        invariant
            n == s@.len() == t@.len(),
            i <= n,
            forall|j: int| 0 <= j < i ==> s@[j] == t@[j],
        decreases n - i,
    {
        if s.get_char(i) != t[i] {
            return false;
        }
        i = i + 1;
    }
    assert(s@ =~= t@);
    true
}

impl Default for AppProtocol {
    /// No specific protocol.
    fn default() -> (r: AppProtocol)
        ensures
            r == AppProtocol::Unspecified,
    {
        AppProtocol::Unspecified
    }
}

impl AppProtocol {
    /// Parses a protocol name, ignoring case: `""`, `"http1"` or `"http2"`;
    /// `"http3"` is known but unsupported.
    pub fn from_str(s: &str) -> (r: Result<AppProtocol, AppProtocolParseError>)
        ensures
            spec_to_lowercase(s@) == Seq::<char>::empty() ==> r == Ok::<AppProtocol, AppProtocolParseError>(AppProtocol::Unspecified),
            spec_to_lowercase(s@) == http1_text() ==> r == Ok::<AppProtocol, AppProtocolParseError>(AppProtocol::HTTP1),
            spec_to_lowercase(s@) == http2_text() ==> r == Ok::<AppProtocol, AppProtocolParseError>(AppProtocol::HTTP2),
            spec_to_lowercase(s@) == http3_text() <==> r matches Err(AppProtocolParseError::Unsupported(_)),
            (spec_to_lowercase(s@) != Seq::<char>::empty() && spec_to_lowercase(s@) != http1_text()
                && spec_to_lowercase(s@) != http2_text() && spec_to_lowercase(s@) != http3_text())
                <==> r matches Err(AppProtocolParseError::Invalid(_)),
            r matches Err(AppProtocolParseError::Unsupported(e)) ==> e@ == s@,
            r matches Err(AppProtocolParseError::Invalid(e)) ==> e@ == s@,
    {
        let lower = to_lowercase(s);
        let h1 = vec!['h', 't', 't', 'p', '1'];
        let h2 = vec!['h', 't', 't', 'p', '2'];
        let h3 = vec!['h', 't', 't', 'p', '3'];
        proof {
            assert(h1@ =~= http1_text());
            assert(h2@ =~= http2_text());
            assert(h3@ =~= http3_text());
            assert(http1_text()[4] != http2_text()[4]);
            assert(http1_text()[4] != http3_text()[4]);
            assert(http2_text()[4] != http3_text()[4]);
            assert(http1_text().len() != Seq::<char>::empty().len());
            assert(http2_text().len() != Seq::<char>::empty().len());
            assert(http3_text().len() != Seq::<char>::empty().len());
        }
        if lower.as_str().unicode_len() == 0 {
            assert(lower@ =~= Seq::<char>::empty());
            Ok(AppProtocol::Unspecified)
        } else if str_is(lower.as_str(), &h1) {
            Ok(AppProtocol::HTTP1)
        } else if str_is(lower.as_str(), &h2) {
            Ok(AppProtocol::HTTP2)
        } else if str_is(lower.as_str(), &h3) {
            Err(AppProtocolParseError::Unsupported(owned(s)))
        } else {
            Err(AppProtocolParseError::Invalid(owned(s)))
        }
    }
}

/// Restrictions placed on the origin of incoming connections to the edge.
#[derive(Clone)]
pub struct CidrRestrictions {
    /// Rejects connections that do not match the given CIDRs.
    pub allowed: Vec<String>,
    /// Rejects connections that match the given CIDRs and allows all others.
    pub denied: Vec<String>,
}

impl CidrRestrictions {
    /// No restrictions.
    pub fn new() -> (r: CidrRestrictions)
        ensures
            r.allowed@.len() == 0,
            r.denied@.len() == 0,
    {
        CidrRestrictions { allowed: Vec::new(), denied: Vec::new() }
    }

    /// Adds a CIDR to the allowlist.
    pub fn allow(&mut self, cidr: &str)
        ensures
            strs_view(final(self).allowed@) == strs_view(old(self).allowed@).push(cidr@),
            final(self).denied == old(self).denied,
    {
        let ghost before = self.allowed@;
        self.allowed.push(owned(cidr));
        assert(strs_view(self.allowed@) =~= strs_view(before).push(cidr@));
    }

    /// Adds a CIDR to the denylist.
    pub fn deny(&mut self, cidr: &str)
        ensures
            strs_view(final(self).denied@) == strs_view(old(self).denied@).push(cidr@),
            final(self).allowed == old(self).allowed,
    {
        let ghost before = self.denied@;
        self.denied.push(owned(cidr));
        assert(strs_view(self.denied@) =~= strs_view(before).push(cidr@));
    }

    /// The wire form: the same two lists.
    pub fn to_proto(&self) -> (r: IpRestriction)
        ensures
            r.allow_cidrs@ == self.allowed@,
            r.deny_cidrs@ == self.denied@,
    {
        IpRestriction { allow_cidrs: copy_strings(&self.allowed), deny_cidrs: copy_strings(&self.denied) }
    }
}

/// The wire form of CIDR restrictions: absent when both lists are empty,
/// otherwise the same two lists.
pub open spec fn ip_restriction_for(c: CidrRestrictions, r: Option<IpRestriction>) -> bool {
    if c.allowed@.len() == 0 && c.denied@.len() == 0 {
        r is None
    } else {
        r matches Some(ir) && ir.allow_cidrs@ == c.allowed@ && ir.deny_cidrs@ == c.denied@
    }
}

/// Whether common options hold their defaults.
pub open spec fn is_default_common(r: CommonOpts) -> bool {
    &&& r.cidr_restrictions.allowed@.len() == 0
    &&& r.cidr_restrictions.denied@.len() == 0
    &&& r.proxy_proto == ProxyProto::Disabled
    &&& r.metadata is None
    &&& r.forwards_to is None
    &&& r.forwards_proto is None
    &&& r.policy is None
    &&& r.verify_upstream_tls
    &&& !r.disable_app_cert_verification
    &&& r.pooling_enabled is None
}

/// Options common to every tunnel kind.
#[derive(Clone)]
pub struct CommonOpts {
    /// Restrictions placed on the origin of incoming connections to the edge.
    pub cidr_restrictions: CidrRestrictions,
    /// The version of PROXY protocol to use with this tunnel.
    pub proxy_proto: ProxyProto,
    /// Tunnel-specific opaque metadata. Viewable via the API.
    pub metadata: Option<String>,
    /// Tunnel backend metadata, for display only.
    pub forwards_to: Option<String>,
    /// The L7 protocol the upstream service expects.
    pub forwards_proto: Option<String>,
    /// The traffic policy.
    pub policy: Option<Policy>,
    /// Whether the upstream's TLS certificate is verified when forwarding.
    pub verify_upstream_tls: bool,
    /// Whether the application certificate verification is disabled.
    pub disable_app_cert_verification: bool,
    /// Whether endpoint pooling is enabled.
    pub pooling_enabled: Option<bool>,
}

impl CommonOpts {
    /// The defaults: nothing set, no PROXY protocol, upstream TLS verified.
    pub fn new() -> (r: CommonOpts)
        ensures
            is_default_common(r),
    {
        CommonOpts {
            cidr_restrictions: CidrRestrictions::new(),
            proxy_proto: ProxyProto::Disabled,
            metadata: None,
            forwards_to: None,
            forwards_proto: None,
            policy: None,
            verify_upstream_tls: true,
            disable_app_cert_verification: false,
            pooling_enabled: None,
        }
    }

    /// The wire form of the CIDR restrictions; absent when there are none.
    pub fn ip_restriction(&self) -> (r: Option<IpRestriction>)
        ensures
            ip_restriction_for(self.cidr_restrictions, r),
    {
        if self.cidr_restrictions.allowed.len() > 0 || self.cidr_restrictions.denied.len() > 0 {
            Some(self.cidr_restrictions.to_proto())
        } else {
            None
        }
    }

    /// Records the URL that connections are forwarded to.
    pub fn for_forwarding_to(&mut self, to_url: &str)
        ensures
            opt_view(final(self).forwards_to) == Some(to_url@),
            final(self).cidr_restrictions == old(self).cidr_restrictions,
            final(self).proxy_proto == old(self).proxy_proto,
            final(self).metadata == old(self).metadata,
            final(self).forwards_proto == old(self).forwards_proto,
            final(self).policy == old(self).policy,
            final(self).verify_upstream_tls == old(self).verify_upstream_tls,
            final(self).disable_app_cert_verification == old(self).disable_app_cert_verification,
            final(self).pooling_enabled == old(self).pooling_enabled,
    {
        self.forwards_to = Some(owned(to_url));
    }

    /// Sets whether the upstream's TLS certificate is verified.
    pub fn set_verify_upstream_tls(&mut self, verify: bool)
        ensures
            final(self).verify_upstream_tls == verify,
            final(self).cidr_restrictions == old(self).cidr_restrictions,
            final(self).proxy_proto == old(self).proxy_proto,
            final(self).metadata == old(self).metadata,
            final(self).forwards_to == old(self).forwards_to,
            final(self).forwards_proto == old(self).forwards_proto,
            final(self).policy == old(self).policy,
            final(self).disable_app_cert_verification == old(self).disable_app_cert_verification,
            final(self).pooling_enabled == old(self).pooling_enabled,
    {
        self.verify_upstream_tls = verify;
    }

    /// The "forwards to" text: the one set, or else `default`.
    pub fn forwards_to_or(&self, default: &str) -> (r: String)
        ensures
            r@ == match self.forwards_to {
                Some(f) => f@,
                None => default@,
            },
    {
        match &self.forwards_to {
            Some(f) => f.clone(),
            None => owned(default),
        }
    }

    /// The L7 protocol text: the one set, or else empty.
    pub fn forwards_proto_text(&self) -> (r: String)
        ensures
            r@ == match self.forwards_proto {
                Some(f) => f@,
                None => Seq::<char>::empty(),
            },
    {
        match &self.forwards_proto {
            Some(f) => f.clone(),
            None => String::new(),
        }
    }

    /// The metadata text: the one set, or else empty.
    pub fn metadata_text(&self) -> (r: String)
        ensures
            r@ == match self.metadata {
                Some(f) => f@,
                None => Seq::<char>::empty(),
            },
    {
        match &self.metadata {
            Some(f) => f.clone(),
            None => String::new(),
        }
    }
}

/// `new` is `old` with one CIDR appended to the allowlist.
pub open spec fn common_allowed(old: CommonOpts, new: CommonOpts, cidr: Seq<char>) -> bool {
    &&& strs_view(new.cidr_restrictions.allowed@) == strs_view(old.cidr_restrictions.allowed@).push(cidr)
    &&& new == (CommonOpts {
        cidr_restrictions: (CidrRestrictions { allowed: new.cidr_restrictions.allowed, ..old.cidr_restrictions }),
        ..old
    })
}

/// `new` is `old` with one CIDR appended to the denylist.
pub open spec fn common_denied(old: CommonOpts, new: CommonOpts, cidr: Seq<char>) -> bool {
    &&& strs_view(new.cidr_restrictions.denied@) == strs_view(old.cidr_restrictions.denied@).push(cidr)
    &&& new == (CommonOpts {
        cidr_restrictions: (CidrRestrictions { denied: new.cidr_restrictions.denied, ..old.cidr_restrictions }),
        ..old
    })
}

/// `new` is `old` with the metadata set.
pub open spec fn common_with_metadata(old: CommonOpts, new: CommonOpts, m: Seq<char>) -> bool {
    &&& opt_view(new.metadata) == Some(m)
    &&& new == (CommonOpts { metadata: new.metadata, ..old })
}

/// `new` is `old` with the "forwards to" text set.
pub open spec fn common_with_forwards_to(old: CommonOpts, new: CommonOpts, f: Seq<char>) -> bool {
    &&& opt_view(new.forwards_to) == Some(f)
    &&& new == (CommonOpts { forwards_to: new.forwards_to, ..old })
}

/// `new` is `old` with the upstream's L7 protocol set.
pub open spec fn common_with_forwards_proto(old: CommonOpts, new: CommonOpts, p: Seq<char>) -> bool {
    &&& opt_view(new.forwards_proto) == Some(p)
    &&& new == (CommonOpts { forwards_proto: new.forwards_proto, ..old })
}

/// The text of an optional string, empty when absent.
pub open spec fn text_or_empty(o: Option<String>) -> Seq<char> {
    match o {
        Some(f) => f@,
        None => Seq::<char>::empty(),
    }
}

} // verus!
