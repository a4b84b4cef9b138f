//! OAuth configuration.

use vstd::prelude::*;

use crate::proto::{Oauth, SecretString};
use crate::text::{copy_strings, owned, strs_view};

verus! {

/// OAuth options.
#[derive(Clone)]
pub struct OauthOptions {
    /// The OAuth provider to use.
    pub provider: String,
    /// Email addresses of users to authorize.
    pub allow_emails: Vec<String>,
    /// Email domains of users to authorize.
    pub allow_domains: Vec<String>,
    /// OAuth scopes to request from the provider.
    pub scopes: Vec<String>,
}

impl Default for OauthOptions {
    /// Options with an empty provider and no restrictions or scopes.
    fn default() -> (r: OauthOptions)
        ensures
            r.provider@.len() == 0,
            r.allow_emails@.len() == 0,
            r.allow_domains@.len() == 0,
            r.scopes@.len() == 0,
    {
        OauthOptions { provider: String::new(), allow_emails: Vec::new(), allow_domains: Vec::new(), scopes: Vec::new() }
    }
}

impl OauthOptions {
    /// OAuth options for the given provider, with no restrictions or scopes.
    pub fn new(provider: &str) -> (r: OauthOptions)
        ensures
            r.provider@ == provider@,
            r.allow_emails@.len() == 0,
            r.allow_domains@.len() == 0,
            r.scopes@.len() == 0,
    {
        OauthOptions { provider: owned(provider), allow_emails: Vec::new(), allow_domains: Vec::new(), scopes: Vec::new() }
    }

    /// Allows the user with the given email.
    pub fn allow_email(self, email: &str) -> (r: OauthOptions)
        ensures
            r.provider == self.provider,
            strs_view(r.allow_emails@) == strs_view(self.allow_emails@).push(email@),
            r.allow_domains == self.allow_domains,
            r.scopes == self.scopes,
    {
        let mut s = self;
        let ghost before = s.allow_emails@;
        s.allow_emails.push(owned(email));
        assert(strs_view(s.allow_emails@) =~= strs_view(before).push(email@));
        s
    }

    /// Allows users with emails in the given domain.
    pub fn allow_domain(self, domain: &str) -> (r: OauthOptions)
        ensures
            r.provider == self.provider,
            r.allow_emails == self.allow_emails,
            strs_view(r.allow_domains@) == strs_view(self.allow_domains@).push(domain@),
            r.scopes == self.scopes,
    {
        let mut s = self;
        let ghost before = s.allow_domains@;
        s.allow_domains.push(owned(domain));
        assert(strs_view(s.allow_domains@) =~= strs_view(before).push(domain@));
        s
    }

    /// Requests the given scope from the provider.
    pub fn scope(self, scope: &str) -> (r: OauthOptions)
        ensures
            r.provider == self.provider,
            r.allow_emails == self.allow_emails,
            r.allow_domains == self.allow_domains,
            strs_view(r.scopes@) == strs_view(self.scopes@).push(scope@),
    {
        let mut s = self;
        let ghost before = s.scopes@;
        s.scopes.push(owned(scope));
        assert(strs_view(s.scopes@) =~= strs_view(before).push(scope@));
        s
    }

    /// A copy of these options.
    pub fn copy(&self) -> (r: OauthOptions)
        ensures
            oauth_same(r, *self),
    {
        OauthOptions {
            provider: self.provider.clone(),
            allow_emails: copy_strings(&self.allow_emails),
            allow_domains: copy_strings(&self.allow_domains),
            scopes: copy_strings(&self.scopes),
        }
    }

    /// The wire form; the client id and secrets are left empty.
    pub fn to_proto(&self) -> (r: Oauth)
        ensures
            oauth_matches(*self, r),
    {
        Oauth {
            provider: self.provider.clone(),
            client_id: String::new(),
            client_secret: SecretString::empty(),
            sealed_client_secret: Vec::new(),
            allow_emails: copy_strings(&self.allow_emails),
            allow_domains: copy_strings(&self.allow_domains),
            scopes: copy_strings(&self.scopes),
        }
    }
}

/// Two OAuth options hold the same texts.
pub open spec fn oauth_same(a: OauthOptions, b: OauthOptions) -> bool {
    &&& a.provider@ == b.provider@
    &&& a.allow_emails@ == b.allow_emails@
    &&& a.allow_domains@ == b.allow_domains@
    &&& a.scopes@ == b.scopes@
}

/// The wire form of OAuth options: same provider and lists, no client
/// credentials.
pub open spec fn oauth_matches(o: OauthOptions, p: Oauth) -> bool {
    &&& p.provider@ == o.provider@
    &&& p.client_id@.len() == 0
    &&& p.client_secret.0@.len() == 0
    &&& p.sealed_client_secret@.len() == 0
    &&& p.allow_emails@ == o.allow_emails@
    &&& p.allow_domains@ == o.allow_domains@
    &&& p.scopes@ == o.scopes@
}

} // verus!
