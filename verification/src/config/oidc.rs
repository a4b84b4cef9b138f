//! OpenID Connect configuration.

use vstd::prelude::*;

use crate::proto::{Oidc, SecretString};
use crate::text::{copy_strings, owned, strs_view};

verus! {

/// OpenID Connect options.
#[derive(Clone)]
pub struct OidcOptions {
    pub issuer_url: String,
    pub client_id: String,
    pub client_secret: SecretString,
    pub allow_emails: Vec<String>,
    pub allow_domains: Vec<String>,
    pub scopes: Vec<String>,
}

impl Default for OidcOptions {
    /// Options with an empty issuer, client id and secret, and no
    /// restrictions or scopes.
    fn default() -> (r: OidcOptions)
        ensures
            r.issuer_url@.len() == 0,
            r.client_id@.len() == 0,
            r.client_secret.0@.len() == 0,
            r.allow_emails@.len() == 0,
            r.allow_domains@.len() == 0,
            r.scopes@.len() == 0,
    {
        OidcOptions {
            issuer_url: String::new(),
            client_id: String::new(),
            client_secret: SecretString::new(String::new()),
            allow_emails: Vec::new(),
            allow_domains: Vec::new(),
            scopes: Vec::new(),
        }
    }
}

impl OidcOptions {
    /// OIDC options for the given issuer and client.
    pub fn new(issuer_url: &str, client_id: &str, client_secret: &str) -> (r: OidcOptions)
        ensures
            r.issuer_url@ == issuer_url@,
            r.client_id@ == client_id@,
            r.client_secret.0@ == client_secret@,
            r.allow_emails@.len() == 0,
            r.allow_domains@.len() == 0,
            r.scopes@.len() == 0,
    {
        OidcOptions {
            issuer_url: owned(issuer_url),
            client_id: owned(client_id),
            client_secret: SecretString::new(owned(client_secret)),
            allow_emails: Vec::new(),
            allow_domains: Vec::new(),
            scopes: Vec::new(),
        }
    }

    /// Allows the user with the given email.
    pub fn allow_email(self, email: &str) -> (r: OidcOptions)
        ensures
            r.issuer_url == self.issuer_url,
            r.client_id == self.client_id,
            r.client_secret == self.client_secret,
            strs_view(r.allow_emails@) == strs_view(self.allow_emails@).push(email@),
            r.allow_domains == self.allow_domains,
            r.scopes == self.scopes,
    {
        let mut s = self;
        let ghost before = s.allow_emails@;
        s.allow_emails.push(owned(email));
        assert(strs_view(s.allow_emails@) =~= strs_view(before).push(email@));
        s
    }

    /// Allows users with emails in the given domain.
    pub fn allow_domain(self, domain: &str) -> (r: OidcOptions)
        ensures
            r.issuer_url == self.issuer_url,
            r.client_id == self.client_id,
            r.client_secret == self.client_secret,
            r.allow_emails == self.allow_emails,
            strs_view(r.allow_domains@) == strs_view(self.allow_domains@).push(domain@),
            r.scopes == self.scopes,
    {
        let mut s = self;
        let ghost before = s.allow_domains@;
        s.allow_domains.push(owned(domain));
        assert(strs_view(s.allow_domains@) =~= strs_view(before).push(domain@));
        s
    }

    /// Requests the given scope from the provider.
    pub fn scope(self, scope: &str) -> (r: OidcOptions)
        ensures
            r.issuer_url == self.issuer_url,
            r.client_id == self.client_id,
            r.client_secret == self.client_secret,
            r.allow_emails == self.allow_emails,
            r.allow_domains == self.allow_domains,
            strs_view(r.scopes@) == strs_view(self.scopes@).push(scope@),
    {
        let mut s = self;
        let ghost before = s.scopes@;
        s.scopes.push(owned(scope));
        assert(strs_view(s.scopes@) =~= strs_view(before).push(scope@));
        s
    }

    /// A copy of these options.
    pub fn copy(&self) -> (r: OidcOptions)
        ensures
            oidc_same(r, *self),
    {
        OidcOptions {
            issuer_url: self.issuer_url.clone(),
            client_id: self.client_id.clone(),
            client_secret: SecretString::new(self.client_secret.0.clone()),
            allow_emails: copy_strings(&self.allow_emails),
            allow_domains: copy_strings(&self.allow_domains),
            scopes: copy_strings(&self.scopes),
        }
    }

    /// The wire form; the sealed secret is left empty.
    pub fn to_proto(&self) -> (r: Oidc)
        ensures
            oidc_matches(*self, r),
    {
        Oidc {
            issuer_url: self.issuer_url.clone(),
            client_id: self.client_id.clone(),
            client_secret: SecretString::new(self.client_secret.0.clone()),
            sealed_client_secret: Vec::new(),
            allow_emails: copy_strings(&self.allow_emails),
            allow_domains: copy_strings(&self.allow_domains),
            scopes: copy_strings(&self.scopes),
        }
    }
}

/// Two OIDC options hold the same texts.
pub open spec fn oidc_same(a: OidcOptions, b: OidcOptions) -> bool {
    &&& a.issuer_url@ == b.issuer_url@
    &&& a.client_id@ == b.client_id@
    &&& a.client_secret.0@ == b.client_secret.0@
    &&& a.allow_emails@ == b.allow_emails@
    &&& a.allow_domains@ == b.allow_domains@
    &&& a.scopes@ == b.scopes@
}

/// The wire form of OIDC options: same fields, no sealed secret.
pub open spec fn oidc_matches(o: OidcOptions, p: Oidc) -> bool {
    &&& p.issuer_url@ == o.issuer_url@
    &&& p.client_id@ == o.client_id@
    &&& p.client_secret.0@ == o.client_secret.0@
    &&& p.sealed_client_secret@.len() == 0
    &&& p.allow_emails@ == o.allow_emails@
    &&& p.allow_domains@ == o.allow_domains@
    &&& p.scopes@ == o.scopes@
}

} // verus!
