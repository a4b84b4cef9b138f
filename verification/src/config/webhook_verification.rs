//! Webhook verification configuration.

use vstd::prelude::*;

use crate::proto::{SecretString, WebhookVerification as WebhookProto};
use crate::text::owned;

verus! {

/// Configuration for webhook verification.
#[derive(Clone)]
pub struct WebhookVerification {
    /// The webhook provider.
    pub provider: String,
    /// The secret for verifying webhooks from this provider.
    pub secret: SecretString,
}

impl WebhookVerification {
    /// Verification for the given provider and secret.
    pub fn new(provider: &str, secret: &str) -> (r: WebhookVerification)
        ensures
            r.provider@ == provider@,
            r.secret.0@ == secret@,
    {
        WebhookVerification { provider: owned(provider), secret: SecretString::new(owned(secret)) }
    }

    /// The wire form; the sealed secret is left empty.
    pub fn to_proto(&self) -> (r: WebhookProto)
        ensures
            r.provider@ == self.provider@,
            r.secret.0@ == self.secret.0@,
            r.sealed_secret@.len() == 0,
    {
        WebhookProto {
            provider: self.provider.clone(),
            secret: SecretString::new(self.secret.0.clone()),
            sealed_secret: Vec::new(),
        }
    }
}

} // verus!
