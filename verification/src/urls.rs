//! URL parsing, through the `url` crate.

use vstd::prelude::*;

verus! {

/// The parts of a parsed URL that this library reads.
#[derive(Clone, Debug)]
pub struct UrlParts {
    /// The whole URL in its normalized serialization.
    pub serialization: String,
    /// The scheme, without the `:`.
    pub scheme: String,
    /// The host, if the URL has one.
    pub host: Option<String>,
    /// The port, if one is given and it is not the scheme's default.
    pub port: Option<u16>,
    /// The path.
    pub path: String,
}

/// A parsed URL as plain values: serialization, scheme, host, port, path.
pub type UrlModel = (Seq<char>, Seq<char>, Option<Seq<char>>, Option<u16>, Seq<char>);

impl UrlParts {
    /// The parts as plain values.
    pub open spec fn model(&self) -> UrlModel {
        (
            self.serialization@,
            self.scheme@,
            match self.host {
                Some(h) => Some(h@),
                None => None,
            },
            self.port,
            self.path@,
        )
    }
}

/// What `url::Url::parse` makes of a text: the URL's parts, or the text of
/// the parse error.
pub uninterp spec fn spec_parse_url(s: Seq<char>) -> Result<UrlModel, Seq<char>>;

/// Parses an absolute URL (`url::Url::parse`), reading its serialization
/// (`as_str`), `scheme`, `host_str`, `port` and `path`; on failure, the
/// error's text.
///
/// Trusted: the result is the deterministic function `spec_parse_url` of
/// the input; nothing more about URL syntax is stated.
#[verifier::external_body]
pub fn parse_url(s: &str) -> (r: Result<UrlParts, String>)
    ensures
        match r {
            Ok(u) => spec_parse_url(s@) == Ok::<UrlModel, Seq<char>>(u.model()),
            Err(e) => spec_parse_url(s@) == Err::<UrlModel, Seq<char>>(e@),
        },
{
    match ::url::Url::parse(s) {
        Ok(u) => Ok(UrlParts {
            serialization: u.as_str().to_string(),
            scheme: u.scheme().to_string(),
            host: u.host_str().map(str::to_string),
            port: u.port(),
            path: u.path().to_string(),
        }),
        Err(e) => Err(e.to_string()),
    }
}

} // verus!
