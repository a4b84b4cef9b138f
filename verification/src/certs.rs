//! The root certificates a session trusts, read from PEM text.

use vstd::prelude::*;

verus! {

/// One item of a PEM file.
pub enum PemItem {
    /// A DER-encoded X.509 certificate.
    Certificate(Vec<u8>),
    /// Anything else (keys and the like).
    Other,
}

/// What `rustls_pemfile::read_one_from_slice` finds at the start of PEM
/// text: `None` for an error; `Some(None)` when no section is left;
/// otherwise whether the section is a certificate, its DER bytes when it is
/// (empty otherwise), and the length of the text that follows the section.
pub uninterp spec fn spec_pem_next(input: Seq<u8>) -> Option<Option<(bool, Seq<u8>, nat)>>;

/// Reads the next PEM section (`rustls_pemfile::read_one_from_slice`).
///
/// Trusted: the result is the deterministic `spec_pem_next` of the text,
/// and the remainder it hands back is the part of the text after the
/// section, as the function's documentation says, so it is shorter than the
/// text. How PEM is read is not stated.
#[verifier::external_body]
fn pem_next<'a>(input: &'a [u8]) -> (r: Result<Option<(PemItem, &'a [u8])>, ()>)
    ensures
        match r {
            Err(()) => spec_pem_next(input@) is None,
            Ok(None) => spec_pem_next(input@) == Some(None::<(bool, Seq<u8>, nat)>),
            Ok(Some((item, rest))) => {
                &&& spec_pem_next(input@) == Some(Some(match item {
                    PemItem::Certificate(der) => (true, der@, rest@.len()),
                    PemItem::Other => (false, Seq::<u8>::empty(), rest@.len()),
                }))
                &&& rest@.len() < input@.len()
                &&& rest@ == input@.skip(input@.len() - rest@.len())
            },
        },
{
    match rustls_pemfile::read_one_from_slice(input) {
        Ok(Some((rustls_pemfile::Item::X509Certificate(c), rest))) => Ok(Some((PemItem::Certificate(c.to_vec()), rest))),
        Ok(Some((_, rest))) => Ok(Some((PemItem::Other, rest))),
        Ok(None) => Ok(None),
        Err(_) => Err(()),
    }
}

/// The certificates in PEM text, in order, section after section, leaving
/// out its other sections; `None` when a section cannot be read.
pub open spec fn pem_certificates(input: Seq<u8>) -> Option<Seq<Seq<u8>>>
    decreases input.len(),
{
    match spec_pem_next(input) {
        None => None,
        Some(None) => Some(Seq::empty()),
        Some(Some((is_cert, der, rest_len))) => if rest_len < input.len() {
            match pem_certificates(input.skip(input.len() - rest_len)) {
                None => None,
                Some(certs) => Some(if is_cert { seq![der] + certs } else { certs }),
            }
        } else {
            None
        },
    }
}

/// Every section of PEM text, in order: whether it is a certificate, and
/// its DER bytes when it is; `None` when a section cannot be read.
pub open spec fn pem_sections(input: Seq<u8>) -> Option<Seq<(bool, Seq<u8>)>>
    decreases input.len(),
{
    match spec_pem_next(input) {
        None => None,
        Some(None) => Some(Seq::empty()),
        Some(Some((is_cert, der, rest_len))) => if rest_len < input.len() {
            match pem_sections(input.skip(input.len() - rest_len)) {
                None => None,
                Some(rest) => Some(seq![(is_cert, der)] + rest),
            }
        } else {
            None
        },
    }
}

/// Whether a section is a certificate.
pub open spec fn is_certificate(s: (bool, Seq<u8>)) -> bool {
    s.0
}

/// The DER bytes of a section.
pub open spec fn der_of(s: (bool, Seq<u8>)) -> Seq<u8> {
    s.1
}

/// No certificate is dropped or reordered: the certificates read from PEM
/// text are exactly its certificate sections, in order, so there are as
/// many as the text has certificate sections, and every certificate
/// section is among them; the text is refused exactly when a section
/// cannot be read.
pub proof fn lemma_every_certificate_kept(input: Seq<u8>)
    ensures
        pem_sections(input) is None <==> pem_certificates(input) is None,
        pem_sections(input) matches Some(s) ==> pem_certificates(input) == Some(
            s.filter(|x: (bool, Seq<u8>)| is_certificate(x)).map_values(|x: (bool, Seq<u8>)| der_of(x)),
        ),
        pem_sections(input) matches Some(s) ==> pem_certificates(input).unwrap().len() == s.filter(
            |x: (bool, Seq<u8>)| is_certificate(x),
        ).len(),
        pem_sections(input) matches Some(s) ==> forall|i: int|
            0 <= i < s.len() && #[trigger] s[i].0 ==> pem_certificates(input).unwrap().contains(s[i].1),
    decreases input.len(),
{
    let p = |x: (bool, Seq<u8>)| is_certificate(x);
    let f = |x: (bool, Seq<u8>)| der_of(x);
    match spec_pem_next(input) {
        None => {},
        Some(None) => {
            let s = Seq::<(bool, Seq<u8>)>::empty();
            assert(s.filter(p) =~= Seq::<(bool, Seq<u8>)>::empty()) by {
                reveal(Seq::filter);
            }
            assert(s.filter(p).map_values(f) =~= Seq::<Seq<u8>>::empty());
        },
        Some(Some((is_cert, der, rest_len))) => {
            if rest_len < input.len() {
                let next = input.skip(input.len() - rest_len);
                lemma_every_certificate_kept(next);
                match pem_sections(next) {
                    None => {},
                    Some(rest) => {
                        let s = seq![(is_cert, der)] + rest;
                        rest.lemma_filter_prepend((is_cert, der), p);
                        let c = pem_certificates(next).unwrap();
                        assert(c == rest.filter(p).map_values(f));
                        if is_cert {
                            assert(s.filter(p) == seq![(is_cert, der)] + rest.filter(p));
                            assert(s.filter(p).map_values(f) =~= seq![der] + c);
                        } else {
                            assert(s.filter(p) == Seq::<(bool, Seq<u8>)>::empty() + rest.filter(p));
                            assert(s.filter(p) =~= rest.filter(p));
                        }
                    },
                }
            }
        },
    }
    match pem_sections(input) {
        Some(s) => {
            let c = pem_certificates(input).unwrap();
            assert(c.len() == s.filter(p).len());
            assert forall|i: int| 0 <= i < s.len() && #[trigger] s[i].0 implies c.contains(s[i].1) by {
                s.lemma_filter_contains(p, i);
                let j = choose|j: int| 0 <= j < s.filter(p).len() && s.filter(p)[j] == s[i];
                assert(c[j] == s[i].1);
            }
        },
        None => {},
    }
}

/// The byte strings of a list of byte vectors.
pub open spec fn bytes_view(v: Seq<Vec<u8>>) -> Seq<Seq<u8>> {
    v.map_values(|b: Vec<u8>| b@)
}

/// The certificates in PEM text, in order, leaving out its other items;
/// `None` when the text cannot be read.
pub fn root_certificates(pem: &[u8]) -> (r: Option<Vec<Vec<u8>>>)
    ensures
        match pem_certificates(pem@) {
            None => r is None,
            Some(certs) => r matches Some(v) && bytes_view(v@) == certs,
        },
{
    let mut rest: &[u8] = pem;
    let mut certs: Vec<Vec<u8>> = Vec::new();
    loop
        invariant
            pem_certificates(pem@) == match pem_certificates(rest@) {
                None => None,
                Some(c) => Some(bytes_view(certs@) + c),
            },
        decreases rest@.len(),
    {
        match pem_next(rest) {
            Err(()) => {
                return None;
            },
            Ok(None) => {
                assert(bytes_view(certs@) + Seq::<Seq<u8>>::empty() =~= bytes_view(certs@));
                return Some(certs);
            },
            Ok(Some((item, next))) => {
                let ghost before = certs@;
                proof {
                    assert(next@.len() < rest@.len());
                }
                match item {
                    PemItem::Certificate(der) => {
                        let ghost d = der@;
                        certs.push(der);
                        proof {
                            assert(bytes_view(certs@) =~= bytes_view(before).push(d));
                            match pem_certificates(next@) {
                                None => {},
                                Some(c) => {
                                    assert(bytes_view(before) + (seq![d] + c) =~= bytes_view(certs@) + c);
                                },
                            }
                        }
                    },
                    PemItem::Other => {},
                }
                rest = next;
            },
        }
    }
}

} // verus!
