//! HTTP header modifications applied at the ngrok edge.

use vstd::prelude::*;

use crate::proto::Headers as HeaderProto;
use crate::strmap::{ordered_insert, pairs_view, StringMap};
use crate::text::{all_ascii, ascii_lower, copy_strings, owned, push_char, push_str, spec_to_lowercase, strs_view, to_lowercase};

verus! {

/// HTTP headers to modify at the ngrok edge. Header names are
/// case-insensitive and kept in lower case.
#[derive(Clone)]
pub struct Headers {
    /// Headers to add, by lower-cased name.
    pub added: StringMap,
    /// Lower-cased names of headers to remove.
    pub removed: Vec<String>,
}

/// The wire entries for added headers: `name:value`, in insertion order.
pub open spec fn header_lines(entries: Seq<(Seq<char>, Seq<char>)>) -> Seq<Seq<char>> {
    entries.map_values(|p: (Seq<char>, Seq<char>)| p.0 + seq![':'] + p.1)
}

impl Headers {
    /// No modifications.
    pub fn new() -> (r: Headers)
        ensures
            r.added.view() == Map::<Seq<char>, Seq<char>>::empty(),
            r.added.ordered() == Seq::<(Seq<char>, Seq<char>)>::empty(),
            r.removed@.len() == 0,
    {
        Headers { added: StringMap::new(), removed: Vec::new() }
    }

    /// Adds (or replaces) a header, by lower-cased name.
    pub fn add(&mut self, name: &str, value: &str)
        ensures
            final(self).added.view() == old(self).added.view().insert(spec_to_lowercase(name@), value@),
            !old(self).added.view().dom().contains(spec_to_lowercase(name@))
                ==> final(self).added.ordered() == old(self).added.ordered().push((spec_to_lowercase(name@), value@)),
            final(self).added.ordered() == ordered_insert(old(self).added.ordered(), spec_to_lowercase(name@), value@),
            all_ascii(name@) ==> spec_to_lowercase(name@) == name@.map_values(|c: char| ascii_lower(c)),
            final(self).removed == old(self).removed,
    {
        self.added.insert(to_lowercase(name), owned(value));
    }

    /// Removes a header, by lower-cased name.
    pub fn remove(&mut self, name: &str)
        ensures
            strs_view(final(self).removed@) == strs_view(old(self).removed@).push(spec_to_lowercase(name@)),
            final(self).added == old(self).added,
            all_ascii(name@) ==> spec_to_lowercase(name@) == name@.map_values(|c: char| ascii_lower(c)),
    {
        let ghost before = self.removed@;
        self.removed.push(to_lowercase(name));
        assert(strs_view(self.removed@) =~= strs_view(before).push(spec_to_lowercase(name@)));
    }

    /// Whether any header is added or removed.
    pub fn has_entries(&self) -> (r: bool)
        ensures
            r == (self.added.view().dom().len() > 0 || self.removed@.len() > 0),
    {
        !self.added.is_empty() || self.removed.len() > 0
    }

    /// The wire form: `name:value` for each added header, and the removed
    /// names.
    pub fn to_proto(&self) -> (r: HeaderProto)
        ensures
            strs_view(r.add@) == header_lines(self.added.ordered()),
            r.remove@ == self.removed@,
            r.add_parsed.view() == Map::<Seq<char>, Seq<char>>::empty(),
    {
        let entries = self.added.entries();
        let mut add: Vec<String> = Vec::new();
        let mut i: usize = 0;
        while i < entries.len()
            invariant
                i <= entries.len(),
                pairs_view(entries@) == self.added.ordered(),
                strs_view(add@) == header_lines(pairs_view(entries@).take(i as int)),
            decreases entries.len() - i,
        {
            let mut line = entries[i].0.clone();
            push_char(&mut line, ':');
            push_str(&mut line, entries[i].1.as_str());
            let ghost before = add@;
            add.push(line);
            proof {
                let pv = pairs_view(entries@);
                assert(pv[i as int] == (entries@[i as int].0@, entries@[i as int].1@));
                assert(add@.last()@ == pv[i as int].0 + seq![':'] + pv[i as int].1);
                assert(pv.take(i + 1) =~= pv.take(i as int).push(pv[i as int]));
                assert(header_lines(pv.take(i + 1)) =~= header_lines(pv.take(i as int)).push(
                    pv[i as int].0 + seq![':'] + pv[i as int].1));
                assert(strs_view(add@) =~= strs_view(before).push(add@.last()@));
            }
            i = i + 1;
        }
        assert(pairs_view(entries@).take(entries.len() as int) =~= pairs_view(entries@));
        HeaderProto { add, remove: copy_strings(&self.removed), add_parsed: StringMap::new() }
    }
}

/// Header names are case-insensitive: adding a header under a name that
/// lower-cases like an earlier one replaces the earlier value.
pub proof fn lemma_header_add_replaces(
    added: Map<Seq<char>, Seq<char>>,
    first: Seq<char>,
    second: Seq<char>,
    v1: Seq<char>,
    v2: Seq<char>,
)
    requires
        spec_to_lowercase(first) == spec_to_lowercase(second),
    ensures
        added.insert(spec_to_lowercase(first), v1).insert(spec_to_lowercase(second), v2) == added.insert(
            spec_to_lowercase(second),
            v2,
        ),
{
    assert(added.insert(spec_to_lowercase(first), v1).insert(spec_to_lowercase(second), v2) =~= added.insert(
        spec_to_lowercase(second),
        v2,
    ));
}

} // verus!
