//! The tag-name dictionary used for completion and advisory validation.
//!
//! The dictionary is loaded once from a structured source: a JSON array of
//! records, each well-formed record carrying a string `tag` field. Malformed
//! records are skipped; a missing or unparseable source degrades to an empty
//! dictionary, never to a failure, since editing must remain possible
//! without it.

use vstd::prelude::*;

verus! {

/// What parsing a dictionary source yields: one record per element of the
/// JSON array, `Some(text)` where the element is an object whose `tag` field
/// is a string, `None` for a malformed record; no records at all where the
/// source is not a JSON array. Determined by the source text alone.
pub uninterp spec fn dictionary_records_of(source: Seq<char>) -> Option<Seq<Option<Seq<char>>>>;

/// Relies on serde_json: `from_str` parses the source into a
/// `serde_json::Value`; `Value::as_array`, `Value::as_object`, `Map::get`
/// and `Value::as_str` read the parsed document. Each array element becomes
/// one record, `Some` exactly when it is an object with a string `tag`
/// field. The parse is a pure function of the source text.
#[verifier::external_body]
fn parse_dictionary_records(source: &str) -> (r: Option<Vec<Option<String>>>)
    ensures
        r.deep_view() == dictionary_records_of(source@),
{
    let document: serde_json::Value = serde_json::from_str(source).ok()?;
    let items = document.as_array()?;
    Some(
        items.iter().map(
            |item: &serde_json::Value|
                item.as_object().and_then(|record| record.get("tag")).and_then(
                    |tag| tag.as_str(),
                ).map(String::from),
        ).collect(),
    )
}

/// The tag names of the well-formed records, in source order.
pub open spec fn well_formed_tags(records: Seq<Option<Seq<char>>>) -> Seq<Seq<char>>
    decreases records.len(),
{
    if records.len() == 0 {
        Seq::empty()
    } else {
        let rest = well_formed_tags(records.drop_last());
        match records.last() {
            Some(t) => rest.push(t),
            None => rest,
        }
    }
}

/// True when `prefix` is an initial segment of `name`.
pub open spec fn has_prefix(name: Seq<char>, prefix: Seq<char>) -> bool {
    prefix.len() <= name.len() && name.take(prefix.len() as int) == prefix
}

/// The names among `names` that begin with `prefix`, in dictionary order.
pub open spec fn suggestions_of(names: Seq<Seq<char>>, prefix: Seq<char>) -> Seq<Seq<char>>
    decreases names.len(),
{
    if names.len() == 0 {
        Seq::empty()
    } else {
        let rest = suggestions_of(names.drop_last(), prefix);
        if has_prefix(names.last(), prefix) {
            rest.push(names.last())
        } else {
            rest
        }
    }
}

/// Whether `prefix` is an initial segment of `name`.
pub fn str_has_prefix(name: &str, prefix: &str) -> (r: bool)
    ensures
        r == has_prefix(name@, prefix@),
{
    let nlen = name.unicode_len();
    let plen = prefix.unicode_len();
    if plen > nlen {
        return false;
    }
    let mut j: usize = 0;
    while j < plen
        invariant
            j <= plen,
            plen <= nlen,
            nlen == name@.len(),
            plen == prefix@.len(),
            forall|k: int| 0 <= k < j ==> name@[k] == prefix@[k],
        decreases plen - j,
    {
        if name.get_char(j) != prefix.get_char(j) {
            return false;
        }
        j = j + 1;
    }
    proof {
        assert(name@.take(plen as int) =~= prefix@);
    }
    true
}

/// The known tag names, read-only after load; order is the source's
/// insertion order, lookups are order-independent.
pub struct TagDictionary {
    names: Vec<String>,
}

impl TagDictionary {
    /// The known names, in load order.
    pub closed spec fn names_view(&self) -> Seq<Seq<char>> {
        self.names.deep_view()
    }

    /// A dictionary with no known names: completion and validation degrade
    /// to accepting anything.
    pub fn empty() -> (r: TagDictionary)
        ensures
            r.names_view() =~= Seq::<Seq<char>>::empty(),
    {
        TagDictionary { names: Vec::new() }
    }

    /// Builds the dictionary from parsed records, keeping exactly the
    /// well-formed ones, in order.
    pub fn from_records(records: Vec<Option<String>>) -> (r: TagDictionary)
        ensures
            r.names_view() == well_formed_tags(records.deep_view()),
    {
        let mut names: Vec<String> = Vec::new();
        let mut i: usize = 0;
        while i < records.len()
            invariant
                i <= records.len(),
                names.deep_view() =~= well_formed_tags(records.deep_view().take(i as int)),
            decreases records.len() - i,
        {
            proof {
                let pre = records.deep_view().take(i as int);
                let post = records.deep_view().take(i as int + 1);
                assert(post.drop_last() =~= pre);
                assert(post.last() == records.deep_view()[i as int]);
            }
            match &records[i] {
                Some(name) => {
                    names.push(name.clone());
                },
                None => {},
            }
            i = i + 1;
        }
        proof {
            assert(records.deep_view().take(records.len() as int) =~= records.deep_view());
        }
        TagDictionary { names }
    }

    /// Loads the dictionary from a source's text, or from no source at all.
    /// A missing source, an unparseable document, or one that is not an
    /// array yields the empty dictionary; malformed records are skipped.
    pub fn load_from_source(source: Option<&str>) -> (r: TagDictionary)
        ensures
            match source {
                Some(s) => match dictionary_records_of(s@) {
                    Some(records) => r.names_view() == well_formed_tags(records),
                    None => r.names_view() =~= Seq::<Seq<char>>::empty(),
                },
                None => r.names_view() =~= Seq::<Seq<char>>::empty(),
            },
    {
        match source {
            Some(text) => match parse_dictionary_records(text) {
                Some(records) => TagDictionary::from_records(records),
                None => TagDictionary::empty(),
            },
            None => TagDictionary::empty(),
        }
    }

    /// Number of known names.
    pub fn len(&self) -> (r: usize)
        ensures
            r == self.names_view().len(),
    {
        self.names.len()
    }

    /// Membership check; advisory only — it never gates an edit.
    pub fn contains(&self, name: &str) -> (r: bool)
        ensures
            r == self.names_view().contains(name@),
    {
        let needle = name.to_owned();
        let mut i: usize = 0;
        while i < self.names.len()
            invariant
                i <= self.names.len(),
                needle@ == name@,
                forall|k: int| 0 <= k < i ==> self.names_view()[k] != name@,
            decreases self.names.len() - i,
        {
            if needle.eq(&self.names[i]) {
                proof {
                    assert(self.names_view()[i as int] == name@);
                }
                return true;
            }
            i = i + 1;
        }
        false
    }

    /// The known names that begin with `prefix`, in dictionary order, for
    /// interactive completion. An empty prefix yields every known name.
    pub fn suggest(&self, prefix: &str) -> (r: Vec<String>)
        ensures
            r.deep_view() == suggestions_of(self.names_view(), prefix@),
    {
        let mut found: Vec<String> = Vec::new();
        let mut i: usize = 0;
        while i < self.names.len()
            invariant
                i <= self.names.len(),
                found.deep_view() =~= suggestions_of(
                    self.names_view().take(i as int),
                    prefix@,
                ),
            decreases self.names.len() - i,
        {
            proof {
                let pre = self.names_view().take(i as int);
                let post = self.names_view().take(i as int + 1);
                assert(post.drop_last() =~= pre);
                assert(post.last() == self.names_view()[i as int]);
            }
            if str_has_prefix(self.names[i].as_str(), prefix) {
                found.push(self.names[i].clone());
            }
            i = i + 1;
        }
        proof {
            assert(self.names_view().take(self.names.len() as int) =~= self.names_view());
        }
        found
    }
}

} // verus!
