//! Tag extraction: from an image's raw bytes to a display-ready tag table.
//!
//! The binary EXIF/TIFF decoding itself is the external codec's work; this
//! module turns the codec's (name, value) pairs into `TagEntry` rows, with
//! the display rendering capped to a bounded length. The full value is kept
//! beside the capped one: the cap is a presentation concern only.

use vstd::prelude::*;

verus! {

/// How the codec can fail.
#[derive(Clone, Copy, PartialEq, Eq, Structural, Debug)]
pub enum CodecError {
    /// The file could not be opened or read.
    Unreadable,
    /// The bytes hold no recognizable metadata container.
    Unparseable,
    /// The container could not be rewritten.
    WriteFailed,
}

/// Characters kept when a tag value is rendered for a list view.
pub const DISPLAY_VALUE_CAP: usize = 50;

/// The display rendering of a value: the value itself, capped to
/// `DISPLAY_VALUE_CAP` characters.
pub open spec fn display_of(value: Seq<char>) -> Seq<char> {
    if value.len() <= DISPLAY_VALUE_CAP {
        value
    } else {
        value.take(DISPLAY_VALUE_CAP as int)
    }
}

/// One extracted tag: its name, its full value, and the capped rendering
/// used for list presentation. Entries are produced fresh on every
/// extraction and never patched individually.
#[derive(Debug)]
pub struct TagEntry {
    pub name: String,
    pub value: String,
    pub display_value: String,
}

/// What the codec's parse of raw image bytes yields: the ordered (tag name,
/// rendered value) pairs of the container, in container-native order, or
/// nothing where the bytes hold no recognizable metadata. Determined by the
/// bytes alone.
pub uninterp spec fn exif_fields_of(data: Seq<u8>) -> Option<Seq<(Seq<char>, Seq<char>)>>;

/// Relies on exif::Reader::read_from_container over an in-memory cursor:
/// it decodes the container (TIFF, JPEG, PNG, WebP, HEIF) found in the
/// bytes and yields its fields in container order; each field's tag and
/// unit-qualified display value render to strings. A pure function of the
/// bytes; an unrecognized or undecodable container is an error.
#[verifier::external_body]
fn read_exif_fields(data: &[u8]) -> (r: Option<Vec<(String, String)>>)
    ensures
        r.deep_view() == exif_fields_of(data@),
{
    let mut cursor = std::io::Cursor::new(data);
    let parsed = exif::Reader::new().read_from_container(&mut cursor).ok()?;
    Some(
        parsed.fields().map(
            |f| (f.tag.to_string(), f.display_value().with_unit(&parsed).to_string()),
        ).collect(),
    )
}

/// One entry reflects one codec pair: same name, same full value, and the
/// capped rendering of that value.
pub open spec fn entry_matches(entry: TagEntry, pair: (Seq<char>, Seq<char>)) -> bool {
    &&& entry.name@ == pair.0
    &&& entry.value@ == pair.1
    &&& entry.display_value@ == display_of(pair.1)
}

/// A table reflects the codec's pairs exactly, in order.
pub open spec fn table_matches(table: Seq<TagEntry>, pairs: Seq<(Seq<char>, Seq<char>)>) -> bool {
    &&& table.len() == pairs.len()
    &&& forall|i: int| 0 <= i < table.len() ==> entry_matches(#[trigger] table[i], pairs[i])
}

impl TagEntry {
    /// Builds an entry, deriving the capped display rendering; the full
    /// value is kept untruncated.
    pub fn new(name: String, value: String) -> (r: TagEntry)
        ensures
            r.name@ == name@,
            r.value@ == value@,
            r.display_value@ == display_of(value@),
    {
        let n = value.as_str().unicode_len();
        let display_value = if n <= DISPLAY_VALUE_CAP {
            value.clone()
        } else {
            value.as_str().substring_char(0, DISPLAY_VALUE_CAP).to_owned()
        };
        TagEntry { name, value, display_value }
    }
}

/// Extracts the full ordered tag table from an image's raw bytes. Succeeds
/// exactly when the bytes hold a recognizable metadata container; the error
/// is recoverable — the caller shows an empty table, not a failure.
pub fn extract_from_bytes(data: &[u8]) -> (r: Result<Vec<TagEntry>, CodecError>)
    ensures
        match r {
            Ok(table) => exif_fields_of(data@) matches Some(pairs) && table_matches(
                table@,
                pairs,
            ),
            Err(e) => exif_fields_of(data@) is None && e == CodecError::Unparseable,
        },
{
    let pairs = match read_exif_fields(data) {
        Some(pairs) => pairs,
        None => {
            return Err(CodecError::Unparseable);
        },
    };
    let mut table: Vec<TagEntry> = Vec::new();
    let mut i: usize = 0;
    while i < pairs.len()
        invariant
            i <= pairs.len(),
            table_matches(table@, pairs.deep_view().take(i as int)),
        decreases pairs.len() - i,
    {
        proof {
            assert(pairs.deep_view()[i as int] == (pairs@[i as int].0@, pairs@[i as int].1@));
        }
        let name = pairs[i].0.clone();
        let value = pairs[i].1.clone();
        table.push(TagEntry::new(name, value));
        i = i + 1;
    }
    proof {
        assert(pairs.deep_view().take(pairs.len() as int) =~= pairs.deep_view());
    }
    Ok(table)
}

} // verus!
