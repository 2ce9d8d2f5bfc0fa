//! The metadata session: the orchestrator that owns the collection, the
//! current tag table and the dictionary, and coordinates navigation,
//! extraction and edits.
//!
//! File I/O — listing a directory, reading an image's bytes, rewriting its
//! container — is the integration's work. The session decides: it resolves
//! which path an operation targets and hands it back to the caller, and it
//! commits an outcome only if that outcome still belongs to the current
//! path, so a late-arriving extraction for a path that was navigated away
//! from is discarded rather than overwriting a newer table. Each operation
//! takes the whole session exclusively (`&mut self`); an integration that
//! runs operations from several threads puts the session behind one lock
//! and so interleaves them at whole-call granularity.

use vstd::prelude::*;

use crate::codec::{extract_from_bytes, exif_fields_of, table_matches, CodecError, TagEntry};
use crate::collection::{advance_spec, supported_of, Direction, DirectoryError, ImageCollection};
use crate::dictionary::TagDictionary;

verus! {

/// A tag-name/value edit as typed by the caller. The name need not be a
/// dictionary member: the dictionary is advisory, for completion, not a
/// hard gate.
pub struct EditRequest {
    pub tag_name: String,
    pub value: String,
}

/// Why an edit was rejected before any file was touched.
#[derive(Clone, Copy, PartialEq, Eq, Structural, Debug)]
pub enum EditError {
    /// The tag name or the value is empty.
    EmptyField,
    /// No directory is open, or the open collection holds no image.
    NoActiveFile,
}

/// The session state: collection, current tag table, dictionary.
pub struct MetadataSession {
    dictionary: TagDictionary,
    collection: ImageCollection,
    table: Vec<TagEntry>,
}

impl MetadataSession {
    /// The entries of the active collection.
    pub closed spec fn entries(&self) -> Seq<Seq<char>> {
        self.collection.entries_view()
    }

    /// The cursor of the active collection.
    pub closed spec fn cursor_view(&self) -> int {
        self.collection.cursor_view()
    }

    /// The current tag table.
    pub closed spec fn table_view(&self) -> Seq<TagEntry> {
        self.table@
    }

    /// The known dictionary names.
    pub closed spec fn dictionary_names(&self) -> Seq<Seq<char>> {
        self.dictionary.names_view()
    }

    /// The path the session's codec operations act on: the entry under the
    /// cursor, or none while no image is active.
    pub open spec fn current_path(&self) -> Option<Seq<char>> {
        if self.entries().len() == 0 {
            None
        } else {
            Some(self.entries()[self.cursor_view()])
        }
    }

    pub closed spec fn wf(&self) -> bool {
        self.collection.wf()
    }

    proof fn lemma_current_path(&self)
        ensures
            self.current_path() == self.collection.current_spec(),
    {
    }

    /// A fresh session: no directory opened, empty table.
    pub fn new(dictionary: TagDictionary) -> (r: MetadataSession)
        ensures
            r.wf(),
            r.entries() =~= Seq::<Seq<char>>::empty(),
            r.table_view() =~= Seq::<TagEntry>::empty(),
            r.dictionary_names() == dictionary.names_view(),
    {
        MetadataSession { dictionary, collection: ImageCollection::empty(), table: Vec::new() }
    }

    /// Replaces the collection with one built from a fresh directory
    /// listing and resets the cursor to 0; a failed listing leaves the
    /// session exactly as it was, an existing collection included. Returns
    /// the path whose table should now be extracted and committed, or none
    /// for an empty collection. The table starts empty: a directory whose
    /// first image cannot be extracted still browses.
    pub fn open_directory(&mut self, listing: Result<Vec<String>, DirectoryError>) -> (r: Result<
        Option<String>,
        DirectoryError,
    >)
        requires
            old(self).wf(),
        ensures
            final(self).wf(),
            final(self).dictionary_names() == old(self).dictionary_names(),
            match listing {
                Ok(names) => {
                    &&& final(self).entries() == supported_of(names.deep_view())
                    &&& final(self).cursor_view() == 0
                    &&& final(self).table_view() =~= Seq::<TagEntry>::empty()
                    &&& r matches Ok(p) && p.deep_view() == final(self).current_path()
                },
                Err(e) => {
                    &&& final(self).entries() == old(self).entries()
                    &&& final(self).cursor_view() == old(self).cursor_view()
                    &&& final(self).table_view() == old(self).table_view()
                    &&& r == Err::<Option<String>, DirectoryError>(e)
                },
            },
    {
        match listing {
            Ok(names) => {
                self.collection = ImageCollection::from_listing(names);
                self.table = Vec::new();
                proof {
                    self.lemma_current_path();
                }
                Ok(self.collection.current())
            },
            Err(e) => Err(e),
        }
    }

    /// Moves the cursor with wraparound and returns the path whose table
    /// should now be extracted and committed. On an empty collection this
    /// is a no-op: no cursor, no table change, no error.
    pub fn navigate(&mut self, direction: Direction) -> (r: Option<String>)
        requires
            old(self).wf(),
        ensures
            final(self).wf(),
            final(self).entries() == old(self).entries(),
            final(self).dictionary_names() == old(self).dictionary_names(),
            old(self).entries().len() == 0 ==> {
                &&& final(self).cursor_view() == old(self).cursor_view()
                &&& final(self).table_view() == old(self).table_view()
                &&& r is None
            },
            old(self).entries().len() > 0 ==> {
                &&& final(self).cursor_view() == advance_spec(
                    old(self).cursor_view(),
                    old(self).entries().len() as int,
                    direction,
                )
                &&& final(self).table_view() =~= Seq::<TagEntry>::empty()
                &&& r.deep_view() == final(self).current_path()
            },
    {
        if self.collection.len() == 0 {
            return None;
        }
        self.collection.advance(direction);
        self.table = Vec::new();
        proof {
            self.lemma_current_path();
        }
        self.collection.current()
    }

    /// Commits an extraction outcome for `path`: the bytes read from it, or
    /// none where the file could not be read. The table is replaced
    /// wholesale — with the decoded rows, or with an empty table where the
    /// bytes were unreadable or unparseable. An outcome for a path that is
    /// no longer current is discarded: the newer table wins.
    pub fn commit_extraction(&mut self, path: &str, data: Option<&[u8]>)
        requires
            old(self).wf(),
        ensures
            final(self).wf(),
            final(self).entries() == old(self).entries(),
            final(self).cursor_view() == old(self).cursor_view(),
            final(self).dictionary_names() == old(self).dictionary_names(),
            old(self).current_path() != Some(path@) ==> final(self).table_view() == old(
                self,
            ).table_view(),
            old(self).current_path() == Some(path@) ==> match data {
                Some(bytes) => match exif_fields_of(bytes@) {
                    Some(pairs) => table_matches(final(self).table_view(), pairs),
                    None => final(self).table_view() =~= Seq::<TagEntry>::empty(),
                },
                None => final(self).table_view() =~= Seq::<TagEntry>::empty(),
            },
    {
        proof {
            self.lemma_current_path();
        }
        if !self.collection.current_is(path) {
            return;
        }
        match data {
            Some(bytes) => match extract_from_bytes(bytes) {
                Ok(table) => {
                    self.table = table;
                },
                Err(_) => {
                    self.table = Vec::new();
                },
            },
            None => {
                self.table = Vec::new();
            },
        }
    }

    /// Validates an edit and resolves the path it targets. An empty tag
    /// name or value is rejected before any file access; with no active
    /// file the edit is rejected too. Otherwise the returned path — always
    /// the entry under the cursor — is the one the codec must rewrite; the
    /// outcome comes back through `commit_edit`.
    pub fn submit_edit(&self, request: &EditRequest) -> (r: Result<String, EditError>)
        requires
            self.wf(),
        ensures
            match r {
                Ok(path) => {
                    &&& request.tag_name@.len() > 0
                    &&& request.value@.len() > 0
                    &&& self.current_path() == Some(path@)
                },
                Err(EditError::EmptyField) => request.tag_name@.len() == 0
                    || request.value@.len() == 0,
                Err(EditError::NoActiveFile) => {
                    &&& request.tag_name@.len() > 0
                    &&& request.value@.len() > 0
                    &&& self.current_path() is None
                },
            },
    {
        if request.tag_name.as_str().is_empty() || request.value.as_str().is_empty() {
            return Err(EditError::EmptyField);
        }
        proof {
            self.lemma_current_path();
        }
        match self.collection.current() {
            Some(path) => Ok(path),
            None => Err(EditError::NoActiveFile),
        }
    }

    /// Commits the codec's outcome for an edit applied to `path`. A failed
    /// write leaves the session exactly as it was — the table still shows
    /// the pre-edit state — and surfaces the failure. A successful write to
    /// the still-current path empties the table and returns that path, to
    /// be re-extracted and committed so the displayed state reflects the
    /// just-written file; a successful write to a path that is no longer
    /// current changes nothing.
    pub fn commit_edit(&mut self, path: &str, outcome: Result<(), CodecError>) -> (r: Result<
        Option<String>,
        CodecError,
    >)
        requires
            old(self).wf(),
        ensures
            final(self).wf(),
            final(self).entries() == old(self).entries(),
            final(self).cursor_view() == old(self).cursor_view(),
            final(self).dictionary_names() == old(self).dictionary_names(),
            match outcome {
                Err(e) => {
                    &&& final(self).table_view() == old(self).table_view()
                    &&& r == Err::<Option<String>, CodecError>(e)
                },
                Ok(_) => {
                    &&& old(self).current_path() == Some(path@) ==> {
                        &&& final(self).table_view() =~= Seq::<TagEntry>::empty()
                        &&& r matches Ok(p) && p.deep_view() == Some(path@)
                    }
                    &&& old(self).current_path() != Some(path@) ==> {
                        &&& final(self).table_view() == old(self).table_view()
                        &&& r == Ok::<Option<String>, CodecError>(None)
                    }
                },
            },
    {
        proof {
            self.lemma_current_path();
        }
        match outcome {
            Err(e) => Err(e),
            Ok(_) => {
                if self.collection.current_is(path) {
                    self.table = Vec::new();
                    Ok(Some(path.to_owned()))
                } else {
                    Ok(None)
                }
            },
        }
    }

    /// The current tag table, for rendering.
    pub fn table(&self) -> (r: &Vec<TagEntry>)
        ensures
            r@ == self.table_view(),
    {
        &self.table
    }

    /// The path under the cursor, or none while no image is active.
    pub fn current(&self) -> (r: Option<String>)
        requires
            self.wf(),
        ensures
            r.deep_view() == self.current_path(),
    {
        proof {
            self.lemma_current_path();
        }
        self.collection.current()
    }

    /// Number of entries in the active collection.
    pub fn collection_len(&self) -> (r: usize)
        ensures
            r == self.entries().len(),
    {
        self.collection.len()
    }

    /// The cursor position; meaningful only for a non-empty collection.
    pub fn cursor(&self) -> (r: usize)
        ensures
            r == self.cursor_view(),
    {
        self.collection.cursor()
    }

    /// The dictionary, for completion and advisory membership checks.
    pub fn dictionary(&self) -> (r: &TagDictionary)
        ensures
            r.names_view() == self.dictionary_names(),
    {
        &self.dictionary
    }
}

} // verus!
