//! An ordered, navigable collection of image file paths.
//!
//! A collection is built from a directory listing, filtered to the supported
//! image extensions (jpg, jpeg, png, bmp — case-insensitive), and carries a
//! cursor that wraps around at either end.

use vstd::prelude::*;

verus! {

/// Direction of cursor movement through a collection.
#[derive(Clone, Copy, PartialEq, Eq, Structural, Debug)]
pub enum Direction {
    Next,
    Previous,
}

/// Why a directory could not be turned into a collection.
#[derive(Clone, Copy, PartialEq, Eq, Structural, Debug)]
pub enum DirectoryError {
    NotADirectory,
    Unreadable,
}

/// True when `c` is the lower-case letter `lower` in either case.
pub open spec fn char_ci(c: char, lower: char, upper: char) -> bool {
    c == lower || c == upper
}

/// The index just past the last `'.'` of `name`, if `name` holds one.
pub open spec fn ext_start(name: Seq<char>) -> Option<int>
    decreases name.len(),
{
    if name.len() == 0 {
        None
    } else if name[name.len() - 1] == '.' {
        Some(name.len() as int)
    } else {
        ext_start(name.drop_last())
    }
}

pub open spec fn is_jpg(e: Seq<char>) -> bool {
    e.len() == 3 && char_ci(e[0], 'j', 'J') && char_ci(e[1], 'p', 'P') && char_ci(e[2], 'g', 'G')
}

pub open spec fn is_jpeg(e: Seq<char>) -> bool {
    e.len() == 4 && char_ci(e[0], 'j', 'J') && char_ci(e[1], 'p', 'P') && char_ci(e[2], 'e', 'E')
        && char_ci(e[3], 'g', 'G')
}

pub open spec fn is_png(e: Seq<char>) -> bool {
    e.len() == 3 && char_ci(e[0], 'p', 'P') && char_ci(e[1], 'n', 'N') && char_ci(e[2], 'g', 'G')
}

pub open spec fn is_bmp(e: Seq<char>) -> bool {
    e.len() == 3 && char_ci(e[0], 'b', 'B') && char_ci(e[1], 'm', 'M') && char_ci(e[2], 'p', 'P')
}

pub open spec fn supported_extension(e: Seq<char>) -> bool {
    is_jpg(e) || is_jpeg(e) || is_png(e) || is_bmp(e)
}

/// A file name is a supported image when it has an extension (a final `'.'`
/// that is not its first character) and that extension, case-insensitively,
/// is one of the supported ones.
pub open spec fn is_supported_image(name: Seq<char>) -> bool {
    match ext_start(name) {
        Some(p) => p >= 2 && supported_extension(name.subrange(p, name.len() as int)),
        None => false,
    }
}

/// The subsequence of `names` that are supported images, in listing order.
pub open spec fn supported_of(names: Seq<Seq<char>>) -> Seq<Seq<char>>
    decreases names.len(),
{
    if names.len() == 0 {
        Seq::empty()
    } else {
        let rest = supported_of(names.drop_last());
        if is_supported_image(names.last()) {
            rest.push(names.last())
        } else {
            rest
        }
    }
}

/// Where one advance step lands: `Next` wraps past the last entry to 0,
/// `Previous` wraps before entry 0 to the last entry.
pub open spec fn advance_spec(cursor: int, len: int, direction: Direction) -> int
    recommends
        len > 0,
        0 <= cursor < len,
{
    match direction {
        Direction::Next => if cursor + 1 < len {
            cursor + 1
        } else {
            0
        },
        Direction::Previous => if cursor == 0 {
            len - 1
        } else {
            cursor - 1
        },
    }
}

/// Where `n` advance steps in the same direction land.
pub open spec fn advance_n(cursor: int, len: int, direction: Direction, n: nat) -> int
    decreases n,
{
    if n == 0 {
        cursor
    } else {
        advance_spec(advance_n(cursor, len, direction, (n - 1) as nat), len, direction)
    }
}

proof fn lemma_advance_n_next(cursor: int, len: int, n: nat)
    requires
        0 <= cursor < len,
        n <= len,
    ensures
        advance_n(cursor, len, Direction::Next, n) == if cursor + n < len {
            cursor + n
        } else {
            cursor + n - len
        },
    decreases n,
{
    if n > 0 {
        lemma_advance_n_next(cursor, len, (n - 1) as nat);
    }
}

/// Law: in a non-empty collection of length `len`, advancing `Next` exactly
/// `len` times returns the cursor to its starting position.
pub proof fn lemma_next_wraparound_closure(cursor: int, len: int)
    requires
        0 <= cursor < len,
    ensures
        advance_n(cursor, len, Direction::Next, len as nat) == cursor,
{
    lemma_advance_n_next(cursor, len, len as nat);
}

/// Law: in a non-empty collection, one `Previous` step exactly inverts one
/// `Next` step, and one `Next` step exactly inverts one `Previous` step.
pub proof fn lemma_previous_inverts_next(cursor: int, len: int)
    requires
        0 <= cursor < len,
    ensures
        advance_spec(advance_spec(cursor, len, Direction::Next), len, Direction::Previous)
            == cursor,
        advance_spec(advance_spec(cursor, len, Direction::Previous), len, Direction::Next)
            == cursor,
{
}

/// Finds `ext_start(name@)` as a concrete index.
fn find_ext_start(name: &str) -> (r: Option<usize>)
    ensures
        match r {
            Some(p) => ext_start(name@) == Some(p as int) && 1 <= p <= name@.len(),
            None => ext_start(name@) is None,
        },
{
    let n = name.unicode_len();
    let mut i: usize = n;
    proof {
        assert(name@.take(n as int) =~= name@);
    }
    while i > 0
        invariant
            i <= n,
            n == name@.len(),
            ext_start(name@) == ext_start(name@.take(i as int)),
        decreases i,
    {
        let c = name.get_char(i - 1);
        if c == '.' {
            proof {
                assert(name@.take(i as int).last() == name@[i - 1]);
            }
            return Some(i);
        }
        proof {
            assert(name@.take(i as int).drop_last() =~= name@.take(i as int - 1));
        }
        i = i - 1;
    }
    proof {
        assert(name@.take(0) =~= Seq::<char>::empty());
    }
    None
}

/// True when the character is `lower` in either case.
fn char_matches_ci(c: char, lower: char, upper: char) -> (r: bool)
    ensures
        r == char_ci(c, lower, upper),
{
    c == lower || c == upper
}

/// Whether a file name carries one of the supported image extensions,
/// case-insensitively.
pub fn is_supported_image_name(name: &str) -> (r: bool)
    ensures
        r == is_supported_image(name@),
{
    let p = match find_ext_start(name) {
        Some(p) => p,
        None => {
            return false;
        },
    };
    if p < 2 {
        return false;
    }
    let n = name.unicode_len();
    let elen = n - p;
    let ghost e = name@.subrange(p as int, n as int);
    if elen == 3 {
        let c0 = name.get_char(p);
        let c1 = name.get_char(p + 1);
        let c2 = name.get_char(p + 2);
        proof {
            assert(e[0] == name@[p as int]);
            assert(e[1] == name@[p as int + 1]);
            assert(e[2] == name@[p as int + 2]);
        }
        (char_matches_ci(c0, 'j', 'J') && char_matches_ci(c1, 'p', 'P') && char_matches_ci(
            c2,
            'g',
            'G',
        )) || (char_matches_ci(c0, 'p', 'P') && char_matches_ci(c1, 'n', 'N') && char_matches_ci(
            c2,
            'g',
            'G',
        )) || (char_matches_ci(c0, 'b', 'B') && char_matches_ci(c1, 'm', 'M') && char_matches_ci(
            c2,
            'p',
            'P',
        ))
    } else if elen == 4 {
        let c0 = name.get_char(p);
        let c1 = name.get_char(p + 1);
        let c2 = name.get_char(p + 2);
        let c3 = name.get_char(p + 3);
        proof {
            assert(e[0] == name@[p as int]);
            assert(e[1] == name@[p as int + 1]);
            assert(e[2] == name@[p as int + 2]);
            assert(e[3] == name@[p as int + 3]);
        }
        char_matches_ci(c0, 'j', 'J') && char_matches_ci(c1, 'p', 'P') && char_matches_ci(
            c2,
            'e',
            'E',
        ) && char_matches_ci(c3, 'g', 'G')
    } else {
        false
    }
}

/// An ordered list of image paths with a wrapping cursor.
///
/// `entries` is immutable once built for a given directory selection; a new
/// selection replaces the whole collection and resets the cursor to 0.
pub struct ImageCollection {
    entries: Vec<String>,
    cursor: usize,
}

impl ImageCollection {
    /// The entries as a sequence of character sequences, in discovery order.
    pub closed spec fn entries_view(&self) -> Seq<Seq<char>> {
        self.entries.deep_view()
    }

    /// The cursor position.
    pub closed spec fn cursor_view(&self) -> int {
        self.cursor as int
    }

    /// Well-formedness: the cursor is in bounds whenever the collection is
    /// non-empty, and pinned to 0 when it is empty.
    pub open spec fn wf(&self) -> bool {
        if self.entries_view().len() == 0 {
            self.cursor_view() == 0
        } else {
            0 <= self.cursor_view() < self.entries_view().len()
        }
    }

    /// The path under the cursor, or none for an empty collection.
    pub open spec fn current_spec(&self) -> Option<Seq<char>> {
        if self.entries_view().len() == 0 {
            None
        } else {
            Some(self.entries_view()[self.cursor_view()])
        }
    }

    /// An empty collection.
    pub fn empty() -> (r: ImageCollection)
        ensures
            r.wf(),
            r.entries_view() =~= Seq::<Seq<char>>::empty(),
            r.cursor_view() == 0,
    {
        ImageCollection { entries: Vec::new(), cursor: 0 }
    }

    /// Builds a collection from a directory listing: keeps exactly the names
    /// with a supported image extension, in discovery order, cursor at 0.
    pub fn from_listing(names: Vec<String>) -> (r: ImageCollection)
        ensures
            r.wf(),
            r.cursor_view() == 0,
            r.entries_view() == supported_of(names.deep_view()),
    {
        let mut entries: Vec<String> = Vec::new();
        let mut i: usize = 0;
        while i < names.len()
            invariant
                i <= names.len(),
                entries.deep_view() =~= supported_of(names.deep_view().take(i as int)),
            decreases names.len() - i,
        {
            let keep = is_supported_image_name(names[i].as_str());
            proof {
                let pre = names.deep_view().take(i as int);
                let post = names.deep_view().take(i as int + 1);
                assert(post.drop_last() =~= pre);
                assert(post.last() == names.deep_view()[i as int]);
            }
            if keep {
                entries.push(names[i].clone());
            }
            i = i + 1;
        }
        proof {
            assert(names.deep_view().take(names.len() as int) =~= names.deep_view());
        }
        ImageCollection { entries, cursor: 0 }
    }

    /// Number of entries.
    pub fn len(&self) -> (r: usize)
        ensures
            r == self.entries_view().len(),
    {
        self.entries.len()
    }

    /// The cursor as an index; meaningful only for a non-empty collection.
    pub fn cursor(&self) -> (r: usize)
        ensures
            r == self.cursor_view(),
    {
        self.cursor
    }

    /// The path under the cursor, or none for an empty collection.
    pub fn current(&self) -> (r: Option<String>)
        requires
            self.wf(),
        ensures
            r.deep_view() == self.current_spec(),
    {
        if self.entries.len() == 0 {
            None
        } else {
            Some(self.entries[self.cursor].clone())
        }
    }

    /// Whether the path under the cursor is exactly `path`.
    pub fn current_is(&self, path: &str) -> (r: bool)
        requires
            self.wf(),
        ensures
            r == (self.current_spec() == Some(path@)),
    {
        if self.entries.len() == 0 {
            return false;
        }
        let owned = path.to_owned();
        owned.eq(&self.entries[self.cursor])
    }

    /// Moves the cursor one step with wraparound; a no-op on an empty
    /// collection. Never panics and never leaves the cursor out of bounds.
    pub fn advance(&mut self, direction: Direction)
        requires
            old(self).wf(),
        ensures
            final(self).wf(),
            final(self).entries_view() == old(self).entries_view(),
            old(self).entries_view().len() == 0 ==> final(self).cursor_view() == old(
                self,
            ).cursor_view(),
            old(self).entries_view().len() > 0 ==> final(self).cursor_view() == advance_spec(
                old(self).cursor_view(),
                old(self).entries_view().len() as int,
                direction,
            ),
    {
        let n = self.entries.len();
        if n == 0 {
            return;
        }
        self.cursor = match direction {
            Direction::Next => if self.cursor + 1 < n {
                self.cursor + 1
            } else {
                0
            },
            Direction::Previous => if self.cursor == 0 {
                n - 1
            } else {
                self.cursor - 1
            },
        };
    }
}

} // verus!
