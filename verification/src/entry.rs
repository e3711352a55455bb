//! Directory-listing entries: the displayed record of one filesystem
//! entry, its construction from raw metadata values, and the listing
//! order — directories first, then shortcuts, then files by extension
//! and name, all compared without regard to ASCII case.

use vstd::prelude::*;

use crate::formatting::{format_size, format_time, spec_format_size, spec_format_time};
use crate::paths::{file_name, spec_extension, spec_file_name, spec_is_shortcut, PathExt,
    extension_lower};
use crate::text::{ascii_lower, ascii_lowercase, lemma_lex_le_antisym, lemma_lex_le_total,
    lemma_lex_le_trans, lex_le, lex_le_str};

verus! {

/// One entry of a directory listing, ready for display.
#[derive(Clone, Debug)]
pub struct FileEntry {
    path: String,
    display_name: String,
    is_dir: bool,
    modified: String,
    size: String,
    is_hidden: bool,
}

/// The mathematical image of a listing entry.
pub struct FileEntryView {
    pub path: Seq<char>,
    pub display_name: Seq<char>,
    pub is_dir: bool,
    pub modified: Seq<char>,
    pub size: Seq<char>,
    pub is_hidden: bool,
}

impl View for FileEntry {
    type V = FileEntryView;

    closed spec fn view(&self) -> FileEntryView {
        FileEntryView {
            path: self.path@,
            display_name: self.display_name@,
            is_dir: self.is_dir,
            modified: self.modified@,
            size: self.size@,
            is_hidden: self.is_hidden,
        }
    }
}

impl FileEntry {
    /// Assembles an entry from its already-rendered parts.
    pub fn new(
        path: String,
        display_name: String,
        is_dir: bool,
        modified: String,
        size: String,
        is_hidden: bool,
    ) -> (r: FileEntry)
        ensures
            r@ == (FileEntryView {
                path: path@,
                display_name: display_name@,
                is_dir,
                modified: modified@,
                size: size@,
                is_hidden,
            }),
    {
        FileEntry { path, display_name, is_dir, modified, size, is_hidden }
    }

    pub fn path(&self) -> (r: String)
        ensures
            r@ == self@.path,
    {
        self.path.clone()
    }

    pub fn display_name(&self) -> (r: String)
        ensures
            r@ == self@.display_name,
    {
        self.display_name.clone()
    }

    pub fn is_dir(&self) -> (r: bool)
        ensures
            r == self@.is_dir,
    {
        self.is_dir
    }

    pub fn is_shortcut(&self) -> (r: bool)
        ensures
            r == spec_is_shortcut(self@.path),
    {
        self.path.is_shortcut()
    }

    pub fn modified(&self) -> (r: String)
        ensures
            r@ == self@.modified,
    {
        self.modified.clone()
    }

    pub fn size(&self) -> (r: String)
        ensures
            r@ == self@.size,
    {
        self.size.clone()
    }

    pub fn is_hidden(&self) -> (r: bool)
        ensures
            r == self@.is_hidden,
    {
        self.is_hidden
    }

    /// The entry's file extension, lowered to ASCII lower case; empty
    /// when the name has none.
    pub fn extension(&self) -> (r: String)
        ensures
            r@ == ascii_lower(spec_extension(self@.path)),
    {
        extension_lower(self.path.as_str())
    }
}

/// Builds the displayed entry for one listed path from raw metadata:
/// the name is the path's last component, the modification column
/// renders the timestamp (or `Unknown` when the filesystem gave none),
/// and the size column is empty for directories.
pub fn build_file_entry(
    path: String,
    is_dir: bool,
    size_bytes: u64,
    modified_secs: Option<u64>,
    is_hidden: bool,
) -> (r: FileEntry)
    ensures
        r@.path == path@,
        r@.display_name == spec_file_name(path@),
        r@.is_dir == is_dir,
        r@.modified == (match modified_secs {
            Option::Some(s) => spec_format_time(s),
            Option::None => "Unknown"@,
        }),
        r@.size == (if is_dir {
            Seq::<char>::empty()
        } else {
            spec_format_size(size_bytes)
        }),
        r@.is_hidden == is_hidden,
{
    let display_name = file_name(path.as_str());
    let modified = match modified_secs {
        Option::Some(s) => format_time(s),
        Option::None => String::from_str("Unknown"),
    };
    let size = if is_dir {
        String::new()
    } else {
        format_size(size_bytes)
    };
    FileEntry::new(path, display_name, is_dir, modified, size, is_hidden)
}

/// The listing rank of an entry: directories first, shortcuts next,
/// ordinary files last.
pub open spec fn spec_rank(e: FileEntryView) -> int {
    if e.is_dir {
        0
    } else if spec_is_shortcut(e.path) {
        1
    } else {
        2
    }
}

/// The case-lowered extension key of an entry.
pub open spec fn spec_ext_key(e: FileEntryView) -> Seq<char> {
    ascii_lower(spec_extension(e.path))
}

/// The case-lowered name key of an entry.
pub open spec fn spec_name_key(e: FileEntryView) -> Seq<char> {
    ascii_lower(e.display_name)
}

/// The listing order: by rank, then extension, then display name.
pub open spec fn spec_entry_le(a: FileEntryView, b: FileEntryView) -> bool {
    if spec_rank(a) != spec_rank(b) {
        spec_rank(a) < spec_rank(b)
    } else if spec_ext_key(a) != spec_ext_key(b) {
        lex_le(spec_ext_key(a), spec_ext_key(b))
    } else {
        lex_le(spec_name_key(a), spec_name_key(b))
    }
}

/// The listing order relates every pair of entries one way or the other.
pub proof fn lemma_entry_le_total(a: FileEntryView, b: FileEntryView)
    ensures
        spec_entry_le(a, b) || spec_entry_le(b, a),
{
    if spec_rank(a) == spec_rank(b) {
        if spec_ext_key(a) != spec_ext_key(b) {
            lemma_lex_le_total(spec_ext_key(a), spec_ext_key(b));
        } else {
            lemma_lex_le_total(spec_name_key(a), spec_name_key(b));
        }
    }
}

/// The listing order is transitive.
pub proof fn lemma_entry_le_trans(a: FileEntryView, b: FileEntryView, c: FileEntryView)
    requires
        spec_entry_le(a, b),
        spec_entry_le(b, c),
    ensures
        spec_entry_le(a, c),
{
    if spec_rank(a) == spec_rank(b) && spec_rank(b) == spec_rank(c) {
        let ea = spec_ext_key(a);
        let eb = spec_ext_key(b);
        let ec = spec_ext_key(c);
        if ea != eb && eb != ec {
            lemma_lex_le_trans(ea, eb, ec);
            if ea == ec {
                lemma_lex_le_antisym(ea, eb);
            }
        } else if ea != eb && eb == ec {
            assert(lex_le(ea, ec));
        } else if ea == eb && eb != ec {
            assert(lex_le(ea, ec));
        } else {
            lemma_lex_le_trans(spec_name_key(a), spec_name_key(b), spec_name_key(c));
        }
    }
}

/// Decides the listing order on two entries.
pub fn entry_le(a: &FileEntry, b: &FileEntry) -> (r: bool)
    ensures
        r == spec_entry_le(a@, b@),
{
    let ra: u8 = if a.is_dir {
        0
    } else if a.path.is_shortcut() {
        1
    } else {
        2
    };
    let rb: u8 = if b.is_dir {
        0
    } else if b.path.is_shortcut() {
        1
    } else {
        2
    };
    if ra != rb {
        ra < rb
    } else {
        let ea = extension_lower(a.path.as_str());
        let eb = extension_lower(b.path.as_str());
        if !ea.eq(&eb) {
            lex_le_str(ea.as_str(), eb.as_str())
        } else {
            let na = ascii_lowercase(a.display_name.as_str());
            let nb = ascii_lowercase(b.display_name.as_str());
            lex_le_str(na.as_str(), nb.as_str())
        }
    }
}

/// Sorts a listing in the displayed order: directories first, then
/// shortcuts, then files, each group by extension and then by name,
/// ignoring ASCII case. The result holds exactly the entries it was
/// given.
pub fn sort_directory_contents(files: &mut Vec<FileEntry>)
    ensures
        final(files)@.to_multiset() == old(files)@.to_multiset(),
        final(files)@.len() == old(files)@.len(),
        forall|x: int, y: int|
            0 <= x < y < final(files)@.len() ==> spec_entry_le(
                #[trigger] final(files)@[x]@,
                #[trigger] final(files)@[y]@,
            ),
{
    broadcast use vstd::seq_lib::group_to_multiset_ensures;

    let ghost orig = files@;
    let mut i: usize = 1;
    while i < files.len()
        invariant
            1 <= i,
            i <= files@.len() || files@.len() < 2,
            files@.len() == orig.len(),
            files@.to_multiset() == orig.to_multiset(),
            forall|x: int, y: int|
                0 <= x < y < i && y < files@.len() ==> spec_entry_le(
                    #[trigger] files@[x]@,
                    #[trigger] files@[y]@,
                ),
        decreases files@.len() - i,
    {
        let ghost before = files@;
        let x = files.remove(i);
        let ghost s1 = files@;
        proof {
            vstd::seq_lib::to_multiset_remove(before, i as int);
            assert(s1.to_multiset() == before.to_multiset().remove(x));
            assert(forall|k: int| 0 <= k < i ==> s1[k] == #[trigger] before[k]);
        }
        let mut pos: usize = 0;
        while pos < i && entry_le(&files[pos], &x)
            invariant
                pos <= i,
                i < before.len(),
                files@ == s1,
                s1.len() == before.len() - 1,
                i <= s1.len(),
                forall|p: int| 0 <= p < pos ==> spec_entry_le(#[trigger] s1[p]@, x@),
            decreases i - pos,
        {
            pos = pos + 1;
        }
        proof {
            if pos < i {
                lemma_entry_le_total(s1[pos as int]@, x@);
                assert(spec_entry_le(x@, s1[pos as int]@));
            }
        }
        files.insert(pos, x);
        proof {
            let s2 = s1.insert(pos as int, x);
            assert(files@ == s2);
            vstd::seq_lib::to_multiset_insert(s1, pos as int, x);
            assert(before[i as int] == x);
            assert(before.contains(x));
            before.to_multiset_ensures();
            assert(before.to_multiset().count(x) > 0);
            assert(s2.to_multiset() =~= before.to_multiset());
            s1.insert_ensures(pos as int, x);
            assert forall|p: int, q: int|
                0 <= p < q < i + 1 && q < s2.len() implies spec_entry_le(
                #[trigger] s2[p]@,
                #[trigger] s2[q]@,
            ) by {
                if q < pos {
                    assert(s2[p] == s1[p] && s2[q] == s1[q]);
                } else if q == pos {
                    assert(s2[p] == s1[p]);
                    assert(s2[q] == x);
                } else if p < pos {
                    assert(s2[p] == s1[p] && s2[q] == s1[q - 1]);
                    assert(p < q - 1);
                    assert(spec_entry_le(s1[p]@, s1[q - 1]@));
                } else if p == pos {
                    assert(s2[p] == x && s2[q] == s1[q - 1]);
                    assert(pos < i);
                    assert(spec_entry_le(x@, s1[pos as int]@));
                    if q - 1 > pos {
                        assert(spec_entry_le(s1[pos as int]@, s1[q - 1]@));
                        lemma_entry_le_trans(x@, s1[pos as int]@, s1[q - 1]@);
                    }
                } else {
                    assert(s2[p] == s1[p - 1] && s2[q] == s1[q - 1]);
                    assert(spec_entry_le(s1[p - 1]@, s1[q - 1]@));
                }
            }
        }
        i = i + 1;
    }
}

} // verus!
