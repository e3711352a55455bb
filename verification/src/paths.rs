//! Path handling on plain strings. A path is a string whose components
//! are separated by `'/'` or `'\\'`; the helpers here extract the file
//! name, the parent, and the extension, join components, and decide
//! whether an entry is hidden or is a shell shortcut.

use vstd::prelude::*;

use crate::text::{ascii_lower, ascii_lowercase, lex_le};

verus! {

/// True for the two accepted path separators.
pub open spec fn is_sep(c: char) -> bool {
    c == '/' || c == '\\'
}

/// Index of the last separator in `p`, or `-1` when `p` has none.
pub open spec fn last_sep(p: Seq<char>) -> int
    decreases p.len(),
{
    if p.len() == 0 {
        -1
    } else if is_sep(p.last()) {
        p.len() - 1
    } else {
        last_sep(p.drop_last())
    }
}

pub proof fn lemma_last_sep(p: Seq<char>)
    ensures
        -1 <= last_sep(p) < p.len(),
        last_sep(p) >= 0 ==> is_sep(p[last_sep(p)]),
        forall|j: int| last_sep(p) < j < p.len() ==> !is_sep(#[trigger] p[j]),
    decreases p.len(),
{
    if p.len() > 0 && !is_sep(p.last()) {
        lemma_last_sep(p.drop_last());
        assert(forall|j: int|
            0 <= j < p.len() - 1 ==> p.drop_last()[j] == #[trigger] p[j]);
    }
}

/// The component after the last separator (the whole of `p` when it has none).
pub open spec fn spec_file_name(p: Seq<char>) -> Seq<char> {
    p.skip(last_sep(p) + 1)
}

/// The part of `p` before the last separator: `None` when `p` has no
/// separator, and the separator itself when it is the first character.
pub open spec fn spec_parent(p: Seq<char>) -> Option<Seq<char>> {
    if last_sep(p) == -1 {
        None
    } else if last_sep(p) == 0 {
        Some(p.take(1))
    } else {
        Some(p.take(last_sep(p)))
    }
}

/// `dir` and `name` joined with a `'/'`, unless `dir` already ends in a
/// separator.
pub open spec fn spec_join(dir: Seq<char>, name: Seq<char>) -> Seq<char> {
    if dir.len() > 0 && is_sep(dir.last()) {
        dir + name
    } else {
        dir + seq!['/'] + name
    }
}

/// Index of the last `'.'` in a file name, or `-1` when it has none.
pub open spec fn last_dot(n: Seq<char>) -> int
    decreases n.len(),
{
    if n.len() == 0 {
        -1
    } else if n.last() == '.' {
        n.len() - 1
    } else {
        last_dot(n.drop_last())
    }
}

pub proof fn lemma_last_dot(n: Seq<char>)
    ensures
        -1 <= last_dot(n) < n.len(),
        last_dot(n) >= 0 ==> n[last_dot(n)] == '.',
        forall|j: int| last_dot(n) < j < n.len() ==> #[trigger] n[j] != '.',
    decreases n.len(),
{
    if n.len() > 0 && n.last() != '.' {
        lemma_last_dot(n.drop_last());
        assert(forall|j: int|
            0 <= j < n.len() - 1 ==> n.drop_last()[j] == #[trigger] n[j]);
    }
}

/// The extension of `p`'s file name: what follows the last `'.'`, empty
/// when the name has no dot, or only a leading one, or ends in one.
pub open spec fn spec_extension(p: Seq<char>) -> Seq<char> {
    let n = spec_file_name(p);
    let d = last_dot(n);
    if d <= 0 {
        Seq::empty()
    } else {
        n.skip(d + 1)
    }
}

/// A path names a shell shortcut when its extension is `lnk`, compared
/// without regard to ASCII case.
pub open spec fn spec_is_shortcut(p: Seq<char>) -> bool {
    ascii_lower(spec_extension(p)) == "lnk"@
}

fn sep_scan(p: &str, len: usize, i: usize) -> (r: usize)
    requires
        len == p@.len(),
        i <= len,
        forall|j: int| i <= j < len ==> !is_sep(#[trigger] p@[j]),
    ensures
        r == last_sep(p@) + 1,
    decreases i,
{
    proof {
        lemma_last_sep(p@);
    }
    if i == 0 {
        0
    } else {
        let c = p.get_char(i - 1);
        if c == '/' || c == '\\' {
            i
        } else {
            sep_scan(p, len, i - 1)
        }
    }
}

fn dot_scan(p: &str, len: usize, start: usize, i: usize) -> (r: usize)
    requires
        len == p@.len(),
        start <= i <= len,
        forall|j: int| i <= j < len ==> #[trigger] p@[j] != '.',
    ensures
        r == start + last_dot(p@.skip(start as int).take((len - start) as int)) + 1,
    decreases i - start,
{
    let ghost n = p@.skip(start as int).take((len - start) as int);
    proof {
        lemma_last_dot(n);
        assert(forall|j: int| 0 <= j < n.len() ==> n[j] == #[trigger] p@[j + start]);
    }
    if i == start {
        proof {
            assert forall|j: int| 0 <= j < n.len() implies n[j] != '.' by {
                assert(n[j] == p@[j + start]);
            }
            assert(last_dot(n) == -1);
        }
        start
    } else {
        let c = p.get_char(i - 1);
        if c == '.' {
            proof {
                assert(n[i - 1 - start] == p@[i - 1]);
                assert forall|j: int| i - start <= j < n.len() implies n[j] != '.' by {
                    assert(n[j] == p@[j + start]);
                }
                assert(last_dot(n) == i - 1 - start);
            }
            i
        } else {
            dot_scan(p, len, start, i - 1)
        }
    }
}

/// The file-name component of `p`: everything after the last separator.
pub fn file_name(p: &str) -> (r: String)
    ensures
        r@ == spec_file_name(p@),
{
    let len = p.unicode_len();
    let start = sep_scan(p, len, len);
    proof {
        lemma_last_sep(p@);
        assert(p@.subrange(start as int, len as int) =~= spec_file_name(p@));
    }
    String::from_str(p.substring_char(start, len))
}

/// The parent of `p`, if `p` has one.
pub fn parent(p: &str) -> (r: Option<String>)
    ensures
        r is Some <==> spec_parent(p@) is Some,
        r is Some ==> r->0@ == spec_parent(p@)->0,
{
    let len = p.unicode_len();
    let start = sep_scan(p, len, len);
    proof {
        lemma_last_sep(p@);
    }
    if start == 0 {
        None
    } else if start == 1 {
        proof {
            assert(p@.subrange(0, 1) =~= p@.take(1));
        }
        Some(String::from_str(p.substring_char(0, 1)))
    } else {
        proof {
            assert(p@.subrange(0, start - 1) =~= p@.take(last_sep(p@)));
        }
        Some(String::from_str(p.substring_char(0, start - 1)))
    }
}

/// Joins a directory and a child name with a single separator.
pub fn join(dir: &str, name: &str) -> (r: String)
    ensures
        r@ == spec_join(dir@, name@),
{
    let len = dir.unicode_len();
    let mut r = String::from_str(dir);
    let ends_in_sep = if len == 0 {
        false
    } else {
        let c = dir.get_char(len - 1);
        c == '/' || c == '\\'
    };
    if !ends_in_sep {
        proof {
            reveal_strlit("/");
            assert("/"@ =~= seq!['/']);
        }
        r.append("/");
    }
    r.append(name);
    proof {
        assert(r@ =~= spec_join(dir@, name@));
    }
    r
}

/// The extension of `p`'s file name, exactly as it appears in the path.
pub fn extension_raw(p: &str) -> (r: String)
    ensures
        r@ == spec_extension(p@),
{
    let len = p.unicode_len();
    let start = sep_scan(p, len, len);
    proof {
        lemma_last_sep(p@);
        assert(p@.skip(start as int).take((len - start) as int) =~= spec_file_name(p@));
    }
    let d = dot_scan(p, len, start, len);
    let ghost n = spec_file_name(p@);
    proof {
        lemma_last_dot(n);
    }
    if d - start <= 1 {
        proof {
            assert(last_dot(n) <= 0);
        }
        String::new()
    } else {
        proof {
            assert(p@.subrange(d as int, len as int) =~= n.skip(last_dot(n) + 1));
        }
        String::from_str(p.substring_char(d, len))
    }
}

/// The extension of `p`'s file name, lowered to ASCII lower case.
pub fn extension_lower(p: &str) -> (r: String)
    ensures
        r@ == ascii_lower(spec_extension(p@)),
{
    let raw = extension_raw(p);
    ascii_lowercase(raw.as_str())
}

/// Path-classification methods shared by every string that names a path.
pub trait PathExt {
    spec fn spec_shortcut(&self) -> bool;

    /// Whether the path names a shell shortcut (a `.lnk` entry, in any
    /// ASCII case).
    fn is_shortcut(&self) -> (r: bool)
        ensures
            r == self.spec_shortcut(),
    ;
}

impl PathExt for String {
    open spec fn spec_shortcut(&self) -> bool {
        spec_is_shortcut(self@)
    }

    fn is_shortcut(&self) -> (r: bool)
        ensures
            r == self.spec_shortcut(),
    {
        let ext = extension_lower(self.as_str());
        let lnk = String::from_str("lnk");
        ext.eq(&lnk)
    }
}

/// Resolving a shell shortcut takes the host platform's shell-link
/// machinery, which lives outside this library; without it, resolution
/// always fails and the caller falls back to an error message.
pub fn resolve_shortcut(_lnk_path: &String) -> (r: Option<String>)
    ensures
        r is None,
{
    Option::None
}

/// Where a paste lands: the clipboard entry's file name, joined onto
/// the directory being viewed.
pub fn paste_destination(current_dir: &str, source: &str) -> (r: String)
    ensures
        r@ == spec_join(current_dir@, spec_file_name(source@)),
{
    let name = file_name(source);
    join(current_dir, name.as_str())
}

/// A file name counts as hidden in the dot-file convention when it
/// starts with a `'.'`.
pub fn is_dot_hidden(name: &str) -> (r: bool)
    ensures
        r == (name@.len() > 0 && name@[0] == '.'),
{
    if name.unicode_len() == 0 {
        false
    } else {
        name.get_char(0) == '.'
    }
}

/// A metadata attribute word marks an entry hidden when bit 1 is set.
pub fn is_attr_hidden(attrs: u32) -> (r: bool)
    ensures
        r == ((attrs & 2) != 0),
{
    attrs & 2 != 0
}

} // verus!
