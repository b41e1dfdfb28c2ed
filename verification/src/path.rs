//! Paths as text: segments separated by `/`, a leading `/` for an absolute path.

use vstd::prelude::*;
use vstd::string::*;

verus! {

/// An absolute path starts at the root.
pub open spec fn is_absolute(path: Seq<char>) -> bool {
    path.len() > 0 && path[0] == '/'
}

/// `name` resolved against `base`: an absolute `name` stands for itself, any
/// other is put behind `base`, with one separator between them unless `base`
/// is empty or already ends in one.
pub open spec fn joined(base: Seq<char>, name: Seq<char>) -> Seq<char> {
    if is_absolute(name) {
        name
    } else if base.len() == 0 || base.last() == '/' {
        base + name
    } else {
        base + seq!['/'] + name
    }
}

/// A `..` segment starts at position `i` of `path`: two dots, with the start
/// of the path or a separator before them and the end of the path or a
/// separator behind them.
pub open spec fn parent_segment_at(path: Seq<char>, i: int) -> bool {
    &&& 0 <= i
    &&& i + 2 <= path.len()
    &&& path[i] == '.'
    &&& path[i + 1] == '.'
    &&& (i == 0 || path[i - 1] == '/')
    &&& (i + 2 == path.len() || path[i + 2] == '/')
}

/// Some segment of `path` is `..`, so that the path climbs to a parent
/// directory.
pub open spec fn has_parent_segment(path: Seq<char>) -> bool {
    exists|i: int| parent_segment_at(path, i)
}

/// `path` without the separators at its end.
pub open spec fn trimmed(path: Seq<char>) -> Seq<char>
    decreases path.len(),
{
    if path.len() > 0 && path.last() == '/' {
        trimmed(path.drop_last())
    } else {
        path
    }
}

/// `path` without its last segment: what is left is empty or ends in a
/// separator.
pub open spec fn without_last_segment(path: Seq<char>) -> Seq<char>
    decreases path.len(),
{
    if path.len() > 0 && path.last() != '/' {
        without_last_segment(path.drop_last())
    } else {
        path
    }
}

/// The directory above `path`: the path without its last segment and without
/// the separators around it. It is the root where nothing but separators
/// stands before the last segment, and the empty path where the segment
/// stands alone. The root and the empty path have nothing above them.
pub open spec fn parent_of(path: Seq<char>) -> Option<Seq<char>> {
    let whole = trimmed(path);
    let above = without_last_segment(whole);
    if whole.len() == 0 {
        None
    } else if above.len() == 0 {
        Some(Seq::empty())
    } else if trimmed(above).len() == 0 {
        Some(seq!['/'])
    } else {
        Some(trimmed(above))
    }
}

/// What a text that may be missing stands for.
pub open spec fn text_option_view(text: Option<String>) -> Option<Seq<char>> {
    match text {
        Some(t) => Some(t@),
        None => None,
    }
}

/// Resolving a name brings no `..` segment with it: where the resolved path
/// has one, the base or the name had it already.
pub proof fn lemma_joined_adds_no_parent_segment(base: Seq<char>, name: Seq<char>)
    requires
        has_parent_segment(joined(base, name)),
    ensures
        has_parent_segment(base) || has_parent_segment(name),
{
    let path = joined(base, name);
    let i = choose|i: int| parent_segment_at(path, i);
    if is_absolute(name) {
        assert(parent_segment_at(name, i));
    } else if base.len() == 0 || base.last() == '/' {
        if i + 2 <= base.len() {
            assert(parent_segment_at(base, i));
        } else if i >= base.len() {
            assert(parent_segment_at(name, i - base.len()));
        }
    } else {
        let separator = base.len() as int;
        if i + 2 <= separator {
            assert(parent_segment_at(base, i));
        } else if i > separator {
            assert(parent_segment_at(name, i - separator - 1));
        }
    }
}

/// The characters of `s`, in order.
pub fn chars_of(s: &str) -> (chars: Vec<char>)
    ensures
        chars@ == s@,
{
    let mut chars: Vec<char> = Vec::new();
    for c in it: s.chars()
        invariant
            it.seq() == s@,
            chars@ == s@.take(it.index()),
    {
        chars.push(c);
    }
    chars
}

/// Resolves `dir_name` against `path`.
pub fn append(path: &str, dir_name: &str) -> (resolved: String)
    ensures
        resolved@ == joined(path@, dir_name@),
{
    let name = chars_of(dir_name);
    if name.len() > 0 && name[0] == '/' {
        return String::from_str(dir_name);
    }
    let base = chars_of(path);
    let mut resolved = String::from_str(path);
    if base.len() > 0 && base[base.len() - 1] != '/' {
        proof {
            reveal_strlit("/");
        }
        resolved.append("/");
    }
    resolved.append(dir_name);
    resolved
}

/// Tells whether some segment of `path` is `..`.
pub fn contains_parent_segment(path: &str) -> (found: bool)
    ensures
        found == has_parent_segment(path@),
{
    let chars = chars_of(path);
    let n: usize = chars.len();
    if n < 2 {
        return false;
    }
    let mut i: usize = 0;
    while i <= n - 2
        invariant
            n == chars.len(),
            n >= 2,
            chars@ == path@,
            forall|j: int| 0 <= j < i ==> !parent_segment_at(path@, j),
        decreases n - i,
    {
        if chars[i] == '.' && chars[i + 1] == '.' && (i == 0 || chars[i - 1] == '/') && (i + 2 == n
            || chars[i + 2] == '/') {
            assert(parent_segment_at(path@, i as int));
            return true;
        }
        i += 1;
    }
    false
}

/// How many of the first `n` characters are left when the separators at
/// their end are taken away.
fn trimmed_len(chars: &Vec<char>, n: usize) -> (m: usize)
    requires
        n <= chars.len(),
    ensures
        m <= n,
        trimmed(chars@.take(n as int)) == chars@.take(m as int),
{
    let mut m: usize = n;
    while m > 0 && chars[m - 1] == '/'
        invariant
            m <= n <= chars.len(),
            trimmed(chars@.take(n as int)) == trimmed(chars@.take(m as int)),
        decreases m,
    {
        assert(chars@.take(m as int).drop_last() == chars@.take(m - 1));
        m -= 1;
    }
    m
}

/// How many of the first `n` characters are left when the last segment is
/// taken away.
fn above_len(chars: &Vec<char>, n: usize) -> (m: usize)
    requires
        n <= chars.len(),
    ensures
        m <= n,
        without_last_segment(chars@.take(n as int)) == chars@.take(m as int),
{
    let mut m: usize = n;
    while m > 0 && chars[m - 1] != '/'
        invariant
            m <= n <= chars.len(),
            without_last_segment(chars@.take(n as int)) == without_last_segment(
                chars@.take(m as int),
            ),
        decreases m,
    {
        assert(chars@.take(m as int).drop_last() == chars@.take(m - 1));
        m -= 1;
    }
    m
}

/// The directory above `path`, where there is one.
pub fn parent(path: &str) -> (above: Option<String>)
    ensures
        text_option_view(above) == parent_of(path@),
{
    let chars = chars_of(path);
    assert(chars@.take(chars.len() as int) == path@);
    let whole: usize = trimmed_len(&chars, chars.len());
    if whole == 0 {
        return None;
    }
    let above: usize = above_len(&chars, whole);
    if above == 0 {
        return Some(String::new());
    }
    let kept: usize = trimmed_len(&chars, above);
    if kept == 0 {
        proof {
            reveal_strlit("/");
        }
        assert("/"@ == seq!['/']);
        Some(String::from_str("/"))
    } else {
        assert(path@.subrange(0, kept as int) == chars@.take(kept as int));
        Some(String::from_str(path.substring_char(0, kept)))
    }
}

} // verus!
