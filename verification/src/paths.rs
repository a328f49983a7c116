//! Path strings. Paths the library builds are joined with `/`, which every
//! supported system (Windows included) accepts as a separator; paths it is
//! given are taken apart by `std::path::Path` itself (parent, file name,
//! equality), so they are read with the running system's separators.

use vstd::prelude::*;

use crate::text::{push_char, to_chars};

verus! {

/// `base.join(rel)`: `rel` when it is absolute or `base` is empty, otherwise
/// the two separated by exactly one added `/` (none when `base` ends in `/`).
pub open spec fn join(base: Seq<char>, rel: Seq<char>) -> Seq<char> {
    if rel.len() > 0 && rel[0] == '/' {
        rel
    } else if base.len() == 0 {
        rel
    } else if base.last() == '/' {
        base + rel
    } else {
        base + seq!['/'] + rel
    }
}

/// What `Path::new(p).parent()` gives, as a string: `None` when the path has
/// no parent (or, never for a path made from a string, when it is not UTF-8).
/// On Windows both `/` and `\` separate components, as std reads them.
pub uninterp spec fn path_parent(p: Seq<char>) -> Option<Seq<char>>;

/// `path.parent().unwrap_or(Path::new("."))`.
pub open spec fn parent_or_dot(p: Seq<char>) -> Seq<char> {
    match path_parent(p) {
        Some(d) => d,
        None => seq!['.'],
    }
}

/// The parent directory of `p` (`std::path::Path::parent`); named by [`path_parent`].
#[verifier::external_body]
pub(crate) fn parent_of(p: &str) -> (r: Option<String>)
    ensures
        match path_parent(p@) {
            Some(d) => r is Some && r.unwrap()@ == d,
            None => r is None,
        },
{
    match std::path::Path::new(p).parent() {
        Some(d) => match d.to_str() {
            Some(s) => Some(s.to_string()),
            None => None,
        },
        None => None,
    }
}

/// `Path::parent` of `p`, or `.` when it has none.
pub fn parent_or_dot_of(p: &str) -> (r: String)
    ensures
        r@ == parent_or_dot(p@),
{
    match parent_of(p) {
        Some(d) => d,
        None => {
            let mut r = String::new();
            push_char(&mut r, '.');
            assert(r@ =~= seq!['.']);
            r
        },
    }
}

/// `Path::new(base).join(rel)` as a string.
pub fn join_str(base: &str, rel: &str) -> (r: String)
    ensures
        r@ == join(base@, rel@),
{
    let b = to_chars(base);
    let rv = to_chars(rel);
    if rv.len() > 0 && rv[0] == '/' {
        return crate::text::owned(rel);
    }
    if b.len() == 0 {
        return crate::text::owned(rel);
    }
    if b[b.len() - 1] == '/' {
        return crate::text::concat2(base, rel);
    }
    let r = crate::text::concat3(base, "/", rel);
    proof {
        reveal_strlit("/");
    }
    assert(r@ =~= base@ + seq!['/'] + rel@);
    r
}

} // verus!

verus! {

/// What `Path::new(a) == Path::new(b)` answers (equality of components).
pub uninterp spec fn path_eq(a: Seq<char>, b: Seq<char>) -> bool;

/// Whether two paths are equal as `std::path::Path` values; named by [`path_eq`].
#[verifier::external_body]
pub(crate) fn same_path(a: &str, b: &str) -> (r: bool)
    ensures
        r == path_eq(a@, b@),
{
    std::path::Path::new(a) == std::path::Path::new(b)
}

/// What `Path::new(p).file_name()` gives, as a string (`None` when there is none).
pub uninterp spec fn path_file_name(p: Seq<char>) -> Option<Seq<char>>;

/// The last component of `p` (`Path::file_name`); named by [`path_file_name`].
#[verifier::external_body]
pub(crate) fn file_name_of(p: &str) -> (r: Option<String>)
    ensures
        match path_file_name(p@) {
            Some(n) => r is Some && r.unwrap()@ == n,
            None => r is None,
        },
{
    match std::path::Path::new(p).file_name() {
        Some(n) => match n.to_str() {
            Some(s) => Some(s.to_string()),
            None => None,
        },
        None => None,
    }
}

} // verus!
