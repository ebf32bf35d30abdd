//! File-system paths, through `std::path`. What `exists` returns depends on
//! what is on disk. The separator `join` puts in depends on the platform, so a
//! joined path is stated up to that separator: none, `/` or `\\`.
use vstd::prelude::*;
use crate::text;

verus! {

/// A single plain path component: non-empty, without a separator (`/` or `\\`),
/// without a drive colon, and neither `.` nor `..`.
pub open spec fn plain_name(p: Seq<char>) -> bool {
    &&& p.len() > 0
    &&& forall|i: int| 0 <= i < p.len() ==> p[i] != '/' && p[i] != '\\' && p[i] != ':'
    &&& p != "."@
    &&& p != ".."@
}

/// A path separator of either platform.
pub open spec fn is_separator(c: char) -> bool {
    c == '/' || c == '\\'
}

/// What `join` may put between a base and a plain component: nothing (the
/// base is empty, is a bare drive, or already ends in a separator) or the
/// platform's separator.
pub open spec fn separator_text(s: Seq<char>) -> bool {
    s.len() == 0 || s == seq!['/'] || s == seq!['\\']
}

/// `t` is `base` with the plain component `part` appended after a separator
/// text.
pub open spec fn joined(base: Seq<char>, part: Seq<char>, t: Seq<char>) -> bool {
    exists|s: Seq<char>| separator_text(s) && t == base + s + part
}

/// Text that Windows reads as a verbatim path: it starts with two separators,
/// `?` and a separator (`\\?\`, with `/` read as `\`).
pub open spec fn verbatim_start(t: Seq<char>) -> bool {
    &&& t.len() >= 4
    &&& is_separator(t[0])
    &&& is_separator(t[1])
    &&& t[2] == '?'
    &&& is_separator(t[3])
}

/// A base that is not verbatim and does not become so when a separator is
/// appended to it.
pub open spec fn safe_base(b: Seq<char>) -> bool {
    !verbatim_start(b + seq!['\\'])
}

/// Appending a plain component that does not start with `?` to a safe base
/// gives a safe base again.
pub proof fn lemma_joined_safe(b: Seq<char>, part: Seq<char>, t: Seq<char>)
    requires
        safe_base(b),
        plain_name(part),
        part[0] != '?',
        joined(b, part, t),
    ensures
        safe_base(t),
{
    let s = choose|s: Seq<char>| separator_text(s) && t == b + s + part;
    let u = t + seq!['\\'];
    let v = b + seq!['\\'];
    if verbatim_start(u) {
        if b.len() >= 3 {
            assert(u[0] == v[0] && u[1] == v[1] && u[2] == v[2]);
            if b.len() >= 4 {
                assert(u[3] == v[3]);
            }
        } else if s.len() == 0 {
            assert(u[b.len() as int] == part[0]);
            if part.len() >= 2 {
                assert(u[b.len() + 1int] == part[1]);
            }
        } else {
            assert(u[b.len() as int] == s[0]);
            assert(u[b.len() + 1int] == part[0]);
            if part.len() >= 2 {
                assert(u[b.len() + 2int] == part[1]);
            }
        }
    }
}

/// `Path::new(base).join(part)`, as text. `PathBuf::push` appends a relative
/// component after the platform's separator, which it leaves out where `base`
/// is empty, is a bare drive (`C:`) or already ends in a separator; a plain
/// component is relative on either platform, and text that was a `&str` comes
/// back unchanged from `to_string_lossy`. On Windows a verbatim `base`
/// (`\\?\...`) is rebuilt component by component; for such a base only the
/// last component is stated.
#[verifier::external_body]
pub(crate) fn path_join(base: &str, part: &str) -> (r: String)
    ensures
        plain_name(part@) ==> text::is_suffix(part@, r@),
        plain_name(part@) && safe_base(base@) ==> joined(base@, part@, r@),
{
    std::path::Path::new(base).join(part).to_string_lossy().to_string()
}

/// `Path::new(p).exists()`: whether something is at `p` on disk now.
#[verifier::external_body]
pub(crate) fn path_exists(p: &str) -> (r: bool) {
    std::path::Path::new(p).exists()
}

} // verus!
