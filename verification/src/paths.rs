//! Path normalization: a user-supplied folder path loses at most one leading
//! and one trailing separator before it is combined with object keys, so that
//! prefix matching against the store's listing is unambiguous.

use vstd::prelude::*;
use vstd::string::StrSliceExecFns;

verus! {

/// `s` without its first character when that character is a separator.
pub open spec fn strip_leading_sep(s: Seq<char>) -> Seq<char> {
    if s.len() > 0 && s[0] == '/' {
        s.subrange(1, s.len() as int)
    } else {
        s
    }
}

/// `s` without its last character when that character is a separator.
pub open spec fn strip_trailing_sep(s: Seq<char>) -> Seq<char> {
    if s.len() > 0 && s[s.len() - 1] == '/' {
        s.subrange(0, s.len() - 1)
    } else {
        s
    }
}

/// The normal form of a path: at most one separator removed at each end,
/// the leading one first.
pub open spec fn norm_path(s: Seq<char>) -> Seq<char> {
    strip_trailing_sep(strip_leading_sep(s))
}

/// Whether a path still opens or closes with a separator.
pub open spec fn has_edge_sep(s: Seq<char>) -> bool {
    s.len() > 0 && (s[0] == '/' || s[s.len() - 1] == '/')
}

/// Removes one leading and one trailing separator from `path_to_sanitize`,
/// if present; any other character is kept as it is.
pub fn sanitize_path(path_to_sanitize: String) -> (r: String)
    ensures
        r@ == norm_path(path_to_sanitize@),
{
    let s: &str = path_to_sanitize.as_str();
    let n: usize = s.unicode_len();
    let t: &str = if n > 0 && s.get_char(0) == '/' {
        s.substring_char(1, n)
    } else {
        s
    };
    assert(t@ =~= strip_leading_sep(s@));
    let m: usize = t.unicode_len();
    let u: &str = if m > 0 && t.get_char(m - 1) == '/' {
        t.substring_char(0, m - 1)
    } else {
        t
    };
    assert(u@ =~= norm_path(s@));
    u.to_owned()
}

/// Normalization is idempotent on every path whose normal form carries no
/// leading or trailing separator; a path such as a doubled separator at an
/// end leaves one behind, and a second pass then removes more.
pub proof fn lemma_norm_path_idempotent(p: Seq<char>)
    requires
        !has_edge_sep(norm_path(p)),
    ensures
        norm_path(norm_path(p)) == norm_path(p),
{
}

} // verus!
