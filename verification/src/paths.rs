//! File system paths as text, joined the way `Path::join` joins them on Unix.

use vstd::prelude::*;

verus! {

/// `base.join(rel)` on Unix: an absolute `rel` replaces `base`; otherwise `rel` is appended,
/// after a `/` unless `base` is empty or already ends with one.
pub open spec fn join(base: Seq<char>, rel: Seq<char>) -> Seq<char> {
    if rel.len() > 0 && rel[0] == '/' {
        rel
    } else if base.len() > 0 && base.last() != '/' {
        base + seq!['/'] + rel
    } else {
        base + rel
    }
}

/// Joins `rel` onto `base` (what `Path::new(base).join(rel)` gives).
pub fn join_path(base: &str, rel: &str) -> (r: String)
    ensures
        r@ == join(base@, rel@),
{
    proof {
        reveal_strlit("/");
    }
    let n = base.unicode_len();
    if rel.unicode_len() > 0 && rel.get_char(0) == '/' {
        return String::from_str(rel);
    }
    let mut out = String::from_str(base);
    if n > 0 && base.get_char(n - 1) != '/' {
        out.append("/");
    }
    out.append(rel);
    out
}

/// `a` followed by `b`.
pub fn cat_str(a: &str, b: &str) -> (r: String)
    ensures
        r@ == a@ + b@,
{
    let mut out = String::from_str(a);
    out.append(b);
    out
}

} // verus!
