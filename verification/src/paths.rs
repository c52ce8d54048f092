//! Paths as text whose segments are separated by slashes.
//!
//! The crate handles paths as text only: it puts them together and hands
//! them to the host, which alone knows what lies behind them.

use vstd::prelude::*;
use vstd::string::*;

verus! {

/// The character that separates the segments of a path.
pub const SEPARATOR: char = '/';

/// Whether a path starts at the root, and so stands on its own when joined.
pub open spec fn is_absolute(path: Seq<char>) -> bool {
    path.len() > 0 && path[0] == SEPARATOR
}

/// Whether a separator has to be put behind `base` before more is appended.
pub open spec fn needs_separator(base: Seq<char>) -> bool {
    base.len() > 0 && base.last() != SEPARATOR
}

/// `rel` adjoined to `base`: an absolute `rel` replaces `base`; otherwise
/// `rel` follows `base`, with a separator between them unless `base` is
/// empty or already ends in one.
pub open spec fn joined(base: Seq<char>, rel: Seq<char>) -> Seq<char> {
    if is_absolute(rel) {
        rel
    } else if needs_separator(base) {
        base + seq![SEPARATOR] + rel
    } else {
        base + rel
    }
}

/// Adjoins `rel` to `base`.
pub fn join(base: &str, rel: &str) -> (path: String)
    ensures
        path@ == joined(base@, rel@),
{
    if !rel.is_empty() && rel.get_char(0) == SEPARATOR {
        return rel.to_owned();
    }
    let mut path = base.to_owned();
    let len: usize = base.unicode_len();
    if len > 0 && base.get_char(len - 1) != SEPARATOR {
        proof {
            reveal_strlit("/");
        }
        path.append("/");
        assert("/"@ =~= seq![SEPARATOR]);
    }
    path.append(rel);
    path
}

} // verus!
