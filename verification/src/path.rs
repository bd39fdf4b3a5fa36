//! Joining a relative location onto a directory, with `/` as the separator
//! on every platform.

use vstd::prelude::*;
use vstd::string::*;

verus! {

/// The character that separates the components of a path.
pub const SEPARATOR: char = '/';

/// Whether `path` starts at the root.
pub open spec fn is_absolute(path: Seq<char>) -> bool {
    path.len() > 0 && path[0] == SEPARATOR
}

/// Whether a separator has to be put between `base` and what follows it.
pub open spec fn needs_separator(base: Seq<char>) -> bool {
    base.len() > 0 && base.last() != SEPARATOR
}

/// `rel` taken relative to `base`: an absolute `rel` stands for itself;
/// otherwise it follows `base`, after one separator unless `base` is empty
/// or already ends in one.
pub open spec fn joined(base: Seq<char>, rel: Seq<char>) -> Seq<char> {
    if is_absolute(rel) {
        rel
    } else if needs_separator(base) {
        base + seq![SEPARATOR] + rel
    } else {
        base + rel
    }
}

/// Tells whether `path` starts at the root.
pub fn starts_at_root(path: &str) -> (absolute: bool)
    ensures
        absolute == is_absolute(path@),
{
    !path.is_empty() && path.get_char(0) == SEPARATOR
}

/// Tells whether `base` has to be followed by a separator before a
/// relative path is put behind it.
pub fn wants_separator(base: &str) -> (wanted: bool)
    ensures
        wanted == needs_separator(base@),
{
    let len: usize = base.unicode_len();
    len > 0 && base.get_char(len - 1) != SEPARATOR
}

/// Returns `rel` taken relative to `base`.
pub fn join(base: &str, rel: &str) -> (path: String)
    ensures
        path@ == joined(base@, rel@),
{
    if starts_at_root(rel) {
        String::from_str(rel)
    } else if wants_separator(base) {
        proof {
            reveal_strlit("/");
            assert("/"@ =~= seq![SEPARATOR]);
        }
        String::from_str(base).concat("/").concat(rel)
    } else {
        String::from_str(base).concat(rel)
    }
}

} // verus!
