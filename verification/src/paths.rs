//! The way from a chapter's page back to the root of the site, as `mdbook`
//! computes it.

use vstd::prelude::*;
use crate::text::chars_of;

verus! {

/// Name for what `mdbook::utils::fs::path_to_root` returns for a path that
/// reads alike on every platform (`is_plain_path`): one `../` for each
/// directory that the path names before its last part.
pub uninterp spec fn root_path(path: Seq<char>) -> Seq<char>;

/// Whether one of the first `n` characters of a path belongs to a name: it is
/// neither a `/` nor a dot.
pub open spec fn has_name_char(path: Seq<char>, n: nat) -> bool
    decreases n,
{
    n > 0 && (has_name_char(path, (n - 1) as nat) || (path[n - 1] != '/' && path[n - 1] != '.'))
}

/// Whether one of the first `n` characters of a path is one that some
/// platforms read as part of a drive or as a separator: `:` or `\`.
pub open spec fn has_drive_char(path: Seq<char>, n: nat) -> bool
    decreases n,
{
    n > 0 && (has_drive_char(path, (n - 1) as nat) || path[n - 1] == ':' || path[n - 1] == '\\')
}

/// A path that every platform reads in the same way, and that has a part
/// before which it can be cut: it holds no `:` and no `\`, and a character
/// of a name.
pub open spec fn is_plain_path(path: Seq<char>) -> bool {
    has_name_char(path, path.len()) && !has_drive_char(path, path.len())
}

/// The way from the page of a chapter at `path` to the root of the site;
/// empty for a path that is not plain.
pub open spec fn way_to_root(path: Seq<char>) -> Seq<char> {
    if is_plain_path(path) {
        root_path(path)
    } else {
        Seq::empty()
    }
}

/// `mdbook::utils::fs::path_to_root`: takes the last part off the path and
/// writes `../` for each named part that is left. It panics on a path
/// without a parent; a plain path holds a name and so has one. Without `:`
/// and `\` the parts of the path are the same on every platform, and the
/// result is a function of the text.
#[verifier::external_body]
fn root_of(path: &str) -> (root: String)
    requires
        is_plain_path(path@),
    ensures
        root@ == root_path(path@),
{
    mdbook::utils::fs::path_to_root(path)
}

/// Whether a path is plain.
pub fn plain_path(path: &str) -> (plain: bool)
    ensures
        plain == is_plain_path(path@),
{
    let chars = chars_of(path);
    let mut named = false;
    let mut drive = false;
    let mut i: usize = 0;
    while i < chars.len()
        invariant
            i <= chars.len(),
            chars@ == path@,
            named == has_name_char(path@, i as nat),
            drive == has_drive_char(path@, i as nat),
        decreases chars.len() - i,
    {
        let c = chars[i];
        if c != '/' && c != '.' {
            named = true;
        }
        if c == ':' || c == '\\' {
            drive = true;
        }
        i += 1;
    }
    named && !drive
}

/// The way from the page of a chapter at `path` to the root of the site: one
/// `../` for each directory of the path. A path that is not plain, the empty
/// one among them, gets the empty way.
pub fn path_to_root(path: &str) -> (root: String)
    ensures
        root@ == way_to_root(path@),
{
    if plain_path(path) {
        root_of(path)
    } else {
        String::new()
    }
}

} // verus!
