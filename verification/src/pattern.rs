//! Searching text with the `regex` crate, and putting a text together again
//! with each match replaced.
//!
//! What the crate finds is named, not specified: which pieces of a text match
//! a pattern is `regex`'s business. What is done with the matches is verified
//! here.

use vstd::prelude::*;
use regex::Regex;
use crate::text::{string_at, string_views, text_at};

verus! {

/// A compiled pattern of `regex`.
#[verifier::external_type_specification]
#[verifier::external_body]
pub struct ExRegex(regex::Regex);

/// The error of `regex` for a pattern that it refuses. Nothing is read of
/// it.
#[verifier::external_type_specification]
#[verifier::external_body]
pub struct ExRegexError(regex::Error);

/// Name for the pattern that a `regex::Regex` was compiled from.
pub uninterp spec fn regex_pattern(regex: Regex) -> Seq<char>;

/// Name for whether `regex::Regex::new` accepts a pattern.
pub uninterp spec fn regex_accepts(pattern: Seq<char>) -> bool;

/// Name for what `regex::Regex::captures_iter` finds in a text: for each
/// match, from left to right, the text of each of its groups, the whole match
/// first.
pub uninterp spec fn regex_captures(pattern: Seq<char>, text: Seq<char>) -> Seq<Seq<Seq<char>>>;

/// Name for what `regex::Regex::split` yields for a text: the pieces of the
/// text that lie between the matches.
pub uninterp spec fn regex_split(pattern: Seq<char>, text: Seq<char>) -> Seq<Seq<char>>;

/// The values of a list of lists of strings.
pub open spec fn group_views(captures: Seq<Vec<String>>) -> Seq<Seq<Seq<char>>> {
    captures.map_values(|groups: Vec<String>| string_views(groups@))
}

/// The whole text of each match.
pub open spec fn whole_matches(captures: Seq<Seq<Seq<char>>>) -> Seq<Seq<char>> {
    captures.map_values(|groups: Seq<Seq<char>>| text_at(groups, 0))
}

/// The first `n` pieces, each followed by its replacement.
pub open spec fn woven(pieces: Seq<Seq<char>>, replacements: Seq<Seq<char>>, n: nat) -> Seq<char>
    decreases n,
{
    if n == 0 {
        Seq::empty()
    } else {
        woven(pieces, replacements, (n - 1) as nat) + text_at(pieces, n - 1) + text_at(
            replacements,
            n - 1,
        )
    }
}

/// A text put together again from the pieces between its matches, with a
/// replacement in the place of each match: piece, replacement, piece, and so
/// on, ending with the piece after the last replacement.
pub open spec fn spliced(pieces: Seq<Seq<char>>, replacements: Seq<Seq<char>>) -> Seq<char> {
    woven(pieces, replacements, replacements.len()) + text_at(pieces, replacements.len() as int)
}

/// `regex::Regex::new` compiles a pattern, or refuses it. A compiled
/// pattern is the one that was given.
#[verifier::external_body]
fn compile(pattern: &str) -> (compiled: Result<Regex, regex::Error>)
    ensures
        compiled is Ok <==> regex_accepts(pattern@),
        compiled is Ok ==> regex_pattern(compiled->Ok_0) == pattern@,
{
    Regex::new(pattern)
}

/// `Regex::captures_iter` of regex, with `Captures::iter` on each match:
/// for each successive match the text of every group, the whole match first,
/// and the empty string for a group that took no part.
#[verifier::external_body]
fn find_captures(regex: &Regex, text: &str) -> (found: Vec<Vec<String>>)
    ensures
        group_views(found@) == regex_captures(regex_pattern(*regex), text@),
{
    regex.captures_iter(text).map(
        |caps| caps.iter().map(|g| g.map_or(String::new(), |m| m.as_str().to_owned())).collect(),
    ).collect()
}

/// `Regex::split` of regex: the pieces of the text between the matches.
/// There is one piece more than there are matches, the first before the
/// first match and the last after the last one, and the pieces with the
/// matches between them are the text.
#[verifier::external_body]
fn split_matches(regex: &Regex, text: &str) -> (found: Vec<String>)
    ensures
        string_views(found@) == regex_split(regex_pattern(*regex), text@),
        found@.len() == regex_captures(regex_pattern(*regex), text@).len() + 1,
        spliced(string_views(found@), whole_matches(regex_captures(regex_pattern(*regex), text@)))
            == text@,
{
    regex.split(text).map(|piece| piece.to_owned()).collect()
}

/// What a search found: the groups of each match, and the pieces of the text
/// around the matches.
pub struct Matches {
    /// For each match the text of its groups, the whole match first.
    pub captures: Vec<Vec<String>>,
    /// The pieces of the text between the matches.
    pub pieces: Vec<String>,
}

/// Searches `text` for the matches of `pattern`. `None` where the pattern is
/// not one that `regex` accepts.
pub fn search(pattern: &str, text: &str) -> (found: Option<Matches>)
    ensures
        found is Some <==> regex_accepts(pattern@),
        found is Some ==> {
            &&& group_views(found->0.captures@) == regex_captures(pattern@, text@)
            &&& string_views(found->0.pieces@) == regex_split(pattern@, text@)
            &&& found->0.pieces@.len() == found->0.captures@.len() + 1
            &&& spliced(
                string_views(found->0.pieces@),
                whole_matches(group_views(found->0.captures@)),
            ) == text@
        },
{
    match compile(pattern) {
        Err(_) => None,
        Ok(regex) => {
            let captures = find_captures(&regex, text);
            let pieces = split_matches(&regex, text);
            proof {
                assert(group_views(captures@).len() == captures@.len());
            }
            Some(Matches { captures, pieces })
        },
    }
}

/// Puts a text together from the pieces between its matches and one
/// replacement for each match.
pub fn splice(pieces: &Vec<String>, replacements: &Vec<String>) -> (text: String)
    ensures
        text@ == spliced(string_views(pieces@), string_views(replacements@)),
{
    let mut text = String::new();
    let mut i: usize = 0;
    assert(text@ =~= woven(string_views(pieces@), string_views(replacements@), 0));
    while i < replacements.len()
        invariant
            i <= replacements.len(),
            text@ == woven(string_views(pieces@), string_views(replacements@), i as nat),
        decreases replacements.len() - i,
    {
        text.push_str(string_at(pieces, i));
        text.push_str(string_at(replacements, i));
        i += 1;
    }
    text.push_str(string_at(pieces, i));
    text
}

/// A text, searched with a pattern, with the given replacements in the
/// place of its matches; the text itself where the pattern is not one that
/// `regex` accepts.
pub open spec fn replaced(pattern: Seq<char>, text: Seq<char>, replacements: Seq<Seq<char>>) -> Seq<
    char,
> {
    if regex_accepts(pattern) {
        spliced(regex_split(pattern, text), replacements)
    } else {
        text
    }
}

} // verus!
