//! The two passes over a rendered page: the classes of code blocks are
//! rewritten for the syntax highlighter, and plain headings get an id, so
//! that the links of the table of contents find them.
//!
//! Both passes search the page with `regex`; what they put in the place of
//! each match is computed here.

use vstd::prelude::*;
use crate::normalize::{normalize_id, normalized};
use crate::pattern::{
    group_views,
    regex_captures,
    regex_split,
    replaced,
    search,
    splice,
    spliced,
    whole_matches,
    Matches,
};
use crate::text::{
    begins_with,
    chars_of,
    starts_with,
    string_at,
    string_of,
    string_views,
    text_at,
};
use crate::toc::{link_of, SummaryView};

verus! {

/// The pattern of the start of a heading: `<h`, one digit, `>`, text without
/// `<`, and the `<` that ends the text. The groups are the digit and the
/// text. Whether the heading is plain is decided by what follows the match.
pub open spec fn heading_pattern() -> Seq<char> {
    "<h([\\d])>([^<]+)<"@
}

/// The pattern of the opening tags of a code block whose `code` tag carries a
/// class list. The groups are what stands before the class attribute, the
/// class list, and what stands after the attribute.
pub open spec fn code_block_pattern() -> Seq<char> {
    "<pre><code([^>]+)class=\"([^\"]+)\"([^>]*)>"@
}

/// The pattern of a language class and all that follows it in a class list.
/// The group is what follows `language-`.
pub open spec fn language_pattern() -> Seq<char> {
    "language-([^\"]+)"@
}

/// The start of a heading with its id: the level, the id made from the
/// heading's text, and the text.
pub open spec fn heading_with_id(groups: Seq<Seq<char>>) -> Seq<char> {
    "<h"@ + text_at(groups, 1) + " id=\""@ + normalized(text_at(groups, 2)) + "\">"@ + text_at(
        groups,
        2,
    ) + "<"@
}

/// A class list with a space in the place of each comma.
pub open spec fn commas_to_spaces(classes: Seq<char>) -> Seq<char> {
    classes.map_values(
        |c: char|
            if c == ',' {
                ' '
            } else {
                c
            },
    )
}

/// Where the token that starts at or before `i` ends: the place of the first
/// space from `i` on, or the end of the text.
pub open spec fn token_end(s: Seq<char>, i: nat) -> nat
    decreases s.len() - i,
{
    if i >= s.len() || s[i as int] == ' ' {
        i
    } else {
        token_end(s, i + 1)
    }
}

/// The text up to its first space.
pub open spec fn first_token(s: Seq<char>) -> Seq<char> {
    s.take(token_end(s, 0) as int)
}

/// The three classes that stand for a language: the first token of what
/// followed `language-`, as a language class and as a tab class, and the
/// class that switches highlighting on.
pub open spec fn language_classes(groups: Seq<Seq<char>>) -> Seq<char> {
    "language-"@ + first_token(text_at(groups, 1)) + " tab-"@ + first_token(text_at(groups, 1))
        + " highlight"@
}

/// A class list, rewritten: commas become spaces, and each match of the
/// language pattern becomes the three classes of its language.
pub open spec fn classes_rewritten(classes: Seq<char>) -> Seq<char> {
    replaced(
        language_pattern(),
        commas_to_spaces(classes),
        regex_captures(language_pattern(), commas_to_spaces(classes)).map_values(
            |groups: Seq<Seq<char>>| language_classes(groups),
        ),
    )
}

/// The opening tags of a code block, rewritten: the class list moves to the
/// `pre` tag, and the `code` tag keeps what stood around the attribute.
pub open spec fn code_tag_rewritten(groups: Seq<Seq<char>>) -> Seq<char> {
    "<pre class=\""@ + classes_rewritten(text_at(groups, 2)) + "\"><code"@ + text_at(groups, 1)
        + text_at(groups, 3) + ">"@
}

/// The closing tag of a heading of the given level, without the `<` that the
/// heading pattern takes with the match.
pub open spec fn heading_end(level: Seq<char>) -> Seq<char> {
    "/h"@ + level + ">"@
}

/// Whether a match of the heading pattern is a whole plain heading: the text
/// that follows the match is the closing tag of the heading. Where a nested
/// tag follows instead, the heading holds markup.
pub open spec fn is_plain_heading(groups: Seq<Seq<char>>, after: Seq<char>) -> bool {
    starts_with(after, heading_end(text_at(groups, 1)))
}

/// What stands in the place of a match of the heading pattern: the start of
/// the heading with its id where the heading is plain, the match as it was
/// where it is not.
pub open spec fn heading_rewritten(groups: Seq<Seq<char>>, after: Seq<char>) -> Seq<char> {
    if is_plain_heading(groups, after) {
        heading_with_id(groups)
    } else {
        text_at(groups, 0)
    }
}

/// What stands in the place of each match of the heading pattern, given the
/// matches and the pieces of the page around them: the piece that follows a
/// match decides whether the heading is plain.
pub open spec fn headings_rewritten(
    captures: Seq<Seq<Seq<char>>>,
    pieces: Seq<Seq<char>>,
) -> Seq<Seq<char>> {
    Seq::new(captures.len(), |i: int| heading_rewritten(captures[i], text_at(pieces, i + 1)))
}

/// A page with an id in each plain heading.
pub open spec fn heading_ids_fixed(html: Seq<char>) -> Seq<char> {
    replaced(
        heading_pattern(),
        html,
        headings_rewritten(
            regex_captures(heading_pattern(), html),
            regex_split(heading_pattern(), html),
        ),
    )
}

/// A page with the opening tags of each code block rewritten.
pub open spec fn code_blocks_fixed(html: Seq<char>) -> Seq<char> {
    replaced(
        code_block_pattern(),
        html,
        regex_captures(code_block_pattern(), html).map_values(
            |groups: Seq<Seq<char>>| code_tag_rewritten(groups),
        ),
    )
}

proof fn lemma_token_ends_at_space(s: Seq<char>, i: nat, end: nat)
    requires
        i <= end < s.len(),
        s[end as int] == ' ',
        forall|k: int| 0 <= k < end ==> s[k] != ' ',
    ensures
        token_end(s, i) == end,
    decreases end - i,
{
    if i < end {
        lemma_token_ends_at_space(s, i + 1, end);
    }
}

/// The three classes of a language are not split again: where the language
/// pattern finds them in a class list and takes what follows `language-` for
/// its group, the classes written in their place are the same three. This
/// holds of every tag without a space, the empty one too.
pub proof fn lemma_rewritten_language_stays(tag: Seq<char>)
    requires
        forall|k: int| 0 <= k < tag.len() ==> tag[k] != ' ',
    ensures
        first_token(tag + " tab-"@ + tag + " highlight"@) == tag,
        language_classes(
            seq![
                "language-"@ + tag + " tab-"@ + tag + " highlight"@,
                tag + " tab-"@ + tag + " highlight"@,
            ],
        ) == "language-"@ + tag + " tab-"@ + tag + " highlight"@,
{
    reveal_strlit(" tab-");
    let rest = tag + " tab-"@ + tag + " highlight"@;
    assert(rest[tag.len() as int] == ' ');
    assert forall|k: int| 0 <= k < tag.len() implies rest[k] != ' ' by {
        assert(rest[k] == tag[k]);
    }
    lemma_token_ends_at_space(rest, 0, tag.len());
    assert(rest.take(tag.len() as int) =~= tag);
}

/// The link of a chapter finds the heading that bears the chapter's name:
/// the id that a heading with that text is given is the id that the link
/// points to.
pub proof fn lemma_link_meets_heading(
    entry: SummaryView,
    label: Seq<char>,
    groups: Seq<Seq<char>>,
)
    requires
        entry is Chapter,
        text_at(groups, 2) == entry->name,
    ensures
        link_of(entry, label).len() == 1,
        link_of(entry, label)[0] is Link,
        heading_with_id(groups) == "<h"@ + text_at(groups, 1) + " id=\""@ + link_of(
            entry,
            label,
        )[0]->id + "\">"@ + entry->name + "<"@,
{
}

/// A class list without commas stays as it is when commas become spaces.
pub proof fn lemma_spaced_without_commas(classes: Seq<char>)
    requires
        forall|k: int| 0 <= k < classes.len() ==> classes[k] != ',',
    ensures
        commas_to_spaces(classes) == classes,
{
    assert(commas_to_spaces(classes) =~= classes);
}

/// Writes what stands in the place of a match of the heading pattern, from
/// the groups of the match and the text that follows it.
pub fn heading_replacement(groups: &Vec<String>, after: &str) -> (out: String)
    ensures
        out@ == heading_rewritten(string_views(groups@), after@),
{
    let level = string_at(groups, 1);
    let mut end = String::new();
    end.push_str("/h");
    end.push_str(level);
    end.push_str(">");
    assert(end@ =~= heading_end(text_at(string_views(groups@), 1)));
    if !begins_with(after, end.as_str()) {
        return string_at(groups, 0).to_owned();
    }
    let title = string_at(groups, 2);
    let id = normalize_id(title);
    let mut out = String::new();
    out.push_str("<h");
    out.push_str(level);
    out.push_str(" id=\"");
    out.push_str(id.as_str());
    out.push_str("\">");
    out.push_str(title);
    out.push_str("<");
    assert(out@ =~= heading_with_id(string_views(groups@)));
    out
}

/// Puts a page together again with an id in each plain heading among the
/// headings that were found.
pub fn inject_heading_ids(found: &Matches) -> (out: String)
    ensures
        out@ == spliced(
            string_views(found.pieces@),
            headings_rewritten(group_views(found.captures@), string_views(found.pieces@)),
        ),
{
    let mut replacements: Vec<String> = Vec::new();
    let mut i: usize = 0;
    while i < found.captures.len()
        invariant
            i <= found.captures.len(),
            replacements.len() == i,
            forall|k: int|
                0 <= k < i ==> (#[trigger] replacements@[k])@ == heading_rewritten(
                    string_views(found.captures@[k]@),
                    text_at(string_views(found.pieces@), k + 1),
                ),
        decreases found.captures.len() - i,
    {
        let after = string_at(&found.pieces, i + 1);
        replacements.push(heading_replacement(&found.captures[i], after));
        i += 1;
    }
    assert(string_views(replacements@) =~= headings_rewritten(
        group_views(found.captures@),
        string_views(found.pieces@),
    ));
    splice(&found.pieces, &replacements)
}

/// Gives an id to every heading of level 1 to 9 that holds plain text only:
/// text between the opening tag and the closing tag of the heading, and no
/// tag. A heading that holds markup stays as it is, whether the markup
/// starts it or follows some text. Where no plain heading is found the page
/// stays as it is.
pub fn fix_heading_ids(html: &str) -> (out: String)
    ensures
        out@ == heading_ids_fixed(html@),
        (forall|i: int|
            0 <= i < regex_captures(heading_pattern(), html@).len() ==> !is_plain_heading(
                #[trigger] regex_captures(heading_pattern(), html@)[i],
                text_at(regex_split(heading_pattern(), html@), i + 1),
            )) ==> out@ == html@,
{
    match search("<h([\\d])>([^<]+)<", html) {
        None => html.to_owned(),
        Some(found) => {
            let out = inject_heading_ids(&found);
            proof {
                let captures = group_views(found.captures@);
                let pieces = string_views(found.pieces@);
                if forall|i: int|
                    0 <= i < captures.len() ==> !is_plain_heading(
                        #[trigger] captures[i],
                        text_at(pieces, i + 1),
                    ) {
                    assert(headings_rewritten(captures, pieces) =~= whole_matches(captures));
                }
            }
            out
        },
    }
}

/// Writes a class list with a space in the place of each comma.
pub fn spaced_classes(classes: &str) -> (out: String)
    ensures
        out@ == commas_to_spaces(classes@),
{
    let chars = chars_of(classes);
    let mut spaced: Vec<char> = Vec::new();
    let mut i: usize = 0;
    while i < chars.len()
        invariant
            i <= chars.len(),
            chars@ == classes@,
            spaced.len() == i,
            forall|k: int| 0 <= k < i ==> #[trigger] spaced@[k] == commas_to_spaces(classes@)[k],
        decreases chars.len() - i,
    {
        let c = chars[i];
        spaced.push(
            if c == ',' {
                ' '
            } else {
                c
            },
        );
        i += 1;
    }
    assert(spaced@ =~= commas_to_spaces(classes@));
    string_of(&spaced)
}

/// The text up to its first space.
pub fn first_word(text: &str) -> (out: String)
    ensures
        out@ == first_token(text@),
{
    let chars = chars_of(text);
    let mut word: Vec<char> = Vec::new();
    let mut i: usize = 0;
    while i < chars.len() && chars[i] != ' '
        invariant
            i <= chars.len(),
            chars@ == text@,
            word@ == text@.take(i as int),
            token_end(text@, 0) == token_end(text@, i as nat),
        decreases chars.len() - i,
    {
        word.push(chars[i]);
        proof {
            assert(text@.take(i + 1) =~= text@.take(i as int).push(text@[i as int]));
        }
        i += 1;
    }
    string_of(&word)
}

/// Writes the three classes of a language, from the groups of a match of the
/// language pattern.
pub fn language_replacement(groups: &Vec<String>) -> (out: String)
    ensures
        out@ == language_classes(string_views(groups@)),
{
    let language = first_word(string_at(groups, 1));
    let mut out = String::new();
    out.push_str("language-");
    out.push_str(language.as_str());
    out.push_str(" tab-");
    out.push_str(language.as_str());
    out.push_str(" highlight");
    assert(out@ =~= language_classes(string_views(groups@)));
    out
}

/// Puts a class list together again with the three classes of its language
/// in the place of each match that was found.
pub fn rewrite_languages(found: &Matches) -> (out: String)
    ensures
        out@ == spliced(
            string_views(found.pieces@),
            group_views(found.captures@).map_values(
                |groups: Seq<Seq<char>>| language_classes(groups),
            ),
        ),
{
    let mut replacements: Vec<String> = Vec::new();
    let mut i: usize = 0;
    while i < found.captures.len()
        invariant
            i <= found.captures.len(),
            replacements.len() == i,
            forall|k: int|
                0 <= k < i ==> (#[trigger] replacements@[k])@ == language_classes(
                    string_views(found.captures@[k]@),
                ),
        decreases found.captures.len() - i,
    {
        replacements.push(language_replacement(&found.captures[i]));
        i += 1;
    }
    assert(string_views(replacements@) =~= group_views(found.captures@).map_values(
        |groups: Seq<Seq<char>>| language_classes(groups),
    ));
    splice(&found.pieces, &replacements)
}

/// Rewrites a class list: commas become spaces, and a language class becomes
/// the three classes of its language.
pub fn rewrite_classes(classes: &str) -> (out: String)
    ensures
        out@ == classes_rewritten(classes@),
{
    let spaced = spaced_classes(classes);
    match search("language-([^\"]+)", spaced.as_str()) {
        None => spaced,
        Some(found) => rewrite_languages(&found),
    }
}

/// Writes the opening tags of a code block anew, from the groups of a match
/// of the code block pattern.
pub fn rewrite_code_tag(groups: &Vec<String>) -> (out: String)
    ensures
        out@ == code_tag_rewritten(string_views(groups@)),
{
    let classes = rewrite_classes(string_at(groups, 2));
    let mut out = String::new();
    out.push_str("<pre class=\"");
    out.push_str(classes.as_str());
    out.push_str("\"><code");
    out.push_str(string_at(groups, 1));
    out.push_str(string_at(groups, 3));
    out.push_str(">");
    assert(out@ =~= code_tag_rewritten(string_views(groups@)));
    out
}

/// Puts a page together again with the opening tags of each code block that
/// was found written anew.
pub fn rewrite_code_tags(found: &Matches) -> (out: String)
    ensures
        out@ == spliced(
            string_views(found.pieces@),
            group_views(found.captures@).map_values(
                |groups: Seq<Seq<char>>| code_tag_rewritten(groups),
            ),
        ),
{
    let mut replacements: Vec<String> = Vec::new();
    let mut i: usize = 0;
    while i < found.captures.len()
        invariant
            i <= found.captures.len(),
            replacements.len() == i,
            forall|k: int|
                0 <= k < i ==> (#[trigger] replacements@[k])@ == code_tag_rewritten(
                    string_views(found.captures@[k]@),
                ),
        decreases found.captures.len() - i,
    {
        replacements.push(rewrite_code_tag(&found.captures[i]));
        i += 1;
    }
    assert(string_views(replacements@) =~= group_views(found.captures@).map_values(
        |groups: Seq<Seq<char>>| code_tag_rewritten(groups),
    ));
    splice(&found.pieces, &replacements)
}

/// Rewrites the opening tags of every code block whose `code` tag carries a
/// class list. Where nothing is found the page stays as it is.
pub fn fix_code_blocks(html: &str) -> (out: String)
    ensures
        out@ == code_blocks_fixed(html@),
        regex_captures(code_block_pattern(), html@).len() == 0 ==> out@ == html@,
{
    match search("<pre><code([^>]+)class=\"([^\"]+)\"([^>]*)>", html) {
        None => html.to_owned(),
        Some(found) => {
            let out = rewrite_code_tags(&found);
            proof {
                if found.captures@.len() == 0 {
                    assert(group_views(found.captures@).map_values(
                        |groups: Seq<Seq<char>>| code_tag_rewritten(groups),
                    ) =~= whole_matches(group_views(found.captures@)));
                }
            }
            out
        },
    }
}

} // verus!
