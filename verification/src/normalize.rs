//! Anchor ids: the one normalisation used both for the links of the table of
//! contents and for the ids given to headings, so that the links resolve.

use vstd::prelude::*;
use crate::text::chars_of;

verus! {

/// Name for what `char::is_alphanumeric` of std returns.
pub uninterp spec fn unicode_alphanumeric(c: char) -> bool;

/// `char::is_alphanumeric` of std: whether the character has the Unicode
/// property Alphabetic or is numeric. Nothing more is claimed of it than that
/// it is a function of the character.
#[verifier::external_body]
fn is_unicode_alphanumeric(c: char) -> (b: bool)
    ensures
        b == unicode_alphanumeric(c),
{
    c.is_alphanumeric()
}

/// `char::to_ascii_lowercase` of std maps 'A'..='Z' to 'a'..='z' and leaves
/// every other character as it is.
pub assume_specification[ char::to_ascii_lowercase ](c: &char) -> (r: char)
    ensures
        r == ascii_lower(*c),
;

/// An ASCII letter or digit.
pub open spec fn ascii_alphanumeric(c: char) -> bool {
    ('a' <= c && c <= 'z') || ('A' <= c && c <= 'Z') || ('0' <= c && c <= '9')
}

/// The ASCII lower-case form of a character.
pub open spec fn ascii_lower(c: char) -> char {
    if 'A' <= c && c <= 'Z' {
        ((c as u32) + 32) as char
    } else {
        c
    }
}

/// Whether a character is part of a word of an id: a letter or a digit. In
/// ASCII these are exactly `a-z`, `A-Z` and `0-9`; beyond ASCII the Unicode
/// classification decides.
pub open spec fn is_word_char(c: char) -> bool {
    if (c as u32) < 128 {
        ascii_alphanumeric(c)
    } else {
        unicode_alphanumeric(c)
    }
}

/// The normalised id of a text: its words (maximal runs of word characters)
/// in ASCII lower case, joined by single hyphens. Every run of other
/// characters between two words becomes one hyphen; such a run at the start
/// or at the end leaves nothing.
pub open spec fn normalized(s: Seq<char>) -> Seq<char>
    decreases s.len(),
{
    if s.len() == 0 {
        Seq::empty()
    } else {
        let before = normalized(s.drop_last());
        let c = s.last();
        if !is_word_char(c) {
            before
        } else if before.len() > 0 && !is_word_char(s[s.len() - 2]) {
            before.push('-').push(ascii_lower(c))
        } else {
            before.push(ascii_lower(c))
        }
    }
}

/// What every normalised id looks like, but for a hyphen that may still end
/// it: lower-case word characters and hyphens only, no hyphen in front and no
/// two hyphens in a row.
pub open spec fn hyphenated(x: Seq<char>) -> bool {
    &&& forall|i: int|
        0 <= i < x.len() ==> #[trigger] x[i] == '-' || (is_word_char(x[i]) && ascii_lower(x[i])
            == x[i])
    &&& x.len() > 0 ==> x[0] != '-'
    &&& forall|i: int| 0 < i < x.len() ==> !(#[trigger] x[i] == '-' && x[i - 1] == '-')
}

/// Whether `c` is a word character, decided in ASCII by comparison and beyond
/// it by std's Unicode tables.
pub fn word_char(c: char) -> (b: bool)
    ensures
        b == is_word_char(c),
{
    if c <= '\x7f' {
        ('a' <= c && c <= 'z') || ('A' <= c && c <= 'Z') || ('0' <= c && c <= '9')
    } else {
        is_unicode_alphanumeric(c)
    }
}

/// Normalises a text into an anchor id.
pub fn normalize_id(content: &str) -> (id: String)
    ensures
        id@ == normalized(content@),
{
    let chars = chars_of(content);
    let mut id = String::new();
    let mut started = false;
    let mut gap = false;
    let mut i: usize = 0;
    while i < chars.len()
        invariant
            i <= chars.len(),
            chars@ == content@,
            id@ == normalized(content@.take(i as int)),
            started == (id@.len() > 0),
            gap == (i > 0 && !is_word_char(content@[i - 1])),
        decreases chars.len() - i,
    {
        let c = chars[i];
        proof {
            let t = content@.take(i + 1);
            assert(t.drop_last() =~= content@.take(i as int));
            assert(t.last() == c);
            if i > 0 {
                assert(t[t.len() - 2] == content@[i - 1]);
            }
        }
        if word_char(c) {
            if gap && started {
                id.push('-');
            }
            id.push(c.to_ascii_lowercase());
            started = true;
            gap = false;
        } else {
            gap = true;
        }
        i += 1;
    }
    proof {
        assert(content@.take(content@.len() as int) =~= content@);
    }
    id
}

/// A normalised id is hyphenated and does not end in a hyphen.
pub proof fn lemma_normalized_shape(s: Seq<char>)
    ensures
        hyphenated(normalized(s)),
        normalized(s).len() > 0 ==> normalized(s).last() != '-',
    decreases s.len(),
{
    if s.len() > 0 {
        lemma_normalized_shape(s.drop_last());
    }
}

/// Normalising a hyphenated text only takes away the hyphen at its end, if
/// there is one.
pub proof fn lemma_normalized_hyphenated(x: Seq<char>)
    requires
        hyphenated(x),
    ensures
        normalized(x) == (if x.len() > 0 && x.last() == '-' { x.drop_last() } else { x }),
    decreases x.len(),
{
    if x.len() > 0 {
        let y = x.drop_last();
        assert(hyphenated(y)) by {
            assert(forall|i: int| 0 <= i < y.len() ==> y[i] == x[i]);
        }
        lemma_normalized_hyphenated(y);
        let c = x.last();
        if is_word_char(c) {
            if y.len() > 0 && y.last() == '-' {
                assert(y.len() >= 2);
                assert(y.drop_last().push('-') =~= y);
            }
            assert(y.push(c) =~= x);
        } else {
            assert(x[x.len() - 1] == '-');
            assert(y.len() > 0);
            assert(y.last() == x[x.len() - 2]);
        }
    }
}

/// Normalising is idempotent: an id that is already normalised stays as it
/// is.
pub proof fn lemma_normalize_idempotent(s: Seq<char>)
    ensures
        normalized(normalized(s)) == normalized(s),
{
    lemma_normalized_shape(s);
    lemma_normalized_hyphenated(normalized(s));
}

} // verus!
