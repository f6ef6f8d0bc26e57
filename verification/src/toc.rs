//! The table of contents: one pass over the chapter summaries, in book order,
//! that turns their dotted section numbers into a nested list.
//!
//! The list is described as a sequence of pieces (`TocToken`); the HTML is
//! the pieces written one after the other. What is stated of the nesting is
//! stated of the pieces, so that no text inside a label can be mistaken for a
//! tag of the list.

use vstd::prelude::*;
use crate::markdown::{label_html, to_label};
use crate::normalize::{normalize_id, normalized};
use crate::text::{chars_of, decimal, decimal_string, string_at, string_views, text_at};

verus! {

/// What the book keeps of one entry of its outline for the length of a
/// render pass.
#[derive(Clone, Debug)]
pub enum ChapterSummary {
    /// A chapter.
    Chapter {
        /// The dotted section number, such as `2.3.1`; none for an entry
        /// outside the numbering.
        section: Option<String>,
        /// The display name.
        name: String,
        /// The path of the chapter's source, unique within the book.
        path: String,
        /// Whether the chapter has chapters below it.
        has_sub_items: bool,
    },
    /// A marker between two groups of chapters.
    Separator,
}

/// The mathematical value of a `ChapterSummary`.
pub enum SummaryView {
    Chapter { section: Option<Seq<char>>, name: Seq<char>, path: Seq<char>, has_sub_items: bool },
    Separator,
}

impl View for ChapterSummary {
    type V = SummaryView;

    open spec fn view(&self) -> SummaryView {
        match *self {
            ChapterSummary::Chapter { section, name, path, has_sub_items } => SummaryView::Chapter {
                section: match section {
                    Some(s) => Some(s@),
                    None => None,
                },
                name: name@,
                path: path@,
                has_sub_items,
            },
            ChapterSummary::Separator => SummaryView::Separator,
        }
    }
}

/// The values of a list of summaries, in order.
pub open spec fn summary_views(chapters: Seq<ChapterSummary>) -> Seq<SummaryView> {
    chapters.map_values(|c: ChapterSummary| c@)
}

/// One piece of the list.
pub enum TocToken {
    /// The opening tag of the outermost list.
    OpenRoot,
    /// The opening tag of a nested list, with the depth written in its class.
    OpenList(nat),
    /// The closing tag of a list.
    CloseList,
    /// The opening tag of an item.
    OpenItem,
    /// The closing tag of an item.
    CloseItem,
    /// The link to a chapter.
    Link { id: Seq<char>, level: nat, title: Seq<char>, label: Seq<char> },
}

/// How many dots a text holds.
pub open spec fn dots(s: Seq<char>) -> nat
    decreases s.len(),
{
    if s.len() == 0 {
        0
    } else {
        dots(s.drop_last()) + if s.last() == '.' {
            1nat
        } else {
            0nat
        }
    }
}

/// The depth that a section number stands for: one more than its dots, so
/// `2` is at depth 1 and `2.3.1` at depth 3. Without a number the depth is 1.
pub open spec fn section_depth(section: Option<Seq<char>>) -> nat {
    match section {
        Some(s) => 1 + dots(s),
        None => 1,
    }
}

/// The depth of an entry. A separator has no number and is at depth 1.
pub open spec fn entry_depth(entry: SummaryView) -> nat {
    match entry {
        SummaryView::Chapter { section, .. } => section_depth(section),
        SummaryView::Separator => 1,
    }
}

/// The depth at which the list stands after the first `n` entries: that of
/// the last of them, and 1 before the first.
pub open spec fn level_after(entries: Seq<SummaryView>, n: nat) -> nat {
    if n == 0 {
        1
    } else {
        entry_depth(entries[n - 1])
    }
}

/// Whether, after the first `n` entries, an item is waiting to be closed by
/// the next entry of the same depth. A chapter leaves one behind. A separator
/// at the depth of the entry before it closes the one that was waiting and
/// leaves none; a separator that follows a deeper entry changes nothing.
pub open spec fn item_waiting(entries: Seq<SummaryView>, n: nat) -> bool
    decreases n,
{
    if n == 0 {
        false
    } else {
        match entries[n - 1] {
            SummaryView::Chapter { .. } => true,
            SummaryView::Separator => level_after(entries, (n - 1) as nat) != 1 && item_waiting(
                entries,
                (n - 1) as nat,
            ),
        }
    }
}

/// The tags that lead from depth `level` to an entry at depth `depth`: one
/// opening tag per level down, each carrying the entry's depth; one closing
/// tag per level up; on the same level the closing tag of the waiting item, if
/// there is one.
pub open spec fn moves(level: nat, waiting: bool, depth: nat) -> Seq<TocToken> {
    if depth > level {
        Seq::new((depth - level) as nat, |k: int| TocToken::OpenList(depth))
    } else if depth < level {
        Seq::new((level - depth) as nat, |k: int| TocToken::CloseList)
    } else if waiting {
        seq![TocToken::CloseItem]
    } else {
        Seq::empty()
    }
}

/// The link of an entry: none for a separator.
pub open spec fn link_of(entry: SummaryView, label: Seq<char>) -> Seq<TocToken> {
    match entry {
        SummaryView::Chapter { section, name, .. } => seq![
            TocToken::Link {
                id: normalized(name),
                level: section_depth(section),
                title: name,
                label: label,
            },
        ],
        SummaryView::Separator => Seq::empty(),
    }
}

/// The pieces that an entry adds to a list that stands at depth `level`:
/// the tags that lead to its depth, the opening tag of its item, and its
/// link.
pub open spec fn step_tokens(level: nat, waiting: bool, entry: SummaryView, label: Seq<char>) -> Seq<
    TocToken,
> {
    moves(level, waiting, entry_depth(entry)).push(TocToken::OpenItem) + link_of(entry, label)
}

/// The pieces that the entry at `i` adds.
pub open spec fn entry_tokens(entries: Seq<SummaryView>, labels: Seq<Seq<char>>, i: nat) -> Seq<
    TocToken,
> {
    step_tokens(
        level_after(entries, i),
        item_waiting(entries, i),
        entries[i as int],
        text_at(labels, i as int),
    )
}

/// The pieces up to and with the entry at `n - 1`, the opening tag of the
/// outermost list first.
pub open spec fn toc_prefix(entries: Seq<SummaryView>, labels: Seq<Seq<char>>, n: nat) -> Seq<
    TocToken,
>
    decreases n,
{
    if n == 0 {
        seq![TocToken::OpenRoot]
    } else {
        toc_prefix(entries, labels, (n - 1) as nat) + entry_tokens(entries, labels, (n - 1) as nat)
    }
}

/// One closing list tag and one closing item tag for each of `levels`
/// nested lists.
pub open spec fn closing_pairs(levels: nat) -> Seq<TocToken> {
    Seq::new(
        2 * levels,
        |k: int|
            if k % 2 == 0 {
                TocToken::CloseList
            } else {
                TocToken::CloseItem
            },
    )
}

/// The pieces that end the list when it stands at depth `level`: the closing
/// tag of the waiting item, if any, at whatever depth; then, for each level
/// below the first, a closing list tag and a closing item tag.
pub open spec fn closing(level: nat, waiting: bool) -> Seq<TocToken> {
    (if waiting {
        seq![TocToken::CloseItem]
    } else {
        Seq::empty()
    }) + closing_pairs(
        if level > 1 {
            (level - 1) as nat
        } else {
            0
        },
    )
}

/// All the pieces of the table of contents of `entries`.
pub open spec fn toc_tokens(entries: Seq<SummaryView>, labels: Seq<Seq<char>>) -> Seq<TocToken> {
    (toc_prefix(entries, labels, entries.len()) + closing(
        level_after(entries, entries.len()),
        item_waiting(entries, entries.len()),
    )).push(TocToken::CloseList)
}

/// The HTML of one piece.
pub open spec fn token_html(token: TocToken) -> Seq<char> {
    match token {
        TocToken::OpenRoot => "<ul id=\"toc\" class=\"toc-list-h1\">"@,
        TocToken::OpenList(depth) => "<ul class=\"toc-list-h"@ + decimal(depth) + "\">"@,
        TocToken::CloseList => "</ul>"@,
        TocToken::OpenItem => "<li>"@,
        TocToken::CloseItem => "</li>"@,
        TocToken::Link { id, level, title, label } => "<a href=\"#"@ + id + "\" class=\"toc-h"@
            + decimal(level) + " toc-link\" data-title=\""@ + title + "\">"@ + label + "</a>"@,
    }
}

/// The HTML of a sequence of pieces: one after the other.
pub open spec fn tokens_html(tokens: Seq<TocToken>) -> Seq<char>
    decreases tokens.len(),
{
    if tokens.len() == 0 {
        Seq::empty()
    } else {
        tokens_html(tokens.drop_last()) + token_html(tokens.last())
    }
}

/// The labels of the entries as `to_label` renders them: for a chapter the
/// inline pieces of its name, for a separator nothing.
pub open spec fn entry_labels(entries: Seq<SummaryView>, keep_html: bool) -> Seq<Seq<char>> {
    Seq::new(
        entries.len(),
        |i: int|
            match entries[i] {
                SummaryView::Chapter { name, .. } => label_html(name, keep_html),
                SummaryView::Separator => Seq::empty(),
            },
    )
}

/// What a list piece adds to the number of lists that are open.
pub open spec fn list_weight(token: TocToken) -> int {
    match token {
        TocToken::OpenRoot => 1,
        TocToken::OpenList(_) => 1,
        TocToken::CloseList => -1,
        _ => 0,
    }
}

/// How many lists are open after the pieces: those opened less those closed.
pub open spec fn nesting(tokens: Seq<TocToken>) -> int
    decreases tokens.len(),
{
    if tokens.len() == 0 {
        0
    } else {
        nesting(tokens.drop_last()) + list_weight(tokens.last())
    }
}

/// How many of the pieces open an item.
pub open spec fn items_opened(tokens: Seq<TocToken>) -> nat
    decreases tokens.len(),
{
    if tokens.len() == 0 {
        0
    } else {
        items_opened(tokens.drop_last()) + if tokens.last() is OpenItem {
            1nat
        } else {
            0nat
        }
    }
}

/// How many of the pieces are links.
pub open spec fn links(tokens: Seq<TocToken>) -> nat
    decreases tokens.len(),
{
    if tokens.len() == 0 {
        0
    } else {
        links(tokens.drop_last()) + if tokens.last() is Link {
            1nat
        } else {
            0nat
        }
    }
}

/// How many of the first `n` entries are chapters.
pub open spec fn chapters_among(entries: Seq<SummaryView>, n: nat) -> nat
    decreases n,
{
    if n == 0 {
        0
    } else {
        chapters_among(entries, (n - 1) as nat) + if entries[n - 1] is Chapter {
            1nat
        } else {
            0nat
        }
    }
}

/// The depth of a section number.
pub fn depth_of_section(section: &Option<String>) -> (depth: usize)
    ensures
        depth == section_depth(
            match *section {
                Some(s) => Some(s@),
                None => None,
            },
        ),
{
    match section {
        None => 1,
        Some(number) => {
            // Closed with a dot, a number has as many dots as it has levels.
            let mut closed = chars_of(number.as_str());
            closed.push('.');
            let mut depth: usize = 0;
            let mut i: usize = 0;
            while i < closed.len()
                invariant
                    i <= closed.len(),
                    depth <= i,
                    depth == dots(closed@.take(i as int)),
                decreases closed.len() - i,
            {
                proof {
                    assert(closed@.take(i + 1).drop_last() =~= closed@.take(i as int));
                }
                if closed[i] == '.' {
                    depth += 1;
                }
                i += 1;
            }
            proof {
                assert(closed@.take(closed@.len() as int) =~= closed@);
                assert(closed@.drop_last() =~= number@);
            }
            depth
        },
    }
}

/// The depth of an entry.
pub fn depth_of(entry: &ChapterSummary) -> (depth: usize)
    ensures
        depth == entry_depth(entry@),
{
    match entry {
        ChapterSummary::Chapter { section, .. } => depth_of_section(section),
        ChapterSummary::Separator => 1,
    }
}

proof fn lemma_html_push(tokens: Seq<TocToken>, token: TocToken)
    ensures
        tokens_html(tokens.push(token)) == tokens_html(tokens) + token_html(token),
{
    assert(tokens.push(token).drop_last() =~= tokens);
}

proof fn lemma_html_single(token: TocToken)
    ensures
        tokens_html(seq![token]) == token_html(token),
{
    lemma_html_push(Seq::empty(), token);
    assert(Seq::<TocToken>::empty().push(token) =~= seq![token]);
    assert(tokens_html(Seq::<TocToken>::empty()) + token_html(token) =~= token_html(token));
}

/// The HTML of two runs of pieces, one after the other, is the HTML of the
/// first followed by that of the second.
pub proof fn lemma_html_concat(a: Seq<TocToken>, b: Seq<TocToken>)
    ensures
        tokens_html(a + b) == tokens_html(a) + tokens_html(b),
    decreases b.len(),
{
    if b.len() == 0 {
        assert(a + b =~= a);
        assert(tokens_html(a) + tokens_html(b) =~= tokens_html(a));
    } else {
        lemma_html_concat(a, b.drop_last());
        assert((a + b).drop_last() =~= a + b.drop_last());
        assert((a + b).last() == b.last());
        assert((tokens_html(a) + tokens_html(b.drop_last())) + token_html(b.last()) =~= tokens_html(
            a,
        ) + (tokens_html(b.drop_last()) + token_html(b.last())));
    }
}

/// Writes the tags that lead from depth `level` to an entry at depth `depth`.
fn write_moves(html: &mut String, level: usize, waiting: bool, depth: usize)
    ensures
        final(html)@ == old(html)@ + tokens_html(moves(level as nat, waiting, depth as nat)),
{
    let ghost start = html@;
    let ghost mut tokens: Seq<TocToken> = Seq::empty();
    assert(html@ =~= start + tokens_html(tokens));
    if depth > level {
        let digits = decimal_string(depth);
        let mut at: usize = level;
        while at < depth
            invariant
                level <= at <= depth,
                digits@ == decimal(depth as nat),
                html@ == start + tokens_html(tokens),
                tokens == Seq::new((at - level) as nat, |k: int| TocToken::OpenList(depth as nat)),
            decreases depth - at,
        {
            html.push_str("<ul class=\"toc-list-h");
            html.push_str(digits.as_str());
            html.push_str("\">");
            proof {
                let token = TocToken::OpenList(depth as nat);
                lemma_html_push(tokens, token);
                assert(tokens.push(token) =~= Seq::new(
                    (at + 1 - level) as nat,
                    |k: int| TocToken::OpenList(depth as nat),
                ));
                assert(html@ =~= start + tokens_html(tokens.push(token)));
                tokens = tokens.push(token);
            }
            at += 1;
        }
    } else if depth < level {
        let mut at: usize = level;
        while at > depth
            invariant
                depth <= at <= level,
                html@ == start + tokens_html(tokens),
                tokens == Seq::new((level - at) as nat, |k: int| TocToken::CloseList),
            decreases at - depth,
        {
            html.push_str("</ul>");
            proof {
                lemma_html_push(tokens, TocToken::CloseList);
                assert(tokens.push(TocToken::CloseList) =~= Seq::new(
                    (level - at + 1) as nat,
                    |k: int| TocToken::CloseList,
                ));
                assert(html@ =~= start + tokens_html(tokens.push(TocToken::CloseList)));
                tokens = tokens.push(TocToken::CloseList);
            }
            at -= 1;
        }
    } else if waiting {
        html.push_str("</li>");
        proof {
            lemma_html_single(TocToken::CloseItem);
        }
    } else {
        assert(tokens =~= moves(level as nat, waiting, depth as nat));
    }
}

/// Writes the link of an entry, with the given label.
fn write_link(html: &mut String, entry: &ChapterSummary, label: &str)
    ensures
        final(html)@ == old(html)@ + tokens_html(link_of(entry@, label@)),
{
    let ghost start = html@;
    match entry {
        ChapterSummary::Chapter { section, name, .. } => {
            let id = normalize_id(name.as_str());
            let digits = decimal_string(depth_of_section(section));
            html.push_str("<a href=\"#");
            html.push_str(id.as_str());
            html.push_str("\" class=\"toc-h");
            html.push_str(digits.as_str());
            html.push_str(" toc-link\" data-title=\"");
            html.push_str(name.as_str());
            html.push_str("\">");
            html.push_str(label);
            html.push_str("</a>");
            proof {
                let link = TocToken::Link {
                    id: normalized(name@),
                    level: entry_depth(entry@),
                    title: name@,
                    label: label@,
                };
                lemma_html_single(link);
                assert(link_of(entry@, label@) =~= seq![link]);
                assert(html@ =~= start + token_html(link));
            }
        },
        ChapterSummary::Separator => {
            assert(html@ =~= start + tokens_html(Seq::<TocToken>::empty()));
        },
    }
}

/// Writes the tags that bring the list back from depth `level` to depth 1.
fn write_closing(html: &mut String, level: usize, waiting: bool)
    ensures
        final(html)@ == old(html)@ + tokens_html(closing(level as nat, waiting)),
{
    let ghost start = html@;
    let ghost first: Seq<TocToken> = if waiting {
        seq![TocToken::CloseItem]
    } else {
        Seq::empty()
    };
    if waiting {
        html.push_str("</li>");
        proof {
            lemma_html_single(TocToken::CloseItem);
        }
    }
    assert(html@ =~= start + tokens_html(first));
    let ghost mut tokens: Seq<TocToken> = Seq::empty();
    let ghost middle = html@;
    assert(html@ =~= middle + tokens_html(tokens));
    assert(tokens =~= closing_pairs(0));
    let mut at: usize = level;
    while at > 1
        invariant
            at <= level,
            level >= 1 ==> at >= 1,
            html@ == middle + tokens_html(tokens),
            tokens == closing_pairs((level - at) as nat),
        decreases at,
    {
        html.push_str("</ul>");
        html.push_str("</li>");
        proof {
            let next = tokens.push(TocToken::CloseList).push(TocToken::CloseItem);
            lemma_html_push(tokens, TocToken::CloseList);
            lemma_html_push(tokens.push(TocToken::CloseList), TocToken::CloseItem);
            assert(next =~= closing_pairs((level - at + 1) as nat));
            assert(html@ =~= middle + tokens_html(next));
            tokens = next;
        }
        at -= 1;
    }
    proof {
        lemma_html_concat(first, tokens);
        assert(html@ =~= start + (tokens_html(first) + tokens_html(tokens)));
    }
}

/// Writes the pieces that an entry adds to a list that stands at depth
/// `level`.
fn write_entry(html: &mut String, level: usize, waiting: bool, entry: &ChapterSummary, label: &str)
    ensures
        final(html)@ == old(html)@ + tokens_html(
            step_tokens(level as nat, waiting, entry@, label@),
        ),
{
    let ghost start = html@;
    let ghost shift = moves(level as nat, waiting, entry_depth(entry@));
    let ghost link = link_of(entry@, label@);
    let depth = depth_of(entry);
    write_moves(html, level, waiting, depth);
    html.push_str("<li>");
    write_link(html, entry, label);
    proof {
        lemma_html_push(shift, TocToken::OpenItem);
        lemma_html_concat(shift.push(TocToken::OpenItem), link);
        assert(html@ =~= start + ((tokens_html(shift) + token_html(TocToken::OpenItem))
            + tokens_html(link)));
    }
}

/// Builds the table of contents from the summaries and from the label of
/// each, as the Markdown converter rendered it. A summary beyond the end of
/// `labels` gets an empty label.
pub fn toc_from_labels(chapters: &Vec<ChapterSummary>, labels: &Vec<String>) -> (html: String)
    ensures
        html@ == tokens_html(toc_tokens(summary_views(chapters@), string_views(labels@))),
{
    let ghost entries = summary_views(chapters@);
    let ghost given = string_views(labels@);
    let mut html = String::new();
    html.push_str("<ul id=\"toc\" class=\"toc-list-h1\">");
    proof {
        lemma_html_single(TocToken::OpenRoot);
        assert(html@ =~= tokens_html(seq![TocToken::OpenRoot]));
    }
    let mut level: usize = 1;
    let mut waiting = false;
    let mut i: usize = 0;
    while i < chapters.len()
        invariant
            i <= chapters.len(),
            entries == summary_views(chapters@),
            given == string_views(labels@),
            html@ == tokens_html(toc_prefix(entries, given, i as nat)),
            level == level_after(entries, i as nat),
            waiting == item_waiting(entries, i as nat),
        decreases chapters.len() - i,
    {
        let entry = &chapters[i];
        let label = string_at(labels, i);
        let ghost before = html@;
        assert(entries[i as int] == entry@);
        assert(label@ == text_at(given, i as int));
        write_entry(&mut html, level, waiting, entry, label);
        assert(html@ == tokens_html(toc_prefix(entries, given, (i + 1) as nat))) by {
            lemma_html_concat(
                toc_prefix(entries, given, i as nat),
                entry_tokens(entries, given, i as nat),
            );
        }
        let depth = depth_of(entry);
        if depth == level {
            waiting = false;
        }
        match entry {
            ChapterSummary::Chapter { .. } => {
                waiting = true;
            },
            ChapterSummary::Separator => {},
        }
        level = depth;
        i += 1;
    }
    write_closing(&mut html, level, waiting);
    html.push_str("</ul>");
    proof {
        let body = toc_prefix(entries, given, entries.len());
        let tail = closing(level as nat, waiting);
        lemma_html_concat(body, tail);
        lemma_html_push(body + tail, TocToken::CloseList);
        assert(html@ =~= (tokens_html(body) + tokens_html(tail)) + token_html(TocToken::CloseList));
    }
    html
}

/// The label of each summary: for a chapter the inline pieces of its name,
/// for a separator nothing.
pub fn labels_of(chapters: &Vec<ChapterSummary>, keep_html: bool) -> (labels: Vec<String>)
    ensures
        string_views(labels@) == entry_labels(summary_views(chapters@), keep_html),
{
    let mut labels: Vec<String> = Vec::new();
    let mut i: usize = 0;
    while i < chapters.len()
        invariant
            i <= chapters.len(),
            labels.len() == i,
            forall|k: int|
                0 <= k < i ==> (#[trigger] labels@[k])@ == entry_labels(
                    summary_views(chapters@),
                    keep_html,
                )[k],
        decreases chapters.len() - i,
    {
        let label = match &chapters[i] {
            ChapterSummary::Chapter { name, .. } => to_label(name.as_str(), keep_html),
            ChapterSummary::Separator => String::new(),
        };
        labels.push(label);
        i += 1;
    }
    proof {
        assert(string_views(labels@) =~= entry_labels(summary_views(chapters@), keep_html));
    }
    labels
}

/// Builds the table of contents of a book from its chapter summaries, in
/// book order. `keep_html` says whether raw HTML in a chapter's name is
/// passed through into its label.
pub fn build_toc(chapters: &Vec<ChapterSummary>, keep_html: bool) -> (html: String)
    ensures
        html@ == tokens_html(
            toc_tokens(
                summary_views(chapters@),
                entry_labels(summary_views(chapters@), keep_html),
            ),
        ),
{
    let labels = labels_of(chapters, keep_html);
    toc_from_labels(chapters, &labels)
}

/// The counts of two runs of pieces add up.
pub proof fn lemma_counts_concat(a: Seq<TocToken>, b: Seq<TocToken>)
    ensures
        nesting(a + b) == nesting(a) + nesting(b),
        items_opened(a + b) == items_opened(a) + items_opened(b),
        links(a + b) == links(a) + links(b),
    decreases b.len(),
{
    if b.len() == 0 {
        assert(a + b =~= a);
    } else {
        lemma_counts_concat(a, b.drop_last());
        assert((a + b).drop_last() =~= a + b.drop_last());
        assert((a + b).last() == b.last());
    }
}

proof fn lemma_counts_single(token: TocToken)
    ensures
        nesting(seq![token]) == list_weight(token),
        items_opened(seq![token]) == (if token is OpenItem { 1nat } else { 0nat }),
        links(seq![token]) == (if token is Link { 1nat } else { 0nat }),
{
    let none = Seq::<TocToken>::empty();
    assert(seq![token].drop_last() =~= none);
    assert(seq![token].last() == token);
    assert(nesting(none) == 0 && items_opened(none) == 0 && links(none) == 0);
}

proof fn lemma_counts_opening(run: Seq<TocToken>)
    requires
        forall|k: int| 0 <= k < run.len() ==> #[trigger] run[k] is OpenList,
    ensures
        nesting(run) == run.len(),
        items_opened(run) == 0,
        links(run) == 0,
    decreases run.len(),
{
    if run.len() > 0 {
        lemma_counts_opening(run.drop_last());
        assert(run.last() == run[run.len() - 1]);
    }
}

proof fn lemma_counts_closing_lists(run: Seq<TocToken>)
    requires
        forall|k: int| 0 <= k < run.len() ==> #[trigger] run[k] is CloseList,
    ensures
        nesting(run) == -run.len(),
        items_opened(run) == 0,
        links(run) == 0,
    decreases run.len(),
{
    if run.len() > 0 {
        lemma_counts_closing_lists(run.drop_last());
        assert(run.last() == run[run.len() - 1]);
    }
}

proof fn lemma_counts_pairs(run: Seq<TocToken>, pairs: nat)
    requires
        run.len() == 2 * pairs,
        forall|k: int|
            0 <= k < run.len() ==> #[trigger] run[k] == (if k % 2 == 0 {
                TocToken::CloseList
            } else {
                TocToken::CloseItem
            }),
    ensures
        nesting(run) == -pairs,
        items_opened(run) == 0,
        links(run) == 0,
    decreases pairs,
{
    if pairs > 0 {
        let shorter = run.drop_last();
        let rest = shorter.drop_last();
        assert(run.last() == run[run.len() - 1]);
        assert(shorter.last() == run[run.len() - 2]);
        assert forall|k: int| 0 <= k < rest.len() implies #[trigger] rest[k] == (if k % 2 == 0 {
            TocToken::CloseList
        } else {
            TocToken::CloseItem
        }) by {
            assert(rest[k] == run[k]);
        }
        lemma_counts_pairs(rest, (pairs - 1) as nat);
        assert(nesting(shorter) == nesting(rest) + list_weight(shorter.last()));
        assert(items_opened(shorter) == items_opened(rest));
        assert(links(shorter) == links(rest));
    }
}

proof fn lemma_counts_moves(level: nat, waiting: bool, depth: nat)
    ensures
        nesting(moves(level, waiting, depth)) == depth - level,
        items_opened(moves(level, waiting, depth)) == 0,
        links(moves(level, waiting, depth)) == 0,
{
    let run = moves(level, waiting, depth);
    if depth > level {
        lemma_counts_opening(run);
    } else if depth < level {
        lemma_counts_closing_lists(run);
    } else if waiting {
        lemma_counts_single(TocToken::CloseItem);
    }
}

proof fn lemma_counts_closing(level: nat, waiting: bool)
    requires
        level >= 1,
    ensures
        nesting(closing(level, waiting)) == 1 - level,
        items_opened(closing(level, waiting)) == 0,
        links(closing(level, waiting)) == 0,
{
    let first: Seq<TocToken> = if waiting {
        seq![TocToken::CloseItem]
    } else {
        Seq::empty()
    };
    let pairs = closing_pairs((level - 1) as nat);
    lemma_counts_single(TocToken::CloseItem);
    lemma_counts_pairs(pairs, (level - 1) as nat);
    lemma_counts_concat(first, pairs);
}

proof fn lemma_counts_entry(entries: Seq<SummaryView>, labels: Seq<Seq<char>>, i: nat)
    requires
        i < entries.len(),
    ensures
        nesting(entry_tokens(entries, labels, i)) == entry_depth(entries[i as int]) - level_after(
            entries,
            i,
        ),
        items_opened(entry_tokens(entries, labels, i)) == 1,
        links(entry_tokens(entries, labels, i)) == (if entries[i as int] is Chapter {
            1nat
        } else {
            0nat
        }),
{
    let shift = moves(
        level_after(entries, i),
        item_waiting(entries, i),
        entry_depth(entries[i as int]),
    );
    let link = link_of(entries[i as int], text_at(labels, i as int));
    lemma_counts_moves(
        level_after(entries, i),
        item_waiting(entries, i),
        entry_depth(entries[i as int]),
    );
    lemma_counts_single(TocToken::OpenItem);
    assert(shift.push(TocToken::OpenItem) =~= shift + seq![TocToken::OpenItem]);
    lemma_counts_concat(shift, seq![TocToken::OpenItem]);
    lemma_counts_concat(shift.push(TocToken::OpenItem), link);
    if entries[i as int] is Chapter {
        lemma_counts_single(link[0]);
        assert(link =~= seq![link[0]]);
    }
}

/// After each entry the list is nested as deep as the entry's section number
/// says: once for the outermost list and once more for each dot of the
/// number. The pieces up to there hold one item per entry and one link per
/// chapter.
pub proof fn lemma_prefix_counts(entries: Seq<SummaryView>, labels: Seq<Seq<char>>, n: nat)
    requires
        n <= entries.len(),
    ensures
        nesting(toc_prefix(entries, labels, n)) == level_after(entries, n),
        n > 0 ==> nesting(toc_prefix(entries, labels, n)) == entry_depth(entries[n - 1]),
        items_opened(toc_prefix(entries, labels, n)) == n,
        links(toc_prefix(entries, labels, n)) == chapters_among(entries, n),
    decreases n,
{
    if n == 0 {
        lemma_counts_single(TocToken::OpenRoot);
    } else {
        let m = (n - 1) as nat;
        lemma_prefix_counts(entries, labels, m);
        lemma_counts_entry(entries, labels, m);
        lemma_counts_concat(toc_prefix(entries, labels, m), entry_tokens(entries, labels, m));
    }
}

/// After a chapter with a section number the list is nested one deeper than
/// the number has dots.
pub proof fn lemma_nesting_follows_section(
    entries: Seq<SummaryView>,
    labels: Seq<Seq<char>>,
    n: nat,
    number: Seq<char>,
)
    requires
        0 < n <= entries.len(),
        entries[n - 1] is Chapter,
        entries[n - 1]->section == Some(number),
    ensures
        nesting(toc_prefix(entries, labels, n)) == 1 + dots(number),
{
    lemma_prefix_counts(entries, labels, n);
}

/// In a whole table of contents every list that was opened is closed: as
/// many closing list tags as opening ones. It holds one item per entry,
/// separators too, and one link per chapter.
pub proof fn lemma_toc_counts(entries: Seq<SummaryView>, labels: Seq<Seq<char>>)
    ensures
        nesting(toc_tokens(entries, labels)) == 0,
        items_opened(toc_tokens(entries, labels)) == entries.len(),
        links(toc_tokens(entries, labels)) == chapters_among(entries, entries.len()),
{
    let body = toc_prefix(entries, labels, entries.len());
    let tail = closing(
        level_after(entries, entries.len()),
        item_waiting(entries, entries.len()),
    );
    lemma_prefix_counts(entries, labels, entries.len());
    lemma_counts_closing(
        level_after(entries, entries.len()),
        item_waiting(entries, entries.len()),
    );
    lemma_counts_concat(body, tail);
    lemma_counts_single(TocToken::CloseList);
    assert((body + tail).push(TocToken::CloseList) =~= (body + tail) + seq![TocToken::CloseList]);
    lemma_counts_concat(body + tail, seq![TocToken::CloseList]);
}

/// Where a book has no separators, its table of contents holds as many items
/// as it has chapters.
pub proof fn lemma_items_without_separators(entries: Seq<SummaryView>, labels: Seq<Seq<char>>)
    requires
        forall|i: int| 0 <= i < entries.len() ==> #[trigger] entries[i] is Chapter,
    ensures
        chapters_among(entries, entries.len()) == entries.len(),
        items_opened(toc_tokens(entries, labels)) == chapters_among(entries, entries.len()),
{
    lemma_toc_counts(entries, labels);
    lemma_all_chapters(entries, entries.len());
}

proof fn lemma_all_chapters(entries: Seq<SummaryView>, n: nat)
    requires
        n <= entries.len(),
        forall|i: int| 0 <= i < entries.len() ==> #[trigger] entries[i] is Chapter,
    ensures
        chapters_among(entries, n) == n,
    decreases n,
{
    if n > 0 {
        lemma_all_chapters(entries, (n - 1) as nat);
    }
}

/// Pieces whose lists are well nested: as many closed as opened, and at no
/// place before the end fewer than one open. So no closing tag closes a list
/// that is not open, and the outermost list is open until the last piece.
pub open spec fn well_nested(tokens: Seq<TocToken>) -> bool {
    &&& nesting(tokens) == 0
    &&& forall|k: int| 0 < k < tokens.len() ==> nesting(#[trigger] tokens.take(k)) >= 1
}

proof fn lemma_nesting_of_sign(run: Seq<TocToken>)
    ensures
        (forall|i: int| 0 <= i < run.len() ==> list_weight(#[trigger] run[i]) >= 0) ==> nesting(run)
            >= 0,
        (forall|i: int| 0 <= i < run.len() ==> list_weight(#[trigger] run[i]) <= 0) ==> nesting(run)
            <= 0,
    decreases run.len(),
{
    if run.len() > 0 {
        lemma_nesting_of_sign(run.drop_last());
        assert(run.last() == run[run.len() - 1]);
        assert forall|i: int| 0 <= i < run.drop_last().len() implies run.drop_last()[i]
            == run[i] by {}
    }
}

/// In a run of pieces that only open lists, or only close them, no part from
/// the start is nested lower than both the start and the end.
proof fn lemma_nesting_of_part(run: Seq<TocToken>, j: int)
    requires
        0 <= j <= run.len(),
        (forall|i: int| 0 <= i < run.len() ==> list_weight(#[trigger] run[i]) >= 0) || (forall|
            i: int,
        | 0 <= i < run.len() ==> list_weight(#[trigger] run[i]) <= 0),
    ensures
        nesting(run.take(j)) >= 0 || nesting(run.take(j)) >= nesting(run),
{
    let head = run.take(j);
    let tail = run.skip(j);
    assert(run =~= head + tail);
    lemma_counts_concat(head, tail);
    lemma_nesting_of_sign(head);
    lemma_nesting_of_sign(tail);
    assert forall|i: int| 0 <= i < head.len() implies head[i] == run[i] by {}
    assert forall|i: int| 0 <= i < tail.len() implies tail[i] == run[i + j] by {}
}

proof fn lemma_entry_sign(entries: Seq<SummaryView>, labels: Seq<Seq<char>>, i: nat)
    requires
        i < entries.len(),
    ensures
        (forall|k: int|
            0 <= k < entry_tokens(entries, labels, i).len() ==> list_weight(
                #[trigger] entry_tokens(entries, labels, i)[k],
            ) >= 0) || (forall|k: int|
            0 <= k < entry_tokens(entries, labels, i).len() ==> list_weight(
                #[trigger] entry_tokens(entries, labels, i)[k],
            ) <= 0),
{
    let level = level_after(entries, i);
    let depth = entry_depth(entries[i as int]);
    let shift = moves(level, item_waiting(entries, i), depth);
    let run = entry_tokens(entries, labels, i);
    let link = link_of(entries[i as int], text_at(labels, i as int));
    assert forall|k: int| 0 <= k < run.len() implies (if k < shift.len() {
        run[k] == shift[k]
    } else {
        list_weight(#[trigger] run[k]) == 0
    }) by {
        if k >= shift.len() && k > shift.len() {
            assert(run[k] == link[k - shift.len() - 1]);
        }
    }
    if depth > level {
        assert forall|k: int| 0 <= k < run.len() implies list_weight(#[trigger] run[k]) >= 0 by {
            if k < shift.len() {
                assert(run[k] == shift[k]);
            }
        }
    } else {
        assert forall|k: int| 0 <= k < run.len() implies list_weight(#[trigger] run[k]) <= 0 by {
            if k < shift.len() {
                assert(run[k] == shift[k]);
            }
        }
    }
}

proof fn lemma_prefix_stays_open(entries: Seq<SummaryView>, labels: Seq<Seq<char>>, n: nat, k: int)
    requires
        n <= entries.len(),
        0 < k <= toc_prefix(entries, labels, n).len(),
    ensures
        nesting(toc_prefix(entries, labels, n).take(k)) >= 1,
    decreases n,
{
    let all = toc_prefix(entries, labels, n);
    if n == 0 {
        assert(all.take(k) =~= all);
        lemma_counts_single(TocToken::OpenRoot);
    } else {
        let m = (n - 1) as nat;
        let before = toc_prefix(entries, labels, m);
        let added = entry_tokens(entries, labels, m);
        if k <= before.len() {
            assert(all.take(k) =~= before.take(k));
            lemma_prefix_stays_open(entries, labels, m, k);
        } else {
            let j = k - before.len();
            assert(all.take(k) =~= before + added.take(j));
            lemma_counts_concat(before, added.take(j));
            lemma_prefix_counts(entries, labels, m);
            lemma_counts_entry(entries, labels, m);
            lemma_entry_sign(entries, labels, m);
            lemma_nesting_of_part(added, j);
        }
    }
}

/// The lists of a table of contents are well nested, whatever the section
/// numbers of the book: every list that is opened is closed once, none is
/// closed that is not open, and the outermost list is closed last.
pub proof fn lemma_toc_well_nested(entries: Seq<SummaryView>, labels: Seq<Seq<char>>)
    ensures
        well_nested(toc_tokens(entries, labels)),
{
    let n = entries.len();
    let body = toc_prefix(entries, labels, n);
    let level = level_after(entries, n);
    let tail = closing(level, item_waiting(entries, n));
    let all = toc_tokens(entries, labels);
    lemma_toc_counts(entries, labels);
    lemma_prefix_counts(entries, labels, n);
    lemma_counts_closing(level, item_waiting(entries, n));
    assert forall|k: int| 0 < k < all.len() implies nesting(#[trigger] all.take(k)) >= 1 by {
        if k <= body.len() {
            assert(all.take(k) =~= body.take(k));
            lemma_prefix_stays_open(entries, labels, n, k);
        } else {
            let j = k - body.len();
            assert(all.take(k) =~= body + tail.take(j));
            lemma_counts_concat(body, tail.take(j));
            assert forall|i: int| 0 <= i < tail.len() implies list_weight(#[trigger] tail[i])
                <= 0 by {}
            lemma_nesting_of_part(tail, j);
        }
    }
}

/// The table-of-contents directive of the page template.
#[derive(Clone, Copy, Debug)]
pub struct RenderToc {
    /// Whether raw HTML in a chapter's name is passed through into its label.
    pub keep_html: bool,
}

impl RenderToc {
    /// Resolves the directive for the chapters of the page's data.
    pub fn call(&self, chapters: &Vec<ChapterSummary>) -> (html: String)
        ensures
            html@ == tokens_html(
                toc_tokens(
                    summary_views(chapters@),
                    entry_labels(summary_views(chapters@), self.keep_html),
                ),
            ),
    {
        build_toc(chapters, self.keep_html)
    }
}

} // verus!
