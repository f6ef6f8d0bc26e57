//! The outline of a book as its host hands it over: a tree of chapters, each
//! with the chapters below it. A render pass walks the tree once, every
//! chapter before the chapters below it, and works on the list that the walk
//! gives.

use vstd::prelude::*;
use crate::engine::{BookItem, Chapter};
use crate::text::{decimal, decimal_string, digit_char};
use crate::toc::{dots, section_depth};

verus! {

/// A chapter of the outline, with the chapters below it.
#[derive(Debug)]
pub struct OutlineChapter {
    /// The display name.
    pub name: String,
    /// The Markdown text.
    pub content: String,
    /// The dotted section number, such as `2.3.1`.
    pub number: Option<String>,
    /// The path of the chapter's source, unique within the book.
    pub path: String,
    /// The entries below the chapter, in order.
    pub sub_items: Vec<OutlineItem>,
}

/// An entry of the outline.
#[derive(Debug)]
pub enum OutlineItem {
    /// A chapter.
    Chapter(OutlineChapter),
    /// A marker between two groups of chapters.
    Separator,
}

/// A section number written out: its parts in decimal, with a dot between
/// one part and the next, as in `2.3.1`.
pub open spec fn dotted(parts: Seq<u32>) -> Seq<char>
    decreases parts.len(),
{
    if parts.len() == 0 {
        Seq::empty()
    } else if parts.len() == 1 {
        decimal(parts[0] as nat)
    } else {
        dotted(parts.drop_last()).push('.') + decimal(parts.last() as nat)
    }
}

/// Writes a section number out.
pub fn section_number(parts: &Vec<u32>) -> (number: String)
    ensures
        number@ == dotted(parts@),
{
    let mut number = String::new();
    let mut i: usize = 0;
    while i < parts.len()
        invariant
            i <= parts.len(),
            number@ == dotted(parts@.take(i as int)),
        decreases parts.len() - i,
    {
        proof {
            let next = parts@.take(i + 1);
            assert(next.drop_last() =~= parts@.take(i as int));
            assert(next.last() == parts@[i as int]);
            if i == 0 {
                assert(Seq::<char>::empty() + decimal(parts@[0] as nat) =~= decimal(
                    parts@[0] as nat,
                ));
            }
        }
        if i > 0 {
            number.push('.');
        }
        let digits = decimal_string(parts[i] as usize);
        number.push_str(digits.as_str());
        i += 1;
    }
    proof {
        assert(parts@.take(parts@.len() as int) =~= parts@);
    }
    number
}

proof fn lemma_dots_concat(a: Seq<char>, b: Seq<char>)
    ensures
        dots(a + b) == dots(a) + dots(b),
    decreases b.len(),
{
    if b.len() == 0 {
        assert(a + b =~= a);
    } else {
        lemma_dots_concat(a, b.drop_last());
        assert((a + b).drop_last() =~= a + b.drop_last());
        assert((a + b).last() == b.last());
    }
}

proof fn lemma_decimal_has_no_dots(n: nat)
    ensures
        dots(decimal(n)) == 0,
    decreases n,
{
    if n < 10 {
        assert(decimal(n).drop_last() =~= Seq::<char>::empty());
        assert(decimal(n).last() == digit_char(n));
        assert(dots(Seq::<char>::empty()) == 0);
    } else {
        lemma_decimal_has_no_dots(n / 10);
        assert(decimal(n).drop_last() =~= decimal(n / 10));
        assert(decimal(n).last() == digit_char(n % 10));
    }
}

/// A section number that is written out has one dot less than it has parts:
/// a chapter stands as deep in the table of contents as its number is long.
pub proof fn lemma_depth_of_dotted(parts: Seq<u32>)
    requires
        parts.len() > 0,
    ensures
        dots(dotted(parts)) == parts.len() - 1,
        section_depth(Some(dotted(parts))) == parts.len(),
    decreases parts.len(),
{
    lemma_decimal_has_no_dots(parts.last() as nat);
    if parts.len() > 1 {
        let front = dotted(parts.drop_last());
        lemma_depth_of_dotted(parts.drop_last());
        lemma_dots_concat(front.push('.'), decimal(parts.last() as nat));
        assert(front.push('.').drop_last() =~= front);
    } else {
        assert(parts.last() == parts[0]);
    }
}

/// A chapter of the outline as the walk lists it: what the chapter holds,
/// and whether it has entries below it.
pub open spec fn listed(chapter: OutlineChapter) -> BookItem {
    BookItem::Chapter(
        Chapter {
            name: chapter.name,
            content: chapter.content,
            number: chapter.number,
            path: chapter.path,
            has_sub_items: chapter.sub_items@.len() > 0,
        },
    )
}

/// The walk of one entry: the entry itself, then the walk of the entries
/// below it.
pub open spec fn walk_of(item: OutlineItem) -> Seq<BookItem>
    decreases item,
{
    match item {
        OutlineItem::Chapter(chapter) => seq![listed(chapter)] + walk_of_first(
            chapter.sub_items@,
            chapter.sub_items@.len(),
        ),
        OutlineItem::Separator => seq![BookItem::Separator],
    }
}

/// The walks of the first `n` entries of a list, one after the other.
pub open spec fn walk_of_first(items: Seq<OutlineItem>, n: nat) -> Seq<BookItem>
    decreases items, n,
{
    if n == 0 || n > items.len() {
        Seq::empty()
    } else {
        walk_of_first(items, (n - 1) as nat) + walk_of(items[n - 1])
    }
}

/// The walk of an outline: every entry once, a chapter before the entries
/// below it, and these before the entry that follows the chapter.
pub open spec fn flattened(items: Seq<OutlineItem>) -> Seq<BookItem> {
    walk_of_first(items, items.len())
}

/// Lists a chapter of the outline.
pub fn list_chapter(chapter: &OutlineChapter) -> (item: BookItem)
    ensures
        item == listed(*chapter),
{
    BookItem::Chapter(
        Chapter {
            name: chapter.name.clone(),
            content: chapter.content.clone(),
            number: match &chapter.number {
                Some(number) => Some(number.clone()),
                None => None,
            },
            path: chapter.path.clone(),
            has_sub_items: chapter.sub_items.len() > 0,
        },
    )
}

/// Adds the walk of the entries to the list.
fn walk(items: &Vec<OutlineItem>, list: &mut Vec<BookItem>)
    ensures
        final(list)@ == old(list)@ + flattened(items@),
    decreases items@,
{
    let ghost start = list@;
    let mut i: usize = 0;
    assert(list@ =~= start + walk_of_first(items@, 0));
    while i < items.len()
        invariant
            i <= items.len(),
            list@ == start + walk_of_first(items@, i as nat),
        decreases items.len() - i,
    {
        let ghost before = list@;
        match &items[i] {
            OutlineItem::Chapter(chapter) => {
                list.push(list_chapter(chapter));
                walk(&chapter.sub_items, list);
                assert(list@ =~= before + walk_of(items@[i as int]));
            },
            OutlineItem::Separator => {
                list.push(BookItem::Separator);
                assert(list@ =~= before + walk_of(items@[i as int]));
            },
        }
        assert(list@ =~= start + walk_of_first(items@, (i + 1) as nat));
        i += 1;
    }
}

/// Walks an outline: the entries of the book in the order in which they are
/// rendered and listed in the table of contents.
pub fn flatten(items: &Vec<OutlineItem>) -> (book: Vec<BookItem>)
    ensures
        book@ == flattened(items@),
{
    let mut book: Vec<BookItem> = Vec::new();
    walk(items, &mut book);
    assert(book@ =~= flattened(items@));
    book
}

/// The walk of an outline without chapters below its chapters is the
/// outline itself, entry by entry.
pub proof fn lemma_walk_of_flat_outline(items: Seq<OutlineItem>, n: nat)
    requires
        n <= items.len(),
        forall|i: int|
            0 <= i < items.len() && #[trigger] items[i] is Chapter ==> items[i]->0.sub_items@.len()
                == 0,
    ensures
        walk_of_first(items, n).len() == n,
        forall|i: int|
            0 <= i < n ==> #[trigger] walk_of_first(items, n)[i] == (match items[i] {
                OutlineItem::Chapter(chapter) => listed(chapter),
                OutlineItem::Separator => BookItem::Separator,
            }),
    decreases n,
{
    if n > 0 {
        lemma_walk_of_flat_outline(items, (n - 1) as nat);
        let last = items[n - 1];
        let before = walk_of_first(items, (n - 1) as nat);
        let single = match last {
            OutlineItem::Chapter(chapter) => listed(chapter),
            OutlineItem::Separator => BookItem::Separator,
        };
        assert(walk_of(last) =~= seq![single]) by {
            if last is Chapter {
                assert(items[n - 1] is Chapter);
                assert(last->0.sub_items@.len() == 0);
                assert(walk_of_first(last->0.sub_items@, 0) =~= Seq::<BookItem>::empty());
            }
        }
        assert(walk_of_first(items, n) =~= before + seq![single]);
        assert forall|i: int| 0 <= i < n implies #[trigger] walk_of_first(items, n)[i] == (match items[i] {
            OutlineItem::Chapter(chapter) => listed(chapter),
            OutlineItem::Separator => BookItem::Separator,
        }) by {
            if i < n - 1 {
                assert(walk_of_first(items, n)[i] == before[i]);
            }
        }
    }
}

} // verus!
