//! The render pass: every entry of the book in order, then what is left for
//! the end of the book, then the files of the theme.
//!
//! A pass computes the files of the site and writes nothing. Whoever runs it
//! empties the destination first and writes the files in the order given.

use vstd::prelude::*;
use crate::engine::{BookConfig, BookItem, Chapter, Engine, HtmlContext, HtmlEngine};
use crate::error::RenderError;
use crate::template::{renders, HtmlOnePageTemplate, HtmlTemplate, Template};
use crate::theme::{file_views, SiteFile, Theme};

verus! {

/// A renderer: a data builder, a page renderer and the theme that the page
/// renderer works with, called in a fixed order.
pub struct HtmlRenderer<E: Engine, T: Template> {
    /// Builds the data of each page.
    pub engine: E,
    /// Renders the pages.
    pub template: T,
    /// Gives the page template and the assets.
    pub theme: T::Theme,
}

/// The renderer that gives each chapter a page of its own.
pub type ApiRenderer = HtmlRenderer<HtmlEngine, HtmlTemplate>;

/// The renderer that puts the whole book on one page.
pub type ApiOnePageRenderer = HtmlRenderer<HtmlEngine, HtmlOnePageTemplate>;

/// The HTML of the first `n` entries of a book, one after the other.
pub open spec fn content_after<E: Engine>(engine: E, book: Seq<BookItem>, n: nat) -> Seq<char>
    decreases n,
{
    if n == 0 {
        Seq::empty()
    } else {
        content_after(engine, book, (n - 1) as nat) + engine.page_content(Some(book[n - 1]))
    }
}

/// Whether none of the first `n` entries of a book is a chapter.
pub open spec fn no_chapter_before(book: Seq<BookItem>, n: nat) -> bool
    decreases n,
{
    n == 0 || (no_chapter_before(book, (n - 1) as nat) && !(book[n - 1] is Chapter))
}

/// The files that the entry at `i` adds to the site; `None` where its page
/// cannot be rendered. The first chapter of the book is its index: the entry
/// is rendered as the index as long as no chapter stands before it.
pub open spec fn item_files<E: Engine, T: Template>(
    renderer: HtmlRenderer<E, T>,
    book: Seq<BookItem>,
    i: int,
) -> Option<Seq<(Seq<char>, Seq<u8>)>> {
    renderer.template.chapter_files(
        renderer.theme.template(),
        renderer.engine.summaries(),
        Some(book[i]),
        no_chapter_before(book, i as nat),
        renderer.engine.page_data(Some(book[i]), no_chapter_before(book, i as nat)),
    )
}

/// A book has one index at most: once a chapter has had its turn, no later
/// entry is rendered as the index.
pub proof fn lemma_one_index(book: Seq<BookItem>, i: nat, j: nat)
    requires
        i < j,
        book[i as int] is Chapter,
    ensures
        !no_chapter_before(book, j),
    decreases j,
{
    if j > i + 1 {
        lemma_one_index(book, i, (j - 1) as nat);
    }
}

/// The files of the first `n` entries; `None` where the page of one of them
/// cannot be rendered.
pub open spec fn pages_after<E: Engine, T: Template>(
    renderer: HtmlRenderer<E, T>,
    book: Seq<BookItem>,
    n: nat,
) -> Option<Seq<(Seq<char>, Seq<u8>)>>
    decreases n,
{
    if n == 0 {
        Some(Seq::empty())
    } else {
        match (pages_after(renderer, book, (n - 1) as nat), item_files(renderer, book, n - 1)) {
            (Some(before), Some(added)) => Some(before + added),
            _ => None,
        }
    }
}

/// The files that the end of the book adds, rendered from the HTML of all
/// its entries; `None` where the page cannot be rendered.
pub open spec fn closing_files<E: Engine, T: Template>(
    renderer: HtmlRenderer<E, T>,
    book: Seq<BookItem>,
) -> Option<Seq<(Seq<char>, Seq<u8>)>> {
    renderer.template.book_files(
        renderer.theme.template(),
        renderer.engine.summaries(),
        renderer.engine.book_page_data(content_after(renderer.engine, book, book.len())),
    )
}

/// The files of the site, in the order in which they are written: the pages
/// of the entries, the page of the whole book, the files of the theme.
/// `None` where the book cannot be begun or a page cannot be rendered; no
/// file is written then.
pub open spec fn site<E: Engine, T: Template>(
    renderer: HtmlRenderer<E, T>,
    book: Seq<BookItem>,
) -> Option<Seq<(Seq<char>, Seq<u8>)>> {
    if !renderer.template.begins(renderer.theme.template()) {
        None
    } else {
        match (pages_after(renderer, book, book.len()), closing_files(renderer, book)) {
            (Some(pages), Some(last)) => Some(pages + last + renderer.theme.static_files()),
            _ => None,
        }
    }
}

/// Once the page of an entry cannot be rendered, no longer run of entries
/// can be.
pub proof fn lemma_failure_stays<E: Engine, T: Template>(
    renderer: HtmlRenderer<E, T>,
    book: Seq<BookItem>,
    n: nat,
    m: nat,
)
    requires
        n <= m,
        pages_after(renderer, book, n) is None,
    ensures
        pages_after(renderer, book, m) is None,
    decreases m,
{
    if n < m {
        lemma_failure_stays(renderer, book, n, (m - 1) as nat);
    }
}

/// The entries of a book that is laid out on one page add no files of their
/// own.
pub proof fn lemma_one_page_has_no_chapter_pages(
    renderer: ApiOnePageRenderer,
    book: Seq<BookItem>,
    n: nat,
)
    ensures
        pages_after(renderer, book, n) == Some(Seq::<(Seq<char>, Seq<u8>)>::empty()),
    decreases n,
{
    if n > 0 {
        lemma_one_page_has_no_chapter_pages(renderer, book, (n - 1) as nat);
        assert(Seq::<(Seq<char>, Seq<u8>)>::empty() + Seq::<(Seq<char>, Seq<u8>)>::empty()
            =~= Seq::<(Seq<char>, Seq<u8>)>::empty());
    }
}

/// A book that is laid out on one page gives one page, `index.html`, and
/// the files of the theme after it. The page is rendered from the data of
/// the whole book, whose content is the HTML of every entry in the order of
/// the book.
pub proof fn lemma_one_page_site(renderer: ApiOnePageRenderer, book: Seq<BookItem>)
    requires
        site(renderer, book) is Some,
    ensures
        site(renderer, book)->0.len() == 1 + renderer.theme.static_files().len(),
        site(renderer, book)->0[0].0 == "index.html"@,
        site(renderer, book)->0.skip(1) == renderer.theme.static_files(),
        closing_files(renderer, book) == crate::template::book_file(
            renderer.theme.template(),
            renderer.engine.summaries(),
            renderer.template.toc.keep_html,
            crate::engine::whole_book_data(
                renderer.engine.entries(),
                content_after(renderer.engine, book, book.len()),
            ),
        ),
{
    lemma_one_page_has_no_chapter_pages(renderer, book, book.len());
    let last = closing_files(renderer, book)->0;
    let fixed = renderer.theme.static_files();
    let none = Seq::<(Seq<char>, Seq<u8>)>::empty();
    assert(none + last + fixed =~= last + fixed);
    assert((last + fixed).skip(1) =~= fixed);
}

/// A copy of a chapter.
pub fn copy_chapter(chapter: &Chapter) -> (copy: Chapter)
    ensures
        copy == *chapter,
{
    Chapter {
        name: chapter.name.clone(),
        content: chapter.content.clone(),
        number: match &chapter.number {
            Some(number) => Some(number.clone()),
            None => None,
        },
        path: chapter.path.clone(),
        has_sub_items: chapter.has_sub_items,
    }
}

/// A copy of an entry of the book.
pub fn copy_item(item: &BookItem) -> (copy: BookItem)
    ensures
        copy == *item,
{
    match item {
        BookItem::Chapter(chapter) => BookItem::Chapter(copy_chapter(chapter)),
        BookItem::Separator => BookItem::Separator,
    }
}

impl<E: Engine, T: Template> HtmlRenderer<E, T> {
    /// The renderer of a book: its data builder, made from the configuration
    /// and the entries of the book; its page renderer; and its theme, made
    /// from the files of the theme directory.
    pub fn new(config: &BookConfig, book: &Vec<BookItem>, theme_files: &Vec<SiteFile>) -> (renderer:
        Result<Self, RenderError>)
        ensures
            renderer is Ok <==> E::loads(*config, book@),
            renderer is Ok ==> {
                &&& renderer->Ok_0.engine.loaded_from(*config, book@)
                &&& renderer->Ok_0.engine.summaries() == crate::engine::summaries_of(book@)
                &&& renderer->Ok_0.template.loaded()
                &&& renderer->Ok_0.theme.loaded_from(file_views(theme_files@))
            },
            renderer is Err ==> renderer->Err_0 == E::load_failure(*config, book@),
    {
        match E::load_from_context(config, book) {
            Err(failure) => Err(failure),
            Ok(engine) => Ok(
                HtmlRenderer {
                    engine,
                    template: T::load_from_context(),
                    theme: T::Theme::load_from_context(theme_files),
                },
            ),
        }
    }

    /// The name under which the renderer is known: that of its data
    /// builder.
    pub fn name(&self) -> (name: &'static str)
        ensures
            name@ == self.engine.known_as(),
    {
        self.engine.name()
    }

    /// Renders the page of the entry at `i`, and adds the entry's HTML to
    /// the content of the whole book.
    fn render_item(&self, book: &Vec<BookItem>, i: usize, context: &mut HtmlContext) -> (file:
        Result<Option<SiteFile>, RenderError>)
        requires
            i < book.len(),
            old(context).is_index == no_chapter_before(book@, i as nat),
        ensures
            renders(file, item_files(*self, book@, i as int)),
            final(context).full_content@ == old(context).full_content@ + self.engine.page_content(
                Some(book@[i as int]),
            ),
            final(context).is_index == old(context).is_index,
    {
        context.book_item = Some(copy_item(&book[i]));
        let data = self.engine.process_chapter(context);
        self.template.render_chapter(&self.theme, context, self.engine.chapters(), &data)
    }

    /// Renders a book: the files of its site, in the order in which they are
    /// to be written. The first chapter of the book is its index. Where a
    /// page cannot be rendered the pass fails as a whole.
    pub fn render(&self, book: &Vec<BookItem>) -> (files: Result<Vec<SiteFile>, RenderError>)
        ensures
            files is Ok <==> site(*self, book@) is Some,
            files is Ok ==> file_views(files->Ok_0@) == site(*self, book@)->0,
            files is Err ==> files->Err_0 == RenderError::Template,
    {
        match self.template.initialize_book(&self.theme) {
            Err(_) => {
                return Err(RenderError::Template);
            },
            Ok(_) => {},
        }
        let mut files: Vec<SiteFile> = Vec::new();
        let mut context = HtmlContext::new();
        let mut i: usize = 0;
        assert(file_views(files@) =~= Seq::empty());
        while i < book.len()
            invariant
                i <= book.len(),
                self.template.begins(self.theme.template()),
                context.is_index == no_chapter_before(book@, i as nat),
                context.full_content@ == content_after(self.engine, book@, i as nat),
                pages_after(*self, book@, i as nat) == Some(file_views(files@)),
            decreases book.len() - i,
        {
            let ghost before = file_views(files@);
            match self.render_item(book, i, &mut context) {
                Err(_) => {
                    proof {
                        lemma_failure_stays(*self, book@, (i + 1) as nat, book@.len());
                    }
                    return Err(RenderError::Template);
                },
                Ok(Some(file)) => {
                    files.push(file);
                    assert(file_views(files@) =~= before + seq![file@]);
                },
                Ok(None) => {
                    assert(file_views(files@) =~= before + Seq::empty());
                },
            }
            match &book[i] {
                BookItem::Chapter(_) => {
                    context.is_index = false;
                },
                BookItem::Separator => {},
            }
            i += 1;
        }
        let ghost pages = file_views(files@);
        let ghost last: Seq<(Seq<char>, Seq<u8>)>;
        let data = self.engine.finalize_book(&context);
        match self.template.finalize_book(&self.theme, self.engine.chapters(), &data) {
            Err(_) => {
                return Err(RenderError::Template);
            },
            Ok(Some(file)) => {
                files.push(file);
                proof {
                    last = seq![file@];
                    assert(file_views(files@) =~= pages + last);
                }
            },
            Ok(None) => {
                proof {
                    last = Seq::empty();
                    assert(file_views(files@) =~= pages + last);
                }
            },
        }
        let mut statics = self.theme.copy_static_files();
        let ghost fixed = file_views(statics@);
        files.append(&mut statics);
        assert(file_views(files@) =~= pages + last + fixed);
        Ok(files)
    }
}

} // verus!
