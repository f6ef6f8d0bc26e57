//! The data builder: the book-wide data that every page shares, and the data
//! of each page, made from a copy of it.

use vstd::prelude::*;
use crate::data::{
    copy_object,
    empty_object,
    encode_strings,
    get_text,
    json_object,
    json_text,
    json_value,
    json_values,
    list_value,
    no_entries,
    object_value,
    put,
    put_text,
    text_under,
    Json,
};
use crate::error::RenderError;
use crate::markdown::{markdown_html, to_html};
use crate::paths::{path_to_root, way_to_root};
use crate::text::string_views;
use crate::toc::{summary_views, ChapterSummary, SummaryView};

verus! {

/// A language of the book, as the configuration names it.
#[derive(Clone, Debug)]
pub struct Language {
    /// The identifier of the language.
    pub id: String,
    /// The name to show for it; its identifier where none is given.
    pub name: Option<String>,
}

/// A language as the pages show it.
#[derive(Clone, Debug)]
pub struct LangLink {
    /// The identifier of the language.
    pub id: String,
    /// The name to show for it.
    pub name: String,
}

/// The part of the configuration that is this renderer's own.
#[derive(Clone, Debug)]
pub struct ApiConfig {
    /// The theme directory, relative to the root of the project.
    pub theme_dir: Option<String>,
    /// The languages of the book.
    pub lang: Vec<Language>,
}

/// What the renderer reads of the book's configuration.
#[derive(Clone, Debug)]
pub struct BookConfig {
    /// The title of the book; may be empty.
    pub title: String,
    /// The description of the book; may be empty.
    pub description: String,
    /// The language of the book; may be empty.
    pub language: String,
    /// Where a page finds the live-reload service, if there is one.
    pub livereload_url: Option<String>,
    /// The renderer's own settings.
    pub api: ApiConfig,
}

/// A chapter of the book.
#[derive(Clone, Debug)]
pub struct Chapter {
    /// The display name.
    pub name: String,
    /// The Markdown text.
    pub content: String,
    /// The dotted section number, such as `2.3.1`.
    pub number: Option<String>,
    /// The path of the chapter's source, unique within the book.
    pub path: String,
    /// Whether the chapter has chapters below it.
    pub has_sub_items: bool,
}

/// An entry of the book, in the order in which the book is walked.
#[derive(Clone, Debug)]
pub enum BookItem {
    /// A chapter.
    Chapter(Chapter),
    /// A marker between two groups of chapters.
    Separator,
}

/// What a render pass carries from one chapter to the next.
#[derive(Clone, Debug)]
pub struct HtmlContext {
    /// The entry that is being rendered.
    pub book_item: Option<BookItem>,
    /// Whether no chapter of the book has been rendered yet: the first
    /// chapter is the index of the site.
    pub is_index: bool,
    /// The HTML of all the chapters rendered so far, in order.
    pub full_content: String,
}

impl Default for HtmlContext {
    /// A context without an entry and with nothing rendered, as it is once
    /// the index of the site has been rendered.
    fn default() -> (context: HtmlContext)
        ensures
            context.book_item is None,
            !context.is_index,
            context.full_content@ == Seq::<char>::empty(),
    {
        HtmlContext { book_item: None, is_index: false, full_content: String::new() }
    }
}

impl Default for Language {
    /// A language without identifier and without name.
    fn default() -> (language: Language)
        ensures
            language.id@ == Seq::<char>::empty(),
            language.name is None,
    {
        Language { id: String::new(), name: None }
    }
}

impl Default for LangLink {
    /// A language without identifier and with an empty name.
    fn default() -> (link: LangLink)
        ensures
            link.id@ == Seq::<char>::empty(),
            link.name@ == Seq::<char>::empty(),
    {
        LangLink { id: String::new(), name: String::new() }
    }
}

impl Default for ApiConfig {
    /// The settings of a project that gives none: the theme directory where
    /// it is by habit, and no languages.
    fn default() -> (config: ApiConfig)
        ensures
            config.theme_dir is None,
            config.lang@.len() == 0,
    {
        ApiConfig { theme_dir: None, lang: Vec::new() }
    }
}

impl HtmlContext {
    /// The context at the start of a pass: no entry yet, the next chapter is
    /// the index, nothing rendered.
    pub fn new() -> (context: HtmlContext)
        ensures
            context.book_item is None,
            context.is_index,
            context.full_content@ == Seq::<char>::empty(),
    {
        HtmlContext { book_item: None, is_index: true, full_content: String::new() }
    }
}

/// The summary of an entry of the book.
pub open spec fn summary_of(item: BookItem) -> SummaryView {
    match item {
        BookItem::Chapter(chapter) => SummaryView::Chapter {
            section: match chapter.number {
                Some(number) => Some(number@),
                None => None,
            },
            name: chapter.name@,
            path: chapter.path@,
            has_sub_items: chapter.has_sub_items,
        },
        BookItem::Separator => SummaryView::Separator,
    }
}

/// The summaries of the entries of a book, in order.
pub open spec fn summaries_of(book: Seq<BookItem>) -> Seq<SummaryView> {
    book.map_values(|item: BookItem| summary_of(item))
}

/// The identifiers of the languages, in order.
pub open spec fn language_ids(languages: Seq<Language>) -> Seq<Seq<char>> {
    languages.map_values(|language: Language| language.id@)
}

/// A language as the pages show it: under its own name, or under its
/// identifier where it has no name.
pub open spec fn lang_link_json(language: Language) -> Json {
    Json::Object(
        no_entries().insert("id"@, Json::Text(language.id@)).insert(
            "name"@,
            Json::Text(
                match language.name {
                    Some(name) => name@,
                    None => language.id@,
                },
            ),
        ),
    )
}

/// A summary as the pages see it. A chapter gives its section number, where
/// it has one, whether it has chapters below it, its name and its path; a
/// separator gives a spacer and nothing else.
pub open spec fn summary_json(entry: SummaryView) -> Json {
    match entry {
        SummaryView::Chapter { section, name, path, has_sub_items } => Json::Object(
            (match section {
                Some(number) => no_entries().insert("section"@, Json::Text(number)),
                None => no_entries(),
            }).insert(
                "has_sub_items"@,
                Json::Text(
                    if has_sub_items {
                        "true"@
                    } else {
                        "false"@
                    },
                ),
            ).insert("name"@, Json::Text(name)).insert("path"@, Json::Text(path)),
        ),
        SummaryView::Separator => Json::Object(
            no_entries().insert("spacer"@, Json::Text("_spacer_"@)),
        ),
    }
}

/// The book-wide data: the language, title and description of the book, the
/// name of its icon, the live-reload address where there is one, the
/// languages, as a JSON text of their identifiers and as a list, and the
/// summaries of all the entries of the book, in order.
pub open spec fn book_data(config: BookConfig, entries: Seq<SummaryView>, lang_list: Seq<char>) -> Map<
    Seq<char>,
    Json,
> {
    let fixed = no_entries().insert("language"@, Json::Text(config.language@)).insert(
        "book_title"@,
        Json::Text(config.title@),
    ).insert("description"@, Json::Text(config.description@)).insert(
        "favicon"@,
        Json::Text("favicon.png"@),
    );
    let live = match config.livereload_url {
        Some(url) => fixed.insert("livereload"@, Json::Text(url@)),
        None => fixed,
    };
    live.insert("lang_list"@, Json::Text(lang_list)).insert(
        "languages"@,
        Json::List(config.api.lang@.map_values(|language: Language| lang_link_json(language))),
    ).insert(
        "chapters"@,
        Json::List(entries.map_values(|entry: SummaryView| summary_json(entry))),
    )
}

/// The title of a chapter's page: the chapter's name, followed by the title
/// of the book where the book has one.
pub open spec fn page_title(name: Seq<char>, book_title: Option<Seq<char>>) -> Seq<char> {
    match book_title {
        Some(title) => if title.len() == 0 {
            name
        } else {
            name + " - "@ + title
        },
        None => name,
    }
}

/// The keys that make a page the index page of the site.
pub open spec fn index_data(data: Map<Seq<char>, Json>) -> Map<Seq<char>, Json> {
    data.insert("path"@, Json::Text("index.md"@)).insert("path_to_root"@, Json::Text(""@)).insert(
        "is_index"@,
        Json::Text("true"@),
    )
}

/// The data of a chapter's page: the book-wide data with the chapter's path,
/// its HTML, its name, the page's title, the way to the root and the section
/// number where there is one; for the first chapter the keys of the index
/// page on top.
pub open spec fn chapter_data(
    base: Map<Seq<char>, Json>,
    chapter: Chapter,
    html: Seq<char>,
    is_index: bool,
) -> Map<Seq<char>, Json> {
    let common = base.insert("path"@, Json::Text(chapter.path@)).insert(
        "content"@,
        Json::Text(html),
    ).insert("chapter_title"@, Json::Text(chapter.name@)).insert(
        "title"@,
        Json::Text(page_title(chapter.name@, text_under(base, "book_title"@))),
    ).insert("path_to_root"@, Json::Text(way_to_root(chapter.path@)));
    let numbered = match chapter.number {
        Some(number) => common.insert("section"@, Json::Text(number@)),
        None => common,
    };
    if is_index {
        index_data(numbered)
    } else {
        numbered
    }
}

/// The data of the one page of a book rendered as a single page: the
/// book-wide data with the HTML of all chapters and the keys of the index
/// page.
pub open spec fn whole_book_data(base: Map<Seq<char>, Json>, content: Seq<char>) -> Map<
    Seq<char>,
    Json,
> {
    index_data(base.insert("content"@, Json::Text(content)))
}

/// The title under which the book-wide data holds the book.
pub proof fn lemma_book_title_kept(config: BookConfig, entries: Seq<SummaryView>, lang_list: Seq<char>)
    ensures
        text_under(book_data(config, entries, lang_list), "book_title"@) == Some(config.title@),
{
    reveal_strlit("book_title");
    reveal_strlit("description");
    reveal_strlit("favicon");
    reveal_strlit("livereload");
    reveal_strlit("lang_list");
    reveal_strlit("languages");
    reveal_strlit("chapters");
    assert("book_title"@.len() == 10);
    assert("lang_list"@.len() == 9);
    assert("languages"@.len() == 9);
    assert("chapters"@.len() == 8);
    assert("favicon"@.len() == 7);
    assert("description"@.len() == 11);
    assert("livereload"@[0] == 'l');
    assert("book_title"@[0] == 'b');
}

/// The title of a chapter's page is the chapter's name where the book has
/// no title, and otherwise the chapter's name, ` - ` and the title of the
/// book: for every book and every chapter, index or not.
pub proof fn lemma_page_title(
    config: BookConfig,
    entries: Seq<SummaryView>,
    lang_list: Seq<char>,
    chapter: Chapter,
    html: Seq<char>,
    is_index: bool,
)
    ensures
        text_under(
            chapter_data(book_data(config, entries, lang_list), chapter, html, is_index),
            "title"@,
        ) == Some(
            if config.title@.len() == 0 {
                chapter.name@
            } else {
                chapter.name@ + " - "@ + config.title@
            },
        ),
{
    lemma_book_title_kept(config, entries, lang_list);
    reveal_strlit("title");
    reveal_strlit("path_to_root");
    reveal_strlit("section");
    reveal_strlit("path");
    reveal_strlit("is_index");
    assert("title"@.len() == 5);
    assert("path_to_root"@.len() == 12);
    assert("section"@.len() == 7);
    assert("path"@.len() == 4);
    assert("is_index"@.len() == 8);
}

/// Summarises an entry of the book.
pub fn summarize(item: &BookItem) -> (summary: ChapterSummary)
    ensures
        summary@ == summary_of(*item),
{
    match item {
        BookItem::Chapter(chapter) => ChapterSummary::Chapter {
            section: match &chapter.number {
                Some(number) => Some(number.clone()),
                None => None,
            },
            name: chapter.name.clone(),
            path: chapter.path.clone(),
            has_sub_items: chapter.has_sub_items,
        },
        BookItem::Separator => ChapterSummary::Separator,
    }
}

/// Summarises the entries of a book, in order.
pub fn summarize_book(book: &Vec<BookItem>) -> (summaries: Vec<ChapterSummary>)
    ensures
        summary_views(summaries@) == summaries_of(book@),
{
    let mut summaries: Vec<ChapterSummary> = Vec::new();
    let mut i: usize = 0;
    while i < book.len()
        invariant
            i <= book.len(),
            summaries.len() == i,
            forall|k: int| 0 <= k < i ==> (#[trigger] summaries@[k])@ == summary_of(book@[k]),
        decreases book.len() - i,
    {
        summaries.push(summarize(&book[i]));
        i += 1;
    }
    assert(summary_views(summaries@) =~= summaries_of(book@));
    summaries
}

/// Writes a summary as the pages see it.
pub fn summary_value(summary: &ChapterSummary) -> (value: serde_json::Value)
    ensures
        json_value(value) == summary_json(summary@),
{
    let mut object = empty_object();
    match summary {
        ChapterSummary::Chapter { section, name, path, has_sub_items } => {
            match section {
                Some(number) => {
                    put_text(&mut object, "section", number.as_str());
                },
                None => {},
            }
            put_text(
                &mut object,
                "has_sub_items",
                if *has_sub_items {
                    "true"
                } else {
                    "false"
                },
            );
            put_text(&mut object, "name", name.as_str());
            put_text(&mut object, "path", path.as_str());
        },
        ChapterSummary::Separator => {
            put_text(&mut object, "spacer", "_spacer_");
        },
    }
    object_value(object)
}

/// Writes a language as the pages show it.
pub fn lang_link(language: &Language) -> (link: LangLink)
    ensures
        link.id@ == language.id@,
        link.name@ == (match language.name {
            Some(name) => name@,
            None => language.id@,
        }),
{
    match &language.name {
        Some(name) => LangLink { id: language.id.clone(), name: name.clone() },
        None => LangLink { id: language.id.clone(), name: language.id.clone() },
    }
}

fn lang_link_value(language: &Language) -> (value: serde_json::Value)
    ensures
        json_value(value) == lang_link_json(*language),
{
    let link = lang_link(language);
    let mut object = empty_object();
    put_text(&mut object, "id", link.id.as_str());
    put_text(&mut object, "name", link.name.as_str());
    object_value(object)
}

fn languages_value(languages: &Vec<Language>) -> (value: serde_json::Value)
    ensures
        json_value(value) == Json::List(
            languages@.map_values(|language: Language| lang_link_json(language)),
        ),
{
    let mut values: Vec<serde_json::Value> = Vec::new();
    let mut i: usize = 0;
    while i < languages.len()
        invariant
            i <= languages.len(),
            values.len() == i,
            forall|k: int|
                0 <= k < i ==> json_value(#[trigger] values@[k]) == lang_link_json(languages@[k]),
        decreases languages.len() - i,
    {
        values.push(lang_link_value(&languages[i]));
        i += 1;
    }
    assert(json_values(values@) =~= languages@.map_values(
        |language: Language| lang_link_json(language),
    ));
    list_value(values)
}

fn summaries_value(summaries: &Vec<ChapterSummary>) -> (value: serde_json::Value)
    ensures
        json_value(value) == Json::List(
            summary_views(summaries@).map_values(|entry: SummaryView| summary_json(entry)),
        ),
{
    let mut values: Vec<serde_json::Value> = Vec::new();
    let mut i: usize = 0;
    while i < summaries.len()
        invariant
            i <= summaries.len(),
            values.len() == i,
            forall|k: int|
                0 <= k < i ==> json_value(#[trigger] values@[k]) == summary_json(summaries@[k]@),
        decreases summaries.len() - i,
    {
        values.push(summary_value(&summaries[i]));
        i += 1;
    }
    assert(json_values(values@) =~= summary_views(summaries@).map_values(
        |entry: SummaryView| summary_json(entry),
    ));
    list_value(values)
}

/// The identifiers of the languages, in order.
pub fn ids_of(languages: &Vec<Language>) -> (ids: Vec<String>)
    ensures
        string_views(ids@) == language_ids(languages@),
{
    let mut ids: Vec<String> = Vec::new();
    let mut i: usize = 0;
    while i < languages.len()
        invariant
            i <= languages.len(),
            ids.len() == i,
            forall|k: int| 0 <= k < i ==> (#[trigger] ids@[k])@ == languages@[k].id@,
        decreases languages.len() - i,
    {
        ids.push(languages[i].id.clone());
        i += 1;
    }
    assert(string_views(ids@) =~= language_ids(languages@));
    ids
}

/// Sets the keys that make a page the index page of the site.
pub fn put_index_keys(data: &mut serde_json::Map<String, serde_json::Value>)
    ensures
        json_object(*final(data)) == index_data(json_object(*old(data))),
{
    put_text(data, "path", "index.md");
    put_text(data, "path_to_root", "");
    put_text(data, "is_index", "true");
}

/// Writes the title of a chapter's page.
pub fn title_of(name: &str, book_title: Option<String>) -> (title: String)
    ensures
        title@ == page_title(
            name@,
            match book_title {
                Some(text) => Some(text@),
                None => None,
            },
        ),
{
    let mut title = name.to_owned();
    match book_title {
        Some(text) => {
            if text.as_str().unicode_len() > 0 {
                title.push_str(" - ");
                title.push_str(text.as_str());
            }
        },
        None => {},
    }
    title
}

/// The data of the page of the entry that a context holds: for a chapter
/// its own, otherwise the book-wide data.
pub open spec fn context_data(base: Map<Seq<char>, Json>, item: Option<BookItem>, is_index: bool) -> Map<
    Seq<char>,
    Json,
> {
    match item {
        Some(BookItem::Chapter(chapter)) => chapter_data(
            base,
            chapter,
            markdown_html(chapter.content@),
            is_index,
        ),
        _ => base,
    }
}

/// The HTML that the entry of a context adds to the content of the whole
/// book: that of its Markdown for a chapter, otherwise nothing.
pub open spec fn context_html(item: Option<BookItem>) -> Seq<char> {
    match item {
        Some(BookItem::Chapter(chapter)) => markdown_html(chapter.content@),
        _ => Seq::empty(),
    }
}

/// What a render pass asks of a data builder: the data of each page, made
/// from book-wide data that no page changes.
pub trait Engine: Sized {
    /// The summaries of the entries of the book, in order.
    spec fn summaries(&self) -> Seq<SummaryView>;

    /// Whether the builder is the one that this configuration and these
    /// entries give.
    spec fn loaded_from(&self, config: BookConfig, book: Seq<BookItem>) -> bool;

    /// The data of the page of an entry.
    spec fn page_data(&self, item: Option<BookItem>, is_index: bool) -> Map<Seq<char>, Json>;

    /// The HTML that an entry adds to the content of the whole book.
    spec fn page_content(&self, item: Option<BookItem>) -> Seq<char>;

    /// The data of the one page of a book rendered as a single page.
    spec fn book_page_data(&self, content: Seq<char>) -> Map<Seq<char>, Json>;

    /// The name under which the renderer is known.
    spec fn known_as(&self) -> Seq<char>;

    /// The name under which the renderer is known.
    fn name(&self) -> (name: &'static str)
        ensures
            name@ == self.known_as(),
    ;

    /// Whether a builder can be made from this configuration and these
    /// entries.
    spec fn loads(config: BookConfig, book: Seq<BookItem>) -> bool;

    /// Why none can be made, where none can.
    spec fn load_failure(config: BookConfig, book: Seq<BookItem>) -> RenderError;

    /// Builds the book-wide data from the configuration and from the entries
    /// of the book, in the order in which the book is walked.
    fn load_from_context(config: &BookConfig, book: &Vec<BookItem>) -> (loaded: Result<
        Self,
        RenderError,
    >)
        ensures
            loaded is Ok <==> Self::loads(*config, book@),
            loaded is Ok ==> loaded->Ok_0.loaded_from(*config, book@),
            loaded is Ok ==> loaded->Ok_0.summaries() == summaries_of(book@),
            loaded is Err ==> loaded->Err_0 == Self::load_failure(*config, book@),
    ;

    /// The summaries of the entries of the book, in order.
    fn chapters(&self) -> (chapters: &Vec<ChapterSummary>)
        ensures
            summary_views(chapters@) == self.summaries(),
    ;

    /// Builds the data of the page of the entry that the context holds, and
    /// adds the entry's HTML to the content of the whole book.
    fn process_chapter(&self, item: &mut HtmlContext) -> (page: serde_json::Map<
        String,
        serde_json::Value,
    >)
        ensures
            final(item).book_item == old(item).book_item,
            final(item).is_index == old(item).is_index,
            json_object(page) == self.page_data(old(item).book_item, old(item).is_index),
            final(item).full_content@ == old(item).full_content@ + self.page_content(
                old(item).book_item,
            ),
    ;

    /// Builds the data of the one page of a book rendered as a single page.
    fn finalize_book(&self, item: &HtmlContext) -> (page: serde_json::Map<
        String,
        serde_json::Value,
    >)
        ensures
            json_object(page) == self.book_page_data(item.full_content@),
    ;
}

/// The data builder of the renderer. It holds the book-wide data, built once
/// and never changed, and the summaries that the data was built from.
pub struct HtmlEngine {
    data: serde_json::Map<String, serde_json::Value>,
    chapters: Vec<ChapterSummary>,
}

impl HtmlEngine {
    /// The book-wide data.
    pub closed spec fn entries(&self) -> Map<Seq<char>, Json> {
        json_object(self.data)
    }

    /// The summaries that the data was built from.
    pub closed spec fn listed(&self) -> Seq<SummaryView> {
        summary_views(self.chapters@)
    }

    /// Builds the book-wide data, given the JSON text of the languages'
    /// identifiers.
    pub fn build(config: &BookConfig, book: &Vec<BookItem>, lang_list: &str) -> (engine: HtmlEngine)
        ensures
            engine.entries() == book_data(*config, summaries_of(book@), lang_list@),
            engine.summaries() == summaries_of(book@),
    {
        let chapters = summarize_book(book);
        let mut data = empty_object();
        put_text(&mut data, "language", config.language.as_str());
        put_text(&mut data, "book_title", config.title.as_str());
        put_text(&mut data, "description", config.description.as_str());
        put_text(&mut data, "favicon", "favicon.png");
        match &config.livereload_url {
            Some(url) => {
                put_text(&mut data, "livereload", url.as_str());
            },
            None => {},
        }
        put_text(&mut data, "lang_list", lang_list);
        put(&mut data, "languages", languages_value(&config.api.lang));
        put(&mut data, "chapters", summaries_value(&chapters));
        HtmlEngine { data, chapters }
    }

    /// The book-wide data.
    pub fn data(&self) -> (data: &serde_json::Map<String, serde_json::Value>)
        ensures
            json_object(*data) == self.entries(),
    {
        &self.data
    }

    /// The data of a chapter's page, given the chapter's HTML.
    pub fn chapter_page(&self, chapter: &Chapter, html: &str, is_index: bool) -> (page:
        serde_json::Map<String, serde_json::Value>)
        ensures
            json_object(page) == chapter_data(self.entries(), *chapter, html@, is_index),
    {
        let mut data = copy_object(&self.data);
        let title = title_of(chapter.name.as_str(), get_text(&self.data, "book_title"));
        put_text(&mut data, "path", chapter.path.as_str());
        put_text(&mut data, "content", html);
        put_text(&mut data, "chapter_title", chapter.name.as_str());
        put_text(&mut data, "title", title.as_str());
        let root = path_to_root(chapter.path.as_str());
        put_text(&mut data, "path_to_root", root.as_str());
        match &chapter.number {
            Some(number) => {
                put_text(&mut data, "section", number.as_str());
            },
            None => {},
        }
        if is_index {
            put_index_keys(&mut data);
        }
        data
    }
}

impl Engine for HtmlEngine {
    open spec fn summaries(&self) -> Seq<SummaryView> {
        self.listed()
    }

    /// The book-wide data is that of the configuration and the entries, with
    /// the JSON text of the languages' identifiers as `serde_json` writes it.
    open spec fn loaded_from(&self, config: BookConfig, book: Seq<BookItem>) -> bool {
        self.entries() == book_data(
            config,
            summaries_of(book),
            json_text(language_ids(config.api.lang@)),
        )
    }

    open spec fn page_data(&self, item: Option<BookItem>, is_index: bool) -> Map<Seq<char>, Json> {
        context_data(self.entries(), item, is_index)
    }

    open spec fn page_content(&self, item: Option<BookItem>) -> Seq<char> {
        context_html(item)
    }

    open spec fn book_page_data(&self, content: Seq<char>) -> Map<Seq<char>, Json> {
        whole_book_data(self.entries(), content)
    }

    open spec fn known_as(&self) -> Seq<char> {
        "api"@
    }

    fn name(&self) -> (name: &'static str) {
        "api"
    }

    /// Every configuration and every book give a builder: the paths of the
    /// chapters are text already.
    open spec fn loads(config: BookConfig, book: Seq<BookItem>) -> bool {
        true
    }

    /// A failure would be that of a path that is not text.
    open spec fn load_failure(config: BookConfig, book: Seq<BookItem>) -> RenderError {
        RenderError::PathEncoding
    }

    fn load_from_context(config: &BookConfig, book: &Vec<BookItem>) -> (loaded: Result<
        HtmlEngine,
        RenderError,
    >) {
        let ids = ids_of(&config.api.lang);
        match encode_strings(&ids) {
            Ok(lang_list) => Ok(HtmlEngine::build(config, book, lang_list.as_str())),
            Err(_) => Err(RenderError::PathEncoding),
        }
    }

    fn chapters(&self) -> (chapters: &Vec<ChapterSummary>) {
        &self.chapters
    }

    /// For a separator, or with no entry, the page's data is the book-wide
    /// data and nothing is added to the content of the book.
    fn process_chapter(&self, item: &mut HtmlContext) -> (page: serde_json::Map<
        String,
        serde_json::Value,
    >) {
        match &item.book_item {
            Some(BookItem::Chapter(chapter)) => {
                let html = to_html(chapter.content.as_str());
                let page = self.chapter_page(chapter, html.as_str(), item.is_index);
                item.full_content.push_str(html.as_str());
                page
            },
            _ => copy_object(&self.data),
        }
    }

    fn finalize_book(&self, item: &HtmlContext) -> (page: serde_json::Map<
        String,
        serde_json::Value,
    >) {
        let mut data = copy_object(&self.data);
        put_text(&mut data, "content", item.full_content.as_str());
        put_index_keys(&mut data);
        data
    }
}

} // verus!
