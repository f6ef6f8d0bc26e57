//! The page renderer: fills the page template of the theme from a page's
//! data with `handlebars`, resolves the template's table-of-contents
//! directive, and runs the two passes over the result.

use vstd::prelude::*;
use vstd::utf8::{decode_utf8, encode_utf8, valid_utf8};
use handlebars::{Context, Handlebars, Helper, HelperResult, Output, RenderContext};
use crate::data::{json_object, Json};
use crate::engine::{BookItem, HtmlContext};
use crate::error::RenderError;
use crate::postprocess::{code_blocks_fixed, fix_code_blocks, fix_heading_ids, heading_ids_fixed};
use crate::text::{chars_of, string_of};
use crate::theme::{HtmlTheme, SiteFile, Theme};
use crate::toc::{
    entry_labels,
    summary_views,
    toc_tokens,
    tokens_html,
    ChapterSummary,
    RenderToc,
    SummaryView,
};

verus! {

/// The error of `handlebars` for a template that does not compile or cannot
/// be filled. Nothing is read of it.
#[verifier::external_type_specification]
#[verifier::external_body]
pub struct ExTemplateRenderError(handlebars::TemplateRenderError);

/// The error of std for bytes that are not UTF-8. Nothing is read of it.
#[verifier::external_type_specification]
#[verifier::external_body]
pub struct ExFromUtf8Error(std::string::FromUtf8Error);

/// `String::from_utf8` of std succeeds exactly on valid UTF-8 and then gives
/// the text that the bytes encode.
pub assume_specification[ String::from_utf8 ](bytes: Vec<u8>) -> (text: Result<
    String,
    std::string::FromUtf8Error,
>)
    ensures
        text is Ok <==> valid_utf8(bytes@),
        text is Ok ==> text->Ok_0@ == decode_utf8(bytes@),
;

/// Name for what `handlebars::Handlebars::render_template` makes of a
/// template and the data, in a registry whose directive writes the given
/// table of contents: the text, or none where the template does not compile
/// or cannot be filled.
pub uninterp spec fn template_output(
    source: Seq<char>,
    directive: Seq<char>,
    toc: Seq<char>,
    data: Map<Seq<char>, Json>,
) -> Option<Seq<char>>;

/// A blank between the parts of a template tag.
pub open spec fn is_blank(c: char) -> bool {
    c == ' ' || c == '\t' || c == '\n' || c == '\r'
}

/// The first place from `i` on that holds no blank and, where `tilde` is set,
/// no `~`; the end of the text where there is none.
pub open spec fn after_blanks(s: Seq<char>, i: nat, tilde: bool) -> nat
    decreases s.len() - i,
{
    if i < s.len() && (is_blank(s[i as int]) || (tilde && s[i as int] == '~')) {
        after_blanks(s, i + 1, tilde)
    } else {
        i
    }
}

/// Whether a closing tag that names a group in round brackets starts at `i`:
/// `{{`, then `/`, then `(`, with blanks between them and `~` before the
/// slash as a tag may have them.
pub open spec fn group_closes_at(s: Seq<char>, i: int) -> bool {
    &&& 0 <= i
    &&& i + 1 < s.len()
    &&& s[i] == '{'
    &&& s[i + 1] == '{'
    &&& after_blanks(s, (i + 2) as nat, true) < s.len()
    &&& s[after_blanks(s, (i + 2) as nat, true) as int] == '/'
    &&& after_blanks(s, after_blanks(s, (i + 2) as nat, true) + 1, false) < s.len()
    &&& s[after_blanks(s, after_blanks(s, (i + 2) as nat, true) + 1, false) as int] == '('
}

/// Whether a template closes a block with a group in round brackets
/// somewhere, as in `{{/(b)}}`. No block is opened under such a name, so the
/// template cannot be a sound one, and `handlebars` has no error for it: it
/// stops the program. Such a template is refused before it is handed over.
pub open spec fn closes_a_group(s: Seq<char>) -> bool {
    exists|i: int| group_closes_at(s, i)
}

/// `Handlebars::new`, `register_helper` and `render_template` of handlebars:
/// a fresh registry, in which the directive is a helper that writes `toc` and
/// nothing else, compiles the template and fills it from the data. Whether
/// that succeeds, and the text it gives, are a function of the four values.
/// A template that closes a block with a group in round brackets is left
/// out: on it the compiler of templates panics.
#[verifier::external_body]
fn expand(
    source: &str,
    directive: &str,
    toc: String,
    data: &serde_json::Map<String, serde_json::Value>,
) -> (page: Result<String, handlebars::TemplateRenderError>)
    requires
        !closes_a_group(source@),
    ensures
        page is Ok <==> template_output(source@, directive@, toc@, json_object(*data)) is Some,
        page is Ok ==> page->Ok_0@ == template_output(
            source@,
            directive@,
            toc@,
            json_object(*data),
        )->0,
{
    let mut registry = Handlebars::new();
    let write_toc = move |
        _: &Helper,
        _: &Handlebars,
        _: &Context,
        _: &mut RenderContext,
        out: &mut dyn Output,
    | -> HelperResult { Ok(out.write(&toc)?) };
    registry.register_helper(directive, Box::new(write_toc));
    registry.render_template(source, data)
}

/// The table of contents of a book, as HTML.
pub open spec fn toc_html(entries: Seq<SummaryView>, keep_html: bool) -> Seq<char> {
    tokens_html(toc_tokens(entries, entry_labels(entries, keep_html)))
}

/// A page after the two passes: first the code blocks, then the headings.
pub open spec fn finished(rendered: Seq<char>) -> Seq<char> {
    heading_ids_fixed(code_blocks_fixed(rendered))
}

/// The page that a template and a page's data give; none where the template
/// is not text, closes a block with a group in round brackets, or cannot be
/// filled.
pub open spec fn page_html(
    template: Seq<u8>,
    entries: Seq<SummaryView>,
    keep_html: bool,
    data: Map<Seq<char>, Json>,
) -> Option<Seq<char>> {
    if !valid_utf8(template) || closes_a_group(decode_utf8(template)) {
        None
    } else {
        match template_output(decode_utf8(template), "toc"@, toc_html(entries, keep_html), data) {
            Some(rendered) => Some(finished(rendered)),
            None => None,
        }
    }
}

/// Where the last segment of a path has a dot that does not start it, the
/// place of the last such dot; otherwise -1.
pub open spec fn extension_dot(path: Seq<char>) -> int
    decreases path.len(),
{
    if path.len() == 0 {
        -1
    } else if path.last() == '/' {
        -1
    } else if path.last() == '.' && path.len() >= 2 && path[path.len() - 2] != '/' {
        path.len() - 1
    } else {
        extension_dot(path.drop_last())
    }
}

/// The path of the page of a source file: the path with `html` for its
/// extension. What follows the last dot of the last segment gives way; a
/// segment without a dot, or with none but the one that starts it, keeps its
/// name and gets `.html` behind it.
///
/// A path is read as text with `/` between its segments, on every platform,
/// and every segment is a name. So this is not what `std::path` makes of a
/// path in two places: a last segment `..` is a name here and becomes
/// `..html`, where `std::path` sees no file name and changes nothing; and a
/// path that ends in `/` has an empty last segment here and gets `.html`
/// behind the slash, where `std::path` takes the segment before the slash.
pub open spec fn html_path(path: Seq<char>) -> Seq<char> {
    if extension_dot(path) < 0 {
        path + ".html"@
    } else {
        path.take(extension_dot(path)) + ".html"@
    }
}

/// The path of a chapter's page: `index.html` for the first chapter of the
/// book, the chapter's own path with `html` for its extension otherwise.
pub open spec fn page_path(path: Seq<char>, is_index: bool) -> Seq<char> {
    if is_index {
        "index.html"@
    } else {
        html_path(path)
    }
}

/// The file that the page of an entry makes, if it makes one; `None` where
/// its page cannot be rendered. Only a chapter has a page.
pub open spec fn chapter_file(
    template: Seq<u8>,
    entries: Seq<SummaryView>,
    keep_html: bool,
    item: Option<BookItem>,
    is_index: bool,
    data: Map<Seq<char>, Json>,
) -> Option<Seq<(Seq<char>, Seq<u8>)>> {
    match item {
        Some(BookItem::Chapter(chapter)) => match page_html(template, entries, keep_html, data) {
            Some(html) => Some(seq![(page_path(chapter.path@, is_index), encode_utf8(html))]),
            None => None,
        },
        _ => Some(Seq::empty()),
    }
}

/// The file of a book rendered as a single page; `None` where the page
/// cannot be rendered.
pub open spec fn book_file(
    template: Seq<u8>,
    entries: Seq<SummaryView>,
    keep_html: bool,
    data: Map<Seq<char>, Json>,
) -> Option<Seq<(Seq<char>, Seq<u8>)>> {
    match page_html(template, entries, keep_html, data) {
        Some(html) => Some(seq![("index.html"@, encode_utf8(html))]),
        None => None,
    }
}

/// Whether a result of rendering is what was to be rendered: the file, no
/// file, or the failure of the template.
pub open spec fn renders(
    result: Result<Option<SiteFile>, RenderError>,
    expected: Option<Seq<(Seq<char>, Seq<u8>)>>,
) -> bool {
    match expected {
        None => result == Err::<Option<SiteFile>, RenderError>(RenderError::Template),
        Some(files) => match result {
            Ok(Some(file)) => files == seq![file@],
            Ok(None) => files == Seq::<(Seq<char>, Seq<u8>)>::empty(),
            Err(_) => false,
        },
    }
}

/// The first place from `from` on that holds no blank and, where `tilde` is
/// set, no `~`.
fn skip_blanks(chars: &Vec<char>, from: usize, tilde: bool) -> (at: usize)
    requires
        from <= chars.len(),
    ensures
        at == after_blanks(chars@, from as nat, tilde),
        from <= at <= chars.len(),
{
    let mut at: usize = from;
    while at < chars.len() && (chars[at] == ' ' || chars[at] == '\t' || chars[at] == '\n'
        || chars[at] == '\r' || (tilde && chars[at] == '~'))
        invariant
            from <= at <= chars.len(),
            after_blanks(chars@, from as nat, tilde) == after_blanks(chars@, at as nat, tilde),
        decreases chars.len() - at,
    {
        at += 1;
    }
    at
}

/// Whether a template closes a block with a group in round brackets.
pub fn has_group_close(source: &str) -> (found: bool)
    ensures
        found == closes_a_group(source@),
{
    let chars = chars_of(source);
    let mut i: usize = 0;
    while i < chars.len()
        invariant
            i <= chars.len(),
            chars@ == source@,
            forall|k: int| 0 <= k < i ==> !group_closes_at(source@, k),
        decreases chars.len() - i,
    {
        if chars.len() - i >= 2 && chars[i] == '{' && chars[i + 1] == '{' {
            let slash = skip_blanks(&chars, i + 2, true);
            if slash < chars.len() && chars[slash] == '/' {
                let name = skip_blanks(&chars, slash + 1, false);
                if name < chars.len() && chars[name] == '(' {
                    assert(group_closes_at(source@, i as int));
                    return true;
                }
            }
        }
        i += 1;
    }
    assert(forall|k: int| !group_closes_at(source@, k));
    false
}

/// Runs the two passes over a rendered page.
pub fn finish_page(rendered: &str) -> (page: String)
    ensures
        page@ == finished(rendered@),
{
    let page = fix_code_blocks(rendered);
    fix_heading_ids(page.as_str())
}

/// Renders a page: fills the theme's template from the data, with the table
/// of contents of the given chapters in the place of its directive, and runs
/// the two passes over the result.
pub fn render_page<Th: Theme>(
    theme: &Th,
    toc: &RenderToc,
    chapters: &Vec<ChapterSummary>,
    data: &serde_json::Map<String, serde_json::Value>,
) -> (page: Result<String, RenderError>)
    ensures
        page is Ok <==> page_html(
            theme.template(),
            summary_views(chapters@),
            toc.keep_html,
            json_object(*data),
        ) is Some,
        page is Ok ==> page->Ok_0@ == page_html(
            theme.template(),
            summary_views(chapters@),
            toc.keep_html,
            json_object(*data),
        )->0,
        page is Err ==> page->Err_0 == RenderError::Template,
{
    match String::from_utf8(theme.get_template()) {
        Err(_) => Err(RenderError::Template),
        Ok(source) => {
            if has_group_close(source.as_str()) {
                return Err(RenderError::Template);
            }
            let list = toc.call(chapters);
            match expand(source.as_str(), "toc", list, data) {
                Err(_) => Err(RenderError::Template),
                Ok(rendered) => Ok(finish_page(rendered.as_str())),
            }
        },
    }
}

/// Writes the path of the page of a source file.
pub fn html_path_of(path: &str) -> (page: String)
    ensures
        page@ == html_path(path@),
{
    let chars = chars_of(path);
    let mut dot: Option<usize> = None;
    let mut i: usize = 0;
    while i < chars.len()
        invariant
            i <= chars.len(),
            chars@ == path@,
            match dot {
                Some(at) => at == extension_dot(path@.take(i as int)),
                None => extension_dot(path@.take(i as int)) == -1,
            },
            -1 <= extension_dot(path@.take(i as int)) < i,
        decreases chars.len() - i,
    {
        proof {
            let next = path@.take(i + 1);
            assert(next.drop_last() =~= path@.take(i as int));
            assert(next.last() == path@[i as int]);
            if i > 0 {
                assert(next[next.len() - 2] == path@[i - 1]);
            }
        }
        let c = chars[i];
        if c == '/' {
            dot = None;
        } else if c == '.' && i > 0 && chars[i - 1] != '/' {
            dot = Some(i);
        }
        i += 1;
    }
    proof {
        assert(path@.take(path@.len() as int) =~= path@);
    }
    let mut kept: Vec<char> = Vec::new();
    let end = match dot {
        Some(at) => at,
        None => chars.len(),
    };
    let mut k: usize = 0;
    while k < end
        invariant
            k <= end <= chars.len(),
            chars@ == path@,
            kept@ == path@.take(k as int),
        decreases end - k,
    {
        kept.push(chars[k]);
        proof {
            assert(path@.take(k + 1) =~= path@.take(k as int).push(path@[k as int]));
        }
        k += 1;
    }
    let mut page = string_of(&kept);
    page.push_str(".html");
    page
}

/// What a render pass asks of a page renderer: the file of each entry's
/// page, and what is left to render at the end of the book.
pub trait Template: Sized {
    /// The theme that the renderer takes its template from.
    type Theme: Theme;

    /// Whether the renderer is as a project gets it.
    spec fn loaded(&self) -> bool;

    /// Whether a book can be begun with the given page template.
    spec fn begins(&self, template: Seq<u8>) -> bool;

    /// The files that the page of an entry makes, none or one; `None` where
    /// the page cannot be rendered.
    spec fn chapter_files(
        &self,
        template: Seq<u8>,
        entries: Seq<SummaryView>,
        item: Option<BookItem>,
        is_index: bool,
        data: Map<Seq<char>, Json>,
    ) -> Option<Seq<(Seq<char>, Seq<u8>)>>;

    /// The files that the end of the book adds, none or one; `None` where
    /// the page cannot be rendered.
    spec fn book_files(
        &self,
        template: Seq<u8>,
        entries: Seq<SummaryView>,
        data: Map<Seq<char>, Json>,
    ) -> Option<Seq<(Seq<char>, Seq<u8>)>>;

    /// The renderer as a project gets it.
    fn load_from_context() -> (template: Self)
        ensures
            template.loaded(),
    ;

    /// Does what is to be done before the first entry of a book.
    fn initialize_book(&self, theme: &Self::Theme) -> (begun: Result<(), RenderError>)
        ensures
            begun is Ok <==> self.begins(theme.template()),
            begun is Err ==> begun->Err_0 == RenderError::Template,
    ;

    /// Renders the page of the entry that the context holds, from the data
    /// of that page.
    fn render_chapter(
        &self,
        theme: &Self::Theme,
        item: &HtmlContext,
        chapters: &Vec<ChapterSummary>,
        input: &serde_json::Map<String, serde_json::Value>,
    ) -> (file: Result<Option<SiteFile>, RenderError>)
        ensures
            renders(
                file,
                self.chapter_files(
                    theme.template(),
                    summary_views(chapters@),
                    item.book_item,
                    item.is_index,
                    json_object(*input),
                ),
            ),
    ;

    /// Renders what is left when all entries have had their turn, from the
    /// data of the whole book.
    fn finalize_book(
        &self,
        theme: &Self::Theme,
        chapters: &Vec<ChapterSummary>,
        input: &serde_json::Map<String, serde_json::Value>,
    ) -> (file: Result<Option<SiteFile>, RenderError>)
        ensures
            renders(
                file,
                self.book_files(theme.template(), summary_views(chapters@), json_object(*input)),
            ),
    ;
}

/// The renderer that gives each chapter a page of its own.
#[derive(Clone, Copy, Debug)]
pub struct HtmlTemplate {
    /// The table-of-contents directive.
    pub toc: RenderToc,
}

/// The renderer that puts the whole book on one page.
#[derive(Clone, Copy, Debug)]
pub struct HtmlOnePageTemplate {
    /// The table-of-contents directive.
    pub toc: RenderToc,
}

impl Default for HtmlTemplate {
    /// The renderer as a project gets it.
    fn default() -> (template: HtmlTemplate)
        ensures
            template.toc.keep_html,
    {
        HtmlTemplate { toc: RenderToc { keep_html: true } }
    }
}

impl Default for HtmlOnePageTemplate {
    /// The renderer as a project gets it.
    fn default() -> (template: HtmlOnePageTemplate)
        ensures
            template.toc.keep_html,
    {
        HtmlOnePageTemplate { toc: RenderToc { keep_html: true } }
    }
}

impl Template for HtmlTemplate {
    type Theme = HtmlTheme;

    /// Raw HTML in a chapter's name is passed through into the label of its
    /// link.
    open spec fn loaded(&self) -> bool {
        self.toc.keep_html
    }

    /// A chapter gives one file, `index.html` for the first chapter of the
    /// book; a separator gives none.
    open spec fn chapter_files(
        &self,
        template: Seq<u8>,
        entries: Seq<SummaryView>,
        item: Option<BookItem>,
        is_index: bool,
        data: Map<Seq<char>, Json>,
    ) -> Option<Seq<(Seq<char>, Seq<u8>)>> {
        chapter_file(template, entries, self.toc.keep_html, item, is_index, data)
    }

    /// Nothing is left for the end of the book.
    open spec fn book_files(
        &self,
        template: Seq<u8>,
        entries: Seq<SummaryView>,
        data: Map<Seq<char>, Json>,
    ) -> Option<Seq<(Seq<char>, Seq<u8>)>> {
        Some(Seq::empty())
    }

    /// Nothing stands in the way of a book.
    open spec fn begins(&self, template: Seq<u8>) -> bool {
        true
    }

    fn load_from_context() -> (template: HtmlTemplate) {
        HtmlTemplate { toc: RenderToc { keep_html: true } }
    }

    fn initialize_book(&self, theme: &HtmlTheme) -> (begun: Result<(), RenderError>) {
        Ok(())
    }

    fn render_chapter(
        &self,
        theme: &HtmlTheme,
        item: &HtmlContext,
        chapters: &Vec<ChapterSummary>,
        input: &serde_json::Map<String, serde_json::Value>,
    ) -> (file: Result<Option<SiteFile>, RenderError>) {
        match &item.book_item {
            Some(BookItem::Chapter(chapter)) => {
                match render_page(theme, &self.toc, chapters, input) {
                    Err(_) => Err(RenderError::Template),
                    Ok(page) => {
                        let path = if item.is_index {
                            "index.html".to_owned()
                        } else {
                            html_path_of(chapter.path.as_str())
                        };
                        Ok(Some(SiteFile { path, content: page.as_str().as_bytes_vec() }))
                    },
                }
            },
            _ => Ok(None),
        }
    }

    fn finalize_book(
        &self,
        theme: &HtmlTheme,
        chapters: &Vec<ChapterSummary>,
        input: &serde_json::Map<String, serde_json::Value>,
    ) -> (file: Result<Option<SiteFile>, RenderError>) {
        Ok(None)
    }
}

impl Template for HtmlOnePageTemplate {
    type Theme = HtmlTheme;

    /// Raw HTML in a chapter's name is passed through into the label of its
    /// link.
    open spec fn loaded(&self) -> bool {
        self.toc.keep_html
    }

    /// An entry has no page of its own.
    open spec fn chapter_files(
        &self,
        template: Seq<u8>,
        entries: Seq<SummaryView>,
        item: Option<BookItem>,
        is_index: bool,
        data: Map<Seq<char>, Json>,
    ) -> Option<Seq<(Seq<char>, Seq<u8>)>> {
        Some(Seq::empty())
    }

    /// The one page of the book, `index.html`.
    open spec fn book_files(
        &self,
        template: Seq<u8>,
        entries: Seq<SummaryView>,
        data: Map<Seq<char>, Json>,
    ) -> Option<Seq<(Seq<char>, Seq<u8>)>> {
        book_file(template, entries, self.toc.keep_html, data)
    }

    /// Nothing stands in the way of a book.
    open spec fn begins(&self, template: Seq<u8>) -> bool {
        true
    }

    fn load_from_context() -> (template: HtmlOnePageTemplate) {
        HtmlOnePageTemplate { toc: RenderToc { keep_html: true } }
    }

    fn initialize_book(&self, theme: &HtmlTheme) -> (begun: Result<(), RenderError>) {
        Ok(())
    }

    fn render_chapter(
        &self,
        theme: &HtmlTheme,
        item: &HtmlContext,
        chapters: &Vec<ChapterSummary>,
        input: &serde_json::Map<String, serde_json::Value>,
    ) -> (file: Result<Option<SiteFile>, RenderError>) {
        Ok(None)
    }

    fn finalize_book(
        &self,
        theme: &HtmlTheme,
        chapters: &Vec<ChapterSummary>,
        input: &serde_json::Map<String, serde_json::Value>,
    ) -> (file: Result<Option<SiteFile>, RenderError>) {
        match render_page(theme, &self.toc, chapters, input) {
            Err(_) => Err(RenderError::Template),
            Ok(page) => Ok(
                Some(
                    SiteFile {
                        path: "index.html".to_owned(),
                        content: page.as_str().as_bytes_vec(),
                    },
                ),
            ),
        }
    }
}

} // verus!
