use mdbook_api::engine::{
    ApiConfig, BookConfig, BookItem, Chapter, Engine, HtmlContext, HtmlEngine,
};
use mdbook_api::error::RenderError;
use mdbook_api::renderer::{copy_chapter, copy_item, ApiOnePageRenderer, ApiRenderer};
use mdbook_api::template::{
    finish_page, has_group_close, html_path_of, render_page, HtmlOnePageTemplate, HtmlTemplate,
    Template,
};
use mdbook_api::text::{begins_with, chars_of, decimal_string, same_text, string_at, string_of};
use mdbook_api::theme::{HtmlTheme, SiteFile, Theme};
use mdbook_api::toc::RenderToc;

fn config(title: &str) -> BookConfig {
    BookConfig {
        title: title.to_string(),
        description: String::new(),
        language: "en".to_string(),
        livereload_url: None,
        api: ApiConfig { theme_dir: None, lang: vec![] },
    }
}

fn chapter(name: &str, number: Option<&str>, path: &str, content: &str) -> BookItem {
    BookItem::Chapter(Chapter {
        name: name.to_string(),
        content: content.to_string(),
        number: number.map(|n| n.to_string()),
        path: path.to_string(),
        has_sub_items: false,
    })
}

fn book() -> Vec<BookItem> {
    vec![
        chapter("One", Some("1"), "one.md", "# One\n\nfirst\n"),
        chapter("Sub", Some("1.1"), "one/sub.md", "## Sub\n\n```rust\nlet x;\n```\n"),
        BookItem::Separator,
        chapter("Two", Some("2"), "two.md", "# Two\n"),
    ]
}

fn template(source: &[u8]) -> Vec<SiteFile> {
    vec![SiteFile { path: "index.hbs".to_string(), content: source.to_vec() }]
}

fn text(file: &SiteFile) -> String {
    String::from_utf8(file.content.clone()).unwrap()
}

#[test]
fn page_paths_take_the_html_extension() {
    assert_eq!(html_path_of("one.md"), "one.html");
    assert_eq!(html_path_of("guide/usage.md"), "guide/usage.html");
    assert_eq!(html_path_of("intro"), "intro.html");
    assert_eq!(html_path_of("a.b/c"), "a.b/c.html");
    assert_eq!(html_path_of("x.tar.gz"), "x.tar.html");
    assert_eq!(html_path_of(".hidden"), ".hidden.html");
    assert_eq!(html_path_of("dir/.hidden"), "dir/.hidden.html");
    assert_eq!(html_path_of(""), ".html");
}

#[test]
fn single_page_mode_writes_one_page_with_all_chapters() {
    let renderer = ApiOnePageRenderer::new(&config("Guide"), &book(), &template(b"{{{content}}}")).unwrap();
    let files = renderer.render(&book()).unwrap();
    let paths: Vec<&str> = files.iter().map(|f| f.path.as_str()).collect();
    assert_eq!(paths, vec!["index.html", ".nojekyll", "favicon.png", "app.css", "app.js"]);
    assert_eq!(paths.iter().filter(|p| p.ends_with(".html")).count(), 1);
    assert_eq!(
        text(&files[0]),
        "<h1 id=\"one\">One</h1>\n<p>first</p>\n<h2 id=\"sub\">Sub</h2>\n<pre class=\"language-rust tab-rust highlight\"><code >let x;\n</code></pre>\n<h1 id=\"two\">Two</h1>\n"
    );
}

#[test]
fn multi_page_mode_writes_a_page_for_each_chapter() {
    let renderer = ApiRenderer::new(&config("Guide"), &book(), &template(b"{{title}}|{{path}}|{{{content}}}")).unwrap();
    let files = renderer.render(&book()).unwrap();
    let paths: Vec<&str> = files.iter().map(|f| f.path.as_str()).collect();
    assert_eq!(
        paths,
        vec!["index.html", "one/sub.html", "two.html", ".nojekyll", "favicon.png", "app.css", "app.js"]
    );
    assert_eq!(text(&files[0]), "One - Guide|index.md|<h1 id=\"one\">One</h1>\n<p>first</p>\n");
    assert_eq!(text(&files[2]), "Two - Guide|two.md|<h1 id=\"two\">Two</h1>\n");
}

#[test]
fn page_title_has_no_suffix_without_a_book_title() {
    let renderer = ApiRenderer::new(&config(""), &book(), &template(b"{{title}}")).unwrap();
    let files = renderer.render(&book()).unwrap();
    assert_eq!(text(&files[0]), "One");
    assert_eq!(text(&files[1]), "Sub");
}

#[test]
fn default_template_renders_title_toc_and_content() {
    let renderer = ApiRenderer::new(&config("Guide"), &book(), &vec![]).unwrap();
    let files = renderer.render(&book()).unwrap();
    let page = text(&files[1]);
    assert!(page.contains("<title>Sub - Guide</title>"));
    assert!(page.contains("<ul id=\"toc\" class=\"toc-list-h1\"><li><a href=\"#one\""));
    assert!(page.contains("<ul class=\"toc-list-h2\"><li><a href=\"#sub\""));
    assert!(page.contains("<h2 id=\"sub\">Sub</h2>"));
    assert!(page.contains("<pre class=\"language-rust tab-rust highlight\">"));
}

#[test]
fn toc_directive_is_resolved_from_the_chapters() {
    let renderer = ApiOnePageRenderer::new(&config(""), &book(), &template(b"{{#toc}}{{/toc}}")).unwrap();
    let files = renderer.render(&book()).unwrap();
    let toc = text(&files[0]);
    assert_eq!(toc, RenderToc { keep_html: true }.call(renderer.engine.chapters()));
    assert_eq!(toc.matches("<ul class=\"toc-list-h2\">").count(), 1);
}

#[test]
fn broken_template_fails_the_pass() {
    let renderer = ApiRenderer::new(&config(""), &book(), &template(b"{{#if}}")).unwrap();
    assert_eq!(renderer.render(&book()).err(), Some(RenderError::Template));
    let one_page = ApiOnePageRenderer::new(&config(""), &book(), &template(b"{{#if}}")).unwrap();
    assert_eq!(one_page.render(&book()).err(), Some(RenderError::Template));
}

#[test]
fn template_that_is_not_text_fails_the_pass() {
    let renderer = ApiOnePageRenderer::new(&config(""), &book(), &template(&[0xff, 0xfe])).unwrap();
    assert_eq!(renderer.render(&book()).err(), Some(RenderError::Template));
}

#[test]
fn empty_book_has_only_the_theme_files_in_multi_page_mode() {
    let renderer = ApiRenderer::new(&config(""), &vec![], &vec![]).unwrap();
    let files = renderer.render(&vec![]).unwrap();
    assert_eq!(files.len(), 4);
    assert_eq!(files[0].path, ".nojekyll");
}

#[test]
fn renderer_is_known_by_the_name_of_its_engine() {
    let pages = ApiRenderer::new(&config(""), &book(), &vec![]).unwrap();
    assert_eq!(pages.name(), "api");
    assert!(pages.template.toc.keep_html);
    let one = ApiOnePageRenderer::new(&config(""), &book(), &vec![]).unwrap();
    assert_eq!(one.name(), "api");
    assert!(one.template.toc.keep_html);
    assert_eq!(one.theme.copy_static_files().len(), 4);
}

#[test]
fn templates_render_what_the_layout_leaves_to_them() {
    let theme = HtmlTheme::load_from_context(&template(b"[{{{content}}}]"));
    let engine = HtmlEngine::load_from_context(&config(""), &book()).unwrap();
    let mut context = HtmlContext::new();
    context.is_index = false;
    context.book_item = Some(book()[1].clone());
    let data = engine.process_chapter(&mut context);
    let pages = HtmlTemplate::load_from_context();
    let file = pages.render_chapter(&theme, &context, engine.chapters(), &data).unwrap().unwrap();
    assert_eq!(file.path, "one/sub.html");
    assert!(text(&file).starts_with("[<h2 id=\"sub\">Sub</h2>"));
    assert!(pages.finalize_book(&theme, engine.chapters(), &data).unwrap().is_none());
    context.book_item = Some(BookItem::Separator);
    assert!(pages.render_chapter(&theme, &context, engine.chapters(), &data).unwrap().is_none());
    let one = HtmlOnePageTemplate::load_from_context();
    context.book_item = Some(book()[1].clone());
    assert!(one.render_chapter(&theme, &context, engine.chapters(), &data).unwrap().is_none());
    let whole = one.finalize_book(&theme, engine.chapters(), &engine.finalize_book(&context)).unwrap().unwrap();
    assert_eq!(whole.path, "index.html");
    let page = render_page(&theme, &one.toc, engine.chapters(), engine.data()).unwrap();
    assert_eq!(page, "[]");
}

#[test]
fn finishing_a_page_runs_both_passes() {
    assert_eq!(
        finish_page("<h1>T</h1><pre><code class=\"language-c\">x</code></pre>"),
        "<h1 id=\"t\">T</h1><pre class=\"language-c tab-c highlight\"><code >x</code></pre>"
    );
}

#[test]
fn copy_of_a_chapter_holds_the_same_values() {
    let chapter = Chapter {
        name: "N".to_string(),
        content: "C".to_string(),
        number: Some("1.2".to_string()),
        path: "p.md".to_string(),
        has_sub_items: true,
    };
    let copy = copy_chapter(&chapter);
    assert_eq!(copy.name, "N");
    assert_eq!(copy.content, "C");
    assert_eq!(copy.number, Some("1.2".to_string()));
    assert_eq!(copy.path, "p.md");
    assert!(copy.has_sub_items);
    assert!(matches!(copy_item(&BookItem::Separator), BookItem::Separator));
    assert!(matches!(copy_item(&BookItem::Chapter(chapter)), BookItem::Chapter(c) if c.name == "N"));
}

#[test]
fn text_helpers() {
    assert_eq!(chars_of("añb"), vec!['a', 'ñ', 'b']);
    assert_eq!(string_of(&vec!['x', 'y']), "xy");
    assert_eq!(decimal_string(0), "0");
    assert_eq!(decimal_string(7), "7");
    assert_eq!(decimal_string(10), "10");
    assert_eq!(decimal_string(4096), "4096");
    assert!(same_text("abc", "abc"));
    assert!(!same_text("abc", "abd"));
    assert!(!same_text("abc", "ab"));
    assert!(begins_with("/h2> x", "/h2>"));
    assert!(begins_with("abc", ""));
    assert!(!begins_with("/h", "/h2>"));
    assert!(!begins_with("/h3>", "/h2>"));
    let list = vec!["a".to_string(), "b".to_string()];
    assert_eq!(string_at(&list, 1), "b");
    assert_eq!(string_at(&list, 2), "");
}

#[test]
fn default_templates_keep_raw_html_in_labels() {
    assert!(HtmlTemplate::default().toc.keep_html);
    assert!(HtmlOnePageTemplate::default().toc.keep_html);
    assert!(HtmlTemplate::load_from_context().toc.keep_html);
}

#[test]
fn nothing_stands_in_the_way_of_a_book() {
    let theme = HtmlTheme::load_from_context(&vec![]);
    assert!(HtmlTemplate::load_from_context().initialize_book(&theme).is_ok());
    assert!(HtmlOnePageTemplate::load_from_context().initialize_book(&theme).is_ok());
}

#[test]
fn first_chapter_after_a_separator_is_the_index() {
    let items = vec![
        BookItem::Separator,
        chapter("One", Some("1"), "one.md", "# One\n"),
        chapter("Two", Some("2"), "two.md", "# Two\n"),
    ];
    let renderer = ApiRenderer::new(&config(""), &items, &template(b"{{path}}|{{is_index}}")).unwrap();
    let files = renderer.render(&items).unwrap();
    let paths: Vec<&str> = files.iter().map(|f| f.path.as_str()).collect();
    assert_eq!(&paths[..2], &["index.html", "two.html"]);
    assert_eq!(text(&files[0]), "index.md|true");
    assert_eq!(text(&files[1]), "two.md|");
}

#[test]
fn every_configuration_gives_a_renderer() {
    assert!(ApiRenderer::new(&config(""), &vec![], &vec![]).is_ok());
    assert!(HtmlEngine::load_from_context(&config("T"), &book()).is_ok());
}

#[test]
fn template_that_closes_a_block_with_a_group_fails_the_pass() {
    for source in ["{{#a}}{{/(b)}}", "{{#if x}}y{{~ / (if)}}", "{{{{raw}}}}x{{{{/(raw)}}}}"] {
        let renderer = ApiOnePageRenderer::new(&config(""), &book(), &template(source.as_bytes())).unwrap();
        assert_eq!(renderer.render(&book()).err(), Some(RenderError::Template));
    }
}

#[test]
fn closing_tags_with_groups_are_found() {
    assert!(has_group_close("{{#a}}{{/(b)}}"));
    assert!(has_group_close("x {{ ~ /\n ( b ) }}"));
    assert!(has_group_close("{{{{/(raw)}}}}"));
    assert!(!has_group_close("{{#a}}{{/a}}"));
    assert!(!has_group_close("{{#if (eq a b)}}x{{/if}}"));
    assert!(!has_group_close("{ {/(b)}}"));
    assert!(!has_group_close("{{/"));
    assert!(!has_group_close("{{"));
    assert!(!has_group_close(""));
}

#[test]
fn block_with_a_group_among_its_parameters_renders() {
    let renderer = ApiOnePageRenderer::new(&config("T"), &book(), &template(b"{{#if (lookup this \"book_title\")}}yes{{/if}}")).unwrap();
    let files = renderer.render(&book()).unwrap();
    assert_eq!(text(&files[0]), "yes");
}
