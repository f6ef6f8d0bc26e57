use mdbook_api::engine::{
    ids_of, lang_link, summarize, summarize_book, summary_value, title_of, ApiConfig, BookConfig,
    BookItem, Chapter, Engine, HtmlContext, HtmlEngine, Language,
};
use mdbook_api::error::RenderError;
use mdbook_api::paths::{path_to_root, plain_path};
use mdbook_api::toc::ChapterSummary;
use serde_json::Value;

fn config(title: &str) -> BookConfig {
    BookConfig {
        title: title.to_string(),
        description: "About things".to_string(),
        language: "en".to_string(),
        livereload_url: None,
        api: ApiConfig {
            theme_dir: None,
            lang: vec![
                Language { id: "shell".to_string(), name: Some("Shell".to_string()) },
                Language { id: "ruby".to_string(), name: None },
            ],
        },
    }
}

fn chapter(name: &str, number: Option<&str>, path: &str, content: &str) -> BookItem {
    BookItem::Chapter(Chapter {
        name: name.to_string(),
        content: content.to_string(),
        number: number.map(|n| n.to_string()),
        path: path.to_string(),
        has_sub_items: false,
    })
}

fn book() -> Vec<BookItem> {
    vec![
        chapter("Intro", Some("1"), "intro.md", "# Intro\n"),
        BookItem::Separator,
        chapter("Usage", Some("2"), "guide/usage.md", "Use it.\n"),
    ]
}

fn text(data: &serde_json::Map<String, Value>, key: &str) -> String {
    data.get(key).and_then(|v| v.as_str()).unwrap().to_string()
}

#[test]
fn book_data_holds_the_configuration() {
    let engine = HtmlEngine::load_from_context(&config("Guide"), &book()).unwrap();
    let data = engine.data();
    assert_eq!(text(data, "language"), "en");
    assert_eq!(text(data, "book_title"), "Guide");
    assert_eq!(text(data, "description"), "About things");
    assert_eq!(text(data, "favicon"), "favicon.png");
    assert!(data.get("livereload").is_none());
    assert_eq!(data.len(), 7);
}

#[test]
fn book_data_holds_the_livereload_address_when_given() {
    let mut with_reload = config("Guide");
    with_reload.livereload_url = Some("ws://localhost:3001".to_string());
    let engine = HtmlEngine::load_from_context(&with_reload, &book()).unwrap();
    assert_eq!(text(engine.data(), "livereload"), "ws://localhost:3001");
}

#[test]
fn book_data_lists_the_languages() {
    let engine = HtmlEngine::load_from_context(&config("Guide"), &book()).unwrap();
    let data = engine.data();
    assert_eq!(text(data, "lang_list"), "[\"shell\",\"ruby\"]");
    let languages = data.get("languages").unwrap().as_array().unwrap();
    assert_eq!(languages.len(), 2);
    assert_eq!(languages[0].get("id").unwrap().as_str(), Some("shell"));
    assert_eq!(languages[0].get("name").unwrap().as_str(), Some("Shell"));
    assert_eq!(languages[1].get("id").unwrap().as_str(), Some("ruby"));
    assert_eq!(languages[1].get("name").unwrap().as_str(), Some("ruby"));
}

#[test]
fn book_data_lists_the_chapters_in_book_order() {
    let engine = HtmlEngine::load_from_context(&config("Guide"), &book()).unwrap();
    let chapters = engine.data().get("chapters").unwrap().as_array().unwrap();
    assert_eq!(chapters.len(), 3);
    let first = chapters[0].as_object().unwrap();
    assert_eq!(first.get("section").unwrap().as_str(), Some("1"));
    assert_eq!(first.get("name").unwrap().as_str(), Some("Intro"));
    assert_eq!(first.get("path").unwrap().as_str(), Some("intro.md"));
    assert_eq!(first.get("has_sub_items").unwrap().as_str(), Some("false"));
    let spacer = chapters[1].as_object().unwrap();
    assert_eq!(spacer.len(), 1);
    assert_eq!(spacer.get("spacer").unwrap().as_str(), Some("_spacer_"));
    assert_eq!(chapters[2].get("path").unwrap().as_str(), Some("guide/usage.md"));
    assert_eq!(engine.chapters().len(), 3);
}

#[test]
fn summary_of_a_chapter_without_number_has_no_section() {
    let item = BookItem::Chapter(Chapter {
        name: "Preface".to_string(),
        content: String::new(),
        number: None,
        path: "preface.md".to_string(),
        has_sub_items: true,
    });
    let summary = summarize(&item);
    let value = summary_value(&summary);
    let object = value.as_object().unwrap();
    assert!(object.get("section").is_none());
    assert_eq!(object.get("has_sub_items").unwrap().as_str(), Some("true"));
    assert_eq!(object.len(), 3);
    assert!(matches!(summarize(&BookItem::Separator), ChapterSummary::Separator));
    assert_eq!(summarize_book(&book()).len(), 3);
}

#[test]
fn language_without_a_name_goes_by_its_id() {
    let link = lang_link(&Language { id: "go".to_string(), name: None });
    assert_eq!(link.id, "go");
    assert_eq!(link.name, "go");
    let named = lang_link(&Language { id: "go".to_string(), name: Some("Golang".to_string()) });
    assert_eq!(named.name, "Golang");
    assert_eq!(ids_of(&config("x").api.lang), vec!["shell".to_string(), "ruby".to_string()]);
}

#[test]
fn page_title_is_the_chapter_name_when_the_book_has_no_title() {
    let engine = HtmlEngine::load_from_context(&config(""), &book()).unwrap();
    let mut context = HtmlContext::new();
    context.book_item = Some(book()[0].clone());
    let page = engine.process_chapter(&mut context);
    assert_eq!(text(&page, "title"), "Intro");
    assert_eq!(title_of("Intro", Some(String::new())), "Intro");
    assert_eq!(title_of("Intro", None), "Intro");
}

#[test]
fn page_title_ends_with_the_book_title() {
    let engine = HtmlEngine::load_from_context(&config("Guide"), &book()).unwrap();
    let mut context = HtmlContext::new();
    context.book_item = Some(book()[0].clone());
    let page = engine.process_chapter(&mut context);
    assert_eq!(text(&page, "title"), "Intro - Guide");
    assert_eq!(title_of("Intro", Some("Guide".to_string())), "Intro - Guide");
}

#[test]
fn first_chapter_is_the_index_page() {
    let engine = HtmlEngine::load_from_context(&config("Guide"), &book()).unwrap();
    let mut context = HtmlContext::new();
    assert!(context.is_index);
    context.book_item = Some(book()[0].clone());
    let page = engine.process_chapter(&mut context);
    assert_eq!(text(&page, "path"), "index.md");
    assert_eq!(text(&page, "path_to_root"), "");
    assert_eq!(text(&page, "is_index"), "true");
    assert_eq!(text(&page, "chapter_title"), "Intro");
    assert_eq!(text(&page, "section"), "1");
    assert_eq!(text(&page, "content"), "<h1>Intro</h1>\n");
}

#[test]
fn later_chapter_keeps_its_own_path() {
    let engine = HtmlEngine::load_from_context(&config("Guide"), &book()).unwrap();
    let mut context = HtmlContext::new();
    context.is_index = false;
    context.book_item = Some(BookItem::Chapter(Chapter {
        name: "Usage".to_string(),
        content: "Use it.\n".to_string(),
        number: None,
        path: "guide/usage.md".to_string(),
        has_sub_items: false,
    }));
    let page = engine.process_chapter(&mut context);
    assert_eq!(text(&page, "path"), "guide/usage.md");
    assert_eq!(text(&page, "path_to_root"), "../");
    assert!(page.get("is_index").is_none());
    assert!(page.get("section").is_none());
    assert_eq!(text(&page, "content"), "<p>Use it.</p>\n");
}

#[test]
fn page_data_leaves_the_book_data_alone() {
    let engine = HtmlEngine::load_from_context(&config("Guide"), &book()).unwrap();
    let before = engine.data().clone();
    let mut context = HtmlContext::new();
    context.book_item = Some(book()[0].clone());
    let _ = engine.process_chapter(&mut context);
    assert_eq!(engine.data(), &before);
    assert!(engine.data().get("content").is_none());
    assert!(engine.data().get("is_index").is_none());
}

#[test]
fn content_of_the_book_grows_chapter_by_chapter() {
    let engine = HtmlEngine::load_from_context(&config("Guide"), &book()).unwrap();
    let mut context = HtmlContext::new();
    for item in book() {
        context.book_item = Some(item);
        let _ = engine.process_chapter(&mut context);
        context.is_index = false;
    }
    assert_eq!(context.full_content, "<h1>Intro</h1>\n<p>Use it.</p>\n");
    let page = engine.finalize_book(&context);
    assert_eq!(text(&page, "content"), "<h1>Intro</h1>\n<p>Use it.</p>\n");
    assert_eq!(text(&page, "path"), "index.md");
    assert_eq!(text(&page, "path_to_root"), "");
    assert_eq!(text(&page, "is_index"), "true");
    assert!(page.get("title").is_none());
}

#[test]
fn separator_has_the_book_data_for_its_page() {
    let engine = HtmlEngine::load_from_context(&config("Guide"), &book()).unwrap();
    let mut context = HtmlContext::new();
    context.book_item = Some(BookItem::Separator);
    let page = engine.process_chapter(&mut context);
    assert_eq!(&page, engine.data());
    assert_eq!(context.full_content, "");
}

#[test]
fn engine_is_known_as_api() {
    let engine = HtmlEngine::build(&config("Guide"), &book(), "[]");
    assert_eq!(engine.name(), "api");
    assert_eq!(text(engine.data(), "lang_list"), "[]");
}

#[test]
fn every_error_has_its_message() {
    assert_eq!(RenderError::PathEncoding.message(), "could not convert a chapter path to text");
    assert_eq!(RenderError::Template.message(), "could not render the page template");
    assert_eq!(RenderError::Io.message(), "could not write the output");
    assert_eq!(RenderError::AssetLoad.message(), "could not read a file of the theme");
    assert_ne!(RenderError::Io, RenderError::Template);
}

#[test]
fn defaults_are_empty() {
    let context = HtmlContext::default();
    assert!(context.book_item.is_none());
    assert!(!context.is_index);
    assert_eq!(context.full_content, "");
    let settings = ApiConfig::default();
    assert!(settings.theme_dir.is_none());
    assert!(settings.lang.is_empty());
}

#[test]
fn default_languages_are_blank() {
    let language = Language::default();
    assert_eq!(language.id, "");
    assert!(language.name.is_none());
    let link = mdbook_api::engine::LangLink::default();
    assert_eq!(link.id, "");
    assert_eq!(link.name, "");
}

#[test]
fn way_to_the_root_has_one_step_for_each_directory() {
    assert_eq!(path_to_root("intro.md"), "");
    assert_eq!(path_to_root("guide/usage.md"), "../");
    assert_eq!(path_to_root("a/b/c/d.md"), "../../../");
    assert_eq!(path_to_root("./a/b.md"), "../");
    assert_eq!(path_to_root(""), "");
    assert_eq!(path_to_root("/"), "");
    assert_eq!(path_to_root(".."), "");
    assert_eq!(path_to_root("c:\\a\\b.md"), "");
    assert!(plain_path("a/b.md"));
    assert!(!plain_path("./."));
    assert!(!plain_path("a:b"));
}
