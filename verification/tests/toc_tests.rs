use mdbook_api::toc::{
    build_toc, depth_of, depth_of_section, labels_of, toc_from_labels, ChapterSummary, RenderToc,
};

fn chapter(section: Option<&str>, name: &str) -> ChapterSummary {
    ChapterSummary::Chapter {
        section: section.map(|s| s.to_string()),
        name: name.to_string(),
        path: format!("{}.md", name),
        has_sub_items: false,
    }
}

fn link(level: usize, id: &str, name: &str) -> String {
    format!(
        "<a href=\"#{}\" class=\"toc-h{} toc-link\" data-title=\"{}\">{}</a>",
        id, level, name, name
    )
}

#[test]
fn depth_is_one_more_than_the_dots() {
    assert_eq!(depth_of_section(&Some("2".to_string())), 1);
    assert_eq!(depth_of_section(&Some("2.3".to_string())), 2);
    assert_eq!(depth_of_section(&Some("2.3.1".to_string())), 3);
    assert_eq!(depth_of_section(&Some(String::new())), 1);
    assert_eq!(depth_of_section(&None), 1);
    assert_eq!(depth_of(&ChapterSummary::Separator), 1);
    assert_eq!(depth_of(&chapter(Some("1.10.3.4"), "Deep")), 4);
}

#[test]
fn empty_book_gives_an_empty_list() {
    assert_eq!(build_toc(&vec![], true), "<ul id=\"toc\" class=\"toc-list-h1\"></ul>");
}

#[test]
fn three_chapters_nest_the_second_below_the_first() {
    let chapters = vec![
        chapter(Some("1"), "One"),
        chapter(Some("1.1"), "Sub"),
        chapter(Some("2"), "Two"),
    ];
    let expected = format!(
        "<ul id=\"toc\" class=\"toc-list-h1\"><li>{}<ul class=\"toc-list-h2\"><li>{}</ul><li>{}</li></ul>",
        link(1, "one", "One"),
        link(2, "sub", "Sub"),
        link(1, "two", "Two"),
    );
    let toc = build_toc(&chapters, true);
    assert_eq!(toc, expected);
    assert_eq!(toc.matches("<ul class=\"toc-list-h2\">").count(), 1);
    let nested = toc.find("<ul class=\"toc-list-h2\">").unwrap();
    let closed = nested + toc[nested..].find("</ul>").unwrap();
    assert!(toc.find("data-title=\"One\"").unwrap() < nested);
    assert!(nested < toc.find("data-title=\"Sub\"").unwrap());
    assert!(closed < toc.find("data-title=\"Two\"").unwrap());
}

#[test]
fn chapters_of_one_depth_close_each_other() {
    let chapters = vec![chapter(Some("1"), "One"), chapter(Some("2"), "Two")];
    let expected = format!(
        "<ul id=\"toc\" class=\"toc-list-h1\"><li>{}</li><li>{}</li></ul>",
        link(1, "one", "One"),
        link(1, "two", "Two"),
    );
    assert_eq!(build_toc(&chapters, true), expected);
}

#[test]
fn a_deep_first_entry_opens_every_level() {
    let chapters = vec![chapter(Some("1.1.1"), "Deep")];
    let expected = format!(
        "<ul id=\"toc\" class=\"toc-list-h1\"><ul class=\"toc-list-h3\"><ul class=\"toc-list-h3\"><li>{}</li></ul></li></ul></li></ul>",
        link(3, "deep", "Deep"),
    );
    assert_eq!(build_toc(&chapters, true), expected);
}

#[test]
fn lists_opened_are_lists_closed() {
    let chapters = vec![
        chapter(None, "Preface"),
        chapter(Some("1"), "One"),
        chapter(Some("1.1"), "A"),
        chapter(Some("1.1.1"), "B"),
        ChapterSummary::Separator,
        chapter(Some("2"), "Two"),
        chapter(Some("2.1.1"), "C"),
    ];
    let toc = build_toc(&chapters, true);
    assert_eq!(toc.matches("<ul").count(), toc.matches("</ul>").count());
    assert_eq!(toc.matches("<li>").count(), chapters.len());
    assert_eq!(toc.matches("<a href").count(), chapters.len() - 1);
}

#[test]
fn items_equal_chapters_without_separators() {
    let chapters = vec![
        chapter(Some("1"), "One"),
        chapter(Some("1.1"), "A"),
        chapter(Some("2"), "Two"),
        chapter(Some("2.1"), "B"),
        chapter(Some("2.2"), "C"),
    ];
    let toc = build_toc(&chapters, true);
    assert_eq!(toc.matches("<li>").count(), 5);
    assert_eq!(toc.matches("<ul").count(), toc.matches("</ul>").count());
}

#[test]
fn a_separator_opens_an_item_without_a_link() {
    let chapters = vec![chapter(Some("1"), "One"), ChapterSummary::Separator, chapter(Some("2"), "Two")];
    let expected = format!(
        "<ul id=\"toc\" class=\"toc-list-h1\"><li>{}</li><li><li>{}</li></ul>",
        link(1, "one", "One"),
        link(1, "two", "Two"),
    );
    assert_eq!(build_toc(&chapters, true), expected);
}

#[test]
fn a_label_keeps_inline_code_and_drops_blocks() {
    let chapters = vec![chapter(Some("1"), "Use `foo` now")];
    let toc = build_toc(&chapters, true);
    assert_eq!(
        toc,
        "<ul id=\"toc\" class=\"toc-list-h1\"><li><a href=\"#use-foo-now\" class=\"toc-h1 toc-link\" data-title=\"Use `foo` now\">Use <code>foo</code> now</a></li></ul>"
    );
    assert!(!toc.contains("<p>"));
}

#[test]
fn raw_html_in_a_label_is_kept_only_on_request() {
    let chapters = vec![chapter(Some("1"), "a <b>x</b>")];
    let kept = labels_of(&chapters, true);
    let dropped = labels_of(&chapters, false);
    assert_eq!(kept, vec!["a <b>x</b>".to_string()]);
    assert_eq!(dropped, vec!["a x".to_string()]);
}

#[test]
fn labels_of_a_separator_are_empty() {
    let labels = labels_of(&vec![ChapterSummary::Separator, chapter(None, "X")], true);
    assert_eq!(labels, vec![String::new(), "X".to_string()]);
}

#[test]
fn given_labels_are_written_as_they_are() {
    let chapters = vec![chapter(Some("1"), "One"), chapter(Some("2"), "Two")];
    let toc = toc_from_labels(&chapters, &vec!["<i>1</i>".to_string()]);
    assert_eq!(
        toc,
        "<ul id=\"toc\" class=\"toc-list-h1\"><li><a href=\"#one\" class=\"toc-h1 toc-link\" data-title=\"One\"><i>1</i></a></li><li><a href=\"#two\" class=\"toc-h1 toc-link\" data-title=\"Two\"></a></li></ul>"
    );
}

#[test]
fn the_directive_renders_the_same_list() {
    let chapters = vec![chapter(Some("1"), "One"), chapter(Some("1.1"), "Sub")];
    let directive = RenderToc { keep_html: false };
    assert_eq!(directive.call(&chapters), build_toc(&chapters, false));
}

#[test]
fn depth_with_two_digits_is_written_in_decimal() {
    let chapters = vec![chapter(Some("1.1.1.1.1.1.1.1.1.1"), "Ten")];
    let toc = build_toc(&chapters, true);
    assert_eq!(toc.matches("<ul class=\"toc-list-h10\">").count(), 9);
    assert!(toc.contains("class=\"toc-h10 toc-link\""));
}

#[test]
fn the_last_item_is_closed_at_depth_one() {
    let toc = build_toc(&vec![chapter(None, "Intro")], true);
    assert_eq!(
        toc,
        "<ul id=\"toc\" class=\"toc-list-h1\"><li><a href=\"#intro\" class=\"toc-h1 toc-link\" data-title=\"Intro\">Intro</a></li></ul>"
    );
}
