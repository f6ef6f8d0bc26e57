use mdbook_api::theme::{copy_bytes, find_content, HtmlTheme, SiteFile, Theme};

fn file(path: &str, content: &[u8]) -> SiteFile {
    SiteFile { path: path.to_string(), content: content.to_vec() }
}

fn content<'a>(files: &'a [SiteFile], path: &str) -> &'a Vec<u8> {
    &files.iter().find(|f| f.path == path).unwrap().content
}

#[test]
fn default_assets_are_icon_stylesheet_and_script() {
    let assets = HtmlTheme::load_default_assests();
    let paths: Vec<&str> = assets.iter().map(|a| a.path.as_str()).collect();
    assert_eq!(paths, vec!["favicon.png", "app.css", "app.js"]);
    assert_eq!(&assets[0].content[..8], &[0x89, b'P', b'N', b'G', 0x0d, 0x0a, 0x1a, 0x0a]);
    assert_eq!(assets[0].content.len(), 67);
    assert!(assets[1].content.starts_with(b"body {"));
    assert!(assets[2].content.starts_with(b"document."));
}

#[test]
fn theme_without_files_is_the_default_theme() {
    let theme = HtmlTheme::load_from_context(&vec![]);
    let files = theme.copy_static_files();
    let defaults = HtmlTheme::load_default_assests();
    assert_eq!(files.len(), 4);
    for (written, default) in files[1..].iter().zip(defaults.iter()) {
        assert_eq!(written.path, default.path);
        assert_eq!(written.content, default.content);
    }
    let template = String::from_utf8(theme.get_template()).unwrap();
    assert!(template.contains("{{#toc}}{{/toc}}"));
    assert!(template.contains("{{{ content }}}"));
}

#[test]
fn stylesheet_override_leaves_the_icon_alone() {
    let theme = HtmlTheme::load_from_context(&vec![file("app.css", b"body { color: red; }")]);
    let files = theme.copy_static_files();
    let defaults = HtmlTheme::load_default_assests();
    assert_eq!(content(&files, "app.css"), &b"body { color: red; }".to_vec());
    assert_eq!(content(&files, "favicon.png"), &defaults[0].content);
    assert_eq!(content(&files, "app.js"), &defaults[2].content);
}

#[test]
fn theme_file_of_an_unknown_name_is_not_copied() {
    let theme = HtmlTheme::load_from_context(&vec![file("extra.css", b"x"), file("a/b.png", b"y")]);
    let files = theme.copy_static_files();
    let paths: Vec<&str> = files.iter().map(|a| a.path.as_str()).collect();
    assert_eq!(paths, vec![".nojekyll", "favicon.png", "app.css", "app.js"]);
}

#[test]
fn template_override_replaces_the_template_only() {
    let theme = HtmlTheme::load_from_context(&vec![file("index.hbs", b"<html>{{ title }}</html>")]);
    assert_eq!(theme.get_template(), b"<html>{{ title }}</html>".to_vec());
    let files = theme.copy_static_files();
    assert_eq!(files.len(), 4);
    assert!(files.iter().all(|f| f.path != "index.hbs"));
}

#[test]
fn first_theme_file_of_a_name_wins() {
    let files = vec![file("app.js", b"one"), file("app.js", b"two")];
    assert_eq!(find_content(&files, "app.js"), Some(&b"one".to_vec()));
    assert_eq!(find_content(&files, "app.css"), None);
    let theme = HtmlTheme::load_from_context(&files);
    assert_eq!(content(&theme.copy_static_files(), "app.js"), &b"one".to_vec());
}

#[test]
fn marker_file_comes_first() {
    let files = HtmlTheme::load_from_context(&vec![]).copy_static_files();
    assert_eq!(files[0].path, ".nojekyll");
    assert_eq!(
        files[0].content,
        b"This file makes sure that Github Pages doesn't process mdBook's output.".to_vec()
    );
}

#[test]
fn copies_hold_the_same_bytes() {
    assert_eq!(copy_bytes(&vec![1, 2, 3]), vec![1, 2, 3]);
    assert_eq!(copy_bytes(&vec![]), Vec::<u8>::new());
    let first = file("a", b"bytes");
    let copy = first.clone();
    assert_eq!(copy.path, "a");
    assert_eq!(copy.content, b"bytes".to_vec());
}
