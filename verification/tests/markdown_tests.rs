use mdbook_api::markdown::{keeps_event, to_html, to_label, EventKind};

#[test]
fn markdown_becomes_html() {
    assert_eq!(to_html("# Title\n\nSome *text*."), "<h1>Title</h1>\n<p>Some <em>text</em>.</p>\n");
}

#[test]
fn markdown_code_fence_carries_its_language() {
    assert_eq!(
        to_html("```rust\nfn main() {}\n```\n"),
        "<pre><code class=\"language-rust\">fn main() {}\n</code></pre>\n"
    );
}

#[test]
fn markdown_conversion_has_no_hidden_state() {
    let text = "- a\n- b\n\n[link](http://x)";
    assert_eq!(to_html(text), to_html(text));
}

#[test]
fn label_has_no_block_wrapper() {
    assert_eq!(to_label("Plain name", true), "Plain name");
    assert_eq!(to_label("With `code`", true), "With <code>code</code>");
    assert_eq!(to_label("*emphasis* dropped", true), "emphasis dropped");
}

#[test]
fn label_is_not_the_name_handed_back() {
    assert_eq!(to_label("a & b", true), "a &amp; b");
    assert_eq!(to_html("x"), "<p>x</p>\n");
}

#[test]
fn label_pieces() {
    assert!(keeps_event(EventKind::Text, false));
    assert!(keeps_event(EventKind::Code, false));
    assert!(!keeps_event(EventKind::Html, false));
    assert!(keeps_event(EventKind::Html, true));
    assert!(!keeps_event(EventKind::Other, true));
}
