use mdbook_api::pattern::{search, splice, Matches};
use mdbook_api::postprocess::{
    first_word, fix_code_blocks, fix_heading_ids, heading_replacement, inject_heading_ids,
    language_replacement, rewrite_classes, rewrite_code_tag, rewrite_code_tags, rewrite_languages,
    spaced_classes,
};

fn strings(items: &[&str]) -> Vec<String> {
    items.iter().map(|s| s.to_string()).collect()
}

#[test]
fn heading_gets_an_id() {
    assert_eq!(
        fix_heading_ids("<h1>Hello World</h1>"),
        "<h1 id=\"hello-world\">Hello World</h1>"
    );
}

#[test]
fn every_plain_heading_gets_an_id() {
    assert_eq!(
        fix_heading_ids("<h2>A b</h2><p>x</p><h9>C</h9>"),
        "<h2 id=\"a-b\">A b</h2><p>x</p><h9 id=\"c\">C</h9>"
    );
}

#[test]
fn heading_with_text_before_a_nested_tag_stays_as_it_is() {
    assert_eq!(fix_heading_ids("<h2>a<b>x</b></h2>"), "<h2>a<b>x</b></h2>");
    assert_eq!(fix_heading_ids("<h2>a<b>x</b> c</h2>"), "<h2>a<b>x</b> c</h2>");
    assert_eq!(fix_heading_ids("<h2>a<h3>y</h3></h2>"), "<h2>a<h3>y</h3></h2>");
    assert_eq!(
        fix_heading_ids("<h1>Plain</h1><h2>a<i>x</i></h2><h3>Also plain</h3>"),
        "<h1 id=\"plain\">Plain</h1><h2>a<i>x</i></h2><h3 id=\"also-plain\">Also plain</h3>"
    );
}

#[test]
fn heading_with_a_nested_tag_stays_as_it_is() {
    assert_eq!(fix_heading_ids("<h1><b>x</b></h1>"), "<h1><b>x</b></h1>");
    assert_eq!(
        fix_heading_ids("<p>a</p><h3><code>f</code> call</h3>"),
        "<p>a</p><h3><code>f</code> call</h3>"
    );
}

#[test]
fn heading_with_attributes_or_two_digits_stays_as_it_is() {
    assert_eq!(fix_heading_ids("<h1 id=\"x\">T</h1>"), "<h1 id=\"x\">T</h1>");
    assert_eq!(fix_heading_ids("<h10>T</h10>"), "<h10>T</h10>");
    assert_eq!(fix_heading_ids("<h1></h1>"), "<h1></h1>");
}

#[test]
fn page_without_headings_stays_as_it_is() {
    assert_eq!(fix_heading_ids("<p>nothing here</p>"), "<p>nothing here</p>");
    assert_eq!(fix_heading_ids(""), "");
}

#[test]
fn code_block_classes_move_to_pre() {
    assert_eq!(
        fix_code_blocks("<pre><code class=\"language-rust\">fn</code></pre>"),
        "<pre class=\"language-rust tab-rust highlight\"><code >fn</code></pre>"
    );
}

#[test]
fn code_block_keeps_the_first_token_of_the_language() {
    assert_eq!(
        fix_code_blocks("<pre><code class=\"language-rust,ignore\">fn</code></pre>"),
        "<pre class=\"language-rust tab-rust highlight\"><code >fn</code></pre>"
    );
}

#[test]
fn code_block_passes_other_classes_through() {
    assert_eq!(
        fix_code_blocks("<pre><code class=\"foo,bar\">x</code></pre>"),
        "<pre class=\"foo bar\"><code >x</code></pre>"
    );
    assert_eq!(
        fix_code_blocks("<pre><code class=\"hidden,language-c\">x</code></pre>"),
        "<pre class=\"hidden language-c tab-c highlight\"><code >x</code></pre>"
    );
}

#[test]
fn code_block_keeps_what_stands_around_the_attribute() {
    assert_eq!(
        fix_code_blocks("<pre><code data-a=\"1\" class=\"language-sh\" data-b=\"2\">x"),
        "<pre class=\"language-sh tab-sh highlight\"><code data-a=\"1\"  data-b=\"2\">x"
    );
}

#[test]
fn code_block_without_a_class_stays_as_it_is() {
    assert_eq!(fix_code_blocks("<pre><code>x</code></pre>"), "<pre><code>x</code></pre>");
    assert_eq!(fix_code_blocks("<p>text</p>"), "<p>text</p>");
}

#[test]
fn code_block_rewrite_round_trips() {
    let page = "<p>a</p><pre><code class=\"language-x\">1</code></pre><pre><code class=\"language-y,z\">2</code></pre>";
    let once = fix_code_blocks(page);
    assert_eq!(fix_code_blocks(&once), once);
}

#[test]
fn rewritten_classes_are_not_split_again() {
    assert_eq!(rewrite_classes("language-x tab-x highlight"), "language-x tab-x highlight");
    assert_eq!(rewrite_classes("language-x"), "language-x tab-x highlight");
    assert_eq!(
        rewrite_classes(&rewrite_classes("language-rust,ignore")),
        rewrite_classes("language-rust,ignore")
    );
}

#[test]
fn commas_become_spaces() {
    assert_eq!(spaced_classes("a,b,,c"), "a b  c");
    assert_eq!(spaced_classes(""), "");
}

#[test]
fn first_word_ends_at_the_first_space() {
    assert_eq!(first_word("rust ignore"), "rust");
    assert_eq!(first_word("rust"), "rust");
    assert_eq!(first_word(" rust"), "");
    assert_eq!(first_word(""), "");
}

#[test]
fn replacements_from_groups() {
    assert_eq!(
        heading_replacement(&strings(&["<h2>My Title<", "2", "My Title"]), "/h2> rest"),
        "<h2 id=\"my-title\">My Title<"
    );
    assert_eq!(
        heading_replacement(&strings(&["<h2>My Title<", "2", "My Title"]), "b>x</b></h2>"),
        "<h2>My Title<"
    );
    assert_eq!(
        heading_replacement(&strings(&["<h2>My Title<", "2", "My Title"]), "/h3>"),
        "<h2>My Title<"
    );
    assert_eq!(heading_replacement(&strings(&["<h2>My Title<", "2", "My Title"]), ""), "<h2>My Title<");
    assert_eq!(
        language_replacement(&strings(&["language-rust ignore", "rust ignore"])),
        "language-rust tab-rust highlight"
    );
    assert_eq!(
        rewrite_code_tag(&strings(&["whole", " x ", "language-c,no", " y"])),
        "<pre class=\"language-c tab-c highlight\"><code x  y>"
    );
    assert_eq!(heading_replacement(&strings(&["only"]), "/h>"), "<h id=\"\"><");
    assert_eq!(heading_replacement(&strings(&["only"]), "x"), "only");
}

#[test]
fn splice_weaves_pieces_and_replacements() {
    assert_eq!(splice(&strings(&["a", "b", "c"]), &strings(&["1", "2"])), "a1b2c");
    assert_eq!(splice(&strings(&["a"]), &strings(&[])), "a");
    assert_eq!(splice(&strings(&[]), &strings(&["1"])), "1");
    assert_eq!(splice(&strings(&["a", "b", "c"]), &strings(&["1"])), "a1b");
}

#[test]
fn search_finds_groups_and_pieces() {
    let found = search("(a)(b*)", "xabbyaz").unwrap();
    assert_eq!(found.captures, vec![strings(&["abb", "a", "bb"]), strings(&["a", "a", ""])]);
    assert_eq!(found.pieces, strings(&["x", "y", "z"]));
    let none = search("q", "xyz").unwrap();
    assert!(none.captures.is_empty());
    assert_eq!(none.pieces, strings(&["xyz"]));
}

#[test]
fn search_refuses_a_broken_pattern() {
    assert!(search("(", "text").is_none());
}

#[test]
fn found_matches_are_replaced_in_place() {
    let found = Matches {
        captures: vec![strings(&["<h1>A<", "1", "A"]), strings(&["<h2>B c<", "2", "B c"])],
        pieces: strings(&["", "/h1>", "/h2>"]),
    };
    assert_eq!(inject_heading_ids(&found), "<h1 id=\"a\">A</h1><h2 id=\"b-c\">B c</h2>");
    let nested = Matches {
        captures: vec![strings(&["<h2>a<", "2", "a"])],
        pieces: strings(&["", "b>x</b></h2>"]),
    };
    assert_eq!(inject_heading_ids(&nested), "<h2>a<b>x</b></h2>");
    let languages = Matches {
        captures: vec![strings(&["language-a b", "a b"])],
        pieces: strings(&["x ", ""]),
    };
    assert_eq!(rewrite_languages(&languages), "x language-a tab-a highlight");
    let tags = Matches {
        captures: vec![strings(&["t", " ", "k", ""])],
        pieces: strings(&["<p>", "z"]),
    };
    assert_eq!(rewrite_code_tags(&tags), "<p><pre class=\"k\"><code >z");
}
