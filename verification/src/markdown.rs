//! Markdown to HTML, done by `pulldown_cmark`: whole chapter bodies, and the
//! short labels of the table of contents, for which only inline pieces of the
//! text are kept.

use vstd::prelude::*;
use pulldown_cmark::{html, Event, Parser};

verus! {

/// The kinds of Markdown event that the choice of label pieces tells apart.
#[derive(Clone, Copy, Debug, PartialEq, Eq, Structural)]
pub enum EventKind {
    /// Plain text.
    Text,
    /// An inline code span.
    Code,
    /// Raw HTML.
    Html,
    /// Anything else: the start or end of an element, a break, a rule, a
    /// footnote reference, a task marker.
    Other,
}

/// Name for the HTML that `pulldown_cmark::html::push_html` writes for the
/// events of `pulldown_cmark::Parser::new` on a text.
pub uninterp spec fn markdown_html(text: Seq<char>) -> Seq<char>;

/// Name for the HTML that `pulldown_cmark::html::push_html` writes for those
/// events of `pulldown_cmark::Parser::new` on a text that `keeps_event`
/// keeps.
pub uninterp spec fn label_html(text: Seq<char>, keep_html: bool) -> Seq<char>;

/// Which events make up a label: text and inline code always, raw HTML only
/// where the caller asks for it, nothing structural.
pub open spec fn label_keeps(kind: EventKind, keep_html: bool) -> bool {
    match kind {
        EventKind::Text => true,
        EventKind::Code => true,
        EventKind::Html => keep_html,
        EventKind::Other => false,
    }
}

/// Decides whether an event of the given kind is part of a label.
pub fn keeps_event(kind: EventKind, keep_html: bool) -> (keep: bool)
    ensures
        keep == label_keeps(kind, keep_html),
{
    match kind {
        EventKind::Text => true,
        EventKind::Code => true,
        EventKind::Html => keep_html,
        EventKind::Other => false,
    }
}

/// `Parser::new` and `html::push_html` of pulldown_cmark: parses the text
/// with no extension switched on and writes the HTML of all its events. The
/// result is a function of the text alone.
#[verifier::external_body]
fn render_events(text: &str) -> (out: String)
    ensures
        out@ == markdown_html(text@),
{
    let mut out = String::new();
    html::push_html(&mut out, Parser::new(text));
    out
}

/// `Parser::new`, `Iterator::filter` and `html::push_html`: parses the text,
/// keeps the events that `keeps_event` accepts and writes their HTML. The
/// result is a function of the text and of the flag.
#[verifier::external_body]
fn render_kept_events(text: &str, keep_html: bool) -> (out: String)
    ensures
        out@ == label_html(text@, keep_html),
{
    let events = Parser::new(text).filter(|event| {
        let kind = match event {
            Event::Text(_) => EventKind::Text,
            Event::Code(_) => EventKind::Code,
            Event::Html(_) => EventKind::Html,
            Event::Start(_) | Event::End(_) | Event::FootnoteReference(_) => EventKind::Other,
            Event::SoftBreak | Event::HardBreak | Event::Rule => EventKind::Other,
            Event::TaskListMarker(_) => EventKind::Other,
        };
        keeps_event(kind, keep_html)
    });
    let mut out = String::new();
    html::push_html(&mut out, events);
    out
}

/// Converts a chapter's Markdown into HTML.
pub fn to_html(markdown: &str) -> (out: String)
    ensures
        out@ == markdown_html(markdown@),
{
    render_events(markdown)
}

/// Converts a chapter's display name into the label of its link: the inline
/// pieces of the name only, so that no block wrapper ends up inside the
/// anchor. `keep_html` says whether raw HTML in the name is passed through.
pub fn to_label(name: &str, keep_html: bool) -> (out: String)
    ensures
        out@ == label_html(name@, keep_html),
{
    render_kept_events(name, keep_html)
}

} // verus!
