//! Markdown to HTML.

use vstd::prelude::*;

verus! {

/// The HTML that `pulldown_cmark::html::push_html` writes for a text, read
/// by `pulldown_cmark::Parser::new_ext` with every extension switched on.
pub uninterp spec fn markdown_html(text: Seq<char>) -> Seq<char>;

/// Renders markdown with `pulldown_cmark`: the text is parsed with all
/// of `pulldown_cmark::Options` and the events are written as HTML into
/// an empty string. The result depends on the text alone.
#[verifier::external_body]
pub(crate) fn render_markdown(text: &str) -> (html: String)
    ensures
        html@ == markdown_html(text@),
{
    let mut html = String::new();
    let parser = pulldown_cmark::Parser::new_ext(text, pulldown_cmark::Options::all());
    pulldown_cmark::html::push_html(&mut html, parser);
    html
}

/// What the documentation shows for a comment: its HTML, or nothing
/// where there is no comment.
pub open spec fn rendered(doc: Option<Seq<char>>) -> Seq<char> {
    match doc {
        Some(text) => markdown_html(text),
        None => Seq::empty(),
    }
}

/// A comment as it was written, or nothing where there is none.
pub open spec fn raw(doc: Option<Seq<char>>) -> Seq<char> {
    match doc {
        Some(text) => text,
        None => Seq::empty(),
    }
}

/// What the documentation shows for a comment.
pub fn render_doc(doc: &Option<String>) -> (html: String)
    ensures
        html@ == rendered(doc.deep_view()),
{
    match doc {
        Some(text) => render_markdown(text.as_str()),
        None => String::new(),
    }
}

/// A comment as it was written.
pub fn raw_doc(doc: &Option<String>) -> (text: String)
    ensures
        text@ == raw(doc.deep_view()),
{
    match doc {
        Some(text) => text.clone(),
        None => String::new(),
    }
}

} // verus!
