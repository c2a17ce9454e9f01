//! Markdown to HTML, by `pulldown-cmark`.

use vstd::prelude::*;

verus! {

/// The HTML that `pulldown-cmark` renders for a Markdown text with every
/// extension it knows switched on.
pub uninterp spec fn markdown_html(text: Seq<char>) -> Seq<char>;

/// Renders Markdown as HTML.
///
/// Trusted: the body reads `text` with `pulldown_cmark::Parser::new_ext` under
/// `pulldown_cmark::Options::all()` and writes the events it yields with
/// `pulldown_cmark::html::push_html`. The contract claims only that the
/// output is a function of the text: neither the parser nor the writer read
/// anything else, and neither fails on any input.
#[verifier::external_body]
pub(crate) fn render_markdown(text: &str) -> (html: String)
    ensures
        html@ == markdown_html(text@),
{
    let parser = pulldown_cmark::Parser::new_ext(text, pulldown_cmark::Options::all());
    let mut html = String::new();
    pulldown_cmark::html::push_html(&mut html, parser);
    html
}

} // verus!
