//! Rendering of stored Markdown text as an HTML fragment.

use vstd::prelude::*;

verus! {

/// The HTML fragment that CommonMark rendering gives for a Markdown text.
pub uninterp spec fn markdown_html(markdown: Seq<char>) -> Seq<char>;

/// Renders Markdown text as HTML with `pulldown_cmark`: parses the text with
/// `Parser::new` (no extension enabled) and writes the events with
/// `html::push_html` into an empty string. The contract only gives the
/// outcome its name: the same text always renders to the same fragment.
#[verifier::external_body]
pub(crate) fn render_markdown(markdown: &str) -> (html: String)
    ensures
        html@ == markdown_html(markdown@),
{
    let mut html = String::new();
    pulldown_cmark::html::push_html(&mut html, pulldown_cmark::Parser::new(markdown));
    html
}

} // verus!
