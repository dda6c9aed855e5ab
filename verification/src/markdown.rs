//! Turning a tab's markdown text into HTML for the preview pane.

use vstd::prelude::*;

verus! {

/// The HTML that the markdown renderer produces for the given text.
pub uninterp spec fn html_of(text: Seq<char>) -> Seq<char>;

/// Relies on `pulldown_cmark::Parser::new` and
/// `pulldown_cmark::html::push_html`: parsing CommonMark and writing its
/// HTML depend on the input text alone.
#[verifier::external_body]
pub(crate) fn render_markdown(text: &str) -> (html: String)
    ensures
        html@ == html_of(text@),
{
    let parser = pulldown_cmark::Parser::new(text);
    let mut html = String::new();
    pulldown_cmark::html::push_html(&mut html, parser);
    html
}

} // verus!
