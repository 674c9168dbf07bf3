//! Markdown rendered to HTML by the CommonMark library.

use vstd::prelude::*;

verus! {

/// The HTML that the CommonMark library renders for a markdown text.
pub uninterp spec fn html_of(markdown: Seq<char>) -> Seq<char>;

/// A failure to render markdown. Rendering takes every text, so no call
/// returns one.
#[derive(Clone, Copy, Debug, PartialEq, Eq, Structural)]
pub struct MarkdownError;

impl MarkdownError {
    /// The message of this error, as text.
    pub fn to_string(&self) -> (text: String)
        ensures
            text@ == "markdown could not be rendered"@,
    {
        String::from_str("markdown could not be rendered")
    }
}

/// Parses the text with `pulldown_cmark::Parser::new` and renders the events
/// with `pulldown_cmark::html::push_html` into an empty string. The outcome
/// depends on the text alone.
#[verifier::external_body]
fn render_html(markdown: &str) -> (html: String)
    ensures
        html@ == html_of(markdown@),
{
    let mut html = String::new();
    pulldown_cmark::html::push_html(&mut html, pulldown_cmark::Parser::new(markdown));
    html
}

/// Renders markdown as HTML. Every text is rendered.
pub fn parse(markdown: &str) -> (r: Result<String, MarkdownError>)
    ensures
        r matches Ok(html) && html@ == html_of(markdown@),
{
    Ok(render_html(markdown))
}

} // verus!
