//! The renderer: Markdown source in, HTML out.
use vstd::prelude::*;

verus! {

/// The HTML that `pulldown_cmark` produces for a CommonMark document parsed
/// with no extension enabled.
pub uninterp spec fn markdown_html(source: Seq<char>) -> Seq<char>;

/// Why a document could not be rendered.
#[derive(Clone, Copy, Debug, PartialEq, Eq, Structural)]
pub enum RenderError {
    /// The source cannot be interpreted as a document of the supported format.
    Uninterpretable,
}

/// Runs `pulldown_cmark::Parser::new` over `source` and collects what
/// `pulldown_cmark::html::push_html` writes for it into a fresh string.
///
/// Trusted: the result is the one HTML text that the parser and the writer
/// determine for `source`. Neither consults anything but its input, and the
/// crate documents no input on which they panic.
#[verifier::external_body]
fn push_markdown_html(source: &str) -> (html: String)
    ensures
        html@ == markdown_html(source@),
{
    let mut html = String::new();
    pulldown_cmark::html::push_html(&mut html, pulldown_cmark::Parser::new(source));
    html
}

/// Renders the full text of the watched document.
///
/// Rendering is deterministic and has no side effect. CommonMark gives every
/// text a meaning, so the result is always `Ok`; the error type is there for
/// the callers that treat rendering as a step that may fail.
pub fn render(source: &str) -> (rendered: Result<String, RenderError>)
    ensures
        rendered matches Ok(html) && html@ == markdown_html(source@),
{
    Ok(push_markdown_html(source))
}

} // verus!
