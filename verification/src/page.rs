//! The answer to a request for the page that shows the preview.
use vstd::prelude::*;
use vstd::string::StringExecFns;

verus! {

/// The status of an answer that carries the page.
pub const STATUS_OK: u16 = 200;

/// The status of an answer that reports a failed template.
pub const STATUS_INTERNAL_SERVER_ERROR: u16 = 500;

/// What is sent back for the page: a status and a body.
#[derive(Debug)]
pub struct PageResponse {
    pub status: u16,
    /// The page as HTML on success, a plain message otherwise.
    pub body: String,
}

/// The body of the answer when filling in the page template failed with
/// `detail`.
pub open spec fn template_failure_text(detail: Seq<char>) -> Seq<char> {
    "Error: could not render template: "@ + detail
}

/// Turns the outcome of filling in the page template into the answer to
/// send: the page itself, or a server error that names what went wrong.
pub fn page_response(page: Result<String, String>) -> (response: PageResponse)
    ensures
        match page {
            Ok(html) => response.status == STATUS_OK && response.body@ == html@,
            Err(detail) => {
                &&& response.status == STATUS_INTERNAL_SERVER_ERROR
                &&& response.body@ == template_failure_text(detail@)
            },
        },
{
    match page {
        Ok(html) => PageResponse { status: STATUS_OK, body: html },
        Err(detail) => {
            let mut body = String::from_str("Error: could not render template: ");
            body.append(detail.as_str());
            PageResponse { status: STATUS_INTERNAL_SERVER_ERROR, body }
        },
    }
}

} // verus!
