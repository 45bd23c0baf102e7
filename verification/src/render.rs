//! From the outcome of rendering a template to the answer that is sent.

use crate::reply::{
    ContentType, PageResponse, PageResponseView, STATUS_INTERNAL_SERVER_ERROR, STATUS_OK,
};
use vstd::prelude::*;

verus! {

/// The error that askama's `Template::render` fails with, `askama::Error`.
/// Nothing is claimed of what it holds: it is taken in, and its text is asked
/// for through `to_string`.
#[verifier::external_type_specification]
#[verifier::external_body]
pub struct ExRenderError(askama::Error);

/// Whether `text` is what `error` reads when it is displayed, that is, what
/// `to_string` gave for it.
pub open spec fn reads_as(error: askama::Error, text: String) -> bool {
    vstd::string::to_string_from_display_ensures::<askama::Error>(&error, text)
}

/// How the body of every answer to a failed rendering begins.
pub open spec fn failure_prefix() -> Seq<char> {
    "Failed to render template. Error: "@
}

/// The words by which an answer to a failed rendering is known.
pub open spec fn failure_notice() -> Seq<char> {
    "Failed to render template."@
}

/// Whether `needle` stands somewhere in `text`.
pub open spec fn occurs_in(needle: Seq<char>, text: Seq<char>) -> bool {
    exists|at: int|
        0 <= at && at + needle.len() <= text.len() && #[trigger] text.subrange(
            at,
            at + needle.len(),
        ) == needle
}

/// The answer that carries a rendered page.
pub open spec fn page_reply(html: Seq<char>) -> PageResponseView {
    PageResponseView { status: STATUS_OK as int, content_type: ContentType::Html, body: html }
}

/// The answer to a rendering that failed with an error that reads `detail`.
pub open spec fn failure_reply(detail: Seq<char>) -> PageResponseView {
    PageResponseView {
        status: STATUS_INTERNAL_SERVER_ERROR as int,
        content_type: ContentType::PlainText,
        body: failure_prefix() + detail,
    }
}

/// Wraps a rendered page for sending: status 200, marked as HTML, the body
/// untouched.
pub fn html_page(html: String) -> (response: PageResponse)
    ensures
        response@ == page_reply(html@),
        response.body == html,
{
    PageResponse { status: STATUS_OK, content_type: ContentType::Html, body: html }
}

/// Answers for a rendering that failed: status 500 and, in plain text, the
/// fixed opening followed by what the error reads.
pub fn render_failure(detail: &str) -> (response: PageResponse)
    ensures
        response@ == failure_reply(detail@),
{
    let mut body = "Failed to render template. Error: ".to_owned();
    body.append(detail);
    PageResponse {
        status: STATUS_INTERNAL_SERVER_ERROR,
        content_type: ContentType::PlainText,
        body,
    }
}

/// The outcome of rendering a template, on its way to becoming an answer.
pub struct HtmlTemplate(pub Result<String, askama::Error>);

impl HtmlTemplate {
    /// Turns the outcome into the answer: the page where rendering
    /// succeeded, else the failure answer built from what the error reads
    /// when displayed.
    pub fn into_response(self) -> (response: PageResponse)
        ensures
            match self.0 {
                Ok(html) => response@ == page_reply(html@),
                Err(error) => exists|detail: String|
                    #[trigger] reads_as(error, detail) && response@ == failure_reply(detail@),
            },
            self.0 is Err ==> response.status == STATUS_INTERNAL_SERVER_ERROR
                && response.content_type == ContentType::PlainText
                && failure_prefix().is_prefix_of(response.body@)
                && occurs_in(failure_notice(), response.body@),
    {
        match self.0 {
            Ok(html) => html_page(html),
            Err(error) => {
                let detail = error.to_string();
                proof {
                    assert(reads_as(error, detail));
                    lemma_render_failure_is_announced(detail@);
                }
                render_failure(detail.as_str())
            },
        }
    }
}

/// Every answer to a failed rendering has status 500, is plain text, and
/// holds the words "Failed to render template." in its body, whatever the
/// error reads.
pub proof fn lemma_render_failure_is_announced(detail: Seq<char>)
    ensures
        failure_reply(detail).status == STATUS_INTERNAL_SERVER_ERROR,
        failure_reply(detail).content_type == ContentType::PlainText,
        failure_prefix().is_prefix_of(failure_reply(detail).body),
        occurs_in(failure_notice(), failure_reply(detail).body),
{
    reveal_strlit("Failed to render template. Error: ");
    reveal_strlit("Failed to render template.");
    let body = failure_reply(detail).body;
    let notice = failure_notice();
    assert(body.subrange(0, 0 + notice.len() as int) =~= notice);
}

} // verus!
