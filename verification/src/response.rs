//! The response handed back for a request from web content.

use vstd::prelude::*;

verus! {

/// A response: status code, content type and body.
#[derive(Debug)]
pub struct Response {
    pub status: u16,
    pub content_type: String,
    pub body: Vec<u8>,
}

/// A response as plain values.
pub struct ResponseView {
    pub status: u16,
    pub content_type: Seq<char>,
    pub body: Seq<u8>,
}

impl View for Response {
    type V = ResponseView;

    open spec fn view(&self) -> ResponseView {
        ResponseView { status: self.status, content_type: self.content_type@, body: self.body@ }
    }
}

/// The content type of every response that carries a message for a person.
pub open spec fn plain_text() -> Seq<char> {
    "text/plain"@
}

/// A plain-text response with the given status.
pub open spec fn text_response(status: u16, message: Seq<char>) -> ResponseView {
    ResponseView {
        status,
        content_type: plain_text(),
        body: vstd::utf8::encode_utf8(message),
    }
}

impl Response {
    /// A plain-text response: the body is the message in UTF-8.
    pub fn text(status: u16, message: &str) -> (response: Response)
        ensures
            response@ == text_response(status, message@),
    {
        Response {
            status,
            content_type: "text/plain".to_owned(),
            body: vstd::string::StrSliceExecFns::as_bytes_vec(message),
        }
    }
}

} // verus!
