//! What the endpoint answers.

use vstd::prelude::*;
use vstd::string::StringExecFns;

verus! {

/// The status of an answer that carries the service information.
pub const STATUS_OK: u16 = 200;

/// The status of an answer to a request that no route takes.
pub const STATUS_NOT_FOUND: u16 = 404;

/// The media type of a JSON body.
pub const JSON_MEDIA_TYPE: &'static str = "application/json";

/// An answer: the status, the media type of the body where there is one, and
/// the body.
#[derive(Debug, PartialEq, Eq)]
pub struct Response {
    pub status: u16,
    pub content_type: Option<String>,
    pub body: String,
}

/// The mathematical value of a [`Response`].
pub struct ResponseView {
    pub status: int,
    pub content_type: Option<Seq<char>>,
    pub body: Seq<char>,
}

impl View for Response {
    type V = ResponseView;

    open spec fn view(&self) -> ResponseView {
        ResponseView {
            status: self.status as int,
            content_type: match self.content_type {
                Some(media_type) => Some(media_type@),
                None => None,
            },
            body: self.body@,
        }
    }
}

/// The answer with status 200 that carries `body` as JSON.
pub open spec fn json_response(body: Seq<char>) -> ResponseView {
    ResponseView { status: 200, content_type: Some(JSON_MEDIA_TYPE@), body }
}

/// The answer with status 404: no media type and an empty body.
pub open spec fn not_found_response() -> ResponseView {
    ResponseView { status: 404, content_type: None, body: Seq::<char>::empty() }
}

impl Response {
    /// Answers with status 200 and `body` as a JSON body.
    pub fn json(body: String) -> (response: Response)
        ensures
            response@ == json_response(body@),
    {
        Response {
            status: STATUS_OK,
            content_type: Some(String::from_str(JSON_MEDIA_TYPE)),
            body,
        }
    }

    /// Answers with status 404 and nothing else.
    pub fn not_found() -> (response: Response)
        ensures
            response@ == not_found_response(),
    {
        Response { status: STATUS_NOT_FOUND, content_type: None, body: String::new() }
    }

    /// Whether the status is one of success, from 200 to 299.
    pub fn is_success(&self) -> (yes: bool)
        ensures
            yes == (200 <= self@.status < 300),
    {
        200 <= self.status && self.status < 300
    }
}

} // verus!
