//! What a request is answered with: a status, a kind of content and a body.

use vstd::prelude::*;

verus! {

/// The status of an answer.
#[derive(Clone, Copy, Debug, PartialEq, Eq, Structural)]
pub enum Status {
    Success,
    NotFound,
    ServerError,
}

impl Status {
    /// The number that stands for the status on the wire.
    pub open spec fn spec_code(self) -> u16 {
        match self {
            Status::Success => 200,
            Status::NotFound => 404,
            Status::ServerError => 500,
        }
    }

    /// The number that stands for the status on the wire.
    #[verifier::when_used_as_spec(spec_code)]
    pub fn code(self) -> (code: u16)
        ensures
            code == self.spec_code(),
    {
        match self {
            Status::Success => 200,
            Status::NotFound => 404,
            Status::ServerError => 500,
        }
    }
}

/// The kind of content that a body holds.
#[derive(Clone, Copy, Debug, PartialEq, Eq, Structural)]
pub enum ContentType {
    /// A rendered view, `text/html`.
    Html,
    /// A message in plain words, `text/plain`.
    Plain,
}

impl ContentType {
    /// The name of the kind as it is written in a header.
    pub open spec fn spec_mime(self) -> Seq<char> {
        match self {
            ContentType::Html => "text/html"@,
            ContentType::Plain => "text/plain"@,
        }
    }

    /// The name of the kind as it is written in a header.
    pub fn mime(self) -> (name: &'static str)
        ensures
            name@ == self.spec_mime(),
    {
        match self {
            ContentType::Html => "text/html",
            ContentType::Plain => "text/plain",
        }
    }
}

/// An answer to a request.
#[derive(Debug, PartialEq, Eq)]
pub struct Response {
    pub status: Status,
    /// The kind of the body; `None` where the answer has no body.
    pub content_type: Option<ContentType>,
    pub body: String,
}

/// An answer, with its body as a sequence of characters.
pub ghost struct ResponseView {
    pub status: Status,
    pub content_type: Option<ContentType>,
    pub body: Seq<char>,
}

impl View for Response {
    type V = ResponseView;

    open spec fn view(&self) -> ResponseView {
        ResponseView { status: self.status, content_type: self.content_type, body: self.body@ }
    }
}

/// The answer to a request that failed inside: status 500 and nothing else,
/// so that no detail of the failure reaches the client.
pub open spec fn server_error() -> ResponseView {
    ResponseView {
        status: Status::ServerError,
        content_type: None,
        body: Seq::empty(),
    }
}

/// A message in plain words under `status`.
pub open spec fn plain_message(status: Status, text: Seq<char>) -> ResponseView {
    ResponseView { status, content_type: Some(ContentType::Plain), body: text }
}

/// A rendered view under `status`.
pub open spec fn html_page(status: Status, body: Seq<char>) -> ResponseView {
    ResponseView { status, content_type: Some(ContentType::Html), body }
}

/// The answer for a view that was to be shown under `status`: the view
/// itself where rendering gave one, and the bare failure where it did not.
pub open spec fn rendered_page(status: Status, rendered: Option<Seq<char>>) -> ResponseView {
    match rendered {
        Some(body) => html_page(status, body),
        None => server_error(),
    }
}

impl Response {
    /// The answer to a request that failed inside.
    pub fn server_error() -> (response: Response)
        ensures
            response@ == server_error(),
    {
        Response { status: Status::ServerError, content_type: None, body: String::new() }
    }

    /// A message in plain words under `status`.
    pub fn message(status: Status, text: String) -> (response: Response)
        ensures
            response@ == plain_message(status, text@),
    {
        Response { status, content_type: Some(ContentType::Plain), body: text }
    }

    /// A rendered view under `status`.
    pub fn page(status: Status, body: String) -> (response: Response)
        ensures
            response@ == html_page(status, body@),
    {
        Response { status, content_type: Some(ContentType::Html), body }
    }
}

} // verus!
