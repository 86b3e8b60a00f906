//! HTTP responses as plain values: a status, headers and a body.

use vstd::prelude::*;
use vstd::utf8::encode_utf8;
use crate::config::Mode;
use crate::mime::content_type;
use crate::mime::content_type_of;
use crate::mime::is_visible_ascii;
use crate::mime::lemma_content_types_are_visible_ascii;
use crate::path::extension;
use crate::resolver::Failure;
use crate::resolver::Rejection;
use crate::resolver::RejectionView;

verus! {

/// The name of the header that carries the content type.
pub const CONTENT_TYPE: &'static str = "Content-Type";

/// The name of the header that says how long a response may be cached.
pub const CACHE_CONTROL: &'static str = "Cache-Control";

/// The name of the header that identifies the server.
pub const SERVER: &'static str = "Server";

/// Every file may be cached by anyone for an hour.
pub const CACHE_POLICY: &'static str = "public, max-age=3600";

/// How the server identifies itself.
pub const SERVER_NAME: &'static str = "Simple-Rust-Server/0.1";

/// What a client is told of a request that found nothing.
pub const NOT_FOUND_TEXT: &'static str = "File not found";

/// What a client is told of a request that may not be served.
pub const FORBIDDEN_TEXT: &'static str = "Access denied";

/// What a client is told where the server itself is at fault.
pub const INTERNAL_TEXT: &'static str = "Internal server error";

/// The status of a response.
#[derive(Clone, Copy, Debug, PartialEq, Eq, Structural)]
pub enum Status {
    /// 200: the file is served.
    Success,
    /// 403: the request may not be served.
    Forbidden,
    /// 404: nothing was found, or what was found could not be read.
    NotFound,
    /// 500: the server itself is at fault.
    InternalServerError,
}

impl Status {
    /// The number of the status.
    pub open spec fn number(self) -> u16 {
        match self {
            Status::Success => 200,
            Status::Forbidden => 403,
            Status::NotFound => 404,
            Status::InternalServerError => 500,
        }
    }

    /// The number of the status.
    pub fn code(self) -> (code: u16)
        ensures
            code == self.number(),
    {
        match self {
            Status::Success => 200,
            Status::Forbidden => 403,
            Status::NotFound => 404,
            Status::InternalServerError => 500,
        }
    }
}

/// One header of a response.
#[derive(Clone, Copy, Debug, PartialEq, Eq)]
pub struct Header {
    pub name: &'static str,
    pub value: &'static str,
}

impl View for Header {
    type V = (Seq<char>, Seq<char>);

    open spec fn view(&self) -> (Seq<char>, Seq<char>) {
        (self.name@, self.value@)
    }
}

/// A response, ready to be written out.
#[derive(Clone, Debug, PartialEq, Eq)]
pub struct Response {
    pub status: Status,
    pub headers: Vec<Header>,
    pub body: Vec<u8>,
}

/// The mathematical value of a [`Response`].
pub struct ResponseView {
    pub status: Status,
    pub headers: Seq<(Seq<char>, Seq<char>)>,
    pub body: Seq<u8>,
}

impl View for Response {
    type V = ResponseView;

    open spec fn view(&self) -> ResponseView {
        ResponseView {
            status: self.status,
            headers: Seq::new(self.headers@.len(), |i: int| self.headers@[i]@),
            body: self.body@,
        }
    }
}

/// The status that answers a failure of each kind.
pub open spec fn status_of(kind: Failure) -> Status {
    match kind {
        Failure::NotFound => Status::NotFound,
        Failure::Forbidden => Status::Forbidden,
        Failure::Internal => Status::InternalServerError,
    }
}

/// The fixed wording for a failure of each kind.
pub open spec fn wording(kind: Failure) -> Seq<char> {
    match kind {
        Failure::NotFound => NOT_FOUND_TEXT@,
        Failure::Forbidden => FORBIDDEN_TEXT@,
        Failure::Internal => INTERNAL_TEXT@,
    }
}

/// The text of an error: in development the main text, a colon, a space and
/// the underlying error; in production the main text alone.
pub open spec fn error_text_of(main_text: Seq<char>, err: Seq<char>, mode: Mode) -> Seq<char> {
    match mode {
        Mode::Development => main_text + ": "@ + err,
        Mode::Production => main_text,
    }
}

/// What the body of the response to a failure says.
pub open spec fn failure_text(rejection: RejectionView, mode: Mode) -> Seq<char> {
    match rejection.detail {
        Some(detail) => error_text_of(wording(rejection.kind), detail, mode),
        None => wording(rejection.kind),
    }
}

/// The response to a failure: the status of its kind, no headers, and its
/// text as the body.
pub open spec fn failure_response_of(rejection: RejectionView, mode: Mode) -> ResponseView {
    ResponseView {
        status: status_of(rejection.kind),
        headers: Seq::empty(),
        body: encode_utf8(failure_text(rejection, mode)),
    }
}

/// The headers that go with every file.
pub open spec fn file_headers(path: Seq<u8>) -> Seq<(Seq<char>, Seq<char>)> {
    seq![
        (CONTENT_TYPE@, content_type_of(extension(path))),
        (CACHE_CONTROL@, CACHE_POLICY@),
        (SERVER@, SERVER_NAME@),
    ]
}

/// The response that serves the file at `path`.
pub open spec fn file_response_of(path: Seq<u8>, content: Seq<u8>) -> ResponseView {
    ResponseView { status: Status::Success, headers: file_headers(path), body: content }
}

/// The status that answers a failure of the given kind.
pub fn status_for(kind: Failure) -> (status: Status)
    ensures
        status == status_of(kind),
{
    match kind {
        Failure::NotFound => Status::NotFound,
        Failure::Forbidden => Status::Forbidden,
        Failure::Internal => Status::InternalServerError,
    }
}

/// The fixed wording for a failure of the given kind.
pub fn wording_for(kind: Failure) -> (text: &'static str)
    ensures
        text@ == wording(kind),
{
    match kind {
        Failure::NotFound => NOT_FOUND_TEXT,
        Failure::Forbidden => FORBIDDEN_TEXT,
        Failure::Internal => INTERNAL_TEXT,
    }
}

/// The text of an error. Only in development does it carry the underlying
/// error.
pub fn error_text(main_text: String, err: &str, mode: Mode) -> (text: String)
    ensures
        text@ == error_text_of(main_text@, err@, mode),
{
    match mode {
        Mode::Development => main_text.concat(": ").concat(err),
        Mode::Production => main_text,
    }
}

/// The response to a failed resolution or a failed read.
pub fn failure_response(rejection: &Rejection, mode: Mode) -> (response: Response)
    ensures
        response@ == failure_response_of(rejection@, mode),
{
    let main_text = wording_for(rejection.kind).to_owned();
    let text = match &rejection.detail {
        Some(detail) => error_text(main_text, detail.as_str(), mode),
        None => main_text,
    };
    let response = Response {
        status: status_for(rejection.kind),
        headers: Vec::new(),
        body: text.as_str().as_bytes_vec(),
    };
    proof {
        assert(response@.headers =~= Seq::empty());
    }
    response
}

/// The response that serves `content` as the file at `path`.
pub fn file_response(path: &[u8], content: Vec<u8>) -> (response: Response)
    ensures
        response@ == file_response_of(path@, content@),
{
    let mut headers: Vec<Header> = Vec::new();
    headers.push(Header { name: CONTENT_TYPE, value: content_type(path) });
    headers.push(Header { name: CACHE_CONTROL, value: CACHE_POLICY });
    headers.push(Header { name: SERVER, value: SERVER_NAME });
    let response = Response { status: Status::Success, headers, body: content };
    proof {
        assert(response@.headers =~= file_headers(path@));
    }
    response
}

/// In production no response to a failure carries more than the fixed
/// wording of its kind, whatever the underlying error said.
pub proof fn lemma_production_hides_detail(rejection: RejectionView)
    ensures
        failure_response_of(rejection, Mode::Production).body == encode_utf8(
            wording(rejection.kind),
        ),
        failure_response_of(rejection, Mode::Production) == failure_response_of(
            RejectionView { kind: rejection.kind, detail: None },
            Mode::Production,
        ),
{
}

/// Only a served file has the status of success.
pub proof fn lemma_failure_is_no_success(rejection: RejectionView, mode: Mode)
    ensures
        failure_response_of(rejection, mode).status != Status::Success,
        failure_response_of(rejection, mode).status.number() >= 400,
{
}

/// Every header that goes with a file has a name and a value of visible
/// ASCII, so that it can be written out as it stands.
pub proof fn lemma_headers_are_visible_ascii(path: Seq<u8>, i: int)
    requires
        0 <= i < file_headers(path).len(),
    ensures
        is_visible_ascii(file_headers(path)[i].0),
        is_visible_ascii(file_headers(path)[i].1),
{
    lemma_content_types_are_visible_ascii(extension(path));
    reveal_strlit("Content-Type");
    reveal_strlit("Cache-Control");
    reveal_strlit("Server");
    reveal_strlit("public, max-age=3600");
    reveal_strlit("Simple-Rust-Server/0.1");
}

} // verus!
