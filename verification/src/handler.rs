//! The handling of one request, from its path to the reply.
//!
//! An [`Exchange`] resolves the request path, asks for the content of the
//! file that was found, and ends with the reply. Like a resolver it states
//! what it needs to know of the file system and moves on with the answer.

use vstd::prelude::*;
use crate::config::Config;
use crate::config::Mode;
use crate::probe::copy_of;
use crate::probe::Answer;
use crate::probe::AnswerView;
use crate::probe::Question;
use crate::probe::QuestionView;
use crate::resolver::resolve_path;
use crate::resolver::start;
use crate::resolver::Failure;
use crate::resolver::Rejection;
use crate::resolver::RejectionView;
use crate::resolver::Resolution;
use crate::resolver::ResolutionView;
use crate::resolver::Resolver;
use crate::resolver::ResolverView;
use crate::response::failure_response;
use crate::response::failure_response_of;
use crate::response::file_response;
use crate::response::file_response_of;
use crate::response::Response;
use crate::response::ResponseView;

pub mod laws;

verus! {

/// What the server does about a request: the response that it sends, and the
/// failure behind it where there was one. The failure is for the server's
/// own record; only the response goes to the client.
#[derive(Clone, Debug, PartialEq, Eq)]
pub struct Reply {
    pub response: Response,
    pub failure: Option<Rejection>,
}

/// The mathematical value of a [`Reply`].
pub struct ReplyView {
    pub response: ResponseView,
    pub failure: Option<RejectionView>,
}

impl View for Reply {
    type V = ReplyView;

    open spec fn view(&self) -> ReplyView {
        ReplyView {
            response: self.response@,
            failure: match self.failure {
                Some(rejection) => Some(rejection@),
                None => None,
            },
        }
    }
}

/// The handling of a request under way.
#[derive(Clone, Debug, PartialEq, Eq)]
pub enum Exchange {
    /// The request path is being resolved.
    Resolving { resolver: Resolver, mode: Mode },
    /// Waiting for the content of the file at `path`.
    Reading { path: Vec<u8>, mode: Mode },
    /// Finished.
    Done(Reply),
}

/// The mathematical value of an [`Exchange`].
pub enum ExchangeView {
    Resolving { resolver: ResolverView, mode: Mode },
    Reading { path: Seq<u8>, mode: Mode },
    Done(ReplyView),
}

impl View for Exchange {
    type V = ExchangeView;

    open spec fn view(&self) -> ExchangeView {
        match *self {
            Exchange::Resolving { resolver, mode } => ExchangeView::Resolving {
                resolver: resolver@,
                mode,
            },
            Exchange::Reading { path, mode } => ExchangeView::Reading { path: path@, mode },
            Exchange::Done(reply) => ExchangeView::Done(reply@),
        }
    }
}

impl ExchangeView {
    /// An exchange that is still resolving holds a resolver that is not done:
    /// once the resolver is done the exchange has moved on.
    pub open spec fn well_formed(self) -> bool {
        self matches ExchangeView::Resolving { resolver, .. } ==> !(resolver is Done)
    }
}

/// The reply to a request that failed.
pub open spec fn failure_reply(rejection: RejectionView, mode: Mode) -> ReplyView {
    ReplyView { response: failure_response_of(rejection, mode), failure: Some(rejection) }
}

/// The reply to a request whose file was found, given what reading it
/// brought. A file that cannot be read any more is not found.
pub open spec fn read_reply(path: Seq<u8>, mode: Mode, read: AnswerView) -> ReplyView {
    match read {
        AnswerView::Bytes(content) => ReplyView {
            response: file_response_of(path, content),
            failure: None,
        },
        AnswerView::Failed(text) => failure_reply(
            RejectionView { kind: Failure::NotFound, detail: Some(text) },
            mode,
        ),
        AnswerView::Flag(_) => failure_reply(
            RejectionView { kind: Failure::Internal, detail: None },
            mode,
        ),
    }
}

/// The exchange that goes with a resolver: once the resolver is done, the
/// exchange reads the file that it found, or ends with its failure.
pub open spec fn settled(resolver: ResolverView, mode: Mode) -> ExchangeView {
    match resolver {
        ResolverView::Done(ResolutionView::Found(path)) => ExchangeView::Reading { path, mode },
        ResolverView::Done(ResolutionView::Rejected(rejection)) => ExchangeView::Done(
            failure_reply(rejection, mode),
        ),
        _ => ExchangeView::Resolving { resolver, mode },
    }
}

/// The state in which the handling of a request for `uri_path` starts.
pub open spec fn begin(root: Seq<u8>, mode: Mode, uri_path: Seq<u8>) -> ExchangeView {
    ExchangeView::Resolving { resolver: start(root, uri_path), mode }
}

/// What an exchange needs to know next; nothing once it is done.
pub open spec fn pending(state: ExchangeView) -> Option<QuestionView> {
    match state {
        ExchangeView::Resolving { resolver, .. } => crate::resolver::pending(resolver),
        ExchangeView::Reading { path, .. } => Some(QuestionView::Read(path)),
        ExchangeView::Done(_) => None,
    }
}

/// The state that follows `state` on `answer`. A finished exchange stays as
/// it is.
pub open spec fn next(state: ExchangeView, answer: AnswerView) -> ExchangeView {
    match state {
        ExchangeView::Resolving { resolver, mode } => settled(
            crate::resolver::next(resolver, answer),
            mode,
        ),
        ExchangeView::Reading { path, mode } => ExchangeView::Done(read_reply(path, mode, answer)),
        ExchangeView::Done(reply) => ExchangeView::Done(reply),
    }
}

/// The reply to a request that failed.
pub fn reply_to_failure(rejection: Rejection, mode: Mode) -> (reply: Reply)
    ensures
        reply@ == failure_reply(rejection@, mode),
{
    let response = failure_response(&rejection, mode);
    Reply { response, failure: Some(rejection) }
}

/// The reply to a request whose file was found, given what reading it
/// brought.
pub fn reply_to_read(path: &[u8], mode: Mode, read: Answer) -> (reply: Reply)
    ensures
        reply@ == read_reply(path@, mode, read@),
{
    match read {
        Answer::Bytes(content) => Reply { response: file_response(path, content), failure: None },
        Answer::Failed(text) => reply_to_failure(
            Rejection { kind: Failure::NotFound, detail: Some(text) },
            mode,
        ),
        Answer::Flag(_) => reply_to_failure(
            Rejection { kind: Failure::Internal, detail: None },
            mode,
        ),
    }
}

/// The exchange that goes with `resolver`.
pub fn settle(resolver: Resolver, mode: Mode) -> (exchange: Exchange)
    ensures
        exchange@ == settled(resolver@, mode),
{
    match resolver {
        Resolver::Done(Resolution::Found(path)) => Exchange::Reading { path, mode },
        Resolver::Done(Resolution::Rejected(rejection)) => Exchange::Done(
            reply_to_failure(rejection, mode),
        ),
        resolver => Exchange::Resolving { resolver, mode },
    }
}

/// Starts the handling of a request for `uri_path`, the path component of
/// the request's URI.
pub fn respond(config: &Config, uri_path: &[u8]) -> (exchange: Exchange)
    ensures
        exchange@ == begin(config.root@, config.mode, uri_path@),
        exchange@.well_formed(),
{
    Exchange::Resolving {
        resolver: resolve_path(config.root.as_slice(), uri_path),
        mode: config.mode,
    }
}

impl Exchange {
    /// What the exchange needs to know next, or `None` once it is done.
    pub fn question(&self) -> (question: Option<Question>)
        ensures
            match question {
                Some(q) => pending(self@) == Some(q@),
                None => pending(self@) is None,
            },
    {
        match self {
            Exchange::Resolving { resolver, .. } => resolver.question(),
            Exchange::Reading { path, .. } => Some(Question::Read(copy_of(path))),
            Exchange::Done(_) => None,
        }
    }

    /// Moves on with the answer to the pending question.
    pub fn advance(self, answer: Answer) -> (exchange: Exchange)
        ensures
            exchange@ == next(self@, answer@),
            exchange@.well_formed(),
    {
        match self {
            Exchange::Resolving { resolver, mode } => settle(resolver.advance(answer), mode),
            Exchange::Reading { path, mode } => Exchange::Done(
                reply_to_read(path.as_slice(), mode, answer),
            ),
            Exchange::Done(reply) => Exchange::Done(reply),
        }
    }
}

} // verus!
