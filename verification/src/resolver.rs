//! Resolution of a request path against the served root.
//!
//! Resolution needs the file system five times at most: for the canonical
//! form of the root, for up to three candidates, and for the canonical form
//! of the candidate that matched. A [`Resolver`] is the state between two of
//! these: it says what it needs to know next, and moves on with the answer.

use vstd::prelude::*;
use vstd::slice::slice_to_vec;
use vstd::string::StringSliceAdditionalSpecFns;
use crate::path::join;
use crate::path::joined;
use crate::path::extension_replaced;
use crate::path::lies_within;
use crate::path::starts_with;
use crate::path::trim_leading_separators;
use crate::path::with_extension;
use crate::path::without_leading_separators;
use crate::probe::copy_of;
use crate::probe::Answer;
use crate::probe::AnswerView;
use crate::probe::Question;
use crate::probe::QuestionView;

pub mod laws;

verus! {

/// Why a request path did not resolve to a file.
#[derive(Clone, Copy, Debug, PartialEq, Eq, Structural)]
pub enum Failure {
    /// Neither the path nor one of its fallbacks exists.
    NotFound,
    /// The match lies outside the served root, or has no canonical form.
    Forbidden,
    /// The served root has no canonical form, or the file system gave an
    /// answer that makes no sense.
    Internal,
}

/// A failed resolution: its kind, and what the system said where it said
/// anything. The detail is for the server's own eyes.
#[derive(Clone, Debug, PartialEq, Eq)]
pub struct Rejection {
    pub kind: Failure,
    pub detail: Option<String>,
}

/// The mathematical value of a [`Rejection`].
pub struct RejectionView {
    pub kind: Failure,
    pub detail: Option<Seq<char>>,
}

impl View for Rejection {
    type V = RejectionView;

    open spec fn view(&self) -> RejectionView {
        RejectionView {
            kind: self.kind,
            detail: match self.detail {
                Some(text) => Some(text@),
                None => None,
            },
        }
    }
}

impl RejectionView {
    /// Whether the rejection speaks of a path that led out of the root: it is
    /// forbidden, and not because the system failed.
    pub open spec fn is_escape(self) -> bool {
        self.kind == Failure::Forbidden && self.detail is None
    }
}

impl Rejection {
    /// Whether the request looks like an attempt to leave the root, which is
    /// worth a warning: its match has a canonical form outside the root.
    pub fn suspects_traversal(&self) -> (suspect: bool)
        ensures
            suspect == self@.is_escape(),
    {
        match (self.kind, &self.detail) {
            (Failure::Forbidden, None) => true,
            _ => false,
        }
    }
}

/// The outcome of a resolution.
#[derive(Clone, Debug, PartialEq, Eq)]
pub enum Resolution {
    /// The canonical path of the file to serve.
    Found(Vec<u8>),
    /// No file is served.
    Rejected(Rejection),
}

/// The mathematical value of a [`Resolution`].
pub enum ResolutionView {
    Found(Seq<u8>),
    Rejected(RejectionView),
}

impl View for Resolution {
    type V = ResolutionView;

    open spec fn view(&self) -> ResolutionView {
        match *self {
            Resolution::Found(path) => ResolutionView::Found(path@),
            Resolution::Rejected(rejection) => ResolutionView::Rejected(rejection@),
        }
    }
}

/// Which form of the candidate is being tried.
#[derive(Clone, Copy, Debug, PartialEq, Eq, Structural)]
pub enum Attempt {
    /// The candidate as it stands; it must be a regular file.
    Exact,
    /// The candidate with the extension `html`; it must exist.
    Html,
    /// The candidate with the extension `htm`; it must exist.
    Htm,
}

/// A resolution under way.
#[derive(Clone, Debug, PartialEq, Eq)]
pub enum Resolver {
    /// Waiting for the canonical form of `root`.
    Root { root: Vec<u8>, relative: Vec<u8> },
    /// Waiting to hear whether the current form of `candidate` is there.
    Search { root: Vec<u8>, candidate: Vec<u8>, attempt: Attempt },
    /// Waiting for the canonical form of the candidate that matched.
    Confirm { root: Vec<u8>, matched: Vec<u8> },
    /// Finished.
    Done(Resolution),
}

/// The mathematical value of a [`Resolver`].
pub enum ResolverView {
    Root { root: Seq<u8>, relative: Seq<u8> },
    Search { root: Seq<u8>, candidate: Seq<u8>, attempt: Attempt },
    Confirm { root: Seq<u8>, matched: Seq<u8> },
    Done(ResolutionView),
}

impl View for Resolver {
    type V = ResolverView;

    open spec fn view(&self) -> ResolverView {
        match *self {
            Resolver::Root { root, relative } => ResolverView::Root {
                root: root@,
                relative: relative@,
            },
            Resolver::Search { root, candidate, attempt } => ResolverView::Search {
                root: root@,
                candidate: candidate@,
                attempt,
            },
            Resolver::Confirm { root, matched } => ResolverView::Confirm {
                root: root@,
                matched: matched@,
            },
            Resolver::Done(resolution) => ResolverView::Done(resolution@),
        }
    }
}

/// The document that an empty request path stands for.
pub open spec fn default_document() -> Seq<u8> {
    "index.html".spec_bytes()
}

/// The extension of the first fallback.
pub open spec fn html() -> Seq<u8> {
    "html".spec_bytes()
}

/// The extension of the second fallback.
pub open spec fn htm() -> Seq<u8> {
    "htm".spec_bytes()
}

/// What the server says of a request for which no candidate exists.
pub open spec fn missing_detail() -> Seq<char> {
    "File not found."@
}

/// The path below the root that a request path asks for: the request path
/// without its leading separators, or the default document where nothing is
/// left of it.
pub open spec fn relative_request(raw: Seq<u8>) -> Seq<u8> {
    let rest = without_leading_separators(raw);
    if rest.len() == 0 {
        default_document()
    } else {
        rest
    }
}

/// The path that an attempt tries.
pub open spec fn attempt_path(candidate: Seq<u8>, attempt: Attempt) -> Seq<u8> {
    match attempt {
        Attempt::Exact => candidate,
        Attempt::Html => extension_replaced(candidate, html()),
        Attempt::Htm => extension_replaced(candidate, htm()),
    }
}

/// What an attempt needs to know of its path.
pub open spec fn attempt_question(candidate: Seq<u8>, attempt: Attempt) -> QuestionView {
    match attempt {
        Attempt::Exact => QuestionView::IsFile(candidate),
        Attempt::Html => QuestionView::Exists(attempt_path(candidate, attempt)),
        Attempt::Htm => QuestionView::Exists(attempt_path(candidate, attempt)),
    }
}

/// A finished resolution that serves nothing.
pub open spec fn rejected(kind: Failure, detail: Option<Seq<char>>) -> ResolverView {
    ResolverView::Done(ResolutionView::Rejected(RejectionView { kind, detail }))
}

/// The state in which the resolution of `raw` against `root` starts.
pub open spec fn start(root: Seq<u8>, raw: Seq<u8>) -> ResolverView {
    ResolverView::Root { root, relative: relative_request(raw) }
}

/// What a resolver needs to know next; nothing once it is done.
pub open spec fn pending(state: ResolverView) -> Option<QuestionView> {
    match state {
        ResolverView::Root { root, .. } => Some(QuestionView::Canonicalize(root)),
        ResolverView::Search { candidate, attempt, .. } => Some(
            attempt_question(candidate, attempt),
        ),
        ResolverView::Confirm { matched, .. } => Some(QuestionView::Canonicalize(matched)),
        ResolverView::Done(_) => None,
    }
}

/// The state after the answer on the canonical form of the root. With the
/// canonical root the candidate is formed, and the search starts. A root
/// without a canonical form is a fault of the server.
pub open spec fn after_root(relative: Seq<u8>, answer: AnswerView) -> ResolverView {
    match answer {
        AnswerView::Bytes(root) => ResolverView::Search {
            root,
            candidate: joined(root, relative),
            attempt: Attempt::Exact,
        },
        AnswerView::Failed(text) => rejected(Failure::Internal, Some(text)),
        AnswerView::Flag(_) => rejected(Failure::Internal, None),
    }
}

/// The state after the answer on one attempt. A path that is there is the
/// match. One that is not gives way to the next attempt, and after the last
/// attempt nothing was found.
pub open spec fn after_attempt(
    root: Seq<u8>,
    candidate: Seq<u8>,
    attempt: Attempt,
    answer: AnswerView,
) -> ResolverView {
    match answer {
        AnswerView::Flag(there) => if there {
            ResolverView::Confirm { root, matched: attempt_path(candidate, attempt) }
        } else {
            match attempt {
                Attempt::Exact => ResolverView::Search { root, candidate, attempt: Attempt::Html },
                Attempt::Html => ResolverView::Search { root, candidate, attempt: Attempt::Htm },
                Attempt::Htm => rejected(Failure::NotFound, Some(missing_detail())),
            }
        },
        AnswerView::Failed(text) => rejected(Failure::Internal, Some(text)),
        AnswerView::Bytes(_) => rejected(Failure::Internal, None),
    }
}

/// The state after the answer on the canonical form of the match. The match
/// is served only if its canonical form lies within the canonical root.
pub open spec fn after_match(root: Seq<u8>, answer: AnswerView) -> ResolverView {
    match answer {
        AnswerView::Bytes(canonical) => if lies_within(canonical, root) {
            ResolverView::Done(ResolutionView::Found(canonical))
        } else {
            rejected(Failure::Forbidden, None)
        },
        AnswerView::Failed(text) => rejected(Failure::Forbidden, Some(text)),
        AnswerView::Flag(_) => rejected(Failure::Internal, None),
    }
}

/// The state that follows `state` on `answer`. A finished resolver stays as
/// it is.
pub open spec fn next(state: ResolverView, answer: AnswerView) -> ResolverView {
    match state {
        ResolverView::Root { relative, .. } => after_root(relative, answer),
        ResolverView::Search { root, candidate, attempt } => after_attempt(
            root,
            candidate,
            attempt,
            answer,
        ),
        ResolverView::Confirm { root, .. } => after_match(root, answer),
        ResolverView::Done(resolution) => ResolverView::Done(resolution),
    }
}

/// A finished resolver that serves nothing.
fn reject(kind: Failure, detail: Option<String>) -> (resolver: Resolver)
    ensures
        resolver@ == rejected(
            kind,
            match detail {
                Some(text) => Some(text@),
                None => None,
            },
        ),
{
    Resolver::Done(Resolution::Rejected(Rejection { kind, detail }))
}

/// The path below the root that `raw` asks for.
pub fn request_target(raw: &[u8]) -> (relative: Vec<u8>)
    ensures
        relative@ == relative_request(raw@),
{
    let rest = trim_leading_separators(raw);
    if rest.len() == 0 {
        slice_to_vec("index.html".as_bytes())
    } else {
        slice_to_vec(rest)
    }
}

/// The path that `attempt` tries for `candidate`.
pub fn path_to_try(candidate: &[u8], attempt: Attempt) -> (path: Vec<u8>)
    ensures
        path@ == attempt_path(candidate@, attempt),
{
    match attempt {
        Attempt::Exact => slice_to_vec(candidate),
        Attempt::Html => with_extension(candidate, "html".as_bytes()),
        Attempt::Htm => with_extension(candidate, "htm".as_bytes()),
    }
}

/// Starts the resolution of `requested_path` against the served root.
pub fn resolve_path(root: &[u8], requested_path: &[u8]) -> (resolver: Resolver)
    ensures
        resolver@ == start(root@, requested_path@),
{
    Resolver::Root { root: slice_to_vec(root), relative: request_target(requested_path) }
}

/// Goes on from the answer on the canonical form of the served root.
pub fn canonicalise_base_dir(relative: Vec<u8>, answer: Answer) -> (resolver: Resolver)
    ensures
        resolver@ == after_root(relative@, answer@),
{
    match answer {
        Answer::Bytes(root) => {
            let candidate = join(root.as_slice(), relative.as_slice());
            Resolver::Search { root, candidate, attempt: Attempt::Exact }
        },
        Answer::Failed(text) => reject(Failure::Internal, Some(text)),
        Answer::Flag(_) => reject(Failure::Internal, None),
    }
}

/// Goes on from the answer on one attempt of the search.
pub fn files_search(root: Vec<u8>, candidate: Vec<u8>, attempt: Attempt, answer: Answer) -> (resolver:
    Resolver)
    ensures
        resolver@ == after_attempt(root@, candidate@, attempt, answer@),
{
    match answer {
        Answer::Flag(there) => {
            if there {
                let matched = path_to_try(candidate.as_slice(), attempt);
                Resolver::Confirm { root, matched }
            } else {
                match attempt {
                    Attempt::Exact => Resolver::Search { root, candidate, attempt: Attempt::Html },
                    Attempt::Html => Resolver::Search { root, candidate, attempt: Attempt::Htm },
                    Attempt::Htm => reject(Failure::NotFound, Some("File not found.".to_owned())),
                }
            }
        },
        Answer::Failed(text) => reject(Failure::Internal, Some(text)),
        Answer::Bytes(_) => reject(Failure::Internal, None),
    }
}

/// Goes on from the answer on the canonical form of the match: the
/// containment check.
pub fn confirm_match(root: Vec<u8>, answer: Answer) -> (resolver: Resolver)
    ensures
        resolver@ == after_match(root@, answer@),
{
    match answer {
        Answer::Bytes(canonical) => {
            if starts_with(canonical.as_slice(), root.as_slice()) {
                Resolver::Done(Resolution::Found(canonical))
            } else {
                reject(Failure::Forbidden, None)
            }
        },
        Answer::Failed(text) => reject(Failure::Forbidden, Some(text)),
        Answer::Flag(_) => reject(Failure::Internal, None),
    }
}

impl Resolver {
    /// What the resolver needs to know next, or `None` once it is done.
    pub fn question(&self) -> (question: Option<Question>)
        ensures
            match question {
                Some(q) => pending(self@) == Some(q@),
                None => pending(self@) is None,
            },
    {
        match self {
            Resolver::Root { root, .. } => Some(Question::Canonicalize(copy_of(root))),
            Resolver::Search { candidate, attempt, .. } => {
                let path = path_to_try(candidate.as_slice(), *attempt);
                match attempt {
                    Attempt::Exact => Some(Question::IsFile(path)),
                    Attempt::Html => Some(Question::Exists(path)),
                    Attempt::Htm => Some(Question::Exists(path)),
                }
            },
            Resolver::Confirm { matched, .. } => Some(Question::Canonicalize(copy_of(matched))),
            Resolver::Done(_) => None,
        }
    }

    /// Moves on with the answer to the pending question.
    pub fn advance(self, answer: Answer) -> (resolver: Resolver)
        ensures
            resolver@ == next(self@, answer@),
    {
        match self {
            Resolver::Root { relative, .. } => canonicalise_base_dir(relative, answer),
            Resolver::Search { root, candidate, attempt } => files_search(
                root,
                candidate,
                attempt,
                answer,
            ),
            Resolver::Confirm { root, .. } => confirm_match(root, answer),
            Resolver::Done(resolution) => Resolver::Done(resolution),
        }
    }
}

} // verus!
