//! The start of the server: from the directory it was told to serve to the
//! configuration that every request is handled under.
//!
//! A server must not listen before its root is known to be a directory with a
//! canonical form. A [`Startup`] asks the two questions that settle this.

use vstd::prelude::*;
use crate::config::Config;
use crate::config::ConfigView;
use crate::config::Mode;
use crate::path::join;
use crate::path::joined;
use crate::probe::copy_of;
use crate::probe::Answer;
use crate::probe::AnswerView;
use crate::probe::FileSystem;
use crate::probe::Question;
use crate::probe::QuestionView;
use crate::resolver::Failure;
use crate::resolver::Rejection;
use crate::resolver::RejectionView;

verus! {

/// A start under way.
#[derive(Clone, Debug, PartialEq, Eq)]
pub enum Startup {
    /// Waiting for the canonical form of the directory that was given.
    Locating { given: Vec<u8>, mode: Mode, port: u16 },
    /// Waiting to hear whether the canonical root is a directory.
    Checking { root: Vec<u8>, mode: Mode, port: u16 },
    /// The server may listen.
    Ready(Config),
    /// The server must not listen.
    Failed(Rejection),
}

/// The mathematical value of a [`Startup`].
pub enum StartupView {
    Locating { given: Seq<u8>, mode: Mode, port: u16 },
    Checking { root: Seq<u8>, mode: Mode, port: u16 },
    Ready(ConfigView),
    Failed(RejectionView),
}

impl View for Startup {
    type V = StartupView;

    open spec fn view(&self) -> StartupView {
        match *self {
            Startup::Locating { given, mode, port } => StartupView::Locating {
                given: given@,
                mode,
                port,
            },
            Startup::Checking { root, mode, port } => StartupView::Checking {
                root: root@,
                mode,
                port,
            },
            Startup::Ready(config) => StartupView::Ready(config@),
            Startup::Failed(rejection) => StartupView::Failed(rejection@),
        }
    }
}

/// What the server says of a root that is no directory.
pub open spec fn not_a_directory() -> Seq<char> {
    "Not a directory"@
}

/// A start that failed for a fault of the server's own setting.
pub open spec fn failed(detail: Option<Seq<char>>) -> StartupView {
    StartupView::Failed(RejectionView { kind: Failure::Internal, detail })
}

/// The state in which the start begins: the directory to serve is
/// `serve_path`, taken from the working directory.
pub open spec fn begin(working_dir: Seq<u8>, serve_path: Seq<u8>, mode: Mode, port: u16) -> StartupView {
    StartupView::Locating { given: joined(working_dir, serve_path), mode, port }
}

/// What a start needs to know next; nothing once it is ready or has failed.
pub open spec fn pending(state: StartupView) -> Option<QuestionView> {
    match state {
        StartupView::Locating { given, .. } => Some(QuestionView::Canonicalize(given)),
        StartupView::Checking { root, .. } => Some(QuestionView::IsDirectory(root)),
        StartupView::Ready(_) => None,
        StartupView::Failed(_) => None,
    }
}

/// The state that follows `state` on `answer`. The root must have a
/// canonical form, and that must be a directory; then the configuration
/// holds the canonical root.
pub open spec fn next(state: StartupView, answer: AnswerView) -> StartupView {
    match state {
        StartupView::Locating { mode, port, .. } => match answer {
            AnswerView::Bytes(root) => StartupView::Checking { root, mode, port },
            AnswerView::Failed(text) => failed(Some(text)),
            AnswerView::Flag(_) => failed(None),
        },
        StartupView::Checking { root, mode, port } => match answer {
            AnswerView::Flag(directory) => if directory {
                StartupView::Ready(ConfigView { root, mode, port })
            } else {
                failed(Some(not_a_directory()))
            },
            AnswerView::Failed(text) => failed(Some(text)),
            AnswerView::Bytes(_) => failed(None),
        },
        StartupView::Ready(config) => StartupView::Ready(config),
        StartupView::Failed(rejection) => StartupView::Failed(rejection),
    }
}

/// A start that failed.
fn fail(detail: Option<String>) -> (startup: Startup)
    ensures
        startup@ == failed(
            match detail {
                Some(text) => Some(text@),
                None => None,
            },
        ),
{
    Startup::Failed(Rejection { kind: Failure::Internal, detail })
}

impl Startup {
    /// Begins the start of a server for `serve_path`, taken from the working
    /// directory.
    pub fn begin(working_dir: &[u8], serve_path: &[u8], mode: Mode, port: u16) -> (startup: Startup)
        ensures
            startup@ == begin(working_dir@, serve_path@, mode, port),
    {
        Startup::Locating { given: join(working_dir, serve_path), mode, port }
    }

    /// What the start needs to know next, or `None` once it has ended.
    pub fn question(&self) -> (question: Option<Question>)
        ensures
            match question {
                Some(q) => pending(self@) == Some(q@),
                None => pending(self@) is None,
            },
    {
        match self {
            Startup::Locating { given, .. } => Some(Question::Canonicalize(copy_of(given))),
            Startup::Checking { root, .. } => Some(Question::IsDirectory(copy_of(root))),
            Startup::Ready(_) => None,
            Startup::Failed(_) => None,
        }
    }

    /// Moves on with the answer to the pending question.
    pub fn advance(self, answer: Answer) -> (startup: Startup)
        ensures
            startup@ == next(self@, answer@),
    {
        match self {
            Startup::Locating { mode, port, .. } => match answer {
                Answer::Bytes(root) => Startup::Checking { root, mode, port },
                Answer::Failed(text) => fail(Some(text)),
                Answer::Flag(_) => fail(None),
            },
            Startup::Checking { root, mode, port } => match answer {
                Answer::Flag(directory) => {
                    if directory {
                        Startup::Ready(Config { root, mode, port })
                    } else {
                        fail(Some("Not a directory".to_owned()))
                    }
                },
                Answer::Failed(text) => fail(Some(text)),
                Answer::Bytes(_) => fail(None),
            },
            Startup::Ready(config) => Startup::Ready(config),
            Startup::Failed(rejection) => Startup::Failed(rejection),
        }
    }
}

/// The state that `state` reaches when a frozen file system answers its
/// questions, `steps` of them at most.
pub open spec fn run(fs: FileSystem, state: StartupView, steps: nat) -> StartupView
    decreases steps,
{
    match pending(state) {
        Some(question) => if steps == 0 {
            state
        } else {
            run(fs, next(state, fs.answer(question)), (steps - 1) as nat)
        },
        None => state,
    }
}

/// A server becomes ready only on a root that has a canonical form and is a
/// directory, and then it serves that canonical root. On any other root the
/// start fails, so that the server never listens.
pub proof fn lemma_ready_needs_directory(
    fs: FileSystem,
    working_dir: Seq<u8>,
    serve_path: Seq<u8>,
    mode: Mode,
    port: u16,
)
    ensures
        ({
            let given = joined(working_dir, serve_path);
            let end = run(fs, begin(working_dir, serve_path, mode, port), 2);
            match (fs.canonical)(given) {
                Ok(root) => if (fs.directory)(root) {
                    end == StartupView::Ready(ConfigView { root, mode, port })
                } else {
                    end == failed(Some(not_a_directory()))
                },
                Err(text) => end == failed(Some(text)),
            }
        }),
{
    reveal_with_fuel(run, 3);
}

} // verus!
