//! What the library asks of the file system, and what it is told.

use vstd::prelude::*;
use vstd::slice::slice_to_vec;

verus! {

/// Something the library needs to learn of the file system before it can go
/// on. The caller finds it out and hands back an [`Answer`].
#[derive(Clone, Debug, PartialEq, Eq)]
pub enum Question {
    /// The canonical form of the path: absolute, with every symlink resolved
    /// and without `.` and `..` segments. Answered with [`Answer::Bytes`], or
    /// with [`Answer::Failed`] where the path cannot be canonicalised.
    Canonicalize(Vec<u8>),
    /// Whether the path names an existing regular file. Answered with
    /// [`Answer::Flag`].
    IsFile(Vec<u8>),
    /// Whether the path names anything that exists. Answered with
    /// [`Answer::Flag`].
    Exists(Vec<u8>),
    /// Whether the path names an existing directory. Answered with
    /// [`Answer::Flag`].
    IsDirectory(Vec<u8>),
    /// The whole content of the file at the path. Answered with
    /// [`Answer::Bytes`], or with [`Answer::Failed`] where it cannot be read.
    Read(Vec<u8>),
}

/// What the caller found out.
#[derive(Clone, Debug, PartialEq, Eq)]
pub enum Answer {
    /// Yes or no.
    Flag(bool),
    /// A path, or the content of a file.
    Bytes(Vec<u8>),
    /// The operation failed; the text says why, in the words of the system.
    Failed(String),
}

/// The mathematical value of a [`Question`].
pub enum QuestionView {
    Canonicalize(Seq<u8>),
    IsFile(Seq<u8>),
    Exists(Seq<u8>),
    IsDirectory(Seq<u8>),
    Read(Seq<u8>),
}

/// The mathematical value of an [`Answer`].
pub enum AnswerView {
    Flag(bool),
    Bytes(Seq<u8>),
    Failed(Seq<char>),
}

impl View for Question {
    type V = QuestionView;

    open spec fn view(&self) -> QuestionView {
        match *self {
            Question::Canonicalize(path) => QuestionView::Canonicalize(path@),
            Question::IsFile(path) => QuestionView::IsFile(path@),
            Question::Exists(path) => QuestionView::Exists(path@),
            Question::IsDirectory(path) => QuestionView::IsDirectory(path@),
            Question::Read(path) => QuestionView::Read(path@),
        }
    }
}

impl View for Answer {
    type V = AnswerView;

    open spec fn view(&self) -> AnswerView {
        match *self {
            Answer::Flag(flag) => AnswerView::Flag(flag),
            Answer::Bytes(bytes) => AnswerView::Bytes(bytes@),
            Answer::Failed(text) => AnswerView::Failed(text@),
        }
    }
}

/// A file system as the library can observe it, frozen at one moment.
pub struct FileSystem {
    /// The canonical form of each path, or why it has none.
    pub canonical: spec_fn(Seq<u8>) -> Result<Seq<u8>, Seq<char>>,
    /// Whether a path names an existing regular file.
    pub regular: spec_fn(Seq<u8>) -> bool,
    /// Whether a path names anything that exists.
    pub present: spec_fn(Seq<u8>) -> bool,
    /// Whether a path names an existing directory.
    pub directory: spec_fn(Seq<u8>) -> bool,
    /// The content of the file at each path, or why it cannot be read.
    pub content: spec_fn(Seq<u8>) -> Result<Seq<u8>, Seq<char>>,
}

impl FileSystem {
    /// The answer that this file system gives to `question`.
    pub open spec fn answer(self, question: QuestionView) -> AnswerView {
        match question {
            QuestionView::Canonicalize(path) => match (self.canonical)(path) {
                Ok(canonical) => AnswerView::Bytes(canonical),
                Err(text) => AnswerView::Failed(text),
            },
            QuestionView::IsFile(path) => AnswerView::Flag((self.regular)(path)),
            QuestionView::Exists(path) => AnswerView::Flag((self.present)(path)),
            QuestionView::IsDirectory(path) => AnswerView::Flag((self.directory)(path)),
            QuestionView::Read(path) => match (self.content)(path) {
                Ok(bytes) => AnswerView::Bytes(bytes),
                Err(text) => AnswerView::Failed(text),
            },
        }
    }
}

/// A copy of `bytes` that the caller owns.
pub fn copy_of(bytes: &Vec<u8>) -> (copy: Vec<u8>)
    ensures
        copy@ == bytes@,
{
    slice_to_vec(bytes.as_slice())
}

} // verus!
