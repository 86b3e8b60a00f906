//! The handling of a request as a whole: what an exchange reaches on any
//! answers, what the server replies in a file system that stands still, and
//! what holds of both.

use vstd::prelude::*;
use vstd::utf8::encode_utf8;
use crate::config::Mode;
use crate::handler::begin;
use crate::handler::failure_reply;
use crate::handler::next;
use crate::handler::pending;
use crate::handler::read_reply;
use crate::handler::ExchangeView;
use crate::handler::ReplyView;
use crate::path::lies_within;
use crate::probe::AnswerView;
use crate::probe::FileSystem;
use crate::probe::QuestionView;
use crate::resolver::laws::keeps_root;
use crate::resolver::laws::lemma_answer_keeps_root;
use crate::resolver::laws::resolution;
use crate::resolver::ResolutionView;
use crate::response::wording;
use crate::response::Status;

verus! {

/// The state that `state` reaches on `answers`, taken one after the other.
pub open spec fn run_with(state: ExchangeView, answers: Seq<AnswerView>) -> ExchangeView
    decreases answers.len(),
{
    if answers.len() == 0 {
        state
    } else {
        next(run_with(state, answers.drop_last()), answers.last())
    }
}

/// The state that `state` reaches when a frozen file system answers its
/// questions, `steps` of them at most.
pub open spec fn run(fs: FileSystem, state: ExchangeView, steps: nat) -> ExchangeView
    decreases steps,
{
    match pending(state) {
        Some(question) => if steps == 0 {
            state
        } else {
            run(fs, next(state, fs.answer(question)), (steps - 1) as nat)
        },
        None => state,
    }
}

/// How many answers an exchange can still take before it is done.
pub open spec fn answers_left(state: ExchangeView) -> nat {
    match state {
        ExchangeView::Resolving { resolver, .. } => crate::resolver::laws::answers_left(resolver) + 1,
        ExchangeView::Reading { .. } => 1,
        ExchangeView::Done(_) => 0,
    }
}

/// What the server replies to a request in a frozen file system: the file
/// that the request path resolves to, if it can be read, and else the
/// failure.
pub open spec fn served(fs: FileSystem, root: Seq<u8>, mode: Mode, uri_path: Seq<u8>) -> ReplyView {
    match resolution(fs, root, uri_path) {
        ResolutionView::Found(path) => read_reply(
            path,
            mode,
            fs.answer(QuestionView::Read(path)),
        ),
        ResolutionView::Rejected(rejection) => failure_reply(rejection, mode),
    }
}

/// A well-formed exchange asks for something exactly as long as it is not
/// done, and every answer keeps it well formed.
pub proof fn lemma_pending_until_done(state: ExchangeView, answer: AnswerView)
    requires
        state.well_formed(),
    ensures
        pending(state) is None <==> state is Done,
        next(state, answer).well_formed(),
{
}

/// Each answer brings an exchange that is not done closer to its end.
pub proof fn lemma_answer_makes_progress(state: ExchangeView, answer: AnswerView)
    requires
        state.well_formed(),
        !(state is Done),
    ensures
        answers_left(next(state, answer)) < answers_left(state),
{
}

/// After `n` answers an exchange is done or has so many fewer left to take.
proof fn lemma_answers_left_after(state: ExchangeView, answers: Seq<AnswerView>)
    requires
        state.well_formed(),
    ensures
        run_with(state, answers).well_formed(),
        answers_left(run_with(state, answers)) + answers.len() <= answers_left(state)
            || run_with(state, answers) is Done,
    decreases answers.len(),
{
    if answers.len() > 0 {
        lemma_answers_left_after(state, answers.drop_last());
    }
}

/// Every request gets its reply: whatever the file system answers, six
/// answers finish an exchange.
pub proof fn lemma_six_answers_suffice(
    root: Seq<u8>,
    mode: Mode,
    uri_path: Seq<u8>,
    answers: Seq<AnswerView>,
)
    requires
        answers.len() >= 6,
    ensures
        run_with(begin(root, mode, uri_path), answers) is Done,
{
    lemma_answers_left_after(begin(root, mode, uri_path), answers);
}

/// What a run on given answers has established: the mode is the one it
/// started in; while it resolves, its resolver has kept the root; and once
/// it reads, the path it reads lies within the canonical root that the first
/// answer gave.
pub open spec fn reads_within_root(
    state: ExchangeView,
    started_in: Mode,
    answers: Seq<AnswerView>,
) -> bool {
    match state {
        ExchangeView::Resolving { resolver, mode } => {
            &&& mode == started_in
            &&& !(resolver is Done)
            &&& keeps_root(resolver, answers)
        },
        ExchangeView::Reading { path, mode } => {
            &&& mode == started_in
            &&& answers.len() > 0
            &&& answers[0] matches AnswerView::Bytes(root) && lies_within(path, root)
        },
        ExchangeView::Done(_) => true,
    }
}

/// A run from the start reads within the root.
proof fn lemma_run_reads_within_root(
    root: Seq<u8>,
    mode: Mode,
    uri_path: Seq<u8>,
    answers: Seq<AnswerView>,
)
    ensures
        reads_within_root(run_with(begin(root, mode, uri_path), answers), mode, answers),
    decreases answers.len(),
{
    if answers.len() > 0 {
        let before = answers.drop_last();
        lemma_run_reads_within_root(root, mode, uri_path, before);
        assert(before.push(answers.last()) =~= answers);
        match run_with(begin(root, mode, uri_path), before) {
            ExchangeView::Resolving { resolver, .. } => {
                lemma_answer_keeps_root(resolver, before, answers.last());
            },
            ExchangeView::Reading { .. } => {
                assert(answers[0] == before[0]);
            },
            ExchangeView::Done(_) => {},
        }
    }
}

/// No file outside the root is ever read. Whatever the request path is and
/// whatever the file system answers, an exchange that asks for the content of
/// a file asks for one that lies within the canonical root that the first
/// answer gave, and it is that content which the reply then carries.
pub proof fn lemma_reads_only_within_root(
    root: Seq<u8>,
    mode: Mode,
    uri_path: Seq<u8>,
    answers: Seq<AnswerView>,
    read: AnswerView,
)
    ensures
        run_with(begin(root, mode, uri_path), answers) matches ExchangeView::Reading {
            path,
            ..
        } ==> {
            &&& answers.len() > 0
            &&& answers[0] matches AnswerView::Bytes(canonical_root) && lies_within(
                path,
                canonical_root,
            )
            &&& pending(run_with(begin(root, mode, uri_path), answers)) == Some(
                QuestionView::Read(path),
            )
            &&& run_with(begin(root, mode, uri_path), answers.push(read)) == ExchangeView::Done(
                read_reply(path, mode, read),
            )
        },
{
    lemma_run_reads_within_root(root, mode, uri_path, answers);
    assert(answers.push(read).drop_last() =~= answers);
}

/// A reply that serves a file comes from reading: an exchange is done with
/// the status of success only after it has asked for the content of a file.
pub proof fn lemma_success_comes_from_reading(state: ExchangeView, answer: AnswerView)
    requires
        state.well_formed(),
        !(state is Done),
    ensures
        next(state, answer) matches ExchangeView::Done(reply) && reply.response.status
            == Status::Success ==> state is Reading && answer is Bytes,
{
}

/// Answered by a frozen file system, an exchange ends within six answers
/// with what the server replies in that file system.
pub proof fn lemma_run_serves(fs: FileSystem, root: Seq<u8>, mode: Mode, uri_path: Seq<u8>)
    ensures
        run(fs, begin(root, mode, uri_path), 6) == ExchangeView::Done(
            served(fs, root, mode, uri_path),
        ),
{
    reveal_with_fuel(run, 7);
}

/// A reply has the status of success exactly when no failure stands behind
/// it.
pub proof fn lemma_success_means_no_failure(
    fs: FileSystem,
    root: Seq<u8>,
    mode: Mode,
    uri_path: Seq<u8>,
)
    ensures
        served(fs, root, mode, uri_path).response.status == Status::Success <==> served(
            fs,
            root,
            mode,
            uri_path,
        ).failure is None,
{
}

/// In production no reply tells the client more of a failure than the fixed
/// wording of its kind: what the system said stays with the server.
pub proof fn lemma_production_reply_hides_detail(fs: FileSystem, root: Seq<u8>, uri_path: Seq<u8>)
    ensures
        served(fs, root, Mode::Production, uri_path).failure matches Some(rejection) ==> served(
            fs,
            root,
            Mode::Production,
            uri_path,
        ).response.body == encode_utf8(wording(rejection.kind)),
{
}

} // verus!
