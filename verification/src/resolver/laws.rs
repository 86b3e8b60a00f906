//! Resolution as a whole: what a resolver reaches on any answers, what a
//! request path resolves to in a file system that stands still, and what
//! holds of both.

use vstd::prelude::*;
use crate::path::extension_replaced;
use crate::path::file_name;
use crate::path::is_absolute;
use crate::path::joined;
use crate::path::laws::lemma_final_name_of_joined;
use crate::path::laws::lemma_joined_lies_within;
use crate::path::lies_within;
use crate::path::without_leading_separators;
use crate::path::SEPARATOR;
use crate::probe::AnswerView;
use crate::probe::FileSystem;
use crate::resolver::attempt_path;
use crate::resolver::default_document;
use crate::resolver::htm;
use crate::resolver::html;
use crate::resolver::missing_detail;
use crate::resolver::next;
use crate::resolver::pending;
use crate::resolver::relative_request;
use crate::resolver::start;
use crate::resolver::Attempt;
use crate::resolver::Failure;
use crate::resolver::RejectionView;
use crate::resolver::ResolutionView;
use crate::resolver::ResolverView;

verus! {

/// The state that `state` reaches on `answers`, taken one after the other.
pub open spec fn run_with(state: ResolverView, answers: Seq<AnswerView>) -> ResolverView
    decreases answers.len(),
{
    if answers.len() == 0 {
        state
    } else {
        next(run_with(state, answers.drop_last()), answers.last())
    }
}

/// The state that `state` reaches when a frozen file system answers its
/// questions, `steps` of them at most.
pub open spec fn run(fs: FileSystem, state: ResolverView, steps: nat) -> ResolverView
    decreases steps,
{
    match pending(state) {
        Some(question) => if steps == 0 {
            state
        } else {
            run(fs, next(state, fs.answer(question)), (steps - 1) as nat)
        },
        None => state,
    }
}

/// How many answers a resolver can still take before it is done.
pub open spec fn answers_left(state: ResolverView) -> nat {
    match state {
        ResolverView::Root { .. } => 5,
        ResolverView::Search { attempt: Attempt::Exact, .. } => 4,
        ResolverView::Search { attempt: Attempt::Html, .. } => 3,
        ResolverView::Search { attempt: Attempt::Htm, .. } => 2,
        ResolverView::Confirm { .. } => 1,
        ResolverView::Done(_) => 0,
    }
}

/// The path that the search settles on in a frozen file system: the
/// candidate if it is a regular file, else the first of its two fallbacks
/// that exists.
pub open spec fn search_match(fs: FileSystem, candidate: Seq<u8>) -> Option<Seq<u8>> {
    if (fs.regular)(candidate) {
        Some(candidate)
    } else if (fs.present)(attempt_path(candidate, Attempt::Html)) {
        Some(attempt_path(candidate, Attempt::Html))
    } else if (fs.present)(attempt_path(candidate, Attempt::Htm)) {
        Some(attempt_path(candidate, Attempt::Htm))
    } else {
        None
    }
}

/// What a request path resolves to in a frozen file system.
pub open spec fn resolution(fs: FileSystem, root: Seq<u8>, raw: Seq<u8>) -> ResolutionView {
    match (fs.canonical)(root) {
        Err(text) => ResolutionView::Rejected(
            RejectionView { kind: Failure::Internal, detail: Some(text) },
        ),
        Ok(canonical_root) => match search_match(
            fs,
            joined(canonical_root, relative_request(raw)),
        ) {
            None => ResolutionView::Rejected(
                RejectionView { kind: Failure::NotFound, detail: Some(missing_detail()) },
            ),
            Some(matched) => match (fs.canonical)(matched) {
                Err(text) => ResolutionView::Rejected(
                    RejectionView { kind: Failure::Forbidden, detail: Some(text) },
                ),
                Ok(canonical) => if lies_within(canonical, canonical_root) {
                    ResolutionView::Found(canonical)
                } else {
                    ResolutionView::Rejected(
                        RejectionView { kind: Failure::Forbidden, detail: None },
                    )
                },
            },
        },
    }
}

/// What a run on given answers has established: past the first answer the
/// resolver holds the canonical root that this answer told it, and a path
/// that it found lies within that root.
pub open spec fn keeps_root(state: ResolverView, answers: Seq<AnswerView>) -> bool {
    match state {
        ResolverView::Root { .. } => answers.len() == 0,
        ResolverView::Search { root, .. } => answers.len() > 0 && answers[0] == AnswerView::Bytes(
            root,
        ),
        ResolverView::Confirm { root, .. } => answers.len() > 0 && answers[0] == AnswerView::Bytes(
            root,
        ),
        ResolverView::Done(ResolutionView::Found(path)) => answers.len() > 0 && (
        answers[0] matches AnswerView::Bytes(root) && lies_within(path, root)),
        ResolverView::Done(ResolutionView::Rejected(_)) => true,
    }
}

/// A resolver asks for something exactly as long as it is not done.
pub proof fn lemma_pending_until_done(state: ResolverView)
    ensures
        pending(state) is None <==> state is Done,
{
}

/// Each answer brings a resolver that is not done closer to its end, so a
/// resolution takes five answers at most.
pub proof fn lemma_answer_makes_progress(state: ResolverView, answer: AnswerView)
    requires
        !(state is Done),
    ensures
        answers_left(next(state, answer)) < answers_left(state),
{
}

/// Whatever the file system answers, five answers finish a resolution.
pub proof fn lemma_five_answers_suffice(root: Seq<u8>, raw: Seq<u8>, answers: Seq<AnswerView>)
    requires
        answers.len() >= 5,
    ensures
        run_with(start(root, raw), answers) is Done,
{
    lemma_answers_left_after(start(root, raw), answers);
}

/// After `n` answers at most `5 - n` are left to take.
proof fn lemma_answers_left_after(state: ResolverView, answers: Seq<AnswerView>)
    ensures
        answers_left(run_with(state, answers)) + answers.len() <= answers_left(state)
            || run_with(state, answers) is Done,
    decreases answers.len(),
{
    if answers.len() > 0 {
        lemma_answers_left_after(state, answers.drop_last());
    }
}

/// One more answer keeps what a run has established.
pub proof fn lemma_answer_keeps_root(
    state: ResolverView,
    answers: Seq<AnswerView>,
    answer: AnswerView,
)
    requires
        keeps_root(state, answers),
    ensures
        keeps_root(next(state, answer), answers.push(answer)),
{
    if answers.len() > 0 {
        assert(answers.push(answer)[0] == answers[0]);
    }
}

/// A run from the start keeps the canonical root that the first answer gave.
proof fn lemma_run_keeps_root(root: Seq<u8>, raw: Seq<u8>, answers: Seq<AnswerView>)
    ensures
        keeps_root(run_with(start(root, raw), answers), answers),
    decreases answers.len(),
{
    if answers.len() > 0 {
        let before = answers.drop_last();
        lemma_run_keeps_root(root, raw, before);
        lemma_answer_keeps_root(run_with(start(root, raw), before), before, answers.last());
        assert(before.push(answers.last()) =~= answers);
    }
}

/// No request path escapes the root. Whatever the request path is, with or
/// without `..` segments, and whatever the file system answers, a resolver
/// that ends with a path ends with one that lies within the canonical root
/// that the first answer gave.
pub proof fn lemma_never_escapes(root: Seq<u8>, raw: Seq<u8>, answers: Seq<AnswerView>)
    ensures
        run_with(start(root, raw), answers) matches ResolverView::Done(
            ResolutionView::Found(path),
        ) ==> answers.len() > 0 && (answers[0] matches AnswerView::Bytes(canonical_root)
            && lies_within(path, canonical_root)),
{
    lemma_run_keeps_root(root, raw, answers);
}

/// A resolver ends with an escape exactly when the containment check fails:
/// the match has a canonical form, and that lies outside the root.
pub proof fn lemma_escape_is_failed_containment(state: ResolverView, answer: AnswerView)
    requires
        !(state is Done),
    ensures
        (next(state, answer) matches ResolverView::Done(ResolutionView::Rejected(rejection))
            && rejection.is_escape()) <==> (state matches ResolverView::Confirm { root, .. }
            && (answer matches AnswerView::Bytes(canonical) && !lies_within(canonical, root))),
{
}

/// Answered by a frozen file system, the resolver ends within five answers
/// with what the request path resolves to in that file system.
pub proof fn lemma_run_resolves(fs: FileSystem, root: Seq<u8>, raw: Seq<u8>)
    ensures
        run(fs, start(root, raw), 5) == ResolverView::Done(resolution(fs, root, raw)),
{
    reveal_with_fuel(run, 6);
}

/// In a frozen file system too, a path that resolution finds lies within the
/// canonical root.
pub proof fn lemma_resolution_within_root(fs: FileSystem, root: Seq<u8>, raw: Seq<u8>)
    ensures
        resolution(fs, root, raw) matches ResolutionView::Found(path) ==> ((fs.canonical)(
            root,
        ) matches Ok(canonical_root) && lies_within(path, canonical_root)),
{
}

/// The empty request path resolves as the default document does.
pub proof fn lemma_empty_request_is_default(fs: FileSystem, root: Seq<u8>)
    ensures
        start(root, Seq::empty()) == start(root, default_document()),
        resolution(fs, root, Seq::empty()) == resolution(fs, root, default_document()),
{
    lemma_default_document_is_relative();
}

/// The default document is a request path that normalisation leaves alone.
pub proof fn lemma_default_document_is_relative()
    ensures
        default_document().len() > 0,
        !is_absolute(default_document()),
        relative_request(default_document()) == default_document(),
        relative_request(Seq::empty()) == default_document(),
{
    reveal_strlit("index.html");
    assert(vstd::string::is_ascii("index.html"));
    vstd::string::is_ascii_spec_bytes("index.html");
    assert(default_document().len() == 10);
    assert(default_document()[0] == 105u8);
}

/// What is left of a path without its leading separators is not absolute.
pub proof fn lemma_without_leading_separators(path: Seq<u8>)
    ensures
        !is_absolute(without_leading_separators(path)),
    decreases path.len(),
{
    if path.len() > 0 && path[0] == SEPARATOR {
        lemma_without_leading_separators(path.skip(1));
    }
}

/// Whatever the request path, the path that is looked for below the root is
/// relative and not empty.
pub proof fn lemma_relative_request_is_relative(raw: Seq<u8>)
    ensures
        !is_absolute(relative_request(raw)),
        relative_request(raw).len() > 0,
{
    lemma_without_leading_separators(raw);
    lemma_default_document_is_relative();
}

/// For a request that has a final name, each path that the search tries is
/// the root joined with a relative path, and so lies within the root
/// component by component.
pub proof fn lemma_attempts_lie_within_root(root: Seq<u8>, raw: Seq<u8>, attempt: Attempt)
    requires
        file_name(relative_request(raw)) is Some,
    ensures
        attempt_path(joined(root, relative_request(raw)), attempt) == joined(
            root,
            attempt_path(relative_request(raw), attempt),
        ),
        lies_within(attempt_path(joined(root, relative_request(raw)), attempt), root),
{
    let relative = relative_request(raw);
    lemma_relative_request_is_relative(raw);
    lemma_final_name_of_joined(root, relative, html());
    lemma_final_name_of_joined(root, relative, htm());
    lemma_joined_lies_within(root, attempt_path(relative, attempt));
}

/// Where the search settles on a path whose canonical form lies within the
/// root, that canonical form is what the request resolves to.
pub proof fn lemma_match_within_is_found(fs: FileSystem, root: Seq<u8>, raw: Seq<u8>)
    requires
        (fs.canonical)(root) is Ok,
        ({
            let canonical_root = (fs.canonical)(root)->Ok_0;
            let found = search_match(fs, joined(canonical_root, relative_request(raw)));
            &&& found is Some
            &&& (fs.canonical)(found->0) is Ok
            &&& lies_within((fs.canonical)(found->0)->Ok_0, canonical_root)
        }),
    ensures
        resolution(fs, root, raw) == ResolutionView::Found(
            (fs.canonical)(
                search_match(
                    fs,
                    joined((fs.canonical)(root)->Ok_0, relative_request(raw)),
                )->0,
            )->Ok_0,
        ),
{
}

/// Where the candidate is no regular file and its first fallback that
/// exists is a plain file below the root, one that is its own canonical
/// form, that file is served: with `foo.html` in the root and no `foo`, a
/// request for `foo` finds `foo.html`.
pub proof fn lemma_plain_fallback_is_found(
    fs: FileSystem,
    root: Seq<u8>,
    raw: Seq<u8>,
    attempt: Attempt,
)
    requires
        (fs.canonical)(root) is Ok,
        file_name(relative_request(raw)) is Some,
        attempt != Attempt::Exact,
        ({
            let canonical_root = (fs.canonical)(root)->Ok_0;
            let relative = relative_request(raw);
            let fallback = joined(canonical_root, attempt_path(relative, attempt));
            &&& !(fs.regular)(joined(canonical_root, relative))
            &&& attempt == Attempt::Htm ==> !(fs.present)(
                joined(canonical_root, attempt_path(relative, Attempt::Html)),
            )
            &&& (fs.present)(fallback)
            &&& (fs.canonical)(fallback) == Ok::<Seq<u8>, Seq<char>>(fallback)
        }),
    ensures
        resolution(fs, root, raw) == ResolutionView::Found(
            joined((fs.canonical)(root)->Ok_0, attempt_path(relative_request(raw), attempt)),
        ),
{
    lemma_attempts_lie_within_root((fs.canonical)(root)->Ok_0, raw, Attempt::Html);
    lemma_attempts_lie_within_root((fs.canonical)(root)->Ok_0, raw, Attempt::Htm);
}

/// Where the candidate is no regular file and neither fallback exists,
/// nothing is found.
pub proof fn lemma_nothing_to_find(fs: FileSystem, root: Seq<u8>, raw: Seq<u8>)
    requires
        (fs.canonical)(root) is Ok,
        ({
            let candidate = joined((fs.canonical)(root)->Ok_0, relative_request(raw));
            &&& !(fs.regular)(candidate)
            &&& !(fs.present)(extension_replaced(candidate, html()))
            &&& !(fs.present)(extension_replaced(candidate, htm()))
        }),
    ensures
        resolution(fs, root, raw) == ResolutionView::Rejected(
            RejectionView { kind: Failure::NotFound, detail: Some(missing_detail()) },
        ),
{
}

/// Where the match leads out of the root, as a symlink to a place outside it
/// does, the request is forbidden.
pub proof fn lemma_match_outside_is_forbidden(fs: FileSystem, root: Seq<u8>, raw: Seq<u8>)
    requires
        (fs.canonical)(root) is Ok,
        ({
            let canonical_root = (fs.canonical)(root)->Ok_0;
            let found = search_match(fs, joined(canonical_root, relative_request(raw)));
            &&& found is Some
            &&& (fs.canonical)(found->0) is Ok
            &&& !lies_within((fs.canonical)(found->0)->Ok_0, canonical_root)
        }),
    ensures
        resolution(fs, root, raw) == ResolutionView::Rejected(
            RejectionView { kind: Failure::Forbidden, detail: None },
        ),
{
}

} // verus!
