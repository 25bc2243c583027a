//! What holds of every search, whatever the platform answers.

use crate::error::{OsError, SearchError};
use crate::handle::is_invalid_raw;
use crate::process::ProcessView;
use crate::search::{
    conclude, initial, matched_process, names_target, next, pending, run, stale_handle,
    well_formed, AnswerView, Phase, Request, SearchState, StepView,
};
use crate::text::names_match;
use vstd::multiset::Multiset;
use vstd::prelude::*;

verus! {

/// A step keeps a search well formed, and the request it asks for is the one
/// the new state is waiting for.
pub proof fn lemma_step_keeps_well_formed(s: SearchState, answer: AnswerView)
    requires
        well_formed(s),
    ensures
        match next(s, answer) {
            StepView::Ask(after, request) => well_formed(after) && request == pending(after)
                && after.target == s.target && after.access == s.access,
            StepView::Done(outcome) => true,
        },
{
}

/// A search that has recorded no match and is not about to record one.
spec fn unmatched(s: SearchState) -> bool {
    &&& s.found is None
    &&& !(s.phase is ClosingMatched)
    &&& !(s.phase is Reopening)
    &&& !(s.phase is ClosingSuperseded)
    &&& !(s.phase is ClosingAbandoned)
}

/// While no answer names the target, a search without a match stays
/// without one, and can only end without one.
proof fn lemma_unmatched_run(s: SearchState, answers: Seq<AnswerView>)
    requires
        unmatched(s),
        forall|i: int| 0 <= i < answers.len() ==> !names_target(#[trigger] answers[i], s.target),
    ensures
        match run(s, answers) {
            StepView::Ask(after, request) => unmatched(after),
            StepView::Done(Ok(process)) => false,
            StepView::Done(Err(SearchError::Os(e))) => answers.contains(AnswerView::Pids(Err(e))),
            StepView::Done(Err(SearchError::NotFound)) => true,
        },
    decreases answers.len(),
{
    if answers.len() > 0 {
        let rest = answers.drop_first();
        assert(!names_target(answers[0], s.target));
        match next(s, answers[0]) {
            StepView::Ask(after, request) => {
                assert forall|i: int| 0 <= i < rest.len() implies !names_target(
                    #[trigger] rest[i],
                    after.target,
                ) by {
                    assert(rest[i] == answers[i + 1]);
                }
                lemma_unmatched_run(after, rest);
                match run(after, rest) {
                    StepView::Done(Err(SearchError::Os(e))) => {
                        let i = choose|i: int|
                            0 <= i < rest.len() && rest[i] == AnswerView::Pids(
                                Err::<Seq<u32>, OsError>(e),
                            );
                        assert(answers[i + 1] == rest[i]);
                    },
                    _ => {},
                }
            },
            StepView::Done(Err(SearchError::Os(e))) => {
                assert(answers[0] == AnswerView::Pids(Err::<Seq<u32>, OsError>(e)));
            },
            StepView::Done(outcome) => {},
        }
    }
}

/// A name that no running process bears is not found: if none of the names
/// the platform reports is the target's, case ignored, the search cannot end
/// with a process. It ends with `NotFound`, unless the enumeration itself
/// failed, and then with the failure of the enumeration.
pub proof fn lemma_absent_name_is_not_found(
    target: Seq<char>,
    max_search_size: Option<u32>,
    access: u32,
    answers: Seq<AnswerView>,
)
    requires
        forall|i: int| 0 <= i < answers.len() ==> !names_target(#[trigger] answers[i], target),
    ensures
        match run(initial(target, max_search_size, access), answers) {
            StepView::Ask(after, request) => after.found is None,
            StepView::Done(Ok(process)) => false,
            StepView::Done(Err(SearchError::Os(e))) => answers.contains(AnswerView::Pids(Err(e))),
            StepView::Done(Err(SearchError::NotFound)) => true,
        },
{
    lemma_unmatched_run(initial(target, max_search_size, access), answers);
}

/// The same search, looking for another name.
pub open spec fn retargeted(s: SearchState, target: Seq<char>) -> SearchState {
    SearchState { target, ..s }
}

/// The same step, of a search looking for another name.
pub open spec fn step_retargeted(step: StepView, target: Seq<char>) -> StepView {
    match step {
        StepView::Ask(after, request) => StepView::Ask(retargeted(after, target), request),
        StepView::Done(outcome) => StepView::Done(outcome),
    }
}

/// From any state, a search for a name and a search for another name with
/// the same lowercase form run alike.
proof fn lemma_retargeted_run(s: SearchState, target: Seq<char>, answers: Seq<AnswerView>)
    requires
        names_match(s.target, target),
    ensures
        run(retargeted(s, target), answers) == step_retargeted(run(s, answers), target),
    decreases answers.len(),
{
    if answers.len() > 0 {
        assert(names_target(answers[0], target) == names_target(answers[0], s.target));
        assert(next(retargeted(s, target), answers[0]) == step_retargeted(
            next(s, answers[0]),
            target,
        ));
        match next(s, answers[0]) {
            StepView::Ask(after, request) => {
                lemma_retargeted_run(after, target, answers.drop_first());
            },
            StepView::Done(outcome) => {},
        }
    }
}

/// The case of the letters in the name that is looked for does not matter:
/// two names with the same lowercase form lead, on the same answers, to the
/// same requests and to the same end.
pub proof fn lemma_case_of_target_is_ignored(
    name: Seq<char>,
    other: Seq<char>,
    max_search_size: Option<u32>,
    access: u32,
    answers: Seq<AnswerView>,
)
    requires
        names_match(name, other),
    ensures
        run(initial(other, max_search_size, access), answers) == step_retargeted(
            run(initial(name, max_search_size, access), answers),
            other,
        ),
{
    lemma_retargeted_run(initial(name, max_search_size, access), other, answers);
}

/// The handle a search holds because of the phase it is in: the probe handle
/// of the candidate, or the handle of a match it has given up.
pub open spec fn in_hand(phase: Phase) -> Multiset<isize> {
    match phase {
        Phase::Enumerating => Multiset::empty(),
        Phase::Opening => Multiset::empty(),
        Phase::QueryingWow64 { probe } => Multiset::singleton(probe),
        Phase::ListingModules { probe, listing } => Multiset::singleton(probe),
        Phase::Naming { probe, module } => Multiset::singleton(probe),
        Phase::ClosingPassedOver { probe } => Multiset::singleton(probe),
        Phase::ClosingMatched { probe, module } => Multiset::singleton(probe),
        Phase::Reopening { module } => Multiset::empty(),
        Phase::ClosingSuperseded { stale } => Multiset::singleton(stale),
        Phase::ClosingAbandoned { stale, failure } => Multiset::singleton(stale),
    }
}

/// The handle a search holds because it has recorded a match.
pub open spec fn retained(found: Option<ProcessView>) -> Multiset<isize> {
    match stale_handle(found) {
        Some(handle) => Multiset::singleton(handle),
        None => Multiset::empty(),
    }
}

/// Every handle a search holds open.
pub open spec fn held(s: SearchState) -> Multiset<isize> {
    in_hand(s.phase).add(retained(s.found))
}

/// The handle the platform opened in giving `answer` to `request`.
pub open spec fn opened_by(request: Request, answer: AnswerView) -> Multiset<isize> {
    match (request, answer) {
        (Request::Open { pid, access }, AnswerView::Opened(Ok(handle))) => Multiset::singleton(
            handle,
        ),
        _ => Multiset::empty(),
    }
}

/// The handle that was handed to the platform to close when it gave `answer`
/// to `request`. A close that the platform reports to have failed counts: the
/// search does not try again.
pub open spec fn closed_by(request: Request, answer: AnswerView) -> Multiset<isize> {
    match (request, answer) {
        (Request::Close { handle }, AnswerView::Closed(r)) => Multiset::singleton(handle),
        _ => Multiset::empty(),
    }
}

/// The handles a search is left with when it is over: the handle of the
/// process it returns, and no other.
pub open spec fn handed_over(outcome: Result<ProcessView, SearchError>) -> Multiset<isize> {
    match outcome {
        Ok(process) => Multiset::singleton(process.handle),
        Err(e) => Multiset::empty(),
    }
}

/// What a step leaves in the hands of the search or of its caller.
pub open spec fn left_open(step: StepView) -> Multiset<isize> {
    match step {
        StepView::Ask(after, request) => held(after),
        StepView::Done(outcome) => handed_over(outcome),
    }
}

/// The platform never hands out one of the invalid values as a handle it
/// has opened.
pub open spec fn opens_valid_handles(answer: AnswerView) -> bool {
    match answer {
        AnswerView::Opened(Ok(handle)) => !is_invalid_raw(handle),
        _ => true,
    }
}

/// No handle is lost and none is closed twice: after every step the search
/// holds what it held before, with the handle the platform has just opened
/// and without the handle it has just been given to close. When the search
/// is over, it holds nothing but the handle of the process it returns.
pub proof fn lemma_step_accounts_for_handles(s: SearchState, answer: AnswerView)
    requires
        well_formed(s),
        opens_valid_handles(answer),
    ensures
        left_open(next(s, answer)).add(closed_by(pending(s), answer)) =~= held(s).add(
            opened_by(pending(s), answer),
        ),
{
    let before = held(s).add(opened_by(pending(s), answer));
    let after = left_open(next(s, answer)).add(closed_by(pending(s), answer));
    assert(after =~= before);
}

/// The handles that the platform opened in the course of a run.
pub open spec fn opened_in(s: SearchState, answers: Seq<AnswerView>) -> Multiset<isize>
    decreases answers.len(),
{
    if answers.len() == 0 {
        Multiset::empty()
    } else {
        match next(s, answers[0]) {
            StepView::Ask(after, request) => opened_by(pending(s), answers[0]).add(
                opened_in(after, answers.drop_first()),
            ),
            StepView::Done(outcome) => opened_by(pending(s), answers[0]),
        }
    }
}

/// The handles that were handed to the platform to close in the course of a
/// run.
pub open spec fn closed_in(s: SearchState, answers: Seq<AnswerView>) -> Multiset<isize>
    decreases answers.len(),
{
    if answers.len() == 0 {
        Multiset::empty()
    } else {
        match next(s, answers[0]) {
            StepView::Ask(after, request) => closed_by(pending(s), answers[0]).add(
                closed_in(after, answers.drop_first()),
            ),
            StepView::Done(outcome) => closed_by(pending(s), answers[0]),
        }
    }
}

/// What holds of one step holds of a run: what is left open and what was
/// closed add up to what was held and what was opened.
proof fn lemma_run_accounts_for_handles(s: SearchState, answers: Seq<AnswerView>)
    requires
        well_formed(s),
        forall|i: int| 0 <= i < answers.len() ==> opens_valid_handles(#[trigger] answers[i]),
    ensures
        left_open(run(s, answers)).add(closed_in(s, answers)) =~= held(s).add(
            opened_in(s, answers),
        ),
    decreases answers.len(),
{
    if answers.len() > 0 {
        let rest = answers.drop_first();
        assert(opens_valid_handles(answers[0]));
        lemma_step_accounts_for_handles(s, answers[0]);
        lemma_step_keeps_well_formed(s, answers[0]);
        match next(s, answers[0]) {
            StepView::Ask(after, request) => {
                assert forall|i: int| 0 <= i < rest.len() implies opens_valid_handles(
                    #[trigger] rest[i],
                ) by {
                    assert(rest[i] == answers[i + 1]);
                }
                lemma_run_accounts_for_handles(after, rest);
                // The step's equation and the rest's, added up and reordered.
                let opened = opened_by(pending(s), answers[0]);
                let closed = closed_by(pending(s), answers[0]);
                let left = left_open(run(after, rest));
                assert(left.add(closed.add(closed_in(after, rest))) =~= left.add(
                    closed_in(after, rest),
                ).add(closed));
                assert(held(after).add(opened_in(after, rest)).add(closed) =~= held(after).add(
                    closed,
                ).add(opened_in(after, rest)));
                assert(held(s).add(opened).add(opened_in(after, rest)) =~= held(s).add(
                    opened.add(opened_in(after, rest)),
                ));
            },
            StepView::Done(outcome) => {},
        }
    }
}

/// Every handle that a search opened and does not return has been handed to
/// the platform to close by the time the search is over, and each of them
/// once: the handles opened in the run are those closed in it and, where the
/// search ends with a process, the handle of that process.
pub proof fn lemma_search_closes_what_it_opens(
    target: Seq<char>,
    max_search_size: Option<u32>,
    access: u32,
    answers: Seq<AnswerView>,
)
    requires
        forall|i: int| 0 <= i < answers.len() ==> opens_valid_handles(#[trigger] answers[i]),
    ensures
        ({
            let start = initial(target, max_search_size, access);
            match run(start, answers) {
                StepView::Ask(after, request) => opened_in(start, answers) =~= closed_in(
                    start,
                    answers,
                ).add(held(after)),
                StepView::Done(outcome) => opened_in(start, answers) =~= closed_in(
                    start,
                    answers,
                ).add(handed_over(outcome)),
            }
        }),
{
    let start = initial(target, max_search_size, access);
    lemma_run_accounts_for_handles(start, answers);
    let left = left_open(run(start, answers));
    assert(held(start) =~= Multiset::empty());
    assert(held(start).add(opened_in(start, answers)) =~= opened_in(start, answers));
    assert(left.add(closed_in(start, answers)) =~= closed_in(start, answers).add(left));
}

/// Whether `answer` is of the kind that `request` asks for.
pub open spec fn answers_request(request: Request, answer: AnswerView) -> bool {
    match (request, answer) {
        (Request::EnumeratePids { max }, AnswerView::Pids(r)) => true,
        (Request::Open { pid, access }, AnswerView::Opened(r)) => true,
        (Request::QueryWow64 { handle }, AnswerView::Wow64(r)) => true,
        (Request::FirstModule { handle, listing }, AnswerView::Module(r)) => true,
        (Request::BaseName { handle, module }, AnswerView::BaseName(r)) => true,
        (Request::Close { handle }, AnswerView::Closed(r)) => true,
        _ => false,
    }
}

/// How many requests a candidate can still take, the pending one included.
pub open spec fn requests_of_phase(phase: Phase) -> nat {
    match phase {
        Phase::Enumerating => 0,
        Phase::Opening => 7,
        Phase::QueryingWow64 { probe } => 6,
        Phase::ListingModules { probe, listing } => 5,
        Phase::Naming { probe, module } => 4,
        Phase::ClosingMatched { probe, module } => 3,
        Phase::Reopening { module } => 2,
        Phase::ClosingPassedOver { probe } => 1,
        Phase::ClosingSuperseded { stale } => 1,
        Phase::ClosingAbandoned { stale, failure } => 1,
    }
}

/// A bound on the requests a search that knows its candidates has still to
/// make: seven for each candidate it has not turned to, and those of the
/// candidate it is at.
pub open spec fn requests_left(s: SearchState) -> nat {
    if s.index < s.pids.len() {
        (7 * (s.pids.len() - s.index - 1) + requests_of_phase(s.phase)) as nat
    } else {
        0
    }
}

/// Every answer to the pending request brings the search nearer to its end.
/// The answer to the enumeration fixes how far the end is: at most seven
/// requests for each identifier that was reported.
pub proof fn lemma_answer_makes_progress(s: SearchState, answer: AnswerView)
    requires
        well_formed(s),
        answers_request(pending(s), answer),
    ensures
        match next(s, answer) {
            StepView::Ask(after, request) => !(after.phase is Enumerating) && if s.phase
                is Enumerating {
                requests_left(after) == 7 * after.pids.len()
            } else {
                requests_left(after) < requests_left(s)
            },
            StepView::Done(outcome) => true,
        },
{
}

/// Whether each of `answers` is of the kind that the search asks for when it
/// gets it.
pub open spec fn responsive(s: SearchState, answers: Seq<AnswerView>) -> bool
    decreases answers.len(),
{
    if answers.len() == 0 {
        true
    } else {
        answers_request(pending(s), answers[0]) && match next(s, answers[0]) {
            StepView::Ask(after, request) => responsive(after, answers.drop_first()),
            StepView::Done(outcome) => true,
        }
    }
}

/// A search that knows its candidates ends within the requests it has left.
proof fn lemma_run_ends(s: SearchState, answers: Seq<AnswerView>)
    requires
        well_formed(s),
        !(s.phase is Enumerating),
        responsive(s, answers),
        answers.len() >= requests_left(s),
    ensures
        run(s, answers) is Done,
    decreases answers.len(),
{
    assert(requests_left(s) > 0);
    lemma_answer_makes_progress(s, answers[0]);
    lemma_step_keeps_well_formed(s, answers[0]);
    match next(s, answers[0]) {
        StepView::Ask(after, request) => {
            lemma_run_ends(after, answers.drop_first());
        },
        StepView::Done(outcome) => {},
    }
}

/// A search ends. Once the platform has reported `count` identifiers, seven
/// answers for each of them are enough, if each answer is of the kind that
/// was asked for.
pub proof fn lemma_search_ends(
    target: Seq<char>,
    max_search_size: Option<u32>,
    access: u32,
    answers: Seq<AnswerView>,
)
    requires
        responsive(initial(target, max_search_size, access), answers),
        answers.len() > 0,
        match answers[0] {
            AnswerView::Pids(Ok(pids)) => answers.len() > 7 * pids.len(),
            _ => true,
        },
    ensures
        run(initial(target, max_search_size, access), answers) is Done,
{
    let start = initial(target, max_search_size, access);
    lemma_answer_makes_progress(start, answers[0]);
    lemma_step_keeps_well_formed(start, answers[0]);
    match next(start, answers[0]) {
        StepView::Ask(after, request) => {
            lemma_run_ends(after, answers.drop_first());
        },
        StepView::Done(outcome) => {},
    }
}

/// The latest match wins. A candidate that is opened with the caller's
/// rights takes the place of whatever match was on record; nothing else
/// changes the record while the search goes on; and a search that has seen
/// every candidate ends with what is on record.
pub proof fn lemma_latest_match_is_kept(s: SearchState, answer: AnswerView)
    requires
        well_formed(s),
    ensures
        match (s.phase, answer, next(s, answer)) {
            (
                Phase::Reopening { module },
                AnswerView::Opened(Ok(handle)),
                StepView::Ask(after, request),
            ) => after.found == Some(matched_process(s, module, handle)),
            (
                Phase::Reopening { module },
                AnswerView::Opened(Ok(handle)),
                StepView::Done(outcome),
            ) => outcome == conclude(Some(matched_process(s, module, handle))),
            (
                Phase::Reopening { module },
                AnswerView::Opened(Err(e)),
                StepView::Ask(after, request),
            ) => after.found is None,
            (phase, AnswerView::Pids(Err(e)), StepView::Done(outcome)) => outcome == Err::<
                ProcessView,
                SearchError,
            >(SearchError::Os(e)),
            (Phase::Reopening { module }, answer, StepView::Done(outcome)) => outcome is Err,
            (Phase::ClosingAbandoned { stale, failure }, answer, StepView::Done(outcome)) => {
                outcome == Err::<ProcessView, SearchError>(SearchError::Os(failure))
            },
            (phase, answer, StepView::Ask(after, request)) => after.found == s.found,
            (phase, answer, StepView::Done(outcome)) => outcome == conclude(s.found),
        },
{
}

} // verus!
