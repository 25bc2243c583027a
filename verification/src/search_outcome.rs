//! What a search finds, said without the machine: a fold over what the
//! platform shows of each process, and the proof that the machine computes
//! it.

use crate::error::{OsError, SearchError};
use crate::process::{listing_for, ProcessView};
use crate::search::{
    conclude, initial, matched_process, next, pass_on, run, stale_handle, turn_to, well_formed,
    AnswerView, Phase, SearchState, StepView,
};
use crate::text::names_match;
use vstd::prelude::*;

verus! {

/// What the platform shows of one process: its answer to each request that a
/// search may make about the process.
pub struct Sighting {
    /// The identifier under which the enumeration lists the process.
    pub pid: u32,
    /// The handle with the probing rights.
    pub opened: Result<isize, OsError>,
    /// Whether the process runs under 32-bit emulation.
    pub wow64: Result<bool, OsError>,
    /// The first module of the process.
    pub module: Result<usize, OsError>,
    /// The base name of that module.
    pub name: Result<Seq<char>, OsError>,
    /// What closing a handle gives while the search is at this process.
    pub closed: Result<(), OsError>,
    /// The handle with the caller's rights.
    pub reopened: Result<isize, OsError>,
}

/// The first module of a process and its name, where the platform lets the
/// search get as far as the name.
pub open spec fn probed(sighting: Sighting) -> Option<(usize, Seq<char>)> {
    match (sighting.opened, sighting.wow64, sighting.module, sighting.name) {
        (Ok(handle), Ok(wow64), Ok(module), Ok(name)) => Some((module, name)),
        _ => None,
    }
}

/// Whether a process bears the name that is looked for, case ignored. A
/// process that cannot be probed bears no name.
pub open spec fn bears(sighting: Sighting, target: Seq<char>) -> bool {
    match probed(sighting) {
        Some((module, name)) => names_match(name, target),
        None => false,
    }
}

/// The process that a matching sighting is recorded as, once `handle` was
/// opened on it with the caller's rights.
pub open spec fn sighted_process(sighting: Sighting, handle: isize) -> ProcessView {
    ProcessView {
        handle,
        module_base: probed(sighting).unwrap().0,
        pid: sighting.pid,
        name: probed(sighting).unwrap().1,
    }
}

/// The match on record once the search has left a process behind.
pub open spec fn record_after(sighting: Sighting, target: Seq<char>, found: Option<ProcessView>)
    -> Option<ProcessView> {
    if bears(sighting, target) {
        match sighting.reopened {
            Ok(handle) => Some(sighted_process(sighting, handle)),
            Err(e) => None,
        }
    } else {
        found
    }
}

/// What a search finds among `sightings`, taken in order, when `found` is
/// the match already on record.
///
/// A process that does not bear the name, or cannot be probed, changes
/// nothing. One that bears it and can be opened with the caller's rights
/// becomes the match on record, instead of any earlier one. One that bears
/// it and cannot be opened so ends the search with the failure. When no
/// process is left, the match on record is the result, if there is one and
/// its handle is valid.
pub open spec fn selected(
    target: Seq<char>,
    sightings: Seq<Sighting>,
    found: Option<ProcessView>,
) -> Result<ProcessView, SearchError>
    decreases sightings.len(),
{
    if sightings.len() == 0 {
        conclude(found)
    } else if bears(sightings[0], target) {
        match sightings[0].reopened {
            Ok(handle) => selected(
                target,
                sightings.drop_first(),
                Some(sighted_process(sightings[0], handle)),
            ),
            Err(e) => Err(SearchError::Os(e)),
        }
    } else {
        selected(target, sightings.drop_first(), found)
    }
}

/// The answers the platform gives while a search is at one process,
/// followed by `then`. The platform answers as long as it is asked: up to
/// the first request about the process that fails, and up to the name if
/// none fails; the probe handle, if there is one, is then closed. A process
/// that bears the name is opened again, and the handle of the match that was
/// on record before, if it is an open one, is closed.
pub open spec fn answers_at(
    sighting: Sighting,
    target: Seq<char>,
    found: Option<ProcessView>,
    then: Seq<AnswerView>,
) -> Seq<AnswerView> {
    let after_probe = if bears(sighting, target) {
        seq![AnswerView::Opened(sighting.reopened)] + (if stale_handle(found) is Some {
            seq![AnswerView::Closed(sighting.closed)] + then
        } else {
            then
        })
    } else {
        then
    };
    let closing = seq![AnswerView::Closed(sighting.closed)] + after_probe;
    seq![AnswerView::Opened(sighting.opened)] + (if sighting.opened is Err {
        then
    } else {
        seq![AnswerView::Wow64(sighting.wow64)] + (if sighting.wow64 is Err {
            closing
        } else {
            seq![AnswerView::Module(sighting.module)] + (if sighting.module is Err {
                closing
            } else {
                seq![AnswerView::BaseName(sighting.name)] + closing
            })
        })
    })
}

/// The answers the platform gives to a search that goes through `sightings`
/// in order, `found` being the match on record when it starts.
pub open spec fn answers_for(
    target: Seq<char>,
    sightings: Seq<Sighting>,
    found: Option<ProcessView>,
) -> Seq<AnswerView>
    decreases sightings.len(),
{
    if sightings.len() == 0 {
        Seq::empty()
    } else {
        answers_at(
            sightings[0],
            target,
            found,
            answers_for(
                target,
                sightings.drop_first(),
                record_after(sightings[0], target, found),
            ),
        )
    }
}

/// The identifiers under which the enumeration lists the processes.
pub open spec fn pids_of(sightings: Seq<Sighting>) -> Seq<u32> {
    Seq::new(sightings.len(), |i: int| sightings[i].pid)
}

/// A run that starts with `answer` goes on, after the step that `answer`
/// leads to, with the answers that follow it.
proof fn lemma_run_first(s: SearchState, answer: AnswerView, then: Seq<AnswerView>)
    ensures
        run(s, seq![answer] + then) == match next(s, answer) {
            StepView::Ask(after, request) => run(after, then),
            StepView::Done(outcome) => StepView::Done(outcome),
        },
{
    let answers = seq![answer] + then;
    assert(answers[0] == answer);
    assert(answers.drop_first() =~= then);
}

/// What the search does at one process: it leaves it with the record that
/// the fold leaves it with, or ends as the fold ends.
proof fn lemma_run_at(
    s: SearchState,
    sighting: Sighting,
    then: Seq<AnswerView>,
)
    requires
        well_formed(s),
        s.phase is Opening,
        s.pids[s.index as int] == sighting.pid,
    ensures
        run(s, answers_at(sighting, s.target, s.found, then)) == if bears(sighting, s.target)
            && sighting.reopened is Err {
            StepView::Done(Err(SearchError::Os(sighting.reopened->Err_0)))
        } else {
            match pass_on(
                SearchState {
                    found: record_after(sighting, s.target, s.found),
                    candidate: if bears(sighting, s.target) {
                        Seq::empty()
                    } else {
                        s.candidate
                    },
                    ..s
                },
            ) {
                StepView::Ask(after, request) => run(after, then),
                StepView::Done(outcome) => StepView::Done(outcome),
            }
        },
{
    let target = s.target;
    let closed = AnswerView::Closed(sighting.closed);
    let after_probe = if bears(sighting, target) {
        seq![AnswerView::Opened(sighting.reopened)] + (if stale_handle(s.found) is Some {
            seq![closed] + then
        } else {
            then
        })
    } else {
        then
    };
    let closing = seq![closed] + after_probe;
    lemma_run_first(s, AnswerView::Opened(sighting.opened), if sighting.opened is Err {
        then
    } else {
        seq![AnswerView::Wow64(sighting.wow64)] + (if sighting.wow64 is Err {
            closing
        } else {
            seq![AnswerView::Module(sighting.module)] + (if sighting.module is Err {
                closing
            } else {
                seq![AnswerView::BaseName(sighting.name)] + closing
            })
        })
    });
    match sighting.opened {
        Err(e) => {},
        Ok(probe) => {
            let querying = SearchState { phase: Phase::QueryingWow64 { probe }, ..s };
            lemma_run_first(querying, AnswerView::Wow64(sighting.wow64), if sighting.wow64
                is Err {
                closing
            } else {
                seq![AnswerView::Module(sighting.module)] + (if sighting.module is Err {
                    closing
                } else {
                    seq![AnswerView::BaseName(sighting.name)] + closing
                })
            });
            match sighting.wow64 {
                Err(e) => {
                    lemma_run_closing(s, probe, sighting, then);
                },
                Ok(wow64) => {
                    let listing = SearchState {
                        phase: Phase::ListingModules {
                            probe,
                            listing: listing_for(wow64),
                        },
                        ..s
                    };
                    lemma_run_first(
                        listing,
                        AnswerView::Module(sighting.module),
                        if sighting.module is Err {
                            closing
                        } else {
                            seq![AnswerView::BaseName(sighting.name)] + closing
                        },
                    );
                    match sighting.module {
                        Err(e) => {
                            lemma_run_closing(s, probe, sighting, then);
                        },
                        Ok(module) => {
                            let naming = SearchState { phase: Phase::Naming { probe, module }, ..s };
                            lemma_run_first(naming, AnswerView::BaseName(sighting.name), closing);
                            if bears(sighting, target) {
                                lemma_run_matched(s, probe, module, sighting, then);
                            } else {
                                lemma_run_closing(s, probe, sighting, then);
                            }
                        },
                    }
                },
            }
        },
    }
}

/// The close of the probe handle of a process that is passed over.
proof fn lemma_run_closing(s: SearchState, probe: isize, sighting: Sighting, then: Seq<AnswerView>)
    requires
        well_formed(s),
        s.phase is Opening,
        !bears(sighting, s.target),
    ensures
        run(
            SearchState { phase: Phase::ClosingPassedOver { probe }, ..s },
            seq![AnswerView::Closed(sighting.closed)] + then,
        ) == match pass_on(s) {
            StepView::Ask(after, request) => run(after, then),
            StepView::Done(outcome) => StepView::Done(outcome),
        },
{
    lemma_run_first(
        SearchState { phase: Phase::ClosingPassedOver { probe }, ..s },
        AnswerView::Closed(sighting.closed),
        then,
    );
}

/// The close of the probe handle of a process that bears the name, and what
/// follows it.
proof fn lemma_run_matched(
    s: SearchState,
    probe: isize,
    module: usize,
    sighting: Sighting,
    then: Seq<AnswerView>,
)
    requires
        well_formed(s),
        s.phase is Opening,
        s.pids[s.index as int] == sighting.pid,
        bears(sighting, s.target),
        probed(sighting).unwrap().0 == module,
    ensures
        run(
            SearchState {
                candidate: probed(sighting).unwrap().1,
                phase: Phase::ClosingMatched { probe, module },
                ..s
            },
            seq![AnswerView::Closed(sighting.closed)] + (seq![
                AnswerView::Opened(sighting.reopened),
            ] + (if stale_handle(s.found) is Some {
                seq![AnswerView::Closed(sighting.closed)] + then
            } else {
                then
            })),
        ) == match sighting.reopened {
            Err(e) => StepView::Done(Err(SearchError::Os(e))),
            Ok(handle) => match pass_on(
                SearchState {
                    found: Some(sighted_process(sighting, handle)),
                    candidate: Seq::empty(),
                    ..s
                },
            ) {
                StepView::Ask(after, request) => run(after, then),
                StepView::Done(outcome) => StepView::Done(outcome),
            },
        },
{
    let name = probed(sighting).unwrap().1;
    let closed = AnswerView::Closed(sighting.closed);
    let tail = if stale_handle(s.found) is Some {
        seq![closed] + then
    } else {
        then
    };
    let matched = SearchState {
        candidate: name,
        phase: Phase::ClosingMatched { probe, module },
        ..s
    };
    let reopening = SearchState { phase: Phase::Reopening { module }, ..matched };
    lemma_run_first(matched, closed, seq![AnswerView::Opened(sighting.reopened)] + tail);
    lemma_run_first(reopening, AnswerView::Opened(sighting.reopened), tail);
    match stale_handle(s.found) {
        Some(stale) => {
            match sighting.reopened {
                Ok(handle) => {
                    assert(matched_process(reopening, module, handle) == sighted_process(
                        sighting,
                        handle,
                    ));
                    let superseding = SearchState {
                        found: Some(sighted_process(sighting, handle)),
                        candidate: Seq::empty(),
                        phase: Phase::ClosingSuperseded { stale },
                        ..s
                    };
                    lemma_run_first(superseding, closed, then);
                },
                Err(e) => {
                    let abandoning = SearchState {
                        found: None,
                        candidate: Seq::empty(),
                        phase: Phase::ClosingAbandoned { stale, failure: e },
                        ..s
                    };
                    lemma_run_first(abandoning, closed, then);
                },
            }
        },
        None => {
            match sighting.reopened {
                Ok(handle) => {
                    assert(matched_process(reopening, module, handle) == sighted_process(
                        sighting,
                        handle,
                    ));
                },
                Err(e) => {},
            }
        },
    }
}

/// From any candidate on, the machine finds what the fold finds.
proof fn lemma_run_selects(s: SearchState, sightings: Seq<Sighting>)
    requires
        well_formed(s),
        s.phase is Opening,
        s.pids == pids_of(sightings),
    ensures
        run(s, answers_for(s.target, sightings.skip(s.index as int), s.found)) == StepView::Done(
            selected(s.target, sightings.skip(s.index as int), s.found),
        ),
    decreases sightings.len() - s.index,
{
    let left = sightings.skip(s.index as int);
    let sighting = left[0];
    let rest = left.drop_first();
    assert(sighting == sightings[s.index as int]);
    assert(rest =~= sightings.skip(s.index as int + 1));
    let record = record_after(sighting, s.target, s.found);
    let then = answers_for(s.target, rest, record);
    assert(s.pids[s.index as int] == sighting.pid);
    lemma_run_at(s, sighting, then);
    assert(answers_for(s.target, left, s.found) == answers_at(sighting, s.target, s.found, then));
    if bears(sighting, s.target) && sighting.reopened is Err {
    } else {
        assert(selected(s.target, left, s.found) == selected(s.target, rest, record));
        let left_behind = SearchState {
            found: record,
            candidate: if bears(sighting, s.target) {
                Seq::empty()
            } else {
                s.candidate
            },
            ..s
        };
        match pass_on(left_behind) {
            StepView::Ask(after, request) => {
                lemma_run_selects(after, sightings);
            },
            StepView::Done(outcome) => {
                assert(rest.len() == 0);
                assert(selected(s.target, rest, record) == conclude(record));
            },
        }
    }
}

/// The machine computes the fold. When the enumeration lists the processes
/// of `sightings` and the platform answers every request about a process as
/// its sighting says, the search ends, and it ends with what `selected`
/// finds among the sightings: the last process that bears the name, unless
/// one that bears it could not be opened with the caller's rights.
pub proof fn lemma_search_selects(
    target: Seq<char>,
    max_search_size: Option<u32>,
    access: u32,
    sightings: Seq<Sighting>,
)
    ensures
        run(
            initial(target, max_search_size, access),
            seq![AnswerView::Pids(Ok(pids_of(sightings)))] + answers_for(target, sightings, None),
        ) == StepView::Done(selected(target, sightings, None)),
{
    let start = initial(target, max_search_size, access);
    let answers = answers_for(target, sightings, None);
    lemma_run_first(start, AnswerView::Pids(Ok(pids_of(sightings))), answers);
    let listed = SearchState { pids: pids_of(sightings), ..start };
    assert(sightings.skip(0) =~= sightings);
    match turn_to(listed, 0) {
        StepView::Ask(after, request) => {
            lemma_run_selects(after, sightings);
        },
        StepView::Done(outcome) => {
            assert(sightings.len() == 0);
        },
    }
}

/// A name that no process bears is not found.
pub proof fn lemma_absent_name_selects_nothing(target: Seq<char>, sightings: Seq<Sighting>)
    requires
        forall|i: int| 0 <= i < sightings.len() ==> !bears(#[trigger] sightings[i], target),
    ensures
        selected(target, sightings, None) == Err::<ProcessView, SearchError>(
            SearchError::NotFound,
        ),
    decreases sightings.len(),
{
    if sightings.len() > 0 {
        let rest = sightings.drop_first();
        assert(!bears(sightings[0], target));
        assert forall|i: int| 0 <= i < rest.len() implies !bears(#[trigger] rest[i], target) by {
            assert(rest[i] == sightings[i + 1]);
        }
        lemma_absent_name_selects_nothing(target, rest);
    }
}

/// The case of the letters in the name that is looked for does not matter:
/// two names with the same lowercase form find the same process.
pub proof fn lemma_selection_ignores_case(
    name: Seq<char>,
    other: Seq<char>,
    sightings: Seq<Sighting>,
    found: Option<ProcessView>,
)
    requires
        names_match(name, other),
    ensures
        selected(name, sightings, found) == selected(other, sightings, found),
    decreases sightings.len(),
{
    if sightings.len() > 0 {
        assert(bears(sightings[0], name) == bears(sightings[0], other));
        if bears(sightings[0], name) {
            match sightings[0].reopened {
                Ok(handle) => {
                    lemma_selection_ignores_case(
                        name,
                        other,
                        sightings.drop_first(),
                        Some(sighted_process(sightings[0], handle)),
                    );
                },
                Err(e) => {},
            }
        } else {
            lemma_selection_ignores_case(name, other, sightings.drop_first(), found);
        }
    }
}

} // verus!
