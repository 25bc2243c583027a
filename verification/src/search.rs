//! Finding a running process by the name of its primary module.
//!
//! The search never touches the platform. It is a machine that names the next
//! request, takes the platform's answer and decides what follows. The caller
//! performs each request and hands the answer back.
//!
//! Where several processes bear the name, the one that the platform lists
//! last is the one that is found. Whether that is the one the caller meant
//! is for the caller to judge.

use crate::constants::{DEFAULT_MAX_NB_PROCESSES, PROBE_ACCESS};
use crate::error::{OsError, SearchError};
use crate::handle::{closing, is_invalid_raw, HandleGuard};
use crate::process::{listing_for, module_listing, ModuleListing, Process, ProcessView};
use crate::text::{names_match, same_name};
use vstd::prelude::*;

verus! {

/// What the search asks the platform to do.
#[derive(Debug, Clone, Copy, PartialEq, Eq, Structural)]
pub enum Request {
    /// List the identifiers of at most `max` running processes.
    EnumeratePids { max: u32 },
    /// Open the process `pid` with the rights `access`.
    Open { pid: u32, access: u32 },
    /// Say whether the process behind `handle` runs under 32-bit emulation.
    QueryWow64 { handle: isize },
    /// Give the first module of the process behind `handle`.
    FirstModule { handle: isize, listing: ModuleListing },
    /// Give the base name of `module` in the process behind `handle`.
    BaseName { handle: isize, module: usize },
    /// Close `handle`.
    Close { handle: isize },
}

/// What the platform answered.
#[derive(Debug, PartialEq, Eq)]
pub enum Answer {
    /// The identifiers that were listed.
    Pids(Result<Vec<u32>, OsError>),
    /// The handle that was opened.
    Opened(Result<isize, OsError>),
    /// Whether the process runs under 32-bit emulation.
    Wow64(Result<bool, OsError>),
    /// Where the first module of the process is loaded.
    Module(Result<usize, OsError>),
    /// The base name of the module.
    BaseName(Result<String, OsError>),
    /// That the handle was closed. A search takes a failed close for done.
    Closed(Result<(), OsError>),
}

/// An answer as contracts see it.
pub enum AnswerView {
    Pids(Result<Seq<u32>, OsError>),
    Opened(Result<isize, OsError>),
    Wow64(Result<bool, OsError>),
    Module(Result<usize, OsError>),
    BaseName(Result<Seq<char>, OsError>),
    Closed(Result<(), OsError>),
}

impl View for Answer {
    type V = AnswerView;

    open spec fn view(&self) -> AnswerView {
        match *self {
            Answer::Pids(Ok(pids)) => AnswerView::Pids(Ok(pids@)),
            Answer::Pids(Err(e)) => AnswerView::Pids(Err(e)),
            Answer::Opened(r) => AnswerView::Opened(r),
            Answer::Wow64(r) => AnswerView::Wow64(r),
            Answer::Module(r) => AnswerView::Module(r),
            Answer::BaseName(Ok(name)) => AnswerView::BaseName(Ok(name@)),
            Answer::BaseName(Err(e)) => AnswerView::BaseName(Err(e)),
            Answer::Closed(r) => AnswerView::Closed(r),
        }
    }
}

/// Where the search stands: which answer it is waiting for, and what it has
/// to remember of the candidate while it waits.
#[derive(Debug, Clone, Copy, PartialEq, Eq, Structural)]
pub enum Phase {
    /// Waiting for the list of process identifiers.
    Enumerating,
    /// Waiting for the candidate to be opened with the probing rights.
    Opening,
    /// Waiting to learn which module listing fits the candidate.
    QueryingWow64 { probe: isize },
    /// Waiting for the candidate's first module.
    ListingModules { probe: isize, listing: ModuleListing },
    /// Waiting for the base name of the candidate's first module.
    Naming { probe: isize, module: usize },
    /// Waiting for the probe handle of a candidate that is passed over to close.
    ClosingPassedOver { probe: isize },
    /// Waiting for the probe handle of a matching candidate to close.
    ClosingMatched { probe: isize, module: usize },
    /// Waiting for the matching candidate to be opened with the caller's rights.
    Reopening { module: usize },
    /// Waiting for the handle of an earlier match to close, a later one
    /// having taken its place.
    ClosingSuperseded { stale: isize },
    /// Waiting for the handle of an earlier match to close before the search
    /// fails with `failure`.
    ClosingAbandoned { stale: isize, failure: OsError },
}

/// The search as contracts see it.
pub struct SearchState {
    /// The name that is looked for.
    pub target: Seq<char>,
    /// The rights the caller wants on the process that is found.
    pub access: u32,
    /// How many identifiers the enumeration may return.
    pub limit: u32,
    /// The identifiers the platform reported, in its order.
    pub pids: Seq<u32>,
    /// Which of them is the candidate.
    pub index: nat,
    /// The latest match, opened with the caller's rights.
    pub found: Option<ProcessView>,
    /// The name of the candidate, once it has matched.
    pub candidate: Seq<char>,
    pub phase: Phase,
}

/// What a step of the search leads to, as contracts see it.
pub enum StepView {
    /// The search goes on from this state, and asks for this.
    Ask(SearchState, Request),
    /// The search is over.
    Done(Result<ProcessView, SearchError>),
}

/// Every phase but the first works on a candidate, which must exist. A
/// search has recorded no match before it has seen a candidate, and has given
/// up the match it had recorded when it is about to fail.
pub open spec fn well_formed(s: SearchState) -> bool {
    &&& s.phase is Enumerating || s.index < s.pids.len()
    &&& s.phase is Enumerating ==> s.found is None
    &&& s.phase is ClosingAbandoned ==> s.found is None
}

/// The state a search starts in. Without a bound of the caller's the
/// enumeration is asked for `DEFAULT_MAX_NB_PROCESSES` identifiers.
pub open spec fn initial(target: Seq<char>, max_search_size: Option<u32>, access: u32)
    -> SearchState {
    SearchState {
        target,
        access,
        limit: match max_search_size {
            Some(max) => max,
            None => DEFAULT_MAX_NB_PROCESSES,
        },
        pids: Seq::empty(),
        index: 0,
        found: None,
        candidate: Seq::empty(),
        phase: Phase::Enumerating,
    }
}

/// The request a state is waiting to have answered.
pub open spec fn pending(s: SearchState) -> Request {
    match s.phase {
        Phase::Enumerating => Request::EnumeratePids { max: s.limit },
        Phase::Opening => Request::Open { pid: s.pids[s.index as int], access: PROBE_ACCESS },
        Phase::QueryingWow64 { probe } => Request::QueryWow64 { handle: probe },
        Phase::ListingModules { probe, listing } => Request::FirstModule {
            handle: probe,
            listing,
        },
        Phase::Naming { probe, module } => Request::BaseName { handle: probe, module },
        Phase::ClosingPassedOver { probe } => Request::Close { handle: probe },
        Phase::ClosingMatched { probe, module } => Request::Close { handle: probe },
        Phase::Reopening { module } => Request::Open {
            pid: s.pids[s.index as int],
            access: s.access,
        },
        Phase::ClosingSuperseded { stale } => Request::Close { handle: stale },
        Phase::ClosingAbandoned { stale, failure } => Request::Close { handle: stale },
    }
}

/// The search goes on from `s` with the request that `s` is waiting for.
pub open spec fn ask(s: SearchState) -> StepView {
    StepView::Ask(s, pending(s))
}

/// How a search that has seen every candidate ends: with the latest match if
/// its handle is a valid one, and with `NotFound` otherwise.
pub open spec fn conclude(found: Option<ProcessView>) -> Result<ProcessView, SearchError> {
    match found {
        Some(process) => if is_invalid_raw(process.handle) {
            Err(SearchError::NotFound)
        } else {
            Ok(process)
        },
        None => Err(SearchError::NotFound),
    }
}

/// The search turns to the candidate at `index`, or ends if there is none.
pub open spec fn turn_to(s: SearchState, index: nat) -> StepView {
    if index < s.pids.len() {
        ask(SearchState { index, phase: Phase::Opening, ..s })
    } else {
        StepView::Done(conclude(s.found))
    }
}

/// The search leaves its candidate and turns to the one after it.
pub open spec fn pass_on(s: SearchState) -> StepView {
    turn_to(s, s.index + 1)
}

/// The handle that has to be closed when the recorded match is given up:
/// that of the match, unless there is no match or its handle is not open.
pub open spec fn stale_handle(found: Option<ProcessView>) -> Option<isize> {
    match found {
        Some(process) => closing(process.handle).1,
        None => None,
    }
}

/// The process that the candidate of `s` becomes once `handle` was opened on
/// it with the caller's rights.
pub open spec fn matched_process(s: SearchState, module: usize, handle: isize) -> ProcessView {
    ProcessView { handle, module_base: module, pid: s.pids[s.index as int], name: s.candidate }
}

/// One step of the search, the comparison of names already made: `matched`
/// says whether the name in the answer, if it carries one, is the target's.
///
/// An answer that is not the answer to the pending request changes nothing,
/// and the request is made again.
pub open spec fn next_decided(s: SearchState, answer: AnswerView, matched: bool) -> StepView {
    match (s.phase, answer) {
        (Phase::Enumerating, AnswerView::Pids(Err(e))) => StepView::Done(
            Err(SearchError::Os(e)),
        ),
        (Phase::Enumerating, AnswerView::Pids(Ok(pids))) => turn_to(
            SearchState { pids, ..s },
            0,
        ),
        (Phase::Opening, AnswerView::Opened(Err(e))) => pass_on(s),
        (Phase::Opening, AnswerView::Opened(Ok(handle))) => ask(
            SearchState { phase: Phase::QueryingWow64 { probe: handle }, ..s },
        ),
        (Phase::QueryingWow64 { probe }, AnswerView::Wow64(Err(e))) => ask(
            SearchState { phase: Phase::ClosingPassedOver { probe }, ..s },
        ),
        (Phase::QueryingWow64 { probe }, AnswerView::Wow64(Ok(wow64))) => ask(
            SearchState {
                phase: Phase::ListingModules { probe, listing: listing_for(wow64) },
                ..s
            },
        ),
        (Phase::ListingModules { probe, listing }, AnswerView::Module(Err(e))) => ask(
            SearchState { phase: Phase::ClosingPassedOver { probe }, ..s },
        ),
        (Phase::ListingModules { probe, listing }, AnswerView::Module(Ok(module))) => ask(
            SearchState { phase: Phase::Naming { probe, module }, ..s },
        ),
        (Phase::Naming { probe, module }, AnswerView::BaseName(Err(e))) => ask(
            SearchState { phase: Phase::ClosingPassedOver { probe }, ..s },
        ),
        (Phase::Naming { probe, module }, AnswerView::BaseName(Ok(name))) => if matched {
            ask(
                SearchState {
                    candidate: name,
                    phase: Phase::ClosingMatched { probe, module },
                    ..s
                },
            )
        } else {
            ask(SearchState { phase: Phase::ClosingPassedOver { probe }, ..s })
        },
        (Phase::ClosingPassedOver { probe }, AnswerView::Closed(r)) => pass_on(s),
        (Phase::ClosingMatched { probe, module }, AnswerView::Closed(r)) => ask(
            SearchState { phase: Phase::Reopening { module }, ..s },
        ),
        (Phase::Reopening { module }, AnswerView::Opened(Err(e))) => match stale_handle(s.found) {
            Some(stale) => ask(
                SearchState {
                    found: None,
                    candidate: Seq::empty(),
                    phase: Phase::ClosingAbandoned { stale, failure: e },
                    ..s
                },
            ),
            None => StepView::Done(Err(SearchError::Os(e))),
        },
        (Phase::Reopening { module }, AnswerView::Opened(Ok(handle))) => {
            let recorded = SearchState {
                found: Some(matched_process(s, module, handle)),
                candidate: Seq::empty(),
                ..s
            };
            match stale_handle(s.found) {
                Some(stale) => ask(
                    SearchState { phase: Phase::ClosingSuperseded { stale }, ..recorded },
                ),
                None => pass_on(recorded),
            }
        },
        (Phase::ClosingSuperseded { stale }, AnswerView::Closed(r)) => pass_on(s),
        (Phase::ClosingAbandoned { stale, failure }, AnswerView::Closed(r)) => StepView::Done(
            Err(SearchError::Os(failure)),
        ),
        _ => ask(s),
    }
}

/// Whether the answer carries a name that is the target's when case is
/// ignored.
pub open spec fn names_target(answer: AnswerView, target: Seq<char>) -> bool {
    match answer {
        AnswerView::BaseName(Ok(name)) => names_match(name, target),
        _ => false,
    }
}

/// One step of the search.
pub open spec fn next(s: SearchState, answer: AnswerView) -> StepView {
    next_decided(s, answer, names_target(answer, s.target))
}

/// Where a search stands after the platform has given `answers` one after
/// the other, each taken as the answer to whatever request was pending.
/// Answers that come after the search has ended are not looked at.
pub open spec fn run(s: SearchState, answers: Seq<AnswerView>) -> StepView
    decreases answers.len(),
{
    if answers.len() == 0 {
        ask(s)
    } else {
        match next(s, answers[0]) {
            StepView::Ask(after, request) => run(after, answers.drop_first()),
            StepView::Done(outcome) => StepView::Done(outcome),
        }
    }
}

/// The contract view of a match that may not be there.
pub open spec fn found_view(found: Option<Process>) -> Option<ProcessView> {
    match found {
        Some(process) => Some(process@),
        None => None,
    }
}

/// The contract view of how a search ended.
pub open spec fn outcome_view(outcome: Result<Process, SearchError>) -> Result<
    ProcessView,
    SearchError,
> {
    match outcome {
        Ok(process) => Ok(process@),
        Err(e) => Err(e),
    }
}

/// A search in progress.
#[derive(Debug)]
pub struct ProcessSearch {
    target: String,
    access: u32,
    limit: u32,
    pids: Vec<u32>,
    index: usize,
    found: Option<Process>,
    candidate: String,
    phase: Phase,
}

impl View for ProcessSearch {
    type V = SearchState;

    closed spec fn view(&self) -> SearchState {
        SearchState {
            target: self.target@,
            access: self.access,
            limit: self.limit,
            pids: self.pids@,
            index: self.index as nat,
            found: found_view(self.found),
            candidate: self.candidate@,
            phase: self.phase,
        }
    }
}

/// What a step of the search leads to.
#[derive(Debug)]
pub enum Step {
    /// The search goes on: perform the request and answer it.
    Ask(ProcessSearch, Request),
    /// The search is over.
    Done(Result<Process, SearchError>),
}

impl View for Step {
    type V = StepView;

    open spec fn view(&self) -> StepView {
        match *self {
            Step::Ask(search, request) => StepView::Ask(search@, request),
            Step::Done(outcome) => StepView::Done(outcome_view(outcome)),
        }
    }
}

/// Gives up a recorded match and says which handle has to be closed for it.
fn release(found: Option<Process>) -> (stale: Option<isize>)
    ensures
        stale == stale_handle(found_view(found)),
{
    match found {
        Some(process) => {
            let mut process = process;
            process.handle.close()
        },
        None => None,
    }
}

/// Ends a search that has seen every candidate.
fn finish(found: Option<Process>) -> (outcome: Result<Process, SearchError>)
    ensures
        outcome_view(outcome) == conclude(found_view(found)),
{
    match found {
        Some(process) => {
            if process.handle.is_invalid() {
                Err(SearchError::NotFound)
            } else {
                Ok(process)
            }
        },
        None => Err(SearchError::NotFound),
    }
}

impl ProcessSearch {
    #[verifier::type_invariant]
    spec fn candidate_exists(self) -> bool {
        well_formed(self@)
    }

    /// Starts a search for the process whose primary module is called `name`,
    /// whatever the case of its letters. The process that is found will be
    /// opened with the rights `access`.
    pub fn start(name: &str, max_search_size: Option<u32>, access: u32) -> (started: (
        ProcessSearch,
        Request,
    ))
        ensures
            started.0@ == initial(name@, max_search_size, access),
            started.1 == pending(started.0@),
    {
        let limit: u32 = match max_search_size {
            Some(max) => max,
            None => DEFAULT_MAX_NB_PROCESSES,
        };
        let search = ProcessSearch {
            target: name.to_owned(),
            access,
            limit,
            pids: Vec::new(),
            index: 0,
            found: None,
            candidate: String::new(),
            phase: Phase::Enumerating,
        };
        (search, Request::EnumeratePids { max: limit })
    }

    /// The request this search is waiting to have answered.
    pub fn request(&self) -> (request: Request)
        ensures
            request == pending(self@),
    {
        proof {
            use_type_invariant(self);
        }
        match self.phase {
            Phase::Enumerating => Request::EnumeratePids { max: self.limit },
            Phase::Opening => Request::Open { pid: self.pids[self.index], access: PROBE_ACCESS },
            Phase::QueryingWow64 { probe } => Request::QueryWow64 { handle: probe },
            Phase::ListingModules { probe, listing } => Request::FirstModule {
                handle: probe,
                listing,
            },
            Phase::Naming { probe, module } => Request::BaseName { handle: probe, module },
            Phase::ClosingPassedOver { probe } => Request::Close { handle: probe },
            Phase::ClosingMatched { probe, module } => Request::Close { handle: probe },
            Phase::Reopening { module } => Request::Open {
                pid: self.pids[self.index],
                access: self.access,
            },
            Phase::ClosingSuperseded { stale } => Request::Close { handle: stale },
            Phase::ClosingAbandoned { stale, failure } => Request::Close { handle: stale },
        }
    }

    /// Goes on with the request this search is waiting for.
    fn asking(self) -> (step: Step)
        ensures
            step@ == ask(self@),
    {
        let request = self.request();
        Step::Ask(self, request)
    }

    /// Turns to the candidate at `index`, or ends the search.
    fn turning_to(self, index: usize) -> (step: Step)
        ensures
            step@ == turn_to(self@, index as nat),
    {
        let ProcessSearch { target, access, limit, pids, index: _, found, candidate, phase: _ } =
            self;
        if index < pids.len() {
            let pid: u32 = pids[index];
            Step::Ask(
                ProcessSearch {
                    target,
                    access,
                    limit,
                    pids,
                    index,
                    found,
                    candidate,
                    phase: Phase::Opening,
                },
                Request::Open { pid, access: PROBE_ACCESS },
            )
        } else {
            Step::Done(finish(found))
        }
    }

    /// Leaves the candidate and turns to the one after it.
    fn passing_on(self) -> (step: Step)
        requires
            !(self@.phase is Enumerating),
        ensures
            step@ == pass_on(self@),
    {
        proof {
            use_type_invariant(&self);
        }
        let count: usize = self.pids.len();
        assert(self.index < count);
        let index: usize = self.index + 1;
        self.turning_to(index)
    }

    /// Goes on in another phase, everything else as it was.
    fn entering(self, phase: Phase) -> (step: Step)
        requires
            !(phase is Enumerating),
            !(phase is ClosingAbandoned),
            !(self@.phase is Enumerating),
        ensures
            step@ == ask(SearchState { phase, ..self@ }),
    {
        proof {
            use_type_invariant(&self);
        }
        let ProcessSearch { target, access, limit, pids, index, found, candidate, phase: _ } = self;
        let search = ProcessSearch { target, access, limit, pids, index, found, candidate, phase };
        search.asking()
    }

    /// One step of the search for a caller that has compared the names
    /// itself: `matched` says whether the name in `answer`, if it carries
    /// one, is the name that is looked for.
    pub fn step_decided(self, answer: Answer, matched: bool) -> (step: Step)
        ensures
            step@ == next_decided(self@, answer@, matched),
    {
        proof {
            use_type_invariant(&self);
        }
        match (self.phase, answer) {
            (Phase::Enumerating, Answer::Pids(Err(e))) => Step::Done(Err(SearchError::Os(e))),
            (Phase::Enumerating, Answer::Pids(Ok(reported))) => {
                let ProcessSearch {
                    target,
                    access,
                    limit,
                    pids: _,
                    index,
                    found,
                    candidate,
                    phase,
                } = self;
                let search = ProcessSearch {
                    target,
                    access,
                    limit,
                    pids: reported,
                    index,
                    found,
                    candidate,
                    phase,
                };
                search.turning_to(0)
            },
            (Phase::Opening, Answer::Opened(Err(_))) => self.passing_on(),
            (Phase::Opening, Answer::Opened(Ok(handle))) => self.entering(
                Phase::QueryingWow64 { probe: handle },
            ),
            (Phase::QueryingWow64 { probe }, Answer::Wow64(Err(_))) => self.entering(
                Phase::ClosingPassedOver { probe },
            ),
            (Phase::QueryingWow64 { probe }, Answer::Wow64(Ok(wow64))) => self.entering(
                Phase::ListingModules { probe, listing: module_listing(wow64) },
            ),
            (Phase::ListingModules { probe, listing: _ }, Answer::Module(Err(_))) => self.entering(
                Phase::ClosingPassedOver { probe },
            ),
            (Phase::ListingModules { probe, listing: _ }, Answer::Module(Ok(module))) => {
                self.entering(Phase::Naming { probe, module })
            },
            (Phase::Naming { probe, module: _ }, Answer::BaseName(Err(_))) => self.entering(
                Phase::ClosingPassedOver { probe },
            ),
            (Phase::Naming { probe, module }, Answer::BaseName(Ok(name))) => {
                if matched {
                    let ProcessSearch {
                        target,
                        access,
                        limit,
                        pids,
                        index,
                        found,
                        candidate: _,
                        phase: _,
                    } = self;
                    let search = ProcessSearch {
                        target,
                        access,
                        limit,
                        pids,
                        index,
                        found,
                        candidate: name,
                        phase: Phase::ClosingMatched { probe, module },
                    };
                    search.asking()
                } else {
                    self.entering(Phase::ClosingPassedOver { probe })
                }
            },
            (Phase::ClosingPassedOver { probe: _ }, Answer::Closed(_)) => self.passing_on(),
            (Phase::ClosingMatched { probe: _, module }, Answer::Closed(_)) => self.entering(
                Phase::Reopening { module },
            ),
            (Phase::Reopening { module: _ }, Answer::Opened(Err(e))) => {
                let ProcessSearch {
                    target,
                    access,
                    limit,
                    pids,
                    index,
                    found,
                    candidate: _,
                    phase: _,
                } = self;
                match release(found) {
                    Some(stale) => {
                        let search = ProcessSearch {
                            target,
                            access,
                            limit,
                            pids,
                            index,
                            found: None,
                            candidate: String::new(),
                            phase: Phase::ClosingAbandoned { stale, failure: e },
                        };
                        search.asking()
                    },
                    None => Step::Done(Err(SearchError::Os(e))),
                }
            },
            (Phase::Reopening { module }, Answer::Opened(Ok(handle))) => {
                let ProcessSearch {
                    target,
                    access,
                    limit,
                    pids,
                    index,
                    found,
                    candidate,
                    phase,
                } = self;
                let process = Process {
                    handle: HandleGuard::new(handle),
                    module_base: module,
                    pid: pids[index],
                    name: candidate,
                };
                match release(found) {
                    Some(stale) => {
                        let search = ProcessSearch {
                            target,
                            access,
                            limit,
                            pids,
                            index,
                            found: Some(process),
                            candidate: String::new(),
                            phase: Phase::ClosingSuperseded { stale },
                        };
                        search.asking()
                    },
                    None => {
                        let search = ProcessSearch {
                            target,
                            access,
                            limit,
                            pids,
                            index,
                            found: Some(process),
                            candidate: String::new(),
                            phase,
                        };
                        search.passing_on()
                    },
                }
            },
            (Phase::ClosingSuperseded { stale: _ }, Answer::Closed(_)) => self.passing_on(),
            (Phase::ClosingAbandoned { stale: _, failure }, Answer::Closed(_)) => Step::Done(
                Err(SearchError::Os(failure)),
            ),
            _ => self.asking(),
        }
    }

    /// One step of the search: takes the platform's answer to the pending
    /// request and says what follows.
    pub fn step(self, answer: Answer) -> (step: Step)
        ensures
            step@ == next(self@, answer@),
    {
        let matched = match &answer {
            Answer::BaseName(Ok(name)) => same_name(name.as_str(), self.target.as_str()),
            _ => false,
        };
        self.step_decided(answer, matched)
    }
}

} // verus!
