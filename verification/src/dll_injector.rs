//! Making a foreign process load a module.
//!
//! The path of the module is written into memory allocated in the target, and
//! a thread is started there that runs the platform's module loader on it.
//! The injection is a machine of five requests; the caller performs them.

use crate::constants::{MEM_COMMIT, PAGE_EXECUTE_READWRITE};
use crate::error::OsError;
use crate::text::{null_terminated, terminated};
use vstd::prelude::*;
use vstd::string::StringSliceAdditionalSpecFns;

verus! {

/// What an injection asks the platform to do.
#[derive(Debug, Clone, Copy, PartialEq, Eq, Structural)]
pub enum InjectionRequest {
    /// Allocate `size` bytes in the target, of this type and protection.
    Allocate { size: usize, allocation_type: u32, protection: u32 },
    /// Write the `size` bytes of the encoded path to `address` in the target.
    Write { address: usize, size: usize },
    /// Find the module that holds the loader, in the caller's own process.
    FindLoaderModule,
    /// Find the loader's entry point in `module`.
    FindLoaderEntry { module: isize },
    /// Start a thread in the target that runs `entry` on `parameter`.
    StartThread { entry: usize, parameter: usize },
}

/// What the platform answered.
#[derive(Debug, Clone, Copy, PartialEq, Eq)]
pub enum InjectionAnswer {
    /// Where the region was allocated.
    Allocated(Result<usize, OsError>),
    /// How many bytes were written.
    Written(Result<usize, OsError>),
    /// The module that holds the loader.
    LoaderModule(Result<isize, OsError>),
    /// The address of the loader's entry point.
    LoaderEntry(Result<usize, OsError>),
    /// The handle of the thread that was started.
    ThreadStarted(Result<isize, OsError>),
}

/// Where an injection stands.
#[derive(Debug, Clone, Copy, PartialEq, Eq, Structural)]
pub enum InjectionPhase {
    /// Waiting for memory in the target.
    Allocating,
    /// Waiting for the path to be written to `region`.
    Writing { region: usize },
    /// Waiting for the module that holds the loader.
    FindingModule { region: usize },
    /// Waiting for the loader's entry point.
    FindingEntry { region: usize, module: isize },
    /// Waiting for the thread to start.
    Starting { region: usize, entry: usize },
}

/// An injection as contracts see it.
pub struct InjectionState {
    /// The path of the module, encoded and zero-terminated.
    pub path: Seq<u8>,
    pub phase: InjectionPhase,
}

/// What a step of an injection leads to, as contracts see it.
pub enum InjectionStepView {
    /// The injection goes on from this state, and asks for this.
    Ask(InjectionState, InjectionRequest),
    /// The injection is over: the thread was started, or a request failed.
    Done(Result<(), OsError>),
}

/// The state an injection of the module at `path` starts in, if the path can
/// be encoded.
pub open spec fn injection_start(path: Seq<u8>) -> Option<InjectionState> {
    match terminated(path) {
        Some(encoded) => Some(InjectionState { path: encoded, phase: InjectionPhase::Allocating }),
        None => None,
    }
}

/// The request a state is waiting to have answered.
///
/// The region is as large as the encoded path, committed, and readable,
/// writable and executable. The thread runs the loader's entry point on the
/// address of the region.
pub open spec fn injection_pending(s: InjectionState) -> InjectionRequest {
    match s.phase {
        InjectionPhase::Allocating => InjectionRequest::Allocate {
            size: s.path.len() as usize,
            allocation_type: MEM_COMMIT,
            protection: PAGE_EXECUTE_READWRITE,
        },
        InjectionPhase::Writing { region } => InjectionRequest::Write {
            address: region,
            size: s.path.len() as usize,
        },
        InjectionPhase::FindingModule { region } => InjectionRequest::FindLoaderModule,
        InjectionPhase::FindingEntry { region, module } => InjectionRequest::FindLoaderEntry {
            module,
        },
        InjectionPhase::Starting { region, entry } => InjectionRequest::StartThread {
            entry,
            parameter: region,
        },
    }
}

/// The injection goes on in `phase`.
pub open spec fn injection_ask(s: InjectionState, phase: InjectionPhase) -> InjectionStepView {
    let after = InjectionState { phase, ..s };
    InjectionStepView::Ask(after, injection_pending(after))
}

/// One step of an injection.
///
/// The failure of a request ends the injection with that failure; what was
/// done before it is left as it is. An answer that is not the answer to the
/// pending request changes nothing, and the request is made again.
pub open spec fn injection_next(s: InjectionState, answer: InjectionAnswer) -> InjectionStepView {
    match (s.phase, answer) {
        (InjectionPhase::Allocating, InjectionAnswer::Allocated(Ok(region))) => injection_ask(
            s,
            InjectionPhase::Writing { region },
        ),
        (InjectionPhase::Allocating, InjectionAnswer::Allocated(Err(e))) => InjectionStepView::Done(
            Err(e),
        ),
        (InjectionPhase::Writing { region }, InjectionAnswer::Written(Ok(count))) => injection_ask(
            s,
            InjectionPhase::FindingModule { region },
        ),
        (InjectionPhase::Writing { region }, InjectionAnswer::Written(Err(e))) => {
            InjectionStepView::Done(Err(e))
        },
        (
            InjectionPhase::FindingModule { region },
            InjectionAnswer::LoaderModule(Ok(module)),
        ) => injection_ask(s, InjectionPhase::FindingEntry { region, module }),
        (InjectionPhase::FindingModule { region }, InjectionAnswer::LoaderModule(Err(e))) => {
            InjectionStepView::Done(Err(e))
        },
        (
            InjectionPhase::FindingEntry { region, module },
            InjectionAnswer::LoaderEntry(Ok(entry)),
        ) => injection_ask(s, InjectionPhase::Starting { region, entry }),
        (
            InjectionPhase::FindingEntry { region, module },
            InjectionAnswer::LoaderEntry(Err(e)),
        ) => InjectionStepView::Done(Err(e)),
        (
            InjectionPhase::Starting { region, entry },
            InjectionAnswer::ThreadStarted(Ok(thread)),
        ) => InjectionStepView::Done(Ok(())),
        (InjectionPhase::Starting { region, entry }, InjectionAnswer::ThreadStarted(Err(e))) => {
            InjectionStepView::Done(Err(e))
        },
        _ => injection_ask(s, s.phase),
    }
}

/// An injection in progress.
#[derive(Debug)]
pub struct Injection {
    path: Vec<u8>,
    phase: InjectionPhase,
}

impl View for Injection {
    type V = InjectionState;

    closed spec fn view(&self) -> InjectionState {
        InjectionState { path: self.path@, phase: self.phase }
    }
}

/// What a step of an injection leads to.
#[derive(Debug)]
pub enum InjectionStep {
    /// The injection goes on: perform the request and answer it.
    Ask(Injection, InjectionRequest),
    /// The injection is over.
    Done(Result<(), OsError>),
}

impl View for InjectionStep {
    type V = InjectionStepView;

    open spec fn view(&self) -> InjectionStepView {
        match *self {
            InjectionStep::Ask(injection, request) => InjectionStepView::Ask(injection@, request),
            InjectionStep::Done(outcome) => InjectionStepView::Done(outcome),
        }
    }
}

/// The name of the module that holds the loader.
pub fn loader_module() -> (name: &'static str)
    ensures
        name@ == "kernel32.dll"@,
{
    "kernel32.dll"
}

/// The name of the loader's entry point, which takes the path of a module and
/// loads it into the process that calls it.
pub fn loader_entry() -> (name: &'static str)
    ensures
        name@ == "LoadLibraryA"@,
{
    "LoadLibraryA"
}

impl Injection {
    /// Starts the injection of the module at `dll_path`. A path that holds a
    /// zero byte cannot be handed to the loader, and no injection starts.
    pub fn start(dll_path: &str) -> (started: Option<(Injection, InjectionRequest)>)
        ensures
            match started {
                Some((injection, request)) => injection_start(dll_path.spec_bytes()) == Some(
                    injection@,
                ) && request == injection_pending(injection@),
                None => injection_start(dll_path.spec_bytes()) is None,
            },
    {
        match null_terminated(dll_path) {
            Some(path) => {
                let injection = Injection { path, phase: InjectionPhase::Allocating };
                let request = injection.request();
                Some((injection, request))
            },
            None => None,
        }
    }

    /// The encoded path: the bytes that the `Write` request is about.
    pub fn path(&self) -> (bytes: &Vec<u8>)
        ensures
            bytes@ == self@.path,
    {
        &self.path
    }

    /// The request this injection is waiting to have answered.
    pub fn request(&self) -> (request: InjectionRequest)
        ensures
            request == injection_pending(self@),
    {
        match self.phase {
            InjectionPhase::Allocating => InjectionRequest::Allocate {
                size: self.path.len(),
                allocation_type: MEM_COMMIT,
                protection: PAGE_EXECUTE_READWRITE,
            },
            InjectionPhase::Writing { region } => InjectionRequest::Write {
                address: region,
                size: self.path.len(),
            },
            InjectionPhase::FindingModule { region: _ } => InjectionRequest::FindLoaderModule,
            InjectionPhase::FindingEntry { region: _, module } => {
                InjectionRequest::FindLoaderEntry { module }
            },
            InjectionPhase::Starting { region, entry } => InjectionRequest::StartThread {
                entry,
                parameter: region,
            },
        }
    }

    /// Goes on in another phase.
    fn entering(self, phase: InjectionPhase) -> (step: InjectionStep)
        ensures
            step@ == injection_ask(self@, phase),
    {
        let injection = Injection { path: self.path, phase };
        let request = injection.request();
        InjectionStep::Ask(injection, request)
    }

    /// One step of the injection: takes the platform's answer to the pending
    /// request and says what follows.
    pub fn step(self, answer: InjectionAnswer) -> (step: InjectionStep)
        ensures
            step@ == injection_next(self@, answer),
    {
        match (self.phase, answer) {
            (InjectionPhase::Allocating, InjectionAnswer::Allocated(Ok(region))) => self.entering(
                InjectionPhase::Writing { region },
            ),
            (InjectionPhase::Allocating, InjectionAnswer::Allocated(Err(e))) => InjectionStep::Done(
                Err(e),
            ),
            (InjectionPhase::Writing { region }, InjectionAnswer::Written(Ok(_))) => self.entering(
                InjectionPhase::FindingModule { region },
            ),
            (InjectionPhase::Writing { region: _ }, InjectionAnswer::Written(Err(e))) => {
                InjectionStep::Done(Err(e))
            },
            (
                InjectionPhase::FindingModule { region },
                InjectionAnswer::LoaderModule(Ok(module)),
            ) => self.entering(InjectionPhase::FindingEntry { region, module }),
            (
                InjectionPhase::FindingModule { region: _ },
                InjectionAnswer::LoaderModule(Err(e)),
            ) => InjectionStep::Done(Err(e)),
            (
                InjectionPhase::FindingEntry { region, module: _ },
                InjectionAnswer::LoaderEntry(Ok(entry)),
            ) => self.entering(InjectionPhase::Starting { region, entry }),
            (
                InjectionPhase::FindingEntry { region: _, module: _ },
                InjectionAnswer::LoaderEntry(Err(e)),
            ) => InjectionStep::Done(Err(e)),
            (
                InjectionPhase::Starting { region: _, entry: _ },
                InjectionAnswer::ThreadStarted(Ok(_)),
            ) => InjectionStep::Done(Ok(())),
            (
                InjectionPhase::Starting { region: _, entry: _ },
                InjectionAnswer::ThreadStarted(Err(e)),
            ) => InjectionStep::Done(Err(e)),
            _ => {
                let phase = self.phase;
                self.entering(phase)
            },
        }
    }
}

/// When every request succeeds, an injection makes five of them in this
/// order: it allocates a region for the encoded path, writes the path there,
/// finds the loader's module and in it the loader's entry point, and starts a
/// thread that runs that entry point on the address of the region. Then it
/// is done.
pub proof fn lemma_injection_sequence(
    s: InjectionState,
    region: usize,
    written: usize,
    module: isize,
    entry: usize,
    thread: isize,
)
    requires
        s.phase is Allocating,
    ensures
        ({
            let writing = InjectionState { phase: InjectionPhase::Writing { region }, ..s };
            let finding_module = InjectionState {
                phase: InjectionPhase::FindingModule { region },
                ..s
            };
            let finding_entry = InjectionState {
                phase: InjectionPhase::FindingEntry { region, module },
                ..s
            };
            let starting = InjectionState {
                phase: InjectionPhase::Starting { region, entry },
                ..s
            };
            &&& injection_pending(s) == InjectionRequest::Allocate {
                size: s.path.len() as usize,
                allocation_type: MEM_COMMIT,
                protection: PAGE_EXECUTE_READWRITE,
            }
            &&& injection_next(s, InjectionAnswer::Allocated(Ok(region)))
                == InjectionStepView::Ask(
                writing,
                InjectionRequest::Write { address: region, size: s.path.len() as usize },
            )
            &&& injection_next(writing, InjectionAnswer::Written(Ok(written)))
                == InjectionStepView::Ask(finding_module, InjectionRequest::FindLoaderModule)
            &&& injection_next(finding_module, InjectionAnswer::LoaderModule(Ok(module)))
                == InjectionStepView::Ask(
                finding_entry,
                InjectionRequest::FindLoaderEntry { module },
            )
            &&& injection_next(finding_entry, InjectionAnswer::LoaderEntry(Ok(entry)))
                == InjectionStepView::Ask(
                starting,
                InjectionRequest::StartThread { entry, parameter: region },
            )
            &&& injection_next(starting, InjectionAnswer::ThreadStarted(Ok(thread)))
                == InjectionStepView::Done(Ok(()))
        }),
{
}

/// The failure of the pending request ends an injection with that failure,
/// whichever request it was.
pub proof fn lemma_injection_fails_with_the_request(s: InjectionState, e: OsError)
    ensures
        s.phase is Allocating ==> injection_next(s, InjectionAnswer::Allocated(Err(e)))
            == InjectionStepView::Done(Err(e)),
        s.phase is Writing ==> injection_next(s, InjectionAnswer::Written(Err(e)))
            == InjectionStepView::Done(Err(e)),
        s.phase is FindingModule ==> injection_next(s, InjectionAnswer::LoaderModule(Err(e)))
            == InjectionStepView::Done(Err(e)),
        s.phase is FindingEntry ==> injection_next(s, InjectionAnswer::LoaderEntry(Err(e)))
            == InjectionStepView::Done(Err(e)),
        s.phase is Starting ==> injection_next(s, InjectionAnswer::ThreadStarted(Err(e)))
            == InjectionStepView::Done(Err(e)),
{
}

} // verus!
