use wapi::constants::{PROBE_ACCESS, PROCESS_VM_READ, PROCESS_VM_WRITE};
use wapi::error::{OsError, SearchError};
use wapi::process::{may_be_truncated, module_listing, reported_pids, size_pid_buffer};
use wapi::process::{ModuleListing, Process};
use wapi::search::{Answer, ProcessSearch, Request, Step};

const ACCESS: u32 = PROCESS_VM_READ | PROCESS_VM_WRITE;

/// What a process of the simulated platform lets a caller do with it.
#[derive(Clone)]
struct Sim {
    pid: u32,
    openable: bool,
    wow64: Result<bool, i32>,
    module: Result<usize, i32>,
    name: Result<&'static str, i32>,
    reopenable: Result<(), i32>,
}

fn sim(pid: u32, name: &'static str) -> Sim {
    Sim {
        pid,
        openable: true,
        wow64: Ok(false),
        module: Ok(0x0040_0000 + pid as usize),
        name: Ok(name),
        reopenable: Ok(()),
    }
}

/// A platform that answers from a table and keeps books on handles.
struct Platform {
    sims: Vec<Sim>,
    enumeration: Result<(), i32>,
    failing_close: bool,
    next_handle: isize,
    open: Vec<(isize, u32, u32)>,
    opened: Vec<isize>,
    closed: Vec<isize>,
    log: Vec<Request>,
}

impl Platform {
    fn new(sims: Vec<Sim>) -> Platform {
        Platform {
            sims,
            enumeration: Ok(()),
            failing_close: false,
            next_handle: 0x100,
            open: Vec::new(),
            opened: Vec::new(),
            closed: Vec::new(),
            log: Vec::new(),
        }
    }

    fn sim_of(&self, handle: isize) -> Sim {
        let (_, pid, _) = self.open.iter().find(|(h, _, _)| *h == handle).expect("open handle");
        self.sims.iter().find(|s| s.pid == *pid).expect("known pid").clone()
    }

    fn answer(&mut self, request: Request) -> Answer {
        self.log.push(request);
        match request {
            Request::EnumeratePids { max } => match self.enumeration {
                Ok(()) => Answer::Pids(Ok(self
                    .sims
                    .iter()
                    .map(|s| s.pid)
                    .take(max as usize)
                    .collect())),
                Err(code) => Answer::Pids(Err(OsError { code })),
            },
            Request::Open { pid, access } => {
                let sim = self.sims.iter().find(|s| s.pid == pid).expect("known pid").clone();
                let allowed = if access == PROBE_ACCESS {
                    if sim.openable {
                        Ok(())
                    } else {
                        Err(5)
                    }
                } else {
                    sim.reopenable
                };
                match allowed {
                    Ok(()) => {
                        let handle = self.next_handle;
                        self.next_handle += 4;
                        self.open.push((handle, pid, access));
                        self.opened.push(handle);
                        Answer::Opened(Ok(handle))
                    }
                    Err(code) => Answer::Opened(Err(OsError { code })),
                }
            }
            Request::QueryWow64 { handle } => {
                Answer::Wow64(self.sim_of(handle).wow64.map_err(|code| OsError { code }))
            }
            Request::FirstModule { handle, listing } => {
                let sim = self.sim_of(handle);
                assert_eq!(listing, module_listing(sim.wow64.expect("asked before")));
                Answer::Module(sim.module.map_err(|code| OsError { code }))
            }
            Request::BaseName { handle, module } => {
                let sim = self.sim_of(handle);
                assert_eq!(Ok(module), sim.module);
                Answer::BaseName(
                    sim.name.map(|n| String::from(n)).map_err(|code| OsError { code }),
                )
            }
            Request::Close { handle } => {
                let at = self.open.iter().position(|(h, _, _)| *h == handle).expect("open handle");
                self.open.remove(at);
                self.closed.push(handle);
                if self.failing_close {
                    Answer::Closed(Err(OsError { code: 6 }))
                } else {
                    Answer::Closed(Ok(()))
                }
            }
        }
    }
}

fn search(
    platform: &mut Platform,
    name: &str,
    max: Option<u32>,
    access: u32,
) -> Result<Process, SearchError> {
    let (mut search, mut request) = ProcessSearch::start(name, max, access);
    loop {
        assert_eq!(search.request(), request);
        let answer = platform.answer(request);
        match search.step(answer) {
            Step::Ask(next, next_request) => {
                search = next;
                request = next_request;
            }
            Step::Done(outcome) => return outcome,
        }
    }
}

fn table() -> Vec<Sim> {
    vec![sim(4, "System"), sim(100, "explorer.exe"), sim(200, "Notepad.exe"), sim(300, "cmd.exe")]
}

#[test]
fn finds_the_process_by_its_name() {
    let mut platform = Platform::new(table());
    let process = search(&mut platform, "Notepad.exe", None, ACCESS).expect("found");
    assert_eq!(process.pid, 200);
    assert_eq!(process.name, "Notepad.exe");
    assert_eq!(process.module_base, 0x0040_0000 + 200);
    assert!(!process.handle.is_invalid());
    assert_eq!(platform.open, vec![(process.handle.raw(), 200, ACCESS)]);
}

#[test]
fn search_is_case_insensitive() {
    let mut upper = Platform::new(table());
    let mut lower = Platform::new(table());
    let found_upper = search(&mut upper, "Notepad.EXE", None, ACCESS).expect("found");
    let found_lower = search(&mut lower, "notepad.exe", None, ACCESS).expect("found");
    assert_eq!(found_upper, found_lower);
    assert_eq!(found_upper.pid, 200);
    assert_eq!(found_upper.name, "Notepad.exe");
    assert_eq!(upper.log, lower.log);
}

#[test]
fn missing_name_is_not_found() {
    let mut platform = Platform::new(table());
    let outcome = search(&mut platform, "calc.exe", None, ACCESS);
    assert_eq!(outcome, Err(SearchError::NotFound));
    assert!(platform.open.is_empty());
    assert_eq!(platform.opened.len(), 4);
    assert_eq!(platform.closed, platform.opened);
}

#[test]
fn empty_enumeration_is_not_found() {
    let mut platform = Platform::new(Vec::new());
    assert_eq!(search(&mut platform, "notepad.exe", None, ACCESS), Err(SearchError::NotFound));
    assert_eq!(platform.log, vec![Request::EnumeratePids { max: 1024 }]);
}

#[test]
fn failed_enumeration_fails_the_search() {
    let mut platform = Platform::new(table());
    platform.enumeration = Err(87);
    assert_eq!(
        search(&mut platform, "notepad.exe", None, ACCESS),
        Err(SearchError::Os(OsError { code: 87 }))
    );
    assert_eq!(platform.log.len(), 1);
}

#[test]
fn bound_defaults_to_1024_and_can_be_given() {
    let (_, request) = ProcessSearch::start("a", None, ACCESS);
    assert_eq!(request, Request::EnumeratePids { max: 1024 });
    let (_, request) = ProcessSearch::start("a", Some(16), ACCESS);
    assert_eq!(request, Request::EnumeratePids { max: 16 });
    let mut platform = Platform::new(table());
    assert_eq!(search(&mut platform, "notepad.exe", Some(2), ACCESS), Err(SearchError::NotFound));
}

#[test]
fn requests_follow_the_probe_of_each_candidate() {
    let mut platform = Platform::new(vec![sim(7, "a.exe"), sim(9, "b.exe")]);
    let process = search(&mut platform, "B.EXE", Some(64), ACCESS).expect("found");
    assert_eq!(process.pid, 9);
    assert_eq!(
        platform.log,
        vec![
            Request::EnumeratePids { max: 64 },
            Request::Open { pid: 7, access: 0x0410 },
            Request::QueryWow64 { handle: 0x100 },
            Request::FirstModule { handle: 0x100, listing: ModuleListing::Plain },
            Request::BaseName { handle: 0x100, module: 0x0040_0007 },
            Request::Close { handle: 0x100 },
            Request::Open { pid: 9, access: 0x0410 },
            Request::QueryWow64 { handle: 0x104 },
            Request::FirstModule { handle: 0x104, listing: ModuleListing::Plain },
            Request::BaseName { handle: 0x104, module: 0x0040_0009 },
            Request::Close { handle: 0x104 },
            Request::Open { pid: 9, access: ACCESS },
        ]
    );
    assert_eq!(process.handle.raw(), 0x108);
}

#[test]
fn candidates_that_cannot_be_probed_are_passed_over() {
    let mut locked = sim(10, "notepad.exe");
    locked.openable = false;
    let mut unclassified = sim(20, "notepad.exe");
    unclassified.wow64 = Err(5);
    let mut no_modules = sim(30, "notepad.exe");
    no_modules.module = Err(299);
    let mut unnamed = sim(40, "notepad.exe");
    unnamed.name = Err(6);
    let mut platform =
        Platform::new(vec![locked, unclassified, no_modules, unnamed, sim(50, "notepad.exe")]);
    let process = search(&mut platform, "notepad.exe", None, ACCESS).expect("found");
    assert_eq!(process.pid, 50);
    assert_eq!(platform.open, vec![(process.handle.raw(), 50, ACCESS)]);
    assert_eq!(platform.opened.len(), 5);
    assert_eq!(platform.closed.len(), 4);
}

#[test]
fn only_unprobeable_candidates_is_not_found() {
    let mut locked = sim(10, "notepad.exe");
    locked.openable = false;
    let mut unnamed = sim(40, "notepad.exe");
    unnamed.name = Err(6);
    let mut platform = Platform::new(vec![locked, unnamed]);
    assert_eq!(search(&mut platform, "notepad.exe", None, ACCESS), Err(SearchError::NotFound));
    assert!(platform.open.is_empty());
}

#[test]
fn emulated_process_is_listed_with_the_filter() {
    let mut emulated = sim(8, "old.exe");
    emulated.wow64 = Ok(true);
    let mut platform = Platform::new(vec![emulated]);
    let process = search(&mut platform, "old.exe", None, ACCESS).expect("found");
    assert_eq!(process.pid, 8);
    assert!(platform
        .log
        .contains(&Request::FirstModule { handle: 0x100, listing: ModuleListing::Filtered }));
    assert_eq!(module_listing(true), ModuleListing::Filtered);
    assert_eq!(module_listing(false), ModuleListing::Plain);
}

#[test]
fn last_match_wins_and_the_earlier_one_is_closed() {
    let mut platform = Platform::new(vec![
        sim(1, "twin.exe"),
        sim(2, "other.exe"),
        sim(3, "TWIN.exe"),
        sim(4, "other.exe"),
    ]);
    let process = search(&mut platform, "twin.exe", None, ACCESS).expect("found");
    assert_eq!(process.pid, 3);
    assert_eq!(process.name, "TWIN.exe");
    assert_eq!(platform.open, vec![(process.handle.raw(), 3, ACCESS)]);
    assert_eq!(platform.opened.len(), 6);
    assert_eq!(platform.closed.len(), 5);
}

#[test]
fn failed_reopen_fails_the_search_with_its_error() {
    let mut guarded = sim(2, "guarded.exe");
    guarded.reopenable = Err(5);
    let mut platform = Platform::new(vec![sim(1, "a.exe"), guarded, sim(3, "guarded.exe")]);
    assert_eq!(
        search(&mut platform, "guarded.exe", None, ACCESS),
        Err(SearchError::Os(OsError { code: 5 }))
    );
    assert!(platform.open.is_empty());
    assert!(!platform.log.contains(&Request::Open { pid: 3, access: PROBE_ACCESS }));
}

#[test]
fn failed_reopen_closes_an_earlier_match_first() {
    let mut guarded = sim(2, "twin.exe");
    guarded.reopenable = Err(1314);
    let mut platform = Platform::new(vec![sim(1, "twin.exe"), guarded]);
    assert_eq!(
        search(&mut platform, "twin.exe", None, ACCESS),
        Err(SearchError::Os(OsError { code: 1314 }))
    );
    assert!(platform.open.is_empty());
    assert_eq!(platform.opened.len(), 3);
    assert_eq!(platform.closed.len(), 3);
    assert_eq!(platform.log.last(), Some(&Request::Close { handle: 0x104 }));
}

#[test]
fn failing_close_does_not_change_the_outcome() {
    let mut platform = Platform::new(table());
    platform.failing_close = true;
    let process = search(&mut platform, "notepad.exe", None, ACCESS).expect("found");
    assert_eq!(process.pid, 200);
    let mut platform = Platform::new(table());
    platform.failing_close = true;
    assert_eq!(search(&mut platform, "calc.exe", None, ACCESS), Err(SearchError::NotFound));
}

#[test]
fn answer_to_another_request_changes_nothing() {
    let (search, request) = ProcessSearch::start("notepad.exe", None, ACCESS);
    let (search, repeated) = match search.step(Answer::Closed(Ok(()))) {
        Step::Ask(search, request) => (search, request),
        Step::Done(outcome) => panic!("ended with {:?}", outcome),
    };
    assert_eq!(repeated, request);
    let (search, request) = match search.step(Answer::Pids(Ok(vec![11]))) {
        Step::Ask(search, request) => (search, request),
        Step::Done(outcome) => panic!("ended with {:?}", outcome),
    };
    assert_eq!(request, Request::Open { pid: 11, access: PROBE_ACCESS });
    match search.step(Answer::BaseName(Ok(String::from("notepad.exe")))) {
        Step::Ask(search, repeated) => {
            assert_eq!(repeated, request);
            assert_eq!(search.request(), request);
        }
        Step::Done(outcome) => panic!("ended with {:?}", outcome),
    }
}

#[test]
fn decided_step_takes_the_comparison_from_its_caller() {
    let (search, _) = ProcessSearch::start("notepad.exe", None, ACCESS);
    let answers = vec![
        Answer::Pids(Ok(vec![5])),
        Answer::Opened(Ok(0x20)),
        Answer::Wow64(Ok(false)),
        Answer::Module(Ok(0x1000)),
    ];
    let mut search = search;
    for answer in answers {
        search = match search.step_decided(answer, false) {
            Step::Ask(search, _) => search,
            Step::Done(outcome) => panic!("ended with {:?}", outcome),
        };
    }
    let search = match search.step_decided(Answer::BaseName(Ok(String::from("x.exe"))), true) {
        Step::Ask(search, request) => {
            assert_eq!(request, Request::Close { handle: 0x20 });
            search
        }
        Step::Done(outcome) => panic!("ended with {:?}", outcome),
    };
    let search = match search.step_decided(Answer::Closed(Ok(())), false) {
        Step::Ask(search, request) => {
            assert_eq!(request, Request::Open { pid: 5, access: ACCESS });
            search
        }
        Step::Done(outcome) => panic!("ended with {:?}", outcome),
    };
    match search.step_decided(Answer::Opened(Ok(0x24)), false) {
        Step::Done(Ok(process)) => {
            assert_eq!(process.pid, 5);
            assert_eq!(process.name, "x.exe");
            assert_eq!(process.module_base, 0x1000);
            assert_eq!(process.handle.raw(), 0x24);
        }
        other => panic!("unexpected step: {:?}", other),
    }
}

#[test]
fn reopened_handle_that_is_invalid_is_no_process() {
    let (search, _) = ProcessSearch::start("x.exe", None, ACCESS);
    let answers = vec![
        Answer::Pids(Ok(vec![5])),
        Answer::Opened(Ok(0x20)),
        Answer::Wow64(Ok(false)),
        Answer::Module(Ok(0x1000)),
        Answer::BaseName(Ok(String::from("x.exe"))),
        Answer::Closed(Ok(())),
    ];
    let mut search = search;
    for answer in answers {
        search = match search.step(answer) {
            Step::Ask(search, _) => search,
            Step::Done(outcome) => panic!("ended with {:?}", outcome),
        };
    }
    match search.step(Answer::Opened(Ok(-1))) {
        Step::Done(outcome) => assert_eq!(outcome, Err(SearchError::NotFound)),
        other => panic!("unexpected step: {:?}", other),
    }
}

#[test]
fn pid_buffer_is_sized_in_bytes() {
    assert_eq!(size_pid_buffer(1024), (1024, 4096));
    assert_eq!(size_pid_buffer(0), (0, 0));
    assert_eq!(size_pid_buffer(0x3fff_ffff), (0x3fff_ffff, 0xffff_fffc));
    assert_eq!(size_pid_buffer(u32::MAX), (0x3fff_ffff, 0xffff_fffc));
}

#[test]
fn reported_pids_are_the_written_part_of_the_buffer() {
    assert_eq!(reported_pids(vec![4, 8, 12, 0, 0], 12), vec![4, 8, 12]);
    assert_eq!(reported_pids(vec![4, 8, 12, 0, 0], 0), Vec::<u32>::new());
    assert_eq!(reported_pids(vec![4, 8, 12], 12), vec![4, 8, 12]);
    assert_eq!(reported_pids(vec![4, 8, 12], 400), vec![4, 8, 12]);
    assert_eq!(reported_pids(vec![4, 8, 12], 7), vec![4]);
}

#[test]
fn full_buffer_may_have_left_processes_out() {
    assert!(may_be_truncated(1024, 1024));
    assert!(!may_be_truncated(1023, 1024));
    assert!(may_be_truncated(0, 0));
}
