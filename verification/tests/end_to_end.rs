use std::collections::HashMap;
use wapi::constants::{
    PROCESS_QUERY_INFORMATION, PROCESS_VM_OPERATION, PROCESS_VM_READ, PROCESS_VM_WRITE,
};
use wapi::dll_injector::{
    loader_entry, loader_module, Injection, InjectionAnswer, InjectionRequest, InjectionStep,
};
use wapi::error::{MemoryError, OsError};
use wapi::memory::{check_address, complete_transfer, displace, MultiLevelPointer, WalkStep};
use wapi::process::Process;
use wapi::search::{Answer, ProcessSearch, Request, Step};

const MODULE_BASE: usize = 0x0040_0000;
const LOADER_MODULE: isize = 0x7FF8_0000;
const LOADER_ENTRY: usize = 0x7FF8_1230;

/// A target process that lives in the test: its memory is a table of bytes,
/// and its loader records what it was asked to load.
struct Target {
    pid: u32,
    name: &'static str,
    memory: HashMap<usize, u8>,
    next_region: usize,
    next_handle: isize,
    open: Vec<isize>,
    loaded: Vec<String>,
}

impl Target {
    fn new() -> Target {
        Target {
            pid: 4711,
            name: "Target.exe",
            memory: HashMap::new(),
            next_region: 0x2000_0000,
            next_handle: 0x50,
            open: Vec::new(),
            loaded: Vec::new(),
        }
    }

    fn poke(&mut self, address: usize, bytes: &[u8]) {
        for (i, byte) in bytes.iter().enumerate() {
            self.memory.insert(address + i, *byte);
        }
    }

    fn read_raw(&self, address: usize, size: usize) -> Result<(Vec<u8>, usize), OsError> {
        let mut bytes = Vec::new();
        for i in 0..size {
            match self.memory.get(&(address + i)) {
                Some(byte) => bytes.push(*byte),
                None => break,
            }
        }
        if bytes.is_empty() && size > 0 {
            Err(OsError { code: 299 })
        } else {
            let count = bytes.len();
            Ok((bytes, count))
        }
    }

    fn read_bytes(&self, address: usize, size: usize) -> Result<Vec<u8>, MemoryError> {
        match self.read_raw(address, size) {
            Ok((bytes, count)) => complete_transfer(size, Ok(count)).map(|_| bytes),
            Err(e) => complete_transfer(size, Err(e)).map(|_| Vec::new()),
        }
    }

    fn write_bytes(&mut self, address: usize, bytes: &[u8]) -> Result<usize, MemoryError> {
        self.poke(address, bytes);
        complete_transfer(bytes.len(), Ok(bytes.len()))
    }

    fn read_pointer(&self, address: usize) -> Result<usize, MemoryError> {
        let bytes = self.read_bytes(address, 8)?;
        let mut raw = [0u8; 8];
        raw.copy_from_slice(&bytes);
        Ok(u64::from_le_bytes(raw) as usize)
    }

    fn search_answer(&mut self, request: Request) -> Answer {
        match request {
            Request::EnumeratePids { .. } => Answer::Pids(Ok(vec![4, self.pid, 9000])),
            Request::Open { pid, .. } => {
                if pid == self.pid {
                    let handle = self.next_handle;
                    self.next_handle += 4;
                    self.open.push(handle);
                    Answer::Opened(Ok(handle))
                } else {
                    Answer::Opened(Err(OsError { code: 5 }))
                }
            }
            Request::QueryWow64 { .. } => Answer::Wow64(Ok(false)),
            Request::FirstModule { .. } => Answer::Module(Ok(MODULE_BASE)),
            Request::BaseName { .. } => Answer::BaseName(Ok(String::from(self.name))),
            Request::Close { handle } => {
                self.open.retain(|h| *h != handle);
                Answer::Closed(Ok(()))
            }
        }
    }

    fn injection_answer(
        &mut self,
        injection: &Injection,
        request: InjectionRequest,
    ) -> InjectionAnswer {
        match request {
            InjectionRequest::Allocate { size, .. } => {
                let region = self.next_region;
                self.next_region += size.max(1);
                InjectionAnswer::Allocated(check_address(region).ok_or(OsError { code: 8 }))
            }
            InjectionRequest::Write { address, size } => {
                let path = injection.path().clone();
                assert_eq!(size, path.len());
                self.poke(address, &path);
                InjectionAnswer::Written(Ok(size))
            }
            InjectionRequest::FindLoaderModule => {
                assert_eq!(loader_module(), "kernel32.dll");
                InjectionAnswer::LoaderModule(Ok(LOADER_MODULE))
            }
            InjectionRequest::FindLoaderEntry { module } => {
                assert_eq!(module, LOADER_MODULE);
                assert_eq!(loader_entry(), "LoadLibraryA");
                InjectionAnswer::LoaderEntry(Ok(LOADER_ENTRY))
            }
            InjectionRequest::StartThread { entry, parameter } => {
                assert_eq!(entry, LOADER_ENTRY);
                let mut path = Vec::new();
                let mut at = parameter;
                while let Some(byte) = self.memory.get(&at) {
                    if *byte == 0 {
                        break;
                    }
                    path.push(*byte);
                    at += 1;
                }
                self.loaded.push(String::from_utf8(path).expect("a path"));
                InjectionAnswer::ThreadStarted(Ok(0x90))
            }
        }
    }
}

fn locate(target: &mut Target, name: &str) -> Process {
    let access =
        PROCESS_QUERY_INFORMATION | PROCESS_VM_READ | PROCESS_VM_WRITE | PROCESS_VM_OPERATION;
    let (mut search, mut request) = ProcessSearch::start(name, None, access);
    loop {
        let answer = target.search_answer(request);
        match search.step(answer) {
            Step::Ask(next, next_request) => {
                search = next;
                request = next_request;
            }
            Step::Done(outcome) => return outcome.expect("the target runs"),
        }
    }
}

fn resolve(target: &Target, process: &Process, mlp: &MultiLevelPointer, offset: usize) -> usize {
    let (mut walk, mut address) = mlp.walk(process, offset);
    loop {
        match walk.step(target.read_pointer(address)) {
            WalkStep::Read(next, next_address) => {
                walk = next;
                address = next_address;
            }
            WalkStep::Resolved(resolved) => return resolved,
            WalkStep::Failed(e) => panic!("read failed: {:?}", e),
        }
    }
}

fn inject(target: &mut Target, path: &str) -> Result<(), OsError> {
    let (mut injection, mut request) = Injection::start(path).expect("encodable path");
    loop {
        let answer = target.injection_answer(&injection, request);
        match injection.step(answer) {
            InjectionStep::Ask(next, next_request) => {
                injection = next;
                request = next_request;
            }
            InjectionStep::Done(outcome) => return outcome,
        }
    }
}

#[test]
fn locate_read_write_and_inject_on_a_simulated_target() {
    let mut target = Target::new();
    let pattern = [0xDE, 0xAD, 0xBE, 0xEF];
    let replacement = [0x01, 0x02, 0x03, 0x04];
    target.poke(MODULE_BASE + 0x1000, &pattern);

    let process = locate(&mut target, "target.EXE");
    assert_eq!(process.pid, 4711);
    assert_eq!(process.name, "Target.exe");
    assert_eq!(process.module_base, MODULE_BASE);
    assert_eq!(target.open, vec![process.handle.raw()]);

    let at = displace(process.module_base, 0x1000);
    assert_eq!(target.read_bytes(at, 4), Ok(pattern.to_vec()));
    assert_eq!(target.write_bytes(at, &replacement), Ok(4));
    assert_eq!(target.read_bytes(at, 4), Ok(replacement.to_vec()));

    assert_eq!(inject(&mut target, "C:\\mods\\probe.dll"), Ok(()));
    assert_eq!(target.loaded, vec![String::from("C:\\mods\\probe.dll")]);
}

#[test]
fn value_behind_a_chain_survives_a_round_trip() {
    let mut target = Target::new();
    target.poke(MODULE_BASE + 0x100, &0x1000_0000u64.to_le_bytes());
    target.poke(0x1000_0000 + 0x50, &0x2000_0000u64.to_le_bytes());
    target.poke(0x2000_0000 + 0x10, &0x3000_0000u64.to_le_bytes());
    target.poke(0x3000_0000 + 0x20 + 0x58, &1200i32.to_le_bytes());

    let process = locate(&mut target, "target.exe");
    let hp = MultiLevelPointer { base_address: 0x100, offsets: vec![0x50, 0x10, 0x20] };
    let address = resolve(&target, &process, &hp, 0x58);
    assert_eq!(address, 0x3000_0000 + 0x20 + 0x58);

    let original = target.read_bytes(address, 4).expect("readable");
    assert_eq!(target.write_bytes(address, &original), Ok(4));
    assert_eq!(target.read_bytes(address, 4), Ok(original));
}

#[test]
fn read_past_the_mapped_bytes_is_short() {
    let mut target = Target::new();
    target.poke(0x5000, &[1, 2, 3]);
    assert_eq!(
        target.read_bytes(0x5000, 8),
        Err(MemoryError::ShortTransfer { requested: 8, transferred: 3 })
    );
    assert_eq!(target.read_bytes(0x9000, 8), Err(MemoryError::Os(OsError { code: 299 })));
}
