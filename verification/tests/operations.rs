use proc_mem::host::{
    Handle, ModuleEntry, ProcessEntry, Reply, Request, Step, FALSE, MAX_PATH, MODULE_NAME_LEN, TRUE,
};
use proc_mem::memory::{resolve, MemoryRead, MemoryWrite, RelativeRead, RelativeWrite};
use proc_mem::module::Module;
use proc_mem::process::Process;
use proc_mem::search::{ModuleSearch, ProcessSearch};
use proc_mem::snapshot::Snapshot;
use proc_mem::utils::WinErrorKind;
use std::collections::BTreeMap;

const SNAPSHOT: Handle = Handle { raw: 0x40 };
const ACCESS: Handle = Handle { raw: 0x88 };

fn wide<const N: usize>(text: &str) -> [u16; N] {
    let mut field = [0u16; N];
    for (i, unit) in text.encode_utf16().enumerate() {
        field[i] = unit;
    }
    field
}

fn process_entry(pid: u32, name: &str) -> ProcessEntry {
    ProcessEntry { pid, exe_file: wide::<MAX_PATH>(name) }
}

fn module_entry(name: &str, base_address: usize, base_size: u32) -> ModuleEntry {
    ModuleEntry { base_address, base_size, module: wide::<MODULE_NAME_LEN>(name) }
}

/// A host made of plain values: two listings, a flat memory, and a record of
/// everything that was asked of it.
struct Host {
    processes: Vec<ProcessEntry>,
    modules: Vec<ModuleEntry>,
    snapshot: Handle,
    access: Handle,
    cursor: usize,
    memory: BTreeMap<u32, u8>,
    limit: u64,
    asked: Vec<Request>,
}

impl Host {
    fn new() -> Host {
        Host {
            processes: Vec::new(),
            modules: Vec::new(),
            snapshot: SNAPSHOT,
            access: ACCESS,
            cursor: 0,
            memory: BTreeMap::new(),
            limit: 1 << 32,
            asked: Vec::new(),
        }
    }

    fn with_processes(names: &[(u32, &str)]) -> Host {
        let mut host = Host::new();
        for (pid, name) in names {
            host.processes.push(process_entry(*pid, name));
        }
        host
    }

    fn with_modules(modules: &[(&str, usize, u32)]) -> Host {
        let mut host = Host::new();
        for (name, base, size) in modules {
            host.modules.push(module_entry(name, *base, *size));
        }
        host
    }

    fn process_at(&mut self) -> Reply {
        let blank = process_entry(0, "");
        match self.processes.get(self.cursor) {
            Some(entry) => {
                self.cursor += 1;
                Reply::Process { status: TRUE, entry: *entry }
            },
            None => Reply::Process { status: FALSE, entry: blank },
        }
    }

    fn module_at(&mut self) -> Reply {
        let blank = module_entry("", 0, 0);
        match self.modules.get(self.cursor) {
            Some(entry) => {
                self.cursor += 1;
                Reply::Module { status: TRUE, entry: *entry }
            },
            None => Reply::Module { status: FALSE, entry: blank },
        }
    }

    fn perform(&mut self, request: Request) -> Reply {
        self.asked.push(request.clone());
        match request {
            Request::ProcessSnapshot | Request::ModuleSnapshot { .. } => {
                self.cursor = 0;
                Reply::Handle(self.snapshot)
            },
            Request::FirstProcess { .. } => {
                self.cursor = 0;
                self.process_at()
            },
            Request::NextProcess { .. } => self.process_at(),
            Request::FirstModule { .. } => {
                self.cursor = 0;
                self.module_at()
            },
            Request::NextModule { .. } => self.module_at(),
            Request::OpenProcess { .. } => Reply::Handle(self.access),
            Request::Read { process, address, width } => {
                let mut bytes = vec![0u8; width];
                if process != self.access || address as u64 + width as u64 > self.limit {
                    return Reply::Read { status: FALSE, bytes };
                }
                for i in 0..width {
                    bytes[i] = *self.memory.get(&(address + i as u32)).unwrap_or(&0);
                }
                Reply::Read { status: TRUE, bytes }
            },
            Request::Write { process, address, bytes } => {
                if process != self.access || address as u64 + bytes.len() as u64 > self.limit
                {
                    return Reply::Status(FALSE);
                }
                for (i, byte) in bytes.iter().enumerate() {
                    self.memory.insert(address + i as u32, *byte);
                }
                Reply::Status(TRUE)
            },
            Request::Close { .. } => Reply::Status(TRUE),
        }
    }

    fn closings(&self) -> Vec<Handle> {
        let mut closed = Vec::new();
        for request in &self.asked {
            if let Request::Close { handle } = request {
                closed.push(*handle);
            }
        }
        closed
    }
}

trait Operation: Sized {
    type Outcome;
    fn on(self, reply: Reply) -> Step<Self, Self::Outcome>;
}

impl Operation for ProcessSearch {
    type Outcome = Process;
    fn on(self, reply: Reply) -> Step<Self, Process> {
        self.advance(reply)
    }
}

impl Operation for ModuleSearch {
    type Outcome = Module;
    fn on(self, reply: Reply) -> Step<Self, Module> {
        self.advance(reply)
    }
}

impl Operation for MemoryRead {
    type Outcome = Vec<u8>;
    fn on(self, reply: Reply) -> Step<Self, Vec<u8>> {
        self.advance(reply)
    }
}

impl Operation for MemoryWrite {
    type Outcome = ();
    fn on(self, reply: Reply) -> Step<Self, ()> {
        self.advance(reply)
    }
}

impl Operation for RelativeRead {
    type Outcome = Vec<u8>;
    fn on(self, reply: Reply) -> Step<Self, Vec<u8>> {
        self.advance(reply)
    }
}

impl Operation for RelativeWrite {
    type Outcome = ();
    fn on(self, reply: Reply) -> Step<Self, ()> {
        self.advance(reply)
    }
}

fn drive<M: Operation>(host: &mut Host, start: Step<M, M::Outcome>) -> Result<M::Outcome, WinErrorKind> {
    let mut step = start;
    loop {
        match step {
            Step::Ask { machine, request } => {
                let reply = host.perform(request);
                step = machine.on(reply);
            },
            Step::Done(result) => return result,
        }
    }
}

/// Hands `reply` to an operation that must be waiting, and gives the next step.
fn answer<M: Operation>(step: Step<M, M::Outcome>, reply: Reply) -> Step<M, M::Outcome> {
    match step {
        Step::Ask { machine, .. } => machine.on(reply),
        Step::Done(_) => panic!("the operation is over"),
    }
}

fn pending<M, T>(step: &Step<M, T>) -> Request {
    match step {
        Step::Ask { request, .. } => request.clone(),
        Step::Done(_) => panic!("the operation is over"),
    }
}

fn outcome<M, T>(step: Step<M, T>) -> Result<T, WinErrorKind> {
    match step {
        Step::Done(result) => result,
        Step::Ask { request, .. } => panic!("the operation still asks {:?}", request),
    }
}

fn open(host: &mut Host, name: &str) -> Process {
    drive(host, Process::find(name)).unwrap()
}

fn fresh_process() -> (Host, Process) {
    let mut host = Host::with_processes(&[(42, "game.exe")]);
    let process = open(&mut host, "game.exe");
    host.asked.clear();
    (host, process)
}

#[test]
fn find_starts_with_the_process_snapshot() {
    assert_eq!(pending(&Process::find("firefox")), Request::ProcessSnapshot);
}

#[test]
fn find_returns_the_first_process_whose_name_matches() {
    let mut host = Host::with_processes(&[
        (4, "System"),
        (812, "explorer.exe"),
        (1500, "firefox.exe"),
        (1600, "firefox.exe"),
    ]);
    let process = drive(&mut host, Process::find("firefox")).unwrap();
    assert_eq!(process.pid(), 1500);
    assert_eq!(process.name(), "firefox.exe");
    assert_eq!(process.handle(), ACCESS);
    assert!(process.name().starts_with("firefox"));
}

#[test]
fn find_asks_snapshot_first_next_open_close_in_order() {
    let mut host = Host::with_processes(&[(4, "System"), (812, "explorer.exe"), (9, "calc.exe")]);
    drive(&mut host, Process::find("calc")).unwrap();
    assert_eq!(
        host.asked,
        vec![
            Request::ProcessSnapshot,
            Request::FirstProcess { snapshot: SNAPSHOT },
            Request::NextProcess { snapshot: SNAPSHOT },
            Request::NextProcess { snapshot: SNAPSHOT },
            Request::OpenProcess { pid: 9 },
            Request::Close { handle: SNAPSHOT },
        ]
    );
}

#[test]
fn find_stops_walking_at_the_match() {
    let mut host = Host::with_processes(&[(7, "calc.exe"), (8, "notepad.exe")]);
    drive(&mut host, Process::find("calc.exe")).unwrap();
    assert_eq!(
        host.asked,
        vec![
            Request::ProcessSnapshot,
            Request::FirstProcess { snapshot: SNAPSHOT },
            Request::OpenProcess { pid: 7 },
            Request::Close { handle: SNAPSHOT },
        ]
    );
}

#[test]
fn find_matches_by_prefix_not_by_equality() {
    let mut host = Host::with_processes(&[(31, "firefox.exe.bak"), (32, "firefox.exe")]);
    let process = drive(&mut host, Process::find("firefox.exe")).unwrap();
    assert_eq!(process.pid(), 31);
    assert_eq!(process.name(), "firefox.exe.bak");
}

#[test]
fn find_is_case_sensitive() {
    let mut host = Host::with_processes(&[(31, "Firefox.exe"), (32, "firefox.exe")]);
    let process = drive(&mut host, Process::find("firefox")).unwrap();
    assert_eq!(process.pid(), 32);
}

#[test]
fn find_with_the_empty_name_takes_the_first_process() {
    let mut host = Host::with_processes(&[(4, "System"), (812, "explorer.exe")]);
    let process = drive(&mut host, Process::find("")).unwrap();
    assert_eq!(process.pid(), 4);
    assert_eq!(process.name(), "System");
}

#[test]
fn find_does_not_match_a_name_shorter_than_the_one_sought() {
    let mut host = Host::with_processes(&[(5, "fire"), (6, "firefox.exe")]);
    let process = drive(&mut host, Process::find("firefox")).unwrap();
    assert_eq!(process.pid(), 6);
}

#[test]
fn find_of_a_name_that_no_process_bears_fails() {
    let mut host = Host::with_processes(&[(4, "System"), (812, "explorer.exe")]);
    let result = drive(&mut host, Process::find("firefox"));
    assert_eq!(result.err(), Some(WinErrorKind::FindProcessError));
    assert_eq!(
        host.asked,
        vec![
            Request::ProcessSnapshot,
            Request::FirstProcess { snapshot: SNAPSHOT },
            Request::NextProcess { snapshot: SNAPSHOT },
            Request::NextProcess { snapshot: SNAPSHOT },
            Request::Close { handle: SNAPSHOT },
        ]
    );
}

#[test]
fn find_on_an_empty_listing_fails_and_closes_the_snapshot() {
    let mut host = Host::new();
    let result = drive(&mut host, Process::find("firefox"));
    assert_eq!(result.err(), Some(WinErrorKind::FindProcessError));
    assert_eq!(
        host.asked,
        vec![
            Request::ProcessSnapshot,
            Request::FirstProcess { snapshot: SNAPSHOT },
            Request::Close { handle: SNAPSHOT },
        ]
    );
}

#[test]
fn find_without_a_valid_snapshot_fails_at_once() {
    for bad in [Handle::null(), Handle::invalid()] {
        let mut host = Host::with_processes(&[(1500, "firefox.exe")]);
        host.snapshot = bad;
        let result = drive(&mut host, Process::find("firefox"));
        assert_eq!(result.err(), Some(WinErrorKind::FindProcessError));
        assert_eq!(host.asked, vec![Request::ProcessSnapshot]);
    }
}

#[test]
fn find_passes_over_a_name_that_does_not_decode() {
    let mut host = Host::with_processes(&[(1, "placeholder"), (2, "firefox.exe")]);
    host.processes[0].exe_file = wide::<MAX_PATH>("firefox");
    host.processes[0].exe_file[3] = 0xDC00;
    let process = drive(&mut host, Process::find("fire")).unwrap();
    assert_eq!(process.pid(), 2);
}

#[test]
fn find_reads_a_name_that_fills_the_whole_field() {
    let mut host = Host::new();
    host.processes.push(ProcessEntry { pid: 77, exe_file: [97u16; MAX_PATH] });
    let process = drive(&mut host, Process::find("aaa")).unwrap();
    assert_eq!(process.pid(), 77);
    assert_eq!(process.name().len(), MAX_PATH);
}

#[test]
fn find_takes_any_status_but_false_as_a_record() {
    let step = answer(Process::find("calc"), Reply::Handle(SNAPSHOT));
    let step = answer(step, Reply::Process { status: -1, entry: process_entry(3, "calc.exe") });
    assert_eq!(pending(&step), Request::OpenProcess { pid: 3 });
}

#[test]
fn find_hands_on_whatever_handle_the_opening_gave() {
    let mut host = Host::with_processes(&[(1500, "firefox.exe")]);
    host.access = Handle::null();
    let mut process = drive(&mut host, Process::find("firefox")).unwrap();
    assert_eq!(process.handle(), Handle::null());
    assert_eq!(process.pid(), 1500);
    assert_eq!(process.release(), None);
}

#[test]
fn find_takes_a_reply_of_the_wrong_kind_as_a_failed_call() {
    // no handle where the snapshot was asked for
    let step = answer(Process::find("calc"), Reply::Status(TRUE));
    assert_eq!(outcome(step).err(), Some(WinErrorKind::FindProcessError));
    // no process record where one was asked for
    let step = answer(Process::find("calc"), Reply::Handle(SNAPSHOT));
    let step = answer(step, Reply::Module { status: TRUE, entry: module_entry("calc.exe", 0, 0) });
    assert_eq!(pending(&step), Request::Close { handle: SNAPSHOT });
    assert_eq!(outcome(answer(step, Reply::Status(TRUE))).err(), Some(WinErrorKind::FindProcessError));
}

#[test]
fn find_twice_gives_two_processes_that_are_released_apart() {
    let mut host = Host::with_processes(&[(1500, "firefox.exe")]);
    let mut first = drive(&mut host, Process::find("firefox")).unwrap();
    host.access = Handle { raw: 0x90 };
    let mut second = drive(&mut host, Process::find("firefox")).unwrap();
    assert_eq!(first.pid(), second.pid());
    assert_eq!(first.release(), Some(ACCESS));
    assert_eq!(second.handle(), Handle { raw: 0x90 });
    assert_eq!(second.release(), Some(Handle { raw: 0x90 }));
}

#[test]
fn examine_opens_on_a_match_and_goes_on_otherwise() {
    let hit = ProcessSearch::examine(
        String::from("fire"),
        Snapshot::holding(SNAPSHOT),
        7,
        Some(String::from("firefox.exe")),
    );
    assert_eq!(pending(&hit), Request::OpenProcess { pid: 7 });
    let miss = ProcessSearch::examine(
        String::from("fire"),
        Snapshot::holding(SNAPSHOT),
        7,
        Some(String::from("water.exe")),
    );
    assert_eq!(pending(&miss), Request::NextProcess { snapshot: SNAPSHOT });
    let undecoded = ProcessSearch::examine(String::from(""), Snapshot::holding(SNAPSHOT), 7, None);
    assert_eq!(pending(&undecoded), Request::NextProcess { snapshot: SNAPSHOT });
}

#[test]
fn process_is_released_once() {
    let (_, mut process) = fresh_process();
    assert_eq!(process.release(), Some(ACCESS));
    assert_eq!(process.handle(), Handle::null());
    assert_eq!(process.release(), None);
    assert_eq!(process.release(), None);
    assert_eq!(process.pid(), 42);
    assert_eq!(process.name(), "game.exe");
}

#[test]
fn find_module_asks_for_the_modules_of_its_own_process() {
    let (_, process) = fresh_process();
    assert_eq!(pending(&process.find_module("game.exe")), Request::ModuleSnapshot { pid: 42 });
    assert_eq!(Snapshot::module(&process), Request::ModuleSnapshot { pid: 42 });
}

#[test]
fn find_module_returns_the_first_module_whose_name_matches() {
    let (mut host, process) = fresh_process();
    host.modules = vec![
        module_entry("game.exe", 0x0040_0000, 0x1000),
        module_entry("ntdll.dll", 0x7700_0000, 0x0019_0000),
        module_entry("client.dll", 0x1000_0000, 0x0050_0000),
        module_entry("client.dll.old", 0x2000_0000, 0x10),
    ];
    let module = drive(&mut host, process.find_module("client")).unwrap();
    assert_eq!(module.name(), "client.dll");
    assert_eq!(module.address(), 0x1000_0000);
    assert_eq!(module.len(), 0x0050_0000);
    assert!(!module.is_empty());
    assert_eq!(
        host.asked,
        vec![
            Request::ModuleSnapshot { pid: 42 },
            Request::FirstModule { snapshot: SNAPSHOT },
            Request::NextModule { snapshot: SNAPSHOT },
            Request::NextModule { snapshot: SNAPSHOT },
            Request::Close { handle: SNAPSHOT },
        ]
    );
}

#[test]
fn find_module_accepts_an_image_of_size_zero() {
    let (mut host, process) = fresh_process();
    host.modules = vec![module_entry("stub.dll", 0x5000, 0)];
    let module = drive(&mut host, process.find_module("stub.dll")).unwrap();
    assert!(module.is_empty());
    assert_eq!(module.len(), 0);
    assert_eq!(module.address(), 0x5000);
}

#[test]
fn find_module_without_a_match_fails() {
    let (mut host, process) = fresh_process();
    host.modules = vec![module_entry("game.exe", 0x0040_0000, 0x1000)];
    let result = drive(&mut host, process.find_module("client.dll"));
    assert_eq!(result.err(), Some(WinErrorKind::FindModuleError));
    assert_eq!(host.closings(), vec![SNAPSHOT]);
}

#[test]
fn find_module_on_a_process_without_modules_fails() {
    let (mut host, process) = fresh_process();
    let result = drive(&mut host, process.find_module("client.dll"));
    assert_eq!(result.err(), Some(WinErrorKind::FindModuleError));
    assert_eq!(
        host.asked,
        vec![
            Request::ModuleSnapshot { pid: 42 },
            Request::FirstModule { snapshot: SNAPSHOT },
            Request::Close { handle: SNAPSHOT },
        ]
    );
}

#[test]
fn find_module_without_a_valid_snapshot_fails_at_once() {
    for bad in [Handle::null(), Handle::invalid()] {
        let (mut host, process) = fresh_process();
        host.modules = vec![module_entry("client.dll", 0x5000, 1)];
        host.snapshot = bad;
        let result = drive(&mut host, process.find_module("client.dll"));
        assert_eq!(result.err(), Some(WinErrorKind::FindModuleError));
        assert_eq!(host.asked, vec![Request::ModuleSnapshot { pid: 42 }]);
    }
}

#[test]
fn find_module_cuts_the_base_to_the_address_width() {
    let base: u64 = 0x0000_7ff6_1234_5000;
    if let Ok(wide_base) = usize::try_from(base) {
        let (mut host, process) = fresh_process();
        host.modules = vec![module_entry("client.dll", wide_base, 0x2000)];
        let module = drive(&mut host, process.find_module("client.dll")).unwrap();
        assert_eq!(module.address(), 0x1234_5000);
    }
}

#[test]
fn find_module_passes_over_a_name_that_does_not_decode() {
    let (mut host, process) = fresh_process();
    host.modules = vec![module_entry("client.dll", 0x1000, 1), module_entry("client.dll", 0x2000, 2)];
    host.modules[0].module[2] = 0xD800;
    let module = drive(&mut host, process.find_module("client")).unwrap();
    assert_eq!(module.address(), 0x2000);
}

#[test]
fn module_examine_finds_on_a_match_and_goes_on_otherwise() {
    let entry = module_entry("client.dll", 0x1000, 0x20);
    let hit = ModuleSearch::examine(
        String::from("client"),
        Snapshot::holding(SNAPSHOT),
        &entry,
        Some(String::from("client.dll")),
    );
    assert_eq!(pending(&hit), Request::Close { handle: SNAPSHOT });
    let module = outcome(answer(hit, Reply::Status(TRUE))).unwrap();
    assert_eq!((module.name(), module.address(), module.len()), ("client.dll", 0x1000, 0x20));
    let miss = ModuleSearch::examine(
        String::from("client"),
        Snapshot::holding(SNAPSHOT),
        &entry,
        Some(String::from("server.dll")),
    );
    assert_eq!(pending(&miss), Request::NextModule { snapshot: SNAPSHOT });
    let found_unowned = ModuleSearch::examine(
        String::from("client"),
        Snapshot::holding(Handle::null()),
        &entry,
        Some(String::from("client.dll")),
    );
    assert_eq!(outcome(found_unowned).unwrap().address(), 0x1000);
}

#[test]
fn read_asks_for_the_width_at_the_address_through_the_access_handle() {
    let (_, process) = fresh_process();
    assert_eq!(
        pending(&process.read_mem(0x1234, 4)),
        Request::Read { process: ACCESS, address: 0x1234, width: 4 }
    );
}

#[test]
fn read_hands_on_the_bytes_of_a_full_transfer() {
    let (_, process) = fresh_process();
    let step = answer(process.read_mem(0x1234, 4), Reply::Read { status: TRUE, bytes: vec![1, 2, 3, 4] });
    assert_eq!(outcome(step), Ok(vec![1, 2, 3, 4]));
}

#[test]
fn read_of_width_zero_succeeds_with_no_bytes() {
    let (_, process) = fresh_process();
    let step = answer(process.read_mem(0x1234, 0), Reply::Read { status: TRUE, bytes: vec![] });
    assert_eq!(outcome(step), Ok(vec![]));
}

#[test]
fn read_that_the_host_reports_as_failed_gives_no_bytes() {
    let (_, process) = fresh_process();
    for status in [FALSE, 2, -1] {
        let reply = Reply::Read { status, bytes: vec![1, 2, 3, 4] };
        let step = answer(process.read_mem(0x1234, 4), reply);
        assert_eq!(outcome(step), Err(WinErrorKind::ReadMemoryError));
    }
}

#[test]
fn read_never_hands_on_a_buffer_of_another_width() {
    let (_, process) = fresh_process();
    for bytes in [vec![], vec![1, 2, 3], vec![1, 2, 3, 4, 5]] {
        let step = answer(process.read_mem(0x1234, 4), Reply::Read { status: TRUE, bytes });
        assert_eq!(outcome(step), Err(WinErrorKind::ReadMemoryError));
    }
}

#[test]
fn read_takes_a_reply_of_the_wrong_kind_as_a_failed_read() {
    let (_, process) = fresh_process();
    let step = answer(process.read_mem(0x1234, 4), Reply::Status(TRUE));
    assert_eq!(outcome(step), Err(WinErrorKind::ReadMemoryError));
}

#[test]
fn write_sends_the_bytes_to_the_address_through_the_access_handle() {
    let (_, process) = fresh_process();
    assert_eq!(
        pending(&process.write_mem(vec![9, 8, 7], 0x4000)),
        Request::Write { process: ACCESS, address: 0x4000, bytes: vec![9, 8, 7] }
    );
}

#[test]
fn write_succeeds_only_where_the_host_reports_success() {
    let (_, process) = fresh_process();
    assert_eq!(outcome(answer(process.write_mem(vec![9], 0x4000), Reply::Status(TRUE))), Ok(()));
    for status in [FALSE, 2, -1] {
        let step = answer(process.write_mem(vec![9], 0x4000), Reply::Status(status));
        assert_eq!(outcome(step), Err(WinErrorKind::WriteMemoryError));
    }
    let step = answer(process.write_mem(vec![9], 0x4000), Reply::Handle(ACCESS));
    assert_eq!(outcome(step), Err(WinErrorKind::WriteMemoryError));
}

#[test]
fn written_bytes_are_read_back() {
    let (mut host, process) = fresh_process();
    let value: u64 = 0x0123_4567_89ab_cdef;
    drive(&mut host, process.write_mem(value.to_le_bytes().to_vec(), 0x7000)).unwrap();
    let bytes = drive(&mut host, process.read_mem(0x7000, 8)).unwrap();
    assert_eq!(bytes, value.to_le_bytes().to_vec());
    assert_eq!(u64::from_le_bytes(bytes.try_into().unwrap()), value);
}

#[test]
fn transfer_beyond_what_the_host_allows_fails_whole() {
    let (mut host, process) = fresh_process();
    host.limit = 0x7004;
    let written = drive(&mut host, process.write_mem(vec![1, 2, 3, 4, 5, 6, 7, 8], 0x7000));
    assert_eq!(written, Err(WinErrorKind::WriteMemoryError));
    let read = drive(&mut host, process.read_mem(0x7000, 8));
    assert_eq!(read, Err(WinErrorKind::ReadMemoryError));
    assert_eq!(drive(&mut host, process.read_mem(0x7000, 4)), Ok(vec![0, 0, 0, 0]));
}

#[test]
fn transfer_through_a_released_process_is_refused_by_the_host() {
    let (mut host, mut process) = fresh_process();
    process.release();
    assert_eq!(
        pending(&process.read_mem(0x7000, 2)),
        Request::Read { process: Handle::null(), address: 0x7000, width: 2 }
    );
    assert_eq!(drive(&mut host, process.read_mem(0x7000, 2)), Err(WinErrorKind::ReadMemoryError));
    assert_eq!(drive(&mut host, process.write_mem(vec![1], 0x7000)), Err(WinErrorKind::WriteMemoryError));
}

#[test]
fn resolve_adds_within_the_address_width() {
    assert_eq!(resolve(0x1000_0000, 0x24), Some(0x1000_0024));
    assert_eq!(resolve(0, 0), Some(0));
    assert_eq!(resolve(u32::MAX, 0), Some(u32::MAX));
    assert_eq!(resolve(u32::MAX - 5, 5), Some(u32::MAX));
    assert_eq!(resolve(u32::MAX, 1), None);
    assert_eq!(resolve(0x8000_0000, 0x8000_0000), None);
}

#[test]
fn relative_read_looks_the_module_up_and_reads_at_base_plus_offset() {
    let (mut host, process) = fresh_process();
    host.modules = vec![module_entry("game.exe", 0x0040_0000, 0x1000), module_entry("client.dll", 0x1000_0000, 0x5000)];
    for (i, byte) in [0xde_u8, 0xad, 0xbe, 0xef].iter().enumerate() {
        host.memory.insert(0x1000_0024 + i as u32, *byte);
    }
    let bytes = drive(&mut host, process.read_mem_relative("client.dll", 0x24, 4)).unwrap();
    assert_eq!(bytes, vec![0xde, 0xad, 0xbe, 0xef]);
    assert_eq!(
        host.asked,
        vec![
            Request::ModuleSnapshot { pid: 42 },
            Request::FirstModule { snapshot: SNAPSHOT },
            Request::NextModule { snapshot: SNAPSHOT },
            Request::Close { handle: SNAPSHOT },
            Request::Read { process: ACCESS, address: 0x1000_0024, width: 4 },
        ]
    );
}

#[test]
fn relative_read_equals_the_read_at_the_resolved_address() {
    let (mut host, process) = fresh_process();
    host.modules = vec![module_entry("client.dll", 0x1000_0000, 0x5000)];
    for i in 0..16u32 {
        host.memory.insert(0x1000_0100 + i, (i * 3 + 1) as u8);
    }
    let relative = drive(&mut host, process.read_mem_relative("client.dll", 0x104, 8));
    let module = drive(&mut host, process.find_module("client.dll")).unwrap();
    let absolute = drive(&mut host, process.read_mem(module.address() + 0x104, 8));
    assert_eq!(relative, absolute);
    assert_eq!(relative, Ok(vec![13, 16, 19, 22, 25, 28, 31, 34]));
}

#[test]
fn relative_read_looks_the_module_up_afresh_each_time() {
    let (mut host, process) = fresh_process();
    host.modules = vec![module_entry("client.dll", 0x1000_0000, 0x5000)];
    host.memory.insert(0x1000_0010, 1);
    host.memory.insert(0x2000_0010, 2);
    assert_eq!(drive(&mut host, process.read_mem_relative("client.dll", 0x10, 1)), Ok(vec![1]));
    host.modules = vec![module_entry("client.dll", 0x2000_0000, 0x5000)];
    assert_eq!(drive(&mut host, process.read_mem_relative("client.dll", 0x10, 1)), Ok(vec![2]));
}

#[test]
fn relative_read_without_the_module_fails_before_any_read() {
    let (mut host, process) = fresh_process();
    host.modules = vec![module_entry("game.exe", 0x0040_0000, 0x1000)];
    let result = drive(&mut host, process.read_mem_relative("client.dll", 0x24, 4));
    assert_eq!(result, Err(WinErrorKind::FindModuleError));
    assert!(host.asked.iter().all(|r| !matches!(r, Request::Read { .. } | Request::Write { .. })));
    assert_eq!(host.closings(), vec![SNAPSHOT]);
}

#[test]
fn relative_read_beyond_the_address_width_fails_before_any_read() {
    let (mut host, process) = fresh_process();
    host.modules = vec![module_entry("client.dll", 0xffff_f000, 0x1000)];
    let result = drive(&mut host, process.read_mem_relative("client.dll", 0x1000, 4));
    assert_eq!(result, Err(WinErrorKind::ReadMemoryError));
    assert!(host.asked.iter().all(|r| !matches!(r, Request::Read { .. })));
    let last = drive(&mut host, process.read_mem_relative("client.dll", 0xfff, 1));
    assert_eq!(last, Ok(vec![0]));
}

#[test]
fn relative_read_that_the_host_fails_is_a_failed_read() {
    let (mut host, process) = fresh_process();
    host.modules = vec![module_entry("client.dll", 0x1000_0000, 0x5000)];
    host.limit = 0x1000_0000;
    let result = drive(&mut host, process.read_mem_relative("client.dll", 0x24, 4));
    assert_eq!(result, Err(WinErrorKind::ReadMemoryError));
}

#[test]
fn relative_write_looks_the_module_up_and_writes_at_base_plus_offset() {
    let (mut host, process) = fresh_process();
    host.modules = vec![module_entry("client.dll", 0x1000_0000, 0x5000)];
    drive(&mut host, process.write_mem_relative(vec![5, 6], "client.dll", 0x30)).unwrap();
    assert_eq!(host.memory.get(&0x1000_0030), Some(&5));
    assert_eq!(host.memory.get(&0x1000_0031), Some(&6));
    assert_eq!(
        host.asked,
        vec![
            Request::ModuleSnapshot { pid: 42 },
            Request::FirstModule { snapshot: SNAPSHOT },
            Request::Close { handle: SNAPSHOT },
            Request::Write { process: ACCESS, address: 0x1000_0030, bytes: vec![5, 6] },
        ]
    );
    assert_eq!(drive(&mut host, process.read_mem_relative("client.dll", 0x30, 2)), Ok(vec![5, 6]));
}

#[test]
fn relative_write_without_the_module_fails_before_any_write() {
    let (mut host, process) = fresh_process();
    let result = drive(&mut host, process.write_mem_relative(vec![5, 6], "client.dll", 0x30));
    assert_eq!(result, Err(WinErrorKind::FindModuleError));
    assert!(host.memory.is_empty());
    assert!(host.asked.iter().all(|r| !matches!(r, Request::Write { .. })));
}

#[test]
fn relative_write_beyond_the_address_width_fails_before_any_write() {
    let (mut host, process) = fresh_process();
    host.modules = vec![module_entry("client.dll", 0xffff_fff0, 0x10)];
    let result = drive(&mut host, process.write_mem_relative(vec![5], "client.dll", 0x10));
    assert_eq!(result, Err(WinErrorKind::WriteMemoryError));
    assert!(host.memory.is_empty());
}

#[test]
fn relative_write_that_the_host_fails_is_a_failed_write() {
    let (mut host, process) = fresh_process();
    host.modules = vec![module_entry("client.dll", 0x1000_0000, 0x5000)];
    host.limit = 0x1000_0000;
    let result = drive(&mut host, process.write_mem_relative(vec![5], "client.dll", 0x30));
    assert_eq!(result, Err(WinErrorKind::WriteMemoryError));
}

#[test]
fn every_search_closes_its_snapshot_exactly_once() {
    let listings: [&[(u32, &str)]; 3] = [&[], &[(1, "a.exe")], &[(1, "a.exe"), (2, "b.exe"), (3, "c.exe")]];
    for listing in listings {
        for target in ["a", "b", "c", "d", ""] {
            let mut host = Host::with_processes(listing);
            let _ = drive(&mut host, Process::find(target));
            assert_eq!(host.closings(), vec![SNAPSHOT]);
            assert_eq!(host.asked.last(), Some(&Request::Close { handle: SNAPSHOT }));
        }
    }
}
