//! Loading a library into another process.
use crate::c_string::{
    c_bytes, is_nul_free, is_terminated, law_read_gives_back_what_was_written, padded, path_buffer,
    MAX_PATH,
};
use vstd::prelude::*;

verus! {

/// Every right to a process.
pub const PROCESS_ALL_ACCESS: u32 = 0x001f_ffff;

/// Back reserved pages with memory.
pub const MEM_COMMIT: u32 = 0x1000;

/// Reserve a range of addresses.
pub const MEM_RESERVE: u32 = 0x2000;

/// Reserve a range of addresses and back it with memory at once.
pub const MEM_RESERVE_COMMIT: u32 = 0x3000;

/// Give up a range of addresses.
pub const MEM_RELEASE: u32 = 0x8000;

/// Pages that can be read and written.
pub const PAGE_READWRITE: u32 = 0x04;

/// No limit to a wait.
pub const INFINITE: u32 = 0xffff_ffff;

/// Memory is reserved and backed at once.
pub proof fn law_allocation_is_reserve_and_commit()
    ensures
        MEM_RESERVE_COMMIT == MEM_RESERVE | MEM_COMMIT,
{
    assert(MEM_RESERVE_COMMIT == MEM_RESERVE | MEM_COMMIT) by (bit_vector);
}

/// An injection, by the call it waits for.
///
/// No answer of the system ends it early: a handle or an address that is null is
/// handed on as it came.
#[derive(Debug)]
pub enum Injection {
    /// The process is to be opened.
    Opening { pid: u32, path: Vec<i8> },
    /// The process is to be given memory for the path.
    Allocating { process: usize, path: Vec<i8> },
    /// The path is to be written there.
    Writing { process: usize, memory: usize, path: Vec<i8> },
    /// The address of the loading function is to be looked up.
    Resolving { process: usize, memory: usize },
    /// A thread is to be started on it.
    Starting { process: usize, memory: usize, entry: usize },
    /// The thread is to be reported.
    Reporting { process: usize, memory: usize, thread: usize },
    /// The thread is to be waited for.
    Waiting { process: usize, memory: usize, thread: usize },
    /// Its exit code is to be read.
    Collecting { process: usize, memory: usize, thread: usize },
    /// Its handle is to be closed.
    ClosingThread { process: usize, memory: usize, thread: usize },
    /// The memory is to be given back.
    Freeing { process: usize, memory: usize },
    /// The handle of the process is to be closed.
    ClosingProcess { process: usize },
    /// Nothing is left to do.
    Finished,
}

/// The call that an injection waits for.
#[derive(Debug)]
pub enum InjectAction<'a> {
    /// Open the process `pid` with the rights `access`.
    OpenProcess { access: u32, inherit: bool, pid: u32 },
    /// Allocate `size` bytes in the process, wherever the system likes.
    Allocate { process: usize, size: usize, kind: u32, protection: u32 },
    /// Write `size` bytes of `contents` to `address` in the process.
    Write { process: usize, address: usize, contents: &'a Vec<i8>, size: usize },
    /// Look up `symbol` in the loaded module `module`.
    Resolve { module: &'static str, symbol: &'static str },
    /// Start a thread of the process at `entry` with `argument`, with the default
    /// stack size and no flags.
    StartThread { process: usize, stack: usize, entry: usize, argument: usize, flags: u32 },
    /// Print the handle of the thread.
    Report { thread: usize },
    /// Wait for the thread, for `timeout` milliseconds at most.
    Wait { thread: usize, timeout: u32 },
    /// Read the exit code of the thread.
    ReadExitCode { thread: usize },
    /// Close a handle.
    CloseHandle { handle: usize },
    /// Free memory of the process.
    Free { process: usize, address: usize, size: usize, kind: u32 },
    /// Nothing: the injection is over.
    Stop,
}

/// What a call answered.
#[derive(Clone, Copy, Debug, PartialEq, Eq)]
pub enum InjectEvent {
    /// The handle of the process.
    ProcessOpened { process: usize },
    /// The address of the memory.
    Allocated { memory: usize },
    /// The path has been written.
    Written,
    /// The address of the loading function.
    Resolved { entry: usize },
    /// The handle of the thread.
    ThreadStarted { thread: usize },
    /// The handle has been printed.
    Reported,
    /// The wait is over.
    Waited,
    /// The exit code of the thread.
    ExitCodeRead { code: u32 },
    /// A handle has been closed.
    HandleClosed,
    /// The memory has been freed.
    Freed,
}

impl Injection {
    /// The path, where there is one still to be written, fills its buffer.
    pub open spec fn is_valid(self) -> bool {
        match self {
            Injection::Opening { path, .. } => path@.len() == MAX_PATH,
            Injection::Allocating { path, .. } => path@.len() == MAX_PATH,
            Injection::Writing { path, .. } => path@.len() == MAX_PATH,
            _ => true,
        }
    }

    /// The call to make.
    pub open spec fn request(&self) -> InjectAction<'_> {
        match self {
            Injection::Opening { pid, path } => InjectAction::OpenProcess {
                access: PROCESS_ALL_ACCESS,
                inherit: false,
                pid: *pid,
            },
            Injection::Allocating { process, path } => InjectAction::Allocate {
                process: *process,
                size: MAX_PATH,
                kind: MEM_RESERVE_COMMIT,
                protection: PAGE_READWRITE,
            },
            Injection::Writing { process, memory, path } => InjectAction::Write {
                process: *process,
                address: *memory,
                contents: path,
                size: MAX_PATH,
            },
            Injection::Resolving { process, memory } => InjectAction::Resolve {
                module: "Kernel32",
                symbol: "LoadLibraryA",
            },
            Injection::Starting { process, memory, entry } => InjectAction::StartThread {
                process: *process,
                stack: 0,
                entry: *entry,
                argument: *memory,
                flags: 0,
            },
            Injection::Reporting { process, memory, thread } => InjectAction::Report {
                thread: *thread,
            },
            Injection::Waiting { process, memory, thread } => InjectAction::Wait {
                thread: *thread,
                timeout: INFINITE,
            },
            Injection::Collecting { process, memory, thread } => InjectAction::ReadExitCode {
                thread: *thread,
            },
            Injection::ClosingThread { process, memory, thread } => InjectAction::CloseHandle {
                handle: *thread,
            },
            Injection::Freeing { process, memory } => InjectAction::Free {
                process: *process,
                address: *memory,
                size: 0,
                kind: MEM_RELEASE,
            },
            Injection::ClosingProcess { process } => InjectAction::CloseHandle { handle: *process },
            Injection::Finished => InjectAction::Stop,
        }
    }

    /// The injection after an answer. An answer to a call that it does not wait for
    /// changes nothing.
    pub open spec fn after(self, event: InjectEvent) -> Injection {
        match (self, event) {
            (Injection::Opening { pid, path }, InjectEvent::ProcessOpened { process }) =>
                Injection::Allocating { process, path },
            (Injection::Allocating { process, path }, InjectEvent::Allocated { memory }) =>
                Injection::Writing { process, memory, path },
            (Injection::Writing { process, memory, path }, InjectEvent::Written) =>
                Injection::Resolving { process, memory },
            (Injection::Resolving { process, memory }, InjectEvent::Resolved { entry }) =>
                Injection::Starting { process, memory, entry },
            (
                Injection::Starting { process, memory, entry },
                InjectEvent::ThreadStarted { thread },
            ) => Injection::Reporting { process, memory, thread },
            (Injection::Reporting { process, memory, thread }, InjectEvent::Reported) =>
                Injection::Waiting { process, memory, thread },
            (Injection::Waiting { process, memory, thread }, InjectEvent::Waited) =>
                Injection::Collecting { process, memory, thread },
            (
                Injection::Collecting { process, memory, thread },
                InjectEvent::ExitCodeRead { code },
            ) => Injection::ClosingThread { process, memory, thread },
            (
                Injection::ClosingThread { process, memory, thread },
                InjectEvent::HandleClosed,
            ) => Injection::Freeing { process, memory },
            (Injection::Freeing { process, memory }, InjectEvent::Freed) =>
                Injection::ClosingProcess { process },
            (Injection::ClosingProcess { process }, InjectEvent::HandleClosed) =>
                Injection::Finished,
            _ => self,
        }
    }

    /// The call to make next.
    pub fn next(&self) -> (action: InjectAction<'_>)
        ensures
            action == self.request(),
    {
        match self {
            Injection::Opening { pid, .. } => InjectAction::OpenProcess {
                access: PROCESS_ALL_ACCESS,
                inherit: false,
                pid: *pid,
            },
            Injection::Allocating { process, .. } => InjectAction::Allocate {
                process: *process,
                size: MAX_PATH,
                kind: MEM_RESERVE_COMMIT,
                protection: PAGE_READWRITE,
            },
            Injection::Writing { process, memory, path } => InjectAction::Write {
                process: *process,
                address: *memory,
                contents: path,
                size: MAX_PATH,
            },
            Injection::Resolving { .. } => InjectAction::Resolve {
                module: "Kernel32",
                symbol: "LoadLibraryA",
            },
            Injection::Starting { process, memory, entry } => InjectAction::StartThread {
                process: *process,
                stack: 0,
                entry: *entry,
                argument: *memory,
                flags: 0,
            },
            Injection::Reporting { thread, .. } => InjectAction::Report { thread: *thread },
            Injection::Waiting { thread, .. } => InjectAction::Wait {
                thread: *thread,
                timeout: INFINITE,
            },
            Injection::Collecting { thread, .. } => InjectAction::ReadExitCode { thread: *thread },
            Injection::ClosingThread { thread, .. } => InjectAction::CloseHandle {
                handle: *thread,
            },
            Injection::Freeing { process, memory } => InjectAction::Free {
                process: *process,
                address: *memory,
                size: 0,
                kind: MEM_RELEASE,
            },
            Injection::ClosingProcess { process } => InjectAction::CloseHandle { handle: *process },
            Injection::Finished => InjectAction::Stop,
        }
    }

    /// Takes in what the last call answered.
    pub fn advance(self, event: InjectEvent) -> (injection: Injection)
        ensures
            injection == self.after(event),
            self.is_valid() ==> injection.is_valid(),
    {
        match (self, event) {
            (Injection::Opening { path, .. }, InjectEvent::ProcessOpened { process }) =>
                Injection::Allocating { process, path },
            (Injection::Allocating { process, path }, InjectEvent::Allocated { memory }) =>
                Injection::Writing { process, memory, path },
            (Injection::Writing { process, memory, .. }, InjectEvent::Written) =>
                Injection::Resolving { process, memory },
            (Injection::Resolving { process, memory }, InjectEvent::Resolved { entry }) =>
                Injection::Starting { process, memory, entry },
            (
                Injection::Starting { process, memory, .. },
                InjectEvent::ThreadStarted { thread },
            ) => Injection::Reporting { process, memory, thread },
            (Injection::Reporting { process, memory, thread }, InjectEvent::Reported) =>
                Injection::Waiting { process, memory, thread },
            (Injection::Waiting { process, memory, thread }, InjectEvent::Waited) =>
                Injection::Collecting { process, memory, thread },
            (
                Injection::Collecting { process, memory, thread },
                InjectEvent::ExitCodeRead { .. },
            ) => Injection::ClosingThread { process, memory, thread },
            (Injection::ClosingThread { process, memory, .. }, InjectEvent::HandleClosed) =>
                Injection::Freeing { process, memory },
            (Injection::Freeing { process, .. }, InjectEvent::Freed) =>
                Injection::ClosingProcess { process },
            (Injection::ClosingProcess { .. }, InjectEvent::HandleClosed) => Injection::Finished,
            (unmoved, _) => unmoved,
        }
    }
}

/// Starts to load the library at `dll` into the process `pid`.
///
/// The process is handed the first `MAX_PATH` bytes of the path. It can read the whole
/// path there as a string if the path is shorter than that.
pub fn inject(pid: u32, dll: &str) -> (injection: Injection)
    requires
        is_nul_free(vstd::utf8::encode_utf8(dll@)),
    ensures
        injection is Opening,
        injection->Opening_pid == pid,
        injection->Opening_path@ == padded(vstd::utf8::encode_utf8(dll@), MAX_PATH as nat),
        injection.is_valid(),
        injection->Opening_path@.len() == 260,
        forall|i: int|
            0 <= i < 260 ==> #[trigger] injection->Opening_path@[i] == if i
                < vstd::utf8::encode_utf8(dll@).len() {
                vstd::utf8::encode_utf8(dll@)[i] as i8
            } else {
                0i8
            },
        vstd::utf8::encode_utf8(dll@).len() < MAX_PATH ==> {
            &&& is_terminated(injection->Opening_path@)
            &&& c_bytes(injection->Opening_path@) == vstd::utf8::encode_utf8(dll@)
        },
{
    let path = path_buffer(dll);
    proof {
        if vstd::utf8::encode_utf8(dll@).len() < MAX_PATH {
            law_read_gives_back_what_was_written(vstd::utf8::encode_utf8(dll@), MAX_PATH as nat);
        }
    }
    Injection::Opening { pid, path }
}

/// Whatever the system answers, an injection makes the same calls in the same order:
/// the path is written to the memory that was allocated, the thread gets that memory
/// as its argument, and thread, memory and process are given back in the end.
pub proof fn law_every_injection_runs_to_its_end(
    pid: u32,
    path: Vec<i8>,
    process: usize,
    memory: usize,
    entry: usize,
    thread: usize,
    code: u32,
)
    ensures
        ({
            let opening = Injection::Opening { pid, path };
            let allocating = opening.after(InjectEvent::ProcessOpened { process });
            let writing = allocating.after(InjectEvent::Allocated { memory });
            let resolving = writing.after(InjectEvent::Written);
            let starting = resolving.after(InjectEvent::Resolved { entry });
            let reporting = starting.after(InjectEvent::ThreadStarted { thread });
            let waiting = reporting.after(InjectEvent::Reported);
            let collecting = waiting.after(InjectEvent::Waited);
            let closing_thread = collecting.after(InjectEvent::ExitCodeRead { code });
            let freeing = closing_thread.after(InjectEvent::HandleClosed);
            let closing_process = freeing.after(InjectEvent::Freed);
            let finished = closing_process.after(InjectEvent::HandleClosed);
            &&& opening.request() == (InjectAction::OpenProcess {
                access: PROCESS_ALL_ACCESS,
                inherit: false,
                pid,
            })
            &&& allocating.request() == (InjectAction::Allocate {
                process,
                size: MAX_PATH,
                kind: MEM_RESERVE_COMMIT,
                protection: PAGE_READWRITE,
            })
            &&& writing.request() == (InjectAction::Write {
                process,
                address: memory,
                contents: &path,
                size: MAX_PATH,
            })
            &&& resolving.request() == (InjectAction::Resolve {
                module: "Kernel32",
                symbol: "LoadLibraryA",
            })
            &&& starting.request() == (InjectAction::StartThread {
                process,
                stack: 0,
                entry,
                argument: memory,
                flags: 0,
            })
            &&& reporting.request() == (InjectAction::Report { thread })
            &&& waiting.request() == (InjectAction::Wait { thread, timeout: INFINITE })
            &&& collecting.request() == (InjectAction::ReadExitCode { thread })
            &&& closing_thread.request() == (InjectAction::CloseHandle { handle: thread })
            &&& freeing.request() == (InjectAction::Free {
                process,
                address: memory,
                size: 0,
                kind: MEM_RELEASE,
            })
            &&& closing_process.request() == (InjectAction::CloseHandle { handle: process })
            &&& finished.request() is Stop
        }),
{
}

impl Injection {
    /// The handle of the process, from when it was opened until it is closed.
    pub open spec fn process(self) -> Option<usize> {
        match self {
            Injection::Opening { .. } => None,
            Injection::Allocating { process, .. } => Some(process),
            Injection::Writing { process, .. } => Some(process),
            Injection::Resolving { process, .. } => Some(process),
            Injection::Starting { process, .. } => Some(process),
            Injection::Reporting { process, .. } => Some(process),
            Injection::Waiting { process, .. } => Some(process),
            Injection::Collecting { process, .. } => Some(process),
            Injection::ClosingThread { process, .. } => Some(process),
            Injection::Freeing { process, .. } => Some(process),
            Injection::ClosingProcess { process } => Some(process),
            Injection::Finished => None,
        }
    }

    /// The address of the memory, from when it was allocated until it is freed.
    pub open spec fn memory(self) -> Option<usize> {
        match self {
            Injection::Writing { memory, .. } => Some(memory),
            Injection::Resolving { memory, .. } => Some(memory),
            Injection::Starting { memory, .. } => Some(memory),
            Injection::Reporting { memory, .. } => Some(memory),
            Injection::Waiting { memory, .. } => Some(memory),
            Injection::Collecting { memory, .. } => Some(memory),
            Injection::ClosingThread { memory, .. } => Some(memory),
            Injection::Freeing { memory, .. } => Some(memory),
            _ => None,
        }
    }

    /// The handle of the thread, from when it was started until it is closed.
    pub open spec fn thread(self) -> Option<usize> {
        match self {
            Injection::Reporting { thread, .. } => Some(thread),
            Injection::Waiting { thread, .. } => Some(thread),
            Injection::Collecting { thread, .. } => Some(thread),
            Injection::ClosingThread { thread, .. } => Some(thread),
            _ => None,
        }
    }

    /// How many calls are left to make.
    pub open spec fn calls_left(self) -> nat {
        match self {
            Injection::Opening { .. } => 11,
            Injection::Allocating { .. } => 10,
            Injection::Writing { .. } => 9,
            Injection::Resolving { .. } => 8,
            Injection::Starting { .. } => 7,
            Injection::Reporting { .. } => 6,
            Injection::Waiting { .. } => 5,
            Injection::Collecting { .. } => 4,
            Injection::ClosingThread { .. } => 3,
            Injection::Freeing { .. } => 2,
            Injection::ClosingProcess { .. } => 1,
            Injection::Finished => 0,
        }
    }
}

/// What an injection holds it keeps, in whatever order answers come in, until it has
/// asked for exactly that to be given back.
pub proof fn law_nothing_is_lost(injection: Injection, event: InjectEvent)
    ensures
        injection.process() is Some && injection.after(event).process() != injection.process() ==> {
            &&& injection.request() == (InjectAction::CloseHandle {
                handle: injection.process()->0,
            })
            &&& injection.after(event) is Finished
        },
        injection.memory() is Some && injection.after(event).memory() != injection.memory() ==> {
            &&& injection.request() == (InjectAction::Free {
                process: injection.process()->0,
                address: injection.memory()->0,
                size: 0,
                kind: MEM_RELEASE,
            })
            &&& injection.after(event).memory() is None
        },
        injection.thread() is Some && injection.after(event).thread() != injection.thread() ==> {
            &&& injection.request() == (InjectAction::CloseHandle {
                handle: injection.thread()->0,
            })
            &&& injection.after(event).thread() is None
        },
{
}

/// An answer either brings the end one call nearer or, where another call was waited
/// for, changes nothing.
pub proof fn law_answers_bring_the_end_nearer(injection: Injection, event: InjectEvent)
    ensures
        injection.after(event).calls_left() + 1 == injection.calls_left() || injection.after(event)
            == injection,
        injection.request() is Stop <==> injection.calls_left() == 0,
{
}

/// Only an answer to the call that an injection waits for moves it.
pub proof fn law_unasked_answers_leave_an_injection(injection: Injection, event: InjectEvent)
    ensures
        injection.after(event) != injection ==> {
            ||| injection.request() is OpenProcess && event is ProcessOpened
            ||| injection.request() is Allocate && event is Allocated
            ||| injection.request() is Write && event is Written
            ||| injection.request() is Resolve && event is Resolved
            ||| injection.request() is StartThread && event is ThreadStarted
            ||| injection.request() is Report && event is Reported
            ||| injection.request() is Wait && event is Waited
            ||| injection.request() is ReadExitCode && event is ExitCodeRead
            ||| injection.request() is CloseHandle && event is HandleClosed
            ||| injection.request() is Free && event is Freed
        },
{
}

/// The process is opened with every right; the memory is readable and writable and holds
/// a whole path; the path is written there in full; the thread runs `LoadLibraryA` on it
/// and is waited for without limit; the memory is released as a whole.
pub proof fn law_calls_fit_the_path(injection: Injection)
    requires
        injection.is_valid(),
    ensures
        injection.request() matches InjectAction::OpenProcess { access, inherit, .. }
            ==> access == 0x001f_ffff && !inherit,
        injection.request() matches InjectAction::Allocate { size, kind, protection, .. }
            ==> size == 260 && kind == 0x3000 && protection == 0x04,
        injection.request() matches InjectAction::Write { contents, size, .. } ==> size == 260
            && contents@.len() == 260,
        injection.request() matches InjectAction::Resolve { module, symbol } ==> module@
            == "Kernel32"@ && symbol@ == "LoadLibraryA"@,
        injection.request() matches InjectAction::StartThread { stack, flags, .. } ==> stack == 0
            && flags == 0,
        injection.request() matches InjectAction::Wait { timeout, .. } ==> timeout == 0xffff_ffff,
        injection.request() matches InjectAction::Free { size, kind, .. } ==> size == 0 && kind
            == 0x8000,
{
}

/// While the path is still to be written, the injection carries it along unchanged.
pub proof fn law_path_is_carried_unchanged(
    pid: u32,
    path: Vec<i8>,
    process: usize,
    memory: usize,
)
    ensures
        ({
            let opening = Injection::Opening { pid, path };
            let allocating = opening.after(InjectEvent::ProcessOpened { process });
            let writing = allocating.after(InjectEvent::Allocated { memory });
            &&& opening.is_valid() <==> path@.len() == 260
            &&& allocating.is_valid() <==> path@.len() == 260
            &&& writing.is_valid() <==> path@.len() == 260
            &&& writing == (Injection::Writing { process, memory, path })
        }),
{
}

} // verus!
