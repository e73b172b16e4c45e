//! The decisions of runtime start-up and of the panic hook: when the OCaml
//! runtime is started, when the hook is installed, where a panic goes and
//! with which message.
use vstd::prelude::*;
use crate::text::to_owned_text;
use crate::value::Value;

verus! {

/// Marks a live runtime handle; while one lives on a thread, Rust panics on
/// that thread are turned into OCaml exceptions.
pub struct PanicGuard;

/// OCaml runtime handle
pub struct Runtime {
    _panic_guard: PanicGuard,
}

/// The process-wide runtime state: whether the runtime was started, whether
/// the panic hook was installed, whether the runtime must outlive the
/// handles (`init_persistent` was asked for it), how many handles from
/// `init` are live, and whether the runtime was shut down.
#[derive(Debug, Clone, Copy, PartialEq, Eq, Structural)]
pub struct RuntimeState {
    pub started: bool,
    pub hook_installed: bool,
    pub persistent: bool,
    pub handles: usize,
    pub shut_down: bool,
}

/// The number of live panic guards of one thread.
#[derive(Debug, Clone, Copy, PartialEq, Eq, Structural)]
pub struct GuardCount {
    pub count: usize,
}

impl RuntimeState {
    /// Nothing started, no hook, no handle.
    pub fn new() -> (s: RuntimeState)
        ensures
            !s.started,
            !s.hook_installed,
            !s.persistent,
            s.handles == 0,
            !s.shut_down,
    {
        RuntimeState { started: false, hook_installed: false, persistent: false, handles: 0, shut_down: false }
    }
}

impl GuardCount {
    /// A thread without live guards.
    pub fn new() -> (g: GuardCount)
        ensures
            g.count == 0,
    {
        GuardCount { count: 0 }
    }
}

impl PanicGuard {
    /// Registers a live handle on the calling thread, whose guard count is
    /// `guards`; the result says whether the panic hook must be installed
    /// now (the first time in the process only).
    pub fn new(state: &mut RuntimeState, guards: &mut GuardCount) -> (r: (PanicGuard, bool))
        requires
            old(guards).count < usize::MAX,
        ensures
            r.1 == !old(state).hook_installed,
            *final(state) == (RuntimeState { hook_installed: true, ..*old(state) }),
            final(guards).count == old(guards).count + 1,
    {
        let install = !state.hook_installed;
        state.hook_installed = true;
        guards.count = guards.count + 1;
        (PanicGuard, install)
    }

    /// Unregisters a handle of the calling thread when it is dropped.
    pub fn release(self, guards: &mut GuardCount)
        requires
            old(guards).count > 0,
        ensures
            final(guards).count == old(guards).count - 1,
    {
        guards.count = guards.count - 1;
    }
}

/// Taking a guard and dropping it leaves the thread's count as it was.
pub proof fn lemma_guard_release_restores(g0: GuardCount, g1: GuardCount, g2: GuardCount)
    requires
        g1.count == g0.count + 1,
        g2.count == g1.count - 1,
    ensures
        g2 == g0,
{
}

/// Whether a panic on a thread is turned into an OCaml exception: while a
/// handle of that thread is live.
pub fn panic_goes_to_ocaml(guards: &GuardCount) -> (r: bool)
    ensures
        r == (guards.count > 0),
{
    guards.count > 0
}

/// The message of a panic turned into an OCaml exception.
pub fn panic_message(payload: &str) -> (r: String)
    ensures
        r@ == "rust panic: "@ + payload@,
{
    let mut s = to_owned_text("rust panic: ");
    s.append(payload);
    s
}

/// Runs `caml_startup` once, on the first call, unless start-up is
/// disabled; the result says whether it runs now.
fn startup(state: &mut RuntimeState, no_caml_startup: bool) -> (start: bool)
    ensures
        start == (!no_caml_startup && !old(state).started),
        *final(state) == (RuntimeState { started: old(state).started || start, ..*old(state) }),
{
    if no_caml_startup {
        return false;
    }
    if state.started {
        return false;
    }
    state.started = true;
    true
}

impl Runtime {
    /// Initializes the OCaml runtime for the rest of the process: the
    /// result says whether `caml_startup` runs now. It runs once, on the
    /// first call, unless start-up is disabled (`NO_CAML_STARTUP` set); a
    /// runtime asked for this way is not shut down when handles are dropped.
    pub fn init_persistent(state: &mut RuntimeState, no_caml_startup: bool) -> (start: bool)
        ensures
            start == (!no_caml_startup && !old(state).started),
            final(state).started == (old(state).started || start),
            final(state).persistent == (old(state).persistent || !no_caml_startup),
            final(state).hook_installed == old(state).hook_installed,
            final(state).handles == old(state).handles,
            final(state).shut_down == old(state).shut_down,
    {
        let start = startup(state, no_caml_startup);
        if !no_caml_startup {
            state.persistent = true;
        }
        start
    }

    /// Initializes the OCaml runtime and returns a handle that guards panics
    /// on the calling thread, with whether `caml_startup` runs now and
    /// whether the panic hook is installed now.
    pub fn init(state: &mut RuntimeState, guards: &mut GuardCount, no_caml_startup: bool) -> (r: (Runtime, bool, bool))
        requires
            old(state).handles < usize::MAX,
            old(guards).count < usize::MAX,
        ensures
            r.1 == (!no_caml_startup && !old(state).started),
            r.2 == !old(state).hook_installed,
            final(state).started == (old(state).started || r.1),
            final(state).hook_installed,
            final(state).persistent == old(state).persistent,
            final(state).handles == old(state).handles + 1,
            final(state).shut_down == old(state).shut_down,
            final(guards).count == old(guards).count + 1,
    {
        let start = startup(state, no_caml_startup);
        state.handles = state.handles + 1;
        let (g, install) = PanicGuard::new(state, guards);
        (Runtime { _panic_guard: g }, start, install)
    }

    /// Drops the handle: its panic guard is released on the calling thread,
    /// and the runtime is freed when this was the last live handle, the
    /// runtime was started and not asked to persist. The result says
    /// whether the runtime is shut down now; a runtime that was shut down is
    /// not started again.
    pub fn release(self, state: &mut RuntimeState, guards: &mut GuardCount) -> (stop: bool)
        requires
            old(state).handles > 0,
            old(guards).count > 0,
        ensures
            stop == (old(state).handles == 1 && old(state).started && !old(state).persistent
                && !old(state).shut_down),
            final(state).handles == old(state).handles - 1,
            final(state).shut_down == (old(state).shut_down || stop),
            final(state).started == old(state).started,
            final(state).persistent == old(state).persistent,
            final(state).hook_installed == old(state).hook_installed,
            final(guards).count == old(guards).count - 1,
    {
        self._panic_guard.release(guards);
        state.handles = state.handles - 1;
        let stop = state.handles == 0 && state.started && !state.persistent && !state.shut_down;
        if stop {
            state.shut_down = true;
        }
        stop
    }
}

/// Initialize the OCaml runtime, the runtime will be freed when the value
/// goes out of scope (see `Runtime::release`)
pub fn init(state: &mut RuntimeState, guards: &mut GuardCount, no_caml_startup: bool) -> (r: (Runtime, bool, bool))
    requires
        old(state).handles < usize::MAX,
        old(guards).count < usize::MAX,
    ensures
        r.1 == (!no_caml_startup && !old(state).started),
        r.2 == !old(state).hook_installed,
        final(state).started == (old(state).started || r.1),
        final(state).hook_installed,
        final(state).persistent == old(state).persistent,
        final(state).handles == old(state).handles + 1,
        final(state).shut_down == old(state).shut_down,
        final(guards).count == old(guards).count + 1,
{
    Runtime::init(state, guards, no_caml_startup)
}

/// Initialize the OCaml runtime
pub fn init_persistent(state: &mut RuntimeState, no_caml_startup: bool) -> (start: bool)
    ensures
        start == (!no_caml_startup && !old(state).started),
        final(state).started == (old(state).started || start),
        final(state).persistent == (old(state).persistent || !no_caml_startup),
        final(state).hook_installed == old(state).hook_installed,
        final(state).handles == old(state).handles,
        final(state).shut_down == old(state).shut_down,
{
    Runtime::init_persistent(state, no_caml_startup)
}

/// A runtime started by `init` is freed when its handle is dropped: from a
/// fresh process state, `init` with start-up enabled followed by the
/// release of that handle shuts the runtime down.
pub proof fn lemma_handle_frees_runtime(s0: RuntimeState, s1: RuntimeState, start: bool, s2: RuntimeState, stop: bool)
    requires
        !s0.started,
        !s0.persistent,
        s0.handles == 0,
        !s0.shut_down,
        start,
        s1.started == (s0.started || start),
        s1.persistent == s0.persistent,
        s1.handles == s0.handles + 1,
        s1.shut_down == s0.shut_down,
        stop == (s1.handles == 1 && s1.started && !s1.persistent && !s1.shut_down),
        s2.shut_down == (s1.shut_down || stop),
    ensures
        stop,
        s2.shut_down,
{
}

/// The runtime is started at most once: after a start-up, no later call
/// starts it again, whatever the environment says.
pub proof fn lemma_started_once(s0: RuntimeState, s1: RuntimeState, start1: bool, s2: RuntimeState, start2: bool, env1: bool, env2: bool)
    requires
        start1 == (!env1 && !s0.started),
        s1.started == (s0.started || start1),
        start2 == (!env2 && !s1.started),
        s2.started == (s1.started || start2),
    ensures
        !(start1 && start2),
        s0.started ==> !start1 && !start2,
{
}

/// The once-only state of `initial_setup`.
#[derive(Debug, Clone, Copy, PartialEq, Eq, Structural)]
pub struct SetupState {
    pub done: bool,
}

/// The first call does the set-up (boxroot and the panic hook); later calls
/// do nothing. The result says whether the set-up runs now.
pub fn initial_setup(state: &mut SetupState) -> (run: bool)
    ensures
        run == !old(state).done,
        final(state).done,
{
    if state.done {
        return false;
    }
    state.done = true;
    true
}

/// How the panic hook of exported functions raises a panic in OCaml.
#[derive(Debug, Clone, PartialEq, Eq)]
pub enum PanicRaise {
    /// As the registered exception `Rust_exception`, with the message.
    Value(Value, String),
    /// As `Failure` with the message.
    Failure(String),
}

/// Raises the panic message as the registered `Rust_exception` when it is
/// registered, as `Failure` otherwise.
pub fn panic_raise(rust_exception: Option<Value>, msg: &str) -> (r: PanicRaise)
    ensures
        match rust_exception {
            Some(v) => r matches PanicRaise::Value(e, m) && e == v && m@ == msg@,
            None => r matches PanicRaise::Failure(m) && m@ == msg@,
        },
{
    match rust_exception {
        Some(v) => PanicRaise::Value(v, to_owned_text(msg)),
        None => PanicRaise::Failure(to_owned_text(msg)),
    }
}

/// The state boxroot reports.
#[derive(Debug, Clone, Copy, PartialEq, Eq, Structural)]
pub enum BoxrootStatus {
    NotSetup,
    Running,
    ToreDown,
    Invalid,
    Other,
}

/// The kind of the last OS error.
#[derive(Debug, Clone, Copy, PartialEq, Eq, Structural)]
pub enum OsErrorKind {
    PermissionDenied,
    OutOfMemory,
    Other,
}

/// The explanation of a boxroot failure.
pub open spec fn boxroot_reason(status: BoxrootStatus, os: OsErrorKind) -> Seq<char> {
    match status {
        BoxrootStatus::ToreDown => "boxroot_teardown has previously been called"@,
        BoxrootStatus::Invalid => "With systhreads, boxroot_setup must be called after caml_thread_initialize but before any thread is created"@,
        BoxrootStatus::Running | BoxrootStatus::NotSetup => match os {
            OsErrorKind::PermissionDenied => "You tried calling boxroot_create or boxroot_modify without holding the domain lock"@,
            OsErrorKind::OutOfMemory => "Allocation failure of the backing store"@,
            OsErrorKind::Other => "Unknown Error::last_os_error().kind()"@,
        },
        BoxrootStatus::Other => "Unknown ocaml_boxroot_sys::Status"@,
    }
}

/// The panic message of a boxroot failure.
pub fn boxroot_error_message(status: BoxrootStatus, os: OsErrorKind) -> (r: String)
    ensures
        r@ == "Boxroot error: "@ + boxroot_reason(status, os),
{
    let reason = match status {
        BoxrootStatus::ToreDown => "boxroot_teardown has previously been called",
        BoxrootStatus::Invalid => "With systhreads, boxroot_setup must be called after caml_thread_initialize but before any thread is created",
        BoxrootStatus::Running | BoxrootStatus::NotSetup => match os {
            OsErrorKind::PermissionDenied => "You tried calling boxroot_create or boxroot_modify without holding the domain lock",
            OsErrorKind::OutOfMemory => "Allocation failure of the backing store",
            OsErrorKind::Other => "Unknown Error::last_os_error().kind()",
        },
        BoxrootStatus::Other => "Unknown ocaml_boxroot_sys::Status",
    };
    let mut s = to_owned_text("Boxroot error: ");
    s.append(reason);
    s
}

} // verus!
