use ocaml::runtime::{
    boxroot_error_message, init, init_persistent, initial_setup, panic_goes_to_ocaml,
    panic_message, panic_raise, BoxrootStatus, GuardCount, OsErrorKind, PanicGuard, PanicRaise,
    Runtime, RuntimeState, SetupState,
};
use ocaml::value::Value;

#[test]
fn started_once() {
    let mut st = RuntimeState::new();
    assert!(!Runtime::init_persistent(&mut st, true));
    assert!(!st.started);
    assert!(init_persistent(&mut st, false));
    assert!(st.started);
    assert!(!init_persistent(&mut st, false));
    let mut g = GuardCount::new();
    let (rt, start, hook) = init(&mut st, &mut g, false);
    assert!(!start);
    assert!(hook);
    let (rt2, start2, hook2) = Runtime::init(&mut st, &mut g, false);
    assert!(!start2);
    assert!(!hook2);
    assert_eq!(g.count, 2);
    assert_eq!(st.handles, 2);
    // Dropping the handles releases their guards; a persistent runtime is
    // not shut down.
    assert!(!rt2.release(&mut st, &mut g));
    assert!(!rt.release(&mut st, &mut g));
    assert_eq!(g, GuardCount::new());
    assert!(!st.shut_down);
}

#[test]
fn last_handle_frees_runtime() {
    let mut st = RuntimeState::new();
    let mut g = GuardCount::new();
    let (rt, start, _) = init(&mut st, &mut g, false);
    assert!(start);
    let (rt2, start2, _) = init(&mut st, &mut g, false);
    assert!(!start2);
    // Not the last handle: the runtime stays.
    assert!(!rt2.release(&mut st, &mut g));
    assert!(!st.shut_down);
    // The last handle frees it, and it is not started again.
    assert!(rt.release(&mut st, &mut g));
    assert!(st.shut_down);
    let (rt3, start3, _) = init(&mut st, &mut g, false);
    assert!(!start3);
    assert!(!rt3.release(&mut st, &mut g));
    // A runtime that was not started here is not shut down either.
    let mut other = RuntimeState::new();
    let (rt4, start4, _) = init(&mut other, &mut g, true);
    assert!(!start4);
    assert!(!rt4.release(&mut other, &mut g));
    assert!(!other.shut_down);
}

#[test]
fn guards_route_panics() {
    let mut st = RuntimeState::new();
    let mut this_thread = GuardCount::new();
    let other_thread = GuardCount::new();
    assert!(!panic_goes_to_ocaml(&this_thread));
    let (g, install) = PanicGuard::new(&mut st, &mut this_thread);
    assert!(install);
    assert!(panic_goes_to_ocaml(&this_thread));
    // A thread without a live handle keeps the ordinary panic hook.
    assert!(!panic_goes_to_ocaml(&other_thread));
    let (g2, install2) = PanicGuard::new(&mut st, &mut this_thread);
    assert!(!install2);
    g2.release(&mut this_thread);
    assert!(panic_goes_to_ocaml(&this_thread));
    g.release(&mut this_thread);
    assert!(!panic_goes_to_ocaml(&this_thread));
    assert_eq!(panic_message("XXX"), "rust panic: XXX");
}

#[test]
fn setup_once() {
    let mut s = SetupState { done: false };
    assert!(initial_setup(&mut s));
    assert!(!initial_setup(&mut s));
}

#[test]
fn panic_raised_as() {
    let v = Value::new(0x500);
    assert_eq!(panic_raise(Some(v), "boom"), PanicRaise::Value(v, "boom".to_string()));
    assert_eq!(panic_raise(None, "boom"), PanicRaise::Failure("boom".to_string()));
}

#[test]
fn boxroot_messages() {
    assert_eq!(boxroot_error_message(BoxrootStatus::ToreDown, OsErrorKind::Other), "Boxroot error: boxroot_teardown has previously been called");
    assert_eq!(
        boxroot_error_message(BoxrootStatus::Running, OsErrorKind::PermissionDenied),
        "Boxroot error: You tried calling boxroot_create or boxroot_modify without holding the domain lock"
    );
    assert_eq!(boxroot_error_message(BoxrootStatus::NotSetup, OsErrorKind::OutOfMemory), "Boxroot error: Allocation failure of the backing store");
    assert_eq!(boxroot_error_message(BoxrootStatus::Running, OsErrorKind::Other), "Boxroot error: Unknown Error::last_os_error().kind()");
    assert_eq!(boxroot_error_message(BoxrootStatus::Other, OsErrorKind::Other), "Boxroot error: Unknown ocaml_boxroot_sys::Status");
    assert!(boxroot_error_message(BoxrootStatus::Invalid, OsErrorKind::Other).starts_with("Boxroot error: With systhreads"));
}
