use planif::com::{RuntimeAction, RuntimeLedger};
use planif::error::ErrorKind;

#[test]
fn two_handles_one_teardown() {
    let mut ledger = RuntimeLedger::new();
    assert!(!ledger.is_live());
    let (first, action) = ledger.acquire().unwrap();
    assert_eq!(action, RuntimeAction::Initialize);
    let (second, action) = ledger.acquire().unwrap();
    assert_eq!(action, RuntimeAction::Nothing);
    assert_eq!(ledger.handles(), 2);

    assert_eq!(ledger.release(first).unwrap(), RuntimeAction::Nothing);
    assert!(ledger.is_live());
    assert_eq!(ledger.handles(), 1);

    assert_eq!(ledger.release(second).unwrap(), RuntimeAction::Teardown);
    assert!(!ledger.is_live());
    assert_eq!(ledger.handles(), 0);
}

#[test]
fn no_handle_is_given_back_twice() {
    let mut ledger = RuntimeLedger::new();
    let mut other = RuntimeLedger::new();
    let (handle, _) = other.acquire().unwrap();
    let e = ledger.release(handle).unwrap_err();
    assert_eq!(e.kind(), ErrorKind::InvalidOperation);
    assert_eq!(e.message(), "No handle to the runtime is live.");
    assert_eq!(ledger.handles(), 0);
}

#[test]
fn a_shared_handle_does_not_initialize() {
    let mut ledger = RuntimeLedger::new();
    let (first, action) = ledger.acquire().unwrap();
    assert_eq!(action, RuntimeAction::Initialize);
    let second = ledger.share(&first).unwrap();
    let third = ledger.share(&second).unwrap();
    assert_eq!(ledger.handles(), 3);
    assert_eq!(ledger.release(first).unwrap(), RuntimeAction::Nothing);
    assert_eq!(ledger.release(third).unwrap(), RuntimeAction::Nothing);
    assert!(ledger.is_live());
    assert_eq!(ledger.release(second).unwrap(), RuntimeAction::Teardown);
}

#[test]
fn sharing_needs_a_live_handle() {
    let mut ledger = RuntimeLedger::new();
    let (handle, _) = ledger.acquire().unwrap();
    let mut other = RuntimeLedger::new();
    let e = other.share(&handle).err().unwrap();
    assert_eq!(e.kind(), ErrorKind::InvalidOperation);
    assert_eq!(e.message(), "No handle to the runtime is live.");
    assert_eq!(other.handles(), 0);
}

#[test]
fn a_new_first_handle_initializes_again() {
    let mut ledger = RuntimeLedger::new();
    let (handle, action) = ledger.acquire().unwrap();
    assert_eq!(action, RuntimeAction::Initialize);
    assert_eq!(ledger.release(handle).unwrap(), RuntimeAction::Teardown);
    let (_handle, action) = ledger.acquire().unwrap();
    assert_eq!(action, RuntimeAction::Initialize);
    assert!(ledger.is_live());
}

#[test]
fn many_handles_one_teardown() {
    let mut ledger = RuntimeLedger::new();
    let mut handles = Vec::new();
    let mut initializations = 0;
    let mut teardowns = 0;
    for _ in 0..100 {
        let (handle, action) = ledger.acquire().unwrap();
        if action == RuntimeAction::Initialize {
            initializations += 1;
        }
        handles.push(handle);
    }
    while let Some(handle) = handles.pop() {
        if ledger.release(handle).unwrap() == RuntimeAction::Teardown {
            teardowns += 1;
            assert!(handles.is_empty());
        }
    }
    assert_eq!(initializations, 1);
    assert_eq!(teardowns, 1);
}

#[test]
fn failed_initialization_leaves_nothing_behind() {
    let mut ledger = RuntimeLedger::new();
    let (handle, action) = ledger.acquire().unwrap();
    assert_eq!(action, RuntimeAction::Initialize);
    assert!(ledger.fail_initialization(handle).is_ok());
    assert!(!ledger.is_live());

    let (first, action) = ledger.acquire().unwrap();
    assert_eq!(action, RuntimeAction::Initialize);
    let (second, action) = ledger.acquire().unwrap();
    assert_eq!(action, RuntimeAction::Nothing);
    let e = ledger.fail_initialization(second).unwrap_err();
    assert_eq!(e.kind(), ErrorKind::InvalidOperation);
    assert_eq!(e.message(), "The runtime is not being initialized.");
    assert_eq!(ledger.handles(), 2);
    assert_eq!(ledger.release(first).unwrap(), RuntimeAction::Nothing);
}
