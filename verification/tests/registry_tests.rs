use rdpclient::errors::{ConnectError, SessionError};
use rdpclient::registry::Registry;

#[test]
fn register_and_lookup() {
    let mut reg: Registry<u32> = Registry::new();
    assert_eq!(reg.len(), 0);
    assert!(reg.register_client(7, 42).is_ok());
    assert_eq!(reg.len(), 1);
    assert_eq!(reg.with_client(7), Ok(&42));
}

#[test]
fn duplicate_registration_is_rejected() {
    let mut reg: Registry<u32> = Registry::new();
    assert!(reg.register_client(7, 42).is_ok());
    assert_eq!(reg.register_client(7, 9), Err(ConnectError::HandleInUse));
    // The first session is still the live one; it was not displaced.
    assert_eq!(reg.with_client(7), Ok(&42));
    assert_eq!(reg.len(), 1);
}

#[test]
fn unknown_handle_operations_are_noops() {
    let mut reg: Registry<u32> = Registry::new();
    assert!(reg.register_client(1, 10).is_ok());
    // A handle never registered reports the unknown-session condition.
    assert_eq!(reg.with_client(99), Err(SessionError::UnknownSession));
    // Removing it changes nothing.
    reg.unregister_client(99);
    assert_eq!(reg.len(), 1);
    assert_eq!(reg.with_client(1), Ok(&10));
}

#[test]
fn close_then_any_operation_is_unknown() {
    let mut reg: Registry<u32> = Registry::new();
    assert!(reg.register_client(5, 55).is_ok());
    reg.unregister_client(5);
    assert_eq!(reg.with_client(5), Err(SessionError::UnknownSession));
    assert_eq!(reg.len(), 0);
    // Closing twice stays a no-op.
    reg.unregister_client(5);
    assert_eq!(reg.with_client(5), Err(SessionError::UnknownSession));
}

#[test]
fn handle_is_reusable_after_close() {
    let mut reg: Registry<u32> = Registry::new();
    assert!(reg.register_client(3, 1).is_ok());
    reg.unregister_client(3);
    assert!(reg.register_client(3, 2).is_ok());
    assert_eq!(reg.with_client(3), Ok(&2));
}

#[test]
fn handles_are_independent() {
    let mut reg: Registry<u32> = Registry::new();
    assert!(reg.register_client(1, 11).is_ok());
    assert!(reg.register_client(2, 22).is_ok());
    reg.unregister_client(1);
    assert_eq!(reg.with_client(1), Err(SessionError::UnknownSession));
    assert_eq!(reg.with_client(2), Ok(&22));
}
