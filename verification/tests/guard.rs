use tradier::wssession::SessionManager;
use tradier::Error;

#[test]
fn guard_grants_one_permit_until_release() {
    let mut manager = SessionManager::default();
    assert!(!manager.session_exists());
    let permit = manager.acquire_session();
    assert!(permit.is_ok());
    assert!(manager.session_exists());
    assert_eq!(
        manager.acquire_session().unwrap_err(),
        Error::SessionAlreadyExists
    );
    assert_eq!(
        manager.acquire_session().unwrap_err(),
        Error::SessionAlreadyExists
    );
    assert!(manager.session_exists());
    manager.release_session(permit.unwrap());
    assert!(!manager.session_exists());
    assert!(manager.acquire_session().is_ok());
}

#[test]
fn a_permit_returned_to_a_free_guard_changes_nothing() {
    let mut first = SessionManager::new();
    let mut second = SessionManager::new();
    let permit = first.acquire_session().unwrap();
    second.release_session(permit);
    assert!(!second.session_exists());
    assert!(first.session_exists());
    assert!(second.acquire_session().is_ok());
}

#[test]
fn guard_is_free_after_any_number_of_rounds() {
    let mut manager = SessionManager::new();
    let mut round: u32 = 0;
    while round < 100 {
        let permit = manager.acquire_session().unwrap();
        manager.release_session(permit);
        round += 1;
    }
    assert!(!manager.session_exists());
}

#[test]
fn exactly_one_of_many_claims_is_granted() {
    let mut manager = SessionManager::new();
    let mut granted: u32 = 0;
    let mut attempt: u32 = 0;
    while attempt < 17 {
        if manager.acquire_session().is_ok() {
            granted += 1;
        }
        attempt += 1;
    }
    assert_eq!(granted, 1);
}

#[test]
fn independent_guards_do_not_interfere() {
    let mut first = SessionManager::new();
    let mut second = SessionManager::new();
    let first_permit = first.acquire_session().unwrap();
    assert!(second.acquire_session().is_ok());
    first.release_session(first_permit);
    assert!(second.session_exists());
    assert_eq!(
        second.acquire_session().unwrap_err(),
        Error::SessionAlreadyExists
    );
}

#[test]
fn claims_through_a_shared_lock_grant_one_permit() {
    let manager = std::sync::Arc::new(std::sync::Mutex::new(SessionManager::new()));
    let first = std::sync::Arc::clone(&manager);
    let second = std::sync::Arc::clone(&manager);
    let first_result = first.lock().unwrap().acquire_session();
    let second_result = second.lock().unwrap().acquire_session();
    assert!(first_result.is_ok());
    assert_eq!(second_result.unwrap_err(), Error::SessionAlreadyExists);
    manager.lock().unwrap().release_session(first_result.unwrap());
    assert!(second.lock().unwrap().acquire_session().is_ok());
}
