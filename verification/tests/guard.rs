use wager_program::errors::WagerError;
use wager_program::guard::{acquire, release, SessionState};

#[test]
fn new_session_is_idle() {
    assert!(!SessionState::new().is_processing);
}

#[test]
fn acquire_on_idle_occupies() {
    let mut session = SessionState::new();
    assert_eq!(acquire(&mut session), Ok(()));
    assert!(session.is_processing);
}

#[test]
fn second_acquire_is_refused() {
    let mut session = SessionState::new();
    assert_eq!(acquire(&mut session), Ok(()));
    assert_eq!(acquire(&mut session), Err(WagerError::AlreadyProcessing));
    assert!(session.is_processing);
    assert_eq!(acquire(&mut session), Err(WagerError::AlreadyProcessing));
    assert!(session.is_processing);
}

#[test]
fn acquire_on_occupied_record_is_refused() {
    let mut session = SessionState { is_processing: true };
    assert_eq!(acquire(&mut session), Err(WagerError::AlreadyProcessing));
    assert_eq!(session, SessionState { is_processing: true });
}

#[test]
fn release_frees_the_session() {
    let mut session = SessionState::new();
    assert_eq!(acquire(&mut session), Ok(()));
    release(&mut session);
    assert!(!session.is_processing);
    assert_eq!(acquire(&mut session), Ok(()));
    assert!(session.is_processing);
}

#[test]
fn release_on_idle_stays_idle() {
    let mut session = SessionState::new();
    release(&mut session);
    assert!(!session.is_processing);
    release(&mut session);
    assert!(!session.is_processing);
    assert_eq!(session, SessionState::new());
}

#[test]
fn release_after_refused_acquire_frees_the_session() {
    let mut session = SessionState { is_processing: true };
    assert_eq!(acquire(&mut session), Err(WagerError::AlreadyProcessing));
    release(&mut session);
    assert!(!session.is_processing);
    assert_eq!(acquire(&mut session), Ok(()));
}
