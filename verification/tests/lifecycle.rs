use target_test_dir::basedir::{RootAction, RootError, RootEvent, RootPhase, RootState};
use target_test_dir::testdir::{test_dir_path, DirectoryCreateError};
use target_test_dir::{get_base_test_dir, get_test_dir, try_get_test_dir};

fn texts(items: &[&str]) -> Vec<String> {
    items.iter().map(|s| s.to_string()).collect()
}

fn candidates(paths: &[&str]) -> RootEvent {
    RootEvent::Candidates { paths: texts(paths) }
}

fn probed(is_dir: bool) -> RootEvent {
    RootEvent::Probed { is_dir }
}

fn found(exists: bool) -> RootEvent {
    RootEvent::Found { exists }
}

fn run(events: Vec<RootEvent>) -> RootState {
    let mut state = RootState::new();
    for event in events {
        state = state.advance(event);
    }
    state
}

fn locating() -> RootState {
    run(vec![candidates(&["/w/target"])])
}

fn checking() -> RootState {
    run(vec![candidates(&["/w/target"]), probed(true)])
}

fn removing() -> RootState {
    run(vec![candidates(&["/w/target"]), probed(true), found(true)])
}

fn creating() -> RootState {
    run(vec![candidates(&["/w/target"]), probed(true), found(false)])
}

/// The state of a process whose root `/w/target/test-data` is ready.
fn ready() -> RootState {
    run(vec![candidates(&["/w/target"]), probed(true), found(false), RootEvent::Completed])
}

fn failed() -> RootState {
    run(vec![candidates(&["/w/target"]), probed(true), io_failed("denied")])
}

fn ready_phase(root: &str) -> RootPhase {
    RootPhase::Ready { root: root.to_string() }
}

fn io_failed(cause: &str) -> RootEvent {
    RootEvent::IoFailed { cause: cause.to_string() }
}

#[test]
fn a_new_state_asks_to_locate() {
    let state = RootState::new();
    assert_eq!(*state.phase(), RootPhase::Uninitialized);
    assert_eq!(state.action(), RootAction::Locate);
    assert!(!state.is_ready());
    assert!(!state.is_final());
}

#[test]
fn fresh_root_is_created_without_removal() {
    let state = RootState::new();
    let state = state.advance(RootEvent::Candidates { paths: texts(&["/w/p/target", "/w/target"]) });
    assert_eq!(state.action(), RootAction::ProbeDir { path: "/w/p/target".to_string() });
    let state = state.advance(RootEvent::Probed { is_dir: true });
    assert_eq!(*state.phase(), RootPhase::Checking { root: "/w/p/target/test-data".to_string() });
    assert_eq!(state.action(), RootAction::FindEntry { path: "/w/p/target/test-data".to_string() });
    let state = state.advance(RootEvent::Found { exists: false });
    assert_eq!(state.action(), RootAction::CreateDir { path: "/w/p/target/test-data".to_string() });
    let state = state.advance(RootEvent::Completed);
    assert_eq!(*state.phase(), ready_phase("/w/p/target/test-data"));
    assert_eq!(state.action(), RootAction::Finished);
    assert_eq!(state.error(), None);
    assert!(state.is_ready());
    assert!(state.is_final());
    assert_eq!(get_base_test_dir(&state), "/w/p/target/test-data");
}

#[test]
fn stale_root_is_removed_then_created() {
    let state = RootState::new();
    let state = state.advance(RootEvent::Candidates { paths: texts(&["/w/target"]) });
    let state = state.advance(RootEvent::Probed { is_dir: true });
    let state = state.advance(RootEvent::Found { exists: true });
    assert_eq!(*state.phase(), RootPhase::Removing { root: "/w/target/test-data".to_string() });
    assert_eq!(state.action(), RootAction::RemoveAll { path: "/w/target/test-data".to_string() });
    let state = state.advance(RootEvent::Completed);
    assert_eq!(*state.phase(), RootPhase::Creating { root: "/w/target/test-data".to_string() });
    let state = state.advance(RootEvent::Completed);
    assert_eq!(*state.phase(), ready_phase("/w/target/test-data"));
}

#[test]
fn whatever_stands_at_the_root_is_removed() {
    let state = checking();
    assert_eq!(state.action(), RootAction::FindEntry { path: "/w/target/test-data".to_string() });
    let state = state.advance(found(true));
    assert_eq!(state.action(), RootAction::RemoveAll { path: "/w/target/test-data".to_string() });
    let state = state.advance(RootEvent::Completed);
    assert_eq!(state.action(), RootAction::CreateDir { path: "/w/target/test-data".to_string() });
}

#[test]
fn search_takes_the_first_directory() {
    let state = RootState::new();
    let state = state.advance(RootEvent::Candidates { paths: texts(&["/a/b/target", "/a/target", "/target"]) });
    let state = state.advance(RootEvent::Probed { is_dir: false });
    assert_eq!(
        *state.phase(),
        RootPhase::Locating {
            tried: texts(&["/a/b/target"]),
            current: "/a/target".to_string(),
            later: texts(&["/target"]),
        }
    );
    let state = state.advance(RootEvent::Probed { is_dir: true });
    assert_eq!(*state.phase(), RootPhase::Checking { root: "/a/target/test-data".to_string() });
}

#[test]
fn search_fails_with_every_candidate() {
    let candidates = texts(&["/a/b/target", "/a/target", "/target"]);
    let mut state = RootState::new().advance(RootEvent::Candidates { paths: candidates.clone() });
    for _ in 0..3 {
        assert!(!state.is_final());
        state = state.advance(RootEvent::Probed { is_dir: false });
    }
    let error = RootError::RootNotFound { candidates };
    assert_eq!(state.error(), Some(&error));
    assert_eq!(*state.phase(), RootPhase::Failed { error });
    assert!(state.is_final());
    assert!(!state.is_ready());
    assert_eq!(state.action(), RootAction::Finished);
}

#[test]
fn search_without_candidates_fails_at_once() {
    let state = RootState::new().advance(RootEvent::Candidates { paths: Vec::new() });
    assert_eq!(*state.phase(), RootPhase::Failed { error: RootError::RootNotFound { candidates: Vec::new() } });
}

#[test]
fn io_failure_is_final_and_names_the_path() {
    let failed = |path: &str, cause: &str| RootPhase::Failed {
        error: RootError::RootIoError { path: path.to_string(), cause: cause.to_string() },
    };
    assert_eq!(*RootState::new().advance(io_failed("not set")).phase(), failed("", "not set"));
    assert_eq!(*locating().advance(io_failed("denied")).phase(), failed("/w/target", "denied"));
    assert_eq!(*checking().advance(io_failed("denied")).phase(), failed("/w/target/test-data", "denied"));
    assert_eq!(*removing().advance(io_failed("busy")).phase(), failed("/w/target/test-data", "busy"));
    let state = creating().advance(io_failed("no space"));
    assert_eq!(*state.phase(), failed("/w/target/test-data", "no space"));
    assert!(state.is_final());
    assert!(!state.is_ready());
}

fn all_events() -> Vec<RootEvent> {
    vec![
        candidates(&["/x/target"]),
        probed(true),
        probed(false),
        found(true),
        found(false),
        RootEvent::Completed,
        io_failed("late"),
    ]
}

#[test]
fn final_states_absorb_every_event() {
    for event in all_events() {
        assert_eq!(ready().advance(event.clone()).phase(), ready().phase());
        assert_eq!(failed().advance(event).phase(), failed().phase());
    }
    assert_eq!(*ready().phase(), ready_phase("/w/target/test-data"));
}

#[test]
fn events_that_answer_nothing_change_nothing() {
    let unanswered = |state: fn() -> RootState, event: RootEvent| {
        assert_eq!(state().advance(event).phase(), state().phase());
    };
    unanswered(RootState::new, RootEvent::Completed);
    unanswered(RootState::new, probed(true));
    unanswered(locating, RootEvent::Completed);
    unanswered(locating, candidates(&[]));
    unanswered(locating, found(true));
    unanswered(checking, RootEvent::Completed);
    unanswered(checking, candidates(&["/x"]));
    unanswered(checking, probed(true));
    unanswered(checking, probed(false));
    unanswered(removing, probed(false));
    unanswered(removing, found(false));
    unanswered(creating, found(true));
    unanswered(removing, candidates(&["/x"]));
    unanswered(creating, probed(true));
    unanswered(creating, candidates(&[]));
}

#[test]
fn root_is_the_same_on_every_call() {
    let state = ready();
    assert_eq!(get_base_test_dir(&state), "/w/target/test-data");
    assert_eq!(get_base_test_dir(&state), get_base_test_dir(&state));
    let later = ready().advance(RootEvent::Completed).advance(probed(true));
    assert_eq!(get_base_test_dir(&later), get_base_test_dir(&state));
}

#[test]
fn created_directory_is_handed_out() {
    let state = ready();
    assert_eq!(
        try_get_test_dir(&state, "suite::io", "reads", Ok(())),
        Ok("/w/target/test-data/suite-io-reads".to_string())
    );
    assert_eq!(get_test_dir(&state, "suite::io", "reads", Ok(())), "/w/target/test-data/suite-io-reads");
}

#[test]
fn directory_path_is_the_name_joined_under_the_root() {
    let state = ready();
    assert_eq!(test_dir_path(&state, "crate::mod::sub", "my_test"), "/w/target/test-data/crate-mod-sub-my_test");
    assert_eq!(test_dir_path(&state, "", ""), "/w/target/test-data/-");
}

#[test]
fn failed_creation_is_an_error_with_path_and_cause() {
    let state = ready();
    let outcome = try_get_test_dir(&state, "suite::io", "reads", Err("File exists (os error 17)".to_string()));
    let error = DirectoryCreateError {
        path: "/w/target/test-data/suite-io-reads".to_string(),
        cause: "File exists (os error 17)".to_string(),
    };
    assert_eq!(outcome, Err(error.clone()));
    assert_eq!(
        error.message(),
        "Could not create test dir /w/target/test-data/suite-io-reads: File exists (os error 17)"
    );
}

#[test]
fn root_errors_in_words() {
    let not_found = RootError::RootNotFound { candidates: texts(&["/a/target", "/target"]) };
    assert_eq!(
        not_found.message(),
        "Cargo 'target/' directory not found.\ncandidate: /a/target\ncandidate: /target"
    );
    let none = RootError::RootNotFound { candidates: Vec::new() };
    assert_eq!(none.message(), "Cargo 'target/' directory not found.");
    let io = RootError::RootIoError { path: "/w/target/test-data".to_string(), cause: "denied".to_string() };
    assert_eq!(io.message(), "I/O error at \"/w/target/test-data\": denied");
}
