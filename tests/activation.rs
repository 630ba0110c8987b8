use startup_notify::activation::{ActivationPhase, PendingActivation, TOKEN_WAIT_MS};
use startup_notify::message::{build_message, chunk, ChunkKind};

#[test]
fn environment_token_makes_ready() {
    let p = PendingActivation::from_environment(Some(String::from("env-token")));
    assert_eq!(p.phase(), ActivationPhase::Ready);
    let p = PendingActivation::from_environment(None);
    assert_eq!(p.phase(), ActivationPhase::Idle);
    assert_eq!(p.wait_until(), None);
}

#[test]
fn deadline_passes_without_token_gives_untagged_window() {
    let mut p = PendingActivation::from_environment(None);
    p.request_token(0);
    assert_eq!(p.phase(), ActivationPhase::AwaitingToken);
    assert_eq!(p.wait_until(), Some(2000));
    assert_eq!(TOKEN_WAIT_MS, 2000);
    assert_eq!(p.tick(1999), None);
    assert_eq!(p.phase(), ActivationPhase::AwaitingToken);
    assert_eq!(p.tick(2000), Some(None));
    assert_eq!(p.phase(), ActivationPhase::Idle);
    assert_eq!(p.tick(5000), None);
}

#[test]
fn token_before_deadline_tags_next_window() {
    let mut p = PendingActivation::from_environment(None);
    p.request_token(1000);
    p.token_ready(String::from("TOK"), 1500);
    assert_eq!(p.phase(), ActivationPhase::Ready);
    assert_eq!(p.wait_until(), Some(3500));
    assert_eq!(p.tick(3000), None);
    assert_eq!(p.tick(3500), Some(Some(String::from("TOK"))));
    assert_eq!(p.phase(), ActivationPhase::Idle);
}

#[test]
fn end_to_end_token_reaches_window_and_message() {
    let mut p = PendingActivation::from_environment(None);
    assert_eq!(p.phase(), ActivationPhase::Idle);
    p.request_token(0);
    assert_eq!(p.wait_until(), Some(2000));
    assert_eq!(p.tick(1000), None);
    p.token_ready(String::from("T123"), 1000);
    assert_eq!(p.phase(), ActivationPhase::Ready);
    let tag = p.window_created();
    assert_eq!(tag, Some(String::from("T123")));
    assert_eq!(p.phase(), ActivationPhase::Idle);
    let msg = build_message(&tag.unwrap());
    assert_eq!(msg, b"remove: ID=T123\0".to_vec());
    let chunks = chunk(&msg);
    assert_eq!(chunks.len(), 1);
    assert_eq!(chunks[0].kind, ChunkKind::Begin);
    assert_eq!(chunks[0].data.len(), 20);
}

#[test]
fn closing_window_drops_awaited_request() {
    let mut p = PendingActivation::from_environment(None);
    p.request_token(10);
    p.window_closed();
    assert_eq!(p.phase(), ActivationPhase::Idle);
    assert_eq!(p.tick(u64::MAX), None);
    let mut q = PendingActivation::from_environment(Some(String::from("kept")));
    q.window_closed();
    assert_eq!(q.phase(), ActivationPhase::Ready);
}

#[test]
fn deadline_is_exact_at_clock_end() {
    let mut p = PendingActivation::from_environment(None);
    p.request_token(u64::MAX - 5);
    assert_eq!(p.wait_until(), Some(u64::MAX as u128 + 1995));
    assert_eq!(p.tick(u64::MAX), None);
}

#[test]
fn late_token_after_close_is_ignored() {
    let mut p = PendingActivation::from_environment(None);
    p.request_token(0);
    p.window_closed();
    p.token_ready(String::from("late"), 500);
    assert_eq!(p.phase(), ActivationPhase::Idle);
    assert_eq!(p.wait_until(), None);
    assert_eq!(p.window_created(), None);
}

#[test]
fn token_while_ready_is_ignored() {
    let mut p = PendingActivation::from_environment(Some(String::from("first")));
    p.token_ready(String::from("second"), 100);
    assert_eq!(p.wait_until(), None);
    assert_eq!(p.window_created(), Some(String::from("first")));
}

#[test]
fn request_discards_unused_token() {
    let mut p = PendingActivation::from_environment(Some(String::from("old")));
    p.request_token(0);
    assert_eq!(p.phase(), ActivationPhase::AwaitingToken);
    assert_eq!(p.window_created(), None);
}
