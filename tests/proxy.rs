use startup_notify::message::ChunkKind;
use startup_notify::proxy::{ActivationError, ProxyAction, ProxySend};

fn transport(text: &str) -> ActivationError {
    ActivationError::Transport(text.to_string())
}

fn is_transport(r: &Option<Result<(), ActivationError>>, text: &str) -> bool {
    match r {
        Some(Err(ActivationError::Transport(t))) => t == text,
        _ => false,
    }
}

#[test]
fn successful_send_creates_sends_in_order_and_destroys() {
    let msg: Vec<u8> = vec![1u8; 45];
    let mut s = ProxySend::new(&msg);
    assert_eq!(s.chunks.len(), 3);
    assert_eq!(s.action(), ProxyAction::CreateEndpoint);
    assert!(s.step(Ok(())).is_none());
    for i in 0..3 {
        assert_eq!(s.action(), ProxyAction::SendChunk { index: i });
        assert!(s.step(Ok(())).is_none());
    }
    assert_eq!(s.action(), ProxyAction::DestroyEndpoint);
    assert!(matches!(s.step(Ok(())), Some(Ok(()))));
    assert!(s.is_finished());
    assert_eq!(s.action(), ProxyAction::Done);
}

#[test]
fn failed_send_still_destroys_and_reports_first_error() {
    let mut s = ProxySend::new(&[5u8; 60]);
    assert!(s.step(Ok(())).is_none());
    assert!(s.step(Ok(())).is_none());
    assert_eq!(s.action(), ProxyAction::SendChunk { index: 1 });
    assert!(s.step(Err(transport("broken pipe"))).is_none());
    assert_eq!(s.action(), ProxyAction::DestroyEndpoint);
    let r = s.step(Err(transport("destroy failed")));
    assert!(is_transport(&r, "broken pipe"));
    assert!(s.is_finished());
}

#[test]
fn failed_creation_destroys_nothing() {
    let mut s = ProxySend::new(&[5u8; 10]);
    let r = s.step(Err(transport("no ids")));
    assert!(is_transport(&r, "no ids"));
    assert_eq!(s.action(), ProxyAction::Done);
}

#[test]
fn empty_message_creates_and_destroys_only() {
    let mut s = ProxySend::new(&[]);
    assert!(s.step(Ok(())).is_none());
    assert_eq!(s.action(), ProxyAction::DestroyEndpoint);
    assert!(matches!(s.step(Ok(())), Some(Ok(()))));
}

#[test]
fn startup_id_is_advertised_before_the_message() {
    let mut s = ProxySend::for_startup_id("T123");
    assert_eq!(s.action(), ProxyAction::SetStartupId);
    assert_eq!(s.chunks.len(), 1);
    assert_eq!(s.chunks[0].kind, ChunkKind::Begin);
    let mut expected = b"remove: ID=T123\0".to_vec();
    expected.resize(20, 0);
    assert_eq!(s.chunks[0].data, expected);
    assert!(s.step(Ok(())).is_none());
    assert_eq!(s.action(), ProxyAction::CreateEndpoint);
}

#[test]
fn failed_property_ends_the_session() {
    let mut s = ProxySend::for_startup_id("T123");
    let r = s.step(Err(transport("bad window")));
    assert!(is_transport(&r, "bad window"));
    assert!(s.is_finished());
}

#[test]
fn finished_session_stays_finished() {
    let mut s = ProxySend::new(&[]);
    assert!(s.step(Err(transport("x"))).is_some());
    assert!(s.step(Ok(())).is_none());
    assert!(s.is_finished());
}
