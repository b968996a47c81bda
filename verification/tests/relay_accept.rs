use vmrelay::accept::AcceptLoop;
use vmrelay::pump::{PumpAction, PumpPhase, ReadOutcome, WriteOutcome};
use vmrelay::session::Direction;

fn feed(l: &mut AcceptLoop, idx: usize, dir: Direction, bytes: &[u8], out: &mut Vec<u8>) {
    match l.session_read(idx, dir, ReadOutcome::Data(bytes.to_vec())) {
        PumpAction::Forward(b) => out.extend_from_slice(&b),
        _ => panic!("data must be forwarded"),
    }
    assert!(matches!(
        l.session_write(idx, dir, WriteOutcome::Wrote),
        PumpAction::ReadMore
    ));
}

#[test]
fn sessions_are_isolated_from_a_failure() {
    let mut l = AcceptLoop::bound();
    let a = l.on_accept();
    let b = l.on_accept();
    assert_eq!((a, b), (0, 1));

    // Bytes start flowing on session `a`.
    let mut seen: Vec<u8> = Vec::new();
    feed(&mut l, a, Direction::ClientToPeer, b"hello ", &mut seen);

    // A transfer failure is injected into session `b`...
    assert!(matches!(
        l.session_read(b, Direction::ClientToPeer, ReadOutcome::Failed),
        PumpAction::Stop
    ));
    assert_eq!(l.sessions[b].client_to_peer.phase, PumpPhase::Failed);

    // ...and session `a` keeps relaying, byte for byte, in order.
    feed(&mut l, a, Direction::ClientToPeer, b"world", &mut seen);
    assert_eq!(seen, b"hello world");
    assert_eq!(l.sessions[a].client_to_peer.phase, PumpPhase::Reading);
    assert_eq!(l.sessions[a].peer_to_client.phase, PumpPhase::Reading);
}

#[test]
fn accept_failure_stops_the_loop_not_the_sessions() {
    let mut l = AcceptLoop::bound();
    let idx = l.on_accept();
    l.on_accept_failure();
    assert!(!l.listening);
    assert_eq!(l.sessions.len(), 1);
    assert_eq!(l.sessions[idx].client_to_peer.phase, PumpPhase::Reading);
}

#[test]
fn finished_session_leaves_the_registry() {
    let mut l = AcceptLoop::bound();
    let a = l.on_accept();
    let _b = l.on_accept();
    // Mark session `a` so the survivor is recognisable.
    assert!(matches!(
        l.session_read(a, Direction::ClientToPeer, ReadOutcome::Eof),
        PumpAction::CloseWrite
    ));
    l.on_session_end(a);
    assert_eq!(l.sessions.len(), 1);
    assert_eq!(l.sessions[0].client_to_peer.phase, PumpPhase::Reading);
}
