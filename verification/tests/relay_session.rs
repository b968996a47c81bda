use vmrelay::pump::{PumpAction, PumpPhase, ReadOutcome, WriteOutcome};
use vmrelay::session::{session_result, Direction, Session, TransferError};

#[test]
fn half_close_leaves_other_direction_open() {
    let mut s = Session::new();

    // End of stream on client-to-peer half-closes only that sink.
    assert!(matches!(
        s.on_read(Direction::ClientToPeer, ReadOutcome::Eof),
        PumpAction::CloseWrite
    ));
    assert_eq!(s.client_to_peer.phase, PumpPhase::Closed);
    assert_eq!(s.peer_to_client.phase, PumpPhase::Reading);

    // The opposite direction keeps flowing afterwards.
    let payload = vec![9u8, 8, 7];
    match s.on_read(Direction::PeerToClient, ReadOutcome::Data(payload.clone())) {
        PumpAction::Forward(b) => assert_eq!(b, payload),
        _ => panic!("data must be forwarded"),
    }
    assert!(matches!(
        s.on_write(Direction::PeerToClient, WriteOutcome::Wrote),
        PumpAction::ReadMore
    ));
    assert_eq!(s.client_to_peer.phase, PumpPhase::Closed);
    assert_eq!(s.peer_to_client.phase, PumpPhase::Reading);
}

#[test]
fn failure_in_one_direction_leaves_the_other() {
    let mut s = Session::new();
    assert!(matches!(
        s.on_read(Direction::PeerToClient, ReadOutcome::Failed),
        PumpAction::Stop
    ));
    assert_eq!(s.peer_to_client.phase, PumpPhase::Failed);
    assert_eq!(s.client_to_peer.phase, PumpPhase::Reading);
}

#[test]
fn session_result_needs_both_directions_clean() {
    assert_eq!(session_result(Ok(()), Ok(())), Ok(()));
}

#[test]
fn session_result_reports_first_error() {
    let first = TransferError { code: 3 };
    let second = TransferError { code: 9 };
    assert_eq!(session_result(Err(first), Err(second)), Err(first));
    assert_eq!(session_result(Err(first), Ok(())), Err(first));
    assert_eq!(session_result(Ok(()), Err(second)), Err(second));
}
