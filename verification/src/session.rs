use crate::pump::{Pump, PumpAction, PumpPhase, ReadOutcome, WriteOutcome, CHUNK_SIZE};
use vstd::prelude::*;

verus! {

/// One of the two directions of a relay session.
#[derive(Clone, Copy, PartialEq, Eq, Structural, Debug)]
pub enum Direction {
    /// From the accepted client connection to the peer connection.
    ClientToPeer,
    /// From the peer connection back to the client connection.
    PeerToClient,
}

/// An I/O failure of one direction, reduced to an opaque code the caller
/// chooses (the transports' own error values stay outside this crate).
#[derive(Clone, Copy, PartialEq, Eq, Structural, Debug)]
pub struct TransferError {
    pub code: u64,
}

/// One relay session: one accepted client connection paired with one freshly
/// opened peer connection, relayed by two pumps running concurrently, one
/// per direction.
///
/// The two pumps own disjoint halves of the two connections, so an event on
/// one direction never touches the other: that independence is what the
/// stepping contracts state, and it is what makes half-close work — end of
/// stream on one direction half-closes only that direction's sink while the
/// opposite direction keeps flowing.
pub struct Session {
    /// Pump moving bytes from the client connection to the peer connection.
    pub client_to_peer: Pump,
    /// Pump moving bytes from the peer connection to the client connection.
    pub peer_to_client: Pump,
}

impl Session {
    /// Both pumps of a fresh session: nothing moved, ready to read.
    pub open spec fn is_fresh(self) -> bool {
        &&& self.client_to_peer.phase == PumpPhase::Reading
        &&& self.client_to_peer.moved@ == Seq::<u8>::empty()
        &&& self.client_to_peer.in_flight@ == Seq::<u8>::empty()
        &&& self.peer_to_client.phase == PumpPhase::Reading
        &&& self.peer_to_client.moved@ == Seq::<u8>::empty()
        &&& self.peer_to_client.in_flight@ == Seq::<u8>::empty()
    }

    /// The pump that carries the given direction.
    pub open spec fn pump_of(self, dir: Direction) -> Pump {
        match dir {
            Direction::ClientToPeer => self.client_to_peer,
            Direction::PeerToClient => self.peer_to_client,
        }
    }

    /// A session begins only once its outbound peer connection is open; on
    /// a failed outbound connect no session exists and nothing is
    /// transferred.
    pub fn new() -> (s: Session)
        ensures
            s.is_fresh(),
    {
        Session { client_to_peer: Pump::new(), peer_to_client: Pump::new() }
    }

    /// Feed one direction's pump the outcome of a read on its source.
    ///
    /// Only that direction moves: the opposite direction's pump, its phase
    /// and its bytes, is exactly as before, whether the event was data, end
    /// of stream or a failure. In particular, end of stream on one
    /// direction half-closes that direction's sink alone.
    pub fn on_read(&mut self, dir: Direction, r: ReadOutcome) -> (a: PumpAction)
        requires
            old(self).pump_of(dir).wants_read(),
            (r matches ReadOutcome::Data(b) ==> 1 <= b@.len() <= CHUNK_SIZE),
        ensures
            final(self).pump_of(dir).moved@ == old(self).pump_of(dir).moved@,
            (r matches ReadOutcome::Data(b) ==> a == PumpAction::Forward(b)
                && final(self).pump_of(dir).phase == PumpPhase::Writing
                && final(self).pump_of(dir).in_flight@ == b@),
            (r matches ReadOutcome::Eof ==> a == PumpAction::CloseWrite
                && final(self).pump_of(dir).phase == PumpPhase::Closed),
            (r matches ReadOutcome::Failed ==> a == PumpAction::Stop
                && final(self).pump_of(dir).phase == PumpPhase::Failed),
            final(self).pump_of(dir.opposite()) == old(self).pump_of(dir.opposite()),
    {
        match dir {
            Direction::ClientToPeer => self.client_to_peer.on_read(r),
            Direction::PeerToClient => self.peer_to_client.on_read(r),
        }
    }

    /// Feed one direction's pump the outcome of writing its in-flight chunk.
    ///
    /// As with reads, the opposite direction's pump is left exactly as it
    /// was.
    pub fn on_write(&mut self, dir: Direction, w: WriteOutcome) -> (a: PumpAction)
        requires
            old(self).pump_of(dir).wants_write(),
        ensures
            (w matches WriteOutcome::Wrote ==> a == PumpAction::ReadMore
                && final(self).pump_of(dir).phase == PumpPhase::Reading
                && final(self).pump_of(dir).moved@ == old(self).pump_of(dir).moved@
                    + old(self).pump_of(dir).in_flight@),
            (w matches WriteOutcome::Failed ==> a == PumpAction::Stop
                && final(self).pump_of(dir).phase == PumpPhase::Failed
                && final(self).pump_of(dir).moved@ == old(self).pump_of(dir).moved@),
            final(self).pump_of(dir.opposite()) == old(self).pump_of(dir.opposite()),
    {
        match dir {
            Direction::ClientToPeer => self.client_to_peer.on_write(w),
            Direction::PeerToClient => self.peer_to_client.on_write(w),
        }
    }
}

impl Direction {
    /// The other direction of the same session.
    pub open spec fn opposite(self) -> Direction {
        match self {
            Direction::ClientToPeer => Direction::PeerToClient,
            Direction::PeerToClient => Direction::ClientToPeer,
        }
    }
}

/// The session's result from its two directions' results, as the session
/// reports it after waiting for both pumps: success only if both directions
/// completed without error; otherwise the first error encountered, the
/// client-to-peer direction's being the one awaited first.
pub fn session_result(
    client_to_peer: Result<(), TransferError>,
    peer_to_client: Result<(), TransferError>,
) -> (r: Result<(), TransferError>)
    ensures
        r is Ok <==> (client_to_peer is Ok && peer_to_client is Ok),
        client_to_peer is Err ==> r == client_to_peer,
        client_to_peer is Ok ==> r == peer_to_client,
{
    match client_to_peer {
        Err(e) => Err(e),
        Ok(()) => peer_to_client,
    }
}

} // verus!
