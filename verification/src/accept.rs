use crate::pump::{PumpAction, ReadOutcome, WriteOutcome, CHUNK_SIZE};
use crate::session::{Direction, Session};
use vstd::prelude::*;

verus! {

/// The accept loop: the one owner of the listening resource, together with
/// the relay sessions it has spawned and that are still being driven.
///
/// Each accepted connection becomes an independent session; the loop never
/// waits for a session before accepting the next one, and a session's
/// failure is its own — the stepping contracts say that an event delivered
/// to one session leaves every other session, bytes in flight included,
/// exactly as it was.
///
/// A failure to bind is fatal to the loop and is reported to its caller; a
/// failure to accept one connection stops the whole loop (it does not skip
/// and continue), while the sessions already spawned keep running.
pub struct AcceptLoop {
    /// Sessions spawned by this loop and still alive, oldest first.
    pub sessions: Vec<Session>,
    /// Whether the loop still holds the listening resource and accepts.
    pub listening: bool,
}

impl AcceptLoop {
    /// The loop right after its one successful bind: listening, no sessions.
    pub fn bound() -> (l: AcceptLoop)
        ensures
            l.listening,
            l.sessions@ == Seq::<Session>::empty(),
    {
        AcceptLoop { sessions: Vec::new(), listening: true }
    }

    /// A connection was accepted and its outbound peer connection opened: a
    /// fresh session joins, and every existing session is untouched. The
    /// returned index names the new session for later events.
    pub fn on_accept(&mut self) -> (idx: usize)
        requires
            old(self).listening,
        ensures
            idx == old(self).sessions@.len(),
            final(self).sessions@.len() == old(self).sessions@.len() + 1,
            final(self).sessions@[idx as int].is_fresh(),
            forall|j: int|
                0 <= j < old(self).sessions@.len() ==> final(self).sessions@[j] == old(
                    self,
                ).sessions@[j],
            final(self).listening,
    {
        let idx = self.sessions.len();
        self.sessions.push(Session::new());
        idx
    }

    /// One accept failed: the loop stops and releases the listening
    /// resource, so a replacement loop can rebind; the sessions already
    /// running are not cancelled and stay exactly as they were.
    pub fn on_accept_failure(&mut self)
        requires
            old(self).listening,
        ensures
            !final(self).listening,
            final(self).sessions@ == old(self).sessions@,
    {
        self.listening = false;
    }

    /// A finished session leaves the registry; the others are untouched and
    /// keep their order.
    pub fn on_session_end(&mut self, idx: usize)
        requires
            idx < old(self).sessions@.len(),
        ensures
            final(self).sessions@ == old(self).sessions@.remove(idx as int),
            final(self).listening == old(self).listening,
    {
        self.sessions.remove(idx);
    }

    /// Deliver a read outcome to one direction of one session.
    ///
    /// Sessions are isolated: every session but the one addressed — and
    /// even the opposite direction of that one — is exactly as before, so a
    /// failure injected here can never touch bytes in flight elsewhere.
    pub fn session_read(&mut self, idx: usize, dir: Direction, r: ReadOutcome) -> (a: PumpAction)
        requires
            idx < old(self).sessions@.len(),
            old(self).sessions@[idx as int].pump_of(dir).wants_read(),
            (r matches ReadOutcome::Data(b) ==> 1 <= b@.len() <= CHUNK_SIZE),
        ensures
            final(self).sessions@.len() == old(self).sessions@.len(),
            forall|j: int|
                0 <= j < old(self).sessions@.len() && j != idx ==> final(self).sessions@[j] == old(
                    self,
                ).sessions@[j],
            final(self).sessions@[idx as int].pump_of(dir.opposite()) == old(
                self,
            ).sessions@[idx as int].pump_of(dir.opposite()),
            ({
                let before = old(self).sessions@[idx as int].pump_of(dir);
                let after = final(self).sessions@[idx as int].pump_of(dir);
                &&& after.moved@ == before.moved@
                &&& (r matches ReadOutcome::Data(b) ==> a == PumpAction::Forward(b)
                    && after.wants_write() && after.in_flight@ == b@)
                &&& (r matches ReadOutcome::Eof ==> a == PumpAction::CloseWrite
                    && after.phase == crate::pump::PumpPhase::Closed)
                &&& (r matches ReadOutcome::Failed ==> a == PumpAction::Stop
                    && after.phase == crate::pump::PumpPhase::Failed)
            }),
            final(self).listening == old(self).listening,
    {
        let s = &mut self.sessions[idx];
        s.on_read(dir, r)
    }

    /// Deliver a write outcome to one direction of one session; the same
    /// isolation holds as for reads.
    pub fn session_write(&mut self, idx: usize, dir: Direction, w: WriteOutcome) -> (a: PumpAction)
        requires
            idx < old(self).sessions@.len(),
            old(self).sessions@[idx as int].pump_of(dir).wants_write(),
        ensures
            final(self).sessions@.len() == old(self).sessions@.len(),
            forall|j: int|
                0 <= j < old(self).sessions@.len() && j != idx ==> final(self).sessions@[j] == old(
                    self,
                ).sessions@[j],
            final(self).sessions@[idx as int].pump_of(dir.opposite()) == old(
                self,
            ).sessions@[idx as int].pump_of(dir.opposite()),
            ({
                let before = old(self).sessions@[idx as int].pump_of(dir);
                let after = final(self).sessions@[idx as int].pump_of(dir);
                &&& (w matches WriteOutcome::Wrote ==> a == PumpAction::ReadMore
                    && after.wants_read() && after.moved@ == before.moved@ + before.in_flight@)
                &&& (w matches WriteOutcome::Failed ==> a == PumpAction::Stop
                    && after.phase == crate::pump::PumpPhase::Failed && after.moved@
                    == before.moved@)
            }),
            final(self).listening == old(self).listening,
    {
        let s = &mut self.sessions[idx];
        s.on_write(dir, w)
    }
}

} // verus!
