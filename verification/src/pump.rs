use vstd::prelude::*;

verus! {

/// Size in bytes of the single chunk a pump keeps in flight. A pump never
/// buffers more than one chunk, so its memory use is bounded by this.
pub const CHUNK_SIZE: usize = 4096;

/// What one read on the pump's source reported.
pub enum ReadOutcome {
    /// Between 1 and `CHUNK_SIZE` bytes were read.
    Data(Vec<u8>),
    /// A zero-length read: the source reached end of stream.
    Eof,
    /// The read failed.
    Failed,
}

/// What writing the in-flight chunk to the pump's sink reported.
pub enum WriteOutcome {
    /// The whole chunk was written.
    Wrote,
    /// The write failed.
    Failed,
}

/// What the pump's driver must do next.
pub enum PumpAction {
    /// Write exactly these bytes to the sink, then report the outcome.
    Forward(Vec<u8>),
    /// Read the next chunk from the source.
    ReadMore,
    /// End of stream: flush and shut down the sink's write direction,
    /// then the pump is finished.
    CloseWrite,
    /// An I/O error ended the pump. No shutdown of the sink is attempted:
    /// the partner pump owns the other direction and handles its own end.
    Stop,
}

/// Where the pump stands between events.
#[derive(Clone, Copy, PartialEq, Eq, Structural, Debug)]
pub enum PumpPhase {
    /// Waiting for the outcome of a read on the source.
    Reading,
    /// Waiting for the outcome of writing the in-flight chunk to the sink.
    Writing,
    /// End of stream was reached and the sink was ordered half-closed.
    Closed,
    /// A read or write failed and the pump stopped.
    Failed,
}

/// One direction of a relay session: the machine that moves bytes from a
/// readable source to a writable sink, one bounded chunk at a time, until a
/// zero-length read signals end of stream, then half-closes the sink.
///
/// The driver performs the reads and writes and feeds their outcomes in;
/// the pump decides what happens next. `moved` is the model of the bytes
/// transferred so far: everything read from the source and confirmed
/// written to the sink, in order.
pub struct Pump {
    /// What event the pump is waiting for.
    pub phase: PumpPhase,
    /// Bytes handed to the sink whose write is not yet confirmed.
    pub in_flight: Ghost<Seq<u8>>,
    /// Bytes confirmed written to the sink, in the order they were read.
    pub moved: Ghost<Seq<u8>>,
}

impl Pump {
    /// A fresh pump that has moved nothing and is ready for its first read.
    pub fn new() -> (p: Pump)
        ensures
            p.phase == PumpPhase::Reading,
            p.in_flight@ == Seq::<u8>::empty(),
            p.moved@ == Seq::<u8>::empty(),
    {
        Pump {
            phase: PumpPhase::Reading,
            in_flight: Ghost(Seq::empty()),
            moved: Ghost(Seq::empty()),
        }
    }

    /// The pump is still at work and its next event is a read outcome.
    pub open spec fn wants_read(self) -> bool {
        self.phase == PumpPhase::Reading
    }

    /// The pump is still at work and its next event is a write outcome.
    pub open spec fn wants_write(self) -> bool {
        self.phase == PumpPhase::Writing
    }

    /// React to the outcome of one read on the source.
    ///
    /// Data becomes the next chunk to forward, byte for byte; end of stream
    /// orders the sink half-closed; a failed read stops the pump at once,
    /// without the shutdown step.
    pub fn on_read(&mut self, r: ReadOutcome) -> (a: PumpAction)
        requires
            old(self).wants_read(),
            (r matches ReadOutcome::Data(b) ==> 1 <= b@.len() <= CHUNK_SIZE),
        ensures
            final(self).moved@ == old(self).moved@,
            (r matches ReadOutcome::Data(b) ==> a == PumpAction::Forward(b)
                && final(self).phase == PumpPhase::Writing
                && final(self).in_flight@ == b@),
            (r matches ReadOutcome::Eof ==> a == PumpAction::CloseWrite
                && final(self).phase == PumpPhase::Closed
                && final(self).in_flight@ == Seq::<u8>::empty()),
            (r matches ReadOutcome::Failed ==> a == PumpAction::Stop
                && final(self).phase == PumpPhase::Failed
                && final(self).in_flight@ == Seq::<u8>::empty()),
    {
        match r {
            ReadOutcome::Data(b) => {
                self.phase = PumpPhase::Writing;
                self.in_flight = Ghost(b@);
                PumpAction::Forward(b)
            }
            ReadOutcome::Eof => {
                self.phase = PumpPhase::Closed;
                self.in_flight = Ghost(Seq::empty());
                PumpAction::CloseWrite
            }
            ReadOutcome::Failed => {
                self.phase = PumpPhase::Failed;
                self.in_flight = Ghost(Seq::empty());
                PumpAction::Stop
            }
        }
    }

    /// React to the outcome of writing the in-flight chunk to the sink.
    ///
    /// A confirmed write appends the chunk to the bytes moved and asks for
    /// the next read; a failed write stops the pump at once, and the chunk
    /// does not count as moved.
    pub fn on_write(&mut self, w: WriteOutcome) -> (a: PumpAction)
        requires
            old(self).wants_write(),
        ensures
            (w matches WriteOutcome::Wrote ==> a == PumpAction::ReadMore
                && final(self).phase == PumpPhase::Reading
                && final(self).moved@ == old(self).moved@ + old(self).in_flight@
                && final(self).in_flight@ == Seq::<u8>::empty()),
            (w matches WriteOutcome::Failed ==> a == PumpAction::Stop
                && final(self).phase == PumpPhase::Failed
                && final(self).moved@ == old(self).moved@
                && final(self).in_flight@ == Seq::<u8>::empty()),
    {
        match w {
            WriteOutcome::Wrote => {
                self.phase = PumpPhase::Reading;
                self.moved = Ghost(self.moved@ + self.in_flight@);
                self.in_flight = Ghost(Seq::empty());
                PumpAction::ReadMore
            }
            WriteOutcome::Failed => {
                self.phase = PumpPhase::Failed;
                self.in_flight = Ghost(Seq::empty());
                PumpAction::Stop
            }
        }
    }
}

/// The concatenation of a sequence of chunks, in order.
pub open spec fn concat_of(chunks: Seq<Seq<u8>>) -> Seq<u8>
    decreases chunks.len(),
{
    if chunks.len() == 0 {
        Seq::empty()
    } else {
        chunks.first() + concat_of(chunks.drop_first())
    }
}

/// Appending one more chunk extends the concatenation at its end.
pub proof fn lemma_concat_of_push(chunks: Seq<Seq<u8>>, c: Seq<u8>)
    ensures
        concat_of(chunks.push(c)) == concat_of(chunks) + c,
    decreases chunks.len(),
{
    if chunks.len() == 0 {
        assert(chunks.push(c).drop_first() =~= Seq::<Seq<u8>>::empty());
        assert(concat_of(Seq::<Seq<u8>>::empty()) == Seq::<u8>::empty());
        assert(concat_of(chunks.push(c)) == c + Seq::<u8>::empty());
        assert(concat_of(chunks.push(c)) =~= concat_of(chunks) + c);
    } else {
        assert(chunks.push(c).first() == chunks.first());
        assert(chunks.push(c).drop_first() =~= chunks.drop_first().push(c));
        lemma_concat_of_push(chunks.drop_first(), c);
        assert(concat_of(chunks.push(c)) == chunks.first() + (concat_of(chunks.drop_first()) + c));
        assert(concat_of(chunks.push(c)) =~= concat_of(chunks) + c);
    }
}

/// Drives one pump over a source already split into chunks, with a sink that
/// accepts every write, and returns the bytes the sink received together
/// with the pump as it ended.
///
/// Its contract is the pump's transfer guarantee: for any payload, from empty
/// up to any number of chunks, exactly the bytes read arrive, in order, with
/// no truncation, duplication or reordering, and the sink ends half-closed.
pub fn pump_chunks(chunks: Vec<Vec<u8>>) -> (r: (Vec<u8>, Pump))
    requires
        forall|i: int| 0 <= i < chunks@.len() ==> 1 <= #[trigger] chunks@[i]@.len() <= CHUNK_SIZE,
    ensures
        r.0@ == concat_of(chunks@.map_values(|c: Vec<u8>| c@)),
        r.1.moved@ == r.0@,
        r.1.phase == PumpPhase::Closed,
{
    let ghost all: Seq<Seq<u8>> = chunks@.map_values(|c: Vec<u8>| c@);
    let mut rest = chunks;
    let mut out: Vec<u8> = Vec::new();
    let mut pump = Pump::new();
    let n = rest.len();
    let mut i: usize = 0;
    while i < n
        invariant
            i <= n,
            n == all.len(),
            rest@.map_values(|c: Vec<u8>| c@) == all.subrange(i as int, n as int),
            rest@.len() == n - i,
            forall|k: int| 0 <= k < n ==> 1 <= #[trigger] all[k].len() <= CHUNK_SIZE,
            pump.wants_read(),
            pump.moved@ == concat_of(all.take(i as int)),
            out@ == pump.moved@,
        decreases n - i,
    {
        let ghost before = rest@;
        let chunk = rest.remove(0);
        proof {
            assert(before.map_values(|c: Vec<u8>| c@)[0] == all.subrange(i as int, n as int)[0]);
            assert(chunk@ == all[i as int]);
            assert(rest@ =~= before.subrange(1, before.len() as int));
            assert(rest@.map_values(|c: Vec<u8>| c@) =~= all.subrange(i as int + 1, n as int)) by {
                assert forall|k: int| 0 <= k < rest@.len() implies rest@.map_values(
                    |c: Vec<u8>| c@,
                )[k] == #[trigger] all.subrange(i as int + 1, n as int)[k] by {
                    assert(rest@[k] == before[k + 1]);
                    assert(before.map_values(|c: Vec<u8>| c@)[k + 1] == all.subrange(
                        i as int,
                        n as int,
                    )[k + 1]);
                }
            }
        }
        let a = pump.on_read(ReadOutcome::Data(chunk));
        match a {
            PumpAction::Forward(mut b) => {
                out.append(&mut b);
                pump.on_write(WriteOutcome::Wrote);
            }
            _ => {}
        }
        proof {
            lemma_concat_of_push(all.take(i as int), all[i as int]);
            assert(all.take(i as int).push(all[i as int]) =~= all.take(i as int + 1));
        }
        i = i + 1;
    }
    pump.on_read(ReadOutcome::Eof);
    proof {
        assert(all.take(n as int) =~= all);
    }
    (out, pump)
}

} // verus!
