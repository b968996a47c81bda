use vmrelay::pump::{pump_chunks, Pump, PumpAction, PumpPhase, ReadOutcome, WriteOutcome, CHUNK_SIZE};

fn patterned(len: usize, salt: u8) -> Vec<u8> {
    (0..len).map(|i| ((i % 251) as u8).wrapping_add(salt)).collect()
}

#[test]
fn pump_empty_payload() {
    let (out, pump) = pump_chunks(Vec::new());
    assert_eq!(out, Vec::<u8>::new());
    assert_eq!(pump.phase, PumpPhase::Closed);
}

#[test]
fn pump_single_chunk_exact_bytes() {
    let payload = patterned(37, 5);
    let (out, pump) = pump_chunks(vec![payload.clone()]);
    assert_eq!(out, payload);
    assert_eq!(pump.phase, PumpPhase::Closed);
}

#[test]
fn pump_many_chunks_in_order() {
    // Several multiples of the chunk size plus a partial tail.
    let mut chunks: Vec<Vec<u8>> = Vec::new();
    let mut expected: Vec<u8> = Vec::new();
    for salt in 0..5u8 {
        let chunk = patterned(CHUNK_SIZE, salt);
        expected.extend_from_slice(&chunk);
        chunks.push(chunk);
    }
    let tail = patterned(123, 99);
    expected.extend_from_slice(&tail);
    chunks.push(tail);

    let (out, pump) = pump_chunks(chunks);
    assert_eq!(out.len(), 5 * CHUNK_SIZE + 123);
    assert_eq!(out, expected);
    assert_eq!(pump.phase, PumpPhase::Closed);
}

#[test]
fn pump_forwards_the_bytes_it_read() {
    let mut pump = Pump::new();
    let chunk = patterned(100, 1);
    match pump.on_read(ReadOutcome::Data(chunk.clone())) {
        PumpAction::Forward(b) => assert_eq!(b, chunk),
        _ => panic!("data must be forwarded"),
    }
    assert_eq!(pump.phase, PumpPhase::Writing);
    assert!(matches!(pump.on_write(WriteOutcome::Wrote), PumpAction::ReadMore));
    assert_eq!(pump.phase, PumpPhase::Reading);
}

#[test]
fn pump_eof_half_closes_the_sink() {
    let mut pump = Pump::new();
    assert!(matches!(pump.on_read(ReadOutcome::Eof), PumpAction::CloseWrite));
    assert_eq!(pump.phase, PumpPhase::Closed);
}

#[test]
fn pump_read_failure_stops_without_shutdown() {
    let mut pump = Pump::new();
    assert!(matches!(pump.on_read(ReadOutcome::Failed), PumpAction::Stop));
    assert_eq!(pump.phase, PumpPhase::Failed);
}

#[test]
fn pump_write_failure_stops_without_shutdown() {
    let mut pump = Pump::new();
    match pump.on_read(ReadOutcome::Data(vec![42u8])) {
        PumpAction::Forward(_) => {}
        _ => panic!("data must be forwarded"),
    }
    assert!(matches!(pump.on_write(WriteOutcome::Failed), PumpAction::Stop));
    assert_eq!(pump.phase, PumpPhase::Failed);
}
