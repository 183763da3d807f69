use echosrv::client::{check_request, ReadProgress, RequestPlan, ResponseAccumulator, DEFAULT_MAX_RESPONSE_SIZE};
use echosrv::EchoError;

/// Feeds an echo of `data`, cut into reads of `chunk` bytes, to a fresh accumulator.
fn echo_through_client(data: &[u8], chunk: usize, max: usize) -> Result<Vec<u8>, EchoError> {
    match check_request(data, max)? {
        RequestPlan::Empty => return Ok(Vec::new()),
        RequestPlan::Send => {}
    }
    let mut acc = ResponseAccumulator::new(data.len(), max);
    for piece in data.chunks(chunk) {
        if acc.receive(piece)? == ReadProgress::Complete {
            return Ok(acc.into_response());
        }
    }
    acc.timed_out()?;
    Ok(acc.into_response())
}

fn pseudo_random(len: usize, mut seed: u32) -> Vec<u8> {
    let mut out = Vec::with_capacity(len);
    for _ in 0..len {
        seed = seed.wrapping_mul(1_103_515_245).wrapping_add(12_345);
        out.push((seed >> 16) as u8);
    }
    out
}

#[test]
fn ten_thousand_random_bytes_round_trip() {
    let payload = pseudo_random(10_000, 7);
    let reply = echo_through_client(&payload, 1024, DEFAULT_MAX_RESPONSE_SIZE).unwrap();
    assert_eq!(reply, payload);
}

#[test]
fn largest_payload_round_trips_in_odd_reads() {
    let payload = pseudo_random(65_536, 99);
    let reply = echo_through_client(&payload, 777, DEFAULT_MAX_RESPONSE_SIZE).unwrap();
    assert_eq!(reply, payload);
}

#[test]
fn single_byte_reads_round_trip() {
    let payload = b"Hello, Echo Server!".to_vec();
    assert_eq!(echo_through_client(&payload, 1, DEFAULT_MAX_RESPONSE_SIZE).unwrap(), payload);
}

#[test]
fn empty_request_gives_empty_reply() {
    assert_eq!(check_request(b"", 10).unwrap(), RequestPlan::Empty);
    assert_eq!(echo_through_client(b"", 4, 10).unwrap(), Vec::<u8>::new());
}

#[test]
fn request_larger_than_limit_is_refused() {
    assert!(matches!(check_request(b"hello", 4), Err(EchoError::Config(_))));
    assert_eq!(check_request(b"hello", 5).unwrap(), RequestPlan::Send);
}

#[test]
fn accumulator_appends_each_read() {
    let mut acc = ResponseAccumulator::new(6, 100);
    assert_eq!(acc.receive(b"abc").unwrap(), ReadProgress::Incomplete);
    assert_eq!(acc.received_len(), 3);
    assert_eq!(acc.receive(b"def").unwrap(), ReadProgress::Complete);
    assert_eq!(acc.into_response(), b"abcdef".to_vec());
}

#[test]
fn accumulator_refuses_response_past_limit() {
    let mut acc = ResponseAccumulator::new(4, 5);
    assert_eq!(acc.receive(b"abc").unwrap(), ReadProgress::Incomplete);
    assert!(matches!(acc.receive(b"def"), Err(EchoError::Config(_))));
    assert_eq!(acc.into_response(), b"abc".to_vec());
}

#[test]
fn accumulator_response_exactly_at_limit() {
    let mut acc = ResponseAccumulator::new(5, 5);
    assert_eq!(acc.receive(b"hello").unwrap(), ReadProgress::Complete);
    assert_eq!(acc.into_response(), b"hello".to_vec());
}

#[test]
fn peer_close_ends_response_with_what_arrived() {
    let mut acc = ResponseAccumulator::new(10, 100);
    assert_eq!(acc.receive(b"part").unwrap(), ReadProgress::Incomplete);
    assert_eq!(acc.receive(b"").unwrap(), ReadProgress::Complete);
    assert_eq!(acc.into_response(), b"part".to_vec());
}

#[test]
fn timeout_before_full_echo_is_an_error() {
    let mut acc = ResponseAccumulator::new(10, 100);
    acc.receive(b"part").unwrap();
    assert!(matches!(acc.timed_out(), Err(EchoError::Timeout(_))));
}

#[test]
fn timeout_after_full_echo_is_normal() {
    let mut acc = ResponseAccumulator::new(2, 100);
    acc.receive(b"ok").unwrap();
    assert!(acc.timed_out().is_ok());
}
