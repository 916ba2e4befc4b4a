use vsock_proxy::relay::CopyDirection;
use vsock_proxy::relay::DirectionStatus;
use vsock_proxy::relay::Pipe;
use vsock_proxy::relay::ReadOutcome;
use vsock_proxy::relay::RelayAction;

#[test]
fn chunk_is_forwarded_verbatim() {
    let mut dir = CopyDirection::new();
    match dir.on_read(ReadOutcome::Chunk(b"hello".to_vec())) {
        RelayAction::Forward(out) => assert_eq!(out, b"hello".to_vec()),
        _ => panic!("a chunk must be forwarded"),
    }
    assert_eq!(dir.status, DirectionStatus::Running);
}

#[test]
fn order_of_chunks_is_kept() {
    let mut dir = CopyDirection::new();
    let mut seen: Vec<u8> = Vec::new();
    for chunk in [b"he".to_vec(), b"ll".to_vec(), b"o".to_vec()] {
        match dir.on_read(ReadOutcome::Chunk(chunk)) {
            RelayAction::Forward(out) => seen.extend_from_slice(&out),
            _ => panic!("a chunk must be forwarded"),
        }
    }
    assert_eq!(seen, b"hello".to_vec());
}

#[test]
fn eof_closes_the_write_side() {
    let mut dir = CopyDirection::new();
    match dir.on_read(ReadOutcome::Chunk(b"last bytes".to_vec())) {
        RelayAction::Forward(out) => assert_eq!(out, b"last bytes".to_vec()),
        _ => panic!("a chunk must be forwarded"),
    }
    assert!(matches!(dir.on_read(ReadOutcome::Eof), RelayAction::ShutdownWrite));
    assert_eq!(dir.status, DirectionStatus::Done);
}

#[test]
fn read_error_gives_the_direction_up() {
    let mut dir = CopyDirection::new();
    assert!(matches!(dir.on_read(ReadOutcome::ReadError), RelayAction::Abort));
    assert_eq!(dir.status, DirectionStatus::Failed);
}

#[test]
fn write_error_gives_the_direction_up() {
    let mut dir = CopyDirection::new();
    dir.on_write_error();
    assert_eq!(dir.status, DirectionStatus::Failed);
}

#[test]
fn pipe_is_over_when_either_direction_ends() {
    let mut pipe = Pipe::new();
    assert!(!pipe.is_complete());
    assert!(matches!(
        pipe.inbound_to_outbound.on_read(ReadOutcome::Chunk(b"ping".to_vec())),
        RelayAction::Forward(_)
    ));
    assert!(matches!(
        pipe.outbound_to_inbound.on_read(ReadOutcome::Chunk(b"pong".to_vec())),
        RelayAction::Forward(_)
    ));
    assert!(!pipe.is_complete());
    assert!(matches!(pipe.inbound_to_outbound.on_read(ReadOutcome::Eof), RelayAction::ShutdownWrite));
    assert!(pipe.is_complete());
}

#[test]
fn echo_round_trip_through_a_pipe() {
    // A client sends "hello" through the pipe; the echoing destination
    // sends the same bytes back through the other direction.
    let mut pipe = Pipe::new();
    let to_destination = match pipe.inbound_to_outbound.on_read(ReadOutcome::Chunk(b"hello".to_vec()))
    {
        RelayAction::Forward(out) => out,
        _ => panic!("a chunk must be forwarded"),
    };
    assert_eq!(to_destination, b"hello".to_vec());
    let back_to_client = match pipe.outbound_to_inbound.on_read(ReadOutcome::Chunk(to_destination)) {
        RelayAction::Forward(out) => out,
        _ => panic!("a chunk must be forwarded"),
    };
    assert_eq!(back_to_client, b"hello".to_vec());
}

#[test]
fn concurrent_pipes_never_mix_their_bytes() {
    // Two clients served at the same time: each pipe hands on exactly the
    // bytes of its own connection.
    let mut pipe_a = Pipe::new();
    let mut pipe_b = Pipe::new();
    let out_a = match pipe_a.inbound_to_outbound.on_read(ReadOutcome::Chunk(b"AAA".to_vec())) {
        RelayAction::Forward(out) => out,
        _ => panic!("a chunk must be forwarded"),
    };
    let out_b = match pipe_b.inbound_to_outbound.on_read(ReadOutcome::Chunk(b"BBB".to_vec())) {
        RelayAction::Forward(out) => out,
        _ => panic!("a chunk must be forwarded"),
    };
    assert_eq!(out_a, b"AAA".to_vec());
    assert_eq!(out_b, b"BBB".to_vec());
    assert!(!out_a.contains(&b'B'));
    assert!(!out_b.contains(&b'A'));
}
