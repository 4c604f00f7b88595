use rusty_proxy::relay::{ReadEvent, RelayDirection, RelayPair, RelayStep};

#[test]
fn chunks_are_forwarded_whole_and_in_order() {
    let mut dir = RelayDirection::new();
    let first = b"SSH-2.0-test\r\n".to_vec();
    let second = b"PING".to_vec();

    match dir.on_read(ReadEvent::Data(first.clone())) {
        RelayStep::Forward(out) => assert_eq!(out, first),
        RelayStep::Stop => panic!("a data chunk must be forwarded"),
    }
    assert!(!dir.done);

    match dir.on_read(ReadEvent::Data(second.clone())) {
        RelayStep::Forward(out) => assert_eq!(out, second),
        RelayStep::Stop => panic!("a data chunk must be forwarded"),
    }
    assert!(!dir.done);
}

#[test]
fn end_of_stream_ends_the_direction() {
    let mut dir = RelayDirection::new();
    match dir.on_read(ReadEvent::Eof) {
        RelayStep::Forward(_) => panic!("end-of-stream forwards nothing"),
        RelayStep::Stop => {}
    }
    assert!(dir.done);
}

#[test]
fn read_failure_ends_the_direction() {
    let mut dir = RelayDirection::new();
    match dir.on_read(ReadEvent::Failed) {
        RelayStep::Forward(_) => panic!("a failed read forwards nothing"),
        RelayStep::Stop => {}
    }
    assert!(dir.done);
}

#[test]
fn write_failure_ends_the_direction() {
    let mut dir = RelayDirection::new();
    match dir.on_read(ReadEvent::Data(b"abc".to_vec())) {
        RelayStep::Forward(_) => {}
        RelayStep::Stop => panic!("a data chunk must be forwarded"),
    }
    assert!(dir.on_write_result(false));
    assert!(dir.done);
}

#[test]
fn successful_write_keeps_the_direction_running() {
    let mut dir = RelayDirection::new();
    match dir.on_read(ReadEvent::Data(b"abc".to_vec())) {
        RelayStep::Forward(_) => {}
        RelayStep::Stop => panic!("a data chunk must be forwarded"),
    }
    assert!(!dir.on_write_result(true));
    assert!(!dir.done);
}

#[test]
fn teardown_waits_for_both_directions() {
    let mut pair = RelayPair::new();
    assert!(!pair.teardown_ready());

    match pair.upstream.on_read(ReadEvent::Eof) {
        RelayStep::Stop => {}
        RelayStep::Forward(_) => panic!("end-of-stream forwards nothing"),
    }
    assert!(!pair.teardown_ready());

    match pair.downstream.on_read(ReadEvent::Failed) {
        RelayStep::Stop => {}
        RelayStep::Forward(_) => panic!("a failed read forwards nothing"),
    }
    assert!(pair.teardown_ready());
}

#[test]
fn round_trip_echo_is_unmodified() {
    let mut pair = RelayPair::new();
    let ping = b"SSH-2.0-test\r\n".to_vec();
    let forwarded = match pair.upstream.on_read(ReadEvent::Data(ping.clone())) {
        RelayStep::Forward(out) => out,
        RelayStep::Stop => panic!("a data chunk must be forwarded"),
    };
    // The backend echoes back exactly what it received.
    let echoed = match pair.downstream.on_read(ReadEvent::Data(forwarded)) {
        RelayStep::Forward(out) => out,
        RelayStep::Stop => panic!("a data chunk must be forwarded"),
    };
    assert_eq!(echoed, ping);
}

#[test]
fn one_direction_ending_leaves_the_other_running() {
    let mut pair = RelayPair::new();
    match pair.upstream.on_read(ReadEvent::Eof) {
        RelayStep::Stop => {}
        RelayStep::Forward(_) => panic!("end-of-stream forwards nothing"),
    }
    let echo = b"still flowing".to_vec();
    match pair.downstream.on_read(ReadEvent::Data(echo.clone())) {
        RelayStep::Forward(out) => assert_eq!(out, echo),
        RelayStep::Stop => panic!("the other direction must keep running"),
    }
    assert!(!pair.downstream.done);
}
