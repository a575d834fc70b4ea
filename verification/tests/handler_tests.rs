use hello_server::handler::{Action, Event, Handler, Phase, BUF_CAPACITY};

// The exact response the server sends, byte for byte.
const EXPECTED_RESPONSE: &[u8] = b"HTTP/1.0 200 OK\r\n\r\n<html><body><h1>Hello Rust! Hello STM32!</h1><h2>This is my first time ever using ethernet on STM32<h2></body></html>\r\n";

fn accepted_handler() -> Handler {
    let (mut h, first) = Handler::new();
    assert!(matches!(first, Action::Accept));
    let a = h.step(Event::AcceptOk);
    assert!(matches!(a, Action::Read));
    h
}

fn write_bytes(a: Action) -> Vec<u8> {
    match a {
        Action::Write(bytes) => bytes,
        other => panic!("expected a write action, got {:?}", other),
    }
}

#[test]
fn new_handler_starts_accepting() {
    let (h, first) = Handler::new();
    assert_eq!(h.phase(), Phase::Accepting);
    assert!(matches!(first, Action::Accept));
}

#[test]
fn terminator_in_single_read_responds() {
    let mut h = accepted_handler();
    let a = h.step(Event::ReadData(b"GET / HTTP/1.1\r\n\r\n".to_vec()));
    assert_eq!(h.phase(), Phase::Responding);
    assert_eq!(write_bytes(a), EXPECTED_RESPONSE.to_vec());
}

#[test]
fn terminator_split_across_reads_responds() {
    let mut h = accepted_handler();
    let a = h.step(Event::ReadData(b"GET / HTTP/1.1\r".to_vec()));
    assert!(matches!(a, Action::Read));
    let a = h.step(Event::ReadData(b"\n".to_vec()));
    assert!(matches!(a, Action::Read));
    let a = h.step(Event::ReadData(b"\r".to_vec()));
    assert!(matches!(a, Action::Read));
    let a = h.step(Event::ReadData(b"\n".to_vec()));
    assert_eq!(h.phase(), Phase::Responding);
    assert_eq!(write_bytes(a), EXPECTED_RESPONSE.to_vec());
}

#[test]
fn eof_without_terminator_still_responds() {
    let mut h = accepted_handler();
    let a = h.step(Event::ReadData(b"no terminator here".to_vec()));
    assert!(matches!(a, Action::Read));
    let a = h.step(Event::ReadEof);
    assert_eq!(h.phase(), Phase::Responding);
    assert_eq!(write_bytes(a), EXPECTED_RESPONSE.to_vec());
}

#[test]
fn read_error_still_responds() {
    let mut h = accepted_handler();
    let a = h.step(Event::ReadErr);
    assert_eq!(h.phase(), Phase::Responding);
    assert_eq!(write_bytes(a), EXPECTED_RESPONSE.to_vec());
}

#[test]
fn full_buffer_without_terminator_responds() {
    let mut h = accepted_handler();
    let half = vec![b'a'; BUF_CAPACITY / 2];
    let a = h.step(Event::ReadData(half.clone()));
    assert!(matches!(a, Action::Read));
    assert_eq!(h.free_space(), BUF_CAPACITY / 2);
    let a = h.step(Event::ReadData(half));
    assert_eq!(h.phase(), Phase::Responding);
    assert_eq!(write_bytes(a), EXPECTED_RESPONSE.to_vec());
}

#[test]
fn response_is_invariant_in_request_content() {
    let mut h1 = accepted_handler();
    let a1 = h1.step(Event::ReadData(b"GET / HTTP/1.1\r\n\r\n".to_vec()));
    let mut h2 = accepted_handler();
    let a2 = h2.step(Event::ReadData(b"garbage\r\n\r\n".to_vec()));
    assert_eq!(write_bytes(a1), write_bytes(a2));
}

#[test]
fn accept_failure_is_absorbed_and_retried() {
    let (mut h, _) = Handler::new();
    let a = h.step(Event::AcceptErr);
    assert!(matches!(a, Action::Accept));
    assert_eq!(h.phase(), Phase::Accepting);
    let a = h.step(Event::AcceptErr);
    assert!(matches!(a, Action::Accept));
    let a = h.step(Event::AcceptOk);
    assert!(matches!(a, Action::Read));
    assert_eq!(h.phase(), Phase::Reading);
}

// Drives one whole exchange and returns the actions issued, in order.
fn exchange_actions(events: Vec<Event>) -> Vec<Action> {
    let (mut h, first) = Handler::new();
    let mut actions = vec![first];
    for e in events {
        actions.push(h.step(e));
    }
    actions
}

#[test]
fn successful_exchange_orders_close_after_write() {
    let actions = exchange_actions(vec![
        Event::AcceptOk,
        Event::ReadData(b"\r\n\r\n".to_vec()),
        Event::WriteOk,
        Event::Done,
        Event::Done,
        Event::Done,
        Event::Done,
    ]);
    assert_eq!(actions.len(), 8);
    assert!(matches!(actions[0], Action::Accept));
    assert!(matches!(actions[1], Action::Read));
    assert!(matches!(actions[2], Action::Write(_)));
    assert!(matches!(actions[3], Action::Close));
    assert!(matches!(actions[4], Action::Delay));
    assert!(matches!(actions[5], Action::Abort));
    assert!(matches!(actions[6], Action::Delay));
    assert!(matches!(actions[7], Action::Accept));
}

#[test]
fn write_failure_keeps_close_ordering() {
    let actions = exchange_actions(vec![
        Event::AcceptOk,
        Event::ReadData(b"\r\n\r\n".to_vec()),
        Event::WriteErr,
        Event::Done,
        Event::Done,
        Event::Done,
        Event::Done,
    ]);
    assert!(matches!(actions[3], Action::Close));
    assert!(matches!(actions[4], Action::Delay));
    assert!(matches!(actions[5], Action::Abort));
    assert!(matches!(actions[6], Action::Delay));
    assert!(matches!(actions[7], Action::Accept));
}

#[test]
fn no_second_accept_before_abort() {
    let actions = exchange_actions(vec![
        Event::AcceptOk,
        Event::ReadData(b"one\r\n".to_vec()),
        Event::ReadData(b"\r\n".to_vec()),
        Event::WriteOk,
        Event::Done,
        Event::Done,
        Event::Done,
        Event::Done,
    ]);
    let accepts: Vec<usize> = (0..actions.len())
        .filter(|&i| matches!(actions[i], Action::Accept))
        .collect();
    let aborts: Vec<usize> = (0..actions.len())
        .filter(|&i| matches!(actions[i], Action::Abort))
        .collect();
    // Exactly one accept on each side of the connection, and the second
    // comes only after the abort that freed the socket.
    assert_eq!(accepts, vec![0, actions.len() - 1]);
    assert_eq!(aborts.len(), 1);
    assert!(aborts[0] < accepts[1]);
}

#[test]
fn end_to_end_single_write_exchange() {
    let (mut h, first) = Handler::new();
    assert!(matches!(first, Action::Accept));
    let a = h.step(Event::AcceptOk);
    assert!(matches!(a, Action::Read));
    // The client sends just the terminator in a single write.
    let a = h.step(Event::ReadData(b"\r\n\r\n".to_vec()));
    let body = write_bytes(a);
    assert_eq!(body, EXPECTED_RESPONSE.to_vec());
    // The connection is then closed within the grace sequence.
    let a = h.step(Event::WriteOk);
    assert!(matches!(a, Action::Close));
    let a = h.step(Event::Done);
    assert!(matches!(a, Action::Delay));
    let a = h.step(Event::Done);
    assert!(matches!(a, Action::Abort));
    let a = h.step(Event::Done);
    assert!(matches!(a, Action::Delay));
    let a = h.step(Event::Done);
    assert!(matches!(a, Action::Accept));
    assert_eq!(h.phase(), Phase::Accepting);
}

#[test]
fn free_space_shrinks_as_bytes_arrive() {
    let mut h = accepted_handler();
    assert_eq!(h.free_space(), BUF_CAPACITY);
    let a = h.step(Event::ReadData(b"0123456789".to_vec()));
    assert!(matches!(a, Action::Read));
    assert_eq!(h.free_space(), BUF_CAPACITY - 10);
}
