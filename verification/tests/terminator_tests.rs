use hello_server::response::response_bytes;
use hello_server::terminator::contains_terminator;

#[test]
fn empty_and_short_inputs_have_no_terminator() {
    assert!(!contains_terminator(b""));
    assert!(!contains_terminator(b"\r"));
    assert!(!contains_terminator(b"\r\n"));
    assert!(!contains_terminator(b"\r\n\r"));
}

#[test]
fn exact_terminator_is_found() {
    assert!(contains_terminator(b"\r\n\r\n"));
}

#[test]
fn terminator_is_found_anywhere() {
    assert!(contains_terminator(b"GET / HTTP/1.1\r\n\r\n"));
    assert!(contains_terminator(b"\r\n\r\ntrailing body"));
    assert!(contains_terminator(b"a\r\n\r\nb"));
}

#[test]
fn near_misses_are_not_found() {
    assert!(!contains_terminator(b"\r\n\r\r\n"));
    assert!(!contains_terminator(b"\n\r\n\r"));
    assert!(!contains_terminator(b"\r\r\n\n"));
    assert!(!contains_terminator(b"garbage without it"));
}

#[test]
fn response_bytes_are_the_fixed_page() {
    let expected: &[u8] = b"HTTP/1.0 200 OK\r\n\r\n<html><body><h1>Hello Rust! Hello STM32!</h1><h2>This is my first time ever using ethernet on STM32<h2></body></html>\r\n";
    assert_eq!(response_bytes(), expected.to_vec());
    // Two builds of the response are byte-identical.
    assert_eq!(response_bytes(), response_bytes());
}
