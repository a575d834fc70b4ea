//! Core logic of a tiny fixed-page TCP server: a single sequential
//! connection handler that accepts one connection at a time, reads bytes
//! until the header terminator `\r\n\r\n` (or end of stream) is seen,
//! writes one fixed HTTP response, and tears the connection down with a
//! graceful close followed by a forced abort.
//!
//! The handler is modelled as an event-driven state machine: the
//! surrounding program performs one socket operation per step (accept,
//! read, write, close, delay, abort) and feeds the outcome back as an
//! event. All decision logic lives here and is verified; the socket and
//! timer operations themselves live outside the library.

pub mod handler;
pub mod laws;
pub mod response;
pub mod terminator;
