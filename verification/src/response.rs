//! The fixed HTTP response. The served page is static: the same byte
//! sequence is written for every connection, whatever the request held.

use vstd::prelude::*;
use vstd::string::StringSliceAdditionalSpecFns;

verus! {

/// The bytes of the one response the server ever sends: an HTTP/1.0
/// status line, an empty header block, and a fixed HTML body.
pub open spec fn response_spec() -> Seq<u8> {
    "HTTP/1.0 200 OK\r\n\r\n<html><body><h1>Hello Rust! Hello STM32!</h1><h2>This is my first time ever using ethernet on STM32<h2></body></html>\r\n".spec_bytes()
}

/// Builds the fixed response, freshly allocated for one write.
pub fn response_bytes() -> (r: Vec<u8>)
    ensures
        r@ == response_spec(),
{
    let text = "HTTP/1.0 200 OK\r\n\r\n<html><body><h1>Hello Rust! Hello STM32!</h1><h2>This is my first time ever using ethernet on STM32<h2></body></html>\r\n";
    vstd::slice::slice_to_vec(text.as_bytes())
}

} // verus!
