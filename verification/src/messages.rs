//! The fixed texts the server emits.
//!
//! The wire response and the log lines are compiled-in ASCII strings; they
//! carry no structure and are never derived from request content.  Each text
//! is stated as a byte sequence at the spec level, with an executable builder
//! proved to produce exactly it.

use crate::utf8::{sanitize, sanitize_bytes};
use vstd::prelude::*;

verus! {

/// The response payload, `"Hello from the Server!"`, sent after every request.
pub open spec fn response_text() -> Seq<u8> {
    seq![
        72u8, 101, 108, 108, 111, 32, 102, 114, 111, 109, 32, 116, 104, 101, 32, 83, 101, 114,
        118, 101, 114, 33,
    ]
}

/// The log-line prefix, `"Received request: "`, put before the sanitised
/// request text.
pub open spec fn log_prefix() -> Seq<u8> {
    seq![82u8, 101, 99, 101, 105, 118, 101, 100, 32, 114, 101, 113, 117, 101, 115, 116, 58, 32]
}

/// The log line for a clean disconnect, `"Client disconnected"`.
pub open spec fn disconnect_text() -> Seq<u8> {
    seq![67u8, 108, 105, 101, 110, 116, 32, 100, 105, 115, 99, 111, 110, 110, 101, 99, 116, 101, 100]
}

/// The full log line for a received request: the prefix followed by the
/// request bytes sanitised into well-formed UTF-8.
pub open spec fn request_log_line(req: Seq<u8>) -> Seq<u8> {
    log_prefix() + sanitize(req)
}

/// Builds the fixed response payload.
pub fn response_message() -> (v: Vec<u8>)
    ensures
        v@ == response_text(),
{
    let mut v: Vec<u8> = Vec::new();
    v.push(72);
    v.push(101);
    v.push(108);
    v.push(108);
    v.push(111);
    v.push(32);
    v.push(102);
    v.push(114);
    v.push(111);
    v.push(109);
    v.push(32);
    v.push(116);
    v.push(104);
    v.push(101);
    v.push(32);
    v.push(83);
    v.push(101);
    v.push(114);
    v.push(118);
    v.push(101);
    v.push(114);
    v.push(33);
    proof {
        assert(v@ =~= response_text());
    }
    v
}

/// Builds the fixed disconnect log line.
pub fn disconnect_message() -> (v: Vec<u8>)
    ensures
        v@ == disconnect_text(),
{
    let mut v: Vec<u8> = Vec::new();
    v.push(67);
    v.push(108);
    v.push(105);
    v.push(101);
    v.push(110);
    v.push(116);
    v.push(32);
    v.push(100);
    v.push(105);
    v.push(115);
    v.push(99);
    v.push(111);
    v.push(110);
    v.push(110);
    v.push(101);
    v.push(99);
    v.push(116);
    v.push(101);
    v.push(100);
    proof {
        assert(v@ =~= disconnect_text());
    }
    v
}

/// Builds the log line for a received request: the prefix, then the request
/// sanitised into well-formed UTF-8.  Accepts arbitrary bytes.
pub fn request_log_message(req: &[u8]) -> (v: Vec<u8>)
    ensures
        v@ == request_log_line(req@),
{
    let mut v: Vec<u8> = Vec::new();
    v.push(82);
    v.push(101);
    v.push(99);
    v.push(101);
    v.push(105);
    v.push(118);
    v.push(101);
    v.push(100);
    v.push(32);
    v.push(114);
    v.push(101);
    v.push(113);
    v.push(117);
    v.push(101);
    v.push(115);
    v.push(116);
    v.push(58);
    v.push(32);
    proof {
        assert(v@ =~= log_prefix());
    }
    let mut body = sanitize_bytes(req);
    v.append(&mut body);
    v
}

} // verus!
