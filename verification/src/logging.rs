//! The access logger: the outermost stage of the request pipeline.
//!
//! Every request that reaches the server is wrapped by this stage, whatever
//! its outcome: the surrounding code records the start time, lets the rest
//! of the pipeline run (so an authentication rejection is wrapped too),
//! then renders exactly one structured record naming the method, the path,
//! the elapsed milliseconds and the system identifier, and emits it on
//! standard output.  Rendering is verified here down to the byte: a JSON
//! object with the four fields in fixed order, strings escaped as JSON asks.

use vstd::prelude::*;
use vstd::string::StringSliceAdditionalSpecFns;

verus! {

/// The ASCII digit for one decimal digit value.
pub open spec fn dec_digit(d: nat) -> u8 {
    (48 + d) as u8
}

/// The decimal rendering of a number, most significant digit first, with no
/// leading zeros (a single `0` for zero).
pub open spec fn dec_rep(n: nat) -> Seq<u8>
    decreases n,
{
    if n < 10 {
        seq![dec_digit(n)]
    } else {
        dec_rep(n / 10).push(dec_digit(n % 10))
    }
}

/// The ASCII digit for one hexadecimal digit value, lower case.
pub open spec fn hex_digit(d: nat) -> u8 {
    if d < 10 {
        (48 + d) as u8
    } else {
        (87 + d) as u8
    }
}

/// How one byte appears inside a JSON string: quote and backslash get a
/// two-byte escape, the named control bytes get their short escapes, any
/// other control byte gets the `\u00` form, and everything else stands as
/// itself.
pub open spec fn escaped_byte(b: u8) -> Seq<u8> {
    if b == 34 {
        seq![92u8, 34u8]
    } else if b == 92 {
        seq![92u8, 92u8]
    } else if b == 8 {
        seq![92u8, 98u8]
    } else if b == 9 {
        seq![92u8, 116u8]
    } else if b == 10 {
        seq![92u8, 110u8]
    } else if b == 12 {
        seq![92u8, 102u8]
    } else if b == 13 {
        seq![92u8, 114u8]
    } else if b < 32 {
        seq![92u8, 117u8, 48u8, 48u8, hex_digit((b >> 4) as nat), hex_digit((b & 15) as nat)]
    } else {
        seq![b]
    }
}

/// A byte string as it appears inside a JSON string literal.
pub open spec fn json_escaped(s: Seq<u8>) -> Seq<u8>
    decreases s.len(),
{
    if s.len() == 0 {
        Seq::empty()
    } else {
        json_escaped(s.drop_last()) + escaped_byte(s.last())
    }
}

/// One structured access-log line: a JSON object with the request method,
/// its path, the elapsed milliseconds and the system identifier, in that
/// order.
pub open spec fn log_line(
    method: Seq<u8>,
    path: Seq<u8>,
    response_time_ms: nat,
    system_code: Seq<u8>,
) -> Seq<u8> {
    "{\"method\":\"".spec_bytes() + json_escaped(method) + "\",\"path\":\"".spec_bytes()
        + json_escaped(path) + "\",\"response_time_ms\":".spec_bytes() + dec_rep(response_time_ms)
        + ",\"system_code\":\"".spec_bytes() + json_escaped(system_code) + "\"}".spec_bytes()
}

/// Appends a byte string.
fn push_bytes(out: &mut Vec<u8>, s: &[u8])
    ensures
        final(out)@ == old(out)@ + s@,
{
    let n = s.len();
    let mut i: usize = 0;
    while i < n
        invariant
            0 <= i <= n == s@.len(),
            out@ == old(out)@ + s@.subrange(0, i as int),
        decreases n - i,
    {
        out.push(*vstd::slice::slice_index_get(s, i));
        proof {
            assert(s@.subrange(0, i + 1 as int) =~= s@.subrange(0, i as int).push(
                s@[i as int],
            ));
        }
        i = i + 1;
    }
    proof {
        assert(s@.subrange(0, n as int) =~= s@);
    }
}

/// Appends the decimal rendering of `n`.
fn push_dec(out: &mut Vec<u8>, n: u64)
    ensures
        final(out)@ == old(out)@ + dec_rep(n as nat),
    decreases n,
{
    if n >= 10 {
        push_dec(out, n / 10);
    }
    out.push((n % 10) as u8 + 48);
}

/// Appends one byte in its JSON string form.
fn push_escaped_byte(out: &mut Vec<u8>, b: u8)
    ensures
        final(out)@ == old(out)@ + escaped_byte(b),
{
    if b == 34 {
        out.push(92);
        out.push(34);
    } else if b == 92 {
        out.push(92);
        out.push(92);
    } else if b == 8 {
        out.push(92);
        out.push(98);
    } else if b == 9 {
        out.push(92);
        out.push(116);
    } else if b == 10 {
        out.push(92);
        out.push(110);
    } else if b == 12 {
        out.push(92);
        out.push(102);
    } else if b == 13 {
        out.push(92);
        out.push(114);
    } else if b < 32 {
        out.push(92);
        out.push(117);
        out.push(48);
        out.push(48);
        proof {
            assert((b >> 4) < 16 && (b & 15) < 16) by (bit_vector);
        }
        let hi = b >> 4;
        let lo = b & 15;
        out.push(if hi < 10 { 48 + hi } else { 87 + hi });
        out.push(if lo < 10 { 48 + lo } else { 87 + lo });
    } else {
        out.push(b);
    }
    proof {
        assert(out@ =~= old(out)@ + escaped_byte(b));
    }
}

/// Appends a byte string in its JSON string form.
fn push_json_escaped(out: &mut Vec<u8>, s: &[u8])
    ensures
        final(out)@ == old(out)@ + json_escaped(s@),
{
    let n = s.len();
    let mut i: usize = 0;
    while i < n
        invariant
            0 <= i <= n == s@.len(),
            out@ == old(out)@ + json_escaped(s@.subrange(0, i as int)),
        decreases n - i,
    {
        push_escaped_byte(out, *vstd::slice::slice_index_get(s, i));
        proof {
            let t = s@.subrange(0, i + 1 as int);
            assert(t.drop_last() =~= s@.subrange(0, i as int));
            assert(t.last() == s@[i as int]);
        }
        i = i + 1;
    }
    proof {
        assert(s@.subrange(0, n as int) =~= s@);
    }
}

/// The access-logging stage, installed once as the outermost wrapper.
pub struct Logger;

/// The per-request form of the access-logging stage.
pub struct LoggerMiddleware;

impl Logger {
    /// Wraps the whole pipeline in the access-logging stage.
    pub fn new_transform(&self) -> (m: LoggerMiddleware) {
        LoggerMiddleware
    }
}

impl LoggerMiddleware {
    /// Renders the one structured record owed for a completed request.  The
    /// caller measures the elapsed time around the inner stages and emits
    /// the returned line; the elapsed value is unsigned, so the recorded
    /// time is never negative.
    pub fn call(
        &self,
        method: &Vec<u8>,
        path: &Vec<u8>,
        response_time_ms: u64,
        system_code: &Vec<u8>,
    ) -> (line: Vec<u8>)
        ensures
            line@ == log_line(method@, path@, response_time_ms as nat, system_code@),
    {
        let mut out: Vec<u8> = Vec::new();
        push_bytes(&mut out, "{\"method\":\"".as_bytes());
        push_json_escaped(&mut out, method.as_slice());
        push_bytes(&mut out, "\",\"path\":\"".as_bytes());
        push_json_escaped(&mut out, path.as_slice());
        push_bytes(&mut out, "\",\"response_time_ms\":".as_bytes());
        push_dec(&mut out, response_time_ms);
        push_bytes(&mut out, ",\"system_code\":\"".as_bytes());
        push_json_escaped(&mut out, system_code.as_slice());
        push_bytes(&mut out, "\"}".as_bytes());
        proof {
            assert(out@ =~= log_line(
                method@,
                path@,
                response_time_ms as nat,
                system_code@,
            ));
        }
        out
    }
}

} // verus!
