//! The request reader: drives the wire parser over the bytes received so
//! far, growing the header table adaptively, and validates the
//! `Content-Length` header of a complete request. The socket loop that
//! accumulates the bytes lives with the binary; it calls [`try_read`] after
//! every read.

use crate::http::{header_lookup, HeaderView, Request};
use crate::parser;
use crate::parser::{request_matches, wire_parse, WireOutcome};
use crate::utils::{dec_seq_value, is_digit_seq};
use vstd::prelude::*;

verus! {

/// The terminal outcomes of reading one request from a connection.
#[derive(PartialEq, Eq, Structural, Debug, Clone, Copy)]
pub enum ReadError {
    ConnectionClosed,
    Timeout,
    BadSyntax,
    TooManyHeaders,
}

/// What one attempt at parsing the accumulated bytes yields: more bytes are
/// needed, a request is complete, or reading failed for good.
#[derive(Debug)]
pub enum ReadResult {
    Partial,
    Complete(Request),
    Failed(ReadError),
}

/// The value of a `Content-Length` header: an optional `+` sign, then at
/// least one decimal digit, and a value that fits in 32 bits.
pub open spec fn content_length_of(bytes: Seq<u8>) -> Option<int> {
    let digits = if bytes.len() > 0 && bytes[0] == 43 {
        bytes.drop_first()
    } else {
        bytes
    };
    if digits.len() > 0 && is_digit_seq(digits) && dec_seq_value(digits) <= u32::MAX {
        Some(dec_seq_value(digits))
    } else {
        None
    }
}

/// The headers carry no `Content-Length`, or one whose value is well formed.
pub open spec fn content_length_valid(headers: Seq<HeaderView>) -> bool {
    match header_lookup(headers, "Content-Length"@) {
        None => true,
        Some(v) => content_length_of(v) is Some,
    }
}

/// Parses an optionally `+`-signed decimal number that fits in 32 bits.
fn parse_u32_decimal(bytes: &[u8]) -> (r: Option<u32>)
    ensures
        match r {
            Some(n) => content_length_of(bytes@) == Some(n as int),
            None => content_length_of(bytes@) is None,
        },
{
    let n = bytes.len();
    let start: usize = if n > 0 && bytes[0] == 43 {
        1
    } else {
        0
    };
    let ghost digits = bytes@.subrange(start as int, n as int);
    proof {
        if n > 0 && bytes@[0] == 43 {
            assert(digits =~= bytes@.drop_first());
        } else {
            assert(digits =~= bytes@);
        }
    }
    if start >= n {
        return None;
    }
    let mut acc: u32 = 0;
    let mut i: usize = start;
    proof {
        assert(digits.take(0) =~= Seq::<u8>::empty());
    }
    while i < n
        invariant
            start <= i <= n,
            n == bytes@.len(),
            start == (if bytes@.len() > 0 && bytes@[0] == 43 { 1int } else { 0int }),
            start < n,
            digits == bytes@.subrange(start as int, n as int),
            is_digit_seq(digits.take(i - start)),
            acc == dec_seq_value(digits.take(i - start)),
        decreases n - i,
    {
        let b = bytes[i];
        if b < 48 || b > 57 {
            proof {
                assert(digits[i - start] == bytes@[i as int]);
                assert(!is_digit_seq(digits));
                lemma_spec_digits(bytes@, digits);
            }
            return None;
        }
        let wide: u64 = acc as u64 * 10 + (b - 48) as u64;
        proof {
            assert(digits.take(i - start + 1).drop_last() =~= digits.take(i - start));
            assert(digits.take(i - start + 1).last() == bytes@[i as int]);
            assert(is_digit_seq(digits.take(i - start + 1)));
        }
        if wide > 0xffff_ffff {
            proof {
                assert(dec_seq_value(digits.take(i - start + 1)) > u32::MAX);
                lemma_dec_seq_value_prefix_u32(digits, i - start + 1);
                lemma_spec_digits(bytes@, digits);
            }
            return None;
        }
        acc = wide as u32;
        i += 1;
    }
    proof {
        assert(digits.take(n - start) =~= digits);
    }
    Some(acc)
}

/// `digits` is what `content_length_of` strips the optional sign down to.
proof fn lemma_spec_digits(bytes: Seq<u8>, digits: Seq<u8>)
    requires
        digits == bytes.subrange(
            if bytes.len() > 0 && bytes[0] == 43 { 1int } else { 0int },
            bytes.len() as int,
        ),
    ensures
        digits == (if bytes.len() > 0 && bytes[0] == 43 { bytes.drop_first() } else { bytes }),
{
    if bytes.len() > 0 && bytes[0] == 43 {
        assert(digits =~= bytes.drop_first());
    } else {
        assert(digits =~= bytes);
    }
}

proof fn lemma_dec_seq_value_prefix_u32(digits: Seq<u8>, i: int)
    requires
        is_digit_seq(digits.take(i)),
        0 <= i <= digits.len(),
        dec_seq_value(digits.take(i)) > u32::MAX,
    ensures
        content_length_of_digits_overflows(digits),
{
    if is_digit_seq(digits) {
        crate::utils::lemma_dec_seq_value_prefix(digits, i);
    }
}

/// Either some byte is no digit, or the value exceeds 32 bits.
pub open spec fn content_length_of_digits_overflows(digits: Seq<u8>) -> bool {
    !is_digit_seq(digits) || dec_seq_value(digits) > u32::MAX
}

/// Extracts and validates the `Content-Length` header: absent means zero,
/// present must parse as a non-negative 32-bit integer, anything else is a
/// syntax failure.
pub fn get_content_length(req: &Request) -> (r: Result<u32, ReadResult>)
    ensures
        match header_lookup(req.headers.deep_view(), "Content-Length"@) {
            None => r matches Ok(n) && n == 0,
            Some(v) => match content_length_of(v) {
                Some(len) => r matches Ok(n) && n == len,
                None => r matches Err(e) && e matches ReadResult::Failed(ReadError::BadSyntax),
            },
        },
{
    match req.header_value(&"Content-Length".to_owned()) {
        None => Ok(0),
        Some(v) => match parse_u32_decimal(v.as_slice()) {
            Some(n) => Ok(n),
            None => Err(ReadResult::Failed(ReadError::BadSyntax)),
        },
    }
}

/// Attempts to parse one request out of the bytes received so far. The
/// header table starts at sixteen slots (or fewer if the configured maximum
/// is smaller) and doubles, capped at `max_headers_count`, each time the
/// parser runs out of slots; a buffer presenting more header lines than the
/// maximum fails with `TooManyHeaders` rather than growing without bound.
pub fn try_read(buffer: &[u8], max_headers_count: usize) -> (r: ReadResult)
    ensures
        wire_parse(buffer@).header_lines > max_headers_count ==> (r matches ReadResult::Failed(e)
            && e == ReadError::TooManyHeaders),
        wire_parse(buffer@).header_lines <= max_headers_count ==> match wire_parse(
            buffer@,
        ).outcome {
            WireOutcome::Complete { method, path, version, headers, consumed } => {
                if content_length_valid(headers) {
                    r matches ReadResult::Complete(req) && request_matches(
                        req,
                        method,
                        path,
                        version,
                        headers,
                    )
                } else {
                    r matches ReadResult::Failed(e) && e == ReadError::BadSyntax
                }
            },
            WireOutcome::Incomplete => r is Partial,
            WireOutcome::Malformed => r matches ReadResult::Failed(e) && e == ReadError::BadSyntax,
        },
{
    let mut headers_size: usize = if max_headers_count < 16 {
        max_headers_count
    } else {
        16
    };
    loop
        invariant
            headers_size <= max_headers_count,
            max_headers_count >= 1 ==> headers_size >= 1,
        decreases max_headers_count - headers_size,
    {
        match parser::try_parse(headers_size, buffer) {
            Err(parser::Error::Partial) => {
                return ReadResult::Partial;
            },
            Err(parser::Error::TooManyHeaders) => {
                if headers_size < max_headers_count {
                    headers_size = if headers_size > max_headers_count / 2 {
                        max_headers_count
                    } else {
                        2 * headers_size
                    };
                } else {
                    return ReadResult::Failed(ReadError::TooManyHeaders);
                }
            },
            Err(parser::Error::Syntax) => {
                return ReadResult::Failed(ReadError::BadSyntax);
            },
            Ok((req, _used)) => {
                match get_content_length(&req) {
                    Err(e) => {
                        return e;
                    },
                    Ok(_) => {
                        return ReadResult::Complete(req);
                    },
                }
            },
        }
    }
}

} // verus!
