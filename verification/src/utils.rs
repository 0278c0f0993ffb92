//! Small helpers shared by the other modules: decimal rendering and parsing
//! of non-negative integers, MIME-type lookup and filesystem existence
//! probes.

use vstd::prelude::*;

verus! {

/// The decimal digit bytes of `n`, most significant digit first.
pub open spec fn dec_digits(n: nat) -> Seq<u8>
    decreases n,
{
    if n < 10 {
        seq![(48 + n) as u8]
    } else {
        dec_digits(n / 10).push((48 + n % 10) as u8)
    }
}

/// Renders `n` as its ASCII decimal digits.
pub fn dec_bytes(n: usize) -> (r: Vec<u8>)
    ensures
        r@ == dec_digits(n as nat),
    decreases n,
{
    if n < 10 {
        let mut v: Vec<u8> = Vec::new();
        v.push(48 + n as u8);
        proof {
            assert(v@ =~= dec_digits(n as nat));
        }
        v
    } else {
        let mut v = dec_bytes(n / 10);
        v.push(48 + (n % 10) as u8);
        v
    }
}

/// Every byte is an ASCII decimal digit.
pub open spec fn is_digit_seq(bytes: Seq<u8>) -> bool {
    forall|i: int| 0 <= i < bytes.len() ==> 48 <= #[trigger] bytes[i] <= 57
}

/// The numeric value of a sequence of decimal digit bytes, most significant
/// digit first.
pub open spec fn dec_seq_value(digits: Seq<u8>) -> int
    decreases digits.len(),
{
    if digits.len() == 0 {
        0
    } else {
        dec_seq_value(digits.drop_last()) * 10 + (digits.last() - 48)
    }
}

pub proof fn lemma_dec_seq_value_nonneg(digits: Seq<u8>)
    requires
        is_digit_seq(digits),
    ensures
        dec_seq_value(digits) >= 0,
    decreases digits.len(),
{
    if digits.len() > 0 {
        assert(is_digit_seq(digits.drop_last()));
        lemma_dec_seq_value_nonneg(digits.drop_last());
    }
}

/// A digit sequence is worth at least as much as any of its prefixes.
pub proof fn lemma_dec_seq_value_prefix(digits: Seq<u8>, i: int)
    requires
        is_digit_seq(digits),
        0 <= i <= digits.len(),
    ensures
        dec_seq_value(digits.take(i)) <= dec_seq_value(digits),
    decreases digits.len() - i,
{
    if i == digits.len() {
        assert(digits.take(i) =~= digits);
    } else {
        assert(digits.take(i + 1).drop_last() =~= digits.take(i));
        assert(is_digit_seq(digits.take(i)));
        lemma_dec_seq_value_nonneg(digits.take(i));
        lemma_dec_seq_value_prefix(digits, i + 1);
    }
}

/// What the MIME table knows about a path: the first guess for its
/// extension, if the extension has one. The guess is a pure function of the
/// path's characters.
pub uninterp spec fn mime_of(path: Seq<char>) -> Option<Seq<char>>;

/// Relies on `mime_guess::from_path(..).first()`: a case-insensitive lookup
/// of the path's extension in a fixed table, with no disk access, so the
/// result depends on the path alone.
#[verifier::external_body]
fn guess_mime(path: &String) -> (r: Option<String>)
    ensures
        r matches Some(m) ==> (mime_of(path@) matches Some(v) && m@ == v),
        r is None <==> mime_of(path@) is None,
{
    mime_guess::from_path(path.as_str()).first().map(|m| m.to_string())
}

/// The content type served for a file: the guessed type, with plain text
/// refined to UTF-8 plain text, and an unknown extension served as an
/// opaque byte stream.
pub open spec fn file_type_spec(path: Seq<char>) -> Seq<char> {
    match mime_of(path) {
        None => "application/octet-stream"@,
        Some(m) => if m == "text/plain"@ {
            "text/plain; charset=utf-8"@
        } else {
            m
        },
    }
}

/// The `Content-Type` value for a file at `filename`.
pub fn match_file_type(filename: &String) -> (r: String)
    ensures
        r@ == file_type_spec(filename@),
{
    match guess_mime(filename) {
        None => "application/octet-stream".to_owned(),
        Some(m) => {
            if m == "text/plain".to_owned() {
                "text/plain; charset=utf-8".to_owned()
            } else {
                m
            }
        },
    }
}

/// Relies on `std::path::Path::exists`; the answer depends on the
/// filesystem at call time, so nothing is assumed of it.
#[verifier::external_body]
fn path_exists(path: &String) -> bool {
    std::path::Path::new(path.as_str()).exists()
}

/// Returns the path when something exists at it on the filesystem.
pub fn path_if_existing(path: String) -> (r: Option<String>)
    ensures
        r matches Some(p) ==> p == path,
{
    if path_exists(&path) {
        Some(path)
    } else {
        None
    }
}

} // verus!
