//! Text and bytes. The host speaks text; the engine stores bytes. Keys and
//! values cross as UTF-8.

use vstd::prelude::*;
use vstd::slice::slice_to_vec;
use vstd::utf8::{decode_utf8, encode_utf8, is_ascii_chars, valid_utf8};
use crate::error::SessionError;

verus! {

/// The text that `String::from_utf8_lossy` gives for `bytes`.
pub uninterp spec fn lossy_text(bytes: Seq<u8>) -> Seq<char>;

/// Calls `String::from_utf8`. The result is the text the bytes encode where
/// they are valid UTF-8, and `None` where they are not.
#[verifier::external_body]
fn text_from_utf8(bytes: Vec<u8>) -> (text: Option<String>)
    ensures
        text is Some <==> valid_utf8(bytes@),
        text is Some ==> text.unwrap()@ == decode_utf8(bytes@),
{
    String::from_utf8(bytes).ok()
}

/// Calls `String::from_utf8_lossy`. Valid UTF-8 comes out as the text it
/// encodes; anything else comes out with replacement characters in place of
/// the invalid parts.
#[verifier::external_body]
pub(crate) fn text_from_utf8_lossy(bytes: &[u8]) -> (text: String)
    ensures
        text@ == lossy_text(bytes@),
        valid_utf8(bytes@) ==> text@ == decode_utf8(bytes@),
{
    String::from_utf8_lossy(bytes).into_owned()
}

/// The ten decimal digits.
pub open spec fn digits() -> Seq<char> {
    seq!['0', '1', '2', '3', '4', '5', '6', '7', '8', '9']
}

/// A number written in decimal, without sign or leading zeros.
pub open spec fn decimal(n: nat) -> Seq<char>
    decreases n,
{
    if n < 10 {
        seq![digits()[n as int]]
    } else {
        decimal(n / 10).push(digits()[(n % 10) as int])
    }
}

/// A number written in decimal, as ASCII bytes.
pub open spec fn decimal_bytes(n: nat) -> Seq<u8>
    decreases n,
{
    if n < 10 {
        seq![(48 + n) as u8]
    } else {
        decimal_bytes(n / 10).push((48 + n % 10) as u8)
    }
}

/// The decimal digits are ASCII, and their UTF-8 encoding is the digits as
/// bytes.
pub proof fn lemma_decimal_is_ascii(n: nat)
    ensures
        is_ascii_chars(decimal(n)),
        encode_utf8(decimal(n)) == decimal_bytes(n),
{
    lemma_decimal_digits(n);
    vstd::utf8::is_ascii_chars_encode_utf8(decimal(n));
    assert(encode_utf8(decimal(n)) =~= decimal_bytes(n));
}

/// Digit by digit, the decimal text and the decimal bytes agree.
proof fn lemma_decimal_digits(n: nat)
    ensures
        is_ascii_chars(decimal(n)),
        decimal(n).len() == decimal_bytes(n).len(),
        forall|i: int| 0 <= i < decimal(n).len() ==> decimal(n)[i] as u8 == decimal_bytes(n)[i],
    decreases n,
{
    let d = (n % 10) as int;
    assert(digits()[d] as u8 == (48 + d) as u8 && '\0' <= digits()[d] <= '\u{7f}') by {
        assert(digits()[0] == '0' && digits()[1] == '1' && digits()[2] == '2' && digits()[3] == '3'
            && digits()[4] == '4');
        assert(digits()[5] == '5' && digits()[6] == '6' && digits()[7] == '7' && digits()[8] == '8'
            && digits()[9] == '9');
    }
    if n >= 10 {
        lemma_decimal_digits(n / 10);
    }
}

/// Appends a number in decimal, as ASCII bytes.
fn push_decimal(size: usize, out: &mut Vec<u8>)
    ensures
        final(out)@ == old(out)@ + decimal_bytes(size as nat),
    decreases size,
{
    let digit: u8 = 48 + (size % 10) as u8;
    if size >= 10 {
        push_decimal(size / 10, out);
        out.push(digit);
        assert(out@ =~= old(out)@ + decimal_bytes(size as nat));
    } else {
        out.push(digit);
        assert(out@ =~= old(out)@ + decimal_bytes(size as nat));
    }
}

/// A size written in decimal, as the engine reads option values.
pub fn size_text(size: usize) -> (text: String)
    ensures
        text@ == decimal(size as nat),
{
    let mut bytes: Vec<u8> = Vec::new();
    push_decimal(size, &mut bytes);
    proof {
        assert(bytes@ =~= decimal_bytes(size as nat));
        lemma_decimal_is_ascii(size as nat);
        lemma_text_round_trip(decimal(size as nat));
    }
    match text_from_utf8(bytes) {
        Some(text) => text,
        None => {
            assert(false);
            String::new()
        },
    }
}

/// The text behind an optional string.
pub open spec fn opt_text(text: Option<String>) -> Option<Seq<char>> {
    match text {
        Some(t) => Some(t@),
        None => None,
    }
}

/// The bytes behind an optional byte vector.
pub open spec fn opt_bytes(bytes: Option<Vec<u8>>) -> Option<Seq<u8>> {
    match bytes {
        Some(b) => Some(b@),
        None => None,
    }
}

/// The UTF-8 bytes of an optional text.
pub open spec fn opt_encoded(text: Option<String>) -> Option<Seq<u8>> {
    match text {
        Some(t) => Some(encode_utf8(t@)),
        None => None,
    }
}

/// The UTF-8 bytes of a text, as the engine stores it.
pub fn encode(text: &String) -> (bytes: Vec<u8>)
    ensures
        bytes@ == encode_utf8(text@),
{
    slice_to_vec(text.as_str().as_bytes())
}

/// The UTF-8 bytes of a text that may be absent.
pub fn encode_opt(text: &Option<String>) -> (bytes: Option<Vec<u8>>)
    ensures
        opt_bytes(bytes) == opt_encoded(*text),
{
    match text {
        Some(t) => Some(encode(t)),
        None => None,
    }
}

/// Reads bytes as text. Bytes that are not valid UTF-8 are an encoding
/// failure.
pub fn decode(bytes: Vec<u8>) -> (result: Result<String, SessionError>)
    ensures
        valid_utf8(bytes@) ==> result is Ok && result.unwrap()@ == decode_utf8(bytes@),
        !valid_utf8(bytes@) ==> result == Err::<String, SessionError>(SessionError::Encoding),
{
    match text_from_utf8(bytes) {
        Some(text) => Ok(text),
        None => Err(SessionError::Encoding),
    }
}

/// A copy of a text.
pub fn copy_opt(text: &Option<String>) -> (copy: Option<String>)
    ensures
        copy == *text,
{
    match text {
        Some(t) => Some(t.clone()),
        None => None,
    }
}

/// A copy of a byte string.
pub fn copy_bytes(bytes: &Vec<u8>) -> (copy: Vec<u8>)
    ensures
        copy@ == bytes@,
{
    slice_to_vec(bytes.as_slice())
}

/// Whether two byte strings are the same.
pub fn same_bytes(a: &Vec<u8>, b: &Vec<u8>) -> (same: bool)
    ensures
        same == (a@ == b@),
{
    if a.len() != b.len() {
        return false;
    }
    let mut i: usize = 0;
    while i < a.len()
        invariant
            i <= a.len(),
            a.len() == b.len(),
            forall|j: int| 0 <= j < i ==> a@[j] == b@[j],
        decreases a.len() - i,
    {
        if a[i] != b[i] {
            return false;
        }
        i += 1;
    }
    assert(a@ =~= b@);
    true
}

/// Encoding a text and reading the bytes back gives the text again.
pub proof fn lemma_text_round_trip(text: Seq<char>)
    ensures
        valid_utf8(encode_utf8(text)),
        decode_utf8(encode_utf8(text)) == text,
{
    vstd::utf8::encode_utf8_valid_utf8(text);
    vstd::utf8::encode_utf8_decode_utf8(text);
}

} // verus!
