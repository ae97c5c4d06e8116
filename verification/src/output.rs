use vstd::prelude::*;
use vstd::utf8::{decode_utf8, valid_utf8};

verus! {

/// The text that lossy UTF-8 decoding assigns to a byte sequence: valid
/// UTF-8 passes through unchanged and each invalid sequence becomes the
/// replacement character. The result depends on the bytes alone.
pub uninterp spec fn lossy_of(bytes: Seq<u8>) -> Seq<char>;

/// Every byte of the sequence is plain ASCII.
pub open spec fn is_ascii_bytes(bytes: Seq<u8>) -> bool {
    forall|i: int| 0 <= i < bytes.len() ==> bytes[i] < 128
}

/// The characters that a sequence of ASCII bytes spells.
pub open spec fn ascii_chars(bytes: Seq<u8>) -> Seq<char> {
    bytes.map_values(|b: u8| b as char)
}

/// Relies on `String::from_utf8_lossy`: decodes the bytes as UTF-8,
/// replacing invalid sequences with U+FFFD. The documentation promises that
/// valid UTF-8 — in particular pure ASCII — passes through unchanged, that
/// the result is a function of the bytes alone, and that no text appears
/// from nothing.
#[verifier::external_body]
fn lossy_decode(bytes: &Vec<u8>) -> (r: String)
    ensures
        r@ == lossy_of(bytes@),
        bytes@.len() == 0 ==> r@.len() == 0,
        valid_utf8(bytes@) ==> r@ == decode_utf8(bytes@),
        is_ascii_bytes(bytes@) ==> r@ == ascii_chars(bytes@),
{
    String::from_utf8_lossy(bytes.as_slice()).into_owned()
}

/// Turn the bytes drained from a capture sink into the result text.
///
/// Capture bytes are treated as UTF-8 on a best-effort basis: invalid
/// sequences are passed through with a lossy decode rather than aborting an
/// otherwise successful execution, so extraction itself never fails.
pub fn extract_output(bytes: &Vec<u8>) -> (r: String)
    ensures
        r@ == lossy_of(bytes@),
        bytes@.len() == 0 ==> r@.len() == 0,
        valid_utf8(bytes@) ==> r@ == decode_utf8(bytes@),
        is_ascii_bytes(bytes@) ==> r@ == ascii_chars(bytes@),
{
    lossy_decode(bytes)
}

} // verus!
