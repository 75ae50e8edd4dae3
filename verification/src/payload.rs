//! The two renderings of a chunk of received bytes: lowercase hexadecimal,
//! which loses nothing, and best-effort text.

use vstd::prelude::*;
use vstd::utf8::*;

verus! {

/// The lowercase hexadecimal digit for a value below sixteen.
pub open spec fn hex_digit(nibble: int) -> char
    recommends
        0 <= nibble < 16,
{
    if nibble < 10 {
        (nibble + 48) as u8 as char
    } else {
        (nibble + 87) as u8 as char
    }
}

/// The value of a hexadecimal digit of either case, if `c` is one.
pub open spec fn hex_value(c: char) -> Option<int> {
    if '0' <= c <= '9' {
        Some(c as int - 48)
    } else if 'a' <= c <= 'f' {
        Some(c as int - 87)
    } else if 'A' <= c <= 'F' {
        Some(c as int - 55)
    } else {
        None
    }
}

/// The hexadecimal rendering of `bytes`: two lowercase digits per byte, the
/// high half first, in the order of the bytes.
pub open spec fn hex_string(bytes: Seq<u8>) -> Seq<char> {
    Seq::new(
        2 * bytes.len(),
        |i: int|
            if i % 2 == 0 {
                hex_digit(bytes[i / 2] as int / 16)
            } else {
                hex_digit(bytes[i / 2] as int % 16)
            },
    )
}

/// Whether `text` is an even number of hexadecimal digits.
pub open spec fn is_hex_string(text: Seq<char>) -> bool {
    &&& text.len() % 2 == 0
    &&& forall|i: int| 0 <= i < text.len() ==> (#[trigger] hex_value(text[i])) is Some
}

/// The bytes that a hexadecimal text stands for, if it is one.
pub open spec fn hex_bytes(text: Seq<char>) -> Option<Seq<u8>> {
    if is_hex_string(text) {
        Some(
            Seq::new(
                text.len() / 2,
                |i: int| (16 * hex_value(text[2 * i])->0 + hex_value(text[2 * i + 1])->0) as u8,
            ),
        )
    } else {
        None
    }
}

/// Each digit that `hex_digit` produces is read back as the value it was
/// produced from.
pub proof fn lemma_hex_digit_value(nibble: int)
    requires
        0 <= nibble < 16,
    ensures
        hex_value(hex_digit(nibble)) == Some(nibble),
{
}

/// Reading a hexadecimal rendering back gives exactly the bytes it was
/// rendered from, so the rendering loses nothing.
pub proof fn lemma_hex_round_trip(bytes: Seq<u8>)
    ensures
        is_hex_string(hex_string(bytes)),
        hex_bytes(hex_string(bytes)) == Some(bytes),
{
    let text = hex_string(bytes);
    assert forall|i: int| 0 <= i < text.len() implies (#[trigger] hex_value(text[i])) is Some by {
        let b = bytes[i / 2] as int;
        lemma_hex_digit_value(b / 16);
        lemma_hex_digit_value(b % 16);
    }
    assert(is_hex_string(text));
    let back = hex_bytes(text)->0;
    assert forall|k: int| 0 <= k < bytes.len() implies back[k] == bytes[k] by {
        let b = bytes[k] as int;
        lemma_hex_digit_value(b / 16);
        lemma_hex_digit_value(b % 16);
        assert((2 * k) % 2 == 0);
        assert((2 * k + 1) % 2 == 1);
        assert((2 * k) / 2 == k);
        assert((2 * k + 1) / 2 == k);
        assert(text[2 * k] == hex_digit(b / 16));
        assert(text[2 * k + 1] == hex_digit(b % 16));
        assert(16 * (b / 16) + b % 16 == b);
    }
    assert(back =~= bytes);
}

/// Two chunks with the same hexadecimal rendering are the same chunk.
pub proof fn lemma_hex_string_injective(a: Seq<u8>, b: Seq<u8>)
    requires
        hex_string(a) == hex_string(b),
    ensures
        a == b,
{
    lemma_hex_round_trip(a);
    lemma_hex_round_trip(b);
}

/// Calls `hex::encode`, which writes each byte as two characters taken from
/// the table `0123456789abcdef`, the high four bits first, and nothing else.
#[verifier::external_body]
fn hex_encode(bytes: &[u8]) -> (text: String)
    ensures
        text@ == hex_string(bytes@),
{
    hex::encode(bytes)
}

/// The hexadecimal rendering of a received chunk.
pub fn payload_hex(bytes: &[u8]) -> (text: String)
    ensures
        text@ == hex_string(bytes@),
        hex_bytes(text@) == Some(bytes@),
{
    proof {
        lemma_hex_round_trip(bytes@);
    }
    hex_encode(bytes)
}

/// What `String::from_utf8_lossy` makes of `bytes`: the well-formed
/// stretches decoded, each malformed one replaced by U+FFFD.
pub uninterp spec fn lossy_text(bytes: Seq<u8>) -> Seq<char>;

/// The best-effort text of a received chunk: its decoding where the bytes are
/// UTF-8, and the lossy substitute where they are not.
pub open spec fn text_of(bytes: Seq<u8>) -> Seq<char> {
    if valid_utf8(bytes) {
        decode_utf8(bytes)
    } else {
        lossy_text(bytes)
    }
}

/// Calls `String::from_utf8_lossy`, which never fails and returns
/// well-formed UTF-8 as the text it encodes; of other input the contract only
/// gives the result a name.
#[verifier::external_body]
fn utf8_lossy(bytes: &[u8]) -> (text: String)
    ensures
        text@ == lossy_text(bytes@),
        valid_utf8(bytes@) ==> text@ == decode_utf8(bytes@),
{
    String::from_utf8_lossy(bytes).into_owned()
}

/// The best-effort text of a received chunk. It never fails, whatever the
/// bytes are.
pub fn payload_text(bytes: &[u8]) -> (text: String)
    ensures
        text@ == text_of(bytes@),
{
    utf8_lossy(bytes)
}

} // verus!
