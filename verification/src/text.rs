use vstd::prelude::*;
use vstd::string::*;
use vstd::utf8::*;
use crate::error::SbioError;

verus! {

/// The bytes that stand for `text` on the way to the transport: its UTF-8
/// encoding.
pub open spec fn wire_text(text: Seq<char>) -> Seq<u8> {
    encode_utf8(text)
}

/// No byte of `bytes` is zero.
pub open spec fn holds_no_nul(bytes: Seq<u8>) -> bool {
    forall|i: int| 0 <= i < bytes.len() ==> bytes[i] != 0
}

/// `text` can be handed to the transport as a NUL-terminated string: its
/// encoding holds no zero byte.
pub open spec fn is_c_text(text: Seq<char>) -> bool {
    holds_no_nul(wire_text(text))
}

/// `bytes` can be read back as text.
pub open spec fn is_text(bytes: Seq<u8>) -> bool {
    valid_utf8(bytes)
}

/// The text that `bytes` stand for, where `is_text(bytes)`.
pub open spec fn read_back(bytes: Seq<u8>) -> Seq<char> {
    decode_utf8(bytes)
}

/// Tells whether `s` can be handed to the transport as a NUL-terminated
/// string.
pub fn is_c_string(s: &str) -> (ok: bool)
    ensures
        ok == is_c_text(s@),
{
    let bytes = s.as_bytes();
    let mut i: usize = 0;
    while i < bytes.len()
        invariant
            i <= bytes.len(),
            bytes@ == wire_text(s@),
            forall|j: int| 0 <= j < i ==> bytes@[j] != 0,
        decreases bytes.len() - i,
    {
        if bytes[i] == 0 {
            return false;
        }
        i += 1;
    }
    true
}

/// Tells whether two strings hold the same text.
pub fn same_text(a: &str, b: &str) -> (same: bool)
    ensures
        same == (a@ == b@),
{
    let x = a.as_bytes();
    let y = b.as_bytes();
    proof {
        encode_utf8_decode_utf8(a@);
        encode_utf8_decode_utf8(b@);
    }
    if x.len() != y.len() {
        return false;
    }
    let mut i: usize = 0;
    while i < x.len()
        invariant
            i <= x.len(),
            x.len() == y.len(),
            x@ == wire_text(a@),
            y@ == wire_text(b@),
            forall|j: int| 0 <= j < i ==> x@[j] == y@[j],
        decreases x.len() - i,
    {
        if x[i] != y[i] {
            return false;
        }
        i += 1;
    }
    assert(x@ =~= y@);
    true
}

/// `core::str::from_utf8`: the bytes as a string slice when they are valid
/// UTF-8, and nothing when they are not. The slice, where there is one,
/// encodes to exactly these bytes.
#[verifier::external_body]
fn str_from_utf8(bytes: &[u8]) -> (decoded: Option<&str>)
    ensures
        decoded is Some <==> valid_utf8(bytes@),
        decoded matches Some(s) ==> encode_utf8(s@) == bytes@,
{
    core::str::from_utf8(bytes).ok()
}

/// Reads `bytes`, as the transport handed them over, as text. Bytes that are
/// no valid UTF-8 are a serialization error.
pub fn read_text(bytes: &[u8]) -> (text: Result<&str, SbioError>)
    ensures
        text is Ok <==> is_text(bytes@),
        text matches Ok(s) ==> s@ == read_back(bytes@),
        text matches Err(e) ==> e == SbioError::Serialization,
{
    match str_from_utf8(bytes) {
        Some(s) => {
            proof {
                encode_utf8_decode_utf8(s@);
            }
            Ok(s)
        },
        None => Err(SbioError::Serialization),
    }
}

/// Text survives the way to the transport and back: what is written for a
/// text can always be read, and reads as that text.
pub proof fn lemma_text_round_trip(text: Seq<char>)
    ensures
        is_text(wire_text(text)),
        read_back(wire_text(text)) == text,
{
    encode_utf8_valid_utf8(text);
    encode_utf8_decode_utf8(text);
}

} // verus!
