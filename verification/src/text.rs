//! Bytes as text.

use vstd::prelude::*;
use vstd::string::StringSliceAdditionalSpecFns;
use vstd::utf8::*;

verus! {

/// The characters that ASCII `bytes` stand for.
pub open spec fn ascii_chars(bytes: Seq<u8>) -> Seq<char> {
    Seq::new(bytes.len(), |i: int| bytes[i] as char)
}

/// Whether every byte of `bytes` is ASCII.
pub open spec fn is_ascii_bytes(bytes: Seq<u8>) -> bool {
    forall|i: int| 0 <= i < bytes.len() ==> #[trigger] bytes[i] < 128
}

/// ASCII bytes are valid UTF-8 and decode to themselves.
pub proof fn lemma_ascii_is_utf8(bytes: Seq<u8>)
    requires
        is_ascii_bytes(bytes),
    ensures
        valid_utf8(bytes),
        decode_utf8(bytes) == ascii_chars(bytes),
        encode_utf8(ascii_chars(bytes)) == bytes,
{
    let chars = ascii_chars(bytes);
    assert(is_ascii_chars(chars)) by {
        assert forall|i: int| 0 <= i < chars.len() implies '\0' <= #[trigger] chars[i] <= '\u{7f}' by {
            assert(bytes[i] < 128);
        }
    }
    is_ascii_chars_encode_utf8(chars);
    assert(encode_utf8(chars) =~= bytes) by {
        assert forall|i: int| 0 <= i < bytes.len() implies encode_utf8(chars)[i] == bytes[i] by {
            assert(bytes[i] < 128);
            assert(chars[i] as u8 == bytes[i]);
        }
    }
    encode_utf8_valid_utf8(chars);
    encode_utf8_decode_utf8(chars);
}

/// Whether `text` is the ASCII text `ascii`.
pub(crate) fn str_is(text: &str, ascii: &[u8]) -> (same: bool)
    requires
        is_ascii_bytes(ascii@),
    ensures
        same == (text@ == ascii_chars(ascii@)),
{
    let bytes = text.as_bytes();
    proof {
        lemma_ascii_is_utf8(ascii@);
        encode_utf8_decode_utf8(text@);
    }
    if bytes.len() != ascii.len() {
        return false;
    }
    let mut i: usize = 0;
    while i < bytes.len()
        invariant
            i <= bytes.len(),
            bytes.len() == ascii.len(),
            bytes@.take(i as int) == ascii@.take(i as int),
            bytes@ == encode_utf8(text@),
            decode_utf8(encode_utf8(text@)) == text@,
            encode_utf8(ascii_chars(ascii@)) == ascii@,
            decode_utf8(ascii@) == ascii_chars(ascii@),
        decreases bytes.len() - i,
    {
        if bytes[i] != ascii[i] {
            return false;
        }
        i = i + 1;
        assert(bytes@.take(i as int) =~= bytes@.take(i - 1).push(bytes@[i - 1]));
        assert(ascii@.take(i as int) =~= ascii@.take(i - 1).push(ascii@[i - 1]));
    }
    assert(bytes@.take(i as int) =~= bytes@);
    assert(ascii@.take(i as int) =~= ascii@);
    true
}

/// `String::from_utf8_lossy` of std, made an owned `String`: bytes that are
/// valid UTF-8 come back as the text they encode. (Of other bytes nothing is
/// claimed.)
#[verifier::external_body]
pub(crate) fn string_from_utf8_lossy(bytes: &[u8]) -> (text: String)
    ensures
        valid_utf8(bytes@) ==> text@ == decode_utf8(bytes@),
{
    String::from_utf8_lossy(bytes).into_owned()
}

/// `String::from_utf8` of std: `Some` exactly for valid UTF-8, and then the
/// text that the bytes encode.
#[verifier::external_body]
pub(crate) fn string_from_utf8(bytes: &[u8]) -> (text: Option<String>)
    ensures
        text is Some <==> valid_utf8(bytes@),
        text matches Some(s) ==> s@ == decode_utf8(bytes@),
{
    String::from_utf8(bytes.to_vec()).ok()
}

} // verus!
