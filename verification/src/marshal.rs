//! Strings across the foreign boundary: host text to a null-terminated buffer
//! on the way in, returned bytes to host text on the way out.

use crate::error::{BridgeError, BridgeErrorView};
use vstd::prelude::*;
use vstd::string::StringSliceAdditionalSpecFns;
use vstd::utf8::{decode_utf8, encode_utf8, valid_utf8};

verus! {

/// A byte sequence is null-terminated when its last byte is zero and no
/// earlier byte is.
pub open spec fn is_null_terminated(buffer: Seq<u8>) -> bool {
    &&& buffer.len() > 0
    &&& buffer.last() == 0
    &&& !buffer.drop_last().contains(0u8)
}

/// Host text in the form the foreign side reads: its UTF-8 bytes, then one
/// zero byte.
#[derive(Debug, PartialEq, Eq)]
pub struct ForeignString {
    buffer: Vec<u8>,
}

impl View for ForeignString {
    type V = Seq<u8>;

    /// The whole buffer, terminator included.
    closed spec fn view(&self) -> Seq<u8> {
        self.buffer@
    }
}

impl ForeignString {
    #[verifier::type_invariant]
    spec fn well_formed(&self) -> bool {
        is_null_terminated(self.buffer@)
    }

    /// Encodes `text` for the foreign side. Text that holds a zero byte has no
    /// null-terminated form and is rejected.
    pub fn encode(text: &str) -> (res: Result<ForeignString, BridgeError>)
        ensures
            res is Ok <==> !encode_utf8(text@).contains(0u8),
            res matches Ok(encoded) ==> encoded@ == encode_utf8(text@).push(0u8),
            res matches Err(e) ==> e@ == BridgeErrorView::Encoding,
    {
        let bytes = text.as_bytes();
        let mut buffer: Vec<u8> = Vec::new();
        let mut i: usize = 0;
        while i < bytes.len()
            invariant
                i <= bytes.len(),
                bytes@ == encode_utf8(text@),
                buffer@ == bytes@.subrange(0, i as int),
                !buffer@.contains(0u8),
            decreases bytes.len() - i,
        {
            let byte = bytes[i];
            if byte == 0 {
                assert(bytes@.contains(0u8));
                return Err(BridgeError::Encoding);
            }
            buffer.push(byte);
            assert(buffer@ == bytes@.subrange(0, i + 1));
            i += 1;
        }
        assert(buffer@ == bytes@);
        buffer.push(0);
        assert(buffer@.drop_last() == bytes@);
        Ok(ForeignString { buffer })
    }

    /// The buffer to hand to the foreign function, terminator included.
    pub fn as_bytes_with_nul(&self) -> (bytes: &[u8])
        ensures
            bytes@ == self@,
            is_null_terminated(bytes@),
    {
        proof {
            use_type_invariant(self);
        }
        self.buffer.as_slice()
    }
}

/// What `String::from_utf8_lossy` makes of a byte sequence: its text, with
/// U+FFFD in place of each part that is not valid UTF-8.
pub uninterp spec fn lossy_text(bytes: Seq<u8>) -> Seq<char>;

/// Calls `String::from_utf8_lossy` and owns the result. Not proved: that the
/// result depends on the bytes alone, and that valid UTF-8 comes back as the
/// text it encodes, as the standard library documents. The form with
/// replacements stays unstated.
#[verifier::external_body]
fn utf8_lossy(bytes: &[u8]) -> (text: String)
    ensures
        text@ == lossy_text(bytes@),
        valid_utf8(bytes@) ==> text@ == decode_utf8(bytes@),
{
    String::from_utf8_lossy(bytes).into_owned()
}

/// The host text for returned bytes: the text they encode where they are
/// valid UTF-8, the replaced form otherwise.
pub open spec fn decoded_text(bytes: Seq<u8>) -> Seq<char> {
    if valid_utf8(bytes) {
        decode_utf8(bytes)
    } else {
        lossy_text(bytes)
    }
}

/// Decodes what the foreign function returned: `None` stands for a null
/// pointer, `Some` holds the bytes before the terminator. A null pointer is a
/// failure; any bytes decode, invalid sequences being replaced.
pub fn decode_result(returned: &Option<Vec<u8>>) -> (res: Result<String, BridgeError>)
    ensures
        match returned {
            None => res matches Err(e) && e@ == BridgeErrorView::NullResult,
            Some(bytes) => res matches Ok(text) && text@ == decoded_text(bytes@),
        },
{
    match returned {
        None => Err(BridgeError::NullResult),
        Some(bytes) => Ok(utf8_lossy(bytes.as_slice())),
    }
}

/// Text that was encoded for the foreign side decodes to itself: the bytes
/// before the terminator are valid UTF-8 for exactly that text.
pub proof fn lemma_encode_then_decode(text: Seq<char>)
    ensures
        decoded_text(encode_utf8(text).push(0u8).drop_last()) == text,
{
    broadcast use vstd::utf8::encode_utf8_valid_utf8, vstd::utf8::encode_utf8_decode_utf8;

    assert(encode_utf8(text).push(0u8).drop_last() == encode_utf8(text));
}

} // verus!
