//! Byte and text conversions that the message loops need.
use vstd::prelude::*;
use vstd::utf8::*;

verus! {

/// Calls `String::from_utf8`. Its documentation: the bytes become a `String`
/// when they are valid UTF-8, and an error comes back otherwise. Claimed here:
/// `Some` exactly when the bytes are valid UTF-8 in vstd's sense, holding the
/// characters those bytes decode to.
#[verifier::external_body]
pub(crate) fn string_from_utf8(bytes: Vec<u8>) -> (r: Option<String>)
    ensures
        r is Some <==> valid_utf8(bytes@),
        r matches Some(s) ==> s@ == decode_utf8(bytes@),
{
    String::from_utf8(bytes).ok()
}

/// The UTF-8 bytes of a string.
pub fn string_bytes(s: &String) -> (b: Vec<u8>)
    ensures
        b@ == encode_utf8(s@),
{
    s.as_str().as_bytes_vec()
}

} // verus!

verus! {

/// UTF-8 encoding maps concatenation to concatenation.
pub proof fn lemma_encode_utf8_concat(a: Seq<char>, b: Seq<char>)
    ensures
        encode_utf8(a + b) == encode_utf8(a) + encode_utf8(b),
    decreases a.len(),
{
    if a.len() == 0 {
        assert(a + b =~= b);
        assert(encode_utf8(a) + encode_utf8(b) =~= encode_utf8(b));
    } else {
        assert((a + b).drop_first() =~= a.drop_first() + b);
        assert((a + b)[0] == a[0]);
        lemma_encode_utf8_concat(a.drop_first(), b);
        assert(encode_utf8(a + b) =~= encode_utf8(a) + encode_utf8(b));
    }
}

/// Text decoded from UTF-8 bytes encodes back to exactly those bytes.
pub proof fn lemma_text_round_trip(b: Seq<u8>)
    requires
        valid_utf8(b),
    ensures
        encode_utf8(decode_utf8(b)) == b,
{
    decode_utf8_encode_utf8(b);
}

} // verus!
