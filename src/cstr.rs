//! Text crossing the C string boundary, in both directions.
//!
//! Going in, text becomes its UTF-8 bytes followed by one nul byte, which only
//! works when the text holds no nul of its own. Coming out, the bytes before
//! the terminating nul become text only when they are valid UTF-8.
use vstd::prelude::*;
use vstd::string::*;
use vstd::utf8::*;

use crate::error::Error;

verus! {

/// Whether a byte sequence holds a nul byte.
pub open spec fn has_nul(b: Seq<u8>) -> bool {
    exists|i: int| 0 <= i < b.len() && b[i] == 0
}

/// The C string that text becomes: its UTF-8 bytes and a terminating nul.
pub open spec fn c_string_of(s: Seq<char>) -> Seq<u8> {
    encode_utf8(s).push(0)
}

/// Relies on `String::from_utf8`: it succeeds exactly on valid UTF-8, and the
/// string then holds the characters that the bytes encode.
#[verifier::external_body]
fn utf8_string(bytes: Vec<u8>) -> (r: Option<String>)
    ensures
        r is Some <==> valid_utf8(bytes@),
        r matches Some(s) ==> s@ == decode_utf8(bytes@),
{
    String::from_utf8(bytes).ok()
}

/// Copies bytes out of a slice.
fn copy_bytes(b: &[u8]) -> (r: Vec<u8>)
    ensures
        r@ == b@,
{
    let mut out: Vec<u8> = Vec::new();
    let mut i: usize = 0;
    while i < b.len()
        invariant
            0 <= i <= b@.len(),
            out@ == b@.subrange(0, i as int),
        decreases b@.len() - i,
    {
        out.push(b[i]);
        i = i + 1;
        assert(out@ =~= b@.subrange(0, i as int));
    }
    assert(out@ =~= b@);
    out
}

/// The position of the first nul byte, if there is one.
fn find_nul(b: &[u8]) -> (r: Option<usize>)
    ensures
        r is None <==> !has_nul(b@),
        r matches Some(i) ==> i < b@.len() && b@[i as int] == 0 && forall|j: int|
            0 <= j < i ==> b@[j] != 0,
{
    let mut i: usize = 0;
    while i < b.len()
        invariant
            0 <= i <= b@.len(),
            forall|j: int| 0 <= j < i ==> b@[j] != 0,
        decreases b@.len() - i,
    {
        if b[i] == 0 {
            return Some(i);
        }
        i = i + 1;
    }
    None
}

/// Turns text into the bytes of a C string; text with an interior nul byte is
/// refused.
pub fn to_c_str(n: &str) -> (r: Result<Vec<u8>, Error>)
    ensures
        r is Ok <==> !has_nul(encode_utf8(n@)),
        r matches Ok(v) ==> v@ == c_string_of(n@),
        r matches Err(e) ==> e is FfiStringError,
{
    let bytes = n.as_bytes();
    match find_nul(bytes) {
        Some(_) => Err(Error::FfiStringError("nul byte found in text".to_owned())),
        None => {
            let mut out = copy_bytes(bytes);
            out.push(0);
            Ok(out)
        },
    }
}

/// Turns the bytes of a C string, without its terminating nul, into text; an
/// interior nul byte or bytes that are not UTF-8 are refused.
pub fn try_cstr_to_str(p: Vec<u8>) -> (r: Result<String, Error>)
    ensures
        r is Ok <==> !has_nul(p@) && valid_utf8(p@),
        r matches Ok(s) ==> s@ == decode_utf8(p@),
        r matches Err(e) ==> e is FfiStringError,
{
    if find_nul(p.as_slice()).is_some() {
        return Err(Error::FfiStringError("nul byte found in text".to_owned()));
    }
    match utf8_string(p) {
        Some(s) => Ok(s),
        None => Err(Error::FfiStringError("text is not valid UTF-8".to_owned())),
    }
}

/// Reads a C string that may be absent (a null pointer): absent or not UTF-8
/// gives `None`.
pub fn c_str_to_slice(c: Option<Vec<u8>>) -> (r: Option<String>)
    ensures
        r is Some <==> (c matches Some(b) && valid_utf8(b@)),
        r matches Some(s) ==> c matches Some(b) && s@ == decode_utf8(b@),
{
    match c {
        None => None,
        Some(b) => utf8_string(b),
    }
}

/// Takes what a text encoder returned (MF-JSON, hex WKB, text): absent means the
/// encoder failed; present, its bytes up to the nul must be text.
pub fn encoded_text(out: Option<Vec<u8>>) -> (r: Result<String, Error>)
    ensures
        out is None ==> r == Err::<String, Error>(Error::EncodingError),
        out matches Some(b) ==> (r is Ok <==> !has_nul(b@) && valid_utf8(b@)),
        out matches Some(b) ==> (r matches Ok(s) ==> s@ == decode_utf8(b@)),
        out matches Some(b) ==> (r matches Err(e) ==> e is FfiStringError),
{
    match out {
        None => Err(Error::EncodingError),
        Some(b) => try_cstr_to_str(b),
    }
}

/// Takes what a binary encoder returned (WKB): absent means the encoder
/// failed.
pub fn encoded_bytes(out: Option<Vec<u8>>) -> (r: Result<Vec<u8>, Error>)
    ensures
        out is None ==> r == Err::<Vec<u8>, Error>(Error::EncodingError),
        out matches Some(b) ==> (r matches Ok(v) && v@ == b@),
{
    match out {
        None => Err(Error::EncodingError),
        Some(b) => Ok(b),
    }
}

/// Text without a nul byte that crosses into C and back is unchanged: the
/// bytes before the terminating nul are valid UTF-8 and decode to the same
/// characters.
pub proof fn lemma_c_string_round_trip(s: Seq<char>)
    requires
        !has_nul(encode_utf8(s)),
    ensures
        c_string_of(s).drop_last() == encode_utf8(s),
        !has_nul(c_string_of(s).drop_last()),
        valid_utf8(c_string_of(s).drop_last()),
        decode_utf8(c_string_of(s).drop_last()) == s,
{
    assert(c_string_of(s).drop_last() =~= encode_utf8(s));
    encode_utf8_valid_utf8(s);
    encode_utf8_decode_utf8(s);
}

} // verus!
