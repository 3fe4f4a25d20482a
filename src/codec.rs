//! The exchange-string codec: `'0'` followed by the padded standard base64 of a
//! zlib stream whose inflated bytes are UTF-8 JSON text.
use base64::Engine;
use std::io::{Read, Write};

use vstd::prelude::*;
use vstd::utf8::{decode_utf8, encode_utf8, valid_utf8};

verus! {

/// The stage of the exchange pipeline that rejected an input.
#[derive(Debug, Clone, Copy, PartialEq, Eq, Structural)]
pub enum CodecError {
    /// The string is empty or does not start with the version digit `'0'`.
    Format,
    /// The text after the version digit is not canonical padded standard base64.
    Base64,
    /// The base64 payload is not a zlib stream, or compressing failed.
    Compression,
    /// The inflated bytes are not UTF-8.
    Encoding,
}

/// The ASCII code of the only supported format version, `'0'`.
pub const VERSION_BYTE: u8 = 48;

#[verifier::external_type_specification]
#[verifier::external_body]
pub struct ExDecodeError(base64::DecodeError);

#[verifier::external_type_specification]
#[verifier::external_body]
pub struct ExIoError(std::io::Error);

#[verifier::external_type_specification]
#[verifier::external_body]
pub struct ExFromUtf8Error(std::string::FromUtf8Error);

/// The text that base64's standard padded engine produces for `b`.
pub uninterp spec fn base64_text(b: Seq<u8>) -> Seq<char>;

/// What base64's standard padded engine decodes the ASCII text `t` to, if it accepts it.
pub uninterp spec fn base64_bytes(t: Seq<u8>) -> Option<Seq<u8>>;

/// The zlib stream that flate2 writes for `b` at the default compression level.
pub uninterp spec fn zlib_deflated(b: Seq<u8>) -> Seq<u8>;

/// What flate2's zlib decoder reads out of `z`, if it accepts it.
pub uninterp spec fn zlib_inflated(z: Seq<u8>) -> Option<Seq<u8>>;

/// A character of the standard base64 alphabet, or the padding character `=`.
pub open spec fn is_base64_char(c: char) -> bool {
    ('A' <= c <= 'Z') || ('a' <= c <= 'z') || ('0' <= c <= '9') || c == '+' || c == '/' || c
        == '='
}

/// Relies on `base64::engine::general_purpose::STANDARD.encode_string`: it appends the
/// padded standard encoding of `b` to `out` (four characters for each started group of
/// three bytes, all from the standard alphabet or `=`), and the same engine's `decode`
/// (canonical padding, no trailing bits) gives `b` back for that text.
#[verifier::external_body]
fn append_base64(b: &[u8], out: &mut String)
    ensures
        final(out)@ == old(out)@ + base64_text(b@),
        final(out)@.len() == old(out)@.len() + 4 * ((b@.len() + 2) / 3),
        forall|i: int|
            old(out)@.len() <= i < final(out)@.len() ==> is_base64_char(#[trigger] final(out)@[i]),
        base64_bytes(encode_utf8(final(out)@.skip(old(out)@.len() as int))) == Some(b@),
{
    base64::engine::general_purpose::STANDARD.encode_string(b, out)
}

/// Relies on `base64::engine::general_purpose::STANDARD.decode`.
#[verifier::external_body]
fn base64_decode(t: &[u8]) -> (r: Result<Vec<u8>, base64::DecodeError>)
    ensures
        match r {
            Ok(v) => base64_bytes(t@) == Some(v@),
            Err(_) => base64_bytes(t@) is None,
        },
{
    base64::engine::general_purpose::STANDARD.decode(t)
}

/// Relies on `flate2::write::ZlibEncoder` at `Compression::default()` writing into a
/// `Vec<u8>`: writing to a vector never fails and a fresh encoder meets none of the
/// compressor's error states, so it succeeds; the stream it finishes with inflates back to `b`.
#[verifier::external_body]
fn zlib_compress(b: &[u8]) -> (r: Result<Vec<u8>, std::io::Error>)
    ensures
        r is Ok,
        r matches Ok(z) ==> z@ == zlib_deflated(b@) && zlib_inflated(z@) == Some(b@),
{
    let mut encoder = flate2::write::ZlibEncoder::new(Vec::new(), flate2::Compression::default());
    encoder.write_all(b)?;
    encoder.finish()
}

/// Relies on `flate2::read::ZlibDecoder` read to its end.
#[verifier::external_body]
fn zlib_decompress(z: &[u8]) -> (r: Result<Vec<u8>, std::io::Error>)
    ensures
        match r {
            Ok(v) => zlib_inflated(z@) == Some(v@),
            Err(_) => zlib_inflated(z@) is None,
        },
{
    let mut out = Vec::new();
    flate2::read::ZlibDecoder::new(z).read_to_end(&mut out)?;
    Ok(out)
}

/// Relies on `String::from_utf8`: it accepts exactly the valid UTF-8 byte strings.
#[verifier::external_body]
fn utf8_string(b: Vec<u8>) -> (r: Result<String, std::string::FromUtf8Error>)
    ensures
        match r {
            Ok(s) => valid_utf8(b@) && s@ == decode_utf8(b@),
            Err(_) => !valid_utf8(b@),
        },
{
    String::from_utf8(b)
}

/// The UTF-8 bytes of JSON text carried by an exchange string given as its bytes `b`,
/// or the first stage that rejects it.
pub open spec fn exchange_payload(b: Seq<u8>) -> Result<Seq<u8>, CodecError> {
    if b.len() == 0 || b[0] != VERSION_BYTE {
        Err(CodecError::Format)
    } else {
        match base64_bytes(b.drop_first()) {
            None => Err(CodecError::Base64),
            Some(z) => match zlib_inflated(z) {
                None => Err(CodecError::Compression),
                Some(j) => if valid_utf8(j) {
                    Ok(j)
                } else {
                    Err(CodecError::Encoding)
                },
            },
        }
    }
}

/// The JSON text carried by the exchange string `s`, or the stage that rejects it.
pub open spec fn exchange_json(s: Seq<char>) -> Result<Seq<char>, CodecError> {
    match exchange_payload(encode_utf8(s)) {
        Ok(j) => Ok(decode_utf8(j)),
        Err(e) => Err(e),
    }
}

/// The exchange string written for the JSON text `t`.
pub open spec fn exchange_string(t: Seq<char>) -> Seq<char> {
    seq!['0'] + base64_text(zlib_deflated(encode_utf8(t)))
}

/// Turns an exchange string into the JSON text it carries.
pub fn decode(s: &str) -> (r: Result<String, CodecError>)
    ensures
        match r {
            Ok(t) => exchange_json(s@) == Ok::<Seq<char>, CodecError>(t@),
            Err(e) => exchange_json(s@) == Err::<Seq<char>, CodecError>(e),
        },
{
    let b = s.as_bytes();
    if b.len() == 0 || b[0] != VERSION_BYTE {
        return Err(CodecError::Format);
    }
    let (_, rest) = b.split_at(1);
    assert(rest@ == b@.drop_first());
    let z = match base64_decode(rest) {
        Ok(z) => z,
        Err(_) => return Err(CodecError::Base64),
    };
    let j = match zlib_decompress(z.as_slice()) {
        Ok(j) => j,
        Err(_) => return Err(CodecError::Compression),
    };
    match utf8_string(j) {
        Ok(t) => Ok(t),
        Err(_) => Err(CodecError::Encoding),
    }
}

proof fn lemma_utf8_of_version_prefix(t: Seq<char>)
    ensures
        encode_utf8(seq!['0'] + t) == seq![VERSION_BYTE] + encode_utf8(t),
{
    let s = seq!['0'] + t;
    assert(s[0] == '0');
    assert(s.drop_first() =~= t);
    let c: u32 = 48;
    assert('0' as u32 == c);
    assert((c & 0x7F) as u8 == 48u8) by (bit_vector)
        requires
            c == 48,
    ;
}

/// Turns JSON text into an exchange string: `'0'` followed by the padded standard
/// base64 of the text's zlib stream at the default level. It always succeeds, gives the
/// same string for the same text, and decoding the result gives back exactly `t`.
pub fn encode(t: &str) -> (r: String)
    ensures
        r@ == exchange_string(t@),
        exchange_json(r@) == Ok::<Seq<char>, CodecError>(t@),
        r@.len() == 1 + 4 * ((zlib_deflated(encode_utf8(t@)).len() + 2) / 3),
        r@[0] == '0',
        forall|i: int| 1 <= i < r@.len() ==> is_base64_char(#[trigger] r@[i]),
{
    let z = zlib_compress(t.as_bytes()).unwrap();
    let mut s = "0".to_owned();
    proof {
        reveal_strlit("0");
    }
    append_base64(z.as_slice(), &mut s);
    proof {
        let body = base64_text(zlib_deflated(encode_utf8(t@)));
        assert(s@ =~= seq!['0'] + body);
        lemma_utf8_of_version_prefix(body);
        let b = encode_utf8(s@);
        assert(b.drop_first() =~= encode_utf8(body));
        assert(s@.skip(1) =~= body);
        vstd::utf8::encode_utf8_valid_utf8(t@);
        vstd::utf8::encode_utf8_decode_utf8(t@);
    }
    s
}

} // verus!
