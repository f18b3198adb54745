//! Signatures for requests to the payment provider.

use vstd::prelude::*;
use hmac::Mac;

verus! {

/// The HMAC-SHA256 code that the crates `hmac` and `sha2` compute for a key
/// and a message.
pub uninterp spec fn hmac_sha256_code(key: Seq<u8>, message: Seq<u8>) -> Seq<u8>;

/// The text of one hexadecimal digit, in lower case.
pub open spec fn hex_digit(value: int) -> Seq<char> {
    if value == 0 {
        "0"@
    } else if value == 1 {
        "1"@
    } else if value == 2 {
        "2"@
    } else if value == 3 {
        "3"@
    } else if value == 4 {
        "4"@
    } else if value == 5 {
        "5"@
    } else if value == 6 {
        "6"@
    } else if value == 7 {
        "7"@
    } else if value == 8 {
        "8"@
    } else if value == 9 {
        "9"@
    } else if value == 10 {
        "a"@
    } else if value == 11 {
        "b"@
    } else if value == 12 {
        "c"@
    } else if value == 13 {
        "d"@
    } else if value == 14 {
        "e"@
    } else {
        "f"@
    }
}

/// Bytes in hexadecimal: two digits in lower case for each byte, the high
/// half first.
pub open spec fn hex_lower(bytes: Seq<u8>) -> Seq<char>
    decreases bytes.len(),
{
    if bytes.len() == 0 {
        Seq::empty()
    } else {
        hex_lower(bytes.drop_last()) + hex_digit(bytes.last() as int / 16) + hex_digit(
            bytes.last() as int % 16,
        )
    }
}

/// Computes the HMAC-SHA256 code with `Hmac::<Sha256>` of the crate `hmac`:
/// `new_from_slice`, `update`, `finalize`. The code depends on the key and
/// the message alone; it is named, not described.
#[verifier::external_body]
fn hmac_sha256(key: &[u8], message: &[u8]) -> (code: Vec<u8>)
    ensures
        code@ == hmac_sha256_code(key@, message@),
{
    let mut mac = hmac::Hmac::<sha2::Sha256>::new_from_slice(key).expect(
        "HMAC can take key of any size",
    );
    mac.update(message);
    mac.finalize().into_bytes().to_vec()
}

/// Calls `hex::encode`, which writes each byte as two hexadecimal digits in
/// lower case.
#[verifier::external_body]
fn hex_encode(bytes: &Vec<u8>) -> (text: String)
    ensures
        text@ == hex_lower(bytes@),
{
    hex::encode(bytes)
}

/// The HMAC-SHA256 code of `data` under the key `secret`, in hexadecimal.
pub fn sign_hmac_sha256_hex(secret: &str, data: &str) -> (signature: String)
    ensures
        signature@ == hex_lower(
            hmac_sha256_code(vstd::utf8::encode_utf8(secret@), vstd::utf8::encode_utf8(data@)),
        ),
{
    let code = hmac_sha256(secret.as_bytes(), data.as_bytes());
    hex_encode(&code)
}

} // verus!
