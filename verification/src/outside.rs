//! Declarations of the outside types that values of this library carry,
//! the library's model of the hex crate's error, and the trusted wrappers
//! around the outside functions that the library calls.

use vstd::prelude::*;
use vstd::utf8::encode_utf8;
use crate::text::decimal_digits;

verus! {

/// A JSON value of `serde_json`; this library carries it through unread.
#[verifier::external_type_specification]
#[verifier::external_body]
pub struct ExJsonValue(serde_json::Value);

/// The error that `serde_json` reports when JSON cannot be read or written.
#[verifier::external_type_specification]
#[verifier::external_body]
pub struct ExJsonError(serde_json::Error);

/// An I/O error of the standard library, reported by the transport.
#[verifier::external_type_specification]
#[verifier::external_body]
pub struct ExIoError(std::io::Error);

/// The signature error type that `ed25519_dalek` reports.
#[verifier::external_type_specification]
#[verifier::external_body]
pub struct ExSignatureError(ed25519_dalek::SignatureError);

/// Why a text is not hex, as the hex crate reports it.
#[derive(Debug, Clone, Copy, PartialEq, Eq, Structural)]
pub enum HexError {
    /// The byte at `index` (shown as the char `c`) is not a hex digit.
    InvalidHexCharacter { c: char, index: usize },
    /// The text has an odd number of bytes.
    OddLength,
    /// The text does not fit a container of fixed size.
    InvalidStringLength,
}

/// The value of an ASCII hex digit of either case.
pub open spec fn hex_digit_value(b: u8) -> Option<u8> {
    if 0x30 <= b <= 0x39 {
        Some((b - 0x30) as u8)
    } else if 0x61 <= b <= 0x66 {
        Some((b - 0x61 + 10) as u8)
    } else if 0x41 <= b <= 0x46 {
        Some((b - 0x41 + 10) as u8)
    } else {
        None
    }
}

/// The index of the first byte of `s`, at `i` or later, that is not a hex
/// digit; `s.len()` when there is none.
pub open spec fn first_non_hex_digit(s: Seq<u8>, i: nat) -> nat
    decreases s.len() - i,
{
    if i >= s.len() {
        s.len()
    } else if hex_digit_value(s[i as int]) is None {
        i
    } else {
        first_non_hex_digit(s, i + 1)
    }
}

/// The bytes that the hex text `s` spells, two digits to a byte, the high
/// nibble first.
pub open spec fn hex_bytes(s: Seq<u8>) -> Seq<u8> {
    Seq::new(
        s.len() / 2,
        |k: int|
            (hex_digit_value(s[2 * k])->0 * 16 + hex_digit_value(s[2 * k + 1])->0) as u8,
    )
}

/// What decoding the hex text `s` gives: an odd length fails first, then
/// the first byte that is not a hex digit, else the bytes it spells.
pub open spec fn hex_decode_spec(s: Seq<u8>) -> Result<Seq<u8>, HexError> {
    if s.len() % 2 != 0 {
        Err(HexError::OddLength)
    } else if first_non_hex_digit(s, 0) < s.len() {
        let i = first_non_hex_digit(s, 0);
        Err(HexError::InvalidHexCharacter { c: (s[i as int] as u32) as char, index: i as usize })
    } else {
        Ok(hex_bytes(s))
    }
}

/// The lower-case hex digit for a nibble.
pub open spec fn hex_nibble_char(n: nat) -> char {
    if n < 10 {
        ((n + 48) as u32) as char
    } else {
        ((n + 87) as u32) as char
    }
}

/// The lower-case hex text of `b`: two digits per byte, high nibble first.
pub open spec fn hex_lower(b: Seq<u8>) -> Seq<char> {
    Seq::new(
        2 * b.len(),
        |i: int|
            hex_nibble_char(
                if i % 2 == 0 {
                    (b[i / 2] / 16) as nat
                } else {
                    (b[i / 2] % 16) as nat
                },
            ),
    )
}

/// Every byte of `s` from `i` on is a hex digit, so the first that is not
/// lies at the end.
pub proof fn lemma_no_non_hex_digit(s: Seq<u8>, i: nat)
    requires
        i <= s.len(),
        forall|j: int| i <= j < s.len() ==> hex_digit_value(#[trigger] s[j]) is Some,
    ensures
        first_non_hex_digit(s, i) == s.len(),
    decreases s.len() - i,
{
    if i < s.len() {
        lemma_no_non_hex_digit(s, i + 1);
    }
}

/// The text that `hex_encode` writes decodes, as hex, to the bytes it was
/// written from.
pub proof fn lemma_hex_lower_decodes(b: Seq<u8>)
    ensures
        hex_decode_spec(encode_utf8(hex_lower(b))) == Ok::<Seq<u8>, HexError>(b),
{
    let t = hex_lower(b);
    assert forall|i: int| 0 <= i < t.len() implies '\0' <= #[trigger] t[i] <= '\u{7f}' by {
        let n: nat = if i % 2 == 0 { (b[i / 2] / 16) as nat } else { (b[i / 2] % 16) as nat };
        assert(n < 16);
    }
    vstd::utf8::is_ascii_chars_encode_utf8(t);
    let s = encode_utf8(t);
    assert forall|j: int| 0 <= j < s.len() implies hex_digit_value(#[trigger] s[j])
        == Some(
        (if j % 2 == 0 {
            b[j / 2] / 16
        } else {
            b[j / 2] % 16
        }) as u8,
    ) by {
        assert(t[j] as u8 == s[j]);
    }
    lemma_no_non_hex_digit(s, 0);
    assert(s.len() % 2 == 0);
    let d = hex_bytes(s);
    assert forall|k: int| 0 <= k < b.len() implies d[k] == b[k] by {
        assert(hex_digit_value(s[2 * k]) == Some((b[k] / 16) as u8));
        assert(hex_digit_value(s[2 * k + 1]) == Some((b[k] % 16) as u8));
    }
    assert(d =~= b);
}

/// The text with which `{:?}` shows a char: the char in single quotes,
/// escaped as `char::escape_debug` does.
pub uninterp spec fn char_debug_text(c: char) -> Seq<char>;

/// The text with which the hex crate displays a decoding error.
pub open spec fn hex_error_message(e: HexError) -> Seq<char> {
    match e {
        HexError::InvalidHexCharacter { c, index } => "Invalid character "@ + char_debug_text(c)
            + " at position "@ + decimal_digits(index as nat),
        HexError::OddLength => "Odd number of digits"@,
        HexError::InvalidStringLength => "Invalid string length"@,
    }
}

/// The Ed25519 signature (RFC 8032, deterministic) that the 32-byte secret
/// key `secret_key` makes over `message`.
pub uninterp spec fn ed25519_signature(secret_key: Seq<u8>, message: Seq<u8>) -> Seq<u8>;

/// Calls `hex::decode`. Its source checks the length is even, then reads the
/// text two bytes at a time, high nibble first, accepting digits of either
/// case and stopping at the first byte that is not one; the contract states
/// exactly that.
#[verifier::external_body]
pub(crate) fn hex_decode(data: &[u8]) -> (decoded: Result<Vec<u8>, HexError>)
    ensures
        match decoded {
            Ok(v) => hex_decode_spec(data@) == Ok::<Seq<u8>, HexError>(v@),
            Err(e) => hex_decode_spec(data@) == Err::<Seq<u8>, HexError>(e),
        },
{
    match hex::decode(data) {
        Ok(v) => Ok(v),
        Err(hex::FromHexError::InvalidHexCharacter { c, index }) => Err(
            HexError::InvalidHexCharacter { c, index },
        ),
        Err(hex::FromHexError::OddLength) => Err(HexError::OddLength),
        Err(hex::FromHexError::InvalidStringLength) => Err(HexError::InvalidStringLength),
    }
}

/// Calls `hex::encode`, which writes each byte as two lower-case hex
/// digits, high nibble first.
#[verifier::external_body]
pub(crate) fn hex_encode(data: &[u8]) -> (text: String)
    ensures
        text@ == hex_lower(data@),
{
    hex::encode(data)
}

/// Displays a hex decoding error with the hex crate's `Display`
/// (`FromHexError::to_string`), whose source writes
/// "Invalid character {c:?} at position {index}", "Odd number of digits" or
/// "Invalid string length". The `{:?}` rendering of the char is named
/// (`char_debug_text`) rather than restated; the rest is stated.
#[verifier::external_body]
pub(crate) fn hex_error_text(e: &HexError) -> (text: String)
    ensures
        match *e {
            HexError::InvalidHexCharacter { c, index } => text@ == "Invalid character "@
                + char_debug_text(c) + " at position "@ + decimal_digits(index as nat),
            HexError::OddLength => text@ == "Odd number of digits"@,
            HexError::InvalidStringLength => text@ == "Invalid string length"@,
        },
{
    let outside = match *e {
        HexError::InvalidHexCharacter { c, index } => hex::FromHexError::InvalidHexCharacter {
            c,
            index,
        },
        HexError::OddLength => hex::FromHexError::OddLength,
        HexError::InvalidStringLength => hex::FromHexError::InvalidStringLength,
    };
    outside.to_string()
}

/// Signs `message` with `ed25519_dalek::SigningKey::from_bytes(secret_key)`
/// through `Signer::sign`. Ed25519 signing is deterministic and, for this
/// key type, cannot fail (`try_sign` always returns `Ok`), so the result
/// is the named signature of the key and message.
#[verifier::external_body]
pub(crate) fn ed25519_sign(secret_key: &[u8; 32], message: &[u8]) -> (signature: [u8; 64])
    ensures
        signature@ == ed25519_signature(secret_key@, message@),
{
    let key = ed25519_dalek::SigningKey::from_bytes(secret_key);
    ed25519_dalek::Signer::sign(&key, message).to_bytes()
}

} // verus!
