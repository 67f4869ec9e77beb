use vstd::prelude::*;
use vstd::string::StringSliceAdditionalSpecFns;

verus! {

/// The lower-case hex digits, by value.
pub open spec fn hex_digits() -> Seq<char> {
    seq!['0', '1', '2', '3', '4', '5', '6', '7', '8', '9', 'a', 'b', 'c', 'd', 'e', 'f']
}

/// Each byte as two lower-case hex digits, high half first.
pub open spec fn hex_lower(b: Seq<u8>) -> Seq<char> {
    Seq::new(
        2 * b.len(),
        |i: int|
            if i % 2 == 0 {
                hex_digits()[b[i / 2] as int / 16]
            } else {
                hex_digits()[b[i / 2] as int % 16]
            },
    )
}

/// `0`-`9`, `a`-`f` or `A`-`F`, as a byte.
pub open spec fn is_hex_digit(c: u8) -> bool {
    (48 <= c <= 57) || (65 <= c <= 70) || (97 <= c <= 102)
}

/// The value of a hex digit.
pub open spec fn hex_value(c: u8) -> int {
    if 48 <= c <= 57 {
        c - 48
    } else if 65 <= c <= 70 {
        c - 55
    } else {
        c - 87
    }
}

/// An even number of hex digits, of either case.
pub open spec fn is_hex_text(s: Seq<u8>) -> bool {
    s.len() % 2 == 0 && forall|i: int| 0 <= i < s.len() ==> is_hex_digit(#[trigger] s[i])
}

/// The bytes that a text of hex digits spells, two digits a byte, high half first.
pub open spec fn hex_decoded(s: Seq<u8>) -> Seq<u8> {
    Seq::new(s.len() / 2, |i: int| (hex_value(s[2 * i]) * 16 + hex_value(s[2 * i + 1])) as u8)
}

/// The text without a leading `0x` or `0X`, where it has one.
pub open spec fn without_hex_prefix(s: Seq<u8>) -> Seq<u8> {
    if s.len() >= 2 && s[0] == 48 && (s[1] == 120 || s[1] == 88) {
        s.subrange(2, s.len() as int)
    } else {
        s
    }
}

#[verifier::external_type_specification]
#[verifier::external_body]
pub struct ExFromHexError(ethers_core::utils::hex::FromHexError);

/// Relies on `ethers_core::utils::hex::encode` (const-hex's `encode`): two
/// lower-case digits for each byte, high half first, no prefix.
#[verifier::external_body]
pub(crate) fn encode_hex(data: &[u8]) -> (r: String)
    ensures
        r@ == hex_lower(data@),
{
    ethers_core::utils::hex::encode(data)
}

/// Relies on `ethers_core::utils::hex::decode` (const-hex's `decode`): an odd
/// length is an error; then one leading `0x` or `0X` is dropped, and a byte
/// that is no hex digit of either case is an error; otherwise each two digits
/// give one byte.
#[verifier::external_body]
pub(crate) fn decode_hex(data: &str) -> (r: Result<Vec<u8>, ethers_core::utils::hex::FromHexError>)
    ensures
        match r {
            Ok(v) => data.spec_bytes().len() % 2 == 0 && is_hex_text(
                without_hex_prefix(data.spec_bytes()),
            ) && v@ == hex_decoded(without_hex_prefix(data.spec_bytes())),
            Err(_) => !(data.spec_bytes().len() % 2 == 0 && is_hex_text(
                without_hex_prefix(data.spec_bytes()),
            )),
        },
{
    ethers_core::utils::hex::decode(data)
}

} // verus!
