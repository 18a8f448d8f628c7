use vstd::prelude::*;
use vstd::string::*;
use crate::error::BridgeError;

verus! {

/// A chain address: exactly 20 bytes.
pub type EthAddress = [u8; 20];

/// The value of one hex digit, upper or lower case, or `None` for any other character.
pub open spec fn hex_digit(c: char) -> Option<u8> {
    if '0' <= c && c <= '9' {
        Some((c as u32 - '0' as u32) as u8)
    } else if 'a' <= c && c <= 'f' {
        Some((c as u32 - 'a' as u32 + 10) as u8)
    } else if 'A' <= c && c <= 'F' {
        Some((c as u32 - 'A' as u32 + 10) as u8)
    } else {
        None
    }
}

/// The lower-case hex digit that stands for a value below 16.
pub open spec fn lower_hex_char(v: u8) -> char
    recommends
        v < 16,
{
    if v < 10 {
        ('0' as u8 + v) as char
    } else {
        ('a' as u8 + (v - 10)) as char
    }
}

/// Hex text: an even number of characters, all of them hex digits.
pub open spec fn is_hex_text(text: Seq<char>) -> bool {
    &&& text.len() % 2 == 0
    &&& forall|i: int| 0 <= i < text.len() ==> (#[trigger] hex_digit(text[i])) is Some
}

/// Hex text whose letters are all lower case.
pub open spec fn is_lower_hex_text(text: Seq<char>) -> bool {
    &&& is_hex_text(text)
    &&& forall|i: int| 0 <= i < text.len() ==> !('A' <= #[trigger] text[i] && text[i] <= 'F')
}

/// The bytes that hex text stands for: two digits per byte, the high one first.
pub open spec fn hex_bytes(text: Seq<char>) -> Seq<u8>
    recommends
        is_hex_text(text),
{
    Seq::new(
        text.len() / 2,
        |i: int| (16 * hex_digit(text[2 * i]).unwrap() + hex_digit(text[2 * i + 1]).unwrap()) as u8,
    )
}

/// The lower-case hex text of a byte sequence.
pub open spec fn hex_text(bytes: Seq<u8>) -> Seq<char> {
    Seq::new(
        2 * bytes.len(),
        |i: int|
            if i % 2 == 0 {
                lower_hex_char(bytes[i / 2] / 16)
            } else {
                lower_hex_char(bytes[i / 2] % 16)
            },
    )
}

/// The text of an address: the hex text of exactly 20 bytes, with no prefix.
pub open spec fn is_address_text(text: Seq<char>) -> bool {
    is_hex_text(text) && text.len() == 40
}

/// `hex::FromHexError`, the error of `hex::decode`; it is carried as it is and
/// never looked into.
#[verifier::external_type_specification]
#[verifier::external_body]
pub struct ExFromHexError(hex::FromHexError);

/// `hex::decode` on a string. It succeeds exactly on an even number of hex
/// digits of either case, and then returns one byte for each pair of digits,
/// the first digit of a pair being the high half of the byte.
#[verifier::external_body]
pub(crate) fn hex_decode(text: &str) -> (decoded: Result<Vec<u8>, hex::FromHexError>)
    ensures
        decoded is Ok <==> is_hex_text(text@),
        decoded is Ok ==> decoded->Ok_0@ == hex_bytes(text@),
{
    hex::decode(text)
}

/// `hex::encode` on a byte slice: two lower-case hex digits for each byte,
/// the high half first.
#[verifier::external_body]
pub(crate) fn hex_encode(bytes: &[u8]) -> (text: String)
    ensures
        text@ == hex_text(bytes@),
{
    hex::encode(bytes)
}

/// Parses the bare hex text of an address. Anything that is not the hex text
/// of exactly 20 bytes is rejected; nothing is trimmed, padded or cut.
pub fn validate_eth_address(address: String) -> (parsed: Result<EthAddress, BridgeError>)
    ensures
        is_address_text(address@) ==> parsed is Ok && parsed->Ok_0@ == hex_bytes(address@),
        !is_address_text(address@) ==> parsed == Err::<EthAddress, BridgeError>(BridgeError::Format),
{
    match hex_decode(address.as_str()) {
        Ok(data) => {
            if data.len() != 20 {
                return Err(BridgeError::Format);
            }
            let mut result = [0u8; 20];
            let mut i: usize = 0;
            while i < 20
                invariant
                    i <= 20,
                    data.len() == 20,
                    forall|j: int| 0 <= j < i ==> result@[j] == data@[j],
                decreases 20 - i,
            {
                result[i] = data[i];
                i += 1;
            }
            Ok(result)
        },
        Err(_) => Err(BridgeError::Format),
    }
}

/// Whether `address` is the bare hex text of exactly 20 bytes.
pub fn is_valid_eth_address(address: String) -> (valid: bool)
    ensures
        valid == is_address_text(address@),
{
    match hex_decode(address.as_str()) {
        Ok(data) => data.len() == 20,
        Err(_) => false,
    }
}

/// Encoding is inverted by decoding: the hex text of any bytes is lower-case
/// hex text, and it stands for exactly those bytes.
pub proof fn lemma_hex_text_decodes(bytes: Seq<u8>)
    ensures
        is_lower_hex_text(hex_text(bytes)),
        hex_bytes(hex_text(bytes)) == bytes,
{
}

/// Decoding is inverted by encoding on lower-case text: the bytes of
/// lower-case hex text are rendered as that same text. Upper-case digits
/// decode to the same bytes and come back in lower case.
pub proof fn lemma_lower_hex_text_round_trips(text: Seq<char>)
    requires
        is_lower_hex_text(text),
    ensures
        hex_text(hex_bytes(text)) == text,
{
}

/// An address that was parsed from lower-case text is rendered as that text again.
pub proof fn lemma_address_text_round_trips(text: Seq<char>)
    requires
        is_address_text(text),
        is_lower_hex_text(text),
    ensures
        hex_bytes(text).len() == 20,
        hex_text(hex_bytes(text)) == text,
{
    lemma_lower_hex_text_round_trips(text);
}

/// The hex text of a 20-byte address is address text.
pub proof fn lemma_address_bytes_render(address: Seq<u8>)
    requires
        address.len() == 20,
    ensures
        is_address_text(hex_text(address)),
        is_lower_hex_text(hex_text(address)),
        hex_bytes(hex_text(address)) == address,
{
    lemma_hex_text_decodes(address);
}

} // verus!
