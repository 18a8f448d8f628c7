use vstd::prelude::*;
use vstd::utf8::encode_utf8;
use ethabi::{ParamType as AbiType, Token as AbiToken};
use crate::address::EthAddress;
use crate::signature::ParamType;

verus! {

/// A value of one of the types in `ParamType`.
#[derive(Debug, PartialEq, Eq)]
pub enum Token {
    /// A 20-byte address.
    Address(EthAddress),
    /// A byte string of a fixed size.
    FixedBytes(Vec<u8>),
    /// An unsigned integer, as the 32 bytes of its big-endian word.
    Uint([u8; 32]),
    /// A text.
    String(String),
}

/// What a `Token` holds, as mathematical values.
pub enum TokenValue {
    Address(Seq<u8>),
    FixedBytes(Seq<u8>),
    Uint(Seq<u8>),
    String(Seq<char>),
}

impl View for Token {
    type V = TokenValue;

    open spec fn view(&self) -> TokenValue {
        match self {
            Token::Address(address) => TokenValue::Address(address@),
            Token::FixedBytes(bytes) => TokenValue::FixedBytes(bytes@),
            Token::Uint(word) => TokenValue::Uint(word@),
            Token::String(text) => TokenValue::String(text@),
        }
    }
}

impl Clone for Token {
    fn clone(&self) -> (copy: Token)
        ensures
            copy@ == self@,
    {
        match self {
            Token::Address(address) => Token::Address(*address),
            Token::FixedBytes(bytes) => Token::FixedBytes(bytes.clone()),
            Token::Uint(word) => Token::Uint(*word),
            Token::String(text) => Token::String(text.clone()),
        }
    }
}

impl Token {
    /// The address in an `Address` token.
    pub fn to_address(&self) -> (address: Option<EthAddress>)
        ensures
            address == match *self {
                Token::Address(a) => Some(a),
                _ => None::<EthAddress>,
            },
    {
        match self {
            Token::Address(a) => Some(*a),
            _ => None,
        }
    }

    /// The text in a `String` token.
    pub fn to_text(&self) -> (text: Option<String>)
        ensures
            match self@ {
                TokenValue::String(s) => text is Some && text->Some_0@ == s,
                _ => text is None,
            },
    {
        match self {
            Token::String(s) => Some(s.clone()),
            _ => None,
        }
    }
}

/// The values of a sequence of tokens.
pub open spec fn token_values(tokens: Seq<Token>) -> Seq<TokenValue> {
    Seq::new(tokens.len(), |i: int| tokens[i]@)
}

/// Whether a value is of the given type: the variant fits, and a fixed-size
/// byte string has the size that the type names.
pub open spec fn value_fits(kind: ParamType, value: TokenValue) -> bool {
    match (kind, value) {
        (ParamType::Address, TokenValue::Address(a)) => a.len() == 20,
        (ParamType::FixedBytes(size), TokenValue::FixedBytes(b)) => b.len() == size,
        (ParamType::Uint(_), TokenValue::Uint(w)) => w.len() == 32,
        (ParamType::String, TokenValue::String(_)) => true,
        _ => false,
    }
}

/// Whether `values` has one value for each of `types`, each of its type.
pub open spec fn values_fit(types: Seq<ParamType>, values: Seq<TokenValue>) -> bool {
    &&& values.len() == types.len()
    &&& forall|i: int| 0 <= i < types.len() ==> value_fits(#[trigger] types[i], values[i])
}

/// The smallest multiple of 32 that is no less than `len`.
pub open spec fn padded_len(len: nat) -> nat {
    ((len + 31) / 32 * 32) as nat
}

/// The number of bytes that one value takes in packed data: a word for an
/// address or an integer, the padded bytes for a fixed-size byte string, and
/// for a text an offset word, a length word and the padded UTF-8 bytes.
pub open spec fn packed_len(value: TokenValue) -> nat {
    match value {
        TokenValue::Address(_) => 32,
        TokenValue::Uint(_) => 32,
        TokenValue::FixedBytes(bytes) => padded_len(bytes.len()),
        TokenValue::String(text) => 64 + padded_len(encode_utf8(text).len()),
    }
}

/// The number of bytes that `values` take in packed data.
pub open spec fn abi_packed_len(values: Seq<TokenValue>) -> nat
    decreases values.len(),
{
    if values.len() == 0 {
        0
    } else {
        abi_packed_len(values.drop_last()) + packed_len(values.last())
    }
}

/// The largest size of packed data: offsets and lengths in it are 32-bit numbers.
pub const MAX_PACKED_LEN: u64 = 0xffff_ffff;

/// The widest fixed-size byte string that fits the single word of a topic or
/// of a static field.
pub const MAX_FIXED_BYTES: usize = 32;

/// Whether every fixed-size byte type among `types` is at most one word wide.
pub open spec fn types_decodable(types: Seq<ParamType>) -> bool {
    forall|i: int|
        0 <= i < types.len() ==> (#[trigger] types[i] matches ParamType::FixedBytes(size) ==> size
            <= MAX_FIXED_BYTES)
}

/// The packed data of a sequence of values, as `ethabi::encode` lays it out.
pub uninterp spec fn abi_encoding(values: Seq<TokenValue>) -> Seq<u8>;

/// The values that `ethabi::decode` reads from packed data for a sequence of
/// types, or `None` where it reports an error.
pub uninterp spec fn abi_decoding(types: Seq<ParamType>, data: Seq<u8>) -> Option<Seq<TokenValue>>;

/// `ethabi::Error`, the error of `ethabi::decode`; it is carried as it is and
/// never looked into.
#[verifier::external_type_specification]
#[verifier::external_body]
pub struct ExAbiError(ethabi::Error);

/// `ethabi::encode` on this crate's tokens. The result is a function of the
/// tokens' values alone. The packed size must fit 32 bits: the encoder adds
/// offsets up as `u32` and overflows beyond that.
#[verifier::external_body]
pub(crate) fn abi_encode(tokens: &Vec<Token>) -> (packed: Vec<u8>)
    requires
        abi_packed_len(token_values(tokens@)) <= MAX_PACKED_LEN,
    ensures
        packed@ == abi_encoding(token_values(tokens@)),
{
    let outside: Vec<AbiToken> = tokens.iter().map(|token| match token {
        Token::Address(a) => AbiToken::Address(ethabi::Address::from(*a)),
        Token::FixedBytes(b) => AbiToken::FixedBytes(b.to_vec()),
        Token::Uint(w) => AbiToken::Uint(ethabi::Uint::from(*w)),
        Token::String(s) => AbiToken::String(s.to_string()),
    }).collect();
    ethabi::encode(&outside)
}

/// `ethabi::decode` on this crate's types. The outcome is a function of the
/// types and the bytes alone; nothing more is claimed of it. A fixed-size byte
/// type must be at most one word wide: the decoder computes with the size a
/// type names, and reserves memory by it, before it looks at the data. (For
/// a text it reserves by the length that the data declares, which is a
/// 32-bit number.)
#[verifier::external_body]
pub(crate) fn abi_decode(types: &Vec<ParamType>, data: &[u8]) -> (unpacked: Result<Vec<Token>, ethabi::Error>)
    requires
        types_decodable(types@),
    ensures
        match unpacked {
            Ok(tokens) => abi_decoding(types@, data@) == Some(token_values(tokens@)),
            Err(_) => abi_decoding(types@, data@) is None,
        },
{
    let kinds: Vec<AbiType> = types.iter().map(|kind| match kind {
        ParamType::Address => AbiType::Address,
        ParamType::FixedBytes(size) => AbiType::FixedBytes(*size),
        ParamType::Uint(bits) => AbiType::Uint(*bits),
        ParamType::String => AbiType::String,
    }).collect();
    ethabi::decode(&kinds, data)?.into_iter().map(|token| match token {
        AbiToken::Address(a) => Ok(Token::Address(a.0)),
        AbiToken::FixedBytes(b) => Ok(Token::FixedBytes(b)),
        AbiToken::Uint(w) => Ok(Token::Uint(w.into())),
        AbiToken::String(s) => Ok(Token::String(s)),
        _ => Err(ethabi::Error::InvalidData),
    }).collect()
}

/// The packed size of a longer sequence is no less than that of its start.
pub proof fn lemma_packed_len_grows(values: Seq<TokenValue>, n: int)
    requires
        0 <= n <= values.len(),
    ensures
        abi_packed_len(values.take(n)) <= abi_packed_len(values),
    decreases values.len() - n,
{
    if n < values.len() {
        lemma_packed_len_grows(values.drop_last(), n);
        assert(values.drop_last().take(n) =~= values.take(n));
    } else {
        assert(values.take(n) =~= values);
    }
}

/// The size of the packed data of `tokens`, or `None` where it is beyond
/// `MAX_PACKED_LEN`, the size up to which `EthEvent::to_log_entry_data` packs
/// values.
pub fn packed_size(tokens: &Vec<Token>) -> (size: Option<u32>)
    ensures
        abi_packed_len(token_values(tokens@)) <= MAX_PACKED_LEN ==> size == Some(
            abi_packed_len(token_values(tokens@)) as u32,
        ),
        abi_packed_len(token_values(tokens@)) > MAX_PACKED_LEN ==> size is None,
{
    let ghost values = token_values(tokens@);
    let mut total: u128 = 0;
    let mut i: usize = 0;
    while i < tokens.len()
        invariant
            i <= tokens.len(),
            values == token_values(tokens@),
            total == abi_packed_len(values.take(i as int)),
            total <= MAX_PACKED_LEN,
        decreases tokens.len() - i,
    {
        let len: u128 = match &tokens[i] {
            Token::Address(_) => 32,
            Token::Uint(_) => 32,
            Token::FixedBytes(bytes) => (bytes.len() as u128 + 31) / 32 * 32,
            Token::String(text) => 64 + (text.as_str().as_bytes().len() as u128 + 31) / 32 * 32,
        };
        proof {
            assert(values.take(i + 1).drop_last() =~= values.take(i as int));
            lemma_packed_len_grows(values, i + 1);
        }
        total = total + len;
        if total > MAX_PACKED_LEN as u128 {
            return None;
        }
        i += 1;
    }
    proof {
        assert(values.take(tokens.len() as int) =~= values);
    }
    Some(total as u32)
}

} // verus!
