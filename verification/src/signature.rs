use vstd::prelude::*;
use vstd::string::*;
use vstd::utf8::encode_utf8;

verus! {

/// A 32-byte hash, as it stands in a topic of a log entry.
pub type Hash32 = [u8; 32];

/// The types a parameter of an event can have. The set is closed: each
/// variant has its canonical name and its packing rule, and a new type is a
/// new variant.
#[derive(Clone, Copy, Debug, PartialEq, Eq, Structural)]
pub enum ParamType {
    /// A 20-byte address.
    Address,
    /// A byte string of a fixed size, `bytes1` to `bytes32`.
    FixedBytes(usize),
    /// An unsigned integer of the given width in bits, `uint8` to `uint256`.
    Uint(usize),
    /// A text of any length.
    String,
}

/// The character of one decimal digit.
pub open spec fn decimal_digit(d: nat) -> char
    recommends
        d < 10,
{
    ('0' as u8 + d) as char
}

/// A number in decimal, with no sign and no leading zero.
pub open spec fn decimal_text(n: nat) -> Seq<char>
    decreases n,
{
    if n < 10 {
        seq![decimal_digit(n)]
    } else {
        decimal_text(n / 10).push(decimal_digit(n % 10))
    }
}

/// The canonical short name of a type, as it stands in an event signature.
pub open spec fn canonical_name(kind: ParamType) -> Seq<char> {
    match kind {
        ParamType::Address => "address"@,
        ParamType::FixedBytes(size) => "bytes"@ + decimal_text(size as nat),
        ParamType::Uint(bits) => "uint"@ + decimal_text(bits as nat),
        ParamType::String => "string"@,
    }
}

/// The canonical names of `types`, in order, with a comma between two of them.
pub open spec fn joined_type_names(types: Seq<ParamType>) -> Seq<char>
    decreases types.len(),
{
    if types.len() == 0 {
        Seq::empty()
    } else if types.len() == 1 {
        canonical_name(types[0])
    } else {
        joined_type_names(types.drop_last()) + ","@ + canonical_name(types.last())
    }
}

/// The text that is hashed into an event signature: `name(type1,type2,...)`.
/// Neither the parameters' names nor whether they are indexed enter it.
pub open spec fn signature_text(name: Seq<char>, types: Seq<ParamType>) -> Seq<char> {
    name + "("@ + joined_type_names(types) + ")"@
}

/// The Keccak-256 hash of a byte sequence, as `tiny_keccak::keccak256` computes it.
pub uninterp spec fn keccak256(data: Seq<u8>) -> Seq<u8>;

/// The signature hash of an event: Keccak-256 of the UTF-8 bytes of its signature text.
pub open spec fn event_signature(name: Seq<char>, types: Seq<ParamType>) -> Seq<u8> {
    keccak256(encode_utf8(signature_text(name, types)))
}

/// `ethabi::param_type::Writer::write` on one of this crate's types: `address`,
/// `string`, or `bytes` or `uint` followed at once by the size in decimal.
#[verifier::external_body]
fn write_type_name(kind: &ParamType) -> (name: String)
    ensures
        name@ == canonical_name(*kind),
{
    ethabi::param_type::Writer::write(&match kind {
        ParamType::Address => ethabi::ParamType::Address,
        ParamType::FixedBytes(size) => ethabi::ParamType::FixedBytes(*size),
        ParamType::Uint(bits) => ethabi::ParamType::Uint(*bits),
        ParamType::String => ethabi::ParamType::String,
    })
}

/// `tiny_keccak::keccak256`: the Keccak-256 hash of `data`, a function of the
/// bytes alone.
#[verifier::external_body]
fn keccak256_digest(data: &[u8]) -> (digest: Hash32)
    ensures
        digest@ == keccak256(data@),
{
    tiny_keccak::keccak256(data)
}

/// Builds the signature text `name(type1,type2,...)` of an event.
pub fn signature_string(name: &str, params: &[ParamType]) -> (text: String)
    ensures
        text@ == signature_text(name@, params@),
{
    let mut text = String::from_str(name);
    text.append("(");
    let mut i: usize = 0;
    while i < params.len()
        invariant
            i <= params.len(),
            text@ == name@ + "("@ + joined_type_names(params@.take(i as int)),
        decreases params.len() - i,
    {
        if i > 0 {
            text.append(",");
        }
        let kind_name = write_type_name(&params[i]);
        text.append(kind_name.as_str());
        proof {
            let before = params@.take(i as int);
            let after = params@.take(i + 1);
            assert(after.drop_last() =~= before);
            assert(text@ =~= name@ + "("@ + joined_type_names(after));
        }
        i += 1;
    }
    proof {
        assert(params@.take(params.len() as int) =~= params@);
    }
    text.append(")");
    text
}

/// Writes the signature hash of the event `name` with parameter types
/// `params` into `result`.
pub fn fill_signature(name: &str, params: &[ParamType], result: &mut Hash32)
    ensures
        final(result)@ == event_signature(name@, params@),
{
    let text = signature_string(name, params);
    *result = keccak256_digest(text.as_str().as_bytes());
}

/// The signature hash of the event `name` with parameter types `params`: the
/// value that stands in topic 0 of every log entry of that event.
pub fn long_signature(name: &str, params: &[ParamType]) -> (hash: Hash32)
    ensures
        hash@ == event_signature(name@, params@),
{
    let mut result = [0u8; 32];
    fill_signature(name, params, &mut result);
    result
}

} // verus!
