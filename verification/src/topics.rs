use vstd::prelude::*;
use crate::error::BridgeError;
use crate::schema::{count, count_indexed, schema_of, EthEventParams, Schema};
use crate::signature::Hash32;
use crate::wire::{byte_views, hash_views};

verus! {

/// The byte sequences of `parts` one after the other.
pub open spec fn concat(parts: Seq<Seq<u8>>) -> Seq<u8>
    decreases parts.len(),
{
    if parts.len() == 0 {
        Seq::empty()
    } else {
        concat(parts.drop_last()) + parts.last()
    }
}

/// Whether two hashes hold the same bytes.
pub fn same_hash(a: &Hash32, b: &Hash32) -> (same: bool)
    ensures
        same == (a@ == b@),
{
    let mut i: usize = 0;
    while i < 32
        invariant
            i <= 32,
            forall|j: int| 0 <= j < i ==> a@[j] == b@[j],
        decreases 32 - i,
    {
        if a[i] != b[i] {
            return false;
        }
        i += 1;
    }
    assert(a@ =~= b@);
    true
}

/// What holds of the topics of a log entry of the given event: there is a
/// first topic, it is the event's signature hash, and one more topic stands
/// for each indexed parameter.
pub open spec fn topics_checked(schema: Schema, signature: Seq<u8>, topics: Seq<Seq<u8>>) -> Result<
    (),
    BridgeError,
> {
    if topics.len() == 0 {
        Err(BridgeError::Decode)
    } else if topics[0] != signature {
        Err(BridgeError::SchemaMismatch)
    } else if topics.len() - 1 != count(schema, true) {
        Err(BridgeError::Decode)
    } else {
        Ok(())
    }
}

/// Holds the topics of a log entry against the signature hash of the event
/// that was asked for. A missing first topic is a decode error, another
/// signature a schema mismatch, and a wrong number of topics a decode error.
pub fn check_topics(params: &EthEventParams, signature: &Hash32, topics: &Vec<Hash32>) -> (checked:
    Result<(), BridgeError>)
    ensures
        checked == topics_checked(schema_of(params@), signature@, hash_views(topics@)),
{
    if topics.len() == 0 {
        return Err(BridgeError::Decode);
    }
    if !same_hash(&topics[0], signature) {
        return Err(BridgeError::SchemaMismatch);
    }
    if topics.len() - 1 != count_indexed(params) {
        return Err(BridgeError::Decode);
    }
    Ok(())
}

/// A value of at most 32 bytes as a 32-byte word: zero bytes in front, the
/// value at the end.
pub open spec fn left_padded(value: Seq<u8>) -> Seq<u8>
    recommends
        value.len() <= 32,
{
    Seq::new(
        32,
        |i: int|
            if i < 32 - value.len() {
                0u8
            } else {
                value[i - (32 - value.len())]
            },
    )
}

/// The topics of an encoded event: the signature hash, then each indexed
/// value as a 32-byte word.
pub open spec fn event_topics(signature: Seq<u8>, indexes: Seq<Seq<u8>>) -> Seq<Seq<u8>> {
    seq![signature] + Seq::new(indexes.len(), |i: int| left_padded(indexes[i]))
}

/// The bytes of all topics after the first, one topic after the other.
pub fn flatten_topics(topics: &Vec<Hash32>) -> (flat: Vec<u8>)
    requires
        topics@.len() > 0,
    ensures
        flat@ == concat(hash_views(topics@).skip(1)),
{
    let ghost rest = hash_views(topics@).skip(1);
    let mut flat: Vec<u8> = Vec::new();
    let mut i: usize = 1;
    while i < topics.len()
        invariant
            1 <= i <= topics.len(),
            rest == hash_views(topics@).skip(1),
            flat@ == concat(rest.take(i - 1)),
        decreases topics.len() - i,
    {
        let ghost before = flat@;
        let mut j: usize = 0;
        while j < 32
            invariant
                j <= 32,
                i < topics.len(),
                flat@ == before + topics@[i as int]@.take(j as int),
            decreases 32 - j,
        {
            flat.push(topics[i][j]);
            j += 1;
        }
        proof {
            assert(rest.take(i as int).drop_last() =~= rest.take(i - 1));
        }
        i += 1;
    }
    proof {
        assert(rest.take(topics.len() - 1) =~= rest);
    }
    flat
}

/// A value of at most 32 bytes as a topic: zero bytes in front.
pub fn pad_topic(value: &Vec<u8>) -> (topic: Hash32)
    requires
        value@.len() <= 32,
    ensures
        topic@ == left_padded(value@),
{
    let mut topic = [0u8; 32];
    let shift: usize = 32 - value.len();
    let mut i: usize = 0;
    while i < value.len()
        invariant
            i <= value.len(),
            value@.len() <= 32,
            shift == 32 - value@.len(),
            forall|j: int| 0 <= j < shift ==> topic@[j] == 0,
            forall|j: int| 0 <= j < i ==> topic@[shift + j] == value@[j],
        decreases value.len() - i,
    {
        topic[shift + i] = value[i];
        i += 1;
    }
    topic
}

/// The topics of an event: the signature hash, then the indexed values in
/// the order given, each padded to a 32-byte word.
pub fn build_topics(signature: Hash32, indexes: &Vec<Vec<u8>>) -> (topics: Vec<Hash32>)
    requires
        forall|i: int| 0 <= i < indexes@.len() ==> (#[trigger] indexes@[i])@.len() <= 32,
    ensures
        hash_views(topics@) == event_topics(signature@, byte_views(indexes@)),
{
    let mut topics: Vec<Hash32> = Vec::new();
    topics.push(signature);
    let mut i: usize = 0;
    while i < indexes.len()
        invariant
            i <= indexes.len(),
            forall|k: int| 0 <= k < indexes@.len() ==> (#[trigger] indexes@[k])@.len() <= 32,
            topics@.len() == i + 1,
            topics@[0]@ == signature@,
            forall|k: int| 0 <= k < i ==> (#[trigger] topics@[k + 1])@ == left_padded(indexes@[k]@),
        decreases indexes.len() - i,
    {
        let topic = pad_topic(&indexes[i]);
        topics.push(topic);
        i += 1;
    }
    assert(hash_views(topics@) =~= event_topics(signature@, byte_views(indexes@))) by {
        let expected = event_topics(signature@, byte_views(indexes@));
        assert forall|k: int| 0 <= k < expected.len() implies hash_views(topics@)[k] == expected[k] by {
            if k > 0 {
                assert(topics@[(k - 1) + 1]@ == left_padded(indexes@[k - 1]@));
            }
        }
    }
    topics
}

} // verus!
