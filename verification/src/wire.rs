use vstd::prelude::*;
use crate::address::EthAddress;
use crate::error::BridgeError;
use crate::signature::Hash32;

verus! {

/// A log entry as the source chain records it: the address of the contract
/// that emitted it, its topics and its packed data.
#[derive(Debug, PartialEq, Eq)]
pub struct LogEntry {
    pub address: EthAddress,
    pub topics: Vec<Hash32>,
    pub data: Vec<u8>,
}

/// What a `LogEntry` holds, as mathematical values.
pub struct LogEntryView {
    pub address: Seq<u8>,
    pub topics: Seq<Seq<u8>>,
    pub data: Seq<u8>,
}

/// The byte sequences of a sequence of hashes.
pub open spec fn hash_views(hashes: Seq<Hash32>) -> Seq<Seq<u8>> {
    Seq::new(hashes.len(), |i: int| hashes[i]@)
}

/// The byte sequences of a sequence of byte vectors.
pub open spec fn byte_views(items: Seq<Vec<u8>>) -> Seq<Seq<u8>> {
    Seq::new(items.len(), |i: int| items[i]@)
}

impl View for LogEntry {
    type V = LogEntryView;

    open spec fn view(&self) -> LogEntryView {
        LogEntryView { address: self.address@, topics: hash_views(self.topics@), data: self.data@ }
    }
}

/// The byte string that `rlp::Rlp::val_at` reads at `index` in the list
/// `bytes`, or `None` where it reports an error.
pub uninterp spec fn rlp_value_at(bytes: Seq<u8>, index: int) -> Option<Seq<u8>>;

/// The byte strings that `rlp::Rlp::list_at` reads from the list at `index`
/// in the list `bytes`, or `None` where it reports an error.
pub uninterp spec fn rlp_list_at(bytes: Seq<u8>, index: int) -> Option<Seq<Seq<u8>>>;

/// The bytes that `rlp::RlpStream` gives for the list of an address, a list
/// of topics and a data string.
pub uninterp spec fn rlp_log_entry(address: Seq<u8>, topics: Seq<Seq<u8>>, data: Seq<u8>) -> Seq<u8>;

/// `rlp::DecoderError`, the error of the `rlp` readers; it is carried as it
/// is and never looked into.
#[verifier::external_type_specification]
#[verifier::external_body]
pub struct ExDecoderError(rlp::DecoderError);

/// `rlp::Rlp::val_at` for a byte string, on a view of `bytes`. The outcome
/// is a function of the bytes and the index alone; nothing more is claimed.
#[verifier::external_body]
fn rlp_read_value(bytes: &[u8], index: usize) -> (value: Result<Vec<u8>, rlp::DecoderError>)
    ensures
        match value {
            Ok(v) => rlp_value_at(bytes@, index as int) == Some(v@),
            Err(_) => rlp_value_at(bytes@, index as int) is None,
        },
{
    rlp::Rlp::new(bytes).val_at::<Vec<u8>>(index)
}

/// `rlp::Rlp::list_at` for a list of byte strings, on a view of `bytes`. The
/// outcome is a function of the bytes and the index alone; nothing more is
/// claimed.
#[verifier::external_body]
fn rlp_read_list(bytes: &[u8], index: usize) -> (items: Result<Vec<Vec<u8>>, rlp::DecoderError>)
    ensures
        match items {
            Ok(v) => rlp_list_at(bytes@, index as int) == Some(byte_views(v@)),
            Err(_) => rlp_list_at(bytes@, index as int) is None,
        },
{
    rlp::Rlp::new(bytes).list_at::<Vec<u8>>(index)
}

/// `rlp::RlpStream` on a list of three items: the address as a byte string,
/// the topics as a list of byte strings, the data as a byte string. The
/// result is a function of those values alone.
#[verifier::external_body]
fn rlp_write_log_entry(address: &EthAddress, topics: &Vec<Hash32>, data: &Vec<u8>) -> (wire: Vec<u8>)
    ensures
        wire@ == rlp_log_entry(address@, hash_views(topics@), data@),
{
    let items: Vec<Vec<u8>> = topics.iter().map(|topic| topic.to_vec()).collect();
    let mut stream = rlp::RlpStream::new_list(3);
    stream.append(&address.to_vec());
    stream.append_list::<Vec<u8>, Vec<u8>>(&items);
    stream.append(data);
    stream.out()
}

/// Copies a byte string of exactly `N` bytes into an array.
pub fn to_array<const N: usize>(bytes: &Vec<u8>) -> (array: Option<[u8; N]>)
    ensures
        bytes@.len() == N ==> array is Some && array->Some_0@ == bytes@,
        bytes@.len() != N ==> array is None,
{
    if bytes.len() != N {
        return None;
    }
    let mut array = [0u8; N];
    let mut i: usize = 0;
    while i < N
        invariant
            i <= N,
            bytes@.len() == N,
            forall|j: int| 0 <= j < i ==> array@[j] == bytes@[j],
        decreases N - i,
    {
        array[i] = bytes[i];
        i += 1;
    }
    Some(array)
}

/// The log entry that a wire form stands for: a list whose first item is a
/// byte string of 20 bytes, whose second is a list of byte strings of 32
/// bytes each, and whose third is a byte string. `None` for anything else.
pub open spec fn log_entry_of_wire(bytes: Seq<u8>) -> Option<LogEntryView> {
    match (rlp_value_at(bytes, 0), rlp_list_at(bytes, 1), rlp_value_at(bytes, 2)) {
        (Some(address), Some(topics), Some(data)) => if address.len() == 20 && (forall|i: int|
            0 <= i < topics.len() ==> (#[trigger] topics[i]).len() == 32) {
            Some(LogEntryView { address, topics, data })
        } else {
            None
        },
        _ => None,
    }
}

impl LogEntry {
    /// Reads a log entry from its wire form. A wire form that is not such a
    /// list, an address that is not 20 bytes or a topic that is not 32 bytes
    /// is a decode error.
    pub fn from_wire(bytes: &[u8]) -> (entry: Result<LogEntry, BridgeError>)
        ensures
            match entry {
                Ok(e) => log_entry_of_wire(bytes@) == Some(e@),
                Err(error) => error == BridgeError::Decode && log_entry_of_wire(bytes@) is None,
            },
    {
        let address_bytes = match rlp_read_value(bytes, 0) {
            Ok(v) => v,
            Err(_) => {
                return Err(BridgeError::Decode);
            },
        };
        let items = match rlp_read_list(bytes, 1) {
            Ok(v) => v,
            Err(_) => {
                return Err(BridgeError::Decode);
            },
        };
        let data = match rlp_read_value(bytes, 2) {
            Ok(v) => v,
            Err(_) => {
                return Err(BridgeError::Decode);
            },
        };
        let address: EthAddress = match to_array::<20>(&address_bytes) {
            Some(a) => a,
            None => {
                return Err(BridgeError::Decode);
            },
        };
        let ghost wire_topics = byte_views(items@);
        let mut topics: Vec<Hash32> = Vec::new();
        let mut i: usize = 0;
        while i < items.len()
            invariant
                i <= items.len(),
                topics@.len() == i,
                forall|j: int| 0 <= j < i ==> (#[trigger] topics@[j])@ == items@[j]@,
                forall|j: int| 0 <= j < i ==> (#[trigger] wire_topics[j]).len() == 32,
                wire_topics == byte_views(items@),
                rlp_list_at(bytes@, 1) == Some(wire_topics),
            decreases items.len() - i,
        {
            match to_array::<32>(&items[i]) {
                Some(topic) => {
                    topics.push(topic);
                },
                None => {
                    assert(wire_topics[i as int].len() != 32);
                    return Err(BridgeError::Decode);
                },
            }
            i += 1;
        }
        assert(hash_views(topics@) =~= wire_topics);
        Ok(LogEntry { address, topics, data })
    }

    /// The wire form of the log entry.
    pub fn to_wire(&self) -> (bytes: Vec<u8>)
        ensures
            bytes@ == rlp_log_entry(self@.address, self@.topics, self@.data),
    {
        rlp_write_log_entry(&self.address, &self.topics, &self.data)
    }
}

} // verus!
