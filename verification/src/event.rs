use vstd::prelude::*;
use crate::abi::{
    abi_decode, abi_decoding, abi_encode, abi_encoding, abi_packed_len, token_values,
    types_decodable, value_fits, values_fit, Token, TokenValue, MAX_PACKED_LEN,
};
use crate::address::EthAddress;
use crate::error::BridgeError;
use crate::schema::{
    all_types, count, data_types, decodable, lemma_rank_monotonic, lemma_selected, param_types,
    rank, schema_of, selected, split_types, topic_kind, topic_types, EthEventParams, Schema,
};
use crate::signature::{event_signature, long_signature, ParamType};
use crate::topics::{
    build_topics, check_topics, concat, event_topics, flatten_topics, left_padded, topics_checked,
};
use crate::wire::{byte_views, log_entry_of_wire, rlp_log_entry, LogEntry, LogEntryView};

verus! {

/// One decoded parameter of a log entry.
#[derive(Debug, PartialEq, Eq)]
pub struct LogParam {
    pub name: String,
    pub value: Token,
}

/// A decoded parameter as mathematical values.
pub struct LogParamView {
    pub name: Seq<char>,
    pub value: TokenValue,
}

impl View for LogParam {
    type V = LogParamView;

    open spec fn view(&self) -> LogParamView {
        LogParamView { name: self.name@, value: self.value@ }
    }
}

/// The decoded parameters of a log entry, in schema order.
#[derive(Debug, PartialEq, Eq)]
pub struct Log {
    pub params: Vec<LogParam>,
}

impl View for Log {
    type V = Seq<LogParamView>;

    open spec fn view(&self) -> Seq<LogParamView> {
        Seq::new(self.params@.len(), |i: int| self.params@[i]@)
    }
}

/// The parameters of a decoded event: parameter `i` has the schema's name,
/// and its value is the next of the topic values if it is indexed and the
/// next of the data values if it is not.
pub open spec fn merged(
    schema: Schema,
    topic_values: Seq<TokenValue>,
    data_values: Seq<TokenValue>,
) -> Seq<LogParamView> {
    Seq::new(
        schema.len(),
        |i: int|
            LogParamView {
                name: schema[i].0,
                value: if schema[i].2 {
                    topic_values[rank(schema, i, true) as int]
                } else {
                    data_values[rank(schema, i, false) as int]
                },
            },
    )
}

/// Whether a token is a value of the given type.
pub fn token_fits(kind: &ParamType, token: &Token) -> (fits: bool)
    ensures
        fits == value_fits(*kind, token@),
{
    match (kind, token) {
        (ParamType::Address, Token::Address(_)) => true,
        (ParamType::FixedBytes(size), Token::FixedBytes(bytes)) => bytes.len() == *size,
        (ParamType::Uint(_), Token::Uint(_)) => true,
        (ParamType::String, Token::String(_)) => true,
        _ => false,
    }
}

/// Whether `tokens` has one token for each of `types`, each of its type.
pub fn tokens_fit(types: &Vec<ParamType>, tokens: &Vec<Token>) -> (fit: bool)
    ensures
        fit == values_fit(types@, token_values(tokens@)),
{
    if tokens.len() != types.len() {
        return false;
    }
    let mut i: usize = 0;
    while i < types.len()
        invariant
            i <= types.len(),
            tokens.len() == types.len(),
            forall|j: int| 0 <= j < i ==> value_fits(#[trigger] types@[j], token_values(tokens@)[j]),
        decreases types.len() - i,
    {
        if !token_fits(&types[i], &tokens[i]) {
            return false;
        }
        i += 1;
    }
    true
}

/// Puts decoded values back into schema order. `topic_tokens` are the values
/// read from the topics and `data_tokens` those read from the data; each
/// list must have one value of the right type for each of its parameters,
/// anything else is a decode error.
pub fn assemble_log(params: &EthEventParams, topic_tokens: &Vec<Token>, data_tokens: &Vec<Token>) -> (log:
    Result<Log, BridgeError>)
    ensures
        match log {
            Ok(l) => {
                &&& values_fit(topic_types(schema_of(params@)), token_values(topic_tokens@))
                &&& values_fit(data_types(schema_of(params@)), token_values(data_tokens@))
                &&& l@ == merged(
                    schema_of(params@),
                    token_values(topic_tokens@),
                    token_values(data_tokens@),
                )
            },
            Err(error) => {
                &&& error == BridgeError::Decode
                &&& !(values_fit(topic_types(schema_of(params@)), token_values(topic_tokens@))
                    && values_fit(data_types(schema_of(params@)), token_values(data_tokens@)))
            },
        },
{
    let ghost schema = schema_of(params@);
    let ghost topic_values = token_values(topic_tokens@);
    let ghost data_values = token_values(data_tokens@);
    let (for_topics, for_data) = split_types(params);
    if !tokens_fit(&for_topics, topic_tokens) || !tokens_fit(&for_data, data_tokens) {
        return Err(BridgeError::Decode);
    }
    proof {
        let kinds = Seq::new(schema.len(), |i: int| topic_kind(schema[i].1));
        lemma_selected(schema, kinds, true, schema.len() as int);
        lemma_selected(schema, param_types(schema), false, schema.len() as int);
    }
    let mut merged_params: Vec<LogParam> = Vec::new();
    let mut next_topic: usize = 0;
    let mut next_data: usize = 0;
    let mut i: usize = 0;
    while i < params.len()
        invariant
            i <= params.len(),
            schema == schema_of(params@),
            topic_values == token_values(topic_tokens@),
            data_values == token_values(data_tokens@),
            topic_tokens@.len() == count(schema, true),
            data_tokens@.len() == count(schema, false),
            next_topic == rank(schema, i as int, true),
            next_data == rank(schema, i as int, false),
            next_topic <= i,
            next_data <= i,
            merged_params@.len() == i,
            forall|j: int|
                0 <= j < i ==> (#[trigger] merged_params@[j])@ == merged(
                    schema,
                    topic_values,
                    data_values,
                )[j],
        decreases params.len() - i,
    {
        proof {
            lemma_rank_monotonic(schema, i + 1, schema.len() as int, true);
            lemma_rank_monotonic(schema, i + 1, schema.len() as int, false);
        }
        let value = if params[i].2 {
            let token = topic_tokens[next_topic].clone();
            next_topic += 1;
            token
        } else {
            let token = data_tokens[next_data].clone();
            next_data += 1;
            token
        };
        merged_params.push(LogParam { name: params[i].0.clone(), value });
        i += 1;
    }
    let log = Log { params: merged_params };
    Ok(log)
}

/// A decoded event: the address of the contract that emitted the log entry,
/// and the event's parameters in schema order.
#[derive(Debug, PartialEq, Eq)]
pub struct EthEvent {
    pub locker_address: EthAddress,
    pub log: Log,
}

/// A decoded event as mathematical values.
pub struct EthEventView {
    pub locker_address: Seq<u8>,
    pub params: Seq<LogParamView>,
}

impl View for EthEvent {
    type V = EthEventView;

    open spec fn view(&self) -> EthEventView {
        EthEventView { locker_address: self.locker_address@, params: self.log@ }
    }
}

/// The event that a log entry holds under a schema. The topics are checked
/// first (see `topics_checked`); then the topics after the first and the
/// data are unpacked under the schema's types and put into schema order.
/// A type that cannot be unpacked, data that does not unpack, or a value that
/// is not of its parameter's type is a decode error.
pub open spec fn parsed_event(name: Seq<char>, schema: Schema, entry: LogEntryView) -> Result<
    EthEventView,
    BridgeError,
> {
    match topics_checked(schema, event_signature(name, param_types(schema)), entry.topics) {
        Err(error) => Err(error),
        Ok(_) => if !(types_decodable(topic_types(schema)) && types_decodable(data_types(schema))) {
            Err(BridgeError::Decode)
        } else {
            match (
                abi_decoding(topic_types(schema), concat(entry.topics.skip(1))),
                abi_decoding(data_types(schema), entry.data),
            ) {
                (Some(topic_values), Some(data_values)) => if values_fit(
                    topic_types(schema),
                    topic_values,
                ) && values_fit(data_types(schema), data_values) {
                    Ok(
                        EthEventView {
                            locker_address: entry.address,
                            params: merged(schema, topic_values, data_values),
                        },
                    )
                } else {
                    Err(BridgeError::Decode)
                },
                _ => Err(BridgeError::Decode),
            }
        },
    }
}

/// The event that the wire form of a log entry holds under a schema.
pub open spec fn decoded_event(name: Seq<char>, schema: Schema, bytes: Seq<u8>) -> Result<
    EthEventView,
    BridgeError,
> {
    match log_entry_of_wire(bytes) {
        None => Err(BridgeError::Decode),
        Some(entry) => parsed_event(name, schema, entry),
    }
}

/// The wire form of the log entry of an event: emitted by `address`, with
/// the signature hash and the indexed values as topics and the other values
/// packed into the data.
pub open spec fn encoded_event(
    name: Seq<char>,
    schema: Schema,
    address: Seq<u8>,
    indexes: Seq<Seq<u8>>,
    values: Seq<TokenValue>,
) -> Seq<u8> {
    rlp_log_entry(
        address,
        event_topics(event_signature(name, param_types(schema)), indexes),
        abi_encoding(values),
    )
}

/// The result of a decoding that failed with `error`.
pub open spec fn failure(error: BridgeError) -> Result<EthEvent, BridgeError> {
    Err(error)
}

impl EthEvent {
    /// Decodes a log entry under a schema. Topic 0 must be the signature hash
    /// of the event `name` with the schema's types, else the result is a
    /// schema mismatch; every other failure is a decode error.
    pub fn from_log_entry(name: &str, params: &EthEventParams, entry: &LogEntry) -> (event: Result<
        EthEvent,
        BridgeError,
    >)
        ensures
            match event {
                Ok(e) => parsed_event(name@, schema_of(params@), entry@) == Ok::<
                    EthEventView,
                    BridgeError,
                >(e@),
                Err(error) => parsed_event(name@, schema_of(params@), entry@) == Err::<
                    EthEventView,
                    BridgeError,
                >(error),
            },
            entry@.topics.len() == 0 ==> event == failure(BridgeError::Decode),
            entry@.topics.len() > 0 && entry@.topics[0] != event_signature(
                name@,
                param_types(schema_of(params@)),
            ) ==> event == failure(BridgeError::SchemaMismatch),
            entry@.topics.len() > 0 && entry@.topics[0] == event_signature(
                name@,
                param_types(schema_of(params@)),
            ) && entry@.topics.len() - 1 != count(schema_of(params@), true) ==> event == failure(
                BridgeError::Decode,
            ),
    {
        let types = all_types(params);
        let signature = long_signature(name, types.as_slice());
        match check_topics(params, &signature, &entry.topics) {
            Err(error) => {
                return Err(error);
            },
            Ok(_) => {},
        }
        let (for_topics, for_data) = split_types(params);
        if !decodable(&for_topics) || !decodable(&for_data) {
            return Err(BridgeError::Decode);
        }
        let flat = flatten_topics(&entry.topics);
        let topic_tokens = match abi_decode(&for_topics, flat.as_slice()) {
            Ok(tokens) => tokens,
            Err(_) => {
                return Err(BridgeError::Decode);
            },
        };
        let data_tokens = match abi_decode(&for_data, entry.data.as_slice()) {
            Ok(tokens) => tokens,
            Err(_) => {
                return Err(BridgeError::Decode);
            },
        };
        match assemble_log(params, &topic_tokens, &data_tokens) {
            Ok(log) => Ok(EthEvent { locker_address: entry.address, log }),
            Err(error) => Err(error),
        }
    }

    /// Decodes the wire form of a log entry under a schema: reads the entry
    /// (`LogEntry::from_wire`), then decodes it (`from_log_entry`). Nothing is
    /// returned unless every step succeeded.
    pub fn from_log_entry_data(name: &str, params: EthEventParams, data: &[u8]) -> (event: Result<
        EthEvent,
        BridgeError,
    >)
        ensures
            match event {
                Ok(e) => decoded_event(name@, schema_of(params@), data@) == Ok::<
                    EthEventView,
                    BridgeError,
                >(e@),
                Err(error) => decoded_event(name@, schema_of(params@), data@) == Err::<
                    EthEventView,
                    BridgeError,
                >(error),
            },
            log_entry_of_wire(data@) is None ==> event == failure(BridgeError::Decode),
            log_entry_of_wire(data@) matches Some(entry) ==> {
                let signature = event_signature(name@, param_types(schema_of(params@)));
                &&& entry.topics.len() == 0 ==> event == failure(BridgeError::Decode)
                &&& entry.topics.len() > 0 && entry.topics[0] != signature ==> event == failure(
                    BridgeError::SchemaMismatch,
                )
                &&& entry.topics.len() > 0 && entry.topics[0] == signature && entry.topics.len() - 1
                    != count(schema_of(params@), true) ==> event == failure(BridgeError::Decode)
            },
    {
        match LogEntry::from_wire(data) {
            Ok(entry) => EthEvent::from_log_entry(name, &params, &entry),
            Err(error) => Err(error),
        }
    }

    /// Encodes an event into the wire form of its log entry. `indexes` are
    /// the values of the indexed parameters, in the schema's order, each of
    /// at most 32 bytes; `values` are the values of the other parameters, in
    /// the schema's order.
    pub fn to_log_entry_data(
        name: &str,
        params: EthEventParams,
        locker_address: EthAddress,
        indexes: Vec<Vec<u8>>,
        values: Vec<Token>,
    ) -> (bytes: Vec<u8>)
        requires
            forall|i: int| 0 <= i < indexes@.len() ==> (#[trigger] indexes@[i])@.len() <= 32,
            abi_packed_len(token_values(values@)) <= MAX_PACKED_LEN,
        ensures
            bytes@ == encoded_event(
                name@,
                schema_of(params@),
                locker_address@,
                byte_views(indexes@),
                token_values(values@),
            ),
    {
        let types = all_types(&params);
        let signature = long_signature(name, types.as_slice());
        let topics = build_topics(signature, &indexes);
        let data = abi_encode(&values);
        let entry = LogEntry { address: locker_address, topics, data };
        entry.to_wire()
    }
}

/// The indexed values and the other values of an event, each list taken out
/// in schema order, merge back into the values in schema order: no parameter
/// is lost, repeated or moved.
pub proof fn lemma_merge_restores_order(schema: Schema, values: Seq<TokenValue>)
    requires
        values.len() == schema.len(),
    ensures
        selected(schema, values, true, schema.len() as int).len() == count(schema, true),
        selected(schema, values, false, schema.len() as int).len() == count(schema, false),
        merged(
            schema,
            selected(schema, values, true, schema.len() as int),
            selected(schema, values, false, schema.len() as int),
        ) == Seq::new(
            schema.len(),
            |i: int| LogParamView { name: schema[i].0, value: values[i] },
        ),
{
    let n = schema.len() as int;
    lemma_selected(schema, values, true, n);
    lemma_selected(schema, values, false, n);
}

/// A log entry whose first topic is not the signature hash of the event that
/// is asked for never decodes: the result is a schema mismatch, whatever the
/// other topics and the data hold.
pub proof fn lemma_other_signature_is_rejected(name: Seq<char>, schema: Schema, entry: LogEntryView)
    requires
        entry.topics.len() > 0,
        entry.topics[0] != event_signature(name, param_types(schema)),
    ensures
        parsed_event(name, schema, entry) == Err::<EthEventView, BridgeError>(
            BridgeError::SchemaMismatch,
        ),
{
}

/// A log entry that does not hold one topic for the signature and one for
/// each indexed parameter never decodes: the result is an error.
pub proof fn lemma_topic_count_is_checked(name: Seq<char>, schema: Schema, entry: LogEntryView)
    requires
        entry.topics.len() != count(schema, true) + 1,
    ensures
        parsed_event(name, schema, entry) is Err,
        entry.topics.len() > 0 && entry.topics[0] == event_signature(name, param_types(schema))
            ==> parsed_event(name, schema, entry) == Err::<EthEventView, BridgeError>(
            BridgeError::Decode,
        ),
{
}

/// Decoding inverts encoding wherever the two outside codecs invert each
/// other. Take an event with a value for each parameter: `indexes` for the
/// indexed parameters and `values` for the others, each of its parameter's
/// type. If reading the encoded wire form gives back the log entry that was
/// written, if unpacking the packed data gives back `values`, and if the
/// topics unpack to `topic_values`, then decoding the encoded event succeeds,
/// carries the emitting address, and gives each parameter, in schema order,
/// its name and its value.
pub proof fn lemma_decode_inverts_encode(
    name: Seq<char>,
    schema: Schema,
    address: Seq<u8>,
    indexes: Seq<Seq<u8>>,
    values: Seq<TokenValue>,
    topic_values: Seq<TokenValue>,
)
    requires
        indexes.len() == count(schema, true),
        types_decodable(topic_types(schema)),
        types_decodable(data_types(schema)),
        values_fit(topic_types(schema), topic_values),
        values_fit(data_types(schema), values),
        log_entry_of_wire(encoded_event(name, schema, address, indexes, values)) == Some(
            LogEntryView {
                address,
                topics: event_topics(event_signature(name, param_types(schema)), indexes),
                data: abi_encoding(values),
            },
        ),
        abi_decoding(data_types(schema), abi_encoding(values)) == Some(values),
        abi_decoding(
            topic_types(schema),
            concat(Seq::new(indexes.len(), |i: int| left_padded(indexes[i]))),
        ) == Some(topic_values),
    ensures
        decoded_event(name, schema, encoded_event(name, schema, address, indexes, values)) == Ok::<
            EthEventView,
            BridgeError,
        >(EthEventView { locker_address: address, params: merged(schema, topic_values, values) }),
        forall|i: int|
            0 <= i < schema.len() ==> (#[trigger] merged(schema, topic_values, values)[i]).name
                == schema[i].0,
        forall|i: int|
            0 <= i < schema.len() && schema[i].2 ==> (#[trigger] merged(
                schema,
                topic_values,
                values,
            )[i]).value == topic_values[rank(schema, i, true) as int],
        forall|i: int|
            0 <= i < schema.len() && !schema[i].2 ==> (#[trigger] merged(
                schema,
                topic_values,
                values,
            )[i]).value == values[rank(schema, i, false) as int],
{
    let signature = event_signature(name, param_types(schema));
    let topics = event_topics(signature, indexes);
    let padded = Seq::new(indexes.len(), |i: int| left_padded(indexes[i]));
    assert(topics.skip(1) =~= padded);
}

} // verus!
