use vstd::prelude::*;
use vstd::string::*;
use crate::abi::{
    abi_decoding, abi_encoding, abi_packed_len, packed_size, token_values, Token, TokenValue,
    MAX_PACKED_LEN,
};
use crate::address::{
    hex_bytes, hex_decode, hex_encode, hex_text, is_address_text, is_lower_hex_text,
    is_valid_eth_address, lemma_address_bytes_render, lemma_address_text_round_trips, EthAddress,
};
use crate::error::BridgeError;
use crate::event::{
    decoded_event, encoded_event, lemma_decode_inverts_encode, merged, EthEvent, EthEventView,
};
use crate::schema::{
    count, data_types, param_types, rank, schema_of, selected, topic_types, EthEventParams, Schema,
};
use crate::signature::{event_signature, ParamType};
use crate::topics::{concat, event_topics, left_padded};
use crate::wire::{byte_views, log_entry_of_wire, LogEntryView};

verus! {

/// What the `Locked` event of the locker contract says: a token was locked
/// on the source chain, to be minted for `recipient` on the destination chain.
#[derive(Debug, PartialEq, Eq)]
pub struct EthLockedEvent {
    /// The address of the locker contract that emitted the event.
    pub locker_address: EthAddress,
    /// The address of the token contract, as lower-case hex text.
    pub token: String,
    /// The address of the sender, as lower-case hex text.
    pub sender: String,
    pub token_id: String,
    /// The account on the destination chain that receives the token.
    pub recipient: String,
    pub token_uri: String,
}

/// A `Locked` event as mathematical values.
pub struct EthLockedEventView {
    pub locker_address: Seq<u8>,
    pub token: Seq<char>,
    pub sender: Seq<char>,
    pub token_id: Seq<char>,
    pub recipient: Seq<char>,
    pub token_uri: Seq<char>,
}

impl View for EthLockedEvent {
    type V = EthLockedEventView;

    open spec fn view(&self) -> EthLockedEventView {
        EthLockedEventView {
            locker_address: self.locker_address@,
            token: self.token@,
            sender: self.sender@,
            token_id: self.token_id@,
            recipient: self.recipient@,
            token_uri: self.token_uri@,
        }
    }
}

/// The name of the event.
pub open spec fn locked_name() -> Seq<char> {
    "Locked"@
}

/// The schema of the event: the token and the sender are indexed addresses,
/// the token id, the recipient and the token URI are texts in the data.
pub open spec fn locked_schema() -> Schema {
    seq![
        ("token"@, ParamType::Address, true),
        ("sender"@, ParamType::Address, true),
        ("token_id"@, ParamType::String, false),
        ("account_id"@, ParamType::String, false),
        ("token_uri"@, ParamType::String, false),
    ]
}

/// The bytes of an address value, and no bytes for any other value.
pub open spec fn address_in(value: TokenValue) -> Seq<u8> {
    match value {
        TokenValue::Address(address) => address,
        _ => Seq::empty(),
    }
}

/// The text of a text value, and the empty text for any other value.
pub open spec fn text_in(value: TokenValue) -> Seq<char> {
    match value {
        TokenValue::String(text) => text,
        _ => Seq::empty(),
    }
}

/// The `Locked` event that a decoded event with five parameters stands for:
/// the two addresses rendered as lower-case hex text, the texts as they are.
pub open spec fn locked_event_of(event: EthEventView) -> EthLockedEventView {
    EthLockedEventView {
        locker_address: event.locker_address,
        token: hex_text(address_in(event.params[0].value)),
        sender: hex_text(address_in(event.params[1].value)),
        token_id: text_in(event.params[2].value),
        recipient: text_in(event.params[3].value),
        token_uri: text_in(event.params[4].value),
    }
}

/// What decoding the wire form of a log entry as a `Locked` event gives: the
/// error of the generic decoding, or the event read out of what it decoded.
pub open spec fn locked_decoding(data: Seq<u8>) -> Result<EthLockedEventView, BridgeError> {
    match decoded_event(locked_name(), locked_schema(), data) {
        Ok(generic) => Ok(locked_event_of(generic)),
        Err(error) => Err(error),
    }
}

/// The values of the indexed parameters of a `Locked` event.
pub open spec fn locked_indexes(event: EthLockedEventView) -> Seq<Seq<u8>> {
    seq![hex_bytes(event.token), hex_bytes(event.sender)]
}

/// The values of the indexed parameters as the topics hold them.
pub open spec fn locked_topic_values(event: EthLockedEventView) -> Seq<TokenValue> {
    seq![
        TokenValue::Address(hex_bytes(event.token)),
        TokenValue::Address(hex_bytes(event.sender)),
    ]
}

/// The values of the parameters that are packed into the data.
pub open spec fn locked_data_values(event: EthLockedEventView) -> Seq<TokenValue> {
    seq![
        TokenValue::String(event.token_id),
        TokenValue::String(event.recipient),
        TokenValue::String(event.token_uri),
    ]
}

/// Whether a `Locked` event can be encoded: its two addresses are address
/// text, and its three texts pack within `MAX_PACKED_LEN`.
pub open spec fn locked_encodable(event: EthLockedEventView) -> bool {
    &&& is_address_text(event.token)
    &&& is_address_text(event.sender)
    &&& abi_packed_len(locked_data_values(event)) <= MAX_PACKED_LEN
}

/// The wire form of the log entry of a `Locked` event.
pub open spec fn locked_wire(event: EthLockedEventView) -> Seq<u8> {
    encoded_event(
        locked_name(),
        locked_schema(),
        event.locker_address,
        locked_indexes(event),
        locked_data_values(event),
    )
}

/// What the schema of the event comes to: which types the topics and the
/// data are read under, and where each parameter's value stands.
pub proof fn lemma_locked_schema()
    ensures
        locked_schema().len() == 5,
        count(locked_schema(), true) == 2,
        count(locked_schema(), false) == 3,
        topic_types(locked_schema()) == seq![ParamType::Address, ParamType::Address],
        data_types(locked_schema()) == seq![
            ParamType::String,
            ParamType::String,
            ParamType::String,
        ],
        rank(locked_schema(), 0, true) == 0,
        rank(locked_schema(), 1, true) == 1,
        rank(locked_schema(), 2, false) == 0,
        rank(locked_schema(), 3, false) == 1,
        rank(locked_schema(), 4, false) == 2,
{
    reveal_with_fuel(rank, 6);
    reveal_with_fuel(selected, 6);
}

impl EthLockedEvent {
    /// The schema of the event, in the form the codec takes.
    pub fn event_params() -> (params: EthEventParams)
        ensures
            schema_of(params@) == locked_schema(),
    {
        let mut params: EthEventParams = Vec::new();
        params.push((String::from_str("token"), ParamType::Address, true));
        params.push((String::from_str("sender"), ParamType::Address, true));
        params.push((String::from_str("token_id"), ParamType::String, false));
        params.push((String::from_str("account_id"), ParamType::String, false));
        params.push((String::from_str("token_uri"), ParamType::String, false));
        params
    }

    /// Decodes the wire form of a log entry as a `Locked` event. It fails as
    /// the generic decoding does, and with the same error; where that
    /// succeeds, the addresses are rendered as lower-case hex text.
    pub fn from_log_entry_data(data: &[u8]) -> (event: Result<EthLockedEvent, BridgeError>)
        ensures
            match event {
                Ok(e) => {
                    &&& locked_decoding(data@) == Ok::<EthLockedEventView, BridgeError>(e@)
                    &&& is_address_text(e@.token)
                    &&& is_lower_hex_text(e@.token)
                    &&& is_address_text(e@.sender)
                    &&& is_lower_hex_text(e@.sender)
                },
                Err(error) => locked_decoding(data@) == Err::<EthLockedEventView, BridgeError>(
                    error,
                ),
            },
    {
        let event = match EthEvent::from_log_entry_data("Locked", EthLockedEvent::event_params(), data) {
            Ok(event) => event,
            Err(error) => {
                return Err(error);
            },
        };
        proof {
            lemma_locked_schema();
            assert(event.log@.len() == 5);
        }
        let token = event.log.params[0].value.to_address().unwrap();
        let sender = event.log.params[1].value.to_address().unwrap();
        let token_id = event.log.params[2].value.to_text().unwrap();
        let recipient = event.log.params[3].value.to_text().unwrap();
        let token_uri = event.log.params[4].value.to_text().unwrap();
        let token = hex_encode(token.as_slice());
        let sender = hex_encode(sender.as_slice());
        proof {
            lemma_address_bytes_render(address_in(event@.params[0].value));
            lemma_address_bytes_render(address_in(event@.params[1].value));
        }
        Ok(
            EthLockedEvent {
                locker_address: event.locker_address,
                token,
                sender,
                token_id,
                recipient,
                token_uri,
            },
        )
    }

    /// Whether the event can be encoded: see `locked_encodable`.
    pub fn can_encode(&self) -> (encodable: bool)
        ensures
            encodable == locked_encodable(self@),
    {
        if !is_valid_eth_address(self.token.clone()) || !is_valid_eth_address(self.sender.clone()) {
            return false;
        }
        let values = self.data_tokens();
        packed_size(&values).is_some()
    }

    /// The values that are packed into the data, as tokens.
    pub fn data_tokens(&self) -> (values: Vec<Token>)
        ensures
            token_values(values@) == locked_data_values(self@),
    {
        let mut values: Vec<Token> = Vec::new();
        values.push(Token::String(self.token_id.clone()));
        values.push(Token::String(self.recipient.clone()));
        values.push(Token::String(self.token_uri.clone()));
        values
    }

    /// Encodes the event into the wire form of its log entry: the two
    /// addresses go back from hex text to bytes and become topics, the three
    /// texts are packed into the data.
    pub fn to_log_entry_data(&self) -> (bytes: Vec<u8>)
        requires
            locked_encodable(self@),
        ensures
            bytes@ == locked_wire(self@),
    {
        let token = hex_decode(self.token.as_str()).unwrap();
        let sender = hex_decode(self.sender.as_str()).unwrap();
        let mut indexes: Vec<Vec<u8>> = Vec::new();
        indexes.push(token);
        indexes.push(sender);
        let values = self.data_tokens();
        assert(byte_views(indexes@) =~= locked_indexes(self@));
        EthEvent::to_log_entry_data(
            "Locked",
            EthLockedEvent::event_params(),
            self.locker_address,
            indexes,
            values,
        )
    }
}

/// The decoded event that a `Locked` event is encoded from.
pub open spec fn generic_event_of(event: EthLockedEventView) -> EthEventView {
    EthEventView {
        locker_address: event.locker_address,
        params: merged(locked_schema(), locked_topic_values(event), locked_data_values(event)),
    }
}

/// Reading a `Locked` event out of the decoded event that it is encoded from
/// gives the event back, provided its two addresses are lower-case address
/// text. An address written with upper-case digits comes back in lower case.
pub proof fn lemma_locked_fields_restored(event: EthLockedEventView)
    requires
        is_address_text(event.token),
        is_lower_hex_text(event.token),
        is_address_text(event.sender),
        is_lower_hex_text(event.sender),
    ensures
        locked_event_of(generic_event_of(event)) == event,
{
    lemma_locked_schema();
    lemma_address_text_round_trips(event.token);
    lemma_address_text_round_trips(event.sender);
}

/// Decoding an encoded `Locked` event gives the event back wherever the two
/// outside codecs invert each other: if reading the wire form gives back the
/// log entry that was written, if unpacking the packed texts gives them back,
/// and if the two topics unpack to the two addresses.
pub proof fn lemma_locked_round_trip(event: EthLockedEventView)
    requires
        is_address_text(event.token),
        is_lower_hex_text(event.token),
        is_address_text(event.sender),
        is_lower_hex_text(event.sender),
        log_entry_of_wire(locked_wire(event)) == Some(
            LogEntryView {
                address: event.locker_address,
                topics: event_topics(
                    event_signature(locked_name(), param_types(locked_schema())),
                    locked_indexes(event),
                ),
                data: abi_encoding(locked_data_values(event)),
            },
        ),
        abi_decoding(data_types(locked_schema()), abi_encoding(locked_data_values(event))) == Some(
            locked_data_values(event),
        ),
        abi_decoding(
            topic_types(locked_schema()),
            concat(seq![left_padded(hex_bytes(event.token)), left_padded(hex_bytes(event.sender))]),
        ) == Some(locked_topic_values(event)),
    ensures
        locked_decoding(locked_wire(event)) == Ok::<EthLockedEventView, BridgeError>(event),
{
    lemma_locked_schema();
    lemma_address_text_round_trips(event.token);
    lemma_address_text_round_trips(event.sender);
    let indexes = locked_indexes(event);
    assert(Seq::new(indexes.len(), |i: int| left_padded(indexes[i])) =~= seq![
        left_padded(hex_bytes(event.token)),
        left_padded(hex_bytes(event.sender)),
    ]);
    lemma_decode_inverts_encode(
        locked_name(),
        locked_schema(),
        event.locker_address,
        indexes,
        locked_data_values(event),
        locked_topic_values(event),
    );
    lemma_locked_fields_restored(event);
}

} // verus!
