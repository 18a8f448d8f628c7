use bridge_event_codec::abi::Token;
use bridge_event_codec::error::BridgeError;
use bridge_event_codec::locked_event::EthLockedEvent;
use bridge_event_codec::prover::{Proof, ProverReply};
use bridge_event_codec::signature::ParamType;

const URI: &str = "ipfs://QmPbxeGcXhYQQNgsC6a36dDyYUcHgMLnGKnF8pVFmGsvqi";

fn known_payload() -> Vec<u8> {
    let mut text = String::new();
    text.push_str("f901bd94101112131415161718191a1b1c1d1e1f20212223f863a026096914a269e686ac1af739190166a4b7");
    text.push_str("8a6797dcc1e634dd489588556a4a4fa00000000000000000000000006b175474e89094c44da98b954eedeac4");
    text.push_str("95271d0fa000000000000000000000000000005474e89094c44da98b954eedeac495271d0fb9014000000000");
    text.push_str("0000000000000000000000000000000000000000000000000000006000000000000000000000000000000000");
    text.push_str("000000000000000000000000000000a000000000000000000000000000000000000000000000000000000000");
    text.push_str("000000e000000000000000000000000000000000000000000000000000000000000000023432000000000000");
    text.push_str("0000000000000000000000000000000000000000000000000000000000000000000000000000000000000000");
    text.push_str("00000000000000000000000a616c6963652e6e65617200000000000000000000000000000000000000000000");
    text.push_str("0000000000000000000000000000000000000000000000000000000000000035697066733a2f2f516d506278");
    text.push_str("65476358685951514e6773433661333664447959556348674d4c6e474b6e46387056466d4773767169000000");
    text.push_str("0000000000000000");
    hex::decode(text).unwrap()
}

fn payload_with_two_topics() -> Vec<u8> {
    let mut text = String::new();
    text.push_str("f9019c94101112131415161718191a1b1c1d1e1f20212223f842a026096914a269e686ac1af739190166a4b7");
    text.push_str("8a6797dcc1e634dd489588556a4a4fa00000000000000000000000006b175474e89094c44da98b954eedeac4");
    text.push_str("95271d0fb9014000000000000000000000000000000000000000000000000000000000000000600000000000");
    text.push_str("0000000000000000000000000000000000000000000000000000a00000000000000000000000000000000000");
    text.push_str("0000000000000000000000000000e00000000000000000000000000000000000000000000000000000000000");
    text.push_str("0000023432000000000000000000000000000000000000000000000000000000000000000000000000000000");
    text.push_str("000000000000000000000000000000000000000000000a616c6963652e6e6561720000000000000000000000");
    text.push_str("0000000000000000000000000000000000000000000000000000000000000000000000000000000000003569");
    text.push_str("7066733a2f2f516d50627865476358685951514e6773433661333664447959556348674d4c6e474b6e463870");
    text.push_str("56466d47737671690000000000000000000000");
    hex::decode(text).unwrap()
}

fn payload_with_four_topics() -> Vec<u8> {
    let mut text = String::new();
    text.push_str("f901de94101112131415161718191a1b1c1d1e1f20212223f884a026096914a269e686ac1af739190166a4b7");
    text.push_str("8a6797dcc1e634dd489588556a4a4fa00000000000000000000000006b175474e89094c44da98b954eedeac4");
    text.push_str("95271d0fa000000000000000000000000000005474e89094c44da98b954eedeac495271d0fa0000000000000");
    text.push_str("0000000000000000000000000000000000000000000000000000b90140000000000000000000000000000000");
    text.push_str("0000000000000000000000000000000060000000000000000000000000000000000000000000000000000000");
    text.push_str("00000000a000000000000000000000000000000000000000000000000000000000000000e000000000000000");
    text.push_str("0000000000000000000000000000000000000000000000000234320000000000000000000000000000000000");
    text.push_str("0000000000000000000000000000000000000000000000000000000000000000000000000000000000000000");
    text.push_str("0a616c6963652e6e656172000000000000000000000000000000000000000000000000000000000000000000");
    text.push_str("000000000000000000000000000000000000000035697066733a2f2f516d50627865476358685951514e6773");
    text.push_str("433661333664447959556348674d4c6e474b6e46387056466d47737671690000000000000000000000");
    hex::decode(text).unwrap()
}

fn payload_of_another_event() -> Vec<u8> {
    let mut text = String::new();
    text.push_str("f901bd94101112131415161718191a1b1c1d1e1f20212223f863a04d91a015e5822aca66c6d8a946b63a74ec");
    text.push_str("d904f4904c867dad0b7690296ebf25a00000000000000000000000006b175474e89094c44da98b954eedeac4");
    text.push_str("95271d0fa000000000000000000000000000005474e89094c44da98b954eedeac495271d0fb9014000000000");
    text.push_str("0000000000000000000000000000000000000000000000000000006000000000000000000000000000000000");
    text.push_str("000000000000000000000000000000a000000000000000000000000000000000000000000000000000000000");
    text.push_str("000000e000000000000000000000000000000000000000000000000000000000000000023432000000000000");
    text.push_str("0000000000000000000000000000000000000000000000000000000000000000000000000000000000000000");
    text.push_str("00000000000000000000000a616c6963652e6e65617200000000000000000000000000000000000000000000");
    text.push_str("0000000000000000000000000000000000000000000000000000000000000035697066733a2f2f516d506278");
    text.push_str("65476358685951514e6773433661333664447959556348674d4c6e474b6e46387056466d4773767169000000");
    text.push_str("0000000000000000");
    hex::decode(text).unwrap()
}

fn payload_with_cut_data() -> Vec<u8> {
    let mut text = String::new();
    text.push_str("f9019d94101112131415161718191a1b1c1d1e1f20212223f863a026096914a269e686ac1af739190166a4b7");
    text.push_str("8a6797dcc1e634dd489588556a4a4fa00000000000000000000000006b175474e89094c44da98b954eedeac4");
    text.push_str("95271d0fa000000000000000000000000000005474e89094c44da98b954eedeac495271d0fb9012000000000");
    text.push_str("0000000000000000000000000000000000000000000000000000006000000000000000000000000000000000");
    text.push_str("000000000000000000000000000000a000000000000000000000000000000000000000000000000000000000");
    text.push_str("000000e000000000000000000000000000000000000000000000000000000000000000023432000000000000");
    text.push_str("0000000000000000000000000000000000000000000000000000000000000000000000000000000000000000");
    text.push_str("00000000000000000000000a616c6963652e6e65617200000000000000000000000000000000000000000000");
    text.push_str("0000000000000000000000000000000000000000000000000000000000000035697066733a2f2f516d506278");
    text.push_str("65476358685951514e6773433661333664447959");
    hex::decode(text).unwrap()
}

fn known_event() -> EthLockedEvent {
    EthLockedEvent {
        locker_address: [
            0x10, 0x11, 0x12, 0x13, 0x14, 0x15, 0x16, 0x17, 0x18, 0x19, 0x1a, 0x1b, 0x1c, 0x1d,
            0x1e, 0x1f, 0x20, 0x21, 0x22, 0x23,
        ],
        token: String::from("6b175474e89094c44da98b954eedeac495271d0f"),
        sender: String::from("00005474e89094c44da98b954eedeac495271d0f"),
        token_id: String::from("42"),
        recipient: String::from("alice.near"),
        token_uri: String::from(URI),
    }
}

fn proof_of(log_entry_data: Vec<u8>) -> Proof {
    Proof {
        log_index: 3,
        log_entry_data,
        receipt_index: 5,
        receipt_data: vec![1, 2, 3],
        header_data: vec![4, 5],
        proof: vec![vec![6], vec![], vec![7, 8]],
    }
}

#[test]
fn locked_schema_is_fixed() {
    assert_eq!(
        EthLockedEvent::event_params(),
        vec![
            (String::from("token"), ParamType::Address, true),
            (String::from("sender"), ParamType::Address, true),
            (String::from("token_id"), ParamType::String, false),
            (String::from("account_id"), ParamType::String, false),
            (String::from("token_uri"), ParamType::String, false),
        ]
    );
}

#[test]
fn known_payload_decodes_to_each_field() {
    let event = EthLockedEvent::from_log_entry_data(&known_payload()).unwrap();
    assert_eq!(hex::encode(event.locker_address), "101112131415161718191a1b1c1d1e1f20212223");
    assert_eq!(event.token, "6b175474e89094c44da98b954eedeac495271d0f");
    assert_eq!(event.sender, "00005474e89094c44da98b954eedeac495271d0f");
    assert_eq!(event.token_id, "42");
    assert_eq!(event.recipient, "alice.near");
    assert_eq!(event.token_uri, URI);
    assert_eq!(event, known_event());
}

#[test]
fn known_event_encodes_to_the_same_bytes() {
    assert_eq!(known_event().to_log_entry_data(), known_payload());
    let decoded = EthLockedEvent::from_log_entry_data(&known_payload()).unwrap();
    assert_eq!(decoded.to_log_entry_data(), known_payload());
}

#[test]
fn locked_event_round_trips() {
    let event = EthLockedEvent {
        locker_address: [0xee; 20],
        token: String::from("ffffffffffffffffffffffffffffffffffffffff"),
        sender: String::from("0000000000000000000000000000000000000000"),
        token_id: String::new(),
        recipient: String::from("a-recipient-whose-name-is-longer-than-one-word-of-32-bytes.near"),
        token_uri: String::from("ünïcödé ✓"),
    };
    assert!(event.can_encode());
    let bytes = event.to_log_entry_data();
    assert_eq!(EthLockedEvent::from_log_entry_data(&bytes), Ok(event));
}

#[test]
fn upper_case_addresses_come_back_in_lower_case() {
    let mut event = known_event();
    event.token = String::from("6B175474E89094C44DA98B954EEDEAC495271D0F");
    assert!(event.can_encode());
    let bytes = event.to_log_entry_data();
    assert_eq!(bytes, known_payload());
    assert_eq!(EthLockedEvent::from_log_entry_data(&bytes), Ok(known_event()));
}

#[test]
fn encodable_events_have_two_addresses() {
    assert!(known_event().can_encode());
    let mut event = known_event();
    event.token = String::from("6b175474e89094c44da98b954eedeac495271d");
    assert!(!event.can_encode());
    let mut event = known_event();
    event.sender = String::from("0x005474e89094c44da98b954eedeac495271d0f");
    assert!(!event.can_encode());
    let mut event = known_event();
    event.sender = String::new();
    assert!(!event.can_encode());
}

#[test]
fn data_tokens_are_the_three_texts() {
    assert_eq!(
        known_event().data_tokens(),
        vec![
            Token::String(String::from("42")),
            Token::String(String::from("alice.near")),
            Token::String(String::from(URI)),
        ]
    );
}

#[test]
fn locked_event_needs_three_topics() {
    assert_eq!(EthLockedEvent::from_log_entry_data(&payload_with_two_topics()), Err(BridgeError::Decode));
    assert_eq!(EthLockedEvent::from_log_entry_data(&payload_with_four_topics()), Err(BridgeError::Decode));
}

#[test]
fn another_event_is_not_a_locked_event() {
    assert_eq!(
        EthLockedEvent::from_log_entry_data(&payload_of_another_event()),
        Err(BridgeError::SchemaMismatch)
    );
}

#[test]
fn malformed_payload_is_no_locked_event() {
    assert_eq!(EthLockedEvent::from_log_entry_data(&[]), Err(BridgeError::Decode));
    assert_eq!(EthLockedEvent::from_log_entry_data(&payload_with_cut_data()), Err(BridgeError::Decode));
    let mut payload = known_payload();
    payload.pop();
    assert_eq!(EthLockedEvent::from_log_entry_data(&payload), Err(BridgeError::Decode));
}

#[test]
fn default_proof_is_empty() {
    let proof = Proof::default();
    assert_eq!(proof.log_index, 0);
    assert_eq!(proof.receipt_index, 0);
    assert!(proof.log_entry_data.is_empty());
    assert!(proof.receipt_data.is_empty());
    assert!(proof.header_data.is_empty());
    assert!(proof.proof.is_empty());
}

#[test]
fn proof_is_copied_field_by_field() {
    let proof = proof_of(known_payload());
    let copy = proof.clone();
    assert_eq!(copy, proof);
    assert_eq!(copy.proof, vec![vec![6], vec![], vec![7, 8]]);
    assert_eq!(Proof::default().clone(), Proof::default());
}

#[test]
fn request_carries_the_proof_unchanged() {
    let proof = proof_of(known_payload());
    for skip in [false, true] {
        let (request, _) = proof.clone().request_verification(skip);
        assert_eq!(request.log_index, 3);
        assert_eq!(request.log_entry_data, known_payload());
        assert_eq!(request.receipt_index, 5);
        assert_eq!(request.receipt_data, vec![1, 2, 3]);
        assert_eq!(request.header_data, vec![4, 5]);
        assert_eq!(request.proof, vec![vec![6], vec![], vec![7, 8]]);
        assert_eq!(request.skip_bridge_call, skip);
    }
}

#[test]
fn attested_proof_releases_its_log_entry() {
    let (_, pending) = proof_of(known_payload()).request_verification(false);
    assert_eq!(pending.resolve(ProverReply::Attested), Ok(known_payload()));
    let (_, pending) = proof_of(vec![]).request_verification(false);
    assert_eq!(pending.resolve(ProverReply::Attested), Ok(vec![]));
}

#[test]
fn unverified_proof_releases_nothing() {
    let (_, pending) = proof_of(known_payload()).request_verification(false);
    assert_eq!(pending.resolve(ProverReply::Denied), Err(BridgeError::VerificationFailed));
    let (_, pending) = proof_of(known_payload()).request_verification(true);
    assert_eq!(pending.resolve(ProverReply::Unresolved), Err(BridgeError::VerificationFailed));
}

#[test]
fn locked_event_is_decoded_after_attestation_only() {
    let (_, pending) = proof_of(known_payload()).request_verification(false);
    assert_eq!(pending.locked_event(ProverReply::Attested), Ok(known_event()));
    let (_, pending) = proof_of(known_payload()).request_verification(false);
    assert_eq!(pending.locked_event(ProverReply::Denied), Err(BridgeError::VerificationFailed));
    let (_, pending) = proof_of(known_payload()).request_verification(false);
    assert_eq!(pending.locked_event(ProverReply::Unresolved), Err(BridgeError::VerificationFailed));
}

#[test]
fn attested_proof_of_another_event_is_still_rejected() {
    let (_, pending) = proof_of(payload_of_another_event()).request_verification(false);
    assert_eq!(pending.locked_event(ProverReply::Attested), Err(BridgeError::SchemaMismatch));
    let (_, pending) = proof_of(vec![0xc0]).request_verification(false);
    assert_eq!(pending.locked_event(ProverReply::Attested), Err(BridgeError::Decode));
    let (_, pending) = proof_of(vec![0xc0]).request_verification(false);
    assert_eq!(pending.locked_event(ProverReply::Denied), Err(BridgeError::VerificationFailed));
}
