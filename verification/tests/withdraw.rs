use bridge_event_codec::error::BridgeError;
use bridge_event_codec::withdraw::{
    authorize_withdraw, contains_account, is_paused, FinishWithdraw, TokenOwnership, PAUSE_WITHDRAW,
};

fn record() -> TokenOwnership {
    TokenOwnership {
        owner_id: String::from("nft.near"),
        approved_account_ids: vec![String::from("alice.near"), String::from("carol.near")],
    }
}

#[test]
fn missing_token_is_not_found() {
    let decision =
        authorize_withdraw(None, &String::from("nft.near"), String::from("0"), String::from("r"));
    assert_eq!(decision, Err(BridgeError::NotFound));
}

#[test]
fn owner_may_withdraw() {
    let token = record();
    let decision = authorize_withdraw(
        Some(&token),
        &String::from("nft.near"),
        String::from("42"),
        String::from("6b175474e89094c44da98b954eedeac495271d0f"),
    );
    assert_eq!(
        decision,
        Ok(FinishWithdraw {
            token_id: String::from("42"),
            recipient: String::from("6b175474e89094c44da98b954eedeac495271d0f"),
        })
    );
}

#[test]
fn approved_account_may_withdraw() {
    let token = record();
    for caller in ["alice.near", "carol.near"] {
        let decision = authorize_withdraw(
            Some(&token),
            &String::from(caller),
            String::from("7"),
            String::from("x"),
        );
        assert_eq!(
            decision,
            Ok(FinishWithdraw { token_id: String::from("7"), recipient: String::from("x") })
        );
    }
}

#[test]
fn stranger_is_unauthorized() {
    let token = record();
    for caller in ["bob.near", "", "nft.nea", "alice.near "] {
        let decision = authorize_withdraw(
            Some(&token),
            &String::from(caller),
            String::from("0"),
            String::from("r"),
        );
        assert_eq!(decision, Err(BridgeError::Unauthorized), "{}", caller);
    }
}

#[test]
fn token_without_approvals_belongs_to_its_owner_alone() {
    let token = TokenOwnership { owner_id: String::from("nft.near"), approved_account_ids: vec![] };
    assert!(authorize_withdraw(Some(&token), &String::from("nft.near"), String::new(), String::new()).is_ok());
    assert_eq!(
        authorize_withdraw(Some(&token), &String::from("alice.near"), String::new(), String::new()),
        Err(BridgeError::Unauthorized)
    );
}

#[test]
fn account_lookup() {
    let accounts = vec![String::from("a"), String::from("b")];
    assert!(contains_account(&accounts, &String::from("a")));
    assert!(contains_account(&accounts, &String::from("b")));
    assert!(!contains_account(&accounts, &String::from("c")));
    assert!(!contains_account(&Vec::new(), &String::from("a")));
}

#[test]
fn pause_flag_holds_everyone_but_the_contract() {
    assert_eq!(PAUSE_WITHDRAW, 1);
    assert!(!is_paused(0, PAUSE_WITHDRAW, false));
    assert!(!is_paused(0, PAUSE_WITHDRAW, true));
    assert!(is_paused(1, PAUSE_WITHDRAW, false));
    assert!(!is_paused(1, PAUSE_WITHDRAW, true));
    assert!(!is_paused(2, PAUSE_WITHDRAW, false));
    assert!(is_paused(3, PAUSE_WITHDRAW, false));
    assert!(is_paused(u128::MAX, 1 << 100, false));
    assert!(!is_paused(1 << 99, 1 << 100, false));
}
