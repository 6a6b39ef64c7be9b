use notecli::credentials::get_credentials;
use notecli::error::NoteDeckError;
use notecli::keychain::{delete_token, get_token, store_token};
use notecli::models::Account;

fn account(token: &str) -> Account {
    Account {
        id: "acc-1".into(),
        host: "misskey.io".into(),
        token: token.into(),
        user_id: "user-1".into(),
        username: "alice".into(),
        display_name: None,
        avatar_url: None,
        software: "misskey".into(),
    }
}

#[test]
fn tokens_need_a_store() {
    assert!(matches!(
        store_token("acc-1", "t"),
        Err(NoteDeckError::Keychain(_))
    ));
    assert!(matches!(
        get_token("acc-1"),
        Err(NoteDeckError::Keychain(_))
    ));
    assert!(matches!(
        delete_token("acc-1"),
        Err(NoteDeckError::Keychain(_))
    ));
}

#[test]
fn credentials_without_a_keychain_come_from_the_database() {
    let c = get_credentials(Some(account("db-token")), "acc-1").unwrap();
    assert_eq!(c.token, "db-token");
    assert!(!c.clear_stored_token);
    let none = get_credentials(Some(account("")), "acc-1").unwrap_err();
    assert_eq!(none.message(), "No token found for account acc-1");
    let missing = get_credentials(None, "acc-1").unwrap_err();
    assert_eq!(missing.message(), "Account not found: acc-1");
}
