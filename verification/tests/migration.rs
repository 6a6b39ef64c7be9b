use notecli::credentials::get_credentials;
use notecli::keychain::{get_token, is_persistent};
use notecli::models::Account;

fn account(token: &str) -> Account {
    Account {
        id: "acc-1".into(),
        host: "misskey.io".into(),
        token: token.into(),
        user_id: "user-1".into(),
        username: "alice".into(),
        display_name: None,
        avatar_url: None,
        software: "misskey".into(),
    }
}

#[test]
fn credentials_migrate_but_stay_while_the_store_forgets() {
    keyring_core::set_default_store(keyring_core::mock::Store::new().unwrap());
    assert!(!is_persistent());
    let c = get_credentials(Some(account("db-token")), "acc-1").unwrap();
    assert_eq!(c.host, "misskey.io");
    assert_eq!(c.token, "db-token");
    assert!(!c.clear_stored_token);
    assert_eq!(get_token("acc-1").unwrap(), Some("db-token".to_string()));
    let again = get_credentials(Some(account("")), "acc-1").unwrap();
    assert_eq!(again.token, "db-token");
    assert!(!again.clear_stored_token);
}
