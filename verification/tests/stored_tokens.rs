use notecli::keychain::{delete_token, get_token, store_token};

#[test]
fn tokens_are_stored_read_and_deleted() {
    keyring_core::set_default_store(keyring_core::mock::Store::new().unwrap());
    assert_eq!(get_token("acc-7").unwrap(), None);
    store_token("acc-7", "secret").unwrap();
    let entry = keyring_core::Entry::new("notedeck", "acc-7").unwrap();
    assert_eq!(entry.get_password().unwrap(), "secret");
    assert_eq!(get_token("acc-7").unwrap(), Some("secret".to_string()));
    assert_eq!(get_token("acc-8").unwrap(), None);
    delete_token("acc-7").unwrap();
    assert_eq!(get_token("acc-7").unwrap(), None);
    delete_token("acc-7").unwrap();
}
