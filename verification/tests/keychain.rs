use notecli::credentials::{choose_credentials, may_clear, migrated, CredentialChoice};
use notecli::keychain::{
    deletion_from, deposit, entry_name, init_store, is_persistent, outlives_reboot, token_from,
    DeleteReply, Persistence, TokenReply,
};
use notecli::models::Account;

#[test]
fn is_persistent_is_false_on_linux() {
    assert!(
        !is_persistent(),
        "store 未設定時は安全側 (false) に倒すこと"
    );
    if init_store().is_ok() {
        assert!(!is_persistent(), "keyutils store は再起動非永続");
    }
}

fn account(token: &str) -> Account {
    Account {
        id: "acc-1".into(),
        host: "misskey.io".into(),
        token: token.into(),
        user_id: "user-1".into(),
        username: "alice".into(),
        display_name: None,
        avatar_url: None,
        software: "misskey".into(),
    }
}

#[test]
fn keychain_token_comes_first() {
    let choice = choose_credentials(
        Some(account("db-token")),
        "acc-1",
        Some("kc-token".to_string()),
        true,
    );
    match choice {
        CredentialChoice::Use(c) => {
            assert_eq!(c.token, "kc-token");
            assert!(c.from_keychain);
            assert!(c.clear_stored_token);
        }
        _ => panic!("a token was there"),
    }
    match choose_credentials(Some(account("")), "acc-1", Some("kc".to_string()), true) {
        CredentialChoice::Use(c) => assert!(!c.clear_stored_token),
        _ => panic!("a token was there"),
    }
    match choose_credentials(
        Some(account("db-token")),
        "acc-1",
        Some("kc".to_string()),
        false,
    ) {
        CredentialChoice::Use(c) => assert!(!c.clear_stored_token),
        _ => panic!("a token was there"),
    }
    match choose_credentials(Some(account("db-token")), "acc-1", None, true) {
        CredentialChoice::Migrate { host, deposit: d } => {
            assert_eq!(host, "misskey.io");
            assert_eq!(d, deposit("acc-1", "db-token"));
        }
        _ => panic!("the database had a token"),
    }
    assert!(may_clear(true, true, true));
    assert!(!may_clear(true, true, false));
    assert!(!may_clear(true, false, true));
    assert!(!may_clear(false, true, true));
}

#[test]
fn replies_of_the_store() {
    assert_eq!(
        token_from(TokenReply::Found("t".into())).unwrap(),
        Some("t".to_string())
    );
    assert_eq!(token_from(TokenReply::Absent).unwrap(), None);
    assert_eq!(
        token_from(TokenReply::Failed("x".into()))
            .unwrap_err()
            .message(),
        "Keychain error: x"
    );
    assert!(deletion_from(DeleteReply::Deleted).is_ok());
    assert!(deletion_from(DeleteReply::Absent).is_ok());
    assert!(deletion_from(DeleteReply::Failed("x".into())).is_err());
    assert!(outlives_reboot(Some(Persistence::UntilDelete)));
    assert!(!outlives_reboot(Some(Persistence::UntilReboot)));
    assert!(!outlives_reboot(None));
}

#[test]
fn tokens_are_kept_under_the_service_and_the_account() {
    let name = entry_name("acc-1");
    assert_eq!(name.service, "notedeck");
    assert_eq!(name.account, "acc-1");
    let d = deposit("acc-1", "secret");
    assert_eq!(d.name, name);
    assert_eq!(d.token, "secret");
}

#[test]
fn a_migrated_token_comes_back_whatever_became_of_it() {
    for stored in [true, false] {
        for read_back in [true, false] {
            for persistent in [true, false] {
                let c = migrated("h".into(), "t".into(), stored, read_back, persistent);
                assert_eq!(c.host, "h");
                assert_eq!(c.token, "t");
                assert!(!c.from_keychain);
                assert_eq!(c.clear_stored_token, stored && read_back && persistent);
            }
        }
    }
}
