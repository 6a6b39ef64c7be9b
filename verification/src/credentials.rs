//! Which token is used for an account, and where it is kept.
use vstd::prelude::*;

use zeroize::Zeroize;

use crate::error::NoteDeckError;
use crate::keychain;
use crate::keychain::Deposit;
use crate::models::Account;

verus! {

/// The server and the token of an account. `from_keychain` tells where the
/// token was found, `clear_stored_token` that the token in the database is no
/// longer needed, and is to be emptied.
#[derive(Debug, PartialEq)]
pub struct Credentials {
    pub host: String,
    pub token: String,
    pub from_keychain: bool,
    pub clear_stored_token: bool,
}

/// What is to be done for an account.
#[derive(Debug)]
pub enum CredentialChoice {
    /// Use these.
    Use(Credentials),
    /// Use the token of the database, and try to store it in the keychain.
    Migrate { host: String, deposit: Deposit },
    /// There are none.
    Fail(NoteDeckError),
}

/// `zeroize::Zeroize::zeroize` on a `String`: it overwrites the bytes and
/// leaves the empty text. That the bytes are overwritten is not claimed.
#[verifier::external_body]
fn wipe(s: &mut String)
    ensures
        final(s)@ == Seq::<char>::empty(),
{
    s.zeroize();
}

/// What is chosen for an account, given what the database and the keychain hold
/// of it, and whether the keychain outlives the machine being started anew.
pub open spec fn chosen(
    account: Option<Account>,
    account_id: Seq<char>,
    keychain_token: Option<String>,
    persistent: bool,
    r: CredentialChoice,
) -> bool {
    match account {
        None => r matches CredentialChoice::Fail(NoteDeckError::AccountNotFound(id)) && id@
            == account_id,
        Some(a) => match keychain_token {
            Some(token) => r matches CredentialChoice::Use(c) && c.host@ == a.host@ && c.token@
                == token@ && c.from_keychain && c.clear_stored_token == (persistent
                && a.token@.len() > 0),
            None => if a.token@.len() > 0 {
                r matches CredentialChoice::Migrate { host, deposit } && host@ == a.host@
                    && keychain::is_deposit_of(deposit, account_id, a.token@)
            } else {
                r matches CredentialChoice::Fail(NoteDeckError::Auth(m)) && m@
                    == "No token found for account "@ + account_id
            },
        },
    }
}

/// Chooses what is done for an account. A token of the keychain comes first;
/// one of the database is the second choice.
pub fn choose_credentials(
    account: Option<Account>,
    account_id: &str,
    keychain_token: Option<String>,
    persistent: bool,
) -> (r: CredentialChoice)
    ensures
        chosen(account, account_id@, keychain_token, persistent, r),
{
    let account = match account {
        Some(a) => a,
        None => {
            return CredentialChoice::Fail(NoteDeckError::AccountNotFound(account_id.to_owned()));
        },
    };
    match keychain_token {
        Some(token) => {
            let clear = persistent && !account.token.as_str().is_empty();
            CredentialChoice::Use(
                Credentials {
                    host: account.host,
                    token,
                    from_keychain: true,
                    clear_stored_token: clear,
                },
            )
        },
        None => {
            if account.token.as_str().is_empty() {
                let mut why = "No token found for account ".to_owned();
                why.append(account_id);
                CredentialChoice::Fail(NoteDeckError::Auth(why))
            } else {
                let deposit = keychain::deposit(account_id, account.token.as_str());
                CredentialChoice::Migrate { host: account.host, deposit }
            }
        },
    }
}

/// When the token in the database is no longer needed, once it was tried to
/// store it in the keychain: it was stored, it could be read back, and the
/// keychain outlives the machine being started anew.
pub open spec fn clearable(stored: bool, read_back: bool, persistent: bool) -> bool {
    stored && read_back && persistent
}

/// Whether the token in the database is no longer needed, once it was tried to
/// store it in the keychain.
pub fn may_clear(stored: bool, read_back: bool, persistent: bool) -> (r: bool)
    ensures
        r == clearable(stored, read_back, persistent),
{
    stored && read_back && persistent
}

/// Whether `r` is what an account gets whose token only the database had: that
/// token, whatever became of the attempt to store it in the keychain.
pub open spec fn is_migrated(
    r: Credentials,
    host: Seq<char>,
    token: Seq<char>,
    stored: bool,
    read_back: bool,
    persistent: bool,
) -> bool {
    &&& r.host@ == host
    &&& r.token@ == token
    &&& !r.from_keychain
    &&& r.clear_stored_token == clearable(stored, read_back, persistent)
}

/// The credentials of an account whose token only the database had, once it
/// was tried to store that token in the keychain. The token that comes in is
/// wiped.
pub fn migrated(
    host: String,
    token: String,
    stored: bool,
    read_back: bool,
    persistent: bool,
) -> (r: Credentials)
    ensures
        is_migrated(r, host@, token@, stored, read_back, persistent),
{
    let mut db_token = token;
    let kept = db_token.clone();
    wipe(&mut db_token);
    Credentials {
        host,
        token: kept,
        from_keychain: false,
        clear_stored_token: may_clear(stored, read_back, persistent),
    }
}

/// The credentials of an account, given what the database holds of it. The
/// keychain is asked first, and an error of it is ignored; a token that only
/// the database has is stored in the keychain as well.
pub fn get_credentials(account: Option<Account>, account_id: &str) -> (r: Result<
    Credentials,
    NoteDeckError,
>)
    ensures
        match account {
            None => r matches Err(NoteDeckError::AccountNotFound(id)) && id@ == account_id@,
            Some(a) => {
                &&& r matches Ok(c) ==> c.host@ == a.host@
                &&& r matches Ok(c) ==> !c.from_keychain ==> c.token@ == a.token@
                    && a.token@.len() > 0
                &&& r matches Ok(c) ==> c.clear_stored_token ==> a.token@.len() > 0
                &&& a.token@.len() > 0 ==> r is Ok
                &&& r matches Err(e) ==> (e matches NoteDeckError::Auth(m) && m@
                    == "No token found for account "@ + account_id@)
            },
        },
{
    let keychain_token = match keychain::get_token(account_id) {
        Ok(t) => t,
        Err(_) => None,
    };
    let persistent = keychain::is_persistent();
    match choose_credentials(account, account_id, keychain_token, persistent) {
        CredentialChoice::Use(c) => Ok(c),
        CredentialChoice::Fail(e) => Err(e),
        CredentialChoice::Migrate { host, deposit } => {
            let stored = keychain::put(&deposit).is_ok();
            let read_back = stored && match keychain::get_token(account_id) {
                Ok(t) => t.is_some(),
                Err(_) => false,
            };
            Ok(migrated(host, deposit.token, stored, read_back, persistent))
        },
    }
}

/// A token of the keychain wins, whatever the database holds. Where the
/// keychain has none, the token of the database is what is stored in it under
/// the account, and it is what comes back, whether or not that succeeded.
pub proof fn law_keychain_first_then_database(
    a: Account,
    account_id: Seq<char>,
    keychain_token: Option<String>,
    persistent: bool,
    choice: CredentialChoice,
    stored: bool,
    read_back: bool,
    r: Credentials,
)
    requires
        chosen(Some(a), account_id, keychain_token, persistent, choice),
        choice matches CredentialChoice::Use(c) ==> r == c,
        choice matches CredentialChoice::Migrate { host, deposit } ==> is_migrated(
            r,
            host@,
            deposit.token@,
            stored,
            read_back,
            persistent,
        ),
    ensures
        keychain_token matches Some(t) ==> choice is Use && r.host@ == a.host@ && r.token@ == t@,
        keychain_token is None && a.token@.len() > 0 ==> r.host@ == a.host@ && r.token@ == a.token@,
        choice matches CredentialChoice::Migrate { deposit, .. } ==> keychain::is_deposit_of(
            deposit,
            account_id,
            a.token@,
        ),
{
}

/// While the keychain does not outlive the machine being started anew, the
/// token in the database is never given up: neither where the keychain has a
/// token, nor after one was stored in it.
pub proof fn law_stored_token_outlives_the_keychain(
    account: Option<Account>,
    account_id: Seq<char>,
    keychain_token: Option<String>,
    r: CredentialChoice,
    stored: bool,
    read_back: bool,
)
    requires
        chosen(account, account_id, keychain_token, false, r),
    ensures
        r matches CredentialChoice::Use(c) ==> !c.clear_stored_token,
        !clearable(stored, read_back, false),
{
}

/// An account that has a token anywhere gets credentials, and an account
/// without one gets none.
pub proof fn law_a_token_is_found_where_there_is_one(
    a: Account,
    account_id: Seq<char>,
    keychain_token: Option<String>,
    persistent: bool,
    r: CredentialChoice,
)
    requires
        chosen(Some(a), account_id, keychain_token, persistent, r),
    ensures
        r is Fail <==> keychain_token is None && a.token@.len() == 0,
{
}

/// What is chosen says so: a token of the keychain is used as one of the keychain,
/// and the one in the database is given up only where the keychain keeps its own;
/// an account that is not there and an account without a token are told by their
/// ids.
pub proof fn law_choice_tells_where_the_token_is(
    account: Option<Account>,
    account_id: Seq<char>,
    keychain_token: Option<String>,
    persistent: bool,
    r: CredentialChoice,
)
    requires
        chosen(account, account_id, keychain_token, persistent, r),
    ensures
        account is None ==> (r matches CredentialChoice::Fail(NoteDeckError::AccountNotFound(id)) && id@
            == account_id),
        account matches Some(a) ==> (keychain_token is None && a.token@.len() == 0 ==> (r matches CredentialChoice::Fail(
            NoteDeckError::Auth(m),
        ) && m@ == "No token found for account "@ + account_id)),
        r matches CredentialChoice::Use(c) ==> c.from_keychain && (account matches Some(a)
            && c.clear_stored_token == (persistent && a.token@.len() > 0)),
        r matches CredentialChoice::Migrate { deposit, .. } ==> deposit.name.service@
            == keychain::SERVICE@ && deposit.name.account@ == account_id,
{
}

/// The token in the database is given up after a migration exactly where it was
/// stored, could be read back, and stays; what comes back is the token itself in
/// any case.
pub proof fn law_migration_gives_up_nothing_unsafe(
    r: Credentials,
    host: Seq<char>,
    token: Seq<char>,
    stored: bool,
    read_back: bool,
    persistent: bool,
)
    requires
        is_migrated(r, host, token, stored, read_back, persistent),
    ensures
        r.clear_stored_token <==> stored && read_back && persistent,
        r.token@ == token,
        r.host@ == host,
        !r.from_keychain,
{
}

} // verus!
