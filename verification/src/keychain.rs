//! The tokens in the credential store of the system.
use vstd::prelude::*;

use std::sync::Arc;

use crate::error::NoteDeckError;

verus! {

/// The service under which tokens are kept.
pub const SERVICE: &'static str = "notedeck";

/// An entry of a credential store.
#[verifier::external_type_specification]
#[verifier::external_body]
pub struct ExEntry(keyring_core::Entry);

/// The credential store of the kernel.
#[verifier::external_type_specification]
#[verifier::external_body]
pub struct ExStore(linux_keyutils_keyring_store::Store);

/// The name under which the token of an account is kept.
#[derive(Debug, PartialEq)]
pub struct EntryName {
    pub service: String,
    pub account: String,
}

/// A token that is to be kept, and the name under which it is.
#[derive(Debug, PartialEq)]
pub struct Deposit {
    pub name: EntryName,
    pub token: String,
}

/// Whether a name is that of the token of an account.
pub open spec fn is_name_of(name: EntryName, account_id: Seq<char>) -> bool {
    name.service@ == SERVICE@ && name.account@ == account_id
}

/// Whether what is to be kept is that token of that account.
pub open spec fn is_deposit_of(d: Deposit, account_id: Seq<char>, token: Seq<char>) -> bool {
    is_name_of(d.name, account_id) && d.token@ == token
}

/// How long a credential store keeps what it holds.
#[derive(Debug, Clone, Copy, PartialEq, Eq, Structural)]
pub enum Persistence {
    EntryOnly,
    ProcessOnly,
    UntilLogout,
    UntilReboot,
    UntilDelete,
    Unspecified,
}

/// What a credential store answers when it is asked for a token.
#[derive(Debug, PartialEq)]
pub enum TokenReply {
    Found(String),
    Absent,
    Failed(String),
}

/// What a credential store answers when it is asked to delete a token.
#[derive(Debug, PartialEq)]
pub enum DeleteReply {
    Deleted,
    Absent,
    Failed(String),
}

/// `linux_keyutils_keyring_store::Store::new`, with the error as text. What
/// comes back depends on the machine: nothing is claimed of it.
#[verifier::external_body]
fn open_store() -> (r: Result<Arc<linux_keyutils_keyring_store::Store>, String>)
{
    linux_keyutils_keyring_store::Store::new().map_err(|e| e.to_string())
}

/// `keyring_core::set_default_store`: the store that entries are made in from
/// now on. It changes the state of the process and returns nothing.
#[verifier::external_body]
fn use_store(store: Arc<linux_keyutils_keyring_store::Store>)
{
    keyring_core::set_default_store(store);
}

/// `keyring_core::get_default_store`, and of the store its `persistence`,
/// variant by variant. It depends on the state of the process: nothing is
/// claimed of it.
#[verifier::external_body]
fn store_persistence() -> (r: Option<Persistence>)
{
    keyring_core::get_default_store().map(|store| match store.persistence() {
        keyring_core::CredentialPersistence::EntryOnly => Persistence::EntryOnly,
        keyring_core::CredentialPersistence::ProcessOnly => Persistence::ProcessOnly,
        keyring_core::CredentialPersistence::UntilLogout => Persistence::UntilLogout,
        keyring_core::CredentialPersistence::UntilReboot => Persistence::UntilReboot,
        keyring_core::CredentialPersistence::UntilDelete => Persistence::UntilDelete,
        _ => Persistence::Unspecified,
    })
}

/// `keyring_core::Entry::new`, with the error as text. What comes back depends
/// on the store that is in use: nothing is claimed of it.
#[verifier::external_body]
fn entry_for(name: &EntryName) -> (r: Result<keyring_core::Entry, String>)
{
    keyring_core::Entry::new(name.service.as_str(), name.account.as_str()).map_err(|e| e.to_string())
}

/// `keyring_core::Entry::set_password`, with the error as text. Whether the
/// store takes the token is up to the store: nothing is claimed of it.
#[verifier::external_body]
fn write_entry(entry: &keyring_core::Entry, deposit: &Deposit) -> (r: Result<(), String>)
{
    entry.set_password(deposit.token.as_str()).map_err(|e| e.to_string())
}

/// `keyring_core::Entry::get_password`: the token, that there is none, or the
/// error as text. What is stored is up to the store: nothing is claimed of it.
#[verifier::external_body]
fn read_entry(entry: &keyring_core::Entry) -> (r: TokenReply)
{
    match entry.get_password() {
        Ok(token) => TokenReply::Found(token),
        Err(keyring_core::Error::NoEntry) => TokenReply::Absent,
        Err(e) => TokenReply::Failed(e.to_string()),
    }
}

/// `keyring_core::Entry::delete_credential`: that it was deleted, that there
/// was none, or the error as text. Which of them is up to the store: nothing is
/// claimed of it.
#[verifier::external_body]
fn delete_entry(entry: &keyring_core::Entry) -> (r: DeleteReply)
{
    match entry.delete_credential() {
        Ok(()) => DeleteReply::Deleted,
        Err(keyring_core::Error::NoEntry) => DeleteReply::Absent,
        Err(e) => DeleteReply::Failed(e.to_string()),
    }
}

/// The name under which the token of an account is kept.
pub fn entry_name(account_id: &str) -> (r: EntryName)
    ensures
        r.service@ == SERVICE@,
        r.account@ == account_id@,
{
    EntryName { service: SERVICE.to_owned(), account: account_id.to_owned() }
}

/// The token of an account, made ready to be kept.
pub fn deposit(account_id: &str, token: &str) -> (r: Deposit)
    ensures
        r.name.service@ == SERVICE@,
        r.name.account@ == account_id@,
        r.token@ == token@,
{
    Deposit { name: entry_name(account_id), token: token.to_owned() }
}

/// The outcome of a request, given what the store answered: its error is one of
/// the keychain.
pub fn outcome<T>(answer: Result<T, String>) -> (r: Result<T, NoteDeckError>)
    ensures
        match answer {
            Ok(v) => r == Ok::<T, NoteDeckError>(v),
            Err(m) => r == Err::<T, NoteDeckError>(NoteDeckError::Keychain(m)),
        },
{
    match answer {
        Ok(v) => Ok(v),
        Err(m) => Err(NoteDeckError::Keychain(m)),
    }
}

/// The token that an answer of the store stands for.
pub open spec fn token_read(reply: TokenReply) -> Result<Option<String>, NoteDeckError> {
    match reply {
        TokenReply::Found(token) => Ok(Some(token)),
        TokenReply::Absent => Ok(None),
        TokenReply::Failed(m) => Err(NoteDeckError::Keychain(m)),
    }
}

/// The outcome of a deletion that an answer of the store stands for.
pub open spec fn deletion_read(reply: DeleteReply) -> Result<(), NoteDeckError> {
    match reply {
        DeleteReply::Deleted => Ok(()),
        DeleteReply::Absent => Ok(()),
        DeleteReply::Failed(m) => Err(NoteDeckError::Keychain(m)),
    }
}

/// Whether a store with that persistence keeps what it holds when the machine is
/// started anew.
pub open spec fn stays(persistence: Option<Persistence>) -> bool {
    persistence == Some(Persistence::UntilDelete)
}

/// The token, given what the store answered: that there is none is no error.
pub fn token_from(reply: TokenReply) -> (r: Result<Option<String>, NoteDeckError>)
    ensures
        r == token_read(reply),
{
    match reply {
        TokenReply::Found(token) => Ok(Some(token)),
        TokenReply::Absent => Ok(None),
        TokenReply::Failed(m) => Err(NoteDeckError::Keychain(m)),
    }
}

/// The outcome of a deletion, given what the store answered: that there was
/// nothing to delete is no error.
pub fn deletion_from(reply: DeleteReply) -> (r: Result<(), NoteDeckError>)
    ensures
        r == deletion_read(reply),
{
    match reply {
        DeleteReply::Deleted => Ok(()),
        DeleteReply::Absent => Ok(()),
        DeleteReply::Failed(m) => Err(NoteDeckError::Keychain(m)),
    }
}

/// Whether a store with that persistence keeps what it holds when the machine
/// is started anew. Where no store is in use it is taken not to.
pub fn outlives_reboot(persistence: Option<Persistence>) -> (r: bool)
    ensures
        r == stays(persistence),
{
    match persistence {
        Some(p) => p == Persistence::UntilDelete,
        None => false,
    }
}

/// Makes ready the credential store of the system. To be called once, before
/// any token is stored or asked for.
pub fn init_store() -> (r: Result<(), NoteDeckError>)
    ensures
        r matches Err(e) ==> e is Keychain,
{
    match outcome(open_store()) {
        Ok(store) => {
            use_store(store);
            Ok(())
        },
        Err(e) => Err(e),
    }
}

/// Whether what the credential store holds outlives the machine being started
/// anew. While it does not, a token that is also kept elsewhere must stay there.
pub fn is_persistent() -> (r: bool) {
    outlives_reboot(store_persistence())
}

/// Puts a token into the store, under its name.
pub fn put(deposit: &Deposit) -> (r: Result<(), NoteDeckError>)
    ensures
        r matches Err(e) ==> e is Keychain,
{
    match outcome(entry_for(&deposit.name)) {
        Ok(entry) => outcome(write_entry(&entry, deposit)),
        Err(e) => Err(e),
    }
}

/// Stores the token of an account.
pub fn store_token(account_id: &str, token: &str) -> (r: Result<(), NoteDeckError>)
    ensures
        r matches Err(e) ==> e is Keychain,
{
    put(&deposit(account_id, token))
}

/// The token of an account, where one is stored.
pub fn get_token(account_id: &str) -> (r: Result<Option<String>, NoteDeckError>)
    ensures
        r matches Err(e) ==> e is Keychain,
{
    match outcome(entry_for(&entry_name(account_id))) {
        Ok(entry) => token_from(read_entry(&entry)),
        Err(e) => Err(e),
    }
}

/// Deletes the token of an account, where one is stored.
pub fn delete_token(account_id: &str) -> (r: Result<(), NoteDeckError>)
    ensures
        r matches Err(e) ==> e is Keychain,
{
    match outcome(entry_for(&entry_name(account_id))) {
        Ok(entry) => deletion_from(delete_entry(&entry)),
        Err(e) => Err(e),
    }
}

/// A token that the store found is what comes back, that it found none is no
/// error, and what went wrong is told as an error of the keychain. To delete what
/// is not there is no error either.
pub proof fn law_store_answers_are_taken_as_they_are(token: String, why: String)
    ensures
        token_read(TokenReply::Found(token)) == Ok::<Option<String>, NoteDeckError>(Some(token)),
        token_read(TokenReply::Absent) == Ok::<Option<String>, NoteDeckError>(None),
        token_read(TokenReply::Failed(why)) matches Err(NoteDeckError::Keychain(m)) && m == why,
        deletion_read(DeleteReply::Deleted) is Ok,
        deletion_read(DeleteReply::Absent) is Ok,
        deletion_read(DeleteReply::Failed(why)) matches Err(NoteDeckError::Keychain(m)) && m == why,
{
}

/// Only a store that keeps what it holds until it is deleted outlives the machine
/// being started anew: neither one that keeps it until then, nor one of which
/// nothing is known, nor none at all.
pub proof fn law_only_lasting_stores_stay(p: Persistence)
    ensures
        stays(Some(p)) <==> p is UntilDelete,
        !stays(None),
{
}

/// A token is kept under the name of the program and the id of its account, so
/// that of two accounts neither takes the place of the other.
pub proof fn law_tokens_are_kept_apart(
    a: Deposit,
    b: Deposit,
    account_a: Seq<char>,
    account_b: Seq<char>,
    token_a: Seq<char>,
    token_b: Seq<char>,
)
    requires
        is_deposit_of(a, account_a, token_a),
        is_deposit_of(b, account_b, token_b),
    ensures
        a.token@ == token_a,
        a.name.service@ == "notedeck"@,
        a.name.service@ == b.name.service@,
        a.name.account@ == b.name.account@ <==> account_a == account_b,
{
}

} // verus!
