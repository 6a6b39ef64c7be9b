//! Logging in and out, and the list of accounts.
use vstd::prelude::*;

use crate::api;
use crate::api::{ApiCall, MisskeyClient};
use crate::db;
use crate::db::{Database, SqlValueV, Statement, StatementV};
use crate::error::NoteDeckError;
use crate::format::OutputFormat;
use crate::ids;
use crate::json;
use crate::json::{Json, JsonV};
use crate::keychain;
use crate::keychain::Deposit;
use crate::models;
use crate::models::{Account, AuthResult};
use crate::text;
use crate::theme;
use crate::theme::{Span, Style};

verus! {

/// What the user is asked to permit.
pub const PERMISSIONS: &'static str =
    "read:account,write:account,read:blocks,write:blocks,read:drive,write:drive,read:favorites,write:favorites,read:following,write:following,read:messaging,write:messaging,read:mutes,write:mutes,read:notes,write:notes,read:notifications,write:notifications,read:reactions,write:reactions,write:votes";

/// The page on which the user permits access in a session.
pub open spec fn auth_page(host: Seq<char>, session_id: Seq<char>) -> Seq<char> {
    "https://"@ + host + "/miauth/"@ + session_id + "?name=notecli&permission="@ + PERMISSIONS@
}

/// The address of the page on which the user permits access in a session.
pub fn auth_url(host: &str, session_id: &str) -> (r: String)
    ensures
        r@ == auth_page(host@, session_id@),
{
    let mut url = "https://".to_owned();
    url.append(host);
    url.append("/miauth/");
    url.append(session_id);
    url.append("?name=notecli&permission=");
    url.append(PERMISSIONS);
    url
}

/// What is printed while the user is waited for.
pub open spec fn waiting_texts(host: Seq<char>, session_id: Seq<char>, fmt: OutputFormat) -> Seq<
    Seq<char>,
> {
    let url = auth_page(host, session_id);
    if fmt.is_json() {
        seq![
            "{\"authUrl\":\""@ + url + "\",\"sessionId\":\""@ + session_id
                + "\",\"status\":\"waiting\"}"@,
        ]
    } else {
        seq![
            "以下のURLをブラウザで開いて認証してください:"@,
            ""@,
            "  "@ + url,
            ""@,
            "認証が完了したらEnterを押してください..."@,
        ]
    }
}

/// Asks the user to permit access.
pub fn waiting_lines(host: &str, session_id: &str, fmt: OutputFormat) -> (r: Vec<String>)
    ensures
        text::texts(r@) == waiting_texts(host@, session_id@, fmt),
{
    let url = auth_url(host, session_id);
    let mut lines: Vec<String> = Vec::new();
    match fmt {
        OutputFormat::Json | OutputFormat::Jsonl => {
            let mut s = "{\"authUrl\":\"".to_owned();
            s.append(url.as_str());
            s.append("\",\"sessionId\":\"");
            s.append(session_id);
            s.append("\",\"status\":\"waiting\"}");
            lines.push(s);
        },
        _ => {
            let mut s = "  ".to_owned();
            s.append(url.as_str());
            lines.push("以下のURLをブラウザで開いて認証してください:".to_owned());
            lines.push("".to_owned());
            lines.push(s);
            lines.push("".to_owned());
            lines.push("認証が完了したらEnterを押してください...".to_owned());
        },
    }
    proof {
        assert(text::texts(lines@) =~= waiting_texts(host@, session_id@, fmt));
    }
    lines
}

/// Whether `a` is the account of a user who has logged in.
pub open spec fn is_account_of(a: Account, host: Seq<char>, auth: AuthResult) -> bool {
    &&& a.host@ == host
    &&& a.token == auth.token
    &&& a.user_id == auth.user.id
    &&& a.username == auth.user.username
    &&& a.display_name == auth.user.name
    &&& a.avatar_url == auth.user.avatar_url
    &&& a.software@ == "misskey"@
}

/// The account of a user who has logged in.
pub fn new_account(account_id: &str, host: &str, auth: &AuthResult) -> (r: Account)
    ensures
        r.id@ == account_id@,
        is_account_of(r, host@, *auth),
{
    Account {
        id: account_id.to_owned(),
        host: host.to_owned(),
        token: auth.token.clone(),
        user_id: auth.user.id.clone(),
        username: auth.user.username.clone(),
        display_name: models::copy_opt(&auth.user.name),
        avatar_url: models::copy_opt(&auth.user.avatar_url),
        software: "misskey".to_owned(),
    }
}

/// A login that has begun: what the user is told, and what the server is asked
/// once the user is done.
#[derive(Debug)]
pub struct Login {
    pub session_id: String,
    pub lines: Vec<String>,
    pub request: ApiCall,
}

/// Begins a login on a server, in a session of its own.
pub fn run_login(client: &MisskeyClient, host: &str, fmt: OutputFormat) -> (r: Login)
    ensures
        ids::is_random_uuid(r.session_id@),
        text::texts(r.lines@) == waiting_texts(host@, r.session_id@, fmt),
        r.request@ == client.call(
            host@,
            ""@,
            "miauth/"@ + r.session_id@ + "/check"@,
            api::params(),
        ),
{
    let session_id = ids::new_id();
    let lines = waiting_lines(host, session_id.as_str(), fmt);
    let request = client.complete_auth(host, session_id.as_str());
    Login { session_id, lines, request }
}

/// A login that has succeeded: the account, the statement that stores it, and
/// its token, made ready for the keychain.
#[derive(Debug)]
pub struct LoggedIn {
    pub account: Account,
    pub keep: Statement,
    pub deposit: Deposit,
}

/// Ends a login. The account gets an id of its own.
pub fn finish_login(host: &str, auth: &AuthResult) -> (r: LoggedIn)
    ensures
        ids::is_random_uuid(r.account.id@),
        is_account_of(r.account, host@, *auth),
        r.keep@ == (StatementV { sql: db::UPSERT_ACCOUNT@, params: db::account_row(r.account) }),
        keychain::is_deposit_of(r.deposit, r.account.id@, auth.token@),
{
    let account = new_account(ids::new_id().as_str(), host, auth);
    let keep = Database::upsert_account(&account);
    let deposit = keychain::deposit(account.id.as_str(), auth.token.as_str());
    LoggedIn { account, keep, deposit }
}

/// When the token in the database is no longer needed after a login.
pub open spec fn needless(stored: bool, persistent: bool) -> bool {
    stored && persistent
}

/// Whether the token in the database is no longer needed after a login: it was
/// stored in the keychain, and the keychain outlives the machine being started
/// anew.
pub fn login_clears_token(stored: bool, persistent: bool) -> (r: bool)
    ensures
        r == needless(stored, persistent),
{
    stored && persistent
}

/// The name under which an account is shown: the display name, or else the
/// name.
pub open spec fn account_name(a: Account) -> Seq<char> {
    match a.display_name {
        Some(n) => n@,
        None => a.username@,
    }
}

fn name_of(a: &Account) -> (r: &str)
    ensures
        r@ == account_name(*a),
{
    match &a.display_name {
        Some(n) => n.as_str(),
        None => a.username.as_str(),
    }
}

/// An account on one line, with tabs between the parts.
pub open spec fn compact_account(a: Account) -> Seq<char> {
    a.id@ + "\t@"@ + a.username@ + "@"@ + a.host@ + "\t"@ + account_name(a)
}

/// An account in words.
pub open spec fn described_account(a: Account) -> Seq<char> {
    "@"@ + a.username@ + "@"@ + a.host@ + " ("@ + a.id@ + ") "@ + account_name(a)
}

fn show_compact(a: &Account) -> (r: String)
    ensures
        r@ == compact_account(*a),
{
    let mut s = a.id.clone();
    s.append("\t@");
    s.append(a.username.as_str());
    s.append("@");
    s.append(a.host.as_str());
    s.append("\t");
    s.append(name_of(a));
    s
}

fn describe(a: &Account) -> (r: String)
    ensures
        r@ == described_account(*a),
{
    let mut s = "@".to_owned();
    s.append(a.username.as_str());
    s.append("@");
    s.append(a.host.as_str());
    s.append(" (");
    s.append(a.id.as_str());
    s.append(") ");
    s.append(name_of(a));
    s
}

/// What may be known of an account, as JSON: everything but its token.
pub open spec fn public_account(a: Account) -> JsonV {
    json::empty_object().with("id"@, JsonV::Str(a.id@)).with("host"@, JsonV::Str(a.host@)).with(
        "userId"@,
        JsonV::Str(a.user_id@),
    ).with("username"@, JsonV::Str(a.username@)).with(
        "displayName"@,
        text_or_null(text::opt_text(a.display_name)),
    ).with("avatarUrl"@, text_or_null(text::opt_text(a.avatar_url))).with(
        "software"@,
        JsonV::Str(a.software@),
    )
}

/// An optional text as a JSON value.
pub open spec fn text_or_null(o: Option<Seq<char>>) -> JsonV {
    match o {
        Some(s) => JsonV::Str(s),
        None => JsonV::Null,
    }
}

fn opt_json(o: &Option<String>) -> (r: Json)
    ensures
        r@ == text_or_null(text::opt_text(*o)),
{
    match o {
        Some(s) => Json::text(s.as_str()),
        None => Json::Null,
    }
}

/// What may be known of an account, as JSON.
pub fn public_json(a: &Account) -> (r: Json)
    ensures
        r@ == public_account(*a),
{
    let mut o = Json::object();
    o.set_str("id", a.id.as_str());
    o.set_str("host", a.host.as_str());
    o.set_str("userId", a.user_id.as_str());
    o.set_str("username", a.username.as_str());
    o.set("displayName", opt_json(&a.display_name));
    o.set("avatarUrl", opt_json(&a.avatar_url));
    o.set_str("software", a.software.as_str());
    o
}

/// What is said of an account.
pub open spec fn account_text(a: Account, fmt: OutputFormat) -> Seq<char> {
    if fmt.is_json() {
        json::rendered_json(public_account(a))
    } else if fmt is Ids {
        a.id@
    } else if fmt is Compact {
        compact_account(a)
    } else {
        described_account(a)
    }
}

/// What is said of the accounts, one after the other.
pub open spec fn account_texts(accounts: Seq<Account>, fmt: OutputFormat) -> Seq<Seq<char>> {
    Seq::new(accounts.len(), |i: int| account_text(accounts[i], fmt))
}

/// What is printed of the accounts.
pub open spec fn printed_accounts(accounts: Seq<Account>, fmt: OutputFormat) -> Seq<
    Seq<(Style, Seq<char>)>,
> {
    if fmt.is_json() {
        crate::format::json_lines(account_texts(accounts, fmt), fmt)
    } else if fmt is Default && accounts.len() == 0 {
        crate::format::plain_lines(
            seq!["No accounts found. Use 'notecli login <HOST>' to add one."@],
        )
    } else {
        crate::format::plain_lines(account_texts(accounts, fmt))
    }
}

fn say_account(a: &Account, fmt: OutputFormat) -> (r: String)
    ensures
        r@ == account_text(*a, fmt),
{
    match fmt {
        OutputFormat::Json | OutputFormat::Jsonl => public_json(a).render(),
        OutputFormat::Ids => a.id.clone(),
        OutputFormat::Compact => show_compact(a),
        OutputFormat::Default => describe(a),
    }
}

/// Lists the accounts.
pub fn run_accounts(accounts: &Vec<Account>, fmt: OutputFormat) -> (r: Vec<Vec<Span>>)
    ensures
        theme::lines_view(r@) == printed_accounts(accounts@, fmt),
{
    let mut said: Vec<String> = Vec::new();
    let ghost all = account_texts(accounts@, fmt);
    let mut i: usize = 0;
    while i < accounts.len()
        invariant
            0 <= i <= accounts@.len(),
            all == account_texts(accounts@, fmt),
            text::texts(said@) =~= all.take(i as int),
        decreases accounts@.len() - i,
    {
        let ghost before = text::texts(said@);
        let s = say_account(&accounts[i], fmt);
        said.push(s);
        proof {
            assert(text::texts(said@) =~= before.push(s@));
        }
        i += 1;
    }
    proof {
        assert(all.take(i as int) =~= all);
    }
    match fmt {
        OutputFormat::Json | OutputFormat::Jsonl => crate::format::print_json(&said, fmt),
        _ => {
            let ghost none = seq!["No accounts found. Use 'notecli login <HOST>' to add one."@];
            let is_default = match fmt {
                OutputFormat::Default => true,
                _ => false,
            };
            if is_default && accounts.len() == 0 {
                said.push("No accounts found. Use 'notecli login <HOST>' to add one.".to_owned());
                proof {
                    assert(text::texts(said@) =~= none);
                }
            }
            crate::format::show_plain(&said)
        },
    }
}

/// No token is printed: accounts that differ in their tokens alone are listed
/// alike, in every form.
pub proof fn law_no_token_is_listed(a: Seq<Account>, b: Seq<Account>, fmt: OutputFormat)
    requires
        a.len() == b.len(),
        forall|i: int|
            0 <= i < a.len() ==> (#[trigger] a[i]) == (Account { token: a[i].token, ..b[i] }),
    ensures
        printed_accounts(a, fmt) == printed_accounts(b, fmt),
        forall|i: int|
            0 <= i < a.len() ==> public_account(#[trigger] a[i]) == public_account(b[i]),
        forall|i: int|
            0 <= i < a.len() ==> login_text(#[trigger] a[i], fmt) == login_text(b[i], fmt),
{
    assert(account_texts(a, fmt) =~= account_texts(b, fmt));
}

/// What is printed after a login.
pub open spec fn login_text(account: Account, fmt: OutputFormat) -> Seq<char> {
    if fmt is Default {
        "Login successful: @"@ + account.username@ + "@"@ + account.host@
    } else {
        account_text(account, fmt)
    }
}

/// Says that a login has succeeded.
pub fn login_report(account: &Account, fmt: OutputFormat) -> (r: String)
    ensures
        r@ == login_text(*account, fmt),
{
    match fmt {
        OutputFormat::Default => {
            let mut s = "Login successful: @".to_owned();
            s.append(account.username.as_str());
            s.append("@");
            s.append(account.host.as_str());
            s
        },
        _ => say_account(account, fmt),
    }
}

/// What is printed after a logout.
pub open spec fn logout_text(account: Account, fmt: OutputFormat) -> Seq<char> {
    if fmt.is_json() {
        "{\"loggedOut\":\""@ + account.id@ + "\",\"username\":\""@ + account.username@
            + "\",\"host\":\""@ + account.host@ + "\"}"@
    } else if fmt is Ids {
        account.id@
    } else {
        "Logged out: @"@ + account.username@ + "@"@ + account.host@
    }
}

/// A logout: the account whose token is deleted from the keychain first, the
/// statement that then deletes the account, and what is printed once that is
/// done. That there is no such token, or that the keychain fails, does not
/// matter.
#[derive(Debug)]
pub struct Logout {
    pub token_of: String,
    pub forget: Statement,
    pub report: String,
}

/// Whether `r` logs an account out.
pub open spec fn logs_out(r: Logout, account: Account, fmt: OutputFormat) -> bool {
    &&& r.token_of@ == account.id@
    &&& r.forget@ == (StatementV {
        sql: db::DELETE_ACCOUNT@,
        params: seq![SqlValueV::Text(account.id@)],
    })
    &&& r.report@ == logout_text(account, fmt)
}

/// Logs an account out.
pub fn run_logout(account: &Account, fmt: OutputFormat) -> (r: Logout)
    ensures
        logs_out(r, *account, fmt),
{
    let mut json = "{\"loggedOut\":\"".to_owned();
    json.append(account.id.as_str());
    json.append("\",\"username\":\"");
    json.append(account.username.as_str());
    json.append("\",\"host\":\"");
    json.append(account.host.as_str());
    json.append("\"}");
    let mut words = "Logged out: @".to_owned();
    words.append(account.username.as_str());
    words.append("@");
    words.append(account.host.as_str());
    let report = crate::format::print_action(
        fmt,
        json.as_str(),
        account.id.as_str(),
        words.as_str(),
    ).to_owned();
    Logout {
        token_of: account.id.clone(),
        forget: Database::delete_account(account.id.as_str()),
        report,
    }
}

/// How an account is asked for.
pub enum AccountSpecV {
    /// The first one.
    First,
    /// By name and server: `@user@host`.
    ByHandle(Seq<char>, Seq<char>),
    /// By id, or else by name.
    ById(Seq<char>),
}

/// How a text asks for an account.
pub open spec fn account_spec(spec: Option<Seq<char>>) -> AccountSpecV {
    match spec {
        None => AccountSpecV::First,
        Some(s) => match text::without_first(s, '@') {
            Some(rest) => match text::split_first(rest, '@') {
                Some((user, host)) => AccountSpecV::ByHandle(user, host),
                None => AccountSpecV::ById(s),
            },
            None => AccountSpecV::ById(s),
        },
    }
}

/// Whether an account has a name, in letters of either case, and a server whose
/// name holds `host`.
pub open spec fn has_handle(a: Account, user: Seq<char>, host: Seq<char>) -> bool {
    text::same_ignoring_ascii_case(a.username@, user) && text::has_substring(a.host@, host)
}

/// Whether an account has a name, in letters of either case.
pub open spec fn has_name(a: Account, user: Seq<char>) -> bool {
    text::same_ignoring_ascii_case(a.username@, user)
}

/// The first account for which `fits` holds.
pub open spec fn first_fit(accounts: Seq<Account>, fits: spec_fn(Account) -> bool) -> Option<Account>
    decreases accounts.len(),
{
    if accounts.len() == 0 {
        None
    } else if fits(accounts[0]) {
        Some(accounts[0])
    } else {
        first_fit(accounts.drop_first(), fits)
    }
}

/// The account that is meant; `by_id` is the one whose id is the text itself.
pub open spec fn meant_account(
    accounts: Seq<Account>,
    by_id: Option<Account>,
    spec: Option<Seq<char>>,
) -> Option<Account> {
    if accounts.len() == 0 {
        None
    } else {
        match account_spec(spec) {
            AccountSpecV::First => Some(accounts[0]),
            AccountSpecV::ByHandle(user, host) => first_fit(
                accounts,
                handle_test(user, host),
            ),
            AccountSpecV::ById(s) => match by_id {
                Some(a) => Some(a),
                None => first_fit(accounts, name_test(s)),
            },
        }
    }
}

/// The test for a name and a server.
pub open spec fn handle_test(user: Seq<char>, host: Seq<char>) -> spec_fn(Account) -> bool {
    |a: Account| has_handle(a, user, host)
}

/// The test for a name.
pub open spec fn name_test(user: Seq<char>) -> spec_fn(Account) -> bool {
    |a: Account| has_name(a, user)
}

/// Whether an account is asked for by its id, or else by its name.
pub fn asks_by_id(spec: Option<&str>) -> (r: bool)
    ensures
        r == (account_spec(text::opt_str(spec)) is ById),
{
    match spec {
        Some(s) => match text::strip_first(s, '@') {
            Some(rest) => text::split_once(rest.as_str(), '@').is_none(),
            None => true,
        },
        None => false,
    }
}

/// Finds the account that is meant: the first one where nothing is said, by
/// `@user@host`, by id or by name. `by_id` is the account whose id is the text
/// itself, where there is one.
pub fn resolve_account(accounts: &Vec<Account>, by_id: Option<&Account>, spec: Option<&str>) -> (r:
    Result<Account, NoteDeckError>)
    ensures
        match r {
            Ok(a) => meant_account(
                accounts@,
                match by_id {
                    Some(x) => Some(*x),
                    None => None,
                },
                text::opt_str(spec),
            ) == Some(a),
            Err(NoteDeckError::AccountNotFound(m)) => meant_account(
                accounts@,
                match by_id {
                    Some(x) => Some(*x),
                    None => None,
                },
                text::opt_str(spec),
            ) is None && m@ == if accounts@.len() == 0 {
                "no accounts found. Use 'notecli login <HOST>' to add one"@
            } else {
                text::opt_str(spec)->0
            },
            Err(_) => false,
        },
{
    if accounts.len() == 0 {
        return Err(
            NoteDeckError::AccountNotFound(
                "no accounts found. Use 'notecli login <HOST>' to add one".to_owned(),
            ),
        );
    }
    let spec = match spec {
        Some(s) => s,
        None => {
            return Ok(accounts[0].copy());
        },
    };
    match text::strip_first(spec, '@') {
        Some(rest) => match text::split_once(rest.as_str(), '@') {
            Some((user, host)) => {
                return match find_by_handle(accounts, user.as_str(), host.as_str()) {
                    Some(a) => Ok(a),
                    None => Err(NoteDeckError::AccountNotFound(spec.to_owned())),
                };
            },
            None => {},
        },
        None => {},
    }
    match by_id {
        Some(a) => {
            return Ok(a.copy());
        },
        None => {},
    }
    match find_by_name(accounts, spec) {
        Some(a) => Ok(a),
        None => Err(NoteDeckError::AccountNotFound(spec.to_owned())),
    }
}

fn find_by_handle(accounts: &Vec<Account>, user: &str, host: &str) -> (r: Option<Account>)
    ensures
        r == first_fit(accounts@, handle_test(user@, host@)),
{
    let mut i: usize = 0;
    let ghost fits = handle_test(user@, host@);
    proof {
        assert(accounts@.skip(0) =~= accounts@);
    }
    while i < accounts.len()
        invariant
            0 <= i <= accounts@.len(),
            fits == handle_test(user@, host@),
            first_fit(accounts@, fits) == first_fit(accounts@.skip(i as int), fits),
        decreases accounts@.len() - i,
    {
        proof {
            assert(accounts@.skip(i as int)[0] == accounts@[i as int]);
            assert(accounts@.skip(i as int).drop_first() =~= accounts@.skip(i + 1));
        }
        if text::eq_ignore_ascii_case(accounts[i].username.as_str(), user) && text::contains(
            accounts[i].host.as_str(),
            host,
        ) {
            return Some(accounts[i].copy());
        }
        i += 1;
    }
    None
}

fn find_by_name(accounts: &Vec<Account>, user: &str) -> (r: Option<Account>)
    ensures
        r == first_fit(accounts@, name_test(user@)),
{
    let mut i: usize = 0;
    let ghost fits = name_test(user@);
    proof {
        assert(accounts@.skip(0) =~= accounts@);
    }
    while i < accounts.len()
        invariant
            0 <= i <= accounts@.len(),
            fits == name_test(user@),
            first_fit(accounts@, fits) == first_fit(accounts@.skip(i as int), fits),
        decreases accounts@.len() - i,
    {
        proof {
            assert(accounts@.skip(i as int)[0] == accounts@[i as int]);
            assert(accounts@.skip(i as int).drop_first() =~= accounts@.skip(i + 1));
        }
        if text::eq_ignore_ascii_case(accounts[i].username.as_str(), user) {
            return Some(accounts[i].copy());
        }
        i += 1;
    }
    None
}

/// An account that is found by name is one of those that there are.
pub proof fn law_found_account_is_listed(accounts: Seq<Account>, spec: Option<Seq<char>>)
    ensures
        meant_account(accounts, None, spec) matches Some(a) ==> accounts.contains(a),
        spec is None && accounts.len() > 0 ==> meant_account(accounts, None, spec) == Some(
            accounts[0],
        ),
{
    match account_spec(spec) {
        AccountSpecV::First => {},
        AccountSpecV::ByHandle(user, host) => lemma_first_fit(accounts, handle_test(user, host)),
        AccountSpecV::ById(s) => lemma_first_fit(accounts, name_test(s)),
    }
}

proof fn lemma_first_fit(accounts: Seq<Account>, fits: spec_fn(Account) -> bool)
    ensures
        first_fit(accounts, fits) matches Some(a) ==> accounts.contains(a) && fits(a),
    decreases accounts.len(),
{
    if accounts.len() > 0 && !fits(accounts[0]) {
        lemma_first_fit(accounts.drop_first(), fits);
        match first_fit(accounts.drop_first(), fits) {
            Some(a) => {
                let rest = accounts.drop_first();
                let k = choose|k: int| 0 <= k < rest.len() && rest[k] == a;
                assert(accounts[k + 1] == a);
            },
            None => {},
        }
    }
}

/// The user is sent to the page of the server for the session, which names the
/// program and what it wants to be permitted. The page stands in what is printed,
/// in every form, and so does the session in the JSON forms.
pub proof fn law_login_leads_to_the_page(host: Seq<char>, session_id: Seq<char>, fmt: OutputFormat)
    ensures
        auth_page(host, session_id) == "https://"@ + host + "/miauth/"@ + session_id
            + "?name=notecli&permission="@ + PERMISSIONS@,
        fmt is Json || fmt is Jsonl ==> waiting_texts(host, session_id, fmt) == seq![
            "{\"authUrl\":\""@ + auth_page(host, session_id) + "\",\"sessionId\":\""@ + session_id
                + "\",\"status\":\"waiting\"}"@,
        ],
        !(fmt is Json || fmt is Jsonl) ==> waiting_texts(host, session_id, fmt).len() == 5
            && waiting_texts(host, session_id, fmt)[2] == "  "@ + auth_page(host, session_id),
        PERMISSIONS@ == "read:account,write:account,read:blocks,write:blocks,read:drive,write:drive,read:favorites,write:favorites,read:following,write:following,read:messaging,write:messaging,read:mutes,write:mutes,read:notes,write:notes,read:notifications,write:notifications,read:reactions,write:reactions,write:votes"@,
{
}

/// An account that has logged in is that of the user whom the server named, with
/// the token that the server gave and the server that was asked.
pub proof fn law_account_is_that_of_the_user(a: Account, host: Seq<char>, auth: AuthResult)
    ensures
        is_account_of(a, host, auth) <==> {
            &&& a.host@ == host
            &&& a.token == auth.token
            &&& a.user_id == auth.user.id
            &&& a.username == auth.user.username
            &&& a.display_name == auth.user.name
            &&& a.avatar_url == auth.user.avatar_url
            &&& a.software@ == "misskey"@
        },
{
}

proof fn lemma_public_members_differ()
    ensures
        "id"@ != "host"@,
        "id"@ != "userId"@,
        "id"@ != "username"@,
        "id"@ != "displayName"@,
        "id"@ != "avatarUrl"@,
        "id"@ != "software"@,
        "id"@ != "token"@,
        "host"@ != "userId"@,
        "host"@ != "username"@,
        "host"@ != "displayName"@,
        "host"@ != "avatarUrl"@,
        "host"@ != "software"@,
        "host"@ != "token"@,
        "userId"@ != "username"@,
        "userId"@ != "displayName"@,
        "userId"@ != "avatarUrl"@,
        "userId"@ != "software"@,
        "userId"@ != "token"@,
        "username"@ != "displayName"@,
        "username"@ != "avatarUrl"@,
        "username"@ != "software"@,
        "username"@ != "token"@,
        "displayName"@ != "avatarUrl"@,
        "displayName"@ != "software"@,
        "displayName"@ != "token"@,
        "avatarUrl"@ != "software"@,
        "avatarUrl"@ != "token"@,
        "software"@ != "token"@,
{
    reveal_strlit("id");
    reveal_strlit("host");
    reveal_strlit("userId");
    reveal_strlit("username");
    reveal_strlit("displayName");
    reveal_strlit("avatarUrl");
    reveal_strlit("software");
    reveal_strlit("token");
    assert("id"@.len() == 2);
    assert("host"@.len() == 4);
    assert("userId"@.len() == 6);
    assert("username"@.len() == 8);
    assert("displayName"@.len() == 11);
    assert("avatarUrl"@.len() == 9);
    assert("software"@.len() == 8);
    assert("token"@.len() == 5);
    assert("username"@[0] != "software"@[0]);
}

/// What is told of an account as JSON: everything that is known of it but its
/// token, and nothing else.
pub proof fn law_account_is_told_without_its_token(a: Account, key: Seq<char>)
    ensures
        ({
            let j = public_account(a);
            &&& j.member("id"@) == Some(JsonV::Str(a.id@))
            &&& j.member("host"@) == Some(JsonV::Str(a.host@))
            &&& j.member("userId"@) == Some(JsonV::Str(a.user_id@))
            &&& j.member("username"@) == Some(JsonV::Str(a.username@))
            &&& j.member("displayName"@) == Some(
                match a.display_name {
                    Some(s) => JsonV::Str(s@),
                    None => JsonV::Null,
                },
            )
            &&& j.member("avatarUrl"@) == Some(
                match a.avatar_url {
                    Some(s) => JsonV::Str(s@),
                    None => JsonV::Null,
                },
            )
            &&& j.member("software"@) == Some(JsonV::Str(a.software@))
            &&& j.member("token"@) is None
            &&& key != "id"@ && key != "host"@ && key != "userId"@ && key != "username"@ && key
                != "displayName"@ && key != "avatarUrl"@ && key != "software"@ ==> j.member(key) is None
        }),
{
    broadcast use json::lemma_member_of_with;

    lemma_public_members_differ();
}

/// Each account is listed, in order: as JSON, by its id, on one line with tabs, or
/// in words; and that there is none is said in words.
pub proof fn law_every_account_is_listed(accounts: Seq<Account>, fmt: OutputFormat, i: int)
    requires
        0 <= i < accounts.len(),
    ensures
        ({
            let a = accounts[i];
            let name = match a.display_name {
                Some(n) => n@,
                None => a.username@,
            };
            let lines = printed_accounts(accounts, fmt);
            &&& fmt is Ids ==> lines.len() == accounts.len() && lines[i] == seq![
                (Style::Plain, a.id@),
            ]
            &&& fmt is Compact ==> lines.len() == accounts.len() && lines[i] == seq![
                (
                    Style::Plain,
                    a.id@ + "\t@"@ + a.username@ + "@"@ + a.host@ + "\t"@ + name,
                ),
            ]
            &&& fmt is Default ==> lines.len() == accounts.len() && lines[i] == seq![
                (
                    Style::Plain,
                    "@"@ + a.username@ + "@"@ + a.host@ + " ("@ + a.id@ + ") "@ + name,
                ),
            ]
            &&& fmt is Jsonl ==> lines.len() == accounts.len() && lines[i] == seq![
                (Style::Plain, json::rendered_json(public_account(a))),
            ]
            &&& fmt is Json ==> lines.len() == 1 && lines[0] == seq![
                (
                    Style::Plain,
                    "["@ + text::joined(account_texts(accounts, fmt), ","@) + "]"@,
                ),
            ] && account_texts(accounts, fmt).len() == accounts.len() && account_texts(
                accounts,
                fmt,
            )[i] == json::rendered_json(public_account(a))
        }),
        printed_accounts(Seq::<Account>::empty(), OutputFormat::Default).len() == 1,
{
}

/// After a login the account is told as it is listed, and in words that the login
/// succeeded; after a logout it is told which account that was.
pub proof fn law_login_and_logout_name_the_account(a: Account, fmt: OutputFormat)
    ensures
        fmt is Default ==> login_text(a, fmt) == "Login successful: @"@ + a.username@ + "@"@ + a.host@,
        fmt is Ids ==> login_text(a, fmt) == a.id@ && logout_text(a, fmt) == a.id@,
        fmt is Compact ==> login_text(a, fmt) == compact_account(a),
        fmt is Json || fmt is Jsonl ==> login_text(a, fmt) == json::rendered_json(public_account(a)),
        fmt is Json || fmt is Jsonl ==> logout_text(a, fmt) == "{\"loggedOut\":\""@ + a.id@
            + "\",\"username\":\""@ + a.username@ + "\",\"host\":\""@ + a.host@ + "\"}"@,
        fmt is Default || fmt is Compact ==> logout_text(a, fmt) == "Logged out: @"@ + a.username@
            + "@"@ + a.host@,
{
}

/// To log an account out forgets that account, and no other: its token in the
/// keychain and its row in the database go by its id.
pub proof fn law_logout_forgets_the_account(r: Logout, account: Account, fmt: OutputFormat)
    requires
        logs_out(r, account, fmt),
    ensures
        r.token_of@ == account.id@,
        r.forget@.sql == "DELETE FROM accounts WHERE id = ?1"@,
        r.forget@.params.len() == 1 && r.forget@.params[0] == SqlValueV::Text(account.id@),
        r.report@ == logout_text(account, fmt),
{
}

/// After a login the token stays in the database unless the keychain has it and
/// keeps it when the machine is started anew.
pub proof fn law_login_keeps_the_token_somewhere(stored: bool, persistent: bool)
    ensures
        !stored ==> !needless(stored, persistent),
        !persistent ==> !needless(stored, persistent),
        needless(true, true),
{
}

/// The first account that fits is meant: by `@user@host` one whose name is the
/// user, in letters of either case, and whose server holds the host; by anything
/// else the account with that id, or else one with that name.
pub proof fn law_account_is_meant_by_what_is_written(
    accounts: Seq<Account>,
    by_id: Option<Account>,
    user: Seq<char>,
    host: Seq<char>,
    name: Seq<char>,
    k: int,
)
    requires
        0 <= k < accounts.len(),
        !user.contains('@'),
        name.len() == 0 || name[0] != '@',
    ensures
        ({
            let spec = seq!['@'] + user + seq!['@'] + host;
            &&& text::same_ignoring_ascii_case(accounts[k].username@, user) && text::has_substring(
                accounts[k].host@,
                host,
            ) && (forall|j: int|
                0 <= j < k ==> !(text::same_ignoring_ascii_case(
                    (#[trigger] accounts[j]).username@,
                    user,
                ) && text::has_substring(accounts[j].host@, host))) ==> meant_account(
                accounts,
                by_id,
                Some(spec),
            ) == Some(accounts[k])
            &&& (forall|j: int|
                0 <= j < accounts.len() ==> !(text::same_ignoring_ascii_case(
                    (#[trigger] accounts[j]).username@,
                    user,
                ) && text::has_substring(accounts[j].host@, host))) ==> meant_account(
                accounts,
                by_id,
                Some(spec),
            ) is None
        }),
        by_id is Some ==> meant_account(accounts, by_id, Some(name)) == by_id,
        by_id is None && text::same_ignoring_ascii_case(accounts[k].username@, name) && (forall|j: int|
            0 <= j < k ==> !text::same_ignoring_ascii_case(
                (#[trigger] accounts[j]).username@,
                name,
            )) ==> meant_account(accounts, by_id, Some(name)) == Some(accounts[k]),
        meant_account(accounts, by_id, None) == Some(accounts[0]),
        meant_account(Seq::<Account>::empty(), by_id, Some(name)) is None,
{
    let spec = seq!['@'] + user + seq!['@'] + host;
    let rest = spec.skip(1);
    assert(rest =~= user + seq!['@'] + host);
    text::law_split_at_the_first(rest, '@');
    rest.index_of_first_ensures('@');
    assert(rest[user.len() as int] == '@');
    assert(rest.contains('@'));
    let at = rest.index_of_first('@')->0;
    if at < user.len() {
        assert(user[at] == '@');
    }
    assert(at == user.len());
    assert(rest.take(at) =~= user);
    assert(rest.skip(at + 1) =~= host);
    lemma_first_fit_at(accounts, handle_test(user, host), k);
    lemma_first_fit_at(accounts, name_test(name), k);
    lemma_first_fit(accounts, handle_test(user, host));
}

proof fn lemma_first_fit_at(accounts: Seq<Account>, fits: spec_fn(Account) -> bool, k: int)
    requires
        0 <= k < accounts.len(),
    ensures
        fits(accounts[k]) && (forall|j: int| 0 <= j < k ==> !fits(#[trigger] accounts[j]))
            ==> first_fit(accounts, fits) == Some(accounts[k]),
    decreases accounts.len(),
{
    if fits(accounts[k]) && (forall|j: int| 0 <= j < k ==> !fits(#[trigger] accounts[j])) && k > 0 {
        let rest = accounts.drop_first();
        assert(!fits(accounts[0]));
        assert(rest[k - 1] == accounts[k]);
        assert forall|j: int| 0 <= j < k - 1 implies !fits(#[trigger] rest[j]) by {
            assert(rest[j] == accounts[j + 1]);
        }
        lemma_first_fit_at(rest, fits, k - 1);
    }
}

} // verus!
