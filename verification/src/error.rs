//! The error type of the crate.
use vstd::prelude::*;

use crate::json;
use crate::json::{Json, JsonV};

verus! {

/// An error of the database engine.
#[verifier::external_type_specification]
#[verifier::external_body]
pub struct ExSqlError(rusqlite::Error);

/// An error of the HTTP client.
#[verifier::external_type_specification]
#[verifier::external_body]
pub struct ExHttpError(reqwest::Error);

/// An error of the JSON reader.
#[verifier::external_type_specification]
#[verifier::external_body]
pub struct ExJsonError(serde_json::Error);

/// What can go wrong. The first three variants carry the error of the crate
/// that failed; nothing in them is shown to a user.
#[derive(Debug)]
pub enum NoteDeckError {
    Database(rusqlite::Error),
    Network(reqwest::Error),
    Json(serde_json::Error),
    AccountNotFound(String),
    Api { endpoint: String, status: u16, message: String },
    Auth(String),
    WebSocket(String),
    NoConnection(String),
    ConnectionClosed,
    InvalidInput(String),
    Keychain(String),
}

impl NoteDeckError {
    /// The code that names the kind of an error.
    pub open spec fn spec_code(self) -> Seq<char> {
        match self {
            NoteDeckError::Database(_) => "DATABASE"@,
            NoteDeckError::Network(_) => "NETWORK"@,
            NoteDeckError::Json(_) => "JSON"@,
            NoteDeckError::AccountNotFound(_) => "ACCOUNT_NOT_FOUND"@,
            NoteDeckError::Api { .. } => "API"@,
            NoteDeckError::Auth(_) => "AUTH"@,
            NoteDeckError::WebSocket(_) => "WEBSOCKET"@,
            NoteDeckError::NoConnection(_) => "NO_CONNECTION"@,
            NoteDeckError::ConnectionClosed => "CONNECTION_CLOSED"@,
            NoteDeckError::InvalidInput(_) => "INVALID_INPUT"@,
            NoteDeckError::Keychain(_) => "KEYCHAIN"@,
        }
    }

    /// Whether the error carries details of the machinery below, which no
    /// user may see.
    pub open spec fn is_internal(self) -> bool {
        ||| self is Database
        ||| self is Network
        ||| self is Json
        ||| self is WebSocket
        ||| self is Keychain
    }

    /// The message that may be shown to a user.
    pub open spec fn spec_safe_message(self) -> Seq<char> {
        match self {
            NoteDeckError::Database(_) => "Database operation failed"@,
            NoteDeckError::Network(_) => "Network request failed"@,
            NoteDeckError::Json(_) => "Invalid response format"@,
            NoteDeckError::WebSocket(_) => "Connection error"@,
            NoteDeckError::Keychain(_) => "Credential storage error"@,
            NoteDeckError::Api { message, .. } => message@,
            NoteDeckError::Auth(msg) => msg@,
            NoteDeckError::AccountNotFound(id) => "Account not found: "@ + id@,
            NoteDeckError::NoConnection(id) => "No connection for account: "@ + id@,
            NoteDeckError::ConnectionClosed => "Connection closed"@,
            NoteDeckError::InvalidInput(msg) => "Invalid input: "@ + msg@,
        }
    }

    /// The message of the error itself.
    pub open spec fn spec_message(self) -> Seq<char> {
        match self {
            NoteDeckError::Database(_) => "Database error"@,
            NoteDeckError::Network(_) => "Network error"@,
            NoteDeckError::Json(_) => "JSON parse error"@,
            NoteDeckError::AccountNotFound(id) => "Account not found: "@ + id@,
            NoteDeckError::Api { message, .. } => message@,
            NoteDeckError::Auth(msg) => msg@,
            NoteDeckError::WebSocket(msg) => "WebSocket: "@ + msg@,
            NoteDeckError::NoConnection(id) => "No connection for account: "@ + id@,
            NoteDeckError::ConnectionClosed => "Connection closed"@,
            NoteDeckError::InvalidInput(msg) => "Invalid input: "@ + msg@,
            NoteDeckError::Keychain(msg) => "Keychain error: "@ + msg@,
        }
    }

    /// The JSON form of an error: its code and its safe message.
    pub open spec fn spec_json(self) -> JsonV {
        json::empty_object().with("code"@, JsonV::Str(self.spec_code())).with(
            "message"@,
            JsonV::Str(self.spec_safe_message()),
        )
    }

    /// The code that names the kind of this error.
    pub fn code(&self) -> (r: &'static str)
        ensures
            r@ == self.spec_code(),
    {
        match self {
            NoteDeckError::Database(_) => "DATABASE",
            NoteDeckError::Network(_) => "NETWORK",
            NoteDeckError::Json(_) => "JSON",
            NoteDeckError::AccountNotFound(_) => "ACCOUNT_NOT_FOUND",
            NoteDeckError::Api { .. } => "API",
            NoteDeckError::Auth(_) => "AUTH",
            NoteDeckError::WebSocket(_) => "WEBSOCKET",
            NoteDeckError::NoConnection(_) => "NO_CONNECTION",
            NoteDeckError::ConnectionClosed => "CONNECTION_CLOSED",
            NoteDeckError::InvalidInput(_) => "INVALID_INPUT",
            NoteDeckError::Keychain(_) => "KEYCHAIN",
        }
    }

    /// A message that may be shown to a user: what the machinery below
    /// reported is replaced by a general one.
    pub fn safe_message(&self) -> (r: String)
        ensures
            r@ == self.spec_safe_message(),
    {
        match self {
            NoteDeckError::Database(_) => "Database operation failed".to_owned(),
            NoteDeckError::Network(_) => "Network request failed".to_owned(),
            NoteDeckError::Json(_) => "Invalid response format".to_owned(),
            NoteDeckError::WebSocket(_) => "Connection error".to_owned(),
            NoteDeckError::Keychain(_) => "Credential storage error".to_owned(),
            NoteDeckError::Api { message, .. } => message.clone(),
            NoteDeckError::Auth(msg) => msg.clone(),
            NoteDeckError::AccountNotFound(id) => prefixed("Account not found: ", id.as_str()),
            NoteDeckError::NoConnection(id) => prefixed(
                "No connection for account: ",
                id.as_str(),
            ),
            NoteDeckError::ConnectionClosed => "Connection closed".to_owned(),
            NoteDeckError::InvalidInput(msg) => prefixed("Invalid input: ", msg.as_str()),
        }
    }

    /// The message of this error, with what it carries of its own.
    pub fn message(&self) -> (r: String)
        ensures
            r@ == self.spec_message(),
    {
        match self {
            NoteDeckError::Database(_) => "Database error".to_owned(),
            NoteDeckError::Network(_) => "Network error".to_owned(),
            NoteDeckError::Json(_) => "JSON parse error".to_owned(),
            NoteDeckError::AccountNotFound(id) => prefixed("Account not found: ", id.as_str()),
            NoteDeckError::Api { message, .. } => message.clone(),
            NoteDeckError::Auth(msg) => msg.clone(),
            NoteDeckError::WebSocket(msg) => prefixed("WebSocket: ", msg.as_str()),
            NoteDeckError::NoConnection(id) => prefixed(
                "No connection for account: ",
                id.as_str(),
            ),
            NoteDeckError::ConnectionClosed => "Connection closed".to_owned(),
            NoteDeckError::InvalidInput(msg) => prefixed("Invalid input: ", msg.as_str()),
            NoteDeckError::Keychain(msg) => prefixed("Keychain error: ", msg.as_str()),
        }
    }

    /// The JSON form of this error, for clients: `code` and `message` alone.
    pub fn serialize(&self) -> (r: Json)
        ensures
            r@ == self.spec_json(),
    {
        let mut o = Json::object();
        o.set_str("code", self.code());
        o.set_str("message", self.safe_message().as_str());
        o
    }
}

fn prefixed(head: &str, tail: &str) -> (r: String)
    ensures
        r@ == head@ + tail@,
{
    let mut s = head.to_owned();
    s.append(tail);
    s
}

/// Whether two errors are of one kind.
pub open spec fn same_kind(a: NoteDeckError, b: NoteDeckError) -> bool {
    &&& (a is Database) == (b is Database)
    &&& (a is Network) == (b is Network)
    &&& (a is Json) == (b is Json)
    &&& (a is AccountNotFound) == (b is AccountNotFound)
    &&& (a is Api) == (b is Api)
    &&& (a is Auth) == (b is Auth)
    &&& (a is WebSocket) == (b is WebSocket)
    &&& (a is NoConnection) == (b is NoConnection)
    &&& (a is ConnectionClosed) == (b is ConnectionClosed)
    &&& (a is InvalidInput) == (b is InvalidInput)
    &&& (a is Keychain) == (b is Keychain)
}

/// The code tells the kinds of errors apart.
pub proof fn law_code_names_the_kind(a: NoteDeckError, b: NoteDeckError)
    ensures
        a.spec_code() == b.spec_code() <==> same_kind(a, b),
{
    reveal_strlit("DATABASE");
    reveal_strlit("NETWORK");
    reveal_strlit("JSON");
    reveal_strlit("ACCOUNT_NOT_FOUND");
    reveal_strlit("API");
    reveal_strlit("AUTH");
    reveal_strlit("WEBSOCKET");
    reveal_strlit("NO_CONNECTION");
    reveal_strlit("CONNECTION_CLOSED");
    reveal_strlit("INVALID_INPUT");
    reveal_strlit("KEYCHAIN");
    if a.spec_code() == b.spec_code() {
        assert(a.spec_code().len() == b.spec_code().len());
        assert(a.spec_code()[0] == b.spec_code()[0]);
    }
}

/// What an internal error carries does not reach its message: two of one code
/// show the same to a user.
pub proof fn law_internals_do_not_leak(a: NoteDeckError, b: NoteDeckError)
    requires
        a.is_internal(),
        a.spec_code() == b.spec_code(),
    ensures
        a.spec_safe_message() == b.spec_safe_message(),
        a.spec_json() == b.spec_json(),
{
    law_code_names_the_kind(a, b);
}

/// The JSON form of an error holds its code and its safe message, and nothing
/// else.
pub proof fn law_json_holds_code_and_message_alone(e: NoteDeckError, key: Seq<char>)
    ensures
        e.spec_json().member("code"@) == Some(JsonV::Str(e.spec_code())),
        e.spec_json().member("message"@) == Some(JsonV::Str(e.spec_safe_message())),
        key != "code"@ && key != "message"@ ==> e.spec_json().member(key) is None,
{
    reveal_strlit("code");
    reveal_strlit("message");
    assert("code"@.len() != "message"@.len());
    let o = json::empty_object();
    let c = JsonV::Str(e.spec_code());
    let o1 = o.with("code"@, c);
    json::lemma_with_member(o, "code"@, c, key);
    json::lemma_with_member(o1, "message"@, JsonV::Str(e.spec_safe_message()), "code"@);
    json::lemma_with_member(o1, "message"@, JsonV::Str(e.spec_safe_message()), key);
}

/// Each kind of error has its code.
pub proof fn law_codes_are_those_of_the_kinds(e: NoteDeckError)
    ensures
        e is Database <==> e.spec_code() == "DATABASE"@,
        e is Network <==> e.spec_code() == "NETWORK"@,
        e is Json <==> e.spec_code() == "JSON"@,
        e is AccountNotFound <==> e.spec_code() == "ACCOUNT_NOT_FOUND"@,
        e is Api <==> e.spec_code() == "API"@,
        e is Auth <==> e.spec_code() == "AUTH"@,
        e is WebSocket <==> e.spec_code() == "WEBSOCKET"@,
        e is NoConnection <==> e.spec_code() == "NO_CONNECTION"@,
        e is ConnectionClosed <==> e.spec_code() == "CONNECTION_CLOSED"@,
        e is InvalidInput <==> e.spec_code() == "INVALID_INPUT"@,
        e is Keychain <==> e.spec_code() == "KEYCHAIN"@,
{
    reveal_strlit("DATABASE");
    reveal_strlit("NETWORK");
    reveal_strlit("JSON");
    reveal_strlit("ACCOUNT_NOT_FOUND");
    reveal_strlit("API");
    reveal_strlit("AUTH");
    reveal_strlit("WEBSOCKET");
    reveal_strlit("NO_CONNECTION");
    reveal_strlit("CONNECTION_CLOSED");
    reveal_strlit("INVALID_INPUT");
    reveal_strlit("KEYCHAIN");
    assert("DATABASE"@.len() == 8);
    assert("NETWORK"@.len() == 7);
    assert("JSON"@.len() == 4);
    assert("ACCOUNT_NOT_FOUND"@.len() == 17);
    assert("API"@.len() == 3);
    assert("AUTH"@.len() == 4);
    assert("WEBSOCKET"@.len() == 9);
    assert("NO_CONNECTION"@.len() == 13);
    assert("CONNECTION_CLOSED"@.len() == 17);
    assert("INVALID_INPUT"@.len() == 13);
    assert("KEYCHAIN"@.len() == 8);
    assert("DATABASE"@[0] != "KEYCHAIN"@[0]);
    assert("JSON"@[0] != "AUTH"@[0]);
    assert("ACCOUNT_NOT_FOUND"@[0] != "CONNECTION_CLOSED"@[0]);
    assert("NO_CONNECTION"@[0] != "INVALID_INPUT"@[0]);
}

/// What a user may see of an error: of what went wrong below, general words and
/// nothing that the error carries; of everything else what the error itself says.
pub proof fn law_users_see_what_they_may(e: NoteDeckError)
    ensures
        e is Database ==> e.spec_safe_message() == "Database operation failed"@,
        e is Network ==> e.spec_safe_message() == "Network request failed"@,
        e is Json ==> e.spec_safe_message() == "Invalid response format"@,
        e is WebSocket ==> e.spec_safe_message() == "Connection error"@,
        e is Keychain ==> e.spec_safe_message() == "Credential storage error"@,
        !(e is Database || e is Network || e is Json || e is WebSocket || e is Keychain)
            ==> e.spec_safe_message() == e.spec_message(),
        e matches NoteDeckError::Api { message, .. } ==> e.spec_message() == message@,
        e matches NoteDeckError::Auth(m) ==> e.spec_message() == m@,
        e matches NoteDeckError::AccountNotFound(id) ==> e.spec_message() == "Account not found: "@
            + id@,
        e matches NoteDeckError::NoConnection(id) ==> e.spec_message()
            == "No connection for account: "@ + id@,
        e is ConnectionClosed ==> e.spec_message() == "Connection closed"@,
        e matches NoteDeckError::InvalidInput(m) ==> e.spec_message() == "Invalid input: "@ + m@,
        e matches NoteDeckError::WebSocket(m) ==> e.spec_message() == "WebSocket: "@ + m@,
        e matches NoteDeckError::Keychain(m) ==> e.spec_message() == "Keychain error: "@ + m@,
        e is Database ==> e.spec_message() == "Database error"@,
        e is Network ==> e.spec_message() == "Network error"@,
        e is Json ==> e.spec_message() == "JSON parse error"@,
{
}

} // verus!
