//! Who may ask the local HTTP server for what.
use vstd::prelude::*;

use crate::ids;
use crate::text;

verus! {

/// The list of endpoints. It tells where the token is found, so it is open.
pub const ENDPOINTS_PATH: &'static str = "/api";

/// The list of accounts.
pub const ACCOUNTS_PATH: &'static str = "/api/accounts";

/// The paths that are answered without a token.
pub open spec fn is_open(path: Seq<char>) -> bool {
    path == ENDPOINTS_PATH@ || path == ACCOUNTS_PATH@
}

/// The `Authorization` header that carries a token.
pub open spec fn bearer(token: Seq<char>) -> Seq<char> {
    "Bearer "@ + token
}

/// Which requests are let in.
pub open spec fn let_in(path: Seq<char>, authorization: Option<Seq<char>>, token: Seq<char>) -> bool {
    is_open(path) || authorization == Some(bearer(token))
}

/// Whether a request for `path` is let in, given its `Authorization` header and
/// the token of this run of the server.
pub fn lets_in(path: &str, authorization: Option<&str>, token: &str) -> (r: bool)
    ensures
        r == let_in(path@, text::opt_str(authorization), token@),
{
    if text::same(path, ENDPOINTS_PATH) || text::same(path, ACCOUNTS_PATH) {
        return true;
    }
    match authorization {
        Some(a) => {
            let mut expected = "Bearer ".to_owned();
            expected.append(token);
            text::same(a, expected.as_str())
        },
        None => false,
    }
}

/// Draws the token of a run of the server.
pub fn new_token() -> (r: String)
    ensures
        ids::is_random_uuid(r@),
{
    ids::new_id()
}

/// Every path but the open ones takes the token of this run: without a header,
/// or with the token of another run, nothing is let in.
pub proof fn law_only_the_token_opens(path: Seq<char>, token: Seq<char>, other: Seq<char>)
    requires
        !is_open(path),
    ensures
        let_in(path, Some(bearer(token)), token),
        !let_in(path, None, token),
        let_in(path, Some(bearer(other)), token) <==> other == token,
{
    if bearer(other) == bearer(token) {
        assert(bearer(other).skip("Bearer "@.len() as int) =~= other);
        assert(bearer(token).skip("Bearer "@.len() as int) =~= token);
    }
}

/// Two paths are open to everyone, the list of endpoints and the list of accounts,
/// and no other is: what only begins like one of them is not.
pub proof fn law_two_paths_are_open(path: Seq<char>, token: Seq<char>, header: Option<Seq<char>>)
    ensures
        let_in("/api"@, header, token),
        let_in("/api/accounts"@, header, token),
        path != "/api"@ && path != "/api/accounts"@ ==> (let_in(path, header, token) <==> header
            == Some("Bearer "@ + token)),
{
}

} // verus!
