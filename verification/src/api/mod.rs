//! The requests that a server is sent, and what its answers mean.
use vstd::prelude::*;

use crate::json;
use crate::json::{Json, JsonV};
use crate::text;

pub mod community;
pub mod notes;
pub mod response;
pub mod users;

verus! {

/// What the client calls itself.
pub const USER_AGENT: &'static str =
    "Mozilla/5.0 (Windows NT 10.0; Win64; x64) AppleWebKit/537.36 (KHTML, like Gecko) Chrome/131.0.0.0 Safari/537.36";

/// How long a request may take, in seconds.
pub const REQUEST_TIMEOUT_SECS: u64 = 30;

/// How long it may take to connect, and how long a request for what a server
/// tells of itself may take, in seconds.
pub const CONNECT_TIMEOUT_SECS: u64 = 10;

/// How many idle connections are kept to a server.
pub const MAX_IDLE_PER_HOST: usize = 4;

/// A request: `body` is posted to `url`. `endpoint` names it in errors.
#[derive(Debug, PartialEq)]
pub struct ApiCall {
    pub url: String,
    pub endpoint: String,
    pub body: Json,
}

/// The mathematical value of an [`ApiCall`].
pub struct ApiCallV {
    pub url: Seq<char>,
    pub endpoint: Seq<char>,
    pub body: JsonV,
}

impl ApiCall {
    pub open spec fn view(&self) -> ApiCallV {
        ApiCallV { url: self.url@, endpoint: self.endpoint@, body: self.body@ }
    }
}

/// Options for a search of users.
#[derive(Debug)]
pub struct SearchUsersOptions<'a> {
    pub query: Option<&'a str>,
    pub origin: Option<&'a str>,
    pub sort: Option<&'a str>,
    pub state: Option<&'a str>,
    pub limit: i64,
    pub offset: Option<i64>,
}

impl<'a> Default for SearchUsersOptions<'a> {
    /// No restriction, and a limit of zero.
    fn default() -> (r: Self)
        ensures
            r.query is None && r.origin is None && r.sort is None && r.state is None,
            r.limit == 0,
            r.offset is None,
    {
        SearchUsersOptions {
            query: None,
            origin: None,
            sort: None,
            state: None,
            limit: 0,
            offset: None,
        }
    }
}

/// The object without members, to which parameters are added.
pub open spec fn params() -> JsonV {
    json::empty_object()
}

/// A parameter that is text.
pub open spec fn s(v: Seq<char>) -> JsonV {
    JsonV::Str(v)
}

/// A parameter that is a number.
pub open spec fn n(v: int) -> JsonV {
    JsonV::Int(v)
}

/// The part of a list that is asked for: what comes after one id and before
/// another.
pub open spec fn paged(
    o: JsonV,
    since_id: Option<Seq<char>>,
    until_id: Option<Seq<char>>,
) -> JsonV {
    o.with_opt("sinceId"@, json::opt_str_json(since_id)).with_opt(
        "untilId"@,
        json::opt_str_json(until_id),
    )
}

/// Adds the part of a list that is asked for to some parameters.
pub fn apply_pagination(params: &mut Json, since_id: Option<&str>, until_id: Option<&str>)
    requires
        (*old(params)) is Object,
    ensures
        (*final(params)) is Object,
        final(params)@ == paged(old(params)@, text::opt_str(since_id), text::opt_str(until_id)),
{
    params.set_opt_str("sinceId", since_id);
    params.set_opt_str("untilId", until_id);
}

/// What makes requests. `base_url` stands in for the address of every server
/// where it is given.
#[derive(Debug)]
pub struct MisskeyClient {
    pub base_url: Option<String>,
}

/// The address of an endpoint.
pub open spec fn endpoint_url(
    base_url: Option<Seq<char>>,
    host: Seq<char>,
    endpoint: Seq<char>,
) -> Seq<char> {
    match base_url {
        Some(base) => base + "/api/"@ + endpoint,
        None => "https://"@ + host + "/api/"@ + endpoint,
    }
}

/// The parameters with the token of the user: it goes into an object, unless it
/// is empty.
pub open spec fn with_token(params: JsonV, token: Seq<char>) -> JsonV {
    if params is Object && token.len() > 0 {
        params.with("i"@, JsonV::Str(token))
    } else {
        params
    }
}

impl MisskeyClient {
    /// The request for an endpoint with some parameters.
    pub open spec fn call(
        &self,
        host: Seq<char>,
        token: Seq<char>,
        endpoint: Seq<char>,
        params: JsonV,
    ) -> ApiCallV {
        ApiCallV {
            url: endpoint_url(text::opt_text(self.base_url), host, endpoint),
            endpoint,
            body: with_token(params, token),
        }
    }

    /// A client for the servers themselves.
    pub fn new() -> (r: Self)
        ensures
            r.base_url is None,
    {
        MisskeyClient { base_url: None }
    }

    /// A client that asks one address in place of every server.
    pub fn with_base_url(base_url: &str) -> (r: Self)
        ensures
            text::opt_text(r.base_url) == Some(base_url@),
    {
        MisskeyClient { base_url: Some(base_url.to_owned()) }
    }

    /// The address of an endpoint.
    pub fn api_url(&self, host: &str, endpoint: &str) -> (r: String)
        ensures
            r@ == endpoint_url(text::opt_text(self.base_url), host@, endpoint@),
    {
        let mut url = match &self.base_url {
            Some(base) => base.clone(),
            None => {
                let mut u = "https://".to_owned();
                u.append(host);
                u
            },
        };
        url.append("/api/");
        url.append(endpoint);
        url
    }

    /// The request for an endpoint. The token of the user goes along with the
    /// parameters, unless it is empty or the parameters are no object.
    pub fn request(&self, host: &str, token: &str, endpoint: &str, params: Json) -> (r: ApiCall)
        ensures
            r@ == self.call(host@, token@, endpoint@, params@),
    {
        let mut body = params;
        let is_object = body.as_object().is_some();
        if is_object && !token.is_empty() {
            proof {
                body.lemma_object();
            }
            body.set_str("i", token);
        }
        ApiCall { url: self.api_url(host, endpoint), endpoint: endpoint.to_owned(), body }
    }
}

/// A token that is not empty reaches the server with every request whose
/// parameters are an object, and the other parameters reach it as they are; an
/// empty token adds nothing.
pub proof fn law_token_goes_along(
    c: MisskeyClient,
    host: Seq<char>,
    token: Seq<char>,
    endpoint: Seq<char>,
    params: JsonV,
    key: Seq<char>,
)
    requires
        params is Object,
    ensures
        token.len() > 0 ==> c.call(host, token, endpoint, params).body.member("i"@) == Some(
            JsonV::Str(token),
        ),
        token.len() == 0 ==> c.call(host, token, endpoint, params).body == params,
        key != "i"@ ==> c.call(host, token, endpoint, params).body.member(key) == params.member(key),
{
    json::lemma_with_member(params, "i"@, JsonV::Str(token), key);
}

/// Whether a request asks a server for `endpoint` with the parameters that
/// `wanted` tells, and with no others: only a token that is not empty goes along
/// with them.
pub open spec fn asks(
    r: ApiCallV,
    c: MisskeyClient,
    host: Seq<char>,
    token: Seq<char>,
    endpoint: Seq<char>,
    wanted: spec_fn(Seq<char>) -> Option<JsonV>,
) -> bool {
    &&& r.endpoint == endpoint
    &&& r.url == match c.base_url {
        Some(base) => base@ + "/api/"@ + endpoint,
        None => "https://"@ + host + "/api/"@ + endpoint,
    }
    &&& forall|key: Seq<char>| #[trigger]
        r.body.member(key) == if key == "i"@ && token.len() > 0 {
            Some(JsonV::Str(token))
        } else {
            wanted(key)
        }
}

/// A text parameter that may be missing.
pub open spec fn text_param(o: Option<String>) -> Option<JsonV> {
    match o {
        Some(v) => Some(JsonV::Str(v@)),
        None => None,
    }
}

/// A page of a list lies after one id and before another, each exactly where it is given;
/// what else is asked for is left as it is.
pub proof fn law_page_lies_between_two_ids(
    o: JsonV,
    since_id: Option<Seq<char>>,
    until_id: Option<Seq<char>>,
    key: Seq<char>,
)
    requires
        o is Object,
        o.member("sinceId"@) is None,
        o.member("untilId"@) is None,
    ensures
        paged(o, since_id, until_id).member("sinceId"@) == match since_id {
            Some(id) => Some(JsonV::Str(id)),
            None => None,
        },
        paged(o, since_id, until_id).member("untilId"@) == match until_id {
            Some(id) => Some(JsonV::Str(id)),
            None => None,
        },
        key != "sinceId"@ && key != "untilId"@ ==> paged(o, since_id, until_id).member(key) == o.member(
            key,
        ),
{
    broadcast use json::lemma_member_of_with;

    reveal_strlit("sinceId");
    reveal_strlit("untilId");
    assert("sinceId"@.len() == 7);
    assert("untilId"@.len() == 7);
    assert("sinceId"@[0] != "untilId"@[0]);
}

/// Where a request goes: to the endpoint under `/api/` on the server, over an encrypted
/// connection, or on the address that stands in for every server.
pub proof fn law_request_goes_to_its_server(
    c: MisskeyClient,
    host: Seq<char>,
    token: Seq<char>,
    endpoint: Seq<char>,
    params: JsonV,
)
    ensures
        c.call(host, token, endpoint, params).endpoint == endpoint,
        c.base_url is None ==> c.call(host, token, endpoint, params).url == "https://"@ + host + "/api/"@
            + endpoint,
        c.base_url matches Some(base) ==> c.call(host, token, endpoint, params).url == base@ + "/api/"@
            + endpoint,
        !(params is Object) ==> c.call(host, token, endpoint, params).body == params,
{
}

} // verus!
