//! Requests about users and their relations.
use vstd::prelude::*;

use crate::api;
use crate::api::{ApiCall, MisskeyClient};
use crate::json;
use crate::json::{Json, JsonV};
use crate::api::SearchUsersOptions;
use crate::text;

verus! {

/// The parameters of `search_users`.
pub open spec fn search_users_params(opts: SearchUsersOptions<'_>) -> JsonV {
    api::params().with("limit"@, api::n(opts.limit as int)).with_opt("query"@, json::opt_str_json(text::opt_str(opts.query))).with_opt("origin"@, json::opt_str_json(text::opt_str(opts.origin))).with_opt("sort"@, json::opt_str_json(text::opt_str(opts.sort))).with_opt("state"@, json::opt_str_json(text::opt_str(opts.state))).with_opt("offset"@, json::opt_int_json(opts.offset))
}

/// The parameters of `get_role_users`.
pub open spec fn role_users_params(role_id: Seq<char>, limit: int, offset: Option<i64>) -> JsonV {
    api::params().with("roleId"@, api::s(role_id)).with("limit"@, api::n(limit)).with_opt("offset"@, json::opt_int_json(offset))
}

/// The parameters of `lookup_user`.
pub open spec fn lookup_user_params(username: Seq<char>, user_host: Option<Seq<char>>) -> JsonV {
    api::params().with("username"@, api::s(username)).with_opt("host"@, json::opt_str_json(user_host))
}

/// The parameters of `get_following`.
pub open spec fn following_params(
    user_id: Seq<char>,
    limit: int,
    until_id: Option<Seq<char>>,
) -> JsonV {
    api::paged(api::params().with("userId"@, api::s(user_id)).with("limit"@, api::n(limit)), None, until_id)
}

/// The parameters of `get_followers`.
pub open spec fn followers_params(
    user_id: Seq<char>,
    limit: int,
    until_id: Option<Seq<char>>,
) -> JsonV {
    api::paged(api::params().with("userId"@, api::s(user_id)).with("limit"@, api::n(limit)), None, until_id)
}

impl MisskeyClient {
    /// The users of a server.
    pub fn search_users(&self, host: &str, token: &str, opts: SearchUsersOptions<'_>) -> (r: ApiCall)
        ensures
            r@ == self.call(host@, token@, "users"@, search_users_params(opts)),
    {
        let mut params = Json::object();
        params.set_int("limit", opts.limit);
        params.set_opt_str("query", opts.query);
        params.set_opt_str("origin", opts.origin);
        params.set_opt_str("sort", opts.sort);
        params.set_opt_str("state", opts.state);
        params.set_opt_int("offset", opts.offset);
        self.request(host, token, "users", params)
    }

    /// A setting of the user changed.
    pub fn update_user_setting(&self, host: &str, token: &str, key: &str, value: bool) -> (r: ApiCall)
        ensures
            r@ == self.call(
                host@,
                token@,
                "i/update"@,
                api::params().with(key@, JsonV::Bool(value)),
            ),
    {
        let mut params = Json::object();
        params.set_bool(key, value);
        self.request(host, token, "i/update", params)
    }

    /// The reactions that the user has pinned.
    pub fn get_pinned_reactions(&self, host: &str, token: &str) -> (r: ApiCall)
        ensures
            r@ == self.call(
                host@,
                token@,
                "i/registry/get"@,
                api::params().with(
                    "scope"@,
                    json::str_list(seq!["client"@, "preferences"@, "sync"@]),
                ).with("key"@, api::s("default:emojiPalettes"@)),
            ),
    {
        let mut scope: Vec<String> = Vec::new();
        scope.push("client".to_owned());
        scope.push("preferences".to_owned());
        scope.push("sync".to_owned());
        proof {
            assert(text::texts(scope@) =~= seq!["client"@, "preferences"@, "sync"@]);
        }
        let mut params = Json::object();
        params.set("scope", Json::list_of(scope.as_slice()));
        params.set_str("key", "default:emojiPalettes");
        self.request(host, token, "i/registry/get", params)
    }

    /// The lists of the user.
    pub fn get_user_lists(&self, host: &str, token: &str) -> (r: ApiCall)
        ensures
            r@ == self.call(
                host@,
                token@,
                "users/lists/list"@,
                api::params(),
            ),
    {
        self.request(host, token, "users/lists/list", Json::object())
    }

    /// The antennas of the user.
    pub fn get_antennas(&self, host: &str, token: &str) -> (r: ApiCall)
        ensures
            r@ == self.call(
                host@,
                token@,
                "antennas/list"@,
                api::params(),
            ),
    {
        self.request(host, token, "antennas/list", Json::object())
    }

    /// The clips of the user.
    pub fn get_clips(&self, host: &str, token: &str) -> (r: ApiCall)
        ensures
            r@ == self.call(
                host@,
                token@,
                "clips/list"@,
                api::params(),
            ),
    {
        self.request(host, token, "clips/list", Json::object())
    }

    /// A user.
    pub fn get_user(&self, host: &str, token: &str, user_id: &str) -> (r: ApiCall)
        ensures
            r@ == self.call(
                host@,
                token@,
                "users/show"@,
                api::params().with("userId"@, api::s(user_id@)),
            ),
    {
        let mut params = Json::object();
        params.set_str("userId", user_id);
        self.request(host, token, "users/show", params)
    }

    /// A user with profile and counts.
    pub fn get_user_detail(&self, host: &str, token: &str, user_id: &str) -> (r: ApiCall)
        ensures
            r@ == self.call(
                host@,
                token@,
                "users/show"@,
                api::params().with("userId"@, api::s(user_id@)),
            ),
    {
        let mut params = Json::object();
        params.set_str("userId", user_id);
        self.request(host, token, "users/show", params)
    }

    /// A user, for the notes pinned to the profile.
    pub fn get_user_pinned_note_ids(&self, host: &str, token: &str, user_id: &str) -> (r: ApiCall)
        ensures
            r@ == self.call(
                host@,
                token@,
                "users/show"@,
                api::params().with("userId"@, api::s(user_id@)),
            ),
    {
        let mut params = Json::object();
        params.set_str("userId", user_id);
        self.request(host, token, "users/show", params)
    }

    /// A user by name, and by server where it is another one.
    pub fn lookup_user(
        &self,
        host: &str,
        token: &str,
        username: &str,
        user_host: Option<&str>,
    ) -> (r: ApiCall)
        ensures
            r@ == self.call(host@, token@, "users/show"@, lookup_user_params(username@, text::opt_str(user_host))),
    {
        let mut params = Json::object();
        params.set_str("username", username);
        params.set_opt_str("host", user_host);
        self.request(host, token, "users/show", params)
    }

    /// A user followed.
    pub fn follow_user(&self, host: &str, token: &str, user_id: &str) -> (r: ApiCall)
        ensures
            r@ == self.call(
                host@,
                token@,
                "following/create"@,
                api::params().with("userId"@, api::s(user_id@)),
            ),
    {
        let mut params = Json::object();
        params.set_str("userId", user_id);
        self.request(host, token, "following/create", params)
    }

    /// A user followed no more.
    pub fn unfollow_user(&self, host: &str, token: &str, user_id: &str) -> (r: ApiCall)
        ensures
            r@ == self.call(
                host@,
                token@,
                "following/delete"@,
                api::params().with("userId"@, api::s(user_id@)),
            ),
    {
        let mut params = Json::object();
        params.set_str("userId", user_id);
        self.request(host, token, "following/delete", params)
    }

    /// A request to follow the user accepted.
    pub fn accept_follow_request(&self, host: &str, token: &str, user_id: &str) -> (r: ApiCall)
        ensures
            r@ == self.call(
                host@,
                token@,
                "following/requests/accept"@,
                api::params().with("userId"@, api::s(user_id@)),
            ),
    {
        let mut params = Json::object();
        params.set_str("userId", user_id);
        self.request(host, token, "following/requests/accept", params)
    }

    /// A request to follow the user rejected.
    pub fn reject_follow_request(&self, host: &str, token: &str, user_id: &str) -> (r: ApiCall)
        ensures
            r@ == self.call(
                host@,
                token@,
                "following/requests/reject"@,
                api::params().with("userId"@, api::s(user_id@)),
            ),
    {
        let mut params = Json::object();
        params.set_str("userId", user_id);
        self.request(host, token, "following/requests/reject", params)
    }

    /// The requests to follow the user.
    pub fn get_follow_requests(&self, host: &str, token: &str, limit: i64) -> (r: ApiCall)
        ensures
            r@ == self.call(
                host@,
                token@,
                "following/requests/list"@,
                api::params().with("limit"@, api::n(limit as int)),
            ),
    {
        let mut params = Json::object();
        params.set_int("limit", limit);
        self.request(host, token, "following/requests/list", params)
    }

    /// The user.
    pub fn get_self(&self, host: &str, token: &str) -> (r: ApiCall)
        ensures
            r@ == self.call(
                host@,
                token@,
                "i"@,
                api::params(),
            ),
    {
        self.request(host, token, "i", Json::object())
    }

    /// The user, for policies and modes.
    pub fn get_user_policies(&self, host: &str, token: &str) -> (r: ApiCall)
        ensures
            r@ == self.call(
                host@,
                token@,
                "i"@,
                api::params(),
            ),
    {
        self.request(host, token, "i", Json::object())
    }

    /// All that a scope of the registry holds.
    pub fn get_registry_all(&self, host: &str, token: &str, scope: &[String]) -> (r: ApiCall)
        ensures
            r@ == self.call(
                host@,
                token@,
                "i/registry/get-all"@,
                api::params().with("scope"@, json::str_list(text::texts(scope@))),
            ),
    {
        let mut params = Json::object();
        params.set("scope", Json::list_of(scope));
        self.request(host, token, "i/registry/get-all", params)
    }

    /// The roles of a server.
    pub fn get_roles(&self, host: &str, token: &str) -> (r: ApiCall)
        ensures
            r@ == self.call(
                host@,
                token@,
                "roles/list"@,
                api::params(),
            ),
    {
        self.request(host, token, "roles/list", Json::object())
    }

    /// The users with a role.
    pub fn get_role_users(
        &self,
        host: &str,
        token: &str,
        role_id: &str,
        limit: i64,
        offset: Option<i64>,
    ) -> (r: ApiCall)
        ensures
            r@ == self.call(host@, token@, "roles/users"@, role_users_params(role_id@, limit as int, offset)),
    {
        let mut params = Json::object();
        params.set_str("roleId", role_id);
        params.set_int("limit", limit);
        params.set_opt_int("offset", offset);
        self.request(host, token, "roles/users", params)
    }

    /// A search for users.
    pub fn search_users_by_query(&self, host: &str, token: &str, query: &str, limit: i64) -> (r: ApiCall)
        ensures
            r@ == self.call(
                host@,
                token@,
                "users/search"@,
                api::params().with("query"@, api::s(query@)).with("limit"@, api::n(limit as int)),
            ),
    {
        let mut params = Json::object();
        params.set_str("query", query);
        params.set_int("limit", limit);
        self.request(host, token, "users/search", params)
    }

    /// The achievements of a user.
    pub fn get_user_achievements(&self, host: &str, token: &str, user_id: &str) -> (r: ApiCall)
        ensures
            r@ == self.call(
                host@,
                token@,
                "users/achievements"@,
                api::params().with("userId"@, api::s(user_id@)),
            ),
    {
        let mut params = Json::object();
        params.set_str("userId", user_id);
        self.request(host, token, "users/achievements", params)
    }

    /// A user muted.
    pub fn mute_user(&self, host: &str, token: &str, user_id: &str) -> (r: ApiCall)
        ensures
            r@ == self.call(
                host@,
                token@,
                "mute/create"@,
                api::params().with("userId"@, api::s(user_id@)),
            ),
    {
        let mut params = Json::object();
        params.set_str("userId", user_id);
        self.request(host, token, "mute/create", params)
    }

    /// A user muted no more.
    pub fn unmute_user(&self, host: &str, token: &str, user_id: &str) -> (r: ApiCall)
        ensures
            r@ == self.call(
                host@,
                token@,
                "mute/delete"@,
                api::params().with("userId"@, api::s(user_id@)),
            ),
    {
        let mut params = Json::object();
        params.set_str("userId", user_id);
        self.request(host, token, "mute/delete", params)
    }

    /// A user blocked.
    pub fn block_user(&self, host: &str, token: &str, user_id: &str) -> (r: ApiCall)
        ensures
            r@ == self.call(
                host@,
                token@,
                "blocking/create"@,
                api::params().with("userId"@, api::s(user_id@)),
            ),
    {
        let mut params = Json::object();
        params.set_str("userId", user_id);
        self.request(host, token, "blocking/create", params)
    }

    /// A user blocked no more.
    pub fn unblock_user(&self, host: &str, token: &str, user_id: &str) -> (r: ApiCall)
        ensures
            r@ == self.call(
                host@,
                token@,
                "blocking/delete"@,
                api::params().with("userId"@, api::s(user_id@)),
            ),
    {
        let mut params = Json::object();
        params.set_str("userId", user_id);
        self.request(host, token, "blocking/delete", params)
    }

    /// A user reported.
    pub fn report_user(&self, host: &str, token: &str, user_id: &str, comment: &str) -> (r: ApiCall)
        ensures
            r@ == self.call(
                host@,
                token@,
                "users/report-abuse"@,
                api::params().with("userId"@, api::s(user_id@)).with("comment"@, api::s(comment@)),
            ),
    {
        let mut params = Json::object();
        params.set_str("userId", user_id);
        params.set_str("comment", comment);
        self.request(host, token, "users/report-abuse", params)
    }

    /// A user added to a list.
    pub fn add_user_to_list(&self, host: &str, token: &str, list_id: &str, user_id: &str) -> (r: ApiCall)
        ensures
            r@ == self.call(
                host@,
                token@,
                "users/lists/push"@,
                api::params().with("listId"@, api::s(list_id@)).with("userId"@, api::s(user_id@)),
            ),
    {
        let mut params = Json::object();
        params.set_str("listId", list_id);
        params.set_str("userId", user_id);
        self.request(host, token, "users/lists/push", params)
    }

    /// A user taken from a list.
    pub fn remove_user_from_list(&self, host: &str, token: &str, list_id: &str, user_id: &str) -> (r: ApiCall)
        ensures
            r@ == self.call(
                host@,
                token@,
                "users/lists/pull"@,
                api::params().with("listId"@, api::s(list_id@)).with("userId"@, api::s(user_id@)),
            ),
    {
        let mut params = Json::object();
        params.set_str("listId", list_id);
        params.set_str("userId", user_id);
        self.request(host, token, "users/lists/pull", params)
    }

    /// Whom a user follows.
    pub fn get_following(
        &self,
        host: &str,
        token: &str,
        user_id: &str,
        limit: i64,
        until_id: Option<&str>,
    ) -> (r: ApiCall)
        ensures
            r@ == self.call(host@, token@, "users/following"@, following_params(user_id@, limit as int, text::opt_str(until_id))),
    {
        let mut params = Json::object();
        params.set_str("userId", user_id);
        params.set_int("limit", limit);
        api::apply_pagination(&mut params, None, until_id);
        self.request(host, token, "users/following", params)
    }

    /// Who follows a user.
    pub fn get_followers(
        &self,
        host: &str,
        token: &str,
        user_id: &str,
        limit: i64,
        until_id: Option<&str>,
    ) -> (r: ApiCall)
        ensures
            r@ == self.call(host@, token@, "users/followers"@, followers_params(user_id@, limit as int, text::opt_str(until_id))),
    {
        let mut params = Json::object();
        params.set_str("userId", user_id);
        params.set_int("limit", limit);
        api::apply_pagination(&mut params, None, until_id);
        self.request(host, token, "users/followers", params)
    }

    /// How the user stands to some users.
    pub fn get_user_relations(&self, host: &str, token: &str, user_ids: &[String]) -> (r: ApiCall)
        ensures
            r@ == self.call(
                host@,
                token@,
                "users/relation"@,
                api::params().with("userId"@, json::str_list(text::texts(user_ids@))),
            ),
    {
        let mut params = Json::object();
        params.set("userId", Json::list_of(user_ids));
        self.request(host, token, "users/relation", params)
    }
}

proof fn lemma_user_parameters_differ()
    ensures
        "limit"@ != "query"@,
        "limit"@ != "origin"@,
        "limit"@ != "sort"@,
        "limit"@ != "state"@,
        "limit"@ != "offset"@,
        "limit"@ != "roleId"@,
        "limit"@ != "username"@,
        "limit"@ != "host"@,
        "limit"@ != "userId"@,
        "limit"@ != "untilId"@,
        "query"@ != "origin"@,
        "query"@ != "sort"@,
        "query"@ != "state"@,
        "query"@ != "offset"@,
        "query"@ != "roleId"@,
        "query"@ != "username"@,
        "query"@ != "host"@,
        "query"@ != "userId"@,
        "query"@ != "untilId"@,
        "origin"@ != "sort"@,
        "origin"@ != "state"@,
        "origin"@ != "offset"@,
        "origin"@ != "roleId"@,
        "origin"@ != "username"@,
        "origin"@ != "host"@,
        "origin"@ != "userId"@,
        "origin"@ != "untilId"@,
        "sort"@ != "state"@,
        "sort"@ != "offset"@,
        "sort"@ != "roleId"@,
        "sort"@ != "username"@,
        "sort"@ != "host"@,
        "sort"@ != "userId"@,
        "sort"@ != "untilId"@,
        "state"@ != "offset"@,
        "state"@ != "roleId"@,
        "state"@ != "username"@,
        "state"@ != "host"@,
        "state"@ != "userId"@,
        "state"@ != "untilId"@,
        "offset"@ != "roleId"@,
        "offset"@ != "username"@,
        "offset"@ != "host"@,
        "offset"@ != "userId"@,
        "offset"@ != "untilId"@,
        "roleId"@ != "username"@,
        "roleId"@ != "host"@,
        "roleId"@ != "userId"@,
        "roleId"@ != "untilId"@,
        "username"@ != "host"@,
        "username"@ != "userId"@,
        "username"@ != "untilId"@,
        "host"@ != "userId"@,
        "host"@ != "untilId"@,
        "userId"@ != "untilId"@,
{
    reveal_strlit("limit");
    reveal_strlit("query");
    reveal_strlit("origin");
    reveal_strlit("sort");
    reveal_strlit("state");
    reveal_strlit("offset");
    reveal_strlit("roleId");
    reveal_strlit("username");
    reveal_strlit("host");
    reveal_strlit("userId");
    reveal_strlit("untilId");
    assert("limit"@.len() == 5);
    assert("query"@.len() == 5);
    assert("origin"@.len() == 6);
    assert("sort"@.len() == 4);
    assert("state"@.len() == 5);
    assert("offset"@.len() == 6);
    assert("roleId"@.len() == 6);
    assert("username"@.len() == 8);
    assert("host"@.len() == 4);
    assert("userId"@.len() == 6);
    assert("untilId"@.len() == 7);
    assert("limit"@[0] != "query"@[0]);
    assert("limit"@[0] != "state"@[0]);
    assert("query"@[0] != "state"@[0]);
    assert("origin"@[1] != "offset"@[1]);
    assert("origin"@[0] != "roleId"@[0]);
    assert("origin"@[0] != "userId"@[0]);
    assert("sort"@[0] != "host"@[0]);
    assert("offset"@[0] != "roleId"@[0]);
    assert("offset"@[0] != "userId"@[0]);
    assert("roleId"@[0] != "userId"@[0]);
}

/// Users are searched for with a limit, and by words, origin, order, state and
/// place in the list where they are given.
pub proof fn law_users_are_searched_for(opts: SearchUsersOptions<'_>, key: Seq<char>)
    ensures
        search_users_params(opts).member(key) == if key == "limit"@ {
            Some(JsonV::Int(opts.limit as int))
        } else if key == "query"@ {
            match opts.query {
            Some(v) => Some(JsonV::Str(v@)),
            None => None,
        }
        } else if key == "origin"@ {
            match opts.origin {
            Some(v) => Some(JsonV::Str(v@)),
            None => None,
        }
        } else if key == "sort"@ {
            match opts.sort {
            Some(v) => Some(JsonV::Str(v@)),
            None => None,
        }
        } else if key == "state"@ {
            match opts.state {
            Some(v) => Some(JsonV::Str(v@)),
            None => None,
        }
        } else if key == "offset"@ {
            match opts.offset {
            Some(v) => Some(JsonV::Int(v as int)),
            None => None,
        }
        } else {
            None
        },
{
    broadcast use json::lemma_member_of_with;

    lemma_user_parameters_differ();
}

/// The users with a role are asked for by its id, with a limit and from a place
/// in the list on where it is given.
pub proof fn law_users_with_a_role_are_asked_for(
    role_id: Seq<char>,
    limit: int,
    offset: Option<i64>,
    key: Seq<char>,
)
    ensures
        role_users_params(role_id, limit, offset).member(key) == if key == "roleId"@ {
            Some(JsonV::Str(role_id))
        } else if key == "limit"@ {
            Some(JsonV::Int(limit))
        } else if key == "offset"@ {
            match offset {
            Some(v) => Some(JsonV::Int(v as int)),
            None => None,
        }
        } else {
            None
        },
{
    broadcast use json::lemma_member_of_with;

    lemma_user_parameters_differ();
}

/// A user is looked up by name, and on another server where it is given.
pub proof fn law_user_is_looked_up_by_name(
    username: Seq<char>,
    user_host: Option<Seq<char>>,
    key: Seq<char>,
)
    ensures
        lookup_user_params(username, user_host).member(key) == if key == "username"@ {
            Some(JsonV::Str(username))
        } else if key == "host"@ {
            match user_host {
            Some(v) => Some(JsonV::Str(v)),
            None => None,
        }
        } else {
            None
        },
{
    broadcast use json::lemma_member_of_with;

    lemma_user_parameters_differ();
}

/// Whom a user follows is asked for by the id of the user, with a limit and up
/// to an id where it is given.
pub proof fn law_followed_users_are_asked_for(
    user_id: Seq<char>,
    limit: int,
    until_id: Option<Seq<char>>,
    key: Seq<char>,
)
    ensures
        following_params(user_id, limit, until_id).member(key) == if key == "userId"@ {
            Some(JsonV::Str(user_id))
        } else if key == "limit"@ {
            Some(JsonV::Int(limit))
        } else if key == "untilId"@ {
            match until_id {
            Some(v) => Some(JsonV::Str(v)),
            None => None,
        }
        } else {
            None
        },
{
    broadcast use json::lemma_member_of_with;

    lemma_user_parameters_differ();
}

/// Who follows a user is asked for by the id of the user, with a limit and up
/// to an id where it is given.
pub proof fn law_followers_are_asked_for(
    user_id: Seq<char>,
    limit: int,
    until_id: Option<Seq<char>>,
    key: Seq<char>,
)
    ensures
        followers_params(user_id, limit, until_id).member(key) == if key == "userId"@ {
            Some(JsonV::Str(user_id))
        } else if key == "limit"@ {
            Some(JsonV::Int(limit))
        } else if key == "untilId"@ {
            match until_id {
            Some(v) => Some(JsonV::Str(v)),
            None => None,
        }
        } else {
            None
        },
{
    broadcast use json::lemma_member_of_with;

    lemma_user_parameters_differ();
}

} // verus!
