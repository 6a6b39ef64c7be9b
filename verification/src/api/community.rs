//! Requests about servers, channels, pages and other things that users share.
use vstd::prelude::*;

use crate::api;
use crate::api::{ApiCall, MisskeyClient};
use crate::json;
use crate::json::{Json, JsonV};
use crate::text;

verus! {

/// The parameters of `get_gallery_posts`.
pub open spec fn gallery_posts_params(limit: int, until_id: Option<Seq<char>>) -> JsonV {
    api::paged(api::params().with("limit"@, api::n(limit)), None, until_id)
}

/// The parameters of `get_announcements`.
pub open spec fn announcements_params(limit: int, is_active: bool) -> JsonV {
    api::params().with("limit"@, api::n(limit)).with("isActive"@, JsonV::Bool(is_active))
}

impl MisskeyClient {
    /// The questions whose answers make up the channels that the user may want:
    /// those followed, marked as favourites and owned, which only a user with a
    /// token has, then those featured and those found.
    pub fn get_channels(&self, host: &str, token: &str) -> (r: Vec<ApiCall>)
        ensures
            ({
                let hundred = api::params().with("limit"@, api::n(100));
                let featured = self.call(host@, token@, "channels/featured"@, api::params());
                let found = self.call(
                    host@,
                    token@,
                    "channels/search"@,
                    api::params().with("query"@, api::s(""@)).with("limit"@, api::n(100)),
                );
                calls_view(r@) == if token@.len() == 0 {
                    seq![featured, found]
                } else {
                    seq![
                        self.call(host@, token@, "channels/followed"@, hundred),
                        self.call(host@, token@, "channels/my-favorites"@, hundred),
                        self.call(host@, token@, "channels/owned"@, hundred),
                        featured,
                        found,
                    ]
                }
            }),
    {
        let mut calls: Vec<ApiCall> = Vec::new();
        if !token.is_empty() {
            calls.push(self.request(host, token, "channels/followed", hundred()));
            calls.push(self.request(host, token, "channels/my-favorites", hundred()));
            calls.push(self.request(host, token, "channels/owned", hundred()));
        }
        calls.push(self.request(host, token, "channels/featured", Json::object()));
        calls.push(self.search_channels(host, token, ""));
        proof {
            let hundred = api::params().with("limit"@, api::n(100));
            let featured = self.call(host@, token@, "channels/featured"@, api::params());
            let found = self.call(
                host@,
                token@,
                "channels/search"@,
                api::params().with("query"@, api::s(""@)).with("limit"@, api::n(100)),
            );
            if token@.len() == 0 {
                assert(calls_view(calls@) =~= seq![featured, found]);
            } else {
                assert(calls_view(calls@) =~= seq![
                    self.call(host@, token@, "channels/followed"@, hundred),
                    self.call(host@, token@, "channels/my-favorites"@, hundred),
                    self.call(host@, token@, "channels/owned"@, hundred),
                    featured,
                    found,
                ]);
            }
        }
        calls
    }

    /// The check whether the user has granted access in a session.
    pub fn complete_auth(&self, host: &str, session_id: &str) -> (r: ApiCall)
        ensures
            r@ == self.call(host@, ""@, "miauth/"@ + session_id@ + "/check"@, api::params()),
    {
        let mut endpoint = "miauth/".to_owned();
        endpoint.append(session_id);
        endpoint.append("/check");
        proof {
            reveal_strlit("");
        }
        self.request(host, "", endpoint.as_str(), Json::object())
    }

    /// A search for channels.
    pub fn search_channels(&self, host: &str, token: &str, query: &str) -> (r: ApiCall)
        ensures
            r@ == self.call(
                host@,
                token@,
                "channels/search"@,
                api::params().with("query"@, api::s(query@)).with("limit"@, api::n(100)),
            ),
    {
        let mut params = Json::object();
        params.set_str("query", query);
        params.set_int("limit", 100);
        self.request(host, token, "channels/search", params)
    }

    /// The custom emojis of a server.
    pub fn get_server_emojis(&self, host: &str, token: &str) -> (r: ApiCall)
        ensures
            r@ == self.call(
                host@,
                token@,
                "emojis"@,
                api::params(),
            ),
    {
        self.request(host, token, "emojis", Json::object())
    }

    /// What a server tells of itself.
    pub fn get_meta(&self, host: &str, token: &str) -> (r: ApiCall)
        ensures
            r@ == self.call(
                host@,
                token@,
                "meta"@,
                api::params(),
            ),
    {
        self.request(host, token, "meta", Json::object())
    }

    /// What a server tells of itself in detail.
    pub fn get_meta_detail(&self, host: &str, token: &str) -> (r: ApiCall)
        ensures
            r@ == self.call(
                host@,
                token@,
                "meta"@,
                api::params().with("detail"@, JsonV::Bool(true)),
            ),
    {
        let mut params = Json::object();
        params.set_bool("detail", true);
        self.request(host, token, "meta", params)
    }

    /// The statistics of a server.
    pub fn get_server_stats(&self, host: &str, token: &str) -> (r: ApiCall)
        ensures
            r@ == self.call(
                host@,
                token@,
                "stats"@,
                api::params(),
            ),
    {
        self.request(host, token, "stats", Json::object())
    }

    /// The announcements of a server.
    pub fn get_announcements(&self, host: &str, token: &str, limit: i64, is_active: bool) -> (r: ApiCall)
        ensures
            r@ == self.call(host@, token@, "announcements"@, announcements_params(limit as int, is_active)),
    {
        let mut params = Json::object();
        params.set_int("limit", limit);
        params.set_bool("isActive", is_active);
        self.request(host, token, "announcements", params)
    }

    /// An announcement marked as read.
    pub fn read_announcement(&self, host: &str, token: &str, announcement_id: &str) -> (r: ApiCall)
        ensures
            r@ == self.call(
                host@,
                token@,
                "i/read-announcement"@,
                api::params().with("announcementId"@, api::s(announcement_id@)),
            ),
    {
        let mut params = Json::object();
        params.set_str("announcementId", announcement_id);
        self.request(host, token, "i/read-announcement", params)
    }

    /// A search for hashtags.
    pub fn search_hashtags(&self, host: &str, token: &str, query: &str, limit: i64) -> (r: ApiCall)
        ensures
            r@ == self.call(
                host@,
                token@,
                "hashtags/search"@,
                api::params().with("query"@, api::s(query@)).with("limit"@, api::n(limit as int)),
            ),
    {
        let mut params = Json::object();
        params.set_str("query", query);
        params.set_int("limit", limit);
        self.request(host, token, "hashtags/search", params)
    }

    /// What an address stands for.
    pub fn ap_show(&self, host: &str, token: &str, uri: &str) -> (r: ApiCall)
        ensures
            r@ == self.call(
                host@,
                token@,
                "ap/show"@,
                api::params().with("uri"@, api::s(uri@)),
            ),
    {
        let mut params = Json::object();
        params.set_str("uri", uri);
        self.request(host, token, "ap/show", params)
    }

    /// The pages that an endpoint lists.
    pub fn get_pages(&self, host: &str, token: &str, endpoint: &str, limit: i64) -> (r: ApiCall)
        ensures
            r@ == self.call(
                host@,
                token@,
                endpoint@,
                api::params().with("limit"@, api::n(limit as int)),
            ),
    {
        let mut params = Json::object();
        params.set_int("limit", limit);
        self.request(host, token, endpoint, params)
    }

    /// A page.
    pub fn get_page(&self, host: &str, token: &str, page_id: &str) -> (r: ApiCall)
        ensures
            r@ == self.call(
                host@,
                token@,
                "pages/show"@,
                api::params().with("pageId"@, api::s(page_id@)),
            ),
    {
        let mut params = Json::object();
        params.set_str("pageId", page_id);
        self.request(host, token, "pages/show", params)
    }

    /// A page liked.
    pub fn like_page(&self, host: &str, token: &str, page_id: &str) -> (r: ApiCall)
        ensures
            r@ == self.call(
                host@,
                token@,
                "pages/like"@,
                api::params().with("pageId"@, api::s(page_id@)),
            ),
    {
        let mut params = Json::object();
        params.set_str("pageId", page_id);
        self.request(host, token, "pages/like", params)
    }

    /// A page liked no more.
    pub fn unlike_page(&self, host: &str, token: &str, page_id: &str) -> (r: ApiCall)
        ensures
            r@ == self.call(
                host@,
                token@,
                "pages/unlike"@,
                api::params().with("pageId"@, api::s(page_id@)),
            ),
    {
        let mut params = Json::object();
        params.set_str("pageId", page_id);
        self.request(host, token, "pages/unlike", params)
    }

    /// The posts of the gallery.
    pub fn get_gallery_posts(&self, host: &str, token: &str, limit: i64, until_id: Option<&str>) -> (r: ApiCall)
        ensures
            r@ == self.call(host@, token@, "gallery/posts"@, gallery_posts_params(limit as int, text::opt_str(until_id))),
    {
        let mut params = Json::object();
        params.set_int("limit", limit);
        api::apply_pagination(&mut params, None, until_id);
        self.request(host, token, "gallery/posts", params)
    }

    /// A post of the gallery liked.
    pub fn like_gallery_post(&self, host: &str, token: &str, post_id: &str) -> (r: ApiCall)
        ensures
            r@ == self.call(
                host@,
                token@,
                "gallery/posts/like"@,
                api::params().with("postId"@, api::s(post_id@)),
            ),
    {
        let mut params = Json::object();
        params.set_str("postId", post_id);
        self.request(host, token, "gallery/posts/like", params)
    }

    /// A post of the gallery liked no more.
    pub fn unlike_gallery_post(&self, host: &str, token: &str, post_id: &str) -> (r: ApiCall)
        ensures
            r@ == self.call(
                host@,
                token@,
                "gallery/posts/unlike"@,
                api::params().with("postId"@, api::s(post_id@)),
            ),
    {
        let mut params = Json::object();
        params.set_str("postId", post_id);
        self.request(host, token, "gallery/posts/unlike", params)
    }

    /// The plays that an endpoint lists.
    pub fn get_flashes(&self, host: &str, token: &str, endpoint: &str, limit: i64) -> (r: ApiCall)
        ensures
            r@ == self.call(
                host@,
                token@,
                endpoint@,
                api::params().with("limit"@, api::n(limit as int)),
            ),
    {
        let mut params = Json::object();
        params.set_int("limit", limit);
        self.request(host, token, endpoint, params)
    }

    /// A play.
    pub fn get_flash(&self, host: &str, token: &str, flash_id: &str) -> (r: ApiCall)
        ensures
            r@ == self.call(
                host@,
                token@,
                "flash/show"@,
                api::params().with("flashId"@, api::s(flash_id@)),
            ),
    {
        let mut params = Json::object();
        params.set_str("flashId", flash_id);
        self.request(host, token, "flash/show", params)
    }

    /// A play liked.
    pub fn like_flash(&self, host: &str, token: &str, flash_id: &str) -> (r: ApiCall)
        ensures
            r@ == self.call(
                host@,
                token@,
                "flash/like"@,
                api::params().with("flashId"@, api::s(flash_id@)),
            ),
    {
        let mut params = Json::object();
        params.set_str("flashId", flash_id);
        self.request(host, token, "flash/like", params)
    }

    /// A play liked no more.
    pub fn unlike_flash(&self, host: &str, token: &str, flash_id: &str) -> (r: ApiCall)
        ensures
            r@ == self.call(
                host@,
                token@,
                "flash/unlike"@,
                api::params().with("flashId"@, api::s(flash_id@)),
            ),
    {
        let mut params = Json::object();
        params.set_str("flashId", flash_id);
        self.request(host, token, "flash/unlike", params)
    }

    /// The parameters of an endpoint. No token goes along.
    pub fn get_endpoint_params(&self, host: &str, endpoint: &str) -> (r: ApiCall)
        ensures
            r@ == self.call(
                host@,
                ""@,
                "endpoint"@,
                api::params().with("endpoint"@, api::s(endpoint@)),
            ),
    {
        let mut params = Json::object();
        params.set_str("endpoint", endpoint);
        self.request(host, "", "endpoint", params)
    }

    /// The endpoints of a server. No token goes along.
    pub fn get_endpoints(&self, host: &str) -> (r: ApiCall)
        ensures
            r@ == self.call(
                host@,
                ""@,
                "endpoints"@,
                api::params(),
            ),
    {
        self.request(host, "", "endpoints", Json::object())
    }

    /// What a server tells of itself to anyone. No token goes along.
    pub fn fetch_server_meta(&self, host: &str) -> (r: ApiCall)
        ensures
            r@ == self.call(
                host@,
                ""@,
                "meta"@,
                api::params(),
            ),
    {
        self.request(host, "", "meta", Json::object())
    }

    /// The address at which a server says where its nodeinfo is found. It is asked
    /// for by `GET`.
    pub fn fetch_nodeinfo(&self, host: &str) -> (r: String)
        ensures
            r@ == "https://"@ + host@ + "/.well-known/nodeinfo"@,
    {
        let mut url = "https://".to_owned();
        url.append(host);
        url.append("/.well-known/nodeinfo");
        url
    }

    /// A file for the drive: where it goes, and the fields that go along with
    /// it.
    pub fn upload_file(&self, host: &str, token: &str, is_sensitive: bool) -> (r: Upload)
        ensures
            r.url@ == api::endpoint_url(text::opt_text(self.base_url), host@, "drive/files/create"@),
            r.fields@.len() == 2,
            r.fields@[0].0@ == "i"@ && r.fields@[0].1@ == token@,
            r.fields@[1].0@ == "isSensitive"@ && r.fields@[1].1@ == if is_sensitive {
                "true"@
            } else {
                "false"@
            },
    {
        let mut fields: Vec<(String, String)> = Vec::new();
        fields.push(("i".to_owned(), token.to_owned()));
        let sensitive = if is_sensitive {
            "true".to_owned()
        } else {
            "false".to_owned()
        };
        fields.push(("isSensitive".to_owned(), sensitive));
        Upload { url: self.api_url(host, "drive/files/create"), fields }
    }
}

/// A file that is sent to a server as a form: the fields beside the file
/// itself, in their order.
#[derive(Debug, PartialEq)]
pub struct Upload {
    pub url: String,
    pub fields: Vec<(String, String)>,
}

/// Some requests.
pub open spec fn calls_view(v: Seq<ApiCall>) -> Seq<api::ApiCallV> {
    Seq::new(v.len(), |i: int| v[i]@)
}

fn hundred() -> (r: Json)
    ensures
        r is Object,
        r@ == api::params().with("limit"@, api::n(100)),
{
    let mut params = Json::object();
    params.set_int("limit", 100);
    params
}

proof fn lemma_community_parameters_differ()
    ensures
        "limit"@ != "untilId"@,
        "limit"@ != "isActive"@,
        "untilId"@ != "isActive"@,
{
    reveal_strlit("limit");
    reveal_strlit("untilId");
    reveal_strlit("isActive");
    assert("limit"@.len() == 5);
    assert("untilId"@.len() == 7);
    assert("isActive"@.len() == 8);
}

/// The posts of the gallery are asked for with a limit and up to an id where it
/// is given.
pub proof fn law_gallery_posts_are_asked_for(
    limit: int,
    until_id: Option<Seq<char>>,
    key: Seq<char>,
)
    ensures
        gallery_posts_params(limit, until_id).member(key) == if key == "limit"@ {
            Some(JsonV::Int(limit))
        } else if key == "untilId"@ {
            match until_id {
            Some(v) => Some(JsonV::Str(v)),
            None => None,
        }
        } else {
            None
        },
{
    broadcast use json::lemma_member_of_with;

    lemma_community_parameters_differ();
}

/// The announcements are asked for with a limit, and those that are active or
/// those that are not.
pub proof fn law_announcements_are_asked_for(limit: int, is_active: bool, key: Seq<char>)
    ensures
        announcements_params(limit, is_active).member(key) == if key == "limit"@ {
            Some(JsonV::Int(limit))
        } else if key == "isActive"@ {
            Some(JsonV::Bool(is_active))
        } else {
            None
        },
{
    broadcast use json::lemma_member_of_with;

    lemma_community_parameters_differ();
}

} // verus!
