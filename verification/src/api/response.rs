//! What the answers of a server mean.
use vstd::prelude::*;

use crate::error::NoteDeckError;
use crate::json;
use crate::json::{Json, JsonV};
use crate::models::{AuthResult, Channel, NormalizedUser};
use crate::table::Table;
use crate::text;

verus! {

/// How long an answer may be, in bytes.
pub const MAX_RESPONSE_BYTES: usize = 52_428_800;

/// The error of an endpoint.
pub open spec fn is_api_error(
    e: NoteDeckError,
    endpoint: Seq<char>,
    status: int,
    message: Seq<char>,
) -> bool {
    match e {
        NoteDeckError::Api { endpoint: n, status: s, message: m } => n@ == endpoint && s == status
            && m@ == message,
        _ => false,
    }
}

fn api_error(endpoint: &str, status: u16, message: &str) -> (r: NoteDeckError)
    ensures
        is_api_error(r, endpoint@, status as int, message@),
{
    NoteDeckError::Api {
        endpoint: endpoint.to_owned(),
        status,
        message: message.to_owned(),
    }
}

/// What the body of a failed answer says of the failure: its message, or else
/// its code. A message that is no text hides the code.
pub open spec fn failure_detail(body: JsonV) -> Option<Seq<char>> {
    match body.member("error"@) {
        Some(e) => match e.member("message"@) {
            Some(m) => m.text(),
            None => e.text_member("code"@),
        },
        None => None,
    }
}

/// The message of the error for a failed answer.
pub open spec fn failure_message(
    endpoint: Seq<char>,
    status: int,
    detail: Option<Seq<char>>,
) -> Seq<char> {
    match detail {
        Some(d) => endpoint + ": "@ + d,
        None => endpoint + " ("@ + text::decimal(status) + ")"@,
    }
}

/// What a body says of a failure, where there is a body that is JSON.
pub open spec fn detail_of(body: Option<JsonV>) -> Option<Seq<char>> {
    match body {
        Some(b) => failure_detail(b),
        None => None,
    }
}

/// The error for an answer that reports a failure, given what its body holds.
pub fn failure(endpoint: &str, status: u16, body: Option<&Json>) -> (r: NoteDeckError)
    ensures
        is_api_error(
            r,
            endpoint@,
            status as int,
            failure_message(
                endpoint@,
                status as int,
                match body {
                    Some(b) => failure_detail(b@),
                    None => None,
                },
            ),
        ),
{
    let detail = match body {
        Some(b) => match b.get("error") {
            Some(e) => match e.get("message") {
                Some(m) => m.as_str(),
                None => e.str_at("code"),
            },
            None => None,
        },
        None => None,
    };
    let mut message = endpoint.to_owned();
    match detail {
        Some(d) => {
            message.append(": ");
            message.append(d);
        },
        None => {
            message.append(" (");
            message.append(text::decimal_of(status as i64).as_str());
            message.append(")");
        },
    }
    api_error(endpoint, status, message.as_str())
}

/// The error for an answer that reports a failure; `body` is its text, where it
/// could be read.
pub fn request_failed(endpoint: &str, status: u16, body: Option<&str>) -> (r: NoteDeckError)
    ensures
        is_api_error(
            r,
            endpoint@,
            status as int,
            failure_message(
                endpoint@,
                status as int,
                match body {
                    Some(b) => detail_of(json::parsed_json(b@)),
                    None => None,
                },
            ),
        ),
{
    match body {
        Some(b) => match Json::parse(b) {
            Ok(j) => failure(endpoint, status, Some(&j)),
            Err(_) => failure(endpoint, status, None),
        },
        None => failure(endpoint, status, None),
    }
}

/// The text that some bytes encode, where they are UTF-8.
pub open spec fn text_in(bytes: Seq<u8>) -> Option<Seq<char>> {
    if vstd::utf8::valid_utf8(bytes) {
        Some(vstd::utf8::decode_utf8(bytes))
    } else {
        None
    }
}

/// The error for an answer that reports a failure; `body` is what it consists
/// of, where that could be read. Bytes that are no text tell nothing.
pub fn request_failed_with(endpoint: &str, status: u16, body: Option<Vec<u8>>) -> (r: NoteDeckError)
    ensures
        is_api_error(
            r,
            endpoint@,
            status as int,
            failure_message(
                endpoint@,
                status as int,
                match body {
                    Some(b) => match text_in(b@) {
                        Some(t) => detail_of(json::parsed_json(t)),
                        None => None,
                    },
                    None => None,
                },
            ),
        ),
{
    match body {
        Some(b) => match text_from_utf8(b) {
            Some(t) => request_failed(endpoint, status, Some(t.as_str())),
            None => request_failed(endpoint, status, None),
        },
        None => request_failed(endpoint, status, None),
    }
}

/// What an answer holds: nothing stands for `null`.
pub fn response_value(body: &str) -> (r: Result<Json, NoteDeckError>)
    ensures
        if body@.len() == 0 {
            r matches Ok(j) && j@ is Null
        } else {
            match r {
                Ok(j) => json::parsed_json(body@) == Some(j@),
                Err(e) => json::parsed_json(body@) is None && e is Json,
            }
        },
{
    if body.is_empty() {
        Ok(Json::Null)
    } else {
        Json::parse(body)
    }
}

/// `String::from_utf8`: the text that some bytes encode, where they are UTF-8.
#[verifier::external_body]
fn text_from_utf8(bytes: Vec<u8>) -> (r: Option<String>)
    ensures
        match r {
            Some(s) => vstd::utf8::valid_utf8(bytes@) && s@ == vstd::utf8::decode_utf8(bytes@),
            None => !vstd::utf8::valid_utf8(bytes@),
        },
{
    String::from_utf8(bytes).ok()
}

/// What reads the body of an answer piece by piece, up to a limit.
#[derive(Debug)]
pub struct BodyReader {
    endpoint: String,
    buf: Vec<u8>,
}

impl BodyReader {
    /// What has been read.
    pub closed spec fn view(&self) -> Seq<u8> {
        self.buf@
    }

    /// The endpoint that answered.
    pub closed spec fn endpoint(&self) -> Seq<char> {
        self.endpoint@
    }

    /// What has been read is within the limit.
    pub closed spec fn wf(&self) -> bool {
        self.buf@.len() <= MAX_RESPONSE_BYTES
    }

    /// Starts to read a body of a length that the answer may tell. One that is
    /// too long is refused at once.
    pub fn start(endpoint: &str, content_length: Option<u64>) -> (r: Result<
        BodyReader,
        NoteDeckError,
    >)
        ensures
            match r {
                Ok(b) => b.wf() && b@ == Seq::<u8>::empty() && b.endpoint() == endpoint@ && (
                content_length matches Some(n) ==> n <= MAX_RESPONSE_BYTES),
                Err(e) => (content_length matches Some(n) && n > MAX_RESPONSE_BYTES)
                    && is_api_error(e, endpoint@, 0, "Response too large"@),
            },
    {
        match content_length {
            Some(len) => {
                if len > MAX_RESPONSE_BYTES as u64 {
                    return Err(api_error(endpoint, 0, "Response too large"));
                }
            },
            None => {},
        }
        Ok(BodyReader { endpoint: endpoint.to_owned(), buf: Vec::new() })
    }

    /// Takes in the next piece, unless the body gets too long by it.
    pub fn feed(&mut self, chunk: &[u8]) -> (r: Result<(), NoteDeckError>)
        requires
            old(self).wf(),
        ensures
            final(self).endpoint() == old(self).endpoint(),
            match r {
                Ok(_) => old(self)@.len() + chunk@.len() <= MAX_RESPONSE_BYTES && final(self).wf()
                    && final(self)@ == old(self)@ + chunk@,
                Err(e) => old(self)@.len() + chunk@.len() > MAX_RESPONSE_BYTES && is_api_error(
                    e,
                    old(self).endpoint(),
                    0,
                    "Response too large"@,
                ),
            },
    {
        self.buf.extend_from_slice(chunk);
        proof {
            assert(self@ =~= old(self)@ + chunk@);
        }
        if self.buf.len() > MAX_RESPONSE_BYTES {
            return Err(api_error(self.endpoint.as_str(), 0, "Response too large"));
        }
        Ok(())
    }

    /// The text of the body.
    pub fn finish(self) -> (r: Result<String, NoteDeckError>)
        ensures
            match r {
                Ok(s) => vstd::utf8::valid_utf8(self@) && s@ == vstd::utf8::decode_utf8(self@),
                Err(e) => !vstd::utf8::valid_utf8(self@) && is_api_error(
                    e,
                    self.endpoint(),
                    0,
                    "Invalid UTF-8 in response"@,
                ),
            },
    {
        match text_from_utf8(self.buf) {
            Some(s) => Ok(s),
            None => Err(api_error(self.endpoint.as_str(), 0, "Invalid UTF-8 in response")),
        }
    }
}

/// What has been read once all pieces have been fed: `None` where one of them
/// was refused.
pub open spec fn fed(chunks: Seq<Seq<u8>>) -> Option<Seq<u8>>
    decreases chunks.len(),
{
    if chunks.len() == 0 {
        Some(Seq::empty())
    } else {
        match fed(chunks.drop_last()) {
            Some(b) => if b.len() + chunks.last().len() <= MAX_RESPONSE_BYTES {
                Some(b + chunks.last())
            } else {
                None
            },
            None => None,
        }
    }
}

/// The pieces put together.
pub open spec fn whole(chunks: Seq<Seq<u8>>) -> Seq<u8>
    decreases chunks.len(),
{
    if chunks.len() == 0 {
        Seq::empty()
    } else {
        whole(chunks.drop_last()) + chunks.last()
    }
}

/// How a body is cut into pieces does not matter: it is read as a whole if it
/// is within the limit, and refused if it is not.
pub proof fn law_chunking_does_not_evade_the_limit(chunks: Seq<Seq<u8>>)
    ensures
        fed(chunks) == if whole(chunks).len() <= MAX_RESPONSE_BYTES {
            Some(whole(chunks))
        } else {
            None
        },
    decreases chunks.len(),
{
    if chunks.len() > 0 {
        law_chunking_does_not_evade_the_limit(chunks.drop_last());
    }
}

/// A question that is asked without a token, and whose failure is told in
/// general words.
#[derive(Debug, Clone, Copy, PartialEq, Eq, Structural)]
pub enum Lookup {
    EndpointParams,
    Endpoints,
    WellKnownNodeinfo,
    Nodeinfo,
    ServerMeta,
}

impl Lookup {
    /// How the endpoint is named in errors.
    pub open spec fn name(self) -> Seq<char> {
        match self {
            Lookup::EndpointParams => "endpoint"@,
            Lookup::Endpoints => "endpoints"@,
            Lookup::WellKnownNodeinfo => ".well-known/nodeinfo"@,
            Lookup::Nodeinfo => "nodeinfo"@,
            Lookup::ServerMeta => "meta"@,
        }
    }

    /// What is said of a failure.
    pub open spec fn complaint(self) -> Seq<char> {
        match self {
            Lookup::EndpointParams => "Failed to fetch endpoint info"@,
            Lookup::Endpoints => "Failed to fetch endpoints"@,
            Lookup::WellKnownNodeinfo => "Failed to fetch well-known nodeinfo"@,
            Lookup::Nodeinfo => "Failed to fetch nodeinfo"@,
            Lookup::ServerMeta => "Failed to fetch server meta"@,
        }
    }

    /// The error for an answer that reports a failure.
    pub fn failed(self, status: u16) -> (r: NoteDeckError)
        ensures
            is_api_error(r, self.name(), status as int, self.complaint()),
    {
        match self {
            Lookup::EndpointParams => api_error(
                "endpoint",
                status,
                "Failed to fetch endpoint info",
            ),
            Lookup::Endpoints => api_error("endpoints", status, "Failed to fetch endpoints"),
            Lookup::WellKnownNodeinfo => api_error(
                ".well-known/nodeinfo",
                status,
                "Failed to fetch well-known nodeinfo",
            ),
            Lookup::Nodeinfo => api_error("nodeinfo", status, "Failed to fetch nodeinfo"),
            Lookup::ServerMeta => api_error("meta", status, "Failed to fetch server meta"),
        }
    }
}

/// The first entry of a list, where it is a list that has one.
pub open spec fn first_of(j: JsonV) -> Option<JsonV> {
    match j.items() {
        Some(v) => if v.len() > 0 {
            Some(v[0])
        } else {
            None
        },
        None => None,
    }
}

/// The second entry of a list, where it is a list that has one.
pub open spec fn second_of(j: JsonV) -> Option<JsonV> {
    match j.items() {
        Some(v) => if v.len() > 1 {
            Some(v[1])
        } else {
            None
        },
        None => None,
    }
}

/// The reactions of the first palette of the first entry. An entry is a list of
/// a scope and of palettes; a palette lists its reactions as `emojis`.
pub open spec fn palette(data: JsonV) -> Option<Seq<Seq<char>>> {
    match first_of(data) {
        Some(entry) => match second_of(entry) {
            Some(palettes) => match first_of(palettes) {
                Some(p) => match p.member("emojis"@) {
                    Some(e) => match e.items() {
                        Some(v) => Some(json::strings_among(v)),
                        None => None,
                    },
                    None => None,
                },
                None => None,
            },
            None => None,
        },
        None => None,
    }
}

/// The strings of a list, where there is a list.
pub open spec fn opt_texts(o: Option<Vec<String>>) -> Option<Seq<Seq<char>>> {
    match o {
        Some(v) => Some(text::texts(v@)),
        None => None,
    }
}

fn item_at(j: &Json, i: usize) -> (r: Option<&Json>)
    ensures
        match j@.items() {
            Some(v) => if i < v.len() {
                r matches Some(x) && x@ == v[i as int]
            } else {
                r is None
            },
            None => r is None,
        },
{
    match j.as_array() {
        Some(v) => if i < v.len() {
            Some(&v[i])
        } else {
            None
        },
        None => None,
    }
}

/// Reads the reactions of a palette.
pub fn extract_reaction_palette(data: &Json) -> (r: Option<Vec<String>>)
    ensures
        opt_texts(r) == palette(data@),
{
    let entry = match item_at(data, 0) {
        Some(x) => x,
        None => {
            return None;
        },
    };
    let palettes = match item_at(entry, 1) {
        Some(x) => x,
        None => {
            return None;
        },
    };
    let first = match item_at(palettes, 0) {
        Some(x) => x,
        None => {
            return None;
        },
    };
    match first.get("emojis") {
        Some(e) => match e.as_array() {
            Some(v) => Some(Json::strings_in(v)),
            None => None,
        },
        None => None,
    }
}

/// The pinned reactions that an answer tells.
pub open spec fn pinned_in(answer: Result<Json, NoteDeckError>) -> Seq<Seq<char>> {
    match answer {
        Ok(data) => match palette(data@) {
            Some(v) => v,
            None => Seq::empty(),
        },
        Err(_) => Seq::empty(),
    }
}

/// The pinned reactions, given the answer to the question for them. Where it
/// failed or holds no palette there are none.
pub fn pinned_reactions(answer: Result<Json, NoteDeckError>) -> (r: Vec<String>)
    ensures
        text::texts(r@) == pinned_in(answer),
{
    match answer {
        Ok(data) => match extract_reaction_palette(&data) {
            Some(emojis) => {
                return emojis;
            },
            None => {},
        },
        Err(_) => {},
    }
    let none: Vec<String> = Vec::new();
    proof {
        assert(text::texts(none@) =~= Seq::empty());
    }
    none
}

/// The notes inside the entries of a list of favourites: those of the entries
/// that have one, in order.
pub open spec fn favorite_notes(items: Seq<JsonV>) -> Seq<JsonV>
    decreases items.len(),
{
    if items.len() == 0 {
        Seq::empty()
    } else {
        let rest = favorite_notes(items.drop_last());
        match items.last().member("note"@) {
            Some(n) => rest.push(n),
            None => rest,
        }
    }
}

/// Takes the notes out of a list of favourites.
pub fn notes_of_favorites(data: &Json) -> (r: Result<Vec<Json>, NoteDeckError>)
    ensures
        match r {
            Ok(v) => data@ matches JsonV::Array(items) && json::items_view(v@) == favorite_notes(
                items,
            ),
            Err(e) => !(data@ is Array) && e is Json,
        },
{
    let items = match data.as_array() {
        Some(v) => v,
        None => {
            return Err(data.not_a_list());
        },
    };
    let mut out: Vec<Json> = Vec::new();
    let ghost all = json::items_view(items@);
    proof {
        assert(json::items_view(out@) =~= favorite_notes(all.take(0)));
    }
    let mut i: usize = 0;
    while i < items.len()
        invariant
            0 <= i <= items@.len(),
            all == json::items_view(items@),
            json::items_view(out@) == favorite_notes(all.take(i as int)),
        decreases items@.len() - i,
    {
        let ghost before = out@;
        proof {
            assert(all.take(i + 1).drop_last() =~= all.take(i as int));
            assert(all.take(i + 1).last() == items@[i as int]@);
        }
        match items[i].get("note") {
            Some(n) => {
                let note = n.copy();
                out.push(note);
                proof {
                    assert(json::items_view(out@) =~= json::items_view(before).push(note@));
                }
            },
            None => {},
        }
        i += 1;
    }
    proof {
        assert(all.take(i as int) =~= all);
    }
    Ok(out)
}

/// The channels of some lists, in order and each once: of two with one id the
/// first stays.
pub open spec fn merged(lists: Seq<Seq<Channel>>) -> Seq<Channel>
    decreases lists.len(),
{
    if lists.len() == 0 {
        Seq::empty()
    } else {
        taken_in(merged(lists.drop_last()), lists.last())
    }
}

/// Whether a channel with that id is listed.
pub open spec fn lists_id(channels: Seq<Channel>, id: Seq<char>) -> bool {
    exists|i: int| 0 <= i < channels.len() && (#[trigger] channels[i]).id@ == id
}

/// The channels with those of a list that are new added to them.
pub open spec fn taken_in(known: Seq<Channel>, list: Seq<Channel>) -> Seq<Channel>
    decreases list.len(),
{
    if list.len() == 0 {
        known
    } else {
        let before = taken_in(known, list.drop_last());
        if lists_id(before, list.last().id@) {
            before
        } else {
            before.push(list.last())
        }
    }
}

fn has_id(channels: &Vec<Channel>, id: &str) -> (r: bool)
    ensures
        r == lists_id(channels@, id@),
{
    let mut i: usize = 0;
    while i < channels.len()
        invariant
            0 <= i <= channels@.len(),
            forall|k: int| 0 <= k < i ==> (#[trigger] channels@[k]).id@ != id@,
        decreases channels@.len() - i,
    {
        if text::same(channels[i].id.as_str(), id) {
            return true;
        }
        i += 1;
    }
    false
}

/// The lists of channels.
pub open spec fn lists_view(v: Seq<Vec<Channel>>) -> Seq<Seq<Channel>> {
    Seq::new(v.len(), |i: int| v[i]@)
}

fn take_in(known: &mut Vec<Channel>, list: Vec<Channel>)
    ensures
        final(known)@ == taken_in(old(known)@, list@),
{
    let ghost all = list@;
    let ghost start = known@;
    let mut rest = list;
    let mut reversed: Vec<Channel> = Vec::new();
    while rest.len() > 0
        invariant
            rest@.len() + reversed@.len() == all.len(),
            rest@ =~= all.take(rest@.len() as int),
            forall|k: int|
                0 <= k < reversed@.len() ==> #[trigger] reversed@[k] == all[all.len() - 1 - k],
        decreases rest@.len(),
    {
        match rest.pop() {
            Some(c) => {
                reversed.push(c);
            },
            None => {},
        }
    }
    proof {
        assert(all.take(0) =~= Seq::<Channel>::empty());
    }
    while reversed.len() > 0
        invariant
            reversed@.len() <= all.len(),
            forall|k: int|
                0 <= k < reversed@.len() ==> #[trigger] reversed@[k] == all[all.len() - 1 - k],
            known@ == taken_in(start, all.take(all.len() - reversed@.len())),
        decreases reversed@.len(),
    {
        let ghost done = all.len() - reversed@.len();
        match reversed.pop() {
            Some(c) => {
                proof {
                    assert(c == all[done]);
                    assert(all.take(done + 1).drop_last() =~= all.take(done));
                    assert(all.take(done + 1).last() == c);
                }
                if !has_id(known, c.id.as_str()) {
                    known.push(c);
                }
            },
            None => {},
        }
    }
    proof {
        assert(all.take(all.len() as int) =~= all);
    }
}

/// Puts lists of channels together, in order; of two channels with one id the
/// first stays.
pub fn merge_channels(lists: Vec<Vec<Channel>>) -> (r: Vec<Channel>)
    ensures
        r@ == merged(lists_view(lists@)),
{
    let ghost all = lists_view(lists@);
    let mut rest = lists;
    let mut reversed: Vec<Vec<Channel>> = Vec::new();
    while rest.len() > 0
        invariant
            rest@.len() + reversed@.len() == all.len(),
            lists_view(rest@) =~= all.take(rest@.len() as int),
            forall|k: int|
                0 <= k < reversed@.len() ==> (#[trigger] reversed@[k])@ == all[all.len() - 1 - k],
        decreases rest@.len(),
    {
        let ghost before = rest@;
        match rest.pop() {
            Some(l) => {
                proof {
                    assert(l@ == lists_view(before)[before.len() - 1]);
                    assert(lists_view(rest@) =~= lists_view(before).drop_last());
                }
                reversed.push(l);
            },
            None => {},
        }
    }
    let mut out: Vec<Channel> = Vec::new();
    proof {
        assert(out@ =~= merged(all.take(0)));
    }
    while reversed.len() > 0
        invariant
            reversed@.len() <= all.len(),
            forall|k: int|
                0 <= k < reversed@.len() ==> (#[trigger] reversed@[k])@ == all[all.len() - 1 - k],
            out@ == merged(all.take(all.len() - reversed@.len())),
        decreases reversed@.len(),
    {
        let ghost done = all.len() - reversed@.len();
        match reversed.pop() {
            Some(l) => {
                proof {
                    assert(l@ == all[done]);
                    assert(all.take(done + 1).drop_last() =~= all.take(done));
                    assert(all.take(done + 1).last() == l@);
                }
                take_in(&mut out, l);
            },
            None => {},
        }
    }
    proof {
        assert(all.take(all.len() as int) =~= all);
    }
    out
}

/// Whether no two channels have one id.
pub open spec fn distinct_ids(channels: Seq<Channel>) -> bool {
    forall|i: int, j: int|
        0 <= i < j < channels.len() ==> (#[trigger] channels[i]).id@ != (#[trigger] channels[j]).id@
}

proof fn lemma_taken_in(known: Seq<Channel>, list: Seq<Channel>)
    requires
        distinct_ids(known),
    ensures
        distinct_ids(taken_in(known, list)),
        known.is_prefix_of(taken_in(known, list)),
        forall|k: int|
            0 <= k < list.len() ==> lists_id(taken_in(known, list), (#[trigger] list[k]).id@),
    decreases list.len(),
{
    if list.len() > 0 {
        lemma_taken_in(known, list.drop_last());
        let before = taken_in(known, list.drop_last());
        let after = taken_in(known, list);
        if !lists_id(before, list.last().id@) {
            assert(after == before.push(list.last()));
            assert forall|i: int, j: int| 0 <= i < j < after.len() implies (#[trigger] after[i]).id@
                != (#[trigger] after[j]).id@ by {
                assert(after[i] == before[i]);
                if j < before.len() {
                    assert(after[j] == before[j]);
                }
            }
            assert(after[before.len() as int].id@ == list.last().id@);
        }
        assert forall|k: int| 0 <= k < list.len() implies lists_id(after, (#[trigger] list[k]).id@) by {
            if k < list.len() - 1 {
                assert(list.drop_last()[k] == list[k]);
                let i = choose|i: int|
                    0 <= i < before.len() && (#[trigger] before[i]).id@ == list[k].id@;
                assert(after[i].id@ == list[k].id@);
            }
        }
    }
}

/// No channel is listed twice, every channel of every list is there, and the
/// channels of the earlier lists come first.
pub proof fn law_merge_keeps_each_channel_once(lists: Seq<Seq<Channel>>)
    ensures
        distinct_ids(merged(lists)),
        forall|l: int, k: int|
            0 <= l < lists.len() && 0 <= k < lists[l].len() ==> lists_id(
                merged(lists),
                (#[trigger] lists[l][k]).id@,
            ),
        lists.len() > 0 ==> merged(lists.drop_last()).is_prefix_of(merged(lists)),
    decreases lists.len(),
{
    if lists.len() > 0 {
        law_merge_keeps_each_channel_once(lists.drop_last());
        lemma_taken_in(merged(lists.drop_last()), lists.last());
        let before = merged(lists.drop_last());
        let after = merged(lists);
        assert forall|l: int, k: int|
            0 <= l < lists.len() && 0 <= k < lists[l].len() implies lists_id(
            after,
            (#[trigger] lists[l][k]).id@,
        ) by {
            if l < lists.len() - 1 {
                assert(lists.drop_last()[l] == lists[l]);
                let c = lists.drop_last()[l][k];
                let i = choose|i: int| 0 <= i < before.len() && (#[trigger] before[i]).id@ == c.id@;
                assert(after[i] == before[i]);
            } else {
                assert(lists.last()[k].id@ == lists[l][k].id@);
            }
        }
    }
}

/// Whether `r` is what an answer to an authentication leads to.
pub open spec fn is_auth_outcome(
    ok: bool,
    token: Option<String>,
    user: Option<NormalizedUser>,
    r: Result<AuthResult, NoteDeckError>,
) -> bool {
    match r {
        Ok(a) => ok && token == Some(a.token) && user == Some(a.user),
        Err(NoteDeckError::Auth(m)) => m@ == if !ok {
            "MiAuth authentication was not completed"@
        } else if token is None {
            "MiAuth response missing token"@
        } else {
            "MiAuth response missing user"@
        } && (!ok || token is None || user is None),
        Err(_) => false,
    }
}

/// The outcome of an authentication, given what the server answered.
pub fn complete_auth(ok: bool, token: Option<String>, user: Option<NormalizedUser>) -> (r: Result<
    AuthResult,
    NoteDeckError,
>)
    ensures
        is_auth_outcome(ok, token, user, r),
{
    if !ok {
        return Err(NoteDeckError::Auth("MiAuth authentication was not completed".to_owned()));
    }
    match token {
        Some(token) => match user {
            Some(user) => Ok(AuthResult { token, user }),
            None => Err(NoteDeckError::Auth("MiAuth response missing user".to_owned())),
        },
        None => Err(NoteDeckError::Auth("MiAuth response missing token".to_owned())),
    }
}

/// The error for an authentication that the server answered with a failure.
pub fn auth_failed(status: u16) -> (r: NoteDeckError)
    ensures
        r matches NoteDeckError::Auth(m) && m@ == "MiAuth check failed: "@ + text::decimal(
            status as int,
        ),
{
    let mut message = "MiAuth check failed: ".to_owned();
    message.append(text::decimal_of(status as i64).as_str());
    NoteDeckError::Auth(message)
}

/// Whether `r` is what a scope of the registry holds.
pub open spec fn is_scope(
    answer: Result<Json, NoteDeckError>,
    r: Result<Option<Json>, NoteDeckError>,
) -> bool {
    match answer {
        Ok(v) => r matches Ok(o) && json::opt_json(o) == if v@ == json::empty_object() {
            None
        } else {
            Some(v@)
        },
        Err(e) => if e is Api {
            r matches Ok(o) && o is None
        } else {
            r == Err::<Option<Json>, NoteDeckError>(e)
        },
    }
}

/// What a scope of the registry holds, given the answer to the question for it.
/// Nothing, or a refusal of the server, stands for an empty scope; any other
/// error is handed on.
pub fn registry_all(answer: Result<Json, NoteDeckError>) -> (r: Result<Option<Json>, NoteDeckError>)
    ensures
        is_scope(answer, r),
{
    match answer {
        Ok(v) => {
            let empty = match v.as_object() {
                Some(members) => members.len() == 0,
                None => false,
            };
            proof {
                v.lemma_view_parts();
                if empty {
                    assert(v@ =~= json::empty_object()) by {
                        assert(v@->Object_0 =~= Seq::empty());
                    }
                } else if v@ is Object {
                    assert(v@->Object_0.len() > 0);
                }
            }
            if empty {
                Ok(None)
            } else {
                Ok(Some(v))
            }
        },
        Err(e) => match e {
            NoteDeckError::Api { .. } => Ok(None),
            _ => Err(e),
        },
    }
}

/// The number of unread notifications that an answer tells.
pub open spec fn unread_in(data: JsonV) -> int {
    match data.member("count"@) {
        Some(c) => match c.integer() {
            Some(n) => n,
            None => 0,
        },
        None => 0,
    }
}

/// Whether an answer tells of an unread chat.
pub open spec fn tells_unread_chat(data: JsonV) -> bool {
    data.truth() == Some(true)
}

/// The ids of the pinned notes that an answer lists.
pub open spec fn pinned_ids(data: JsonV) -> Seq<Seq<char>> {
    match data.member("pinnedNoteIds"@) {
        Some(ids) => match ids.items() {
            Some(v) => json::strings_among(v),
            None => Seq::empty(),
        },
        None => Seq::empty(),
    }
}

/// The number of unread notifications: zero where the answer tells none.
pub fn unread_notification_count(data: &Json) -> (r: i64)
    ensures
        r as int == unread_in(data@),
{
    match data.get("count") {
        Some(c) => match c.as_i64() {
            Some(n) => n,
            None => 0,
        },
        None => 0,
    }
}

/// Whether there is an unread chat: no, where the answer does not tell.
pub fn unread_chat(data: &Json) -> (r: bool)
    ensures
        r == tells_unread_chat(data@),
{
    match data.as_bool() {
        Some(b) => b,
        None => false,
    }
}

/// The ids of the pinned notes of a user: none, where the answer lists none.
pub fn pinned_note_ids(data: &Json) -> (r: Vec<String>)
    ensures
        text::texts(r@) == pinned_ids(data@),
{
    match data.get("pinnedNoteIds") {
        Some(ids) => match ids.as_array() {
            Some(v) => {
                return Json::strings_in(v);
            },
            None => {},
        },
        None => {},
    }
    let none: Vec<String> = Vec::new();
    proof {
        assert(text::texts(none@) =~= Seq::empty());
    }
    none
}

/// The names of the members of an object, in order.
pub open spec fn names_of(members: Seq<(Seq<char>, JsonV)>) -> Seq<Seq<char>> {
    Seq::new(members.len(), |i: int| members[i].0)
}

/// The names that the items of a list give themselves, of those that do.
pub open spec fn item_names(items: Seq<JsonV>) -> Seq<Seq<char>>
    decreases items.len(),
{
    if items.len() == 0 {
        Seq::empty()
    } else {
        let rest = item_names(items.drop_last());
        match items.last().text_member("name"@) {
            Some(name) => rest.push(name),
            None => rest,
        }
    }
}

/// The parameters that an endpoint lists under `properties`.
pub open spec fn property_names(data: JsonV) -> Seq<Seq<char>> {
    match data.member("params"@) {
        Some(p) => match p.member("properties"@) {
            Some(JsonV::Object(members)) => names_of(members),
            _ => Seq::empty(),
        },
        None => Seq::empty(),
    }
}

/// The parameters of an endpoint: those it lists under `properties`, or else
/// those it lists one by one.
pub open spec fn parameter_names(data: JsonV) -> Seq<Seq<char>> {
    if property_names(data).len() > 0 {
        property_names(data)
    } else {
        match data.member("params"@) {
            Some(JsonV::Array(items)) => item_names(items),
            _ => Seq::empty(),
        }
    }
}

fn properties_in(data: &Json) -> (r: Vec<String>)
    ensures
        text::texts(r@) == property_names(data@),
{
    let mut out: Vec<String> = Vec::new();
    proof {
        assert(text::texts(out@) =~= Seq::empty());
    }
    let p = match data.get("params") {
        Some(p) => p,
        None => {
            return out;
        },
    };
    let props = match p.get("properties") {
        Some(x) => x,
        None => {
            return out;
        },
    };
    match props.as_object() {
        Some(members) => {
            let mut i: usize = 0;
            let ghost all = names_of(json::members_view(members@));
            while i < members.len()
                invariant
                    0 <= i <= members@.len(),
                    all == names_of(json::members_view(members@)),
                    text::texts(out@) =~= all.take(i as int),
                decreases members@.len() - i,
            {
                let ghost before = out@;
                let name = members[i].0.clone();
                out.push(name);
                proof {
                    assert(text::texts(out@) =~= text::texts(before).push(name@));
                    assert(all[i as int] == name@);
                }
                i += 1;
            }
            proof {
                assert(all.take(i as int) =~= all);
            }
        },
        None => {},
    }
    out
}

fn listed_names(data: &Json) -> (r: Vec<String>)
    ensures
        text::texts(r@) == match data@.member("params"@) {
            Some(JsonV::Array(items)) => item_names(items),
            _ => Seq::<Seq<char>>::empty(),
        },
{
    let mut out: Vec<String> = Vec::new();
    proof {
        assert(text::texts(out@) =~= Seq::empty());
    }
    let p = match data.get("params") {
        Some(p) => p,
        None => {
            return out;
        },
    };
    match p.as_array() {
        Some(items) => {
            let ghost all = json::items_view(items@);
            proof {
                assert(text::texts(out@) =~= item_names(all.take(0)));
            }
            let mut i: usize = 0;
            while i < items.len()
                invariant
                    0 <= i <= items@.len(),
                    all == json::items_view(items@),
                    text::texts(out@) == item_names(all.take(i as int)),
                decreases items@.len() - i,
            {
                let ghost before = out@;
                proof {
                    assert(all.take(i + 1).drop_last() =~= all.take(i as int));
                    assert(all.take(i + 1).last() == items@[i as int]@);
                }
                match items[i].str_at("name") {
                    Some(name) => {
                        let owned = name.to_owned();
                        out.push(owned);
                        proof {
                            assert(text::texts(out@) =~= text::texts(before).push(owned@));
                        }
                    },
                    None => {},
                }
                i += 1;
            }
            proof {
                assert(all.take(i as int) =~= all);
            }
        },
        None => {},
    }
    out
}

/// Reads the parameters of an endpoint.
pub fn endpoint_params(data: &Json) -> (r: Vec<String>)
    ensures
        text::texts(r@) == parameter_names(data@),
{
    let found = properties_in(data);
    if found.len() > 0 {
        return found;
    }
    listed_names(data)
}

/// Reads the parameters of an endpoint from the text of an answer.
pub fn endpoint_params_in(body: &str) -> (r: Result<Vec<String>, NoteDeckError>)
    ensures
        match json::parsed_json(body@) {
            Some(j) => r matches Ok(v) && text::texts(v@) == parameter_names(j),
            None => r matches Err(e) && e is Json,
        },
{
    match Json::parse(body) {
        Ok(j) => Ok(endpoint_params(&j)),
        Err(e) => Err(e),
    }
}

/// Reads the endpoints of a server from the text of an answer.
pub fn endpoints_in(body: &str) -> (r: Result<Vec<String>, NoteDeckError>)
    ensures
        match json::parsed_json(body@) {
            Some(j) => match r {
                Ok(v) => j.is_str_list() && j == json::str_list(text::texts(v@)),
                Err(e) => !j.is_str_list() && e is Json,
            },
            None => r matches Err(e) && e is Json,
        },
{
    match Json::parse(body) {
        Ok(j) => j.string_list(),
        Err(e) => Err(e),
    }
}

/// Whether the name of a member is that of a mode of the user: `isIn...Mode`.
pub open spec fn is_user_mode(name: Seq<char>) -> bool {
    "isIn"@.is_prefix_of(name) && "Mode"@.is_suffix_of(name)
}

/// The flags with those of an object added to them: its members that are true
/// or false, or only those among them that are modes of the user.
pub open spec fn flags_with(
    flags: Map<Seq<char>, bool>,
    members: Seq<(Seq<char>, JsonV)>,
    modes_only: bool,
) -> Map<Seq<char>, bool>
    decreases members.len(),
{
    if members.len() == 0 {
        flags
    } else {
        let rest = flags_with(flags, members.drop_last(), modes_only);
        let (name, value) = members.last();
        match value.truth() {
            Some(b) => if !modes_only || is_user_mode(name) {
                rest.insert(name, b)
            } else {
                rest
            },
            None => rest,
        }
    }
}

/// The members of an object; none, of anything else.
pub open spec fn members_of(j: Option<JsonV>) -> Seq<(Seq<char>, JsonV)> {
    match j {
        Some(JsonV::Object(members)) => members,
        _ => Seq::empty(),
    }
}

/// The policies and modes of the user: the policies that are true or false,
/// and then the modes that the answer itself has.
pub open spec fn policies(data: JsonV) -> Map<Seq<char>, bool> {
    flags_with(
        flags_with(Map::empty(), members_of(data.member("policies"@)), false),
        members_of(Some(data)),
        true,
    )
}

fn add_flags(flags: &mut Table<bool>, j: &Json, modes_only: bool)
    requires
        old(flags).wf(),
    ensures
        final(flags).wf(),
        final(flags)@ == flags_with(old(flags)@, members_of(Some(j@)), modes_only),
{
    match j.as_object() {
        Some(members) => {
            let ghost all = json::members_view(members@);
            let ghost start = flags@;
            proof {
                assert(all.take(0) =~= Seq::empty());
            }
            let mut i: usize = 0;
            while i < members.len()
                invariant
                    0 <= i <= members@.len(),
                    all == json::members_view(members@),
                    flags.wf(),
                    flags@ == flags_with(start, all.take(i as int), modes_only),
                decreases members@.len() - i,
            {
                proof {
                    assert(all.take(i + 1).drop_last() =~= all.take(i as int));
                    assert(all.take(i + 1).last() == (
                        members@[i as int].0@,
                        members@[i as int].1@,
                    ));
                }
                let name = members[i].0.as_str();
                match members[i].1.as_bool() {
                    Some(b) => {
                        if !modes_only || (text::starts_with(name, "isIn") && text::ends_with(
                            name,
                            "Mode",
                        )) {
                            flags.insert(name, b);
                        }
                    },
                    None => {},
                }
                i += 1;
            }
            proof {
                assert(all.take(i as int) =~= all);
            }
        },
        None => {},
    }
}

/// Reads the policies and modes of the user.
pub fn user_policies(data: &Json) -> (r: Table<bool>)
    ensures
        r.wf(),
        r@ == policies(data@),
{
    let mut flags: Table<bool> = Table::new();
    match data.get("policies") {
        Some(p) => {
            add_flags(&mut flags, p, false);
        },
        None => {},
    }
    add_flags(&mut flags, data, true);
    flags
}

/// The address that a link gives for what a server tells of itself.
pub open spec fn nodeinfo_link(link: JsonV) -> Option<Seq<char>> {
    match link.text_member("rel"@) {
        Some(rel) => if text::has_substring(rel, "nodeinfo"@) {
            link.text_member("href"@)
        } else {
            None
        },
        None => None,
    }
}

/// The first such address in a list of links.
pub open spec fn first_nodeinfo_link(links: Seq<JsonV>) -> Option<Seq<char>>
    decreases links.len(),
{
    if links.len() == 0 {
        None
    } else {
        match nodeinfo_link(links.first()) {
            Some(url) => Some(url),
            None => first_nodeinfo_link(links.drop_first()),
        }
    }
}

/// The address of what a server tells of itself, as it gives it.
pub open spec fn stated_nodeinfo_url(well_known: JsonV) -> Option<Seq<char>> {
    match well_known.member("links"@) {
        Some(JsonV::Array(links)) => first_nodeinfo_link(links),
        _ => None,
    }
}

/// Where everything on a server lies.
pub open spec fn server_root(host: Seq<char>) -> Seq<char> {
    "https://"@ + host + "/"@
}

/// What is made of a list of links: the address that it gives, if that lies on
/// the server, and else an error.
pub open spec fn gives_nodeinfo_url(
    r: Result<String, NoteDeckError>,
    host: Seq<char>,
    well_known: JsonV,
) -> bool {
    match stated_nodeinfo_url(well_known) {
        Some(url) => if server_root(host).is_prefix_of(url) {
            r matches Ok(u) && u@ == url
        } else {
            r matches Err(e) && is_api_error(
                e,
                ".well-known/nodeinfo"@,
                0,
                "Nodeinfo URL host/scheme mismatch for "@ + host,
            )
        },
        None => r matches Err(e) && is_api_error(
            e,
            ".well-known/nodeinfo"@,
            0,
            "No nodeinfo URL found for "@ + host,
        ),
    }
}

/// Finds the address of what a server tells of itself. One that does not lie
/// on that server is refused: what is found starts with `https://`, the name of
/// the server and a slash.
pub fn nodeinfo_url(host: &str, well_known: &Json) -> (r: Result<String, NoteDeckError>)
    ensures
        r matches Ok(u) ==> server_root(host@).is_prefix_of(u@),
        gives_nodeinfo_url(r, host@, well_known@),
{
    let url = match find_nodeinfo_url(well_known) {
        Some(u) => u,
        None => {
            let mut m = "No nodeinfo URL found for ".to_owned();
            m.append(host);
            return Err(api_error(".well-known/nodeinfo", 0, m.as_str()));
        },
    };
    let mut root = "https://".to_owned();
    root.append(host);
    root.append("/");
    if !text::starts_with(url.as_str(), root.as_str()) {
        let mut m = "Nodeinfo URL host/scheme mismatch for ".to_owned();
        m.append(host);
        return Err(api_error(".well-known/nodeinfo", 0, m.as_str()));
    }
    Ok(url)
}

/// Finds the address of what a server tells of itself in the text of an answer.
pub fn nodeinfo_url_in(host: &str, body: &str) -> (r: Result<String, NoteDeckError>)
    ensures
        r matches Ok(u) ==> server_root(host@).is_prefix_of(u@),
        match json::parsed_json(body@) {
            Some(j) => gives_nodeinfo_url(r, host@, j),
            None => r matches Err(e) && e is Json,
        },
{
    match Json::parse(body) {
        Ok(j) => nodeinfo_url(host, &j),
        Err(e) => Err(e),
    }
}

fn find_nodeinfo_url(well_known: &Json) -> (r: Option<String>)
    ensures
        text::opt_text(r) == stated_nodeinfo_url(well_known@),
{
    let links = match well_known.get("links") {
        Some(l) => match l.as_array() {
            Some(v) => v,
            None => {
                return None;
            },
        },
        None => {
            return None;
        },
    };
    let ghost all = json::items_view(links@);
    proof {
        assert(all.skip(0) =~= all);
    }
    let mut i: usize = 0;
    while i < links.len()
        invariant
            0 <= i <= links@.len(),
            all == json::items_view(links@),
            stated_nodeinfo_url(well_known@) == first_nodeinfo_link(all.skip(i as int)),
        decreases links@.len() - i,
    {
        proof {
            assert(all.skip(i as int).first() == links@[i as int]@);
            assert(all.skip(i as int).drop_first() =~= all.skip(i + 1));
        }
        match links[i].str_at("rel") {
            Some(rel) => {
                if text::contains(rel, "nodeinfo") {
                    match links[i].str_at("href") {
                        Some(href) => {
                            return Some(href.to_owned());
                        },
                        None => {},
                    }
                }
            },
            None => {},
        }
        i += 1;
    }
    None
}

/// The error for a file that could not be uploaded: the text of the answer is
/// its message.
pub fn upload_failed(status: u16, body: Option<&str>) -> (r: NoteDeckError)
    ensures
        is_api_error(
            r,
            "drive/files/create"@,
            status as int,
            match body {
                Some(b) => b@,
                None => ""@,
            },
        ),
{
    match body {
        Some(b) => api_error("drive/files/create", status, b),
        None => api_error("drive/files/create", status, ""),
    }
}

/// What is told of a failed request: the message of the server where it is text, or
/// else its code where there is no message, behind the name of the endpoint; and the
/// status in brackets where the server told nothing that can be read.
pub proof fn law_failure_is_told_as_the_server_told_it(
    body: JsonV,
    endpoint: Seq<char>,
    status: int,
    e: JsonV,
    message: Seq<char>,
)
    requires
        body.member("error"@) == Some(e),
    ensures
        e.member("message"@) == Some(JsonV::Str(message)) ==> failure_detail(body) == Some(message),
        e.member("message"@) is None && e.member("code"@) == Some(JsonV::Str(message))
            ==> failure_detail(body) == Some(message),
        e.member("message"@) is None && e.member("code"@) is None ==> failure_detail(body) is None,
        (e.member("message"@) matches Some(m) && !(m is Str)) ==> failure_detail(body) is None,
        failure_message(endpoint, status, Some(message)) == endpoint + ": "@ + message,
        failure_message(endpoint, status, None) == endpoint + " ("@ + text::decimal(status) + ")"@,
        detail_of(None) is None,
        detail_of(Some(body)) == failure_detail(body),
{
}

/// What is told of a lookup that failed, by what was looked up.
pub proof fn law_lookups_are_told_by_name(of: Lookup)
    ensures
        of is EndpointParams ==> of.name() == "endpoint"@ && of.complaint()
            == "Failed to fetch endpoint info"@,
        of is Endpoints ==> of.name() == "endpoints"@ && of.complaint()
            == "Failed to fetch endpoints"@,
        of is WellKnownNodeinfo ==> of.name() == ".well-known/nodeinfo"@ && of.complaint()
            == "Failed to fetch well-known nodeinfo"@,
        of is Nodeinfo ==> of.name() == "nodeinfo"@ && of.complaint() == "Failed to fetch nodeinfo"@,
        of is ServerMeta ==> of.name() == "meta"@ && of.complaint() == "Failed to fetch server meta"@,
        MAX_RESPONSE_BYTES == 50 * 1024 * 1024,
{
}

/// The pinned reactions are those of the first palette of the first entry, in order;
/// an answer that holds no such palette, or that failed, tells none.
pub proof fn law_pinned_reactions_are_those_of_the_first_palette(
    data: Json,
    entry: Seq<JsonV>,
    rest: Seq<JsonV>,
    palettes: Seq<JsonV>,
    emojis: Seq<JsonV>,
    s: Seq<char>,
    e: NoteDeckError,
)
    requires
        data@ == JsonV::Array(seq![JsonV::Array(entry)] + rest),
        entry.len() > 1,
        entry[1] == JsonV::Array(palettes),
        palettes.len() > 0,
        palettes[0].member("emojis"@) == Some(JsonV::Array(emojis)),
    ensures
        pinned_in(Ok(data)) == json::strings_among(emojis),
        pinned_in(Err(e)).len() == 0,
        palette(JsonV::Null) is None,
        palette(JsonV::Array(Seq::empty())) is None,
        json::strings_among(Seq::<JsonV>::empty()).len() == 0,
        json::strings_among(emojis.push(JsonV::Str(s))) == json::strings_among(emojis).push(s),
        json::strings_among(emojis.push(JsonV::Null)) == json::strings_among(emojis),
{
    assert((seq![JsonV::Array(entry)] + rest)[0] == JsonV::Array(entry));
    assert(emojis.push(JsonV::Str(s)).drop_last() =~= emojis);
    assert(emojis.push(JsonV::Null).drop_last() =~= emojis);
}

/// The notes of a list of favourites are taken out of its entries, in order; only an
/// entry without a note is passed over.
pub proof fn law_favorites_carry_their_notes(items: Seq<JsonV>, entry: JsonV, note: JsonV)
    ensures
        favorite_notes(Seq::<JsonV>::empty()).len() == 0,
        entry.member("note"@) == Some(note) ==> favorite_notes(items.push(entry)) == favorite_notes(
            items,
        ).push(note),
        entry.member("note"@) is None ==> favorite_notes(items.push(entry)) == favorite_notes(items),
{
    assert(items.push(entry).drop_last() =~= items);
}

/// An authentication succeeds if and only if the server says so and names the token
/// and the user, and those are what it brings; else it is told what is missing.
pub proof fn law_authentication_needs_token_and_user(
    ok: bool,
    token: Option<String>,
    user: Option<NormalizedUser>,
    r: Result<AuthResult, NoteDeckError>,
)
    requires
        is_auth_outcome(ok, token, user, r),
    ensures
        r is Ok <==> ok && token is Some && user is Some,
        r matches Ok(a) ==> token == Some(a.token) && user == Some(a.user),
        !ok ==> (r matches Err(NoteDeckError::Auth(m)) && m@
            == "MiAuth authentication was not completed"@),
        ok && token is None ==> (r matches Err(NoteDeckError::Auth(m)) && m@
            == "MiAuth response missing token"@),
        ok && token is Some && user is None ==> (r matches Err(NoteDeckError::Auth(m)) && m@
            == "MiAuth response missing user"@),
{
}

/// A scope of the registry that is empty or that the server refuses holds nothing; any
/// other is what the server sent, and any other error is handed on.
pub proof fn law_scope_is_what_the_server_sent(
    answer: Result<Json, NoteDeckError>,
    r: Result<Option<Json>, NoteDeckError>,
)
    requires
        is_scope(answer, r),
    ensures
        answer matches Ok(v) ==> r is Ok,
        answer matches Ok(v) ==> (v@ != JsonV::Object(Seq::empty()) ==> (r matches Ok(Some(j)) && j@
            == v@)),
        answer matches Ok(v) ==> (v@ == JsonV::Object(Seq::empty()) ==> (r matches Ok(None))),
        answer matches Err(e) ==> (e is Api ==> (r matches Ok(None))),
        answer matches Err(e) ==> (!(e is Api) ==> (r matches Err(x) && x == e)),
{
}

/// What small answers tell, and what is taken where they tell nothing: no unread
/// notifications, no unread chat, no pinned notes.
pub proof fn law_small_answers_are_read(data: JsonV, n: int, ids: Seq<JsonV>)
    ensures
        data.member("count"@) == Some(JsonV::Int(n)) && i64::MIN <= n <= i64::MAX ==> unread_in(data)
            == n,
        data.member("count"@) is None ==> unread_in(data) == 0,
        tells_unread_chat(JsonV::Bool(true)),
        !tells_unread_chat(JsonV::Bool(false)) && !tells_unread_chat(JsonV::Null),
        data.member("pinnedNoteIds"@) == Some(JsonV::Array(ids)) ==> pinned_ids(data)
            == json::strings_among(ids),
        data.member("pinnedNoteIds"@) is None ==> pinned_ids(data).len() == 0,
{
}

/// The parameters of an endpoint are all those that it lists under `properties`, in
/// order, or else, where it has none of these, the names of all that it lists one by
/// one.
pub proof fn law_every_parameter_is_named(
    data: JsonV,
    params: JsonV,
    members: Seq<(Seq<char>, JsonV)>,
    items: Seq<JsonV>,
    item: JsonV,
    name: Seq<char>,
    i: int,
)
    requires
        data.member("params"@) == Some(params),
    ensures
        params.member("properties"@) == Some(JsonV::Object(members)) && members.len() > 0
            ==> parameter_names(data).len() == members.len(),
        params.member("properties"@) == Some(JsonV::Object(members)) && 0 <= i < members.len()
            ==> parameter_names(data)[i] == members[i].0,
        params == JsonV::Array(items) ==> parameter_names(data) == item_names(items),
        item_names(Seq::<JsonV>::empty()).len() == 0,
        item.member("name"@) == Some(JsonV::Str(name)) ==> item_names(items.push(item)) == item_names(
            items,
        ).push(name),
        item.member("name"@) is None ==> item_names(items.push(item)) == item_names(items),
{
    assert(items.push(item).drop_last() =~= items);
}

/// The policies that are true or false count, whatever their names; of the members of
/// the answer itself only the modes do, `isIn...Mode`, and they come last, so they win.
pub proof fn law_policies_and_modes_count(
    flags: Map<Seq<char>, bool>,
    members: Seq<(Seq<char>, JsonV)>,
    name: Seq<char>,
    b: bool,
    other: JsonV,
    data: JsonV,
    own: Seq<(Seq<char>, JsonV)>,
)
    ensures
        flags_with(flags, Seq::<(Seq<char>, JsonV)>::empty(), false) == flags,
        flags_with(flags, members.push((name, JsonV::Bool(b))), false) == flags_with(
            flags,
            members,
            false,
        ).insert(name, b),
        "isIn"@.is_prefix_of(name) && "Mode"@.is_suffix_of(name) ==> flags_with(
            flags,
            members.push((name, JsonV::Bool(b))),
            true,
        ) == flags_with(flags, members, true).insert(name, b),
        !("isIn"@.is_prefix_of(name) && "Mode"@.is_suffix_of(name)) ==> flags_with(
            flags,
            members.push((name, JsonV::Bool(b))),
            true,
        ) == flags_with(flags, members, true),
        !(other is Bool) ==> flags_with(flags, members.push((name, other)), false) == flags_with(
            flags,
            members,
            false,
        ),
        data == JsonV::Object(own) && data.member("policies"@) == Some(JsonV::Object(members))
            ==> policies(data) == flags_with(flags_with(Map::empty(), members, false), own, true),
        data == JsonV::Object(own) && data.member("policies"@) is None ==> policies(data) == flags_with(
            Map::empty(),
            own,
            true,
        ),
{
    assert(members.push((name, JsonV::Bool(b))).drop_last() =~= members);
    assert(members.push((name, other)).drop_last() =~= members);
}

/// The address of what a server tells of itself is the first that a link for nodeinfo
/// gives, and only one on the server itself, over an encrypted connection, is taken.
pub proof fn law_nodeinfo_is_the_first_on_the_server(
    links: Seq<JsonV>,
    link: JsonV,
    rel: Seq<char>,
    href: Seq<char>,
    host: Seq<char>,
    well_known: JsonV,
    r: Result<String, NoteDeckError>,
)
    requires
        gives_nodeinfo_url(r, host, well_known),
    ensures
        first_nodeinfo_link(Seq::<JsonV>::empty()) is None,
        link.member("rel"@) == Some(JsonV::Str(rel)) && text::has_substring(rel, "nodeinfo"@)
            && link.member("href"@) == Some(JsonV::Str(href)) ==> first_nodeinfo_link(
            seq![link] + links,
        ) == Some(href),
        link.member("rel"@) is None || link.member("href"@) is None ==> first_nodeinfo_link(
            seq![link] + links,
        ) == first_nodeinfo_link(links),
        link.member("rel"@) == Some(JsonV::Str(rel)) && !text::has_substring(rel, "nodeinfo"@)
            ==> first_nodeinfo_link(seq![link] + links) == first_nodeinfo_link(links),
        r matches Ok(u) ==> ("https://"@ + host + "/"@).is_prefix_of(u@),
        well_known.member("links"@) == Some(JsonV::Array(links)) ==> (match first_nodeinfo_link(links) {
            Some(url) => r is Ok <==> ("https://"@ + host + "/"@).is_prefix_of(url),
            None => r is Err,
        }),
        well_known.member("links"@) is None ==> r is Err,
{
    assert((seq![link] + links).drop_first() =~= links);
    assert((seq![link] + links).first() == link);
}

/// The bytes of a text are read as that text, and bytes that are of no text as none.
pub proof fn law_bytes_are_read_as_the_text_they_encode(t: Seq<char>, bytes: Seq<u8>)
    ensures
        text_in(vstd::utf8::encode_utf8(t)) == Some(t),
        text_in(bytes) matches Some(s) ==> vstd::utf8::encode_utf8(s) == bytes,
        text_in(bytes) is None ==> bytes != vstd::utf8::encode_utf8(t),
{
    vstd::utf8::encode_utf8_valid_utf8(t);
    vstd::utf8::encode_utf8_decode_utf8(t);
    if vstd::utf8::valid_utf8(bytes) {
        vstd::utf8::decode_utf8_encode_utf8(bytes);
    }
}

/// Channels that are not known yet are added behind the known ones, in the order of their list,
/// as they are; nothing else is.
pub proof fn law_new_channels_are_added_in_order(known: Seq<Channel>, list: Seq<Channel>, i: int)
    ensures
        distinct_ids(known + list) ==> taken_in(known, list) == known + list,
        0 <= i < taken_in(known, list).len() ==> known.contains(taken_in(known, list)[i])
            || list.contains(taken_in(known, list)[i]),
        merged(seq![list]) == taken_in(Seq::empty(), list),
        merged(Seq::<Seq<Channel>>::empty()).len() == 0,
    decreases list.len(),
{
    reveal_with_fuel(merged, 3);
    assert(seq![list].drop_last() =~= Seq::<Seq<Channel>>::empty());
    if list.len() > 0 {
        let rest = list.drop_last();
        law_new_channels_are_added_in_order(known, rest, i);
        let before = taken_in(known, rest);
        let after = taken_in(known, list);
        if distinct_ids(known + list) {
            assert forall|a: int, b: int| 0 <= a < b < (known + rest).len() implies (
            #[trigger] (known + rest)[a]).id@ != (#[trigger] (known + rest)[b]).id@ by {
                assert((known + rest)[a] == (known + list)[a]);
                assert((known + rest)[b] == (known + list)[b]);
            }
            assert(before == known + rest);
            if lists_id(before, list.last().id@) {
                let k = choose|k: int|
                    0 <= k < before.len() && (#[trigger] before[k]).id@ == list.last().id@;
                assert(before[k] == (known + list)[k]);
                assert((known + list)[(known + list).len() - 1] == list.last());
            }
            assert(after =~= known + list);
        }
        if 0 <= i < after.len() {
            if i < before.len() {
                assert(after[i] == before[i]);
                if rest.contains(after[i]) {
                    let k = choose|k: int| 0 <= k < rest.len() && rest[k] == after[i];
                    assert(list[k] == after[i]);
                }
            } else {
                assert(list[list.len() - 1] == after[i]);
            }
        }
    } else {
        assert(known + list =~= known);
        if 0 <= i < known.len() {
            assert(known.contains(known[i]));
        }
    }
}

/// The error of an endpoint names that endpoint, the status and the message, and is of no other
/// kind.
pub proof fn law_endpoint_error_carries_what_went_wrong(
    e: NoteDeckError,
    endpoint: Seq<char>,
    status: int,
    message: Seq<char>,
)
    requires
        is_api_error(e, endpoint, status, message),
    ensures
        e matches NoteDeckError::Api { endpoint: n, status: s, message: m } && n@ == endpoint && s
            == status && m@ == message,
{
}

} // verus!
