//! Polling: what is fetched for an account that is not streamed, and what is
//! made of it.
use vstd::prelude::*;

use crate::json;
use crate::json::{Json, JsonV};
use crate::models::{NormalizedNote, TimelineOptions};
use crate::streaming::events;
use crate::streaming::events::{
    Emission, EmissionV, Payload, PayloadV, StreamNoteCaptureEvent, StreamNoteEvent,
};
use crate::streaming::session;
use crate::streaming::subscription::{SubscriptionInfo, SubscriptionKind};
use crate::table::Table;
use crate::text;

verus! {

/// The longest wait after a failed poll, in seconds.
pub const MAX_POLL_BACKOFF_SECS: u64 = 60;

/// How many notes a poll asks for.
pub const POLL_LIMIT: i64 = 30;

/// How many captured notes are fetched at a time.
pub const CAPTURE_BATCH: usize = 8;

/// A timeline that is to be polled.
#[derive(Debug)]
pub struct PollTarget {
    pub id: String,
    pub timeline_type: String,
    pub list_id: Option<String>,
}

/// The mathematical value of a [`PollTarget`].
pub struct PollTargetV {
    pub id: Seq<char>,
    pub timeline_type: Seq<char>,
    pub list_id: Option<Seq<char>>,
}

impl PollTarget {
    pub open spec fn view(&self) -> PollTargetV {
        PollTargetV {
            id: self.id@,
            timeline_type: self.timeline_type@,
            list_id: text::opt_text(self.list_id),
        }
    }
}

/// The targets of a list.
pub open spec fn targets_view(v: Seq<PollTarget>) -> Seq<PollTargetV> {
    Seq::new(v.len(), |i: int| v[i]@)
}

/// The list that a timeline is of, as its parameters tell.
pub open spec fn list_of(params: Option<JsonV>) -> Option<Seq<char>> {
    match params {
        Some(p) => p.text_member("listId"@),
        None => None,
    }
}

/// What is polled for a subscription.
pub open spec fn target_of(e: (Seq<char>, SubscriptionInfo)) -> PollTargetV {
    PollTargetV {
        id: e.0,
        timeline_type: e.1.timeline_type@,
        list_id: list_of(json::opt_json(e.1.params)),
    }
}

/// What is polled for an account: its timelines, and nothing else that it has
/// subscribed to.
pub open spec fn targets_of(
    order: Seq<(Seq<char>, SubscriptionInfo)>,
    account_id: Seq<char>,
) -> Seq<PollTargetV>
    decreases order.len(),
{
    if order.len() == 0 {
        Seq::empty()
    } else {
        let e = order.last();
        let rest = targets_of(order.drop_last(), account_id);
        if e.1.account_id@ == account_id && e.1.kind is Timeline {
            rest.push(target_of(e))
        } else {
            rest
        }
    }
}

/// Lists what is polled for an account.
pub fn poll_targets(subs: &Table<SubscriptionInfo>, account_id: &str) -> (r: Vec<PollTarget>)
    ensures
        targets_view(r@) == targets_of(subs.order(), account_id@),
{
    let mut out: Vec<PollTarget> = Vec::new();
    proof {
        assert(targets_view(out@) =~= targets_of(subs.order().take(0), account_id@));
    }
    let mut i: usize = 0;
    while i < subs.len()
        invariant
            0 <= i <= subs.order().len(),
            targets_view(out@) == targets_of(subs.order().take(i as int), account_id@),
        decreases subs.order().len() - i,
    {
        let info = subs.value_at(i);
        let ghost done = subs.order().take(i as int);
        let ghost before = out@;
        proof {
            assert(subs.order().take(i + 1).drop_last() =~= done);
            assert(subs.order().take(i + 1).last() == subs.order()[i as int]);
        }
        if text::same(info.account_id.as_str(), account_id) && info.kind
            == SubscriptionKind::Timeline {
            let list_id = match &info.params {
                Some(p) => match p.str_at("listId") {
                    Some(id) => Some(id.to_owned()),
                    None => None,
                },
                None => None,
            };
            let target = PollTarget {
                id: subs.key_at(i).to_owned(),
                timeline_type: info.timeline_type.clone(),
                list_id,
            };
            out.push(target);
            proof {
                assert(targets_view(out@) =~= targets_view(before).push(target@));
            }
        }
        i += 1;
    }
    proof {
        assert(subs.order().take(i as int) =~= subs.order());
    }
    out
}

/// How often each reaction was given.
pub open spec fn counts_view(v: Seq<(String, i64)>) -> Seq<(Seq<char>, i64)> {
    Seq::new(v.len(), |i: int| (v[i].0@, v[i].1))
}

/// Whether a reaction is listed.
pub open spec fn has_reaction(v: Seq<(Seq<char>, i64)>, reaction: Seq<char>) -> bool {
    exists|i: int| 0 <= i < v.len() && (#[trigger] v[i]).0 == reaction
}

/// How often a reaction was given: never, where it is not listed.
pub open spec fn count_of(v: Seq<(Seq<char>, i64)>, reaction: Seq<char>) -> int
    decreases v.len(),
{
    if v.len() == 0 {
        0
    } else if v.first().0 == reaction {
        v.first().1 as int
    } else {
        count_of(v.drop_first(), reaction)
    }
}

/// The reactions that are given more often now than before.
pub open spec fn grown(now: Seq<(Seq<char>, i64)>, before: Seq<(Seq<char>, i64)>) -> Seq<Seq<char>>
    decreases now.len(),
{
    if now.len() == 0 {
        Seq::empty()
    } else {
        let rest = grown(now.drop_last(), before);
        if now.last().1 > count_of(before, now.last().0) {
            rest.push(now.last().0)
        } else {
            rest
        }
    }
}

/// The reactions that were given before and are not now.
pub open spec fn gone(before: Seq<(Seq<char>, i64)>, now: Seq<(Seq<char>, i64)>) -> Seq<Seq<char>>
    decreases before.len(),
{
    if before.len() == 0 {
        Seq::empty()
    } else {
        let rest = gone(before.drop_last(), now);
        if has_reaction(now, before.last().0) {
            rest
        } else {
            rest.push(before.last().0)
        }
    }
}

/// The news that a reaction was added to a captured note.
pub open spec fn reacted_event(
    account_id: Seq<char>,
    note_id: Seq<char>,
    reaction: Seq<char>,
) -> EmissionV {
    events::shown(
        "stream-note-capture-updated"@,
        PayloadV::NoteCapture {
            account_id,
            note_id,
            update_type: "reacted"@,
            body: json::empty_object().with("reaction"@, JsonV::Str(reaction)).with(
                "emoji"@,
                JsonV::Null,
            ).with("userId"@, JsonV::Null),
        },
    )
}

/// The news that a reaction was taken back from a captured note.
pub open spec fn unreacted_event(
    account_id: Seq<char>,
    note_id: Seq<char>,
    reaction: Seq<char>,
) -> EmissionV {
    events::shown(
        "stream-note-capture-updated"@,
        PayloadV::NoteCapture {
            account_id,
            note_id,
            update_type: "unreacted"@,
            body: json::empty_object().with("reaction"@, JsonV::Str(reaction)).with(
                "userId"@,
                JsonV::Null,
            ),
        },
    )
}

/// What is told of a captured note: first what was added, then what was taken
/// back.
pub open spec fn reaction_news(
    account_id: Seq<char>,
    note_id: Seq<char>,
    before: Seq<(Seq<char>, i64)>,
    now: Seq<(Seq<char>, i64)>,
) -> Seq<EmissionV> {
    grown(now, before).map_values(|x: Seq<char>| reacted_event(account_id, note_id, x)) + gone(
        before,
        now,
    ).map_values(|x: Seq<char>| unreacted_event(account_id, note_id, x))
}

fn count_in(v: &Vec<(String, i64)>, reaction: &str) -> (r: i64)
    ensures
        r == count_of(counts_view(v@), reaction@),
{
    let mut i: usize = 0;
    proof {
        assert(counts_view(v@).skip(0) =~= counts_view(v@));
    }
    while i < v.len()
        invariant
            0 <= i <= v@.len(),
            count_of(counts_view(v@), reaction@) == count_of(
                counts_view(v@).skip(i as int),
                reaction@,
            ),
        decreases v@.len() - i,
    {
        proof {
            let rest = counts_view(v@).skip(i as int);
            assert(rest.first() == (v@[i as int].0@, v@[i as int].1));
            assert(rest.drop_first() =~= counts_view(v@).skip(i + 1));
        }
        if text::same(v[i].0.as_str(), reaction) {
            return v[i].1;
        }
        i += 1;
    }
    0
}

fn is_listed(v: &Vec<(String, i64)>, reaction: &str) -> (r: bool)
    ensures
        r == has_reaction(counts_view(v@), reaction@),
{
    let mut i: usize = 0;
    while i < v.len()
        invariant
            0 <= i <= v@.len(),
            forall|j: int| 0 <= j < i ==> (#[trigger] counts_view(v@)[j]).0 != reaction@,
        decreases v@.len() - i,
    {
        if text::same(v[i].0.as_str(), reaction) {
            proof {
                assert(counts_view(v@)[i as int].0 == reaction@);
            }
            return true;
        }
        i += 1;
    }
    false
}

fn capture_event(account_id: &str, note_id: &str, update_type: &str, body: Json) -> (r: Emission)
    ensures
        r@ == events::shown(
            "stream-note-capture-updated"@,
            PayloadV::NoteCapture {
                account_id: account_id@,
                note_id: note_id@,
                update_type: update_type@,
                body: body@,
            },
        ),
{
    events::show(
        "stream-note-capture-updated",
        Payload::NoteCapture(
            StreamNoteCaptureEvent {
                account_id: account_id.to_owned(),
                note_id: note_id.to_owned(),
                update_type: update_type.to_owned(),
                body,
            },
        ),
    )
}

/// Makes what is told of a captured note whose reactions were `before` and are
/// `now`.
pub fn diff_reactions(
    account_id: &str,
    note_id: &str,
    before: &Vec<(String, i64)>,
    now: &Vec<(String, i64)>,
) -> (r: Vec<Emission>)
    ensures
        events::emissions_view(r@) == reaction_news(
            account_id@,
            note_id@,
            counts_view(before@),
            counts_view(now@),
        ),
{
    let mut out: Vec<Emission> = Vec::new();
    let ghost b = counts_view(before@);
    let ghost n = counts_view(now@);
    let ghost plus = |x: Seq<char>| reacted_event(account_id@, note_id@, x);
    let ghost minus = |x: Seq<char>| unreacted_event(account_id@, note_id@, x);
    proof {
        assert(events::emissions_view(out@) =~= grown(n.take(0), b).map_values(plus));
    }
    let mut i: usize = 0;
    while i < now.len()
        invariant
            0 <= i <= now@.len(),
            b == counts_view(before@),
            n == counts_view(now@),
            plus == (|x: Seq<char>| reacted_event(account_id@, note_id@, x)),
            events::emissions_view(out@) == grown(n.take(i as int), b).map_values(plus),
        decreases now@.len() - i,
    {
        let ghost sofar = out@;
        let ghost rest = grown(n.take(i as int), b);
        proof {
            assert(n.take(i + 1).drop_last() =~= n.take(i as int));
            assert(n.take(i + 1).last() == n[i as int]);
        }
        let reaction = now[i].0.as_str();
        if now[i].1 > count_in(before, reaction) {
            let mut body = Json::object();
            body.set_str("reaction", reaction);
            body.set("emoji", Json::Null);
            body.set("userId", Json::Null);
            let e = capture_event(account_id, note_id, "reacted", body);
            out.push(e);
            proof {
                assert(events::emissions_view(out@) =~= events::emissions_view(sofar).push(e@));
                assert(e@ == plus(reaction@));
                assert(rest.push(reaction@).map_values(plus) =~= rest.map_values(plus).push(e@));
            }
        }
        i += 1;
    }
    proof {
        assert(n.take(i as int) =~= n);
    }
    let ghost added = grown(n, b).map_values(plus);
    proof {
        assert(events::emissions_view(out@) =~= added + gone(b.take(0), n).map_values(minus));
    }
    let mut k: usize = 0;
    while k < before.len()
        invariant
            0 <= k <= before@.len(),
            b == counts_view(before@),
            n == counts_view(now@),
            minus == (|x: Seq<char>| unreacted_event(account_id@, note_id@, x)),
            events::emissions_view(out@) == added + gone(b.take(k as int), n).map_values(minus),
        decreases before@.len() - k,
    {
        let ghost sofar = out@;
        let ghost rest = gone(b.take(k as int), n);
        proof {
            assert(b.take(k + 1).drop_last() =~= b.take(k as int));
            assert(b.take(k + 1).last() == b[k as int]);
        }
        let reaction = before[k].0.as_str();
        if !is_listed(now, reaction) {
            let mut body = Json::object();
            body.set_str("reaction", reaction);
            body.set("userId", Json::Null);
            let e = capture_event(account_id, note_id, "unreacted", body);
            out.push(e);
            proof {
                assert(events::emissions_view(out@) =~= events::emissions_view(sofar).push(e@));
                assert(e@ == minus(reaction@));
                assert(rest.push(reaction@).map_values(minus) =~= rest.map_values(minus).push(e@));
                assert((added + rest.map_values(minus)).push(e@) =~= added + rest.map_values(
                    minus,
                ).push(e@));
            }
        }
        k += 1;
    }
    proof {
        assert(b.take(k as int) =~= b);
        assert(events::emissions_view(out@) =~= reaction_news(account_id@, note_id@, b, n));
    }
    out
}

/// The part of a list that the `k`-th batch holds.
pub open spec fn batch_of(ids: Seq<Seq<char>>, k: int) -> Seq<Seq<char>> {
    let end = (k + 1) * CAPTURE_BATCH as int;
    ids.subrange(
        k * CAPTURE_BATCH as int,
        if end <= ids.len() {
            end
        } else {
            ids.len() as int
        },
    )
}

/// Cuts the captured notes into batches, in order. Each batch is full, but for
/// the last one; none is empty.
pub fn batches(ids: &Vec<String>) -> (r: Vec<Vec<String>>)
    ensures
        CAPTURE_BATCH * (r@.len() - 1) < ids@.len() <= CAPTURE_BATCH * r@.len() || r@.len() == 0
            && ids@.len() == 0,
        forall|k: int|
            0 <= k < r@.len() ==> text::texts((#[trigger] r@[k])@) == batch_of(
                text::texts(ids@),
                k,
            ),
{
    let mut out: Vec<Vec<String>> = Vec::new();
    let mut i: usize = 0;
    while i < ids.len()
        invariant
            0 <= i <= ids@.len(),
            i < ids@.len() ==> i == CAPTURE_BATCH * out@.len(),
            i == ids@.len() ==> (CAPTURE_BATCH * (out@.len() - 1) < i <= CAPTURE_BATCH * out@.len()
                || out@.len() == 0 && i == 0),
            forall|k: int|
                0 <= k < out@.len() ==> text::texts((#[trigger] out@[k])@) == batch_of(
                    text::texts(ids@),
                    k,
                ),
        decreases ids@.len() - i,
    {
        let ghost first = i as int;
        let mut batch: Vec<String> = Vec::new();
        while i < ids.len() && batch.len() < CAPTURE_BATCH
            invariant
                0 <= first <= i <= ids@.len(),
                first + batch@.len() == i,
                batch@.len() <= CAPTURE_BATCH,
                text::texts(batch@) =~= text::texts(ids@).subrange(first, i as int),
            decreases ids@.len() - i,
        {
            let id = ids[i].clone();
            let ghost before = batch@;
            batch.push(id);
            proof {
                assert(text::texts(batch@) =~= text::texts(before).push(id@));
            }
            i += 1;
        }
        proof {
            assert(text::texts(batch@) =~= batch_of(text::texts(ids@), out@.len() as int));
        }
        out.push(batch);
    }
    out
}

/// The wait after so many failed polls in a row, in seconds.
pub open spec fn poll_backoff(failures: int) -> int {
    if failures > 10 {
        60
    } else if failures >= 5 {
        32
    } else if failures == 4 {
        16
    } else if failures == 3 {
        8
    } else if failures == 2 {
        4
    } else if failures == 1 {
        2
    } else {
        1
    }
}

fn backoff_secs(failures: u64) -> (r: u64)
    ensures
        r == poll_backoff(failures as int),
{
    if failures > 10 {
        return MAX_POLL_BACKOFF_SECS;
    }
    let exponent: u64 = if failures < 5 {
        failures
    } else {
        5
    };
    let secs: u64 = 1u64 << exponent;
    proof {
        assert(1u64 << 0u64 == 1u64) by (bit_vector);
        assert(1u64 << 1u64 == 2u64) by (bit_vector);
        assert(1u64 << 2u64 == 4u64) by (bit_vector);
        assert(1u64 << 3u64 == 8u64) by (bit_vector);
        assert(1u64 << 4u64 == 16u64) by (bit_vector);
        assert(1u64 << 5u64 == 32u64) by (bit_vector);
    }
    if secs < MAX_POLL_BACKOFF_SECS {
        secs
    } else {
        MAX_POLL_BACKOFF_SECS
    }
}

/// What polling remembers of an account from one cycle to the next.
#[derive(Debug)]
pub struct PollState {
    since: Table<String>,
    reactions: Table<Vec<(String, i64)>>,
    consecutive_failures: u64,
    failed: bool,
    capture_next: bool,
}

/// The mathematical value of a [`PollState`]: the newest note seen of each
/// subscription, the reactions last seen of each captured note, how many cycles
/// in a row have failed, whether something failed in this cycle, and whether it
/// is the turn of the captured notes in this cycle.
#[verifier::ext_equal]
pub struct PollStateV {
    pub since: Map<Seq<char>, Seq<char>>,
    pub reactions: Map<Seq<char>, Seq<(Seq<char>, i64)>>,
    pub consecutive_failures: u64,
    pub failed: bool,
    pub capture_next: bool,
}

impl PollStateV {
    /// The state once a poll of a timeline has brought notes, or failed.
    pub open spec fn polled(self, sub_id: Seq<char>, fetched: Option<Vec<NormalizedNote>>) -> PollStateV {
        match fetched {
            Some(notes) => PollStateV {
                since: if notes@.len() > 0 {
                    self.since.insert(sub_id, notes@[0].id@)
                } else {
                    self.since
                },
                consecutive_failures: 0,
                ..self
            },
            None => PollStateV { failed: true, ..self },
        }
    }

    /// The state once it was asked whose turn it is.
    pub open spec fn turned(self) -> PollStateV {
        PollStateV { capture_next: !self.capture_next, ..self }
    }

    /// The state once the reactions of a captured note have been seen.
    pub open spec fn seen(self, note_id: Seq<char>, counts: Seq<(Seq<char>, i64)>) -> PollStateV {
        PollStateV { reactions: self.reactions.insert(note_id, counts), ..self }
    }

    /// How many cycles in a row have failed, this one with them.
    pub open spec fn failures(self) -> u64 {
        if self.consecutive_failures < u64::MAX {
            (self.consecutive_failures + 1) as u64
        } else {
            u64::MAX
        }
    }

    /// The state once a cycle has ended.
    pub open spec fn cycle_ended(self) -> PollStateV {
        if self.failed {
            PollStateV { failed: false, consecutive_failures: self.failures(), ..self }
        } else {
            self
        }
    }

    /// How long to wait after a cycle, in milliseconds.
    pub open spec fn pause_ms(self, interval_ms: u64) -> int {
        if self.failed {
            1000 * poll_backoff(self.failures() as int)
        } else {
            interval_ms as int
        }
    }

    /// What the frontend is told after a cycle.
    pub open spec fn complaint(self) -> Option<Seq<char>> {
        if self.failed {
            Some("reconnecting"@)
        } else {
            None
        }
    }

    /// The newest note seen of a subscription.
    pub open spec fn since_id(self, sub_id: Seq<char>) -> Option<Seq<char>> {
        if self.since.contains_key(sub_id) {
            Some(self.since[sub_id])
        } else {
            None
        }
    }

    /// The reactions last seen of a note; none, where it was not seen yet.
    pub open spec fn reactions_of(self, note_id: Seq<char>) -> Seq<(Seq<char>, i64)> {
        if self.reactions.contains_key(note_id) {
            self.reactions[note_id]
        } else {
            Seq::empty()
        }
    }
}

/// The news of the notes that a poll brought. The server lists the newest note
/// first; the news come in the order in which the notes were written.
pub open spec fn note_news(
    account_id: Seq<char>,
    sub_id: Seq<char>,
    notes: Seq<NormalizedNote>,
) -> Seq<EmissionV> {
    Seq::new(
        notes.len(),
        |i: int|
            events::published(
                "note"@,
                "stream-note"@,
                PayloadV::Note {
                    account_id,
                    subscription_id: sub_id,
                    note: notes[notes.len() - 1 - i],
                },
            ),
    )
}

/// The news of what a poll brought; none, where it failed.
pub open spec fn polled_news(
    account_id: Seq<char>,
    sub_id: Seq<char>,
    fetched: Option<Vec<NormalizedNote>>,
) -> Seq<EmissionV> {
    match fetched {
        Some(notes) => note_news(account_id, sub_id, notes@),
        None => Seq::empty(),
    }
}

/// Whether what is asked of a timeline is the notes since the newest one seen.
pub open spec fn asks_for_news(o: TimelineOptions, state: PollStateV, target: PollTargetV) -> bool {
    &&& o.limit == POLL_LIMIT
    &&& text::opt_text(o.since_id) == state.since_id(target.id)
    &&& o.until_id is None
    &&& o.filters is None
    &&& text::opt_text(o.list_id) == target.list_id
}

impl PollState {
    /// What is remembered.
    pub closed spec fn view(&self) -> PollStateV {
        PollStateV {
            since: self.since@.map_values(|s: String| s@),
            reactions: self.reactions@.map_values(|v: Vec<(String, i64)>| counts_view(v@)),
            consecutive_failures: self.consecutive_failures,
            failed: self.failed,
            capture_next: self.capture_next,
        }
    }

    /// Each subscription and each note occurs once.
    pub closed spec fn wf(&self) -> bool {
        self.since.wf() && self.reactions.wf()
    }

    /// Nothing is remembered yet.
    pub fn new() -> (r: Self)
        ensures
            r.wf(),
            r@ == (PollStateV {
                since: Map::empty(),
                reactions: Map::empty(),
                consecutive_failures: 0,
                failed: false,
                capture_next: false,
            }),
    {
        let r = PollState {
            since: Table::new(),
            reactions: Table::new(),
            consecutive_failures: 0,
            failed: false,
            capture_next: false,
        };
        proof {
            assert(r@.since =~= Map::empty());
            assert(r@.reactions =~= Map::empty());
        }
        r
    }

    /// What to ask for next of a timeline: the notes since the newest one seen.
    pub fn options_for(&self, target: &PollTarget) -> (r: TimelineOptions)
        requires
            self.wf(),
        ensures
            asks_for_news(r, self@, target@),
    {
        let since_id = match self.since.get(target.id.as_str()) {
            Some(id) => Some(id.clone()),
            None => None,
        };
        let mut options = TimelineOptions::new(POLL_LIMIT, since_id, None);
        options.list_id = match &target.list_id {
            Some(id) => Some(id.clone()),
            None => None,
        };
        options
    }

    /// Takes in what a poll of a timeline brought: notes, or `None` where it
    /// failed.
    pub fn timeline_fetched(
        &mut self,
        account_id: &str,
        sub_id: &str,
        fetched: Option<Vec<NormalizedNote>>,
    ) -> (r: Vec<Emission>)
        requires
            old(self).wf(),
        ensures
            final(self).wf(),
            final(self)@ == old(self)@.polled(sub_id@, fetched),
            events::emissions_view(r@) == polled_news(account_id@, sub_id@, fetched),
    {
        let mut out: Vec<Emission> = Vec::new();
        match fetched {
            Some(notes) => {
                self.consecutive_failures = 0;
                if notes.len() > 0 {
                    let newest = notes[0].id.clone();
                    self.since.insert(sub_id, newest);
                    proof {
                        assert(self@.since =~= old(self)@.since.insert(sub_id@, newest@));
                    }
                }
                let mut rest = notes;
                let ghost all = notes@;
                let ghost news = note_news(account_id@, sub_id@, all);
                while rest.len() > 0
                    invariant
                        rest@.len() <= all.len(),
                        rest@ =~= all.take(rest@.len() as int),
                        news == note_news(account_id@, sub_id@, all),
                        events::emissions_view(out@) =~= news.take(all.len() - rest@.len()),
                    decreases rest@.len(),
                {
                    match rest.pop() {
                        Some(note) => {
                            let ghost before = out@;
                            let e = events::publish(
                                "note",
                                "stream-note",
                                Payload::Note(
                                    StreamNoteEvent {
                                        account_id: account_id.to_owned(),
                                        subscription_id: sub_id.to_owned(),
                                        note,
                                    },
                                ),
                            );
                            out.push(e);
                            proof {
                                assert(events::emissions_view(out@) =~= events::emissions_view(
                                    before,
                                ).push(e@));
                                assert(e@ == news[all.len() - 1 - rest@.len()]);
                            }
                        },
                        None => {},
                    }
                }
                proof {
                    assert(news.take(all.len() as int) =~= news);
                }
            },
            None => {
                self.failed = true;
                proof {
                    assert(events::emissions_view(out@) =~= Seq::empty());
                }
            },
        }
        out
    }

    /// Whether it is the turn of the captured notes: in every second cycle.
    pub fn captures_due(&mut self) -> (r: bool)
        requires
            old(self).wf(),
        ensures
            final(self).wf(),
            r == old(self)@.capture_next,
            final(self)@ == old(self)@.turned(),
    {
        let due = self.capture_next;
        self.capture_next = !due;
        due
    }

    /// Takes in the reactions of a captured note that was fetched.
    pub fn note_fetched(
        &mut self,
        account_id: &str,
        note_id: &str,
        reactions: Vec<(String, i64)>,
    ) -> (r: Vec<Emission>)
        requires
            old(self).wf(),
        ensures
            final(self).wf(),
            events::emissions_view(r@) == reaction_news(
                account_id@,
                note_id@,
                old(self)@.reactions_of(note_id@),
                counts_view(reactions@),
            ),
            final(self)@ == old(self)@.seen(note_id@, counts_view(reactions@)),
    {
        let none: Vec<(String, i64)> = Vec::new();
        let news = match self.reactions.get(note_id) {
            Some(before) => diff_reactions(account_id, note_id, before, &reactions),
            None => {
                proof {
                    assert(counts_view(none@) =~= Seq::empty());
                }
                diff_reactions(account_id, note_id, &none, &reactions)
            },
        };
        self.reactions.insert(note_id, reactions);
        proof {
            assert(self@.reactions =~= old(self)@.reactions.insert(
                note_id@,
                counts_view(reactions@),
            ));
        }
        news
    }

    /// Ends a cycle: how long to wait for the next one, in milliseconds, and
    /// what the frontend is told. After a cycle in which something failed the
    /// wait grows with the number of such cycles in a row.
    pub fn end_cycle(&mut self, account_id: &str, interval_ms: u64) -> (r: (u64, Option<Emission>))
        requires
            old(self).wf(),
        ensures
            final(self).wf(),
            final(self)@ == old(self)@.cycle_ended(),
            r.0 == old(self)@.pause_ms(interval_ms),
            session::opt_emission(r.1) == session::told(account_id@, old(self)@.complaint()),
    {
        if !self.failed {
            return (interval_ms, None);
        }
        self.failed = false;
        if self.consecutive_failures < u64::MAX {
            self.consecutive_failures = self.consecutive_failures + 1;
        }
        let secs: u64 = backoff_secs(self.consecutive_failures);
        (secs * 1000, Some(events::status(account_id, "reconnecting")))
    }
}

/// The wait never shrinks while polls keep failing, and never exceeds the
/// longest; up to five failures it doubles with each.
pub proof fn law_poll_backoff_grows(a: int, b: int)
    requires
        0 <= a <= b,
    ensures
        1 <= poll_backoff(a) <= poll_backoff(b) <= MAX_POLL_BACKOFF_SECS,
        0 < a <= 5 ==> poll_backoff(a) == 2 * poll_backoff(a - 1),
        5 <= a <= 10 ==> poll_backoff(a) == 32,
        a > 10 ==> poll_backoff(a) == MAX_POLL_BACKOFF_SECS,
        MAX_POLL_BACKOFF_SECS == 60,
{
}

/// The notes that a poll brought are told oldest first: of two notes, the one
/// that the server listed later is told earlier, and each is told once.
pub proof fn law_polled_notes_come_oldest_first(
    account_id: Seq<char>,
    sub_id: Seq<char>,
    notes: Seq<NormalizedNote>,
    k: int,
)
    requires
        0 <= k < notes.len(),
    ensures
        note_news(account_id, sub_id, notes).len() == notes.len(),
        note_news(account_id, sub_id, notes)[notes.len() - 1 - k].payload
            == (PayloadV::Note { account_id, subscription_id: sub_id, note: notes[k] }),
{
}

/// Where the reactions of a note have not changed, nothing is told of it.
pub proof fn law_no_news_without_change(
    account_id: Seq<char>,
    note_id: Seq<char>,
    counts: Seq<(Seq<char>, i64)>,
)
    requires
        forall|i: int, j: int|
            0 <= i < j < counts.len() ==> (#[trigger] counts[i]).0 != (#[trigger] counts[j]).0,
    ensures
        reaction_news(account_id, note_id, counts, counts) == Seq::<EmissionV>::empty(),
{
    lemma_nothing_grown(counts, counts.len() as int);
    lemma_nothing_gone(counts, counts.len() as int);
    assert(counts.take(counts.len() as int) =~= counts);
    assert(reaction_news(account_id, note_id, counts, counts) =~= Seq::empty());
}

proof fn lemma_count_at(v: Seq<(Seq<char>, i64)>, k: int)
    requires
        0 <= k < v.len(),
        forall|i: int, j: int|
            0 <= i < j < v.len() ==> (#[trigger] v[i]).0 != (#[trigger] v[j]).0,
    ensures
        count_of(v, v[k].0) == v[k].1,
    decreases v.len(),
{
    if k > 0 {
        assert(v[0].0 != v[k].0);
        let rest = v.drop_first();
        assert forall|i: int, j: int| 0 <= i < j < rest.len() implies (#[trigger] rest[i]).0 != (
        #[trigger] rest[j]).0 by {
            assert(v[i + 1].0 != v[j + 1].0);
        }
        assert(rest[k - 1] == v[k]);
        lemma_count_at(rest, k - 1);
    }
}

proof fn lemma_nothing_grown(v: Seq<(Seq<char>, i64)>, n: int)
    requires
        0 <= n <= v.len(),
        forall|i: int, j: int|
            0 <= i < j < v.len() ==> (#[trigger] v[i]).0 != (#[trigger] v[j]).0,
    ensures
        grown(v.take(n), v) == Seq::<Seq<char>>::empty(),
    decreases n,
{
    if n > 0 {
        lemma_nothing_grown(v, n - 1);
        lemma_count_at(v, n - 1);
        assert(v.take(n).drop_last() =~= v.take(n - 1));
        assert(v.take(n).last() == v[n - 1]);
    }
}

proof fn lemma_nothing_gone(v: Seq<(Seq<char>, i64)>, n: int)
    requires
        0 <= n <= v.len(),
    ensures
        gone(v.take(n), v) == Seq::<Seq<char>>::empty(),
    decreases n,
{
    if n > 0 {
        lemma_nothing_gone(v, n - 1);
        assert(v.take(n).drop_last() =~= v.take(n - 1));
        assert(v.take(n).last() == v[n - 1]);
        assert(has_reaction(v, v[n - 1].0));
    }
}

/// A timeline is polled on from where it was left: the next poll asks for what came
/// after the newest note that the last one brought, for thirty notes at most, and of
/// the list that the timeline is of. A poll that brought nothing or failed, and one
/// of another timeline, does not move that place.
pub proof fn law_polling_goes_on_where_it_stopped(
    state: PollStateV,
    sub_id: Seq<char>,
    fetched: Option<Vec<NormalizedNote>>,
    other: Seq<char>,
    o: TimelineOptions,
    target: PollTargetV,
)
    requires
        asks_for_news(o, state.polled(sub_id, fetched), target),
    ensures
        o.limit == 30,
        o.until_id is None && o.filters is None,
        text::opt_text(o.list_id) == target.list_id,
        target.id == sub_id ==> match fetched {
            Some(notes) => if notes@.len() > 0 {
                o.since_id matches Some(s) && s@ == notes@[0].id@
            } else {
                text::opt_text(o.since_id) == state.since_id(sub_id)
            },
            None => text::opt_text(o.since_id) == state.since_id(sub_id),
        },
        target.id != sub_id ==> text::opt_text(o.since_id) == state.since_id(target.id),
        state.polled(sub_id, fetched).reactions == state.reactions,
{
}

/// Each note that a poll brought is told to the bus as `note` and to the frontend as
/// `stream-note`, with the account and the subscription; a poll that failed tells
/// nothing.
pub proof fn law_polled_notes_are_told(
    account_id: Seq<char>,
    sub_id: Seq<char>,
    notes: Vec<NormalizedNote>,
    k: int,
)
    requires
        0 <= k < notes@.len(),
    ensures
        ({
            let news = polled_news(account_id, sub_id, Some(notes));
            &&& news.len() == notes@.len()
            &&& news[k].bus_type == Some("note"@)
            &&& news[k].event == "stream-note"@
            &&& news[k].payload == (PayloadV::Note {
                account_id,
                subscription_id: sub_id,
                note: notes@[notes@.len() - 1 - k],
            })
        }),
        polled_news(account_id, sub_id, None).len() == 0,
{
}

/// A failure is counted once for its cycle, makes the next wait longer and is told; a
/// poll that succeeds starts the count over. Without a failure the wait is the one
/// that was asked for, and nothing is told.
pub proof fn law_failed_cycles_are_counted(
    state: PollStateV,
    sub_id: Seq<char>,
    fetched: Option<Vec<NormalizedNote>>,
    interval_ms: u64,
)
    ensures
        fetched is None ==> state.polled(sub_id, fetched).failed,
        fetched is Some ==> state.polled(sub_id, fetched).consecutive_failures == 0
            && state.polled(sub_id, fetched).failed == state.failed,
        !state.failed ==> state.pause_ms(interval_ms) == interval_ms && state.complaint() is None
            && state.cycle_ended() == state,
        state.failed ==> !state.cycle_ended().failed && state.complaint() == Some("reconnecting"@),
        state.failed && state.consecutive_failures < u64::MAX
            ==> state.cycle_ended().consecutive_failures == state.consecutive_failures + 1
            && state.pause_ms(interval_ms) == 1000 * poll_backoff(state.consecutive_failures + 1),
        state.cycle_ended().since == state.since && state.cycle_ended().reactions == state.reactions,
        poll_backoff(1) == 2 && poll_backoff(2) == 4 && poll_backoff(5) == 32 && poll_backoff(11) == 60,
{
}

/// The captured notes have their turn in every second cycle, beginning with the
/// second.
pub proof fn law_captured_notes_take_turns(state: PollStateV)
    ensures
        state.turned().capture_next == !state.capture_next,
        state.turned().turned() == state,
{
}

/// What is polled for an account: each timeline that it has subscribed to, in order,
/// under its id and with the list that it is of, and nothing else.
pub proof fn law_timelines_are_polled(
    order: Seq<(Seq<char>, SubscriptionInfo)>,
    e: (Seq<char>, SubscriptionInfo),
    account_id: Seq<char>,
)
    ensures
        targets_of(Seq::<(Seq<char>, SubscriptionInfo)>::empty(), account_id).len() == 0,
        !(e.1.account_id@ == account_id && e.1.kind is Timeline) ==> targets_of(
            order.push(e),
            account_id,
        ) == targets_of(order, account_id),
        e.1.account_id@ == account_id && e.1.kind is Timeline ==> {
            let all = targets_of(order.push(e), account_id);
            &&& all.len() == targets_of(order, account_id).len() + 1
            &&& all.drop_last() == targets_of(order, account_id)
            &&& all.last().id == e.0
            &&& all.last().timeline_type == e.1.timeline_type@
            &&& e.1.params is None ==> all.last().list_id is None
            &&& e.1.params matches Some(p) ==> (p@.member("listId"@) matches Some(JsonV::Str(l))
                ==> all.last().list_id == Some(l))
        },
{
    assert(order.push(e).drop_last() =~= order);
    if e.1.account_id@ == account_id && e.1.kind is Timeline {
        assert(targets_of(order.push(e), account_id).drop_last() =~= targets_of(order, account_id));
    }
}

proof fn lemma_reaction_members_differ()
    ensures
        "reaction"@ != "emoji"@,
        "reaction"@ != "userId"@,
        "emoji"@ != "userId"@,
{
    reveal_strlit("reaction");
    reveal_strlit("emoji");
    reveal_strlit("userId");
    assert("reaction"@.len() == 8);
    assert("emoji"@.len() == 5);
    assert("userId"@.len() == 6);
}

/// What is told of a captured note. A reaction that is given more often than before is
/// told as `reacted`, one that is not given any more as `unreacted`, each once, with
/// the account, the note and the reaction, to the frontend alone.
pub proof fn law_changed_reactions_are_told(
    account_id: Seq<char>,
    note_id: Seq<char>,
    before: Seq<(Seq<char>, i64)>,
    now: Seq<(Seq<char>, i64)>,
    i: int,
)
    ensures
        ({
            let news = reaction_news(account_id, note_id, before, now);
            let up = grown(now, before);
            let down = gone(before, now);
            &&& news.len() == up.len() + down.len()
            &&& 0 <= i < news.len() ==> news[i].bus_type is None && news[i].event
                == "stream-note-capture-updated"@
            &&& 0 <= i < up.len() ==> (news[i].payload matches PayloadV::NoteCapture {
                account_id: a,
                note_id: n,
                update_type,
                body,
            } && a == account_id && n == note_id && update_type == "reacted"@ && body.member(
                "reaction"@,
            ) == Some(JsonV::Str(up[i])) && body.member("emoji"@) == Some(JsonV::Null) && body.member(
                "userId"@,
            ) == Some(JsonV::Null))
            &&& up.len() <= i < news.len() ==> (news[i].payload matches PayloadV::NoteCapture {
                account_id: a,
                note_id: n,
                update_type,
                body,
            } && a == account_id && n == note_id && update_type == "unreacted"@ && body.member(
                "reaction"@,
            ) == Some(JsonV::Str(down[i - up.len()])) && body.member("userId"@) == Some(JsonV::Null)
                && body.member("emoji"@) is None)
        }),
{
    broadcast use json::lemma_member_of_with;

    lemma_reaction_members_differ();
}

/// Which reactions those are: the ones that are listed now with a higher count than
/// before, where one that was not listed counts as never given, and the ones that were
/// listed before and are not now.
pub proof fn law_reactions_are_compared_by_count(
    before: Seq<(Seq<char>, i64)>,
    now: Seq<(Seq<char>, i64)>,
    x: (Seq<char>, i64),
)
    ensures
        grown(Seq::<(Seq<char>, i64)>::empty(), before).len() == 0,
        x.1 > count_of(before, x.0) ==> grown(now.push(x), before) == grown(now, before).push(x.0),
        x.1 <= count_of(before, x.0) ==> grown(now.push(x), before) == grown(now, before),
        gone(Seq::<(Seq<char>, i64)>::empty(), now).len() == 0,
        (exists|i: int| 0 <= i < now.len() && (#[trigger] now[i]).0 == x.0) ==> gone(
            before.push(x),
            now,
        ) == gone(before, now),
        !(exists|i: int| 0 <= i < now.len() && (#[trigger] now[i]).0 == x.0) ==> gone(
            before.push(x),
            now,
        ) == gone(before, now).push(x.0),
        !has_reaction(before, x.0) ==> count_of(before, x.0) == 0,
        before.len() > 0 && before[0].0 == x.0 ==> count_of(before, x.0) == before[0].1,
        before.len() > 0 && before[0].0 != x.0 ==> count_of(before, x.0) == count_of(
            before.drop_first(),
            x.0,
        ),
{
    assert(now.push(x).drop_last() =~= now);
    assert(before.push(x).drop_last() =~= before);
    if !has_reaction(before, x.0) {
        lemma_never_given(before, x.0);
    }
}

proof fn lemma_never_given(v: Seq<(Seq<char>, i64)>, reaction: Seq<char>)
    requires
        !has_reaction(v, reaction),
    ensures
        count_of(v, reaction) == 0,
    decreases v.len(),
{
    if v.len() > 0 {
        assert(v[0].0 != reaction);
        let rest = v.drop_first();
        if has_reaction(rest, reaction) {
            let i = choose|i: int| 0 <= i < rest.len() && (#[trigger] rest[i]).0 == reaction;
            assert(v[i + 1].0 == reaction);
        }
        lemma_never_given(rest, reaction);
    }
}

/// What was seen of a captured note is what the next look compares with.
pub proof fn law_seen_reactions_are_remembered(
    state: PollStateV,
    note_id: Seq<char>,
    counts: Seq<(Seq<char>, i64)>,
    other: Seq<char>,
)
    ensures
        state.seen(note_id, counts).reactions_of(note_id) == counts,
        other != note_id ==> state.seen(note_id, counts).reactions_of(other) == state.reactions_of(
            other,
        ),
        state.seen(note_id, counts).since == state.since,
        !state.reactions.contains_key(other) ==> state.reactions_of(other).len() == 0,
{
}

/// Every captured note is in a batch, in order: the batches put together are the
/// notes, and no batch has more than eight.
pub proof fn law_batches_leave_nobody_out(ids: Seq<Seq<char>>, i: int)
    requires
        0 <= i < ids.len(),
    ensures
        ({
            let b = batch_of(ids, i / 8);
            &&& b.len() <= 8
            &&& 0 <= i % 8 < b.len()
            &&& b[i % 8] == ids[i]
        }),
{
}

} // verus!
