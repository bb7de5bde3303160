//! Events of a mailbox: the cache that late subscribers read, where a fired event
//! is kept in it, and how old entries leave it.
use vstd::prelude::*;
use std::collections::{HashMap, VecDeque};
use vstd::utf8::encode_utf8;
use crate::cache::{make_key, spec_make_key};
use crate::error::AppError;
use vstd::std_specs::hash::spec_hash_map_iter;
use vstd::std_specs::iter::IteratorSpec;
use crate::id::{big_endian, Uuid};
use crate::messages::{Message, MessageOrder};

verus! {

/// Milliseconds in a day: how long the cache keeps an event.
pub const DAY_MS: i64 = 86400000;

/// Milliseconds in an hour: how long a heartbeat counts.
pub const HOUR_MS: i64 = 3600000;

/// A day and an hour, in milliseconds.
pub proof fn lemma_day_and_hour()
    ensures
        DAY_MS == 24 * 60 * 60 * 1000,
        HOUR_MS == 60 * 60 * 1000,
{
}

/// An event as the cache keeps it: when it was fired, in milliseconds since the
/// Unix epoch, and its JSON text.
#[derive(Debug)]
pub struct CachedEvent {
    pub timestamp: i64,
    pub encoded: String,
}

/// A token that a client may send along to open its event stream.
#[derive(Clone, Debug)]
pub struct Token {
    pub token: Option<String>,
}

/// Where a fired event is kept in the cache of its mailbox.
#[derive(Clone, Copy, Debug)]
pub enum CacheSlot {
    /// A preview of an edit of the message with this preview id: only the latest is kept.
    Edition(Uuid),
    /// A preview of a new message by this sender: only the latest is kept.
    Preview(Uuid),
    /// Any other event: all are kept, in the order they were fired.
    Log,
}

/// The slot of a message preview: an edit goes by the preview's id, a new message
/// by its sender.
pub open spec fn spec_preview_slot(id: Uuid, sender_id: Uuid, editing: bool) -> CacheSlot {
    if editing {
        CacheSlot::Edition(id)
    } else {
        CacheSlot::Preview(sender_id)
    }
}

/// Picks the slot of a message preview.
pub fn preview_slot(id: Uuid, sender_id: Uuid, editing: bool) -> (slot: CacheSlot)
    ensures
        slot == spec_preview_slot(id, sender_id, editing),
{
    if editing {
        CacheSlot::Edition(id)
    } else {
        CacheSlot::Preview(sender_id)
    }
}

/// The cache key of the events of `mailbox`.
pub fn cache_key(mailbox: &Uuid) -> (key: Vec<u8>)
    ensures
        key@ == spec_make_key(encode_utf8("mailbox"@), mailbox.bytes@, encode_utf8("events"@)),
{
    make_key("mailbox".as_bytes(), mailbox, "events".as_bytes())
}

/// The channel in which messages moved, to announce the move there; nothing when
/// no message moved and no order changed. Order changes come only with a moved
/// message.
pub fn moved_channel(moved_messages: &Vec<Message>, order_changes: &Vec<MessageOrder>) -> (channel: Option<Uuid>)
    requires
        moved_messages@.len() > 0 || order_changes@.len() == 0,
    ensures
        moved_messages@.len() == 0 ==> channel is None,
        moved_messages@.len() > 0 ==> channel == Some(moved_messages@[0].channel_id),
{
    if moved_messages.len() == 0 && order_changes.len() == 0 {
        return None;
    }
    Some(moved_messages[0].channel_id)
}

/// The number of events at the front of `events` that were fired at or before
/// `before`.
pub open spec fn stale_prefix(events: Seq<CachedEvent>, before: i64) -> nat
    decreases events.len(),
{
    if events.len() == 0 || events[0].timestamp > before {
        0
    } else {
        1 + stale_prefix(events.drop_first(), before)
    }
}

/// The cache of one mailbox: the latest edit preview per preview id, the latest
/// new-message preview per sender (each keyed by the UUID as a number), the other
/// events in firing order, and the time from which the cache holds events.
pub struct MailboxCache {
    pub edition_map: HashMap<u128, CachedEvent>,
    pub preview_map: HashMap<u128, CachedEvent>,
    pub events: VecDeque<CachedEvent>,
    pub start_at: i64,
}

/// Whether `entries` lists the map `m`: every entry of the map once, in some
/// order.
pub open spec fn lists(entries: Seq<(u128, CachedEvent)>, m: Map<u128, CachedEvent>) -> bool {
    &&& entries.len() == m.dom().len()
    &&& forall|i: int| 0 <= i < entries.len() ==> m.contains_key(#[trigger] entries[i].0) && m[entries[i].0] == entries[i].1
    &&& forall|key: u128| #[trigger] m.contains_key(key) ==> exists|i: int| 0 <= i < entries.len() && entries[i].0 == key
}

/// The JSON texts of listed entries, in their order.
pub open spec fn texts_of(entries: Seq<(u128, CachedEvent)>) -> Seq<String> {
    entries.map_values(|entry: (u128, CachedEvent)| entry.1.encoded)
}

/// Whether `texts` is what a new subscriber is sent: the edit previews, then the
/// new-message previews, each in the order the map gives them, then the other
/// events in firing order.
pub open spec fn is_replay(
    texts: Seq<String>,
    edition_map: Map<u128, CachedEvent>,
    preview_map: Map<u128, CachedEvent>,
    events: Seq<CachedEvent>,
) -> bool {
    exists|editions: Seq<(u128, CachedEvent)>, previews: Seq<(u128, CachedEvent)>|
        lists(editions, edition_map) && lists(previews, preview_map)
            && texts == texts_of(editions) + texts_of(previews)
                + events.map_values(|event: CachedEvent| event.encoded)
}

/// The entries of `m` fired after `before`.
pub open spec fn entries_after(m: Map<u128, CachedEvent>, before: i64) -> Map<u128, CachedEvent> {
    m.restrict(m.dom().filter(|key: u128| m[key].timestamp > before))
}

fn copy_event(event: &CachedEvent) -> (copy: CachedEvent)
    ensures
        copy == *event,
{
    CachedEvent { timestamp: event.timestamp, encoded: event.encoded.clone() }
}

fn keep_entries_after(m: &HashMap<u128, CachedEvent>, before: i64) -> (kept: HashMap<u128, CachedEvent>)
    ensures
        kept@ == entries_after(m@, before),
{
    broadcast use vstd::std_specs::hash::group_hash_axioms;
    let mut kept: HashMap<u128, CachedEvent> = HashMap::new();
    let ghost refs = spec_hash_map_iter(m).remaining();
    let ghost pairs = refs.unref();
    assert forall|key: u128| #[trigger] m@.contains_key(key) implies exists|i: int| 0 <= i < pairs.len() && pairs[i].0 == key by {
        assert(refs.contains((&key, &m@[key])));
        let i = choose|i: int| 0 <= i < refs.len() && refs[i] == (&key, &m@[key]);
        assert(pairs[i].0 == key);
    }
    for (k, v) in it: m.iter()
        invariant
            it.seq().unref() == pairs,
            forall|i: int| 0 <= i < pairs.len() ==> m@.contains_key(#[trigger] pairs[i].0) && m@[pairs[i].0] == pairs[i].1,
            forall|key: u128| #[trigger] m@.contains_key(key) ==> exists|i: int| 0 <= i < pairs.len() && pairs[i].0 == key,
            forall|key: u128| #[trigger] kept@.contains_key(key) <==> (m@.contains_key(key) && m@[key].timestamp > before
                && exists|j: int| 0 <= j < it.index() && pairs[j].0 == key),
            forall|key: u128| #[trigger] kept@.contains_key(key) ==> kept@[key] == m@[key],
    {
        assert(pairs[it.index() as int] == (*k, *v));
        if v.timestamp > before {
            kept.insert(*k, copy_event(v));
        }
    }
    assert(kept@ =~= entries_after(m@, before));
    kept
}

fn push_texts(texts: &mut Vec<String>, m: &HashMap<u128, CachedEvent>)
    ensures
        exists|listed: Seq<(u128, CachedEvent)>| lists(listed, m@) && final(texts)@ == old(texts)@ + texts_of(listed),
{
    broadcast use vstd::std_specs::hash::group_hash_axioms;
    let ghost start = texts@;
    let ghost refs = spec_hash_map_iter(m).remaining();
    let ghost pairs = refs.unref();
    assert forall|key: u128| #[trigger] m@.contains_key(key) implies exists|i: int| 0 <= i < pairs.len() && pairs[i].0 == key by {
        assert(refs.contains((&key, &m@[key])));
        let i = choose|i: int| 0 <= i < refs.len() && refs[i] == (&key, &m@[key]);
        assert(pairs[i].0 == key);
    }
    for (_k, v) in it: m.iter()
        invariant
            it.seq().unref() == pairs,
            texts@ == start + texts_of(pairs.take(it.index() as int)),
    {
        assert(pairs[it.index() as int].1 == *v);
        texts.push(v.encoded.clone());
        assert(texts_of(pairs.take(it.index() + 1)) =~= texts_of(pairs.take(it.index() as int)).push(v.encoded));
    }
    assert(pairs.take(pairs.len() as int) =~= pairs);
    assert(lists(pairs, m@) && texts@ == start + texts_of(pairs));
}

proof fn lemma_stale_prefix(events: Seq<CachedEvent>, before: i64, k: int)
    requires
        0 <= k <= events.len(),
        forall|j: int| 0 <= j < k ==> events[j].timestamp <= before,
        k < events.len() ==> events[k].timestamp > before,
    ensures
        stale_prefix(events, before) == k,
    decreases k,
{
    if k > 0 {
        let rest = events.drop_first();
        assert forall|j: int| 0 <= j < k - 1 implies rest[j].timestamp <= before by {
            assert(rest[j] == events[j + 1]);
        }
        if k < events.len() {
            assert(rest[k - 1] == events[k]);
        }
        lemma_stale_prefix(rest, before, k - 1);
    }
}

/// Whether the events were fired in order of time.
pub open spec fn in_time_order(events: Seq<CachedEvent>) -> bool {
    forall|i: int, j: int| 0 <= i <= j < events.len() ==> events[i].timestamp <= events[j].timestamp
}

/// What cleaning leaves of the log: every event after the stale ones at the
/// front; when the log is in time order, exactly the events fired after `before`.
pub proof fn lemma_clean_log(events: Seq<CachedEvent>, before: i64)
    ensures
        stale_prefix(events, before) <= events.len(),
        forall|j: int| 0 <= j < stale_prefix(events, before) ==> events[j].timestamp <= before,
        in_time_order(events) ==> forall|j: int|
            stale_prefix(events, before) <= j < events.len() ==> events[j].timestamp > before,
    decreases events.len(),
{
    if events.len() > 0 && events[0].timestamp <= before {
        let rest = events.drop_first();
        lemma_clean_log(rest, before);
        assert forall|j: int| 0 <= j < stale_prefix(events, before) implies events[j].timestamp <= before by {
            if j > 0 {
                assert(events[j] == rest[j - 1]);
            }
        }
        if in_time_order(events) {
            assert(in_time_order(rest)) by {
                assert forall|i: int, j: int| 0 <= i <= j < rest.len() implies rest[i].timestamp <= rest[j].timestamp by {
                    assert(rest[i] == events[i + 1]);
                    assert(rest[j] == events[j + 1]);
                }
            }
            assert forall|j: int| stale_prefix(events, before) <= j < events.len() implies events[j].timestamp > before by {
                assert(events[j] == rest[j - 1]);
            }
        }
    } else if events.len() > 0 && in_time_order(events) {
        assert forall|j: int| 0 <= j < events.len() implies events[j].timestamp > before by {
            assert(events[0].timestamp <= events[j].timestamp);
        }
    }
}

/// What cleaning leaves of a preview map: exactly the entries fired after
/// `before`, each under its key.
pub proof fn lemma_clean_entries(m: Map<u128, CachedEvent>, before: i64)
    ensures
        forall|key: u128| #[trigger] entries_after(m, before).contains_key(key)
            ==> m.contains_key(key) && entries_after(m, before)[key] == m[key] && m[key].timestamp > before,
        forall|key: u128| m.contains_key(key) && m[key].timestamp > before
            ==> #[trigger] entries_after(m, before).contains_key(key),
{
}

/// Cleaning a second time with the same cut-off changes nothing.
pub proof fn lemma_clean_idempotent(events: Seq<CachedEvent>, m: Map<u128, CachedEvent>, before: i64)
    ensures
        ({
            let rest = events.subrange(stale_prefix(events, before) as int, events.len() as int);
            rest.subrange(stale_prefix(rest, before) as int, rest.len() as int) == rest
        }),
        entries_after(entries_after(m, before), before) == entries_after(m, before),
{
    lemma_clean_log(events, before);
    let k = stale_prefix(events, before);
    let rest = events.subrange(k as int, events.len() as int);
    if rest.len() > 0 {
        assert(rest[0] == events[k as int]);
        lemma_stale_prefix_stops(events, before);
    }
    assert(stale_prefix(rest, before) == 0);
    assert(rest.subrange(0, rest.len() as int) =~= rest);
    assert(entries_after(entries_after(m, before), before) =~= entries_after(m, before));
}

proof fn lemma_stale_prefix_stops(events: Seq<CachedEvent>, before: i64)
    ensures
        stale_prefix(events, before) < events.len()
            ==> events[stale_prefix(events, before) as int].timestamp > before,
    decreases events.len(),
{
    if events.len() > 0 && events[0].timestamp <= before {
        let rest = events.drop_first();
        lemma_stale_prefix_stops(rest, before);
        if stale_prefix(events, before) < events.len() {
            assert(events[stale_prefix(events, before) as int] == rest[stale_prefix(rest, before) as int]);
        }
    }
}

impl MailboxCache {
    /// An empty cache that holds events from `start_at` on.
    pub fn new(start_at: i64) -> (cache: MailboxCache)
        ensures
            cache.edition_map@ == Map::<u128, CachedEvent>::empty(),
            cache.preview_map@ == Map::<u128, CachedEvent>::empty(),
            cache.events@.len() == 0,
            cache.start_at == start_at,
    {
        MailboxCache { edition_map: HashMap::new(), preview_map: HashMap::new(), events: VecDeque::new(), start_at }
    }

    /// Keeps a fired event in the slot it belongs to: a preview replaces the
    /// earlier one under the same key, any other event is appended.
    pub fn store(&mut self, slot: CacheSlot, event: CachedEvent)
        ensures
            final(self).start_at == old(self).start_at,
            match slot {
                CacheSlot::Edition(id) => {
                    &&& final(self).edition_map@ == old(self).edition_map@.insert(big_endian(id.bytes@) as u128, event)
                    &&& final(self).preview_map@ == old(self).preview_map@
                    &&& final(self).events@ == old(self).events@
                },
                CacheSlot::Preview(sender) => {
                    &&& final(self).edition_map@ == old(self).edition_map@
                    &&& final(self).preview_map@ == old(self).preview_map@.insert(big_endian(sender.bytes@) as u128, event)
                    &&& final(self).events@ == old(self).events@
                },
                CacheSlot::Log => {
                    &&& final(self).edition_map@ == old(self).edition_map@
                    &&& final(self).preview_map@ == old(self).preview_map@
                    &&& final(self).events@ == old(self).events@.push(event)
                },
            },
    {
        broadcast use vstd::std_specs::hash::group_hash_axioms;
        match slot {
            CacheSlot::Edition(id) => {
                self.edition_map.insert(id.as_u128(), event);
            },
            CacheSlot::Preview(sender) => {
                self.preview_map.insert(sender.as_u128(), event);
            },
            CacheSlot::Log => self.events.push_back(event),
        }
    }

    /// The JSON texts of the cached events, in the order a new subscriber gets them.
    pub fn encoded_events(&self) -> (texts: Vec<String>)
        ensures
            is_replay(texts@, self.edition_map@, self.preview_map@, self.events@),
    {
        let mut texts: Vec<String> = Vec::new();
        push_texts(&mut texts, &self.edition_map);
        let ghost first = texts@;
        push_texts(&mut texts, &self.preview_map);
        let ghost second = texts@;
        let mut i: usize = 0;
        while i < self.events.len()
            invariant
                i <= self.events@.len(),
                texts@ == second + self.events@.subrange(0, i as int).map_values(
                    |event: CachedEvent| event.encoded,
                ),
            decreases self.events@.len() - i,
        {
            texts.push(self.events[i].encoded.clone());
            proof {
                assert(second + self.events@.subrange(0, i + 1).map_values(
                    |event: CachedEvent| event.encoded,
                ) =~= texts@);
            }
            i = i + 1;
        }
        proof {
            assert(self.events@.subrange(0, self.events@.len() as int) =~= self.events@);
            let editions = choose|listed: Seq<(u128, CachedEvent)>| lists(listed, self.edition_map@) && first == Seq::<String>::empty() + texts_of(listed);
            let previews = choose|listed: Seq<(u128, CachedEvent)>| lists(listed, self.preview_map@) && second == first + texts_of(listed);
            assert(texts@ =~= texts_of(editions) + texts_of(previews)
                + self.events@.map_values(|event: CachedEvent| event.encoded));
        }
        texts
    }

    /// Drops what was fired at or before `before`: the events at the front of the
    /// log up to the first later one, and every preview fired then. The cache then
    /// holds events from `before` on. Returns whether the cache is now empty.
    pub fn clean(&mut self, before: i64) -> (empty: bool)
        ensures
            final(self).events@ == old(self).events@.subrange(
                stale_prefix(old(self).events@, before) as int,
                old(self).events@.len() as int,
            ),
            final(self).edition_map@ == entries_after(old(self).edition_map@, before),
            final(self).preview_map@ == entries_after(old(self).preview_map@, before),
            final(self).start_at == before,
            empty == (final(self).events@.len() == 0 && final(self).edition_map@.len() == 0
                && final(self).preview_map@.len() == 0),
    {
        broadcast use vstd::std_specs::hash::group_hash_axioms;
        let ghost log = self.events@;
        let ghost mut k: int = 0;
        while self.events.len() > 0 && self.events[0].timestamp <= before
            invariant
                0 <= k <= log.len(),
                self.events@ == log.subrange(k, log.len() as int),
                forall|j: int| 0 <= j < k ==> log[j].timestamp <= before,
                log == old(self).events@,
                self.edition_map@ == old(self).edition_map@,
                self.preview_map@ == old(self).preview_map@,
            decreases self.events@.len(),
        {
            assert(log[k] == self.events@[0]) by {
                assert(log.subrange(k, log.len() as int)[0] == log[k]);
            }
            let _stale = self.events.pop_front();
            proof {
                k = k + 1;
                assert(log.subrange(k, log.len() as int) =~= log.subrange(k - 1, log.len() as int).subrange(1, log.len() - k + 1));
            }
        }
        proof {
            if k < log.len() {
                assert(self.events@[0] == log[k]);
            }
            lemma_stale_prefix(log, before, k);
        }
        let editions = keep_entries_after(&self.edition_map, before);
        let previews = keep_entries_after(&self.preview_map, before);
        self.edition_map = editions;
        self.preview_map = previews;
        self.start_at = before;
        self.events.len() == 0 && self.edition_map.len() == 0 && self.preview_map.len() == 0
    }
}

/// The time before which the cache lets events go, a day before `now`.
pub fn retention_cutoff(now: i64) -> (before: i64)
    requires
        now >= i64::MIN + DAY_MS,
    ensures
        before == now - DAY_MS,
{
    now - DAY_MS
}

/// The heartbeats of a channel, by user (the UUID as a number), that still count
/// at `now`: those that came less than an hour before.
pub open spec fn live_at(heartbeats: Map<u128, i64>, now: i64) -> Map<u128, i64> {
    heartbeats.restrict(heartbeats.dom().filter(|user: u128| now - heartbeats[user] < HOUR_MS))
}

/// What counting heartbeats leaves: exactly those that came less than an hour
/// before `now`, each under its user.
pub proof fn lemma_live_heartbeats(heartbeats: Map<u128, i64>, now: i64)
    ensures
        forall|user: u128| #[trigger] live_at(heartbeats, now).contains_key(user)
            ==> heartbeats.contains_key(user) && live_at(heartbeats, now)[user] == heartbeats[user]
                && now - heartbeats[user] < HOUR_MS,
        forall|user: u128| heartbeats.contains_key(user) && now - heartbeats[user] < HOUR_MS
            ==> #[trigger] live_at(heartbeats, now).contains_key(user),
{
}

/// The heartbeats of a channel, user by user, that still count at `now`.
pub fn live_heartbeats(heartbeats: &HashMap<u128, i64>, now: i64) -> (kept: HashMap<u128, i64>)
    ensures
        kept@ == live_at(heartbeats@, now),
{
    broadcast use vstd::std_specs::hash::group_hash_axioms;
    let mut kept: HashMap<u128, i64> = HashMap::new();
    let ghost refs = spec_hash_map_iter(heartbeats).remaining();
    let ghost pairs = refs.unref();
    let ghost m = heartbeats@;
    assert forall|key: u128| #[trigger] m.contains_key(key) implies exists|i: int| 0 <= i < pairs.len() && pairs[i].0 == key by {
        assert(refs.contains((&key, &m[key])));
        let i = choose|i: int| 0 <= i < refs.len() && refs[i] == (&key, &m[key]);
        assert(pairs[i].0 == key);
    }
    for (user, time) in it: heartbeats.iter()
        invariant
            m == heartbeats@,
            it.seq().unref() == pairs,
            forall|i: int| 0 <= i < pairs.len() ==> m.contains_key(#[trigger] pairs[i].0) && m[pairs[i].0] == pairs[i].1,
            forall|key: u128| #[trigger] m.contains_key(key) ==> exists|i: int| 0 <= i < pairs.len() && pairs[i].0 == key,
            forall|key: u128| #[trigger] kept@.contains_key(key) <==> (m.contains_key(key) && now - m[key] < HOUR_MS
                && exists|j: int| 0 <= j < it.index() && pairs[j].0 == key),
            forall|key: u128| #[trigger] kept@.contains_key(key) ==> kept@[key] == m[key],
    {
        assert(pairs[it.index() as int] == (*user, *time));
        let age: i128 = now as i128 - *time as i128;
        if age < HOUR_MS as i128 {
            kept.insert(*user, *time);
        }
    }
    assert(kept@ =~= live_at(m, now));
    kept
}

/// What a channel keeps of its heartbeats at `now`: those that still count, or
/// nothing where none does, so that the channel leaves the table.
pub fn live_channel_heartbeats(heartbeats: &HashMap<u128, i64>, now: i64) -> (kept: Option<HashMap<u128, i64>>)
    ensures
        kept is None <==> live_at(heartbeats@, now).len() == 0,
        kept matches Some(m) ==> m@ == live_at(heartbeats@, now),
{
    broadcast use vstd::std_specs::hash::group_hash_axioms;
    let live = live_heartbeats(heartbeats, now);
    if live.len() == 0 {
        None
    } else {
        Some(live)
    }
}

/// Whether a user's new status is announced to the space: where the status was
/// newly created, or where the stored one could not be read or was of another
/// kind. `old_same_kind` is `None` where no stored status could be read, else
/// whether the stored status has the kind of the new one.
pub fn status_needs_push(old_same_kind: Option<bool>, created: bool) -> (push: bool)
    ensures
        push == (created || !(old_same_kind == Some(true))),
{
    let mut changed = true;
    if let Some(same) = old_same_kind {
        changed = !same;
    }
    created || changed
}

/// What a mailbox's subscriber stream received from the broadcast.
#[derive(Clone, Debug)]
pub enum Received {
    /// An event, as its JSON text.
    Event(String),
    /// The stream fell behind and missed this many events.
    Lagged(u64),
    /// The broadcast is closed.
    Closed,
}

/// What the stream does next.
#[derive(Clone, Debug)]
pub enum PushStep {
    /// Send this text to the client.
    Send(String),
    /// Go on receiving: nothing to send.
    Skip,
    /// Stop: the broadcast is gone.
    Stop,
}

/// The next step of a subscriber stream: an event is sent on, a lag is passed
/// over, a closed broadcast ends the stream.
pub fn push_step(received: Received) -> (step: PushStep)
    ensures
        match received {
            Received::Event(text) => step matches PushStep::Send(t) && t == text,
            Received::Lagged(_) => step is Skip,
            Received::Closed => step is Stop,
        },
{
    match received {
        Received::Event(text) => PushStep::Send(text),
        Received::Lagged(_) => PushStep::Skip,
        Received::Closed => PushStep::Stop,
    }
}

/// Where a client's event stream stands.
#[derive(Clone, Debug)]
pub enum PushState {
    /// Nothing is done yet.
    Start,
    /// Waiting for the subscription to the mailbox's broadcast.
    Subscribing,
    /// Subscribed; waiting for the cached events.
    ReadingCache,
    /// Sending the cached texts: `next` is the index of the one being sent.
    Replaying { texts: Vec<String>, next: usize },
    /// Waiting for the broadcast.
    Receiving,
    /// Sending on an event of the broadcast.
    Forwarding,
    /// The stream has ended.
    Ended,
}

/// What the stream is told of the outside work it asked for.
#[derive(Clone, Debug)]
pub enum PushInput {
    /// The stream is started.
    Begin,
    /// The subscription to the broadcast is made.
    Subscribed,
    /// The cache holds these texts for the mailbox, in order.
    CacheRead(Vec<String>),
    /// A text was handed to the client: `true` where it went through.
    Sent(bool),
    /// The broadcast gave this.
    Received(Received),
}

/// The outside work that the stream asks for next.
#[derive(Clone, Debug)]
pub enum PushAction {
    /// Subscribe to the mailbox's broadcast.
    Subscribe,
    /// Read the cached events of the mailbox.
    ReadCache,
    /// Send this text to the client.
    Send(String),
    /// Wait for the broadcast.
    Receive,
    /// End the stream: with an error where the broadcast is closed.
    Finish { failed: bool },
}

/// Whether the stream is about to send the cached text at `next`, or, where all
/// are sent, to wait for the broadcast.
pub open spec fn replay_from(texts: Seq<String>, next: int, state: PushState, action: PushAction) -> bool {
    if next < texts.len() {
        &&& state matches PushState::Replaying { texts: t, next: n } && t@ == texts && n == next
        &&& action matches PushAction::Send(text) && text == texts[next]
    } else {
        state is Receiving && action is Receive
    }
}

/// One step of a client's event stream: it subscribes to the mailbox's broadcast
/// before it reads the cache, so that no event falls between the two; it sends
/// every cached text in order, whether or not each went through; then it forwards
/// each event of the broadcast, passes over a lag, ends with an error when the
/// broadcast is closed and ends quietly when the client is gone. `None` where the
/// input does not answer what the state asked for.
pub fn push_transition(state: PushState, input: PushInput) -> (r: Option<(PushState, PushAction)>)
    ensures
        match (state, input) {
            (PushState::Start, PushInput::Begin) => r matches Some((s, a)) && s is Subscribing && a is Subscribe,
            (PushState::Subscribing, PushInput::Subscribed) => r matches Some((s, a)) && s is ReadingCache && a is ReadCache,
            (PushState::ReadingCache, PushInput::CacheRead(texts)) => r matches Some((s, a)) && replay_from(texts@, 0, s, a),
            (PushState::Replaying { texts, next }, PushInput::Sent(_)) => r matches Some((s, a))
                && replay_from(texts@, next + 1, s, a),
            (PushState::Receiving, PushInput::Received(Received::Event(text))) => r matches Some((s, a))
                && s is Forwarding && (a matches PushAction::Send(t) && t == text),
            (PushState::Receiving, PushInput::Received(Received::Lagged(_))) => r matches Some((s, a))
                && s is Receiving && a is Receive,
            (PushState::Receiving, PushInput::Received(Received::Closed)) => r matches Some((s, a))
                && s is Ended && a == (PushAction::Finish { failed: true }),
            (PushState::Forwarding, PushInput::Sent(true)) => r matches Some((s, a)) && s is Receiving && a is Receive,
            (PushState::Forwarding, PushInput::Sent(false)) => r matches Some((s, a))
                && s is Ended && a == (PushAction::Finish { failed: false }),
            _ => r is None,
        },
{
    match (state, input) {
        (PushState::Start, PushInput::Begin) => Some((PushState::Subscribing, PushAction::Subscribe)),
        (PushState::Subscribing, PushInput::Subscribed) => Some((PushState::ReadingCache, PushAction::ReadCache)),
        (PushState::ReadingCache, PushInput::CacheRead(texts)) => Some(replay_next(texts, 0)),
        (PushState::Replaying { texts, next }, PushInput::Sent(_)) => {
            if next < texts.len() {
                Some(replay_next(texts, next + 1))
            } else {
                Some((PushState::Receiving, PushAction::Receive))
            }
        },
        (PushState::Receiving, PushInput::Received(received)) => match push_step(received) {
            PushStep::Send(text) => Some((PushState::Forwarding, PushAction::Send(text))),
            PushStep::Skip => Some((PushState::Receiving, PushAction::Receive)),
            PushStep::Stop => Some((PushState::Ended, PushAction::Finish { failed: true })),
        },
        (PushState::Forwarding, PushInput::Sent(went_through)) => {
            if went_through {
                Some((PushState::Receiving, PushAction::Receive))
            } else {
                Some((PushState::Ended, PushAction::Finish { failed: false }))
            }
        },
        _ => None,
    }
}

fn replay_next(texts: Vec<String>, next: usize) -> (r: (PushState, PushAction))
    ensures
        replay_from(texts@, next as int, r.0, r.1),
{
    if next < texts.len() {
        let text = texts[next].clone();
        (PushState::Replaying { texts, next }, PushAction::Send(text))
    } else {
        (PushState::Receiving, PushAction::Receive)
    }
}

/// What a client sent over its event stream.
#[derive(Clone, Copy, Debug, PartialEq, Eq)]
pub enum ClientEventKind {
    /// A preview of a message being written.
    Preview,
    /// A sign that the client is still there.
    Heartbeat,
}

/// What is done with a client's event.
#[derive(Clone, Copy, Debug)]
pub enum ClientAction {
    /// Broadcast the preview as sent by this user.
    BroadcastPreview(Uuid),
    /// Note that this user is still there.
    Heartbeat(Uuid),
    /// Nothing: an anonymous client's heartbeat.
    Ignore,
}

/// Decides what is done with a client's event: a preview needs an authenticated
/// user, a heartbeat counts only for one.
pub fn client_action(kind: ClientEventKind, user_id: Option<Uuid>) -> (r: Result<ClientAction, AppError>)
    ensures
        kind == ClientEventKind::Preview && user_id is Some ==> (r matches Ok(ClientAction::BroadcastPreview(u)) && u == user_id->0),
        kind == ClientEventKind::Preview && user_id is None ==> r matches Err(AppError::Unauthenticated(_)),
        kind == ClientEventKind::Heartbeat && user_id is Some ==> (r matches Ok(ClientAction::Heartbeat(u)) && u == user_id->0),
        kind == ClientEventKind::Heartbeat && user_id is None ==> r matches Ok(ClientAction::Ignore),
{
    match kind {
        ClientEventKind::Preview => match user_id {
            Some(u) => Ok(ClientAction::BroadcastPreview(u)),
            None => Err(AppError::Unauthenticated(String::from_str("Authentication failed"))),
        },
        ClientEventKind::Heartbeat => match user_id {
            Some(u) => Ok(ClientAction::Heartbeat(u)),
            None => Ok(ClientAction::Ignore),
        },
    }
}

} // verus!
