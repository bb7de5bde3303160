use boluo::events::live_channel_heartbeats;
use std::collections::HashMap;
use boluo::events::{status_needs_push, push_step, PushStep, Received, client_action, ClientAction, ClientEventKind};
use boluo::events::{push_transition, PushAction, PushInput, PushState};
use boluo::error::AppError;
use boluo::events::{
    cache_key, live_heartbeats, moved_channel, preview_slot, retention_cutoff, CacheSlot,
    CachedEvent, MailboxCache, DAY_MS, HOUR_MS,
};
use boluo::id::Uuid;
use boluo::messages::{Message, MessageOrder};

fn id(n: u8) -> Uuid {
    Uuid::from_bytes([n; 16])
}

fn ev(timestamp: i64, text: &str) -> CachedEvent {
    CachedEvent { timestamp, encoded: text.to_string() }
}

fn message_in(channel: Uuid) -> Message {
    Message {
        id: id(1),
        sender_id: id(2),
        channel_id: channel,
        parent_message_id: None,
        name: "n".to_string(),
        media_id: None,
        seed: vec![1, 2, 3, 4],
        deleted: false,
        in_game: false,
        is_action: false,
        is_master: false,
        pinned: false,
        tags: vec![],
        folded: false,
        text: "t".to_string(),
        whisper_to_users: None,
        entities: "[]".to_string(),
        created: 0,
        modified: 0,
        order_date: 0,
        order_offset: 0,
    }
}

#[test]
fn preview_slots_follow_editing() {
    assert!(matches!(preview_slot(id(1), id(2), true), CacheSlot::Edition(k) if k == id(1)));
    assert!(matches!(preview_slot(id(1), id(2), false), CacheSlot::Preview(k) if k == id(2)));
}

#[test]
fn newer_preview_replaces_older_of_same_sender() {
    let mut cache = MailboxCache::new(0);
    cache.store(CacheSlot::Preview(id(5)), ev(10, "first"));
    cache.store(CacheSlot::Preview(id(6)), ev(11, "other"));
    cache.store(CacheSlot::Preview(id(5)), ev(12, "second"));
    assert_eq!(cache.preview_map.len(), 2);
    assert_eq!(cache.preview_map.get(&id(5).as_u128()).map(|e| e.encoded.clone()), Some("second".to_string()));
    let mut texts = cache.encoded_events();
    texts.sort();
    assert_eq!(texts, vec!["other".to_string(), "second".to_string()]);
}

#[test]
fn subscriber_gets_editions_then_previews_then_log() {
    let mut cache = MailboxCache::new(0);
    cache.store(CacheSlot::Log, ev(1, "a"));
    cache.store(CacheSlot::Preview(id(1)), ev(2, "p"));
    cache.store(CacheSlot::Edition(id(2)), ev(3, "e"));
    cache.store(CacheSlot::Log, ev(4, "b"));
    assert_eq!(
        cache.encoded_events(),
        vec!["e".to_string(), "p".to_string(), "a".to_string(), "b".to_string()]
    );
}

#[test]
fn clean_drops_old_entries() {
    let mut cache = MailboxCache::new(0);
    cache.store(CacheSlot::Log, ev(1, "old"));
    cache.store(CacheSlot::Log, ev(5, "new"));
    cache.store(CacheSlot::Log, ev(2, "behind a new one"));
    cache.store(CacheSlot::Preview(id(1)), ev(1, "old preview"));
    cache.store(CacheSlot::Edition(id(2)), ev(9, "new edition"));
    let empty = cache.clean(3);
    assert!(!empty);
    assert_eq!(cache.start_at, 3);
    assert_eq!(
        cache.encoded_events(),
        vec!["new edition".to_string(), "new".to_string(), "behind a new one".to_string()]
    );
    let again = cache.clean(3);
    assert!(!again);
    assert_eq!(cache.encoded_events().len(), 3);
    assert!(cache.clean(100));
    assert!(cache.encoded_events().is_empty());
}

#[test]
fn retention_is_a_day() {
    assert_eq!(retention_cutoff(DAY_MS + 5), 5);
    assert_eq!(DAY_MS, 24 * 60 * 60 * 1000);
}

#[test]
fn heartbeats_count_for_an_hour() {
    let now = 10 * HOUR_MS;
    let beats: HashMap<u128, i64> = vec![
        (id(1).as_u128(), now),
        (id(2).as_u128(), now - HOUR_MS + 1),
        (id(3).as_u128(), now - HOUR_MS),
        (id(4).as_u128(), 0),
    ]
    .into_iter()
    .collect();
    let expected: HashMap<u128, i64> =
        vec![(id(1).as_u128(), now), (id(2).as_u128(), now - HOUR_MS + 1)].into_iter().collect();
    assert_eq!(live_heartbeats(&beats, now), expected);
    let extreme: HashMap<u128, i64> = vec![(id(1).as_u128(), i64::MIN)].into_iter().collect();
    assert!(live_heartbeats(&extreme, i64::MAX).is_empty());
}

#[test]
fn move_announced_in_channel_of_first_message() {
    assert_eq!(moved_channel(&vec![], &vec![]), None);
    let changes = vec![MessageOrder { id: id(1), order_date: 0, order_offset: 3 }];
    assert_eq!(moved_channel(&vec![message_in(id(9))], &changes), Some(id(9)));
}

#[test]
fn mailbox_key_layout() {
    let mut expected = b"mailbox:".to_vec();
    expected.extend_from_slice(&[3u8; 16]);
    expected.extend_from_slice(b":events");
    assert_eq!(cache_key(&id(3)), expected);
}

#[test]
fn status_is_pushed_when_new_or_changed() {
    assert!(status_needs_push(None, false));
    assert!(status_needs_push(Some(false), false));
    assert!(!status_needs_push(Some(true), false));
    assert!(status_needs_push(Some(true), true));
}

#[test]
fn stream_steps() {
    assert!(matches!(push_step(Received::Event("e".to_string())), PushStep::Send(t) if t == "e"));
    assert!(matches!(push_step(Received::Lagged(3)), PushStep::Skip));
    assert!(matches!(push_step(Received::Closed), PushStep::Stop));
}

#[test]
fn client_events_need_a_user_where_they_act() {
    let user = id(4);
    assert!(matches!(client_action(ClientEventKind::Preview, Some(user)), Ok(ClientAction::BroadcastPreview(u)) if u == user));
    assert!(matches!(client_action(ClientEventKind::Preview, None), Err(AppError::Unauthenticated(_))));
    assert!(matches!(client_action(ClientEventKind::Heartbeat, Some(user)), Ok(ClientAction::Heartbeat(u)) if u == user));
    assert!(matches!(client_action(ClientEventKind::Heartbeat, None), Ok(ClientAction::Ignore)));
}

#[test]
fn uuid_number_is_big_endian() {
    let u = uuid::Uuid::new_v4();
    assert_eq!(Uuid::from_bytes(*u.as_bytes()).as_u128(), u.as_u128());
    assert_eq!(Uuid::from_bytes([0u8; 16]).as_u128(), 0);
    let mut one = [0u8; 16];
    one[15] = 1;
    one[0] = 2;
    assert_eq!(Uuid::from_bytes(one).as_u128(), (2u128 << 120) + 1);
}

#[test]
fn channels_without_live_heartbeats_leave() {
    let now = 5 * HOUR_MS;
    let stale: HashMap<u128, i64> = vec![(id(1).as_u128(), 0)].into_iter().collect();
    assert!(live_channel_heartbeats(&stale, now).is_none());
    let mixed: HashMap<u128, i64> = vec![(id(1).as_u128(), 0), (id(2).as_u128(), now)].into_iter().collect();
    let kept = live_channel_heartbeats(&mixed, now).unwrap();
    assert_eq!(kept.len(), 1);
    assert_eq!(kept.get(&id(2).as_u128()), Some(&now));
}

fn step(state: PushState, input: PushInput) -> (PushState, PushAction) {
    push_transition(state, input).expect("the input answers the state")
}

#[test]
fn event_stream_subscribes_replays_then_forwards() {
    let (s, a) = step(PushState::Start, PushInput::Begin);
    assert!(matches!(a, PushAction::Subscribe));
    // The cache is read only once the subscription is made.
    assert!(push_transition(s.clone(), PushInput::CacheRead(vec![])).is_none());
    let (s, a) = step(s, PushInput::Subscribed);
    assert!(matches!(a, PushAction::ReadCache));
    let (s, a) = step(s, PushInput::CacheRead(vec!["a".to_string(), "b".to_string()]));
    assert!(matches!(a, PushAction::Send(ref t) if t == "a"));
    // A failed send of a cached text does not stop the replay.
    let (s, a) = step(s, PushInput::Sent(false));
    assert!(matches!(a, PushAction::Send(ref t) if t == "b"));
    let (s, a) = step(s, PushInput::Sent(true));
    assert!(matches!(a, PushAction::Receive));
    let (s, a) = step(s, PushInput::Received(Received::Lagged(7)));
    assert!(matches!(a, PushAction::Receive));
    let (s, a) = step(s, PushInput::Received(Received::Event("c".to_string())));
    assert!(matches!(a, PushAction::Send(ref t) if t == "c"));
    let (s, a) = step(s, PushInput::Sent(true));
    assert!(matches!(a, PushAction::Receive));
    let (_, a) = step(s, PushInput::Received(Received::Closed));
    assert!(matches!(a, PushAction::Finish { failed: true }));
}

#[test]
fn event_stream_with_empty_cache_waits_and_ends_when_client_leaves() {
    let (s, _) = step(PushState::Start, PushInput::Begin);
    let (s, _) = step(s, PushInput::Subscribed);
    let (s, a) = step(s, PushInput::CacheRead(vec![]));
    assert!(matches!(a, PushAction::Receive));
    let (s, _) = step(s, PushInput::Received(Received::Event("x".to_string())));
    let (s, a) = step(s, PushInput::Sent(false));
    assert!(matches!(a, PushAction::Finish { failed: false }));
    assert!(matches!(s, PushState::Ended));
    assert!(push_transition(s, PushInput::Begin).is_none());
}
