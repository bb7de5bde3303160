use boluo::error::AppError;
use boluo::events::CacheSlot;
use boluo::flows::{
    build_preview, check_watch, master_updates, plan_message_edit, plan_new_message,
    position_finished, EditPlan, MailboxKind, NewMessage, PreviewPost,
};
use boluo::id::Uuid;
use boluo::messages::Message;
use boluo::models::{Channel, ChannelMember, Space, SpaceMember};
use boluo::validator::{Rule, Validator};

fn id(n: u8) -> Uuid {
    Uuid::from_bytes([n; 16])
}

fn space(allow_spectator: bool) -> Space {
    Space {
        id: id(4),
        name: "Pure Illusion".to_string(),
        description: String::new(),
        created: 0,
        modified: 0,
        owner_id: id(1),
        is_public: true,
        allow_spectator,
        deleted: false,
        password: String::new(),
        language: String::new(),
        default_dice_type: "d20".to_string(),
    }
}

fn channel(is_public: bool) -> Channel {
    Channel {
        id: id(3),
        name: "Test Channel".to_string(),
        topic: String::new(),
        space_id: id(4),
        created: 0,
        is_public,
        deleted: false,
        default_dice_type: "d20".to_string(),
    }
}

fn space_member(user: Uuid) -> SpaceMember {
    SpaceMember { user_id: user, space_id: id(4), is_admin: false, join_date: 0 }
}

fn channel_member(user: Uuid, master: bool) -> ChannelMember {
    ChannelMember {
        user_id: user,
        channel_id: id(3),
        join_date: 0,
        character_name: String::new(),
        is_master: master,
        text_color: None,
        is_joined: true,
    }
}

fn message(sender: Uuid) -> Message {
    Message {
        id: id(9),
        sender_id: sender,
        channel_id: id(3),
        parent_message_id: None,
        name: "n".to_string(),
        media_id: None,
        seed: vec![1, 2, 3, 4],
        deleted: false,
        in_game: false,
        is_action: false,
        is_master: false,
        pinned: false,
        tags: vec![],
        folded: false,
        text: "t".to_string(),
        whisper_to_users: None,
        entities: "[]".to_string(),
        created: 0,
        modified: 0,
        order_date: 0,
        order_offset: 0,
    }
}

fn character_rules() -> Validator {
    Validator { rules: vec![("Character name is too long.", Rule::MaxLen(10))] }
}

#[test]
fn watching_a_space() {
    let user = id(2);
    assert!(matches!(check_watch(MailboxKind::Space, None, None, Some(user), None, None), Err(AppError::NotFound(n)) if n == "space"));
    assert!(check_watch(MailboxKind::Space, None, Some(&space(true)), None, None, None).is_ok());
    assert!(matches!(check_watch(MailboxKind::Space, None, Some(&space(false)), None, None, None), Err(AppError::NoPermission)));
    assert!(matches!(check_watch(MailboxKind::Space, None, Some(&space(false)), Some(user), None, None), Err(AppError::NoPermission)));
    assert!(check_watch(MailboxKind::Space, None, Some(&space(false)), Some(user), Some(space_member(user)), None).is_ok());
}

#[test]
fn watching_a_channel() {
    let user = id(2);
    assert!(matches!(check_watch(MailboxKind::Channel, None, Some(&space(true)), Some(user), None, None), Err(AppError::NotFound(n)) if n == "channel"));
    assert!(matches!(check_watch(MailboxKind::Channel, Some(&channel(true)), None, Some(user), None, None), Err(AppError::NotFound(n)) if n == "space"));
    assert!(check_watch(MailboxKind::Channel, Some(&channel(true)), Some(&space(true)), None, None, None).is_ok());
    assert!(matches!(check_watch(MailboxKind::Channel, Some(&channel(false)), Some(&space(true)), None, None, None), Err(AppError::Unauthenticated(_))));
    assert!(matches!(check_watch(MailboxKind::Channel, Some(&channel(false)), Some(&space(true)), Some(user), None, None), Err(AppError::Unauthenticated(_))));
    assert!(check_watch(MailboxKind::Channel, Some(&channel(false)), Some(&space(true)), Some(user), None, Some(channel_member(user, false))).is_ok());
    assert!(matches!(check_watch(MailboxKind::Channel, Some(&channel(false)), Some(&space(false)), Some(user), None, Some(channel_member(user, false))), Err(AppError::NoPermission)));
}

#[test]
fn editing_a_message() {
    let user = id(2);
    let rules = character_rules();
    let m = message(user);
    assert!(matches!(plan_message_edit(None, None, &user, None, true, false, false, false, &rules), Err(AppError::NotFound(n)) if n == "messages"));
    assert!(matches!(plan_message_edit(Some(&m), None, &user, None, true, false, false, false, &rules), Err(AppError::NoPermission)));
    let other = id(5);
    assert!(matches!(plan_message_edit(Some(&m), Some(channel_member(other, true)), &other, None, true, false, false, false, &rules), Err(AppError::NoPermission)));
    let member = || Some(channel_member(user, false));
    assert!(matches!(plan_message_edit(Some(&m), member(), &user, None, false, false, false, false, &rules), Ok(EditPlan::Unchanged)));
    assert!(matches!(plan_message_edit(Some(&m), member(), &user, None, true, false, false, false, &rules), Ok(EditPlan::Apply(None))));
    assert!(matches!(plan_message_edit(Some(&m), member(), &user, Some(" a  b "), false, false, false, false, &rules), Ok(EditPlan::Apply(Some(n))) if n == "a b"));
    assert!(matches!(
        plan_message_edit(Some(&m), member(), &user, Some("a name that is far too long"), false, false, false, false, &rules),
        Err(AppError::Validation(v)) if v.0 == "Character name is too long."
    ));
}

#[test]
fn drafts_become_previews() {
    let post = PreviewPost {
        id: id(7),
        channel_id: id(3),
        name: "Cocona".to_string(),
        media_id: None,
        in_game: true,
        is_action: false,
        text: Some("hello".to_string()),
        clear: false,
        entities: "[]".to_string(),
        edit_for: None,
    };
    assert!(!position_finished(&post));
    assert!(matches!(build_preview(post.clone(), id(2), None, 10), Err(AppError::NoPermission)));
    let p = build_preview(post.clone(), id(2), Some(channel_member(id(2), true)), 10).ok().unwrap();
    assert_eq!(p.sender_id, id(2));
    assert!(p.is_master);
    assert_eq!((p.start, p.pos), (10, 10));
    assert_eq!(p.text, Some("hello".to_string()));
    assert!(p.whisper_to_users.is_none() && p.parent_message_id.is_none());
    assert!(matches!(p.slot(), CacheSlot::Preview(s) if s == id(2)));
    let mut editing = post;
    editing.edit_for = Some(5);
    editing.text = None;
    assert!(position_finished(&editing));
    let e = build_preview(editing, id(2), Some(channel_member(id(2), false)), 3).ok().unwrap();
    assert!(matches!(e.slot(), CacheSlot::Edition(s) if s == id(7)));
}

fn new_message(name: &str, text: &str, message_id: Option<Uuid>, order_date: Option<i64>) -> NewMessage {
    NewMessage {
        message_id,
        channel_id: id(3),
        name: name.to_string(),
        text: text.to_string(),
        entities: "[]".to_string(),
        in_game: true,
        is_action: false,
        order_date,
        media_id: None,
    }
}

fn named_member(user: Uuid, master: bool, name: &str) -> ChannelMember {
    let mut m = channel_member(user, master);
    m.character_name = name.to_string();
    m
}

#[test]
fn new_message_needs_membership() {
    let r = plan_new_message(new_message("Alice", "hi", None, None), id(1), None, None, &character_rules());
    assert!(matches!(r, Err(AppError::NoPermission)));
}

#[test]
fn new_message_takes_sender_and_mastery_from_membership() {
    let member = named_member(id(1), true, "  Knight ");
    let row = plan_new_message(new_message("  Sir   Lancelot ", "hello", None, Some(99)), id(1), Some(member), None, &character_rules());
    assert!(matches!(row, Err(AppError::Validation(_))));
    let member = named_member(id(1), true, "  Knight ");
    let row = plan_new_message(new_message(" Al  ice ", "hello", None, Some(99)), id(1), Some(member), None, &character_rules())
        .unwrap();
    assert_eq!(row.name, "Al ice");
    assert_eq!(row.sender_id, id(1));
    assert_eq!(row.channel_id, id(3));
    assert!(row.is_master);
    assert!(row.whisper_to.is_none());
    assert_eq!(row.text, "hello");
    assert!(row.in_game);
    assert!(!row.is_action);
    // An order date of the request's own is not taken.
    assert_eq!(row.order_date, None);
}

#[test]
fn new_message_falls_back_to_character_name() {
    let member = named_member(id(1), false, "  Knight ");
    let row = plan_new_message(new_message("   ", "hello", None, None), id(1), Some(member), None, &character_rules()).unwrap();
    assert_eq!(row.name, "Knight");
    assert!(!row.is_master);
}

#[test]
fn new_message_with_empty_text_is_refused() {
    let member = named_member(id(1), false, "Knight");
    let r = plan_new_message(new_message("Bob", "", None, None), id(1), Some(member), None, &character_rules());
    match r {
        Err(AppError::Validation(v)) => assert_eq!(v.0, "Text is empty."),
        _ => panic!("expected a validation error"),
    }
}

#[test]
fn planned_message_takes_its_preview_start() {
    let member = named_member(id(1), false, "Knight");
    let cached = b"\"2021-01-01T00:00:00\"".to_vec();
    let row = plan_new_message(new_message("Bob", "hi", Some(id(9)), None), id(1), Some(member), Some(cached), &character_rules())
        .unwrap();
    assert_eq!(row.order_date, Some(1609459200000));
    assert_eq!(row.message_id, Some(id(9)));
}

#[test]
fn channel_edit_grants_then_removes_masters() {
    let updates = master_updates(&vec![id(1), id(2)], &vec![id(2), id(5)]);
    assert_eq!(updates, vec![(id(1), true), (id(2), true), (id(2), false), (id(5), false)]);
    // Applied in order, the removal of a user named in both lists wins.
    let mut masters = vec![(id(1), false), (id(2), false), (id(6), true)];
    for (u, m) in updates {
        for entry in masters.iter_mut() {
            if entry.0 == u {
                entry.1 = m;
            }
        }
    }
    assert_eq!(masters, vec![(id(1), true), (id(2), false), (id(6), true)]);
}
