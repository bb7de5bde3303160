use boluo::validator::{Rule, Validator};
use boluo::messages::new_message_order_date;
use boluo::id::Uuid;
use boluo::messages::{
    check_limit, plan_move, plan_move_to_bottom, plan_move_to_top, prepare_new_message,
    preview_to_place, swapped_orders, edited_name, conceal_all, Message, MovePlan, MoveToMode,
};
use boluo::error::ValidationFailed;
use boluo::models::{ChannelMember, Space, SpaceMember};
use boluo::permissions::{
    channel_watch_check, check_message_delete, check_message_edit, check_message_move,
    check_same_channel, check_space_delete, edit_changes_anything, joins_as_admin,
    masters_changed, require_channel_member, require_member, require_space_admin,
    space_watch_check, toggle_fold,
};
use boluo::error::AppError;

fn id(n: u8) -> Uuid {
    Uuid::from_bytes([n; 16])
}

fn character_rules() -> Validator {
    Validator { rules: vec![("Character name is too long.", Rule::MaxLen(10))] }
}

fn message(sender: Uuid, channel: Uuid, whisper: bool) -> Message {
    Message {
        id: id(1),
        sender_id: sender,
        channel_id: channel,
        parent_message_id: None,
        name: "Cocona".to_string(),
        media_id: None,
        seed: vec![9, 9, 9, 9],
        deleted: false,
        in_game: true,
        is_action: false,
        is_master: false,
        pinned: false,
        tags: vec!["t".to_string()],
        folded: false,
        text: "hello, world".to_string(),
        whisper_to_users: if whisper { Some(vec![id(7)]) } else { None },
        entities: "[{}]".to_string(),
        created: 5,
        modified: 6,
        order_date: 7,
        order_offset: 8,
    }
}

fn member(user: Uuid, master: bool) -> ChannelMember {
    ChannelMember {
        user_id: user,
        channel_id: id(3),
        join_date: 0,
        character_name: "c".to_string(),
        is_master: master,
        text_color: None,
        is_joined: true,
    }
}

fn space(owner: Uuid, allow_spectator: bool) -> Space {
    Space {
        id: id(4),
        name: "Pure Illusion".to_string(),
        description: String::new(),
        created: 0,
        modified: 0,
        owner_id: owner,
        is_public: true,
        allow_spectator,
        deleted: false,
        password: String::new(),
        language: String::new(),
        default_dice_type: "d20".to_string(),
    }
}

#[test]
fn whisper_is_concealed_and_rest_kept() {
    let mut m = message(id(2), id(3), true);
    m.conceal();
    assert_eq!(m.seed, vec![0, 0, 0, 0]);
    assert_eq!(m.text, "");
    assert_eq!(m.entities, "[]");
    assert_eq!(m.name, "Cocona");
    assert_eq!(m.order_offset, 8);
    let mut open = message(id(2), id(3), false);
    open.conceal();
    assert_eq!(open.text, "hello, world");
    assert_eq!(open.seed, vec![9, 9, 9, 9]);
}

#[test]
fn move_lands_between_neighbours() {
    assert_eq!(plan_move_to_top(100, Some(90)), MovePlan::SetOrder(95));
    assert_eq!(plan_move_to_top(100, Some(99)), MovePlan::MakeRoom(92));
    assert_eq!(plan_move_to_top(100, None), MovePlan::SetOrder(68));
    assert_eq!(plan_move_to_bottom(100, Some(110)), MovePlan::SetOrder(105));
    assert_eq!(plan_move_to_bottom(100, Some(101)), MovePlan::MakeRoom(108));
    assert_eq!(plan_move_to_bottom(100, None), MovePlan::SetOrder(132));
    assert_eq!(plan_move(MoveToMode::Top, -5, Some(-10)), MovePlan::SetOrder(-7));
    assert_eq!(plan_move(MoveToMode::Bottom, -5, Some(0)), MovePlan::SetOrder(-3));
}

#[test]
fn limits_and_new_message_names() {
    assert_eq!(check_limit(1), Ok(()));
    assert_eq!(check_limit(256), Ok(()));
    assert_eq!(check_limit(0), Err(ValidationFailed("illegal limit range")));
    assert_eq!(check_limit(257), Err(ValidationFailed("illegal limit range")));
    let rules = character_rules();
    assert_eq!(prepare_new_message("  a   b ", "x", "t", &rules), Ok("a b".to_string()));
    assert_eq!(prepare_new_message("   ", " default ", "t", &rules), Ok("default".to_string()));
    assert_eq!(prepare_new_message("a", "x", "", &rules), Err(ValidationFailed("Text is empty.")));
    assert_eq!(
        prepare_new_message("a name that is far too long", "x", "", &rules),
        Err(ValidationFailed("Character name is too long."))
    );
}

#[test]
fn new_message_order_comes_from_its_preview() {
    assert_eq!(preview_to_place(None, Some(id(1))), Some(id(1)));
    assert_eq!(preview_to_place(Some(3), Some(id(1))), None);
    assert_eq!(preview_to_place(None, None), None);
}

#[test]
fn message_permissions() {
    let sender = id(2);
    let other = id(5);
    let m = message(sender, id(3), false);
    assert!(check_message_edit(&m, &sender).is_ok());
    assert!(matches!(check_message_edit(&m, &other), Err(AppError::NoPermission)));
    assert!(check_message_move(&member(other, true), &m, &other).is_ok());
    assert!(check_message_move(&member(sender, false), &m, &sender).is_ok());
    assert!(check_message_move(&member(other, false), &m, &other).is_err());
    let admin = SpaceMember { user_id: other, space_id: id(4), is_admin: true, join_date: 0 };
    let plain = SpaceMember { user_id: other, space_id: id(4), is_admin: false, join_date: 0 };
    assert!(check_message_delete(&admin, &m, &other).is_ok());
    assert!(check_message_delete(&plain, &m, &other).is_err());
    assert!(check_message_delete(&plain, &m, &sender).is_ok());
    assert_eq!(toggle_fold(&member(sender, true), &m, &sender).ok(), Some(true));
    assert!(toggle_fold(&member(sender, false), &m, &sender).is_err());
    assert!(toggle_fold(&member(other, true), &m, &other).is_err());
    let elsewhere = message(sender, id(8), false);
    assert!(check_same_channel(&m, &m).is_ok());
    match check_same_channel(&m, &elsewhere) {
        Err(AppError::BadRequest(t)) => assert_eq!(t, "Cannot move message to a different channel"),
        other => panic!("unexpected {:?}", other),
    }
    assert!(edit_changes_anything(false, false, false, false, true));
    assert!(!edit_changes_anything(false, false, false, false, false));
}

#[test]
fn space_and_channel_permissions() {
    let owner = id(1);
    let s = space(owner, false);
    assert!(joins_as_admin(&s, &owner));
    assert!(!joins_as_admin(&s, &id(2)));
    assert!(check_space_delete(&s, &owner).is_ok());
    assert!(check_space_delete(&s, &id(2)).is_err());
    assert_eq!(space_watch_check(&space(owner, true), None).ok(), Some(false));
    assert!(matches!(space_watch_check(&s, None), Err(AppError::NoPermission)));
    assert_eq!(space_watch_check(&s, Some(id(2))).ok(), Some(true));
    assert_eq!(channel_watch_check(true, None).ok(), Some(None));
    assert!(matches!(channel_watch_check(false, None), Err(AppError::Unauthenticated(_))));
    assert_eq!(channel_watch_check(false, Some(id(2))).ok(), Some(Some(id(2))));
    assert!(matches!(require_member::<u8>(None), Err(AppError::NoPermission)));
    assert_eq!(require_member(Some(3u8)).ok(), Some(3));
    let admin = SpaceMember { user_id: owner, space_id: id(4), is_admin: true, join_date: 0 };
    assert!(require_space_admin(Some(admin)).is_ok());
    assert!(require_space_admin(None).is_err());
    assert!(matches!(require_channel_member(None), Err(AppError::Unauthenticated(_))));
    assert!(require_channel_member(Some(member(owner, false))).is_ok());
    assert!(masters_changed(&vec![id(1)], &vec![]));
    assert!(!masters_changed(&vec![], &vec![]));
}

#[test]
fn swapping_twice_restores_places() {
    let mut a = message(id(2), id(3), false);
    let mut b = message(id(5), id(3), false);
    b.id = id(6);
    b.order_date = 100;
    b.order_offset = -4;
    let (pa, pb) = swapped_orders(&a, &b);
    assert_eq!((pa.id, pa.order_date, pa.order_offset), (a.id, 100, -4));
    assert_eq!((pb.id, pb.order_date, pb.order_offset), (id(6), 7, 8));
    a.order_date = pa.order_date;
    a.order_offset = pa.order_offset;
    b.order_date = pb.order_date;
    b.order_offset = pb.order_offset;
    let (qa, qb) = swapped_orders(&a, &b);
    assert_eq!((qa.order_date, qa.order_offset), (7, 8));
    assert_eq!((qb.order_date, qb.order_offset), (100, -4));
    let rules = character_rules();
    assert_eq!(edited_name(Some("  x   y "), &rules), Ok(Some("x y".to_string())));
    assert_eq!(edited_name(None, &rules), Ok(None));
    assert_eq!(
        edited_name(Some("a name that is far too long"), &rules),
        Err(ValidationFailed("Character name is too long."))
    );
}

#[test]
fn exported_whispers_are_concealed_on_request() {
    let mut all = vec![message(id(2), id(3), true), message(id(2), id(3), false)];
    conceal_all(&mut all, false);
    assert_eq!(all[0].text, "hello, world");
    conceal_all(&mut all, true);
    assert_eq!(all[0].text, "");
    assert_eq!(all[1].text, "hello, world");
}

#[test]
fn new_message_takes_its_preview_start() {
    let cached = b"\"2020-01-01T00:00:00.250\"".to_vec();
    assert_eq!(new_message_order_date(None, Some(id(1)), Some(cached.clone())), Some(1577836800250));
    assert_eq!(new_message_order_date(Some(5), Some(id(1)), Some(cached.clone())), None);
    assert_eq!(new_message_order_date(None, None, Some(cached)), None);
    assert_eq!(new_message_order_date(None, Some(id(1)), None), None);
    assert_eq!(new_message_order_date(None, Some(id(1)), Some(b"not a date".to_vec())), None);
}
