use boluo::edits::{
    check, check_channel_edit, check_character_name, check_member_edit, check_new_channel,
    check_optional, check_space_edit, check_user_edit, trim_optional,
};
use boluo::error::ValidationFailed;
use boluo::validator::{Rule, Validator};

fn at_least(n: usize, message: &'static str) -> Validator {
    Validator { rules: vec![(message, Rule::MinLen(n))] }
}

fn at_most(n: usize, message: &'static str) -> Validator {
    Validator { rules: vec![(message, Rule::MaxLen(n))] }
}

#[test]
fn fields_are_trimmed_then_checked() {
    let name = at_least(2, "name too short");
    assert_eq!(check(&name, "ab"), Ok(()));
    assert_eq!(check(&name, "a"), Err(ValidationFailed("name too short")));
    assert_eq!(check_optional(&name, None), Ok(()));
    assert_eq!(trim_optional(Some("  x ")), Some("x"));
    assert_eq!(check_new_channel("  Test Channel ", None, &name, &at_most(3, "dice")), Ok("Test Channel"));
    assert_eq!(
        check_new_channel(" a ", Some("d20"), &name, &at_most(3, "dice")),
        Err(ValidationFailed("name too short"))
    );
    assert_eq!(
        check_new_channel("abc", Some("d1000"), &name, &at_most(3, "dice")),
        Err(ValidationFailed("dice"))
    );
}

#[test]
fn channel_edits_checked_in_order() {
    let name = at_least(2, "name");
    let topic = at_most(5, "topic");
    let dice = at_most(3, "dice");
    assert_eq!(check_channel_edit(Some(" ok "), None, None, &name, &topic, &dice), Ok(Some("ok")));
    assert_eq!(
        check_channel_edit(Some("x"), Some("far too long"), Some("d1000"), &name, &topic, &dice),
        Err(ValidationFailed("name"))
    );
    assert_eq!(
        check_channel_edit(None, Some("far too long"), Some("d1000"), &name, &topic, &dice),
        Err(ValidationFailed("topic"))
    );
    assert_eq!(check_channel_edit(None, None, Some("d1000"), &name, &topic, &dice), Err(ValidationFailed("dice")));
}

#[test]
fn member_edits_and_character_names() {
    let name = at_least(2, "name");
    let color = at_most(7, "color");
    assert_eq!(check_character_name("   ", &name), Ok(""));
    assert_eq!(check_character_name(" x ", &name), Err(ValidationFailed("name")));
    assert_eq!(check_character_name(" Cocona ", &name), Ok("Cocona"));
    assert_eq!(check_member_edit(Some("  "), Some(" #ffffff "), &name, &color), Ok((Some(""), Some("#ffffff"))));
    assert_eq!(check_member_edit(Some("x"), Some("#ffffffff"), &name, &color), Err(ValidationFailed("color")));
    assert_eq!(check_member_edit(Some("x"), None, &name, &color), Err(ValidationFailed("name")));
}

#[test]
fn space_and_user_edits() {
    let name = at_least(2, "name");
    let description = at_most(4, "description");
    let dice = at_most(3, "dice");
    assert_eq!(
        check_space_edit(Some(" Mythal "), Some(" abc "), Some("d20"), &name, &description, &dice),
        Ok((Some("Mythal"), Some("abc")))
    );
    assert_eq!(
        check_space_edit(None, Some("abcdef"), None, &name, &description, &dice),
        Err(ValidationFailed("description"))
    );
    let bio = at_most(4, "bio");
    assert_eq!(check_user_edit(Some(" 动感超人 "), None, &name, &bio), Ok((Some("动感超人"), None)));
    assert_eq!(check_user_edit(None, Some("千片万片无数片"), &name, &bio), Err(ValidationFailed("bio")));
}
