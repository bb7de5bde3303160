//! Checks of the fields of a record before it is created or edited: each field is
//! trimmed where it is, then run through the validator of its kind. The
//! validators are given by the caller, one per kind of field.
use vstd::prelude::*;
use crate::error::ValidationFailed;
use crate::text::{trim, trimmed};
use crate::validator::{first_failure, Validator};

verus! {

/// What a validator says of `s`: the message of the first rule it fails.
pub open spec fn verdict(v: Validator, s: Seq<char>) -> Result<(), ValidationFailed> {
    match first_failure(v.rules@, s) {
        Some(message) => Err(ValidationFailed(message)),
        None => Ok(()),
    }
}

/// What a validator says of an optional field: a missing field passes.
pub open spec fn optional_verdict(v: Validator, s: Option<Seq<char>>) -> Result<(), ValidationFailed> {
    match s {
        Some(text) => verdict(v, text),
        None => Ok(()),
    }
}

/// The view of an optional text.
pub open spec fn view_of(s: Option<&str>) -> Option<Seq<char>> {
    match s {
        Some(t) => Some(t@),
        None => None,
    }
}

/// The trimmed view of an optional text.
pub open spec fn trimmed_view(s: Option<&str>) -> Option<Seq<char>> {
    match s {
        Some(t) => Some(trimmed(t@)),
        None => None,
    }
}

/// The outcome of two checks made in turn: the first one's failure, else the
/// second one's outcome.
pub open spec fn in_turn(first: Result<(), ValidationFailed>, second: Result<(), ValidationFailed>) -> Result<(), ValidationFailed> {
    if first is Err {
        first
    } else {
        second
    }
}

/// Runs a validator over a text.
pub fn check(v: &Validator, s: &str) -> (r: Result<(), ValidationFailed>)
    ensures
        r == verdict(*v, s@),
{
    match v.run(s) {
        Ok(()) => Ok(()),
        Err(message) => Err(ValidationFailed(message)),
    }
}

/// Runs a validator over an optional text: a missing one passes.
pub fn check_optional(v: &Validator, s: Option<&str>) -> (r: Result<(), ValidationFailed>)
    ensures
        r == optional_verdict(*v, view_of(s)),
{
    match s {
        Some(text) => check(v, text),
        None => Ok(()),
    }
}

/// Trims an optional text.
pub fn trim_optional(s: Option<&str>) -> (r: Option<&str>)
    ensures
        view_of(r) == trimmed_view(s),
{
    match s {
        Some(text) => Some(trim(text)),
        None => None,
    }
}

/// Checks a new channel: its trimmed name is a display name, its dice type (where
/// given) a dice type. Gives the trimmed name.
pub fn check_new_channel<'a>(
    name: &'a str,
    default_dice_type: Option<&str>,
    display_name: &Validator,
    dice: &Validator,
) -> (r: Result<&'a str, ValidationFailed>)
    ensures
        ({
            let outcome = in_turn(
                verdict(*display_name, trimmed(name@)),
                optional_verdict(*dice, view_of(default_dice_type)),
            );
            match outcome {
                Ok(()) => r is Ok && r->Ok_0@ == trimmed(name@),
                Err(e) => r == Err::<&str, ValidationFailed>(e),
            }
        }),
{
    let name = trim(name);
    check(display_name, name)?;
    check_optional(dice, default_dice_type)?;
    Ok(name)
}

/// Checks an edit of a channel: the trimmed name (where given) is a display name,
/// the topic a topic, the dice type a dice type. Gives the trimmed name.
pub fn check_channel_edit<'a>(
    name: Option<&'a str>,
    topic: Option<&str>,
    default_dice_type: Option<&str>,
    display_name: &Validator,
    topic_rules: &Validator,
    dice: &Validator,
) -> (r: Result<Option<&'a str>, ValidationFailed>)
    ensures
        ({
            let outcome = in_turn(
                optional_verdict(*display_name, trimmed_view(name)),
                in_turn(
                    optional_verdict(*topic_rules, view_of(topic)),
                    optional_verdict(*dice, view_of(default_dice_type)),
                ),
            );
            match outcome {
                Ok(()) => r is Ok && view_of(r->Ok_0) == trimmed_view(name),
                Err(e) => r == Err::<Option<&str>, ValidationFailed>(e),
            }
        }),
{
    let name = trim_optional(name);
    check_optional(display_name, name)?;
    check_optional(topic_rules, topic)?;
    check_optional(dice, default_dice_type)?;
    Ok(name)
}

/// The character name of a member joining a channel, trimmed; where it is not
/// empty it must be a character name.
pub fn check_character_name<'a>(character_name: &'a str, rules: &Validator) -> (r: Result<&'a str, ValidationFailed>)
    ensures
        trimmed(character_name@).len() == 0 ==> r is Ok && r->Ok_0@ == trimmed(character_name@),
        trimmed(character_name@).len() > 0 ==> match verdict(*rules, trimmed(character_name@)) {
            Ok(()) => r is Ok && r->Ok_0@ == trimmed(character_name@),
            Err(e) => r == Err::<&str, ValidationFailed>(e),
        },
{
    let name = trim(character_name);
    if !name.is_empty() {
        check(rules, name)?;
    }
    Ok(name)
}

/// Checks an edit of a channel member: the trimmed text color (where given) is a
/// color, then the trimmed character name (where given and not empty) is a display
/// name. Gives both trimmed.
pub fn check_member_edit<'a, 'b>(
    character_name: Option<&'a str>,
    text_color: Option<&'b str>,
    display_name: &Validator,
    hex_color: &Validator,
) -> (r: Result<(Option<&'a str>, Option<&'b str>), ValidationFailed>)
    ensures
        ({
            let name = trimmed_view(character_name);
            let name_check = match name {
                Some(n) => if n.len() > 0 { verdict(*display_name, n) } else { Ok(()) },
                None => Ok(()),
            };
            let outcome = in_turn(optional_verdict(*hex_color, trimmed_view(text_color)), name_check);
            match outcome {
                Ok(()) => r is Ok && view_of(r->Ok_0.0) == name && view_of(r->Ok_0.1) == trimmed_view(text_color),
                Err(e) => r == Err::<(Option<&str>, Option<&str>), ValidationFailed>(e),
            }
        }),
{
    let character_name = trim_optional(character_name);
    let text_color = trim_optional(text_color);
    check_optional(hex_color, text_color)?;
    if let Some(name) = character_name {
        if !name.is_empty() {
            check(display_name, name)?;
        }
    }
    Ok((character_name, text_color))
}

/// Checks an edit of a space: the trimmed name (where given) is a display name,
/// the trimmed description a description, the dice type a dice type. Gives the
/// trimmed name and description.
pub fn check_space_edit<'a, 'b>(
    name: Option<&'a str>,
    description: Option<&'b str>,
    default_dice_type: Option<&str>,
    display_name: &Validator,
    description_rules: &Validator,
    dice: &Validator,
) -> (r: Result<(Option<&'a str>, Option<&'b str>), ValidationFailed>)
    ensures
        ({
            let outcome = in_turn(
                optional_verdict(*display_name, trimmed_view(name)),
                in_turn(
                    optional_verdict(*description_rules, trimmed_view(description)),
                    optional_verdict(*dice, view_of(default_dice_type)),
                ),
            );
            match outcome {
                Ok(()) => r is Ok && view_of(r->Ok_0.0) == trimmed_view(name)
                    && view_of(r->Ok_0.1) == trimmed_view(description),
                Err(e) => r == Err::<(Option<&str>, Option<&str>), ValidationFailed>(e),
            }
        }),
{
    let name = trim_optional(name);
    let description = trim_optional(description);
    check_optional(display_name, name)?;
    check_optional(description_rules, description)?;
    check_optional(dice, default_dice_type)?;
    Ok((name, description))
}

/// Checks an edit of a user: the trimmed nickname (where given) is a display name,
/// the trimmed biography a biography. Gives both trimmed.
pub fn check_user_edit<'a, 'b>(
    nickname: Option<&'a str>,
    bio: Option<&'b str>,
    display_name: &Validator,
    bio_rules: &Validator,
) -> (r: Result<(Option<&'a str>, Option<&'b str>), ValidationFailed>)
    ensures
        ({
            let outcome = in_turn(
                optional_verdict(*display_name, trimmed_view(nickname)),
                optional_verdict(*bio_rules, trimmed_view(bio)),
            );
            match outcome {
                Ok(()) => r is Ok && view_of(r->Ok_0.0) == trimmed_view(nickname)
                    && view_of(r->Ok_0.1) == trimmed_view(bio),
                Err(e) => r == Err::<(Option<&str>, Option<&str>), ValidationFailed>(e),
            }
        }),
{
    let nickname = trim_optional(nickname);
    let bio = trim_optional(bio);
    check_optional(display_name, nickname)?;
    check_optional(bio_rules, bio)?;
    Ok((nickname, bio))
}

} // verus!
