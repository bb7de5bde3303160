//! Who may do what: the checks that the request handlers make before they act.
use vstd::prelude::*;
use crate::error::AppError;
use crate::id::{lemma_uuid_eq, Uuid};
use crate::messages::Message;
use crate::models::{ChannelMember, Space, SpaceMember};

verus! {

/// A member is required: its absence is a permission failure.
pub fn require_member<T>(member: Option<T>) -> (r: Result<T, AppError>)
    ensures
        match member {
            Some(m) => r == Ok::<T, AppError>(m),
            None => r == Err::<T, AppError>(AppError::NoPermission),
        },
{
    match member {
        Some(m) => Ok(m),
        None => Err(AppError::NoPermission),
    }
}

/// Only an admin of the space may go on.
pub fn require_space_admin(member: Option<SpaceMember>) -> (r: Result<(), AppError>)
    ensures
        r is Ok <==> (member matches Some(m) && m.is_admin),
        r is Err ==> r == Err::<(), AppError>(AppError::NoPermission),
{
    match member {
        Some(m) => if m.is_admin {
            Ok(())
        } else {
            Err(AppError::NoPermission)
        },
        None => Err(AppError::NoPermission),
    }
}

/// A user who joins a space joins it as an admin exactly when the user owns it.
pub fn joins_as_admin(space: &Space, user_id: &Uuid) -> (admin: bool)
    ensures
        admin == (space.owner_id == *user_id),
{
    proof {
        lemma_uuid_eq(space.owner_id, *user_id);
    }
    space.owner_id == *user_id
}

/// Only the owner of a space may delete it.
pub fn check_space_delete(space: &Space, user_id: &Uuid) -> (r: Result<(), AppError>)
    ensures
        r is Ok <==> space.owner_id == *user_id,
        r is Err ==> r == Err::<(), AppError>(AppError::NoPermission),
{
    proof {
        lemma_uuid_eq(space.owner_id, *user_id);
    }
    if space.owner_id == *user_id {
        Ok(())
    } else {
        Err(AppError::NoPermission)
    }
}

/// Only the sender of a message may edit it.
pub fn check_message_edit(message: &Message, user_id: &Uuid) -> (r: Result<(), AppError>)
    ensures
        r is Ok <==> message.sender_id == *user_id,
        r is Err ==> r == Err::<(), AppError>(AppError::NoPermission),
{
    proof {
        lemma_uuid_eq(message.sender_id, *user_id);
    }
    if message.sender_id != *user_id {
        return Err(AppError::NoPermission);
    }
    Ok(())
}

/// Whether an edit request changes anything: some field is given.
pub fn edit_changes_anything(
    name: bool,
    text: bool,
    entities: bool,
    in_game: bool,
    is_action: bool,
) -> (b: bool)
    ensures
        b == (name || text || entities || in_game || is_action),
{
    name || text || entities || in_game || is_action
}

/// A master of the channel, or the sender, may move a message.
pub fn check_message_move(member: &ChannelMember, message: &Message, user_id: &Uuid) -> (r: Result<(), AppError>)
    ensures
        r is Ok <==> (member.is_master || message.sender_id == *user_id),
        r is Err ==> r == Err::<(), AppError>(AppError::NoPermission),
{
    proof {
        lemma_uuid_eq(message.sender_id, *user_id);
    }
    if !member.is_master && message.sender_id != *user_id {
        return Err(AppError::NoPermission);
    }
    Ok(())
}

/// Two messages swap places only within one channel.
pub fn check_same_channel(a: &Message, b: &Message) -> (r: Result<(), AppError>)
    ensures
        r is Ok <==> a.channel_id == b.channel_id,
        r is Err ==> r is Err && r->Err_0 is BadRequest
            && r->Err_0->BadRequest_0@ == "Cannot move message to a different channel"@,
{
    proof {
        lemma_uuid_eq(a.channel_id, b.channel_id);
    }
    if a.channel_id != b.channel_id {
        return Err(AppError::BadRequest(String::from_str("Cannot move message to a different channel")));
    }
    Ok(())
}

/// An admin of the space, or the sender, may delete a message.
pub fn check_message_delete(member: &SpaceMember, message: &Message, user_id: &Uuid) -> (r: Result<(), AppError>)
    ensures
        r is Ok <==> (member.is_admin || message.sender_id == *user_id),
        r is Err ==> r == Err::<(), AppError>(AppError::NoPermission),
{
    proof {
        lemma_uuid_eq(message.sender_id, *user_id);
    }
    if !member.is_admin && message.sender_id != *user_id {
        return Err(AppError::NoPermission);
    }
    Ok(())
}

/// Only a sender who is a master of the channel may fold or unfold a message; the
/// outcome is the new folded state.
pub fn toggle_fold(member: &ChannelMember, message: &Message, user_id: &Uuid) -> (r: Result<bool, AppError>)
    ensures
        (message.sender_id == *user_id && member.is_master) ==> r == Ok::<bool, AppError>(!message.folded),
        !(message.sender_id == *user_id && member.is_master) ==> r == Err::<bool, AppError>(AppError::NoPermission),
{
    proof {
        lemma_uuid_eq(message.sender_id, *user_id);
    }
    if message.sender_id != *user_id || !member.is_master {
        return Err(AppError::NoPermission);
    }
    Ok(!message.folded)
}

/// Whether watching a space needs the watcher to be a member: where the space does
/// not allow spectators, an anonymous watcher is refused, and a user must be a member.
pub fn space_watch_check(space: &Space, user_id: Option<Uuid>) -> (r: Result<bool, AppError>)
    ensures
        space.allow_spectator ==> r == Ok::<bool, AppError>(false),
        !space.allow_spectator && user_id is None ==> r == Err::<bool, AppError>(AppError::NoPermission),
        !space.allow_spectator && user_id is Some ==> r == Ok::<bool, AppError>(true),
{
    if !space.allow_spectator {
        if user_id.is_some() {
            return Ok(true);
        } else {
            return Err(AppError::NoPermission);
        }
    }
    Ok(false)
}

/// Watching a private channel needs an authenticated user; whether that user is a
/// member is checked next.
pub fn channel_watch_check(is_public: bool, user_id: Option<Uuid>) -> (r: Result<Option<Uuid>, AppError>)
    ensures
        is_public ==> r == Ok::<Option<Uuid>, AppError>(None),
        !is_public && user_id is None ==> r is Err && r->Err_0 is Unauthenticated,
        !is_public && user_id is Some ==> r == Ok::<Option<Uuid>, AppError>(user_id),
{
    if !is_public {
        match user_id {
            Some(u) => Ok(Some(u)),
            None => Err(AppError::Unauthenticated(String::from_str("Authentication failed"))),
        }
    } else {
        Ok(None)
    }
}

/// A member of a private channel is required: its absence is an authentication
/// failure.
pub fn require_channel_member(member: Option<ChannelMember>) -> (r: Result<ChannelMember, AppError>)
    ensures
        member is Some <==> r is Ok,
        member matches Some(m) ==> r == Ok::<ChannelMember, AppError>(m),
        member is None ==> r is Err && r->Err_0 is Unauthenticated
            && r->Err_0->Unauthenticated_0@ == "Authentication failed"@,
{
    match member {
        Some(m) => Ok(m),
        None => Err(AppError::Unauthenticated(String::from_str("Authentication failed"))),
    }
}

/// Whether editing a channel changes its masters, so that its member list is pushed.
pub fn masters_changed(grant_masters: &Vec<Uuid>, remove_masters: &Vec<Uuid>) -> (b: bool)
    ensures
        b == !(grant_masters@.len() == 0 && remove_masters@.len() == 0),
{
    !(grant_masters.len() == 0 && remove_masters.len() == 0)
}

/// Whether a user masters a channel, from the rows of the lookup: the flag of the
/// first row; no row means no.
pub fn is_master_from(rows: &Vec<bool>) -> (master: bool)
    ensures
        master == (rows@.len() > 0 && rows@[0]),
{
    if rows.len() > 0 {
        rows[0]
    } else {
        false
    }
}

} // verus!
