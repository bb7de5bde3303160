//! The records of the database, as plain values. Times are in milliseconds since
//! the Unix epoch.
use vstd::prelude::*;
use crate::id::Uuid;

verus! {

/// A user.
#[derive(Clone, Debug)]
pub struct User {
    pub id: Uuid,
    pub email: String,
    pub username: String,
    pub nickname: String,
    pub password: String,
    pub bio: String,
    pub joined: i64,
    pub deactivated: bool,
    pub avatar_id: Option<Uuid>,
}

/// A space: a group of channels.
#[derive(Clone, Debug)]
pub struct Space {
    pub id: Uuid,
    pub name: String,
    pub description: String,
    pub created: i64,
    pub modified: i64,
    pub owner_id: Uuid,
    pub is_public: bool,
    pub allow_spectator: bool,
    pub deleted: bool,
    pub password: String,
    pub language: String,
    pub default_dice_type: String,
}

/// The membership of a user in a space.
#[derive(Clone, Copy, Debug)]
pub struct SpaceMember {
    pub user_id: Uuid,
    pub space_id: Uuid,
    pub is_admin: bool,
    pub join_date: i64,
}

/// A channel of a space.
#[derive(Clone, Debug)]
pub struct Channel {
    pub id: Uuid,
    pub name: String,
    pub topic: String,
    pub space_id: Uuid,
    pub created: i64,
    pub is_public: bool,
    pub deleted: bool,
    pub default_dice_type: String,
}

/// The membership of a user in a channel.
#[derive(Clone, Debug)]
pub struct ChannelMember {
    pub user_id: Uuid,
    pub channel_id: Uuid,
    pub join_date: i64,
    pub character_name: String,
    pub is_master: bool,
    pub text_color: Option<String>,
    pub is_joined: bool,
}

/// An uploaded file.
#[derive(Clone, Debug)]
pub struct Media {
    pub id: Uuid,
    pub mime_type: String,
    pub uploader_id: Uuid,
    pub filename: String,
    pub original_filename: String,
    pub hash: String,
    pub size: u32,
    pub description: String,
    pub created: i64,
}

/// A space together with the membership of the user who asked.
#[derive(Clone, Debug)]
pub struct SpaceWithMember {
    pub space: Space,
    pub member: SpaceMember,
}

/// The text of a search among spaces.
#[derive(Clone, Debug)]
pub struct SearchParams {
    pub search: String,
}

} // verus!
