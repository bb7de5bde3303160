//! The decisions of whole requests, in the order the server takes them, from what
//! the database gave for the request: who may watch a mailbox, what a new message
//! is created with, what an edit of a message does, the preview that a client's
//! draft becomes, and how a channel edit changes who is a master.
use vstd::prelude::*;
use crate::edits::verdict;
use crate::error::AppError;
use crate::events::{preview_slot, spec_preview_slot, CacheSlot};
use crate::id::{lemma_uuid_eq, Uuid};
use crate::error::ValidationFailed;
use crate::messages::{
    cached_start_millis, edited_name, new_message_order_date, prepare_new_message, spec_message_name, Message,
};
use crate::models::{Channel, ChannelMember, Space, SpaceMember};
use crate::permissions::{
    channel_watch_check, check_message_edit, edit_changes_anything, require_channel_member,
    require_member, space_watch_check,
};
use crate::utils::spec_merge_blank;
use crate::validator::Validator;

verus! {

/// The kind of a mailbox that a client watches.
#[derive(Clone, Copy, Debug, PartialEq, Eq)]
pub enum MailboxKind {
    /// The events of a space.
    Space,
    /// The events of a channel.
    Channel,
}

/// Why watching a mailbox is refused.
#[derive(Clone, Copy, Debug, PartialEq, Eq)]
pub enum Refusal {
    /// The named thing does not exist.
    NotFound(&'static str),
    /// The watcher may not see the space.
    NoPermission,
    /// The private channel needs an authenticated member.
    Unauthenticated,
}

/// Whether a watcher may see a space: where it does not allow spectators, only an
/// authenticated member may.
pub open spec fn space_refusal(space: Space, user_id: Option<Uuid>, is_space_member: bool) -> Option<Refusal> {
    if !space.allow_spectator && (user_id is None || !is_space_member) {
        Some(Refusal::NoPermission)
    } else {
        None
    }
}

/// Why watching a mailbox is refused, if it is: for a space, the space must exist
/// and be visible; for a channel, the channel and its space must exist, the space be
/// visible, and a private channel needs an authenticated member.
pub open spec fn watch_refusal(
    kind: MailboxKind,
    channel: Option<Channel>,
    space: Option<Space>,
    user_id: Option<Uuid>,
    is_space_member: bool,
    is_channel_member: bool,
) -> Option<Refusal> {
    match kind {
        MailboxKind::Space => match space {
            None => Some(Refusal::NotFound("space")),
            Some(s) => space_refusal(s, user_id, is_space_member),
        },
        MailboxKind::Channel => match channel {
            None => Some(Refusal::NotFound("channel")),
            Some(c) => match space {
                None => Some(Refusal::NotFound("space")),
                Some(s) => if space_refusal(s, user_id, is_space_member) is Some {
                    space_refusal(s, user_id, is_space_member)
                } else if !c.is_public && (user_id is None || !is_channel_member) {
                    Some(Refusal::Unauthenticated)
                } else {
                    None
                },
            },
        },
    }
}

/// Who may watch a mailbox. A space's mailbox may be watched where the space exists
/// and either allows spectators or the watcher is an authenticated member of it;
/// where it is not visible, the refusal is `NoPermission`. A channel's mailbox may
/// be watched where the channel and its space exist, the space is visible to the
/// watcher in that same way, and the channel is public or the watcher is an
/// authenticated member of it; a visible space with a private channel that the
/// watcher is no member of gives `Unauthenticated`. Membership of a public channel
/// never matters.
pub proof fn lemma_watch(
    kind: MailboxKind,
    channel: Option<Channel>,
    space: Option<Space>,
    user_id: Option<Uuid>,
    is_space_member: bool,
    is_channel_member: bool,
)
    ensures
        kind == MailboxKind::Space ==> (space matches Some(s) ==> (
            watch_refusal(kind, channel, space, user_id, is_space_member, is_channel_member) is None
                <==> (s.allow_spectator || (user_id is Some && is_space_member)))),
        kind == MailboxKind::Space && space is None ==>
            watch_refusal(kind, channel, space, user_id, is_space_member, is_channel_member) == Some(Refusal::NotFound("space")),
        kind == MailboxKind::Channel && channel is None ==>
            watch_refusal(kind, channel, space, user_id, is_space_member, is_channel_member) == Some(Refusal::NotFound("channel")),
        kind == MailboxKind::Channel && channel is Some && space is None ==>
            watch_refusal(kind, channel, space, user_id, is_space_member, is_channel_member) == Some(Refusal::NotFound("space")),
        kind == MailboxKind::Channel ==> (channel matches Some(c) ==> (space matches Some(s) ==> (
            watch_refusal(kind, channel, space, user_id, is_space_member, is_channel_member) is None
                <==> ((s.allow_spectator || (user_id is Some && is_space_member))
                    && (c.is_public || (user_id is Some && is_channel_member)))))),
        kind == MailboxKind::Channel ==> (channel matches Some(c) ==> (space matches Some(s) ==> (
            c.is_public && (s.allow_spectator || (user_id is Some && is_space_member)) ==>
                watch_refusal(kind, channel, space, user_id, is_space_member, is_channel_member) is None))),
        space matches Some(s) ==> (!s.allow_spectator && (user_id is None || !is_space_member)
            && (kind == MailboxKind::Space || channel is Some) ==>
            watch_refusal(kind, channel, space, user_id, is_space_member, is_channel_member) == Some(Refusal::NoPermission)),
        kind == MailboxKind::Channel ==> (channel matches Some(c) ==> (space matches Some(s) ==> (
            (s.allow_spectator || (user_id is Some && is_space_member)) && !c.is_public
                && (user_id is None || !is_channel_member) ==>
                watch_refusal(kind, channel, space, user_id, is_space_member, is_channel_member) == Some(Refusal::Unauthenticated)))),
{
}

/// Decides whether a client may watch a mailbox, from the mailbox's channel (for a
/// channel mailbox), its space, the watcher, and the watcher's memberships of the
/// space and of the channel, where the database has them.
pub fn check_watch(
    kind: MailboxKind,
    channel: Option<&Channel>,
    space: Option<&Space>,
    user_id: Option<Uuid>,
    space_member: Option<SpaceMember>,
    channel_member: Option<ChannelMember>,
) -> (r: Result<(), AppError>)
    ensures
        match watch_refusal(
            kind,
            match channel { Some(c) => Some(*c), None => None },
            match space { Some(s) => Some(*s), None => None },
            user_id,
            space_member is Some,
            channel_member is Some,
        ) {
            None => r is Ok,
            Some(Refusal::NotFound(name)) => r == Err::<(), AppError>(AppError::NotFound(name)),
            Some(Refusal::NoPermission) => r == Err::<(), AppError>(AppError::NoPermission),
            Some(Refusal::Unauthenticated) => r matches Err(AppError::Unauthenticated(_)),
        },
        kind == MailboxKind::Channel ==> (channel matches Some(c) ==> (space matches Some(s) ==> (
            c.is_public && (s.allow_spectator || (user_id is Some && space_member is Some)) ==> r is Ok))),
{
    let channel = match kind {
        MailboxKind::Space => None,
        MailboxKind::Channel => match channel {
            None => return Err(AppError::NotFound("channel")),
            Some(c) => Some(c),
        },
    };
    let space = match space {
        None => return Err(AppError::NotFound("space")),
        Some(s) => s,
    };
    if space_watch_check(space, user_id)? {
        require_member(space_member)?;
    }
    if let Some(c) = channel {
        if channel_watch_check(c.is_public, user_id)?.is_some() {
            require_channel_member(channel_member)?;
        }
    }
    Ok(())
}

/// What an edit request does to a message.
#[derive(Clone, Debug)]
pub enum EditPlan {
    /// Nothing is asked to change: the message is answered as it is.
    Unchanged,
    /// The message is edited, under this name where one was given.
    Apply(Option<String>),
}

/// Decides an edit of a message by `user_id`: the message must exist, the user be
/// a member of its channel and its sender; where any field is given, the name
/// (where given) has its blanks merged and must be a character name.
pub fn plan_message_edit(
    message: Option<&Message>,
    member: Option<ChannelMember>,
    user_id: &Uuid,
    name: Option<&str>,
    text: bool,
    entities: bool,
    in_game: bool,
    is_action: bool,
    character_name: &Validator,
) -> (r: Result<EditPlan, AppError>)
    ensures
        message is None ==> r == Err::<EditPlan, AppError>(AppError::NotFound("messages")),
        message is Some && member is None ==> r == Err::<EditPlan, AppError>(AppError::NoPermission),
        message matches Some(m) && member is Some && m.sender_id != *user_id
            ==> r == Err::<EditPlan, AppError>(AppError::NoPermission),
        message matches Some(m) && member is Some && m.sender_id == *user_id ==> {
            if !(name is Some || text || entities || in_game || is_action) {
                r matches Ok(EditPlan::Unchanged)
            } else {
                match name {
                    None => r matches Ok(EditPlan::Apply(None)),
                    Some(n) => match verdict(*character_name, spec_merge_blank(n@)) {
                        Err(e) => r == Err::<EditPlan, AppError>(AppError::Validation(e)),
                        Ok(()) => r matches Ok(EditPlan::Apply(Some(merged)))
                            && merged@ == spec_merge_blank(n@),
                    },
                }
            }
        },
{
    let message = match message {
        None => return Err(AppError::NotFound("messages")),
        Some(m) => m,
    };
    require_member(member)?;
    check_message_edit(message, user_id)?;
    proof {
        lemma_uuid_eq(message.sender_id, *user_id);
    }
    if !edit_changes_anything(name.is_some(), text, entities, in_game, is_action) {
        return Ok(EditPlan::Unchanged);
    }
    match edited_name(name, character_name) {
        Ok(merged) => Ok(EditPlan::Apply(merged)),
        Err(e) => Err(AppError::Validation(e)),
    }
}

/// A draft that a client sends while writing a message.
#[derive(Clone, Debug)]
pub struct PreviewPost {
    pub id: Uuid,
    pub channel_id: Uuid,
    pub name: String,
    pub media_id: Option<Uuid>,
    pub in_game: bool,
    pub is_action: bool,
    pub text: Option<String>,
    pub clear: bool,
    /// The JSON text of the entities.
    pub entities: String,
    /// Where the draft edits a message: the edited message's order date, in
    /// milliseconds since the Unix epoch.
    pub edit_for: Option<i64>,
}

/// The preview of a draft, as the channel's watchers get it.
#[derive(Clone, Debug)]
pub struct Preview {
    pub id: Uuid,
    pub sender_id: Uuid,
    pub channel_id: Uuid,
    pub parent_message_id: Option<Uuid>,
    pub name: String,
    pub media_id: Option<Uuid>,
    pub in_game: bool,
    pub is_action: bool,
    pub is_master: bool,
    pub clear: bool,
    pub text: Option<String>,
    pub whisper_to_users: Option<Vec<Uuid>>,
    pub entities: String,
    pub start: i64,
    pub pos: i64,
    pub edit_for: Option<i64>,
}

/// Whether a draft ends its preview's place: a draft without text is finished.
pub fn position_finished(post: &PreviewPost) -> (finished: bool)
    ensures
        finished == post.text is None,
{
    post.text.is_none()
}

/// The preview that a draft of `user_id` becomes, placed at `start`: the sender
/// must be a member of the channel, whose mastery the preview carries; a preview
/// has no parent and no whisper list, and stands where it starts.
pub fn build_preview(post: PreviewPost, user_id: Uuid, member: Option<ChannelMember>, start: i64) -> (r: Result<Preview, AppError>)
    ensures
        member is None ==> r == Err::<Preview, AppError>(AppError::NoPermission),
        member matches Some(m) ==> r matches Ok(p) && {
            &&& p.id == post.id
            &&& p.sender_id == user_id
            &&& p.channel_id == post.channel_id
            &&& p.parent_message_id is None
            &&& p.name == post.name
            &&& p.media_id == post.media_id
            &&& p.in_game == post.in_game
            &&& p.is_action == post.is_action
            &&& p.is_master == m.is_master
            &&& p.clear == post.clear
            &&& p.text == post.text
            &&& p.whisper_to_users is None
            &&& p.entities == post.entities
            &&& p.start == start
            &&& p.pos == start
            &&& p.edit_for == post.edit_for
        },
{
    let member = require_member(member)?;
    Ok(Preview {
        id: post.id,
        sender_id: user_id,
        channel_id: post.channel_id,
        parent_message_id: None,
        name: post.name,
        media_id: post.media_id,
        in_game: post.in_game,
        is_action: post.is_action,
        is_master: member.is_master,
        clear: post.clear,
        text: post.text,
        whisper_to_users: None,
        entities: post.entities,
        start,
        pos: start,
        edit_for: post.edit_for,
    })
}

impl Preview {
    /// Where the event cache keeps this preview: by its id where it edits a
    /// message, else by its sender.
    pub fn slot(&self) -> (slot: CacheSlot)
        ensures
            slot == spec_preview_slot(self.id, self.sender_id, self.edit_for is Some),
    {
        preview_slot(self.id, self.sender_id, self.edit_for.is_some())
    }
}


/// What a client sends to post a message.
#[derive(Clone, Debug)]
pub struct NewMessage {
    pub message_id: Option<Uuid>,
    pub channel_id: Uuid,
    pub name: String,
    pub text: String,
    /// The JSON text of the entities.
    pub entities: String,
    pub in_game: bool,
    pub is_action: bool,
    pub order_date: Option<i64>,
    pub media_id: Option<Uuid>,
}

/// A new message as it is handed to the database. Times are in milliseconds since
/// the Unix epoch.
#[derive(Clone, Debug)]
pub struct NewMessageRow {
    pub message_id: Option<Uuid>,
    pub sender_id: Uuid,
    pub channel_id: Uuid,
    pub name: String,
    pub text: String,
    pub entities: String,
    pub in_game: bool,
    pub is_action: bool,
    pub is_master: bool,
    pub whisper_to: Option<Vec<Uuid>>,
    pub media_id: Option<Uuid>,
    pub order_date: Option<i64>,
}

/// The order date that a new message takes from the request and the cached start
/// of its preview (see `new_message_order_date`).
pub open spec fn spec_new_order_date(order_date: Option<i64>, message_id: Option<Uuid>, cached_start: Option<Seq<u8>>) -> Option<i64> {
    match (order_date, message_id, cached_start) {
        (None, Some(_), Some(b)) => cached_start_millis(b),
        _ => None,
    }
}

/// Decides a request of `user_id` to post a message: the user must be a member of
/// the channel; the message is sent by the user, under the request's name with its
/// blanks merged or else the member's character name, checked as a character
/// name, with a text that is not empty; it is a master's message where the member
/// is a master, is whispered to nobody, and takes its order date from the start of
/// its preview (`cached_start`, the bytes the cache holds for it).
pub fn plan_new_message(
    request: NewMessage,
    user_id: Uuid,
    member: Option<ChannelMember>,
    cached_start: Option<Vec<u8>>,
    character_name: &Validator,
) -> (r: Result<NewMessageRow, AppError>)
    ensures
        member is None ==> r == Err::<NewMessageRow, AppError>(AppError::NoPermission),
        member matches Some(m) ==> match verdict(*character_name, spec_message_name(request.name@, m.character_name@)) {
            Err(e) => r == Err::<NewMessageRow, AppError>(AppError::Validation(e)),
            Ok(()) => if request.text@.len() == 0 {
                r == Err::<NewMessageRow, AppError>(AppError::Validation(ValidationFailed("Text is empty.")))
            } else {
                r matches Ok(row) && {
                    &&& row.message_id == request.message_id
                    &&& row.sender_id == user_id
                    &&& row.channel_id == request.channel_id
                    &&& row.name@ == spec_message_name(request.name@, m.character_name@)
                    &&& row.text == request.text
                    &&& row.entities == request.entities
                    &&& row.in_game == request.in_game
                    &&& row.is_action == request.is_action
                    &&& row.is_master == m.is_master
                    &&& row.whisper_to is None
                    &&& row.media_id == request.media_id
                    &&& row.order_date == spec_new_order_date(
                        request.order_date,
                        request.message_id,
                        match cached_start {
                            Some(b) => Some(b@),
                            None => None,
                        },
                    )
                }
            },
        },
{
    let member = require_member(member)?;
    let order_date = new_message_order_date(request.order_date, request.message_id, cached_start);
    let name = match prepare_new_message(
        request.name.as_str(),
        member.character_name.as_str(),
        request.text.as_str(),
        character_name,
    ) {
        Ok(name) => name,
        Err(e) => return Err(AppError::Validation(e)),
    };
    Ok(NewMessageRow {
        message_id: request.message_id,
        sender_id: user_id,
        channel_id: request.channel_id,
        name,
        text: request.text,
        entities: request.entities,
        in_game: request.in_game,
        is_action: request.is_action,
        is_master: member.is_master,
        whisper_to: None,
        media_id: request.media_id,
        order_date,
    })
}

/// The mastery updates of a channel edit, as `(user, is_master)` in the order they
/// are applied: every grant, then every removal.
pub open spec fn master_update_seq(grant_masters: Seq<Uuid>, remove_masters: Seq<Uuid>) -> Seq<(Uuid, bool)> {
    grant_masters.map_values(|u: Uuid| (u, true)) + remove_masters.map_values(|u: Uuid| (u, false))
}

/// The mastery of a channel's members after `updates` are applied in order; an
/// update of a user who is no member changes nothing.
pub open spec fn apply_master_updates(masters: Map<Uuid, bool>, updates: Seq<(Uuid, bool)>) -> Map<Uuid, bool>
    decreases updates.len(),
{
    if updates.len() == 0 {
        masters
    } else {
        let before = apply_master_updates(masters, updates.drop_last());
        let (u, is_master) = updates.last();
        if before.contains_key(u) {
            before.insert(u, is_master)
        } else {
            before
        }
    }
}

/// The mastery updates of a channel edit: the users in `grant_masters` become
/// masters, then those in `remove_masters` stop being masters.
pub fn master_updates(grant_masters: &Vec<Uuid>, remove_masters: &Vec<Uuid>) -> (updates: Vec<(Uuid, bool)>)
    ensures
        updates@ == master_update_seq(grant_masters@, remove_masters@),
{
    let mut updates: Vec<(Uuid, bool)> = Vec::new();
    let mut i: usize = 0;
    while i < grant_masters.len()
        invariant
            i <= grant_masters@.len(),
            updates@ == grant_masters@.take(i as int).map_values(|u: Uuid| (u, true)),
        decreases grant_masters@.len() - i,
    {
        updates.push((grant_masters[i], true));
        assert(grant_masters@.take(i + 1) =~= grant_masters@.take(i as int).push(grant_masters@[i as int]));
        assert(updates@ =~= grant_masters@.take(i + 1).map_values(|u: Uuid| (u, true)));
        i = i + 1;
    }
    assert(grant_masters@.take(i as int) =~= grant_masters@);
    let ghost granted = updates@;
    let mut j: usize = 0;
    while j < remove_masters.len()
        invariant
            j <= remove_masters@.len(),
            granted == grant_masters@.map_values(|u: Uuid| (u, true)),
            updates@ == granted + remove_masters@.take(j as int).map_values(|u: Uuid| (u, false)),
        decreases remove_masters@.len() - j,
    {
        updates.push((remove_masters[j], false));
        assert(remove_masters@.take(j + 1) =~= remove_masters@.take(j as int).push(remove_masters@[j as int]));
        assert(updates@ =~= granted + remove_masters@.take(j + 1).map_values(|u: Uuid| (u, false)));
        j = j + 1;
    }
    assert(remove_masters@.take(j as int) =~= remove_masters@);
    updates
}

proof fn lemma_apply_concat(masters: Map<Uuid, bool>, a: Seq<(Uuid, bool)>, b: Seq<(Uuid, bool)>)
    ensures
        apply_master_updates(masters, a + b) == apply_master_updates(apply_master_updates(masters, a), b),
    decreases b.len(),
{
    if b.len() == 0 {
        assert(a + b =~= a);
    } else {
        assert((a + b).drop_last() =~= a + b.drop_last());
        assert((a + b).last() == b.last());
        lemma_apply_concat(masters, a, b.drop_last());
    }
}

proof fn lemma_apply_same(masters: Map<Uuid, bool>, users: Seq<Uuid>, is_master: bool)
    ensures
        apply_master_updates(masters, users.map_values(|u: Uuid| (u, is_master))).dom() == masters.dom(),
        forall|u: Uuid| #[trigger] masters.contains_key(u) ==>
            apply_master_updates(masters, users.map_values(|v: Uuid| (v, is_master)))[u]
                == (if users.contains(u) { is_master } else { masters[u] }),
    decreases users.len(),
{
    let updates = users.map_values(|u: Uuid| (u, is_master));
    if users.len() == 0 {
        assert(updates.len() == 0);
    } else {
        let rest = users.drop_last();
        assert(updates.drop_last() =~= rest.map_values(|u: Uuid| (u, is_master)));
        lemma_apply_same(masters, rest, is_master);
        let before = apply_master_updates(masters, updates.drop_last());
        assert(updates.last() == (users.last(), is_master));
        assert(before.dom() =~= masters.dom());
        assert(apply_master_updates(masters, updates).dom() =~= masters.dom());
        assert forall|u: Uuid| #[trigger] masters.contains_key(u) implies
            apply_master_updates(masters, updates)[u] == (if users.contains(u) { is_master } else { masters[u] }) by {
            if u == users.last() {
                assert(users.contains(u)) by {
                    assert(users[users.len() - 1] == u);
                }
            } else {
                assert(users.contains(u) <==> rest.contains(u)) by {
                    if users.contains(u) {
                        let k = choose|k: int| 0 <= k < users.len() && users[k] == u;
                        assert(k != users.len() - 1);
                        assert(rest[k] == u);
                    }
                    if rest.contains(u) {
                        let k = choose|k: int| 0 <= k < rest.len() && rest[k] == u;
                        assert(users[k] == u);
                    }
                }
            }
        }
    }
}

/// After a channel edit, a member named among the removals is no master, one named
/// only among the grants is a master, and any other member keeps their mastery;
/// users who are no members stay out.
pub proof fn lemma_removal_wins(masters: Map<Uuid, bool>, grant_masters: Seq<Uuid>, remove_masters: Seq<Uuid>)
    ensures
        apply_master_updates(masters, master_update_seq(grant_masters, remove_masters)).dom() == masters.dom(),
        forall|u: Uuid| #[trigger] masters.contains_key(u) ==>
            apply_master_updates(masters, master_update_seq(grant_masters, remove_masters))[u] == (
                if remove_masters.contains(u) {
                    false
                } else if grant_masters.contains(u) {
                    true
                } else {
                    masters[u]
                }),
{
    let granted = grant_masters.map_values(|u: Uuid| (u, true));
    let removed = remove_masters.map_values(|u: Uuid| (u, false));
    lemma_apply_concat(masters, granted, removed);
    lemma_apply_same(masters, grant_masters, true);
    let middle = apply_master_updates(masters, granted);
    lemma_apply_same(middle, remove_masters, false);
    assert forall|u: Uuid| #[trigger] masters.contains_key(u) implies
        apply_master_updates(masters, master_update_seq(grant_masters, remove_masters))[u] == (
            if remove_masters.contains(u) {
                false
            } else if grant_masters.contains(u) {
                true
            } else {
                masters[u]
            }) by {
        assert(middle.contains_key(u));
    }
}

} // verus!
