//! Messages of a channel: hiding whispers, checking requests and planning how a
//! message is moved among its neighbours.
use vstd::prelude::*;
use crate::edits::{check, verdict};
use crate::error::ValidationFailed;
use crate::validator::Validator;
use crate::id::Uuid;
use crate::utils::{merge_blank, spec_merge_blank};
use crate::text::{trim, trimmed};

verus! {

/// A message. Times are in milliseconds since the Unix epoch; `entities` is the
/// JSON text of the message's entities.
#[derive(Clone, Debug)]
pub struct Message {
    pub id: Uuid,
    pub sender_id: Uuid,
    pub channel_id: Uuid,
    pub parent_message_id: Option<Uuid>,
    pub name: String,
    pub media_id: Option<Uuid>,
    pub seed: Vec<u8>,
    pub deleted: bool,
    pub in_game: bool,
    pub is_action: bool,
    pub is_master: bool,
    pub pinned: bool,
    pub tags: Vec<String>,
    pub folded: bool,
    pub text: String,
    pub whisper_to_users: Option<Vec<Uuid>>,
    pub entities: String,
    pub created: i64,
    pub modified: i64,
    pub order_date: i64,
    pub order_offset: i32,
}

/// The new place of a message after a move: its order date, in milliseconds since
/// the Unix epoch, and its offset at that date.
#[derive(Clone, Copy, Debug)]
pub struct MessageOrder {
    pub id: Uuid,
    pub order_date: i64,
    pub order_offset: i32,
}

/// Whether the parts of `m` that a whisper hides are hidden: its seed is four zero
/// bytes, its text is empty and its entities are an empty JSON array.
pub open spec fn is_hidden(m: Message) -> bool {
    &&& m.seed@ == seq![0u8, 0u8, 0u8, 0u8]
    &&& m.text@.len() == 0
    &&& m.entities@ == "[]"@
}

/// Whether `a` and `b` agree on everything that hiding leaves as it is.
pub open spec fn same_but_hidden_parts(a: Message, b: Message) -> bool {
    &&& a.id == b.id
    &&& a.sender_id == b.sender_id
    &&& a.channel_id == b.channel_id
    &&& a.parent_message_id == b.parent_message_id
    &&& a.name@ == b.name@
    &&& a.media_id == b.media_id
    &&& a.deleted == b.deleted
    &&& a.in_game == b.in_game
    &&& a.is_action == b.is_action
    &&& a.is_master == b.is_master
    &&& a.pinned == b.pinned
    &&& a.tags@ == b.tags@
    &&& a.folded == b.folded
    &&& a.whisper_to_users == b.whisper_to_users
    &&& a.created == b.created
    &&& a.modified == b.modified
    &&& a.order_date == b.order_date
    &&& a.order_offset == b.order_offset
}

/// Whether `after` is `before` with a whisper's content hidden: everything else is
/// kept, a whisper has its seed, text and entities hidden, and any other message
/// keeps them too.
pub open spec fn concealed(before: Message, after: Message) -> bool {
    &&& same_but_hidden_parts(after, before)
    &&& before.whisper_to_users is None ==> {
        &&& after.seed@ == before.seed@
        &&& after.text@ == before.text@
        &&& after.entities@ == before.entities@
    }
    &&& before.whisper_to_users is Some ==> is_hidden(after)
}

/// Concealing twice shows the same as concealing once.
pub proof fn lemma_conceal_idempotent(m: Message, once: Message, twice: Message)
    requires
        concealed(m, once),
        concealed(once, twice),
    ensures
        same_but_hidden_parts(twice, once),
        twice.seed@ == once.seed@,
        twice.text@ == once.text@,
        twice.entities@ == once.entities@,
{
}

impl Message {
    /// Hides the content of a whisper: its seed, text and entities. A message that
    /// is not a whisper is left as it is.
    pub fn conceal(&mut self)
        ensures
            concealed(*old(self), *final(self)),
    {
        if self.whisper_to_users.is_none() {
            return;
        }
        self.seed = vec![0u8, 0u8, 0u8, 0u8];
        self.text = String::new();
        self.entities = String::from_str("[]");
    }
}

/// Hides the whispers of an export where it is asked to: every message is then
/// concealed; else the messages are left as they are.
pub fn conceal_all(messages: &mut Vec<Message>, hide: bool)
    ensures
        final(messages)@.len() == old(messages)@.len(),
        hide ==> forall|i: int| 0 <= i < old(messages)@.len()
            ==> concealed(#[trigger] old(messages)@[i], final(messages)@[i]),
        !hide ==> final(messages)@ == old(messages)@,
{
    if !hide {
        return;
    }
    let ghost before = messages@;
    let mut i: usize = 0;
    while i < messages.len()
        invariant
            before == old(messages)@,
            messages@.len() == before.len(),
            i <= before.len(),
            forall|j: int| 0 <= j < i ==> concealed(#[trigger] before[j], messages@[j]),
            forall|j: int| i <= j < before.len() ==> messages@[j] == before[j],
        decreases before.len() - i,
    {
        messages[i].conceal();
        i = i + 1;
    }
}

/// How a message is placed when it is moved.
#[derive(Clone, Copy, Debug, PartialEq, Eq)]
pub enum MovePlan {
    /// Give the message this order offset, at the target's order date.
    SetOrder(i32),
    /// Shift the neighbouring messages away to make room, then give the message
    /// this order offset.
    MakeRoom(i32),
}

/// Where a message moved above a target at `order_offset` goes, given the offset of
/// the nearest message above the target (if any).
pub open spec fn spec_plan_move_to_top(order_offset: int, near_offset: Option<int>) -> (MovePlan, int) {
    match near_offset {
        Some(near) => if order_offset - near > 1 {
            (MovePlan::SetOrder(0), order_offset - (order_offset - near) / 2)
        } else {
            (MovePlan::MakeRoom(0), order_offset - 8)
        },
        None => (MovePlan::SetOrder(0), order_offset - 32),
    }
}

/// Where a message moved below a target at `order_offset` goes, given the offset of
/// the nearest message below the target (if any).
pub open spec fn spec_plan_move_to_bottom(order_offset: int, near_offset: Option<int>) -> (MovePlan, int) {
    match near_offset {
        Some(near) => if near - order_offset > 1 {
            (MovePlan::SetOrder(0), order_offset + (near - order_offset) / 2)
        } else {
            (MovePlan::MakeRoom(0), order_offset + 8)
        },
        None => (MovePlan::SetOrder(0), order_offset + 32),
    }
}

/// Whether `plan` is of the kind `kind` and gives the offset `offset`.
pub open spec fn plan_is(plan: MovePlan, kind: MovePlan, offset: int) -> bool {
    match (plan, kind) {
        (MovePlan::SetOrder(o), MovePlan::SetOrder(_)) => o == offset,
        (MovePlan::MakeRoom(o), MovePlan::MakeRoom(_)) => o == offset,
        _ => false,
    }
}

/// Plans moving a message to just above the target at `order_offset`. Where there
/// is room between the target and its nearest neighbour above, the message lands
/// strictly between them.
pub fn plan_move_to_top(order_offset: i32, near_offset: Option<i32>) -> (plan: MovePlan)
    requires
        order_offset >= i32::MIN + 32,
        near_offset matches Some(near) ==> i32::MIN <= order_offset - near <= i32::MAX,
    ensures
        ({
            let (kind, offset) = spec_plan_move_to_top(
                order_offset as int,
                match near_offset { Some(n) => Some(n as int), None => None },
            );
            plan_is(plan, kind, offset)
        }),
        near_offset matches Some(near) ==> (plan matches MovePlan::SetOrder(o) ==> near < o < order_offset),
        near_offset is None ==> (plan matches MovePlan::SetOrder(o) && o < order_offset),
{
    match near_offset {
        Some(near) => {
            let gap: i32 = order_offset - near;
            if gap > 1 {
                let offset: i32 = gap >> 1;
                assert(offset == gap / 2) by (bit_vector)
                    requires gap > 1, offset == gap >> 1;
                MovePlan::SetOrder(order_offset - offset)
            } else {
                MovePlan::MakeRoom(order_offset - 8)
            }
        },
        None => MovePlan::SetOrder(order_offset - 32),
    }
}

/// Plans moving a message to just below the target at `order_offset`. Where there
/// is room between the target and its nearest neighbour below, the message lands
/// strictly between them.
pub fn plan_move_to_bottom(order_offset: i32, near_offset: Option<i32>) -> (plan: MovePlan)
    requires
        order_offset <= i32::MAX - 32,
        near_offset matches Some(near) ==> i32::MIN <= near - order_offset <= i32::MAX,
    ensures
        ({
            let (kind, offset) = spec_plan_move_to_bottom(
                order_offset as int,
                match near_offset { Some(n) => Some(n as int), None => None },
            );
            plan_is(plan, kind, offset)
        }),
        near_offset matches Some(near) ==> (plan matches MovePlan::SetOrder(o) ==> order_offset < o < near),
        near_offset is None ==> (plan matches MovePlan::SetOrder(o) && order_offset < o),
{
    match near_offset {
        Some(near) => {
            let gap: i32 = near - order_offset;
            if gap > 1 {
                let offset: i32 = gap >> 1;
                assert(offset == gap / 2) by (bit_vector)
                    requires gap > 1, offset == gap >> 1;
                MovePlan::SetOrder(order_offset + offset)
            } else {
                MovePlan::MakeRoom(order_offset + 8)
            }
        },
        None => MovePlan::SetOrder(order_offset + 32),
    }
}

/// Where a moved message goes relative to its target.
#[derive(Clone, Copy, Debug, PartialEq, Eq)]
pub enum MoveToMode {
    /// Just above the target.
    Top,
    /// Just below the target.
    Bottom,
}

/// Plans a move in the given direction.
pub fn plan_move(mode: MoveToMode, order_offset: i32, near_offset: Option<i32>) -> (plan: MovePlan)
    requires
        mode == MoveToMode::Top ==> order_offset >= i32::MIN + 32,
        mode == MoveToMode::Top && near_offset is Some ==> i32::MIN <= order_offset - near_offset->0 <= i32::MAX,
        mode == MoveToMode::Bottom ==> order_offset <= i32::MAX - 32,
        mode == MoveToMode::Bottom && near_offset is Some ==> i32::MIN <= near_offset->0 - order_offset <= i32::MAX,
    ensures
        ({
            let near = match near_offset { Some(n) => Some(n as int), None => None };
            let (kind, offset) = match mode {
                MoveToMode::Top => spec_plan_move_to_top(order_offset as int, near),
                MoveToMode::Bottom => spec_plan_move_to_bottom(order_offset as int, near),
            };
            plan_is(plan, kind, offset)
        }),
{
    match mode {
        MoveToMode::Top => plan_move_to_top(order_offset, near_offset),
        MoveToMode::Bottom => plan_move_to_bottom(order_offset, near_offset),
    }
}

/// The preview whose cached start time places a new message: only a message sent
/// with its preview's id and without an order date of its own looks it up. Any
/// other message takes no order date from the request.
pub fn preview_to_place(order_date: Option<i64>, message_id: Option<Uuid>) -> (preview: Option<Uuid>)
    ensures
        preview == match (order_date, message_id) {
            (None, Some(id)) => Some(id),
            _ => None::<Uuid>,
        },
{
    match (order_date, message_id) {
        (None, Some(id)) => Some(id),
        _ => None,
    }
}

/// The places of two messages after they swap: each takes the order date and
/// offset of the other.
pub fn swapped_orders(a: &Message, b: &Message) -> (r: (MessageOrder, MessageOrder))
    ensures
        r.0 == (MessageOrder { id: a.id, order_date: b.order_date, order_offset: b.order_offset }),
        r.1 == (MessageOrder { id: b.id, order_date: a.order_date, order_offset: a.order_offset }),
{
    (
        MessageOrder { id: a.id, order_date: b.order_date, order_offset: b.order_offset },
        MessageOrder { id: b.id, order_date: a.order_date, order_offset: a.order_offset },
    )
}

/// Swapping two messages back, once each has taken the other's place, gives each
/// its own place again.
pub proof fn lemma_swap_twice(a: Message, b: Message, a2: Message, b2: Message)
    requires
        a2.id == a.id && a2.order_date == b.order_date && a2.order_offset == b.order_offset,
        b2.id == b.id && b2.order_date == a.order_date && b2.order_offset == a.order_offset,
    ensures
        (MessageOrder { id: a2.id, order_date: b2.order_date, order_offset: b2.order_offset })
            == (MessageOrder { id: a.id, order_date: a.order_date, order_offset: a.order_offset }),
        (MessageOrder { id: b2.id, order_date: a2.order_date, order_offset: a2.order_offset })
            == (MessageOrder { id: b.id, order_date: b.order_date, order_offset: b.order_offset }),
{
}

/// The name given with an edit, with its runs of white space made one space and
/// its ends trimmed, and checked with the rules of a character name; no name where
/// none was given.
pub fn edited_name(name: Option<&str>, character_name: &Validator) -> (r: Result<Option<String>, ValidationFailed>)
    ensures
        match name {
            Some(n) => match verdict(*character_name, spec_merge_blank(n@)) {
                Err(e) => r == Err::<Option<String>, ValidationFailed>(e),
                Ok(()) => r is Ok && r->Ok_0 is Some && r->Ok_0->0@ == spec_merge_blank(n@),
            },
            None => r == Ok::<Option<String>, ValidationFailed>(None),
        },
{
    match name {
        Some(n) => {
            let merged = merge_blank(n);
            check(character_name, merged.as_str())?;
            Ok(Some(merged))
        },
        None => Ok(None),
    }
}

/// The time, in milliseconds since the Unix epoch, that the cached start bytes of a
/// preview hold: what `serde_json` reads from them as a `chrono::NaiveDateTime`,
/// taken by `timestamp_millis`; `None` where they do not parse.
pub uninterp spec fn cached_start_millis(bytes: Seq<u8>) -> Option<i64>;

/// Parses the cached start of a preview with `serde_json::from_slice` into a
/// `chrono::NaiveDateTime` and takes its `timestamp_millis`. The contract claims
/// only that the outcome is a function of the bytes (named `cached_start_millis`).
#[verifier::external_body]
fn parse_cached_start(bytes: &[u8]) -> (r: Option<i64>)
    ensures
        r == cached_start_millis(bytes@),
{
    #[allow(deprecated)]
    serde_json::from_slice::<chrono::NaiveDateTime>(bytes).ok().map(|d| d.timestamp_millis())
}

/// The order date of a new message: only a message sent with its preview's id and
/// without an order date of its own takes one, the start of its preview as the
/// cache holds it (`cached`, where the cache has it), where that parses. Any other
/// message takes none from the request.
pub fn new_message_order_date(order_date: Option<i64>, message_id: Option<Uuid>, cached: Option<Vec<u8>>) -> (r: Option<i64>)
    ensures
        r == match (order_date, message_id, cached) {
            (None, Some(_), Some(b)) => cached_start_millis(b@),
            _ => None::<i64>,
        },
{
    match preview_to_place(order_date, message_id) {
        Some(_) => match cached {
            Some(bytes) => parse_cached_start(bytes.as_slice()),
            None => None,
        },
        None => None,
    }
}

/// Checks the number of messages asked for at once: from 1 to 256.
pub fn check_limit(limit: i32) -> (r: Result<(), ValidationFailed>)
    ensures
        r is Ok <==> 1 <= limit <= 256,
        r is Err ==> r == Err::<(), ValidationFailed>(ValidationFailed("illegal limit range")),
{
    if limit > 256 || limit < 1 {
        return Err(ValidationFailed("illegal limit range"));
    }
    Ok(())
}

/// The sender name of a new message: `name` with its blanks merged, or, where that
/// leaves nothing, the trimmed default name.
pub open spec fn spec_message_name(name: Seq<char>, default_name: Seq<char>) -> Seq<char> {
    if spec_merge_blank(name).len() == 0 {
        trimmed(default_name)
    } else {
        spec_merge_blank(name)
    }
}

/// Prepares the sender name of a new message, checks it with the rules of a
/// character name, then checks that the text is not empty.
pub fn prepare_new_message(name: &str, default_name: &str, text: &str, character_name: &Validator) -> (r: Result<String, ValidationFailed>)
    ensures
        match verdict(*character_name, spec_message_name(name@, default_name@)) {
            Err(e) => r == Err::<String, ValidationFailed>(e),
            Ok(()) => if text@.len() == 0 {
                r == Err::<String, ValidationFailed>(ValidationFailed("Text is empty."))
            } else {
                r is Ok && r->Ok_0@ == spec_message_name(name@, default_name@)
            },
        },
{
    let mut merged = merge_blank(name);
    if merged.as_str().is_empty() {
        merged = String::from_str(trim(default_name));
    }
    check(character_name, merged.as_str())?;
    if text.is_empty() {
        return Err(ValidationFailed("Text is empty."));
    }
    Ok(merged)
}

} // verus!
