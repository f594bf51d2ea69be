//! The decisions of the room, user and message services, taken on the
//! plain values that the database returns. The database calls and the
//! cache and event-bus effects stand around them; each function here says
//! what comes next.

use vstd::prelude::*;
use vstd::string::*;
use crate::config::RoomConfig;
use crate::domain::{Message, MessageEvent, Room, RoomEvent, Status, Timestamp, TypingEvent, User, UserEvent};
use crate::records::{MessageRow, RoomRecord, UserRow, user_of_row};
use crate::service_errors::{MessageServiceError, RoomServiceError, UserServiceError};

verus! {

// ---------------------------------------------------------------------------
// Messages
// ---------------------------------------------------------------------------

/// A message row to insert.
#[derive(Debug)]
pub struct NewMessage {
    pub content: String,
    /// Internal id of the sender.
    pub sender: i32,
    /// Internal id of the room.
    pub room: i32,
}

/// Checks a message's length, counted in characters, against the maximum.
pub fn check_message_length(content: &str, max_length: usize) -> (r: Result<(), MessageServiceError>)
    ensures
        r is Ok <==> content@.len() <= max_length,
        r is Err ==> r == Err::<(), MessageServiceError>(MessageServiceError::MessageTooLong(max_length)),
{
    let char_count = content.unicode_len();
    if char_count > max_length {
        Err(MessageServiceError::MessageTooLong(max_length))
    } else {
        Ok(())
    }
}

/// The row to insert for a message, once the sender was looked up in the
/// room: `membership` holds the internal ids of the user and the room where
/// the user is in it.
pub fn new_message_record(
    content: &str,
    membership: Option<(i32, i32)>,
    user_id: u128,
    room_id: u128,
) -> (r: Result<NewMessage, MessageServiceError>)
    ensures
        membership is None ==> r == Err::<NewMessage, MessageServiceError>(
            MessageServiceError::UserNotFoundInRoom { user_id, room_id },
        ),
        membership matches Some((u, rm)) ==> r matches Ok(m) && m.content@ == content@ && m.sender
            == u && m.room == rm,
{
    match membership {
        Some((sender, room)) => Ok(NewMessage { content: String::from_str(content), sender, room }),
        None => Err(MessageServiceError::UserNotFoundInRoom { user_id, room_id }),
    }
}

/// A message looked up by public id: found, or `MessageNotFound`.
pub fn message_lookup(row: Option<MessageRow>, message_id: u128) -> (r: Result<
    Message,
    MessageServiceError,
>)
    ensures
        row is None ==> r == Err::<Message, MessageServiceError>(
            MessageServiceError::MessageNotFound(message_id),
        ),
        row matches Some(m) ==> r == Ok::<Message, MessageServiceError>(
            Message {
                id: m.id,
                created_at: m.created_at,
                content: m.content,
                sender: m.sender,
                room: m.room,
            },
        ),
{
    match row {
        Some(m) => Ok(Message::from(m)),
        None => Err(MessageServiceError::MessageNotFound(message_id)),
    }
}

/// The message to delete, by its internal id and its room's public id, or
/// `MessageNotFound`.
pub fn message_delete_target(found: Option<(i32, u128)>, message_id: u128) -> (r: Result<
    (i32, u128),
    MessageServiceError,
>)
    ensures
        found is None ==> r == Err::<(i32, u128), MessageServiceError>(
            MessageServiceError::MessageNotFound(message_id),
        ),
        found matches Some(t) ==> r == Ok::<(i32, u128), MessageServiceError>(t),
{
    match found {
        Some(t) => Ok(t),
        None => Err(MessageServiceError::MessageNotFound(message_id)),
    }
}

/// The event announcing a message just stored: it was sent.
pub fn message_sent_event(message: &Message) -> (r: MessageEvent)
    ensures
        r == MessageEvent::Sent(*message),
{
    MessageEvent::Sent(message.clone())
}

/// The event announcing a deleted message, by its public id and its room's.
pub fn message_deleted_event(message_id: u128, room_id: u128) -> (r: MessageEvent)
    ensures
        r == (MessageEvent::Deleted { message_id, room_id }),
{
    MessageEvent::Deleted { message_id, room_id }
}

// ---------------------------------------------------------------------------
// Rooms
// ---------------------------------------------------------------------------

/// A room row to insert.
#[derive(Debug)]
pub struct NewRoom {
    pub name: String,
    pub capacity: i32,
    pub description: Option<String>,
}

/// The row to insert for a new room: the requested capacity, or the default
/// one; a capacity above the maximum is refused.
pub fn new_room_record(name: String, capacity: Option<u32>, config: &RoomConfig) -> (r: Result<
    NewRoom,
    RoomServiceError,
>)
    ensures
        r == match capacity {
            Some(cap) => if cap > config.max_capacity {
                Err::<NewRoom, RoomServiceError>(RoomServiceError::MaxCapacityExceeded(cap))
            } else {
                Ok::<NewRoom, RoomServiceError>(
                    NewRoom { name, capacity: cap as i32, description: None },
                )
            },
            None => Ok::<NewRoom, RoomServiceError>(
                NewRoom { name, capacity: config.default_capacity as i32, description: None },
            ),
        },
{
    if let Some(cap) = capacity {
        if cap > config.max_capacity {
            return Err(RoomServiceError::MaxCapacityExceeded(cap));
        }
    }
    let cap = match capacity {
        Some(c) => c,
        None => config.default_capacity,
    };
    Ok(NewRoom { name, capacity: cap as i32, description: None })
}

/// The event announcing a new room.
pub fn room_added_event(room: &Room) -> (r: RoomEvent)
    ensures
        r == RoomEvent::Added(*room),
{
    RoomEvent::Added(room.clone())
}

/// A room looked up by public id: found, or `RoomNotFound`.
pub fn room_lookup(found: Option<RoomRecord>, room_id: u128) -> (r: Result<Room, RoomServiceError>)
    ensures
        found is None ==> r == Err::<Room, RoomServiceError>(RoomServiceError::RoomNotFound(room_id)),
        found matches Some(rec) ==> r == Ok::<Room, RoomServiceError>(
            Room {
                id: rec.public_id,
                name: rec.name,
                description: rec.description,
                capacity: rec.capacity as u32,
            },
        ),
{
    match found {
        Some(rec) => Ok(
            Room {
                id: rec.public_id,
                name: rec.name,
                description: rec.description,
                capacity: rec.capacity as u32,
            },
        ),
        None => Err(RoomServiceError::RoomNotFound(room_id)),
    }
}

/// The fields of a room to change; `None` leaves a field as it is.
#[derive(Debug)]
pub struct RoomUpdate {
    pub name: Option<String>,
    pub description: Option<Option<String>>,
    pub capacity: Option<u32>,
}

impl RoomUpdate {
    /// No field is to change.
    pub open spec fn is_empty(&self) -> bool {
        self.name is None && self.description is None && self.capacity is None
    }
}

/// How an update request proceeds.
#[derive(Clone, Copy, Debug, PartialEq, Eq, Structural)]
pub enum RoomUpdatePlan {
    /// Nothing to change: answer with the room as it is.
    ReturnCurrent,
    /// Load the room and apply the update.
    Apply,
}

/// Decides how an update proceeds: an empty update returns the room as it
/// is; a capacity above the maximum is refused.
pub fn plan_room_update(update: &RoomUpdate, config: &RoomConfig) -> (r: Result<
    RoomUpdatePlan,
    RoomServiceError,
>)
    ensures
        r == if update.is_empty() {
            Ok::<RoomUpdatePlan, RoomServiceError>(RoomUpdatePlan::ReturnCurrent)
        } else {
            match update.capacity {
                Some(cap) => if cap > config.max_capacity {
                    Err::<RoomUpdatePlan, RoomServiceError>(
                        RoomServiceError::MaxCapacityExceeded(cap),
                    )
                } else {
                    Ok::<RoomUpdatePlan, RoomServiceError>(RoomUpdatePlan::Apply)
                },
                None => Ok::<RoomUpdatePlan, RoomServiceError>(RoomUpdatePlan::Apply),
            }
        },
{
    if update.name.is_none() && update.description.is_none() && update.capacity.is_none() {
        return Ok(RoomUpdatePlan::ReturnCurrent);
    }
    if let Some(cap) = update.capacity {
        if cap > config.max_capacity {
            return Err(RoomServiceError::MaxCapacityExceeded(cap));
        }
    }
    Ok(RoomUpdatePlan::Apply)
}

/// Applies an update to the loaded room row: each field that the update
/// holds replaces the stored one; a room that was not found is `RoomNotFound`.
pub fn apply_room_update(found: Option<RoomRecord>, room_id: u128, update: RoomUpdate) -> (r: Result<
    RoomRecord,
    RoomServiceError,
>)
    ensures
        found is None ==> r == Err::<RoomRecord, RoomServiceError>(
            RoomServiceError::RoomNotFound(room_id),
        ),
        found matches Some(rec) ==> r == Ok::<RoomRecord, RoomServiceError>(
            RoomRecord {
                id: rec.id,
                public_id: rec.public_id,
                name: match update.name {
                    Some(n) => n,
                    None => rec.name,
                },
                description: match update.description {
                    Some(d) => d,
                    None => rec.description,
                },
                capacity: match update.capacity {
                    Some(c) => c as i32,
                    None => rec.capacity,
                },
            },
        ),
{
    match found {
        None => Err(RoomServiceError::RoomNotFound(room_id)),
        Some(rec) => {
            let mut rec = rec;
            if let Some(name) = update.name {
                rec.name = name;
            }
            if let Some(description) = update.description {
                rec.description = description;
            }
            if let Some(capacity) = update.capacity {
                rec.capacity = capacity as i32;
            }
            Ok(rec)
        },
    }
}

/// Outcome of deleting a room by public id: with no row deleted the room was
/// not found; else its id is returned and its removal announced.
pub fn room_deleted(rows_affected: u64, room_id: u128) -> (r: Result<(u128, RoomEvent), RoomServiceError>)
    ensures
        rows_affected == 0 ==> r == Err::<(u128, RoomEvent), RoomServiceError>(
            RoomServiceError::RoomNotFound(room_id),
        ),
        rows_affected != 0 ==> r == Ok::<(u128, RoomEvent), RoomServiceError>(
            (room_id, RoomEvent::Removed(room_id)),
        ),
{
    if rows_affected == 0 {
        Err(RoomServiceError::RoomNotFound(room_id))
    } else {
        Ok((room_id, RoomEvent::Removed(room_id)))
    }
}

/// What a typing update does with the debounce guard of the (room, user)
/// pair and the subscribers.
#[derive(Clone, Copy, Debug, PartialEq, Eq, Structural)]
pub enum TypingAction {
    /// A start was published recently: drop this one.
    Debounced,
    /// Set the guard and publish the start.
    SetGuardAndPublish,
    /// Clear the guard and publish the stop.
    ClearGuardAndPublish,
}

/// Debounces typing updates: a start is published only where no recent start
/// set the guard; a stop is always published and clears the guard.
pub fn typing_action(is_typing: bool, guard_present: bool) -> (r: TypingAction)
    ensures
        is_typing && guard_present ==> r == TypingAction::Debounced,
        is_typing && !guard_present ==> r == TypingAction::SetGuardAndPublish,
        !is_typing ==> r == TypingAction::ClearGuardAndPublish,
{
    if is_typing {
        if guard_present {
            TypingAction::Debounced
        } else {
            TypingAction::SetGuardAndPublish
        }
    } else {
        TypingAction::ClearGuardAndPublish
    }
}

/// Whether the guard is present after an action.
pub open spec fn guard_after(guard_present: bool, action: TypingAction) -> bool {
    match action {
        TypingAction::Debounced => guard_present,
        TypingAction::SetGuardAndPublish => true,
        TypingAction::ClearGuardAndPublish => false,
    }
}

/// Whether an action publishes an event.
pub open spec fn publishes(action: TypingAction) -> bool {
    action != TypingAction::Debounced
}

/// While the guard lives, a start right after a published start is dropped;
/// after a stop, the next start is published again.
pub proof fn law_typing_debounce(guard_present: bool)
    ensures
        ({
            let first = if guard_present {
                TypingAction::Debounced
            } else {
                TypingAction::SetGuardAndPublish
            };
            let g1 = guard_after(guard_present, first);
            !publishes(if g1 {
                TypingAction::Debounced
            } else {
                TypingAction::SetGuardAndPublish
            })
        }),
        publishes(TypingAction::ClearGuardAndPublish),
        !guard_after(guard_present, TypingAction::ClearGuardAndPublish),
        publishes(TypingAction::SetGuardAndPublish),
{
}

/// The typing event to publish.
pub fn typing_event(room_id: u128, user_id: u128, is_typing: bool, timestamp: Timestamp) -> (r:
    RoomEvent)
    ensures
        r == RoomEvent::UserTyping(TypingEvent { user_id, room_id, is_typing, timestamp }),
{
    RoomEvent::UserTyping(TypingEvent { user_id, room_id, is_typing, timestamp })
}

// ---------------------------------------------------------------------------
// Users
// ---------------------------------------------------------------------------

/// A user row to insert.
#[derive(Debug)]
pub struct NewUser {
    pub name: String,
    pub status: Option<String>,
    /// Internal id of the user's room.
    pub room: Option<i32>,
    pub last_seen_at: Option<Timestamp>,
}

/// The row to insert for a new user: online, in the room found, if any,
/// never seen yet.
pub fn new_user_record(name: String, room: &Option<RoomRecord>) -> (r: NewUser)
    ensures
        r.name == name,
        r.status matches Some(s) && s@ == crate::domain::status_text(Status::Online),
        r.room == match *room {
            Some(rec) => Some(rec.id),
            None => None::<i32>,
        },
        r.last_seen_at is None,
{
    let room_id = match room {
        Some(rec) => Some(rec.id),
        None => None,
    };
    NewUser { name, status: Some(Status::Online.fmt()), room: room_id, last_seen_at: None }
}

/// The error of a failed user insert: a unique-constraint violation means the
/// name is taken; anything else that the user was not added.
pub fn user_insert_error(unique_violation: bool, name: &String) -> (r: UserServiceError)
    ensures
        unique_violation ==> r == UserServiceError::UserAlreadyExists(*name),
        !unique_violation ==> r == UserServiceError::UserNotAdded(*name),
{
    if unique_violation {
        UserServiceError::UserAlreadyExists(name.clone())
    } else {
        UserServiceError::UserNotAdded(name.clone())
    }
}

/// The event of a new user: where the requested room was found, the user was
/// placed in it and entered it; where no room was requested or none was
/// found, the user has no room and nothing is announced.
pub fn user_created_event(room: &Option<RoomRecord>, user_id: u128) -> (r: Option<RoomEvent>)
    ensures
        r == match *room {
            Some(rec) => Some(RoomEvent::UserEntered { room_id: rec.public_id, user_id }),
            None => None::<RoomEvent>,
        },
{
    match room {
        Some(rec) => Some(RoomEvent::UserEntered { room_id: rec.public_id, user_id }),
        None => None,
    }
}

/// The check before creating a user: a name that some user already has is
/// refused with `UserAlreadyExists`.
pub fn check_user_name(name_taken: bool, name: &String) -> (r: Result<(), UserServiceError>)
    ensures
        name_taken ==> r == Err::<(), UserServiceError>(UserServiceError::UserAlreadyExists(*name)),
        !name_taken ==> r == Ok::<(), UserServiceError>(()),
{
    if name_taken {
        Err(UserServiceError::UserAlreadyExists(name.clone()))
    } else {
        Ok(())
    }
}

/// A user looked up by public id: found, or `UserNotFound`.
pub fn user_lookup(row: Option<UserRow>, user_id: u128) -> (r: Result<User, UserServiceError>)
    ensures
        row is None ==> r == Err::<User, UserServiceError>(UserServiceError::UserNotFound(user_id)),
        row matches Some(u) ==> r == Ok::<User, UserServiceError>(user_of_row(u)),
{
    match row {
        Some(u) => Ok(User::from(u)),
        None => Err(UserServiceError::UserNotFound(user_id)),
    }
}

/// Whether a status change records the time the user was last seen: going
/// offline or away does.
pub fn records_last_seen(status: Status) -> (r: bool)
    ensures
        r == (status == Status::Offline || status == Status::Away),
{
    match status {
        Status::Offline | Status::Away => true,
        Status::Online => false,
    }
}

/// Outcome of a status update: with no row changed the user was not found;
/// else the change is announced.
pub fn status_updated(rows_affected: u64, user_id: u128, status: Status) -> (r: Result<
    UserEvent,
    UserServiceError,
>)
    ensures
        rows_affected == 0 ==> r == Err::<UserEvent, UserServiceError>(
            UserServiceError::UserNotFound(user_id),
        ),
        rows_affected != 0 ==> r == Ok::<UserEvent, UserServiceError>(
            UserEvent::StatusChanged { user_id, status },
        ),
{
    if rows_affected == 0 {
        Err(UserServiceError::UserNotFound(user_id))
    } else {
        Ok(UserEvent::StatusChanged { user_id, status })
    }
}

/// Outcome of deleting a user: with no row deleted the user was not found.
pub fn user_deleted(rows_affected: u64, user_id: u128) -> (r: Result<u128, UserServiceError>)
    ensures
        rows_affected == 0 ==> r == Err::<u128, UserServiceError>(
            UserServiceError::UserNotFound(user_id),
        ),
        rows_affected != 0 ==> r == Ok::<u128, UserServiceError>(user_id),
{
    if rows_affected == 0 {
        Err(UserServiceError::UserNotFound(user_id))
    } else {
        Ok(user_id)
    }
}

/// Outcome of a user leaving a room: with no row changed the user was not
/// found; else the departure is announced.
pub fn left_room(rows_affected: u64, user_id: u128, room_id: u128) -> (r: Result<
    RoomEvent,
    UserServiceError,
>)
    ensures
        rows_affected == 0 ==> r == Err::<RoomEvent, UserServiceError>(
            UserServiceError::UserNotFound(user_id),
        ),
        rows_affected != 0 ==> r == Ok::<RoomEvent, UserServiceError>(
            RoomEvent::UserLeft { room_id, user_id },
        ),
{
    if rows_affected == 0 {
        Err(UserServiceError::UserNotFound(user_id))
    } else {
        Ok(RoomEvent::UserLeft { room_id, user_id })
    }
}

/// What follows the conditional update that moves a user into a room.
#[derive(Clone, Copy, Debug, PartialEq, Eq, Structural)]
pub enum JoinRoomStep {
    /// The user moved in: announce it.
    Joined { room_id: u128, user_id: u128 },
    /// Nothing changed: ask whether the user is already in the room.
    CheckMembership,
}

/// The step after the update that moves a user into a room: where a row
/// changed, the user joined; else ask whether it is already in the room.
pub open spec fn join_step_of(rows_affected: nat, user_id: u128, room_id: u128) -> JoinRoomStep {
    if rows_affected == 0 {
        JoinRoomStep::CheckMembership
    } else {
        JoinRoomStep::Joined { room_id, user_id }
    }
}

/// The answer where the update changed nothing: joining a room the user is
/// already in succeeds; else the user or the room was not found.
pub open spec fn join_check_of(already_in_room: bool, user_id: u128, room_id: u128) -> Result<
    (),
    UserServiceError,
> {
    if already_in_room {
        Ok(())
    } else {
        Err(UserServiceError::RoomOrUserNotFound { user_id, room_id })
    }
}

/// The step after the update that moves a user into a room, which changes
/// nothing where the user or the room does not exist or the user is already
/// in it.
pub fn join_room_after_update(rows_affected: u64, user_id: u128, room_id: u128) -> (r:
    JoinRoomStep)
    ensures
        r == join_step_of(rows_affected as nat, user_id, room_id),
{
    if rows_affected == 0 {
        JoinRoomStep::CheckMembership
    } else {
        JoinRoomStep::Joined { room_id, user_id }
    }
}

/// The outcome where the update changed nothing: joining a room the user is
/// already in succeeds; else the user or the room was not found.
pub fn join_room_after_check(already_in_room: bool, user_id: u128, room_id: u128) -> (r: Result<
    (),
    UserServiceError,
>)
    ensures
        r == join_check_of(already_in_room, user_id, room_id),
{
    if already_in_room {
        Ok(())
    } else {
        Err(UserServiceError::RoomOrUserNotFound { user_id, room_id })
    }
}

/// The rows that the joining update changes, over a model of the database
/// that maps each user's public id to its room's public id and holds the
/// rooms that exist: the user's row, where the user and the room exist and
/// the user is not in that room yet.
pub open spec fn join_update_rows(
    rooms_of: Map<u128, Option<u128>>,
    rooms: Set<u128>,
    user_id: u128,
    room_id: u128,
) -> nat {
    if rooms_of.contains_key(user_id) && rooms.contains(room_id) && rooms_of[user_id] != Some(
        room_id,
    ) {
        1
    } else {
        0
    }
}

/// A join of a user and a room: the users' rooms afterwards, the answer, and
/// the event published. The update and the membership query run on the
/// model; the steps after them are `join_step_of` and `join_check_of`.
pub open spec fn join_outcome(
    rooms_of: Map<u128, Option<u128>>,
    rooms: Set<u128>,
    user_id: u128,
    room_id: u128,
) -> (Map<u128, Option<u128>>, Result<(), UserServiceError>, Option<RoomEvent>) {
    match join_step_of(join_update_rows(rooms_of, rooms, user_id, room_id), user_id, room_id) {
        JoinRoomStep::Joined { room_id, user_id } => (
            rooms_of.insert(user_id, Some(room_id)),
            Ok(()),
            Some(RoomEvent::UserEntered { room_id, user_id }),
        ),
        JoinRoomStep::CheckMembership => (
            rooms_of,
            join_check_of(
                rooms_of.contains_key(user_id) && rooms_of[user_id] == Some(room_id),
                user_id,
                room_id,
            ),
            None,
        ),
    }
}

/// Joining is idempotent: after a successful join, joining the same room
/// again succeeds, changes nothing and announces nothing; a failed join
/// changes nothing and announces nothing, so repeating it fails the same way.
pub proof fn law_join_room_twice(
    rooms_of: Map<u128, Option<u128>>,
    rooms: Set<u128>,
    user_id: u128,
    room_id: u128,
)
    ensures
        ({
            let first = join_outcome(rooms_of, rooms, user_id, room_id);
            first.1 is Ok ==> join_outcome(first.0, rooms, user_id, room_id) == (
                first.0,
                Ok::<(), UserServiceError>(()),
                None::<RoomEvent>,
            )
        }),
        ({
            let first = join_outcome(rooms_of, rooms, user_id, room_id);
            first.1 is Err ==> first.0 == rooms_of && first.2 is None
        }),
{
    let first = join_outcome(rooms_of, rooms, user_id, room_id);
    if join_update_rows(rooms_of, rooms, user_id, room_id) != 0 {
        assert(first.0[user_id] == Some(room_id));
        assert(join_update_rows(first.0, rooms, user_id, room_id) == 0);
    }
}

// ---------------------------------------------------------------------------
// Rate limiting
// ---------------------------------------------------------------------------

/// One request against a user's counter for the current window: the counter
/// goes up by one (wrapping, as an atomic add does), and the request is
/// refused where the counter had already reached the maximum.
pub fn rate_limit_check(previous: u32, max_requests: u32) -> (r: (u32, Result<(), ()>))
    ensures
        r.0 == (if previous == u32::MAX {
            0
        } else {
            previous + 1
        }),
        r.1 is Ok <==> previous < max_requests,
{
    let next = previous.wrapping_add(1);
    if previous >= max_requests {
        (next, Err(()))
    } else {
        (next, Ok(()))
    }
}

/// Whether each of `n` requests in a window, counted from `start`, is allowed.
pub open spec fn window_outcomes(start: nat, n: nat, max_requests: nat) -> Seq<bool>
    decreases n,
{
    if n == 0 {
        Seq::empty()
    } else {
        seq![start < max_requests] + window_outcomes(start + 1, (n - 1) as nat, max_requests)
    }
}

/// In a fresh window exactly the first `max_requests` requests are allowed.
pub proof fn law_rate_limit_window(n: nat, max_requests: nat)
    ensures
        window_outcomes(0, n, max_requests) == Seq::new(n, |i: int| i < max_requests),
{
    lemma_window_outcomes(0, n, max_requests);
    assert(window_outcomes(0, n, max_requests) =~= Seq::new(n, |i: int| i < max_requests));
}

proof fn lemma_window_outcomes(start: nat, n: nat, max_requests: nat)
    ensures
        window_outcomes(start, n, max_requests).len() == n,
        forall|i: int|
            0 <= i < n ==> #[trigger] window_outcomes(start, n, max_requests)[i] == (start + i
                < max_requests),
    decreases n,
{
    if n > 0 {
        lemma_window_outcomes(start + 1, (n - 1) as nat, max_requests);
        let w = window_outcomes(start, n, max_requests);
        assert forall|i: int| 0 <= i < n implies #[trigger] w[i] == (start + i < max_requests) by {
            if i > 0 {
                assert(w[i] == window_outcomes(start + 1, (n - 1) as nat, max_requests)[i - 1]);
            }
        }
    }
}

} // verus!
