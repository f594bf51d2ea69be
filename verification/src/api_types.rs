//! Output and input types of the GraphQL API, and their conversion from the
//! domain models.

use vstd::prelude::*;
use crate::domain;
use crate::domain::{CursorPage, Status, Timestamp, TypingEvent};
use crate::ids::parse_uuid;

verus! {

/// GraphQL output type for a room.
#[derive(Debug)]
pub struct Room {
    pub id: u128,
    pub name: String,
    pub description: Option<String>,
    pub capacity: u32,
}

/// The API form of a domain room.
pub open spec fn api_room(r: domain::Room) -> Room {
    Room { id: r.id, name: r.name, description: r.description, capacity: r.capacity }
}

impl Room {
    pub fn from(r: domain::Room) -> (out: Self)
        ensures
            out == api_room(r),
            out.id == r.id,
            out.name == r.name,
            out.description == r.description,
            out.capacity == r.capacity,
    {
        Room { id: r.id, name: r.name, description: r.description, capacity: r.capacity }
    }
}

/// GraphQL input for creating a room.
#[derive(Debug)]
pub struct CreateRoomInput {
    pub name: String,
    pub capacity: Option<u32>,
}

/// GraphQL output type for a typing indicator event.
#[derive(Clone, Copy, Debug, PartialEq, Eq, Structural)]
pub struct TypingIndicator {
    pub user_id: u128,
    pub room_id: u128,
    pub is_typing: bool,
    pub timestamp: Timestamp,
}

impl TypingIndicator {
    pub fn from(e: TypingEvent) -> (r: Self)
        ensures
            r == (TypingIndicator {
                user_id: e.user_id,
                room_id: e.room_id,
                is_typing: e.is_typing,
                timestamp: e.timestamp,
            }),
    {
        TypingIndicator {
            user_id: e.user_id,
            room_id: e.room_id,
            is_typing: e.is_typing,
            timestamp: e.timestamp,
        }
    }
}

/// GraphQL output type for a user-entered-room event.
#[derive(Clone, Copy, Debug, PartialEq, Eq, Structural)]
pub struct UserEnteredRoom {
    pub room_id: u128,
    pub user_id: u128,
}

/// GraphQL output type for a user-left-room event.
#[derive(Clone, Copy, Debug, PartialEq, Eq, Structural)]
pub struct UserLeftRoom {
    pub room_id: u128,
    pub user_id: u128,
}

/// GraphQL enum mirroring the domain status.
#[derive(Clone, Copy, Debug, PartialEq, Eq, Structural)]
pub enum UserStatus {
    Online,
    Offline,
    Away,
}

/// The API status of a domain status.
pub open spec fn api_status(s: Status) -> UserStatus {
    match s {
        Status::Online => UserStatus::Online,
        Status::Offline => UserStatus::Offline,
        Status::Away => UserStatus::Away,
    }
}

/// The domain status of an API status.
pub open spec fn domain_status(s: UserStatus) -> Status {
    match s {
        UserStatus::Online => Status::Online,
        UserStatus::Offline => Status::Offline,
        UserStatus::Away => Status::Away,
    }
}

impl UserStatus {
    pub fn from(s: Status) -> (r: Self)
        ensures
            r == api_status(s),
            s == Status::Online ==> r == UserStatus::Online,
            s == Status::Offline ==> r == UserStatus::Offline,
            s == Status::Away ==> r == UserStatus::Away,
    {
        match s {
            Status::Online => UserStatus::Online,
            Status::Offline => UserStatus::Offline,
            Status::Away => UserStatus::Away,
        }
    }
}

impl Status {
    pub fn from(s: UserStatus) -> (r: Self)
        ensures
            r == domain_status(s),
            s == UserStatus::Online ==> r == Status::Online,
            s == UserStatus::Offline ==> r == Status::Offline,
            s == UserStatus::Away ==> r == Status::Away,
    {
        match s {
            UserStatus::Online => Status::Online,
            UserStatus::Offline => Status::Offline,
            UserStatus::Away => Status::Away,
        }
    }
}

/// Converting a status to the API and back gives it back, and the other way
/// round.
pub proof fn law_status_conversions_inverse(s: Status, u: UserStatus)
    ensures
        domain_status(api_status(s)) == s,
        api_status(domain_status(u)) == u,
{
}

/// GraphQL output type for a user.
#[derive(Debug)]
pub struct User {
    pub id: u128,
    pub name: String,
    pub status: Option<UserStatus>,
    pub room: Option<u128>,
    pub last_seen: Option<Timestamp>,
}

/// The API form of a domain user.
pub open spec fn api_user(u: domain::User) -> User {
    User {
        id: u.id,
        name: u.name,
        status: match u.status {
            Some(s) => Some(api_status(s)),
            None => None,
        },
        room: u.room,
        last_seen: u.last_seen,
    }
}

impl User {
    pub fn from(u: domain::User) -> (r: Self)
        ensures
            r == api_user(u),
            r.id == u.id,
            r.name == u.name,
            r.room == u.room,
            r.last_seen == u.last_seen,
            u.status is None ==> r.status is None,
            u.status matches Some(s) ==> (r.status matches Some(a) && domain_status(a) == s),
    {
        proof {
            law_api_forms_keep_fields_user(u);
        }
        let status = match u.status {
            Some(s) => Some(UserStatus::from(s)),
            None => None,
        };
        User { id: u.id, name: u.name, status, room: u.room, last_seen: u.last_seen }
    }
}

/// GraphQL input for creating a user.
#[derive(Debug)]
pub struct CreateUserInput {
    pub name: String,
    /// Optional room public id to place the user into on creation.
    pub room: Option<u128>,
}

/// GraphQL input for updating a user's status.
#[derive(Clone, Copy, Debug)]
pub struct UpdateUserStatusInput {
    pub user_id: u128,
    pub status: UserStatus,
}

/// GraphQL output type for a user status change event.
#[derive(Clone, Copy, Debug, PartialEq, Eq, Structural)]
pub struct UserStatusChanged {
    pub user_id: u128,
    pub status: UserStatus,
}

/// GraphQL output type for a message.
#[derive(Debug)]
pub struct Message {
    pub id: u128,
    pub created_at: Timestamp,
    pub content: String,
    pub sender: u128,
    pub room: u128,
}

/// The API form of a domain message.
pub open spec fn api_message(m: domain::Message) -> Message {
    Message { id: m.id, created_at: m.created_at, content: m.content, sender: m.sender, room: m.room }
}

impl Message {
    pub fn from(m: domain::Message) -> (r: Self)
        ensures
            r == api_message(m),
            r.id == m.id,
            r.created_at == m.created_at,
            r.content == m.content,
            r.sender == m.sender,
            r.room == m.room,
    {
        Message {
            id: m.id,
            created_at: m.created_at,
            content: m.content,
            sender: m.sender,
            room: m.room,
        }
    }
}

/// GraphQL input for sending a message.
#[derive(Debug)]
pub struct SendMessageInput {
    pub content: String,
    pub sender: u128,
    pub room: u128,
}

/// The API forms of domain messages, in order.
pub fn api_messages(items: Vec<domain::Message>) -> (r: Vec<Message>)
    ensures
        r@ == items@.map_values(|m: domain::Message| api_message(m)),
        r@.len() == items@.len(),
        forall|i: int|
            0 <= i < r@.len() ==> (#[trigger] r@[i]).id == items@[i].id && r@[i].sender
                == items@[i].sender && r@[i].room == items@[i].room && r@[i].content
                == items@[i].content && r@[i].created_at == items@[i].created_at,
{
    let mut r: Vec<Message> = Vec::new();
    for i in 0..items.len()
        invariant
            r@ == items@.take(i as int).map_values(|m: domain::Message| api_message(m)),
    {
        r.push(Message::from(items[i].clone()));
        assert(r@ =~= items@.take(i + 1).map_values(|m: domain::Message| api_message(m)));
    }
    assert(items@.take(items.len() as int) =~= items@);
    r
}

/// Cursor-based page of messages returned by the GraphQL API.
#[derive(Debug)]
pub struct MessagePage {
    pub items: Vec<Message>,
    /// Cursor to pass for the next page; `None` on the last page.
    pub next_cursor: Option<u128>,
    pub has_next_page: bool,
}

impl MessagePage {
    pub fn from(page: CursorPage<domain::Message>) -> (r: Self)
        ensures
            r.items@ == page.items@.map_values(|m: domain::Message| api_message(m)),
            r.next_cursor == page.next_cursor,
            r.has_next_page == page.has_next_page,
    {
        MessagePage {
            items: api_messages(page.items),
            next_cursor: page.next_cursor,
            has_next_page: page.has_next_page,
        }
    }
}

/// The idempotency key a request carries, if its header holds a valid UUID.
#[derive(Clone, Copy, Debug, PartialEq, Eq, Structural)]
pub struct IdempotencyHeader(pub Option<u128>);

impl IdempotencyHeader {
    /// Reads the `Idempotency-Key` header's text: a valid UUID is the key; a
    /// missing header or any other text gives none.
    pub fn from_header(value: Option<&str>) -> (r: Self)
        ensures
            value is None ==> r.0 is None,
            value matches Some(t) ==> r.0 == crate::ids::parsed_uuid(t@),
            value matches Some(t) ==> forall|x: u128|
                t@ == crate::ids::hyphenated_text(x) ==> r.0 == Some(x),
    {
        match value {
            Some(t) => IdempotencyHeader(parse_uuid(t)),
            None => IdempotencyHeader(None),
        }
    }
}

/// The API form of a room is the room itself: id, name, description and
/// capacity are kept.
pub proof fn law_api_forms_keep_fields_room(r: domain::Room)
    ensures
        api_room(r).id == r.id,
        api_room(r).name == r.name,
        api_room(r).description == r.description,
        api_room(r).capacity == r.capacity,
{
}

/// The API form of a user keeps its id, name, room and last-seen time, and
/// its status, converted: converting it back gives the user's status.
pub proof fn law_api_forms_keep_fields_user(u: domain::User)
    ensures
        api_user(u).id == u.id,
        api_user(u).name == u.name,
        api_user(u).room == u.room,
        api_user(u).last_seen == u.last_seen,
        u.status is None ==> api_user(u).status is None,
        u.status matches Some(s) ==> (api_user(u).status matches Some(a) && domain_status(a) == s),
{
    if let Some(s) = u.status {
        law_status_conversions_inverse(s, api_status(s));
    }
}

/// The API form of a message keeps its id, time, content, sender and room:
/// the sender stays the sender and the room the room.
pub proof fn law_api_forms_keep_fields_message(m: domain::Message)
    ensures
        api_message(m).id == m.id,
        api_message(m).created_at == m.created_at,
        api_message(m).content == m.content,
        api_message(m).sender == m.sender,
        api_message(m).room == m.room,
{
}

/// The two status conversions name the same status: online is online,
/// offline is offline, away is away.
pub proof fn law_status_names_match()
    ensures
        api_status(Status::Online) == UserStatus::Online,
        api_status(Status::Offline) == UserStatus::Offline,
        api_status(Status::Away) == UserStatus::Away,
        domain_status(UserStatus::Online) == Status::Online,
        domain_status(UserStatus::Offline) == Status::Offline,
        domain_status(UserStatus::Away) == Status::Away,
{
}

} // verus!
