//! The GraphQL resolvers' logic: how each query and mutation turns what the
//! services answer into its result union, the idempotency-key precondition
//! of the creating mutations, and what each subscription yields for an event.

use vstd::prelude::*;
use crate::api_errors::{
    MessageError, MissingIdempotencyKeyError, RoomError, UserError, message_error_of,
    missing_idempotency_key_text, room_error_of, user_error_of,
};
use crate::api_types::{
    IdempotencyHeader, Message, MessagePage, Room, TypingIndicator, User, UserEnteredRoom,
    UserLeftRoom, UserStatusChanged,
    UserStatus, api_message, api_room, api_status, api_user,
};
use crate::domain;
use crate::domain::{CursorPage, MessageEvent, RoomEvent, UserEvent};
use crate::service_errors::{MessageServiceError, RoomServiceError, UserServiceError};

verus! {

/// The API forms of domain users, in order.
pub fn api_users(items: Vec<domain::User>) -> (r: Vec<User>)
    ensures
        r@ == items@.map_values(|u: domain::User| api_user(u)),
{
    let mut r: Vec<User> = Vec::new();
    for i in 0..items.len()
        invariant
            r@ == items@.take(i as int).map_values(|u: domain::User| api_user(u)),
    {
        r.push(User::from(items[i].clone()));
        assert(r@ =~= items@.take(i + 1).map_values(|u: domain::User| api_user(u)));
    }
    assert(items@.take(items.len() as int) =~= items@);
    r
}

/// The API forms of domain rooms, in order.
pub fn api_rooms(items: Vec<domain::Room>) -> (r: Vec<Room>)
    ensures
        r@ == items@.map_values(|x: domain::Room| api_room(x)),
{
    let mut r: Vec<Room> = Vec::new();
    for i in 0..items.len()
        invariant
            r@ == items@.take(i as int).map_values(|x: domain::Room| api_room(x)),
    {
        r.push(Room::from(items[i].clone()));
        assert(r@ =~= items@.take(i + 1).map_values(|x: domain::Room| api_room(x)));
    }
    assert(items@.take(items.len() as int) =~= items@);
    r
}

/// A list of messages as a union variant.
#[derive(Debug)]
pub struct MessageList {
    pub items: Vec<Message>,
}

/// A deleted message's id.
#[derive(Clone, Copy, Debug, PartialEq, Eq, Structural)]
pub struct DeleteSuccess {
    pub id: u128,
}

#[derive(Debug)]
pub enum MessageListResult {
    Messages(MessageList),
    Error(MessageError),
}

#[derive(Debug)]
pub enum MessagePageResult {
    Page(MessagePage),
    Error(MessageError),
}

#[derive(Debug)]
pub enum SendMessageResult {
    Message(Message),
    Error(MessageError),
}

#[derive(Debug)]
pub enum DeleteMessageResult {
    Success(DeleteSuccess),
    Error(MessageError),
}

/// A list of rooms as a union variant.
#[derive(Debug)]
pub struct RoomList {
    pub items: Vec<Room>,
}

/// A deleted room's id.
#[derive(Clone, Copy, Debug, PartialEq, Eq, Structural)]
pub struct DeletedId {
    pub id: u128,
}

#[derive(Debug)]
pub enum RoomListResult {
    Rooms(RoomList),
    Error(RoomError),
}

#[derive(Debug)]
pub enum GetRoomResult {
    Room(Room),
    Error(RoomError),
}

#[derive(Debug)]
pub enum CreateRoomResult {
    Room(Room),
    Error(RoomError),
}

#[derive(Debug)]
pub enum DeleteRoomResult {
    Success(DeletedId),
    Error(RoomError),
}

/// A successful typing status update.
#[derive(Clone, Copy, Debug, PartialEq, Eq, Structural)]
pub struct TypingSuccess {
    pub ok: bool,
}

#[derive(Debug)]
pub enum SetTypingResult {
    Success(TypingSuccess),
    Error(RoomError),
}

/// A list of users as a union variant.
#[derive(Debug)]
pub struct UserList {
    pub items: Vec<User>,
}

/// A successful update.
#[derive(Clone, Copy, Debug, PartialEq, Eq, Structural)]
pub struct UpdateSuccess {
    pub success: bool,
}

/// A deleted user's id.
#[derive(Clone, Copy, Debug, PartialEq, Eq, Structural)]
pub struct DeletedUserId {
    pub id: u128,
}

#[derive(Debug)]
pub enum UserListResult {
    Users(UserList),
    Error(UserError),
}

#[derive(Debug)]
pub enum GetUserResult {
    User(User),
    Error(UserError),
}

#[derive(Debug)]
pub enum CreateUserResult {
    User(User),
    Error(UserError),
}

#[derive(Debug)]
pub enum UpdateUserStatusResult {
    Success(UpdateSuccess),
    Error(UserError),
}

#[derive(Debug)]
pub enum DeleteUserResult {
    Success(DeletedUserId),
    Error(UserError),
}

#[derive(Debug)]
pub enum SetPresenceResult {
    Success(UpdateSuccess),
    Error(UserError),
}

/// Queries on messages.
#[derive(Default)]
pub struct MessageQuery;

impl MessageQuery {
    /// The answer to `messages` from the service's list of a room's messages.
    pub fn messages(&self, answer: Result<Vec<domain::Message>, MessageServiceError>) -> (r:
        MessageListResult)
        ensures
            answer matches Ok(ms) ==> r matches MessageListResult::Messages(l) && l.items@
                == ms@.map_values(|m: domain::Message| api_message(m)),
            answer matches Err(e) ==> (r matches MessageListResult::Error(x) && message_error_of(e, x)),
    {
        match answer {
            Ok(messages) => MessageListResult::Messages(
                MessageList { items: crate::api_types::api_messages(messages) },
            ),
            Err(e) => MessageListResult::Error(MessageError::from(e)),
        }
    }

    /// The answer to `messagesPaginated` from the service's page.
    pub fn messages_paginated(
        &self,
        answer: Result<CursorPage<domain::Message>, MessageServiceError>,
    ) -> (r: MessagePageResult)
        ensures
            answer matches Ok(p) ==> r matches MessagePageResult::Page(pg) && pg.items@
                == p.items@.map_values(|m: domain::Message| api_message(m)) && pg.next_cursor
                == p.next_cursor && pg.has_next_page == p.has_next_page,
            answer matches Err(e) ==> (r matches MessagePageResult::Error(x) && message_error_of(e, x)),
    {
        match answer {
            Ok(page) => MessagePageResult::Page(MessagePage::from(page)),
            Err(e) => MessagePageResult::Error(MessageError::from(e)),
        }
    }
}

/// Mutations on messages.
#[derive(Default)]
pub struct MessageMutation;

impl MessageMutation {
    /// Sending a message needs the idempotency key: the key, or the error
    /// answer where the header held none.
    pub fn send_message_key(&self, header: IdempotencyHeader) -> (r: Result<u128, SendMessageResult>)
        ensures
            header.0 matches Some(k) ==> r == Ok::<u128, SendMessageResult>(k),
            header.0 is None ==> (r matches Err(SendMessageResult::Error(
                MessageError::MissingIdempotencyKey(e),
            )) && e.message@ == missing_idempotency_key_text()),
    {
        match header.0 {
            Some(key) => Ok(key),
            None => Err(
                SendMessageResult::Error(
                    MessageError::MissingIdempotencyKey(MissingIdempotencyKeyError::new()),
                ),
            ),
        }
    }

    /// The answer to `sendMessage` from the service's answer.
    pub fn send_message(&self, answer: Result<domain::Message, MessageServiceError>) -> (r:
        SendMessageResult)
        ensures
            answer matches Ok(m) ==> r == SendMessageResult::Message(api_message(m)),
            answer matches Err(e) ==> (r matches SendMessageResult::Error(x) && message_error_of(e, x)),
    {
        match answer {
            Ok(msg) => SendMessageResult::Message(Message::from(msg)),
            Err(e) => SendMessageResult::Error(MessageError::from(e)),
        }
    }

    /// The answer to `deleteMessage` from the service's answer.
    pub fn delete_message(&self, answer: Result<u128, MessageServiceError>) -> (r:
        DeleteMessageResult)
        ensures
            answer matches Ok(id) ==> r == DeleteMessageResult::Success(DeleteSuccess { id }),
            answer matches Err(e) ==> (r matches DeleteMessageResult::Error(x) && message_error_of(e, x)),
    {
        match answer {
            Ok(message_id) => DeleteMessageResult::Success(DeleteSuccess { id: message_id }),
            Err(e) => DeleteMessageResult::Error(MessageError::from(e)),
        }
    }
}

/// Subscriptions to message events.
#[derive(Default)]
pub struct MessageSubscription;

impl MessageSubscription {
    /// What `messageSent` on a room yields for an event: messages sent there.
    pub fn message_sent(&self, event: &MessageEvent, room_id: u128) -> (r: Option<Message>)
        ensures
            r == match *event {
                MessageEvent::Sent(m) => if m.room == room_id {
                    Some(api_message(m))
                } else {
                    None
                },
                _ => None::<Message>,
            },
    {
        match event {
            MessageEvent::Sent(msg) => if msg.room == room_id {
                Some(Message::from(msg.clone()))
            } else {
                None
            },
            _ => None,
        }
    }

    /// What `messageEdited` on a room yields for an event: messages edited there.
    pub fn message_edited(&self, event: &MessageEvent, room_id: u128) -> (r: Option<Message>)
        ensures
            r == match *event {
                MessageEvent::Edited(m) => if m.room == room_id {
                    Some(api_message(m))
                } else {
                    None
                },
                _ => None::<Message>,
            },
    {
        match event {
            MessageEvent::Edited(msg) => if msg.room == room_id {
                Some(Message::from(msg.clone()))
            } else {
                None
            },
            _ => None,
        }
    }

    /// What `messageDeleted` on a room yields for an event: the ids of
    /// messages deleted there.
    pub fn message_deleted(&self, event: &MessageEvent, room_id: u128) -> (r: Option<u128>)
        ensures
            r == match *event {
                MessageEvent::Deleted { message_id, room_id: rid } => if rid == room_id {
                    Some(message_id)
                } else {
                    None
                },
                _ => None::<u128>,
            },
    {
        match event {
            MessageEvent::Deleted { message_id, room_id: event_room_id } => if *event_room_id
                == room_id {
                Some(*message_id)
            } else {
                None
            },
            _ => None,
        }
    }
}

/// Queries on rooms.
#[derive(Default)]
pub struct RoomQuery;

impl RoomQuery {
    /// The answer to `rooms` from the service's list.
    pub fn rooms(&self, answer: Result<Vec<domain::Room>, RoomServiceError>) -> (r: RoomListResult)
        ensures
            answer matches Ok(rs) ==> r matches RoomListResult::Rooms(l) && l.items@ == rs@.map_values(
                |x: domain::Room| api_room(x),
            ),
            answer matches Err(e) ==> (r matches RoomListResult::Error(x) && room_error_of(e, x)),
    {
        match answer {
            Ok(rooms) => RoomListResult::Rooms(RoomList { items: api_rooms(rooms) }),
            Err(e) => RoomListResult::Error(RoomError::from(e)),
        }
    }

    /// The answer to `room` from the service's lookup.
    pub fn room(&self, answer: Result<domain::Room, RoomServiceError>) -> (r: GetRoomResult)
        ensures
            answer matches Ok(x) ==> r == GetRoomResult::Room(api_room(x)),
            answer matches Err(e) ==> (r matches GetRoomResult::Error(x) && room_error_of(e, x)),
    {
        match answer {
            Ok(room) => GetRoomResult::Room(Room::from(room)),
            Err(e) => GetRoomResult::Error(RoomError::from(e)),
        }
    }
}

/// Mutations on rooms.
#[derive(Default)]
pub struct RoomMutation;

impl RoomMutation {
    /// Creating a room needs the idempotency key: the key, or the error
    /// answer where the header held none.
    pub fn create_room_key(&self, header: IdempotencyHeader) -> (r: Result<u128, CreateRoomResult>)
        ensures
            header.0 matches Some(k) ==> r == Ok::<u128, CreateRoomResult>(k),
            header.0 is None ==> (r matches Err(CreateRoomResult::Error(
                RoomError::MissingIdempotencyKey(e),
            )) && e.message@ == missing_idempotency_key_text()),
    {
        match header.0 {
            Some(key) => Ok(key),
            None => Err(
                CreateRoomResult::Error(
                    RoomError::MissingIdempotencyKey(MissingIdempotencyKeyError::new()),
                ),
            ),
        }
    }

    /// The answer to `createRoom` from the service's answer.
    pub fn create_room(&self, answer: Result<domain::Room, RoomServiceError>) -> (r:
        CreateRoomResult)
        ensures
            answer matches Ok(x) ==> r == CreateRoomResult::Room(api_room(x)),
            answer matches Err(e) ==> (r matches CreateRoomResult::Error(x) && room_error_of(e, x)),
    {
        match answer {
            Ok(room) => CreateRoomResult::Room(Room::from(room)),
            Err(e) => CreateRoomResult::Error(RoomError::from(e)),
        }
    }

    /// The answer to `deleteRoom` from the service's answer.
    pub fn delete_room(&self, answer: Result<u128, RoomServiceError>) -> (r: DeleteRoomResult)
        ensures
            answer matches Ok(id) ==> r == DeleteRoomResult::Success(DeletedId { id }),
            answer matches Err(e) ==> (r matches DeleteRoomResult::Error(x) && room_error_of(e, x)),
    {
        match answer {
            Ok(id) => DeleteRoomResult::Success(DeletedId { id }),
            Err(e) => DeleteRoomResult::Error(RoomError::from(e)),
        }
    }

    /// The answer to `setTyping` from the service's answer.
    pub fn set_typing(&self, answer: Result<(), RoomServiceError>) -> (r: SetTypingResult)
        ensures
            answer is Ok ==> r == SetTypingResult::Success(TypingSuccess { ok: true }),
            answer matches Err(e) ==> (r matches SetTypingResult::Error(x) && room_error_of(e, x)),
    {
        match answer {
            Ok(()) => SetTypingResult::Success(TypingSuccess { ok: true }),
            Err(e) => SetTypingResult::Error(RoomError::from(e)),
        }
    }
}

/// Subscriptions to room events.
#[derive(Default)]
pub struct RoomSubscription;

impl RoomSubscription {
    /// What `roomAdded` yields for an event: the added room.
    pub fn room_added(&self, event: &RoomEvent) -> (r: Option<Room>)
        ensures
            r == match *event {
                RoomEvent::Added(x) => Some(api_room(x)),
                _ => None::<Room>,
            },
    {
        match event {
            RoomEvent::Added(room) => Some(Room::from(room.clone())),
            _ => None,
        }
    }

    /// What `userTyping` on a room yields for an event: typing there.
    pub fn user_typing(&self, event: &RoomEvent, room_id: u128) -> (r: Option<TypingIndicator>)
        ensures
            r == match *event {
                RoomEvent::UserTyping(t) => if t.room_id == room_id {
                    Some(
                        TypingIndicator {
                            user_id: t.user_id,
                            room_id: t.room_id,
                            is_typing: t.is_typing,
                            timestamp: t.timestamp,
                        },
                    )
                } else {
                    None
                },
                _ => None::<TypingIndicator>,
            },
    {
        match event {
            RoomEvent::UserTyping(typing) => if typing.room_id == room_id {
                Some(TypingIndicator::from(*typing))
            } else {
                None
            },
            _ => None,
        }
    }

    /// What the `userEntered` stream of a room yields for an event: the entry
    /// of a user into that room.
    pub fn user_entered(&self, event: &RoomEvent, room_id: u128) -> (r: Option<UserEnteredRoom>)
        ensures
            r == match *event {
                RoomEvent::UserEntered { room_id: rid, user_id } => if rid == room_id {
                    Some(UserEnteredRoom { room_id: rid, user_id })
                } else {
                    None
                },
                _ => None::<UserEnteredRoom>,
            },
    {
        match event {
            RoomEvent::UserEntered { room_id: rid, user_id } => if *rid == room_id {
                Some(UserEnteredRoom { room_id: *rid, user_id: *user_id })
            } else {
                None
            },
            _ => None,
        }
    }

    /// What the `userLeft` stream of a room yields for an event: the leaving
    /// of a user from that room.
    pub fn user_left(&self, event: &RoomEvent, room_id: u128) -> (r: Option<UserLeftRoom>)
        ensures
            r == match *event {
                RoomEvent::UserLeft { room_id: rid, user_id } => if rid == room_id {
                    Some(UserLeftRoom { room_id: rid, user_id })
                } else {
                    None
                },
                _ => None::<UserLeftRoom>,
            },
    {
        match event {
            RoomEvent::UserLeft { room_id: rid, user_id } => if *rid == room_id {
                Some(UserLeftRoom { room_id: *rid, user_id: *user_id })
            } else {
                None
            },
            _ => None,
        }
    }
}

/// Queries on users.
#[derive(Default)]
pub struct UserQuery;

impl UserQuery {
    /// The answer to `user` from the service's lookup.
    pub fn user(&self, answer: Result<domain::User, UserServiceError>) -> (r: GetUserResult)
        ensures
            answer matches Ok(u) ==> r == GetUserResult::User(api_user(u)),
            answer matches Err(e) ==> (r matches GetUserResult::Error(x) && user_error_of(e, x)),
    {
        match answer {
            Ok(user) => GetUserResult::User(User::from(user)),
            Err(e) => GetUserResult::Error(UserError::from(e)),
        }
    }

    /// The answer to `usersInRoom` from the service's list.
    pub fn users_in_room(&self, answer: Result<Vec<domain::User>, UserServiceError>) -> (r:
        UserListResult)
        ensures
            answer matches Ok(us) ==> r matches UserListResult::Users(l) && l.items@ == us@.map_values(
                |u: domain::User| api_user(u),
            ),
            answer matches Err(e) ==> (r matches UserListResult::Error(x) && user_error_of(e, x)),
    {
        match answer {
            Ok(users) => UserListResult::Users(UserList { items: api_users(users) }),
            Err(e) => UserListResult::Error(UserError::from(e)),
        }
    }

    /// The answer to `usersByStatus` from the service's list.
    pub fn users_by_status(&self, answer: Result<Vec<domain::User>, UserServiceError>) -> (r:
        UserListResult)
        ensures
            answer matches Ok(us) ==> r matches UserListResult::Users(l) && l.items@ == us@.map_values(
                |u: domain::User| api_user(u),
            ),
            answer matches Err(e) ==> (r matches UserListResult::Error(x) && user_error_of(e, x)),
    {
        match answer {
            Ok(users) => UserListResult::Users(UserList { items: api_users(users) }),
            Err(e) => UserListResult::Error(UserError::from(e)),
        }
    }
}

/// Which service call `setPresence` makes.
#[derive(Clone, Copy, Debug, PartialEq, Eq, Structural)]
pub enum PresenceChange {
    Join,
    Leave,
}

/// Mutations on users.
#[derive(Default)]
pub struct UserMutation;

impl UserMutation {
    /// Creating a user needs the idempotency key: the key, or the error
    /// answer where the header held none.
    pub fn create_user_key(&self, header: IdempotencyHeader) -> (r: Result<u128, CreateUserResult>)
        ensures
            header.0 matches Some(k) ==> r == Ok::<u128, CreateUserResult>(k),
            header.0 is None ==> (r matches Err(CreateUserResult::Error(
                UserError::MissingIdempotencyKey(e),
            )) && e.message@ == missing_idempotency_key_text()),
    {
        match header.0 {
            Some(key) => Ok(key),
            None => Err(
                CreateUserResult::Error(
                    UserError::MissingIdempotencyKey(MissingIdempotencyKeyError::new()),
                ),
            ),
        }
    }

    /// The answer to `createUser` from the service's answer.
    pub fn create_user(&self, answer: Result<domain::User, UserServiceError>) -> (r:
        CreateUserResult)
        ensures
            answer matches Ok(u) ==> r == CreateUserResult::User(api_user(u)),
            answer matches Err(e) ==> (r matches CreateUserResult::Error(x) && user_error_of(e, x)),
    {
        match answer {
            Ok(user) => CreateUserResult::User(User::from(user)),
            Err(e) => CreateUserResult::Error(UserError::from(e)),
        }
    }

    /// The answer to `updateUserStatus` from the service's answer.
    pub fn update_user_status(&self, answer: Result<(), UserServiceError>) -> (r:
        UpdateUserStatusResult)
        ensures
            answer is Ok ==> r == UpdateUserStatusResult::Success(UpdateSuccess { success: true }),
            answer matches Err(e) ==> (r matches UpdateUserStatusResult::Error(x) && user_error_of(e, x)),
    {
        match answer {
            Ok(()) => UpdateUserStatusResult::Success(UpdateSuccess { success: true }),
            Err(e) => UpdateUserStatusResult::Error(UserError::from(e)),
        }
    }

    /// The answer to `deleteUser` from the service's answer.
    pub fn delete_user(&self, answer: Result<u128, UserServiceError>) -> (r: DeleteUserResult)
        ensures
            answer matches Ok(id) ==> r == DeleteUserResult::Success(DeletedUserId { id }),
            answer matches Err(e) ==> (r matches DeleteUserResult::Error(x) && user_error_of(e, x)),
    {
        match answer {
            Ok(id) => DeleteUserResult::Success(DeletedUserId { id }),
            Err(e) => DeleteUserResult::Error(UserError::from(e)),
        }
    }

    /// Which change `setPresence` makes: present users join, others leave.
    pub fn presence_change(&self, is_present: bool) -> (r: PresenceChange)
        ensures
            is_present ==> r == PresenceChange::Join,
            !is_present ==> r == PresenceChange::Leave,
    {
        if is_present {
            PresenceChange::Join
        } else {
            PresenceChange::Leave
        }
    }

    /// The answer to `setPresence` from the service's answer.
    pub fn set_presence(&self, answer: Result<(), UserServiceError>) -> (r: SetPresenceResult)
        ensures
            answer is Ok ==> r == SetPresenceResult::Success(UpdateSuccess { success: true }),
            answer matches Err(e) ==> (r matches SetPresenceResult::Error(x) && user_error_of(e, x)),
    {
        match answer {
            Ok(()) => SetPresenceResult::Success(UpdateSuccess { success: true }),
            Err(e) => SetPresenceResult::Error(UserError::from(e)),
        }
    }
}

/// Subscriptions to user events.
#[derive(Default)]
pub struct UserSubscription;

impl UserSubscription {
    /// What `userStatusChanged` yields for an event: status changes.
    pub fn user_status_changed(&self, event: &UserEvent) -> (r: Option<UserStatusChanged>)
        ensures
            r == match *event {
                UserEvent::StatusChanged { user_id, status } => Some(
                    UserStatusChanged { user_id, status: api_status(status) },
                ),
                _ => None::<UserStatusChanged>,
            },
    {
        match event {
            UserEvent::StatusChanged { user_id, status } => Some(
                UserStatusChanged { user_id: *user_id, status: UserStatus::from(*status) },
            ),
            _ => None,
        }
    }
}

} // verus!
