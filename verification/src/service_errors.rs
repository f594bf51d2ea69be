//! Errors of the service layer and their messages.

use vstd::prelude::*;
use crate::domain::{ParseUserStatusError, invalid_status_message};
use crate::ids::{hyphenated_text, uuid_text};
use crate::text::{decimal, decimal_text};

verus! {

/// Errors that can occur in message operations.
#[derive(Debug)]
pub enum MessageServiceError {
    /// The content is longer than the maximum length, which the variant holds.
    MessageTooLong(usize),
    UserNotFoundInRoom { user_id: u128, room_id: u128 },
    RoomNotFound(u128),
    MessageNotFound(u128),
    /// The sender exceeded the per-window request limit, which the variant holds.
    RateLimited(u32),
    /// A database error, by its message.
    DatabaseError(String),
}

/// Errors that can occur in room operations.
#[derive(Debug)]
pub enum RoomServiceError {
    RoomNotFound(u128),
    RoomNotAdded(String),
    MaxCapacityExceeded(u32),
    DatabaseError(String),
}

/// Errors that can occur in user operations.
#[derive(Debug)]
pub enum UserServiceError {
    UserNotAdded(String),
    UserNotFound(u128),
    RoomNotFound(u128),
    RoomOrUserNotFound { user_id: u128, room_id: u128 },
    UserStatusUpdateFailed(String),
    UserAlreadyExists(String),
    InvalidStatus(ParseUserStatusError),
    DatabaseError(String),
}

/// The message of a message-service error.
pub open spec fn message_service_error_text(e: MessageServiceError) -> Seq<char> {
    match e {
        MessageServiceError::MessageTooLong(max) => "Message too long. Maximum length is "@
            + decimal_text(max as nat) + " characters."@,
        MessageServiceError::UserNotFoundInRoom { user_id, room_id } => "User with id "@
            + hyphenated_text(user_id) + " not found in room with id "@ + hyphenated_text(room_id),
        MessageServiceError::RoomNotFound(id) => "Room with id "@ + hyphenated_text(id)
            + " not found"@,
        MessageServiceError::MessageNotFound(id) => "Message with id "@ + hyphenated_text(id)
            + " not found"@,
        MessageServiceError::RateLimited(max) => "Rate limit exceeded. Maximum "@ + decimal_text(
            max as nat,
        ) + " requests per window."@,
        MessageServiceError::DatabaseError(t) => "Database error in MessageService: "@ + t@,
    }
}

/// The message of a room-service error.
pub open spec fn room_service_error_text(e: RoomServiceError) -> Seq<char> {
    match e {
        RoomServiceError::RoomNotFound(id) => "Room not found with id: "@ + hyphenated_text(id),
        RoomServiceError::RoomNotAdded(t) => "Failed to add room: "@ + t@,
        RoomServiceError::MaxCapacityExceeded(cap) => "Max Room capacity exceeded: "@
            + decimal_text(cap as nat),
        RoomServiceError::DatabaseError(t) => "Database error: "@ + t@,
    }
}

/// The message of a user-service error.
pub open spec fn user_service_error_text(e: UserServiceError) -> Seq<char> {
    match e {
        UserServiceError::UserNotAdded(t) => "Failed to add user: "@ + t@,
        UserServiceError::UserNotFound(id) => "User not found with id: "@ + hyphenated_text(id),
        UserServiceError::RoomNotFound(id) => "Room not found with id: "@ + hyphenated_text(id),
        UserServiceError::RoomOrUserNotFound { user_id, room_id } => "User "@ + hyphenated_text(
            user_id,
        ) + " or room "@ + hyphenated_text(room_id) + " not found"@,
        UserServiceError::UserStatusUpdateFailed(t) => "Failed to update user status to: "@ + t@,
        UserServiceError::UserAlreadyExists(t) => "User already exists with name: "@ + t@,
        UserServiceError::InvalidStatus(ParseUserStatusError::InvalidStatus(t)) =>
            invalid_status_message(t@),
        UserServiceError::DatabaseError(t) => "Database error: "@ + t@,
    }
}

/// `prefix` followed by `rest`.
fn prefixed(prefix: &str, rest: &str) -> (r: String)
    ensures
        r@ == prefix@ + rest@,
{
    String::from_str(prefix).concat(rest)
}

impl Clone for MessageServiceError {
    fn clone(&self) -> (r: Self)
        ensures
            r == *self,
    {
        match self {
            MessageServiceError::MessageTooLong(m) => MessageServiceError::MessageTooLong(*m),
            MessageServiceError::UserNotFoundInRoom { user_id, room_id } =>
                MessageServiceError::UserNotFoundInRoom { user_id: *user_id, room_id: *room_id },
            MessageServiceError::RoomNotFound(id) => MessageServiceError::RoomNotFound(*id),
            MessageServiceError::MessageNotFound(id) => MessageServiceError::MessageNotFound(*id),
            MessageServiceError::RateLimited(m) => MessageServiceError::RateLimited(*m),
            MessageServiceError::DatabaseError(t) => MessageServiceError::DatabaseError(t.clone()),
        }
    }
}

impl Clone for RoomServiceError {
    fn clone(&self) -> (r: Self)
        ensures
            r == *self,
    {
        match self {
            RoomServiceError::RoomNotFound(id) => RoomServiceError::RoomNotFound(*id),
            RoomServiceError::RoomNotAdded(t) => RoomServiceError::RoomNotAdded(t.clone()),
            RoomServiceError::MaxCapacityExceeded(c) => RoomServiceError::MaxCapacityExceeded(*c),
            RoomServiceError::DatabaseError(t) => RoomServiceError::DatabaseError(t.clone()),
        }
    }
}

impl Clone for UserServiceError {
    fn clone(&self) -> (r: Self)
        ensures
            r == *self,
    {
        match self {
            UserServiceError::UserNotAdded(t) => UserServiceError::UserNotAdded(t.clone()),
            UserServiceError::UserNotFound(id) => UserServiceError::UserNotFound(*id),
            UserServiceError::RoomNotFound(id) => UserServiceError::RoomNotFound(*id),
            UserServiceError::RoomOrUserNotFound { user_id, room_id } =>
                UserServiceError::RoomOrUserNotFound { user_id: *user_id, room_id: *room_id },
            UserServiceError::UserStatusUpdateFailed(t) => UserServiceError::UserStatusUpdateFailed(
                t.clone(),
            ),
            UserServiceError::UserAlreadyExists(t) => UserServiceError::UserAlreadyExists(t.clone()),
            UserServiceError::InvalidStatus(e) => UserServiceError::InvalidStatus(e.clone()),
            UserServiceError::DatabaseError(t) => UserServiceError::DatabaseError(t.clone()),
        }
    }
}

impl MessageServiceError {
    /// The error's message (its `Display`).
    pub fn to_string(&self) -> (r: String)
        ensures
            r@ == message_service_error_text(*self),
    {
        match self {
            MessageServiceError::MessageTooLong(max) => {
                let n = decimal(*max as u64);
                let r = prefixed("Message too long. Maximum length is ", n.as_str()).concat(
                    " characters.",
                );
                r
            },
            MessageServiceError::UserNotFoundInRoom { user_id, room_id } => {
                let u = uuid_text(*user_id);
                let rm = uuid_text(*room_id);
                prefixed("User with id ", u.as_str()).concat(" not found in room with id ").concat(
                    rm.as_str(),
                )
            },
            MessageServiceError::RoomNotFound(id) => {
                let t = uuid_text(*id);
                prefixed("Room with id ", t.as_str()).concat(" not found")
            },
            MessageServiceError::MessageNotFound(id) => {
                let t = uuid_text(*id);
                prefixed("Message with id ", t.as_str()).concat(" not found")
            },
            MessageServiceError::RateLimited(max) => {
                let n = decimal(*max as u64);
                prefixed("Rate limit exceeded. Maximum ", n.as_str()).concat(
                    " requests per window.",
                )
            },
            MessageServiceError::DatabaseError(t) => prefixed(
                "Database error in MessageService: ",
                t.as_str(),
            ),
        }
    }
}

impl RoomServiceError {
    /// The error's message (its `Display`).
    pub fn to_string(&self) -> (r: String)
        ensures
            r@ == room_service_error_text(*self),
    {
        match self {
            RoomServiceError::RoomNotFound(id) => {
                let t = uuid_text(*id);
                prefixed("Room not found with id: ", t.as_str())
            },
            RoomServiceError::RoomNotAdded(t) => prefixed("Failed to add room: ", t.as_str()),
            RoomServiceError::MaxCapacityExceeded(cap) => {
                let n = decimal(*cap as u64);
                prefixed("Max Room capacity exceeded: ", n.as_str())
            },
            RoomServiceError::DatabaseError(t) => prefixed("Database error: ", t.as_str()),
        }
    }
}

impl UserServiceError {
    /// The error's message (its `Display`).
    pub fn to_string(&self) -> (r: String)
        ensures
            r@ == user_service_error_text(*self),
    {
        match self {
            UserServiceError::UserNotAdded(t) => prefixed("Failed to add user: ", t.as_str()),
            UserServiceError::UserNotFound(id) => {
                let t = uuid_text(*id);
                prefixed("User not found with id: ", t.as_str())
            },
            UserServiceError::RoomNotFound(id) => {
                let t = uuid_text(*id);
                prefixed("Room not found with id: ", t.as_str())
            },
            UserServiceError::RoomOrUserNotFound { user_id, room_id } => {
                let u = uuid_text(*user_id);
                let rm = uuid_text(*room_id);
                prefixed("User ", u.as_str()).concat(" or room ").concat(rm.as_str()).concat(
                    " not found",
                )
            },
            UserServiceError::UserStatusUpdateFailed(t) => prefixed(
                "Failed to update user status to: ",
                t.as_str(),
            ),
            UserServiceError::UserAlreadyExists(t) => prefixed(
                "User already exists with name: ",
                t.as_str(),
            ),
            UserServiceError::InvalidStatus(e) => e.message(),
            UserServiceError::DatabaseError(t) => prefixed("Database error: ", t.as_str()),
        }
    }
}

} // verus!
