//! Error types returned by the GraphQL API, and the mapping of service
//! errors onto them. Database errors are concealed behind `InternalError`.

use vstd::prelude::*;
use crate::service_errors::{
    MessageServiceError, RoomServiceError, UserServiceError, message_service_error_text,
    room_service_error_text, user_service_error_text,
};

verus! {

/// The text of a concealed internal error.
pub open spec fn internal_error_text() -> Seq<char> {
    "Internal server error"@
}

/// The text of a missing or invalid idempotency key error.
pub open spec fn missing_idempotency_key_text() -> Seq<char> {
    "Missing or invalid Idempotency-Key header. Provide a valid UUID."@
}

/// Concealed internal error: no service details leak to the client.
#[derive(Debug)]
pub struct InternalError {
    /// Always `"Internal server error"`.
    pub message: String,
}

impl InternalError {
    pub fn new() -> (r: Self)
        ensures
            r.message@ == internal_error_text(),
    {
        InternalError { message: String::from_str("Internal server error") }
    }
}

/// Returned when a mutation requires the `Idempotency-Key` header but it was
/// missing or not a valid UUID.
#[derive(Debug)]
pub struct MissingIdempotencyKeyError {
    pub message: String,
}

impl MissingIdempotencyKeyError {
    pub fn new() -> (r: Self)
        ensures
            r.message@ == missing_idempotency_key_text(),
    {
        MissingIdempotencyKeyError {
            message: String::from_str(
                "Missing or invalid Idempotency-Key header. Provide a valid UUID.",
            ),
        }
    }
}

#[derive(Debug)]
pub struct MessageTooLongError {
    pub message: String,
    pub max_length: usize,
}

#[derive(Debug)]
pub struct UserNotFoundInRoomError {
    pub message: String,
    pub user_id: u128,
    pub room_id: u128,
}

#[derive(Debug)]
pub struct RoomNotFoundError {
    pub message: String,
    pub room_id: u128,
}

#[derive(Debug)]
pub struct MessageNotFoundError {
    pub message: String,
    pub message_id: u128,
}

#[derive(Debug)]
pub struct RateLimitedError {
    pub message: String,
    pub max_requests: u32,
}

/// Errors of message operations.
#[derive(Debug)]
pub enum MessageError {
    MessageTooLong(MessageTooLongError),
    UserNotFoundInRoom(UserNotFoundInRoomError),
    RoomNotFound(RoomNotFoundError),
    MessageNotFound(MessageNotFoundError),
    RateLimited(RateLimitedError),
    MissingIdempotencyKey(MissingIdempotencyKeyError),
    InternalError(InternalError),
}

#[derive(Debug)]
pub struct MaxCapacityExceededError {
    pub message: String,
    pub requested_capacity: u32,
}

#[derive(Debug)]
pub struct RoomNotAddedError {
    pub message: String,
}

/// Errors of room operations.
#[derive(Debug)]
pub enum RoomError {
    RoomNotFound(RoomNotFoundError),
    MaxCapacityExceeded(MaxCapacityExceededError),
    RoomNotAdded(RoomNotAddedError),
    MissingIdempotencyKey(MissingIdempotencyKeyError),
    InternalError(InternalError),
}

#[derive(Debug)]
pub struct UserNotFoundError {
    pub message: String,
    pub user_id: u128,
}

#[derive(Debug)]
pub struct UserNotAddedError {
    pub message: String,
    pub name: String,
}

#[derive(Debug)]
pub struct UserAlreadyExistsError {
    pub message: String,
    pub name: String,
}

#[derive(Debug)]
pub struct UserStatusUpdateFailedError {
    pub message: String,
}

#[derive(Debug)]
pub struct UserOrRoomNotFoundError {
    pub message: String,
    pub user_id: u128,
    pub room_id: u128,
}

#[derive(Debug)]
pub struct InvalidStatusError {
    pub message: String,
}

/// Errors of user operations.
#[derive(Debug)]
pub enum UserError {
    UserNotFound(UserNotFoundError),
    RoomNotFound(RoomNotFoundError),
    UserNotAdded(UserNotAddedError),
    UserAlreadyExists(UserAlreadyExistsError),
    UserStatusUpdateFailed(UserStatusUpdateFailedError),
    InvalidStatus(InvalidStatusError),
    MissingIdempotencyKey(MissingIdempotencyKeyError),
    UserOrRoomNotFound(UserOrRoomNotFoundError),
    InternalError(InternalError),
}

/// The message shown when adding the named user failed:
/// `Failed to add user '{name}'`.
pub open spec fn user_not_added_text(name: Seq<char>) -> Seq<char> {
    "Failed to add user '"@ + name + "'"@
}

/// The API error that the service error `err` maps onto.
pub open spec fn message_error_of(err: MessageServiceError, r: MessageError) -> bool {
    match err {
        MessageServiceError::MessageTooLong(max) => r matches MessageError::MessageTooLong(e)
            && e.message@ == message_service_error_text(err) && e.max_length == max,
        MessageServiceError::UserNotFoundInRoom { user_id, room_id } => r matches MessageError::UserNotFoundInRoom(e)
            && e.message@ == message_service_error_text(err) && e.user_id == user_id
            && e.room_id == room_id,
        MessageServiceError::RoomNotFound(id) => r matches MessageError::RoomNotFound(e)
            && e.message@ == message_service_error_text(err) && e.room_id == id,
        MessageServiceError::MessageNotFound(id) => r matches MessageError::MessageNotFound(e)
            && e.message@ == message_service_error_text(err) && e.message_id == id,
        MessageServiceError::RateLimited(max) => r matches MessageError::RateLimited(e)
            && e.message@ == message_service_error_text(err) && e.max_requests == max,
        MessageServiceError::DatabaseError(_) => r matches MessageError::InternalError(e)
            && e.message@ == internal_error_text(),
    }
}

/// The API error that the service error `err` maps onto.
pub open spec fn room_error_of(err: RoomServiceError, r: RoomError) -> bool {
    match err {
        RoomServiceError::RoomNotFound(id) => r matches RoomError::RoomNotFound(e)
            && e.message@ == room_service_error_text(err) && e.room_id == id,
        RoomServiceError::MaxCapacityExceeded(cap) => r matches RoomError::MaxCapacityExceeded(e)
            && e.message@ == room_service_error_text(err) && e.requested_capacity == cap,
        RoomServiceError::RoomNotAdded(_) => r matches RoomError::RoomNotAdded(e)
            && e.message@ == "Failed to add room"@,
        RoomServiceError::DatabaseError(_) => r matches RoomError::InternalError(e)
            && e.message@ == internal_error_text(),
    }
}

/// The API error that the service error `err` maps onto.
pub open spec fn user_error_of(err: UserServiceError, r: UserError) -> bool {
    match err {
        UserServiceError::UserNotFound(id) => r matches UserError::UserNotFound(e)
            && e.message@ == user_service_error_text(err) && e.user_id == id,
        UserServiceError::RoomNotFound(id) => r matches UserError::RoomNotFound(e)
            && e.message@ == user_service_error_text(err) && e.room_id == id,
        UserServiceError::UserAlreadyExists(name) => r matches UserError::UserAlreadyExists(e)
            && e.message@ == user_service_error_text(err) && e.name@ == name@,
        UserServiceError::InvalidStatus(_) => r matches UserError::InvalidStatus(e)
            && e.message@ == user_service_error_text(err),
        UserServiceError::UserNotAdded(name) => r matches UserError::UserNotAdded(e)
            && e.message@ == user_not_added_text(name@) && e.name@ == name@,
        UserServiceError::UserStatusUpdateFailed(_) => r matches UserError::UserStatusUpdateFailed(e)
            && e.message@ == user_service_error_text(err),
        UserServiceError::RoomOrUserNotFound { user_id, room_id } => r matches UserError::UserOrRoomNotFound(e)
            && e.message@ == user_service_error_text(err) && e.user_id == user_id
            && e.room_id == room_id,
        UserServiceError::DatabaseError(_) => r matches UserError::InternalError(e)
            && e.message@ == internal_error_text(),
    }
}

impl MessageError {
    /// Maps a message-service error onto the API error of the same kind,
    /// carrying the service error's message.
    pub fn from(err: MessageServiceError) -> (r: Self)
        ensures
            message_error_of(err, r),
    {
        let message = err.to_string();
        match err {
            MessageServiceError::MessageTooLong(max) => MessageError::MessageTooLong(
                MessageTooLongError { message, max_length: max },
            ),
            MessageServiceError::UserNotFoundInRoom { user_id, room_id } =>
                MessageError::UserNotFoundInRoom(
                UserNotFoundInRoomError { message, user_id, room_id },
            ),
            MessageServiceError::RoomNotFound(id) => MessageError::RoomNotFound(
                RoomNotFoundError { message, room_id: id },
            ),
            MessageServiceError::MessageNotFound(id) => MessageError::MessageNotFound(
                MessageNotFoundError { message, message_id: id },
            ),
            MessageServiceError::RateLimited(max) => MessageError::RateLimited(
                RateLimitedError { message, max_requests: max },
            ),
            MessageServiceError::DatabaseError(_) => MessageError::InternalError(
                InternalError::new(),
            ),
        }
    }
}

impl RoomError {
    /// Maps a room-service error onto the API error of the same kind. The
    /// reason of a failed insert and database errors are not passed on.
    pub fn from(err: RoomServiceError) -> (r: Self)
        ensures
            room_error_of(err, r),
    {
        match err {
            RoomServiceError::RoomNotFound(id) => {
                let message = err.to_string();
                RoomError::RoomNotFound(RoomNotFoundError { message, room_id: id })
            },
            RoomServiceError::MaxCapacityExceeded(cap) => {
                let message = err.to_string();
                RoomError::MaxCapacityExceeded(
                    MaxCapacityExceededError { message, requested_capacity: cap },
                )
            },
            RoomServiceError::RoomNotAdded(_) => RoomError::RoomNotAdded(
                RoomNotAddedError { message: String::from_str("Failed to add room") },
            ),
            RoomServiceError::DatabaseError(_) => RoomError::InternalError(InternalError::new()),
        }
    }
}

impl UserError {
    /// Maps a user-service error onto the API error of the same kind.
    /// Database errors are concealed.
    pub fn from(err: UserServiceError) -> (r: Self)
        ensures
            user_error_of(err, r),
    {
        match err {
            UserServiceError::UserNotFound(id) => {
                let message = err.to_string();
                UserError::UserNotFound(UserNotFoundError { message, user_id: id })
            },
            UserServiceError::RoomNotFound(id) => {
                let message = err.to_string();
                UserError::RoomNotFound(RoomNotFoundError { message, room_id: id })
            },
            UserServiceError::UserAlreadyExists(ref name) => {
                let message = err.to_string();
                UserError::UserAlreadyExists(
                    UserAlreadyExistsError { message, name: name.clone() },
                )
            },
            UserServiceError::InvalidStatus(_) => {
                let message = err.to_string();
                UserError::InvalidStatus(InvalidStatusError { message })
            },
            UserServiceError::UserNotAdded(ref name) => {
                let message = String::from_str("Failed to add user '").concat(name.as_str()).concat(
                    "'",
                );
                UserError::UserNotAdded(UserNotAddedError { message, name: name.clone() })
            },
            UserServiceError::UserStatusUpdateFailed(_) => {
                let message = err.to_string();
                UserError::UserStatusUpdateFailed(UserStatusUpdateFailedError { message })
            },
            UserServiceError::RoomOrUserNotFound { user_id, room_id } => {
                let message = err.to_string();
                UserError::UserOrRoomNotFound(
                    UserOrRoomNotFoundError { message, user_id, room_id },
                )
            },
            UserServiceError::DatabaseError(_) => UserError::InternalError(InternalError::new()),
        }
    }
}

} // verus!
