use chat_room::api_errors::{InternalError, MissingIdempotencyKeyError};
use chat_room::domain::{ParseUserStatusError, Status};
use chat_room::ids::{new_v4_id, parse_uuid, uuid_text};
use chat_room::service_errors::{MessageServiceError, RoomServiceError, UserServiceError};
use chat_room::text::{decimal, str_eq};

const ID: u128 = 0xa1a2a3a4b1b2c1c2d1d2d3d4d5d6d7d8;
const ID_TEXT: &str = "a1a2a3a4-b1b2-c1c2-d1d2-d3d4d5d6d7d8";

#[test]
fn status_text_and_parse() {
    assert_eq!(Status::Online.fmt(), "online");
    assert_eq!(Status::Offline.fmt(), "offline");
    assert_eq!(Status::Away.as_str(), "away");
    assert_eq!(Status::from_str("online").unwrap(), Status::Online);
    assert_eq!(Status::from_str("offline").unwrap(), Status::Offline);
    assert_eq!(Status::from_str("away").unwrap(), Status::Away);
}

#[test]
fn status_round_trip() {
    for s in [Status::Online, Status::Offline, Status::Away] {
        assert_eq!(Status::from_str(s.as_str()).unwrap(), s);
    }
}

#[test]
fn status_parse_rejects_unknown_text() {
    match Status::from_str("busy") {
        Err(ParseUserStatusError::InvalidStatus(t)) => assert_eq!(t, "busy"),
        Ok(_) => panic!("busy is no status"),
    }
    assert!(Status::from_str("Online").is_err());
    assert!(Status::from_str("").is_err());
    let e = Status::from_str("busy").unwrap_err();
    assert_eq!(e.message(), "invalid user status: busy");
}

#[test]
fn text_helpers() {
    assert!(str_eq("abc", "abc"));
    assert!(!str_eq("abc", "abd"));
    assert!(!str_eq("abc", "ab"));
    assert!(str_eq("", ""));
    assert_eq!(decimal(0), "0");
    assert_eq!(decimal(7), "7");
    assert_eq!(decimal(2000), "2000");
    assert_eq!(decimal(u64::MAX), u64::MAX.to_string());
}

#[test]
fn uuid_text_and_parse() {
    assert_eq!(uuid_text(ID), ID_TEXT);
    assert_eq!(uuid_text(0), "00000000-0000-0000-0000-000000000000");
    assert_eq!(parse_uuid(ID_TEXT), Some(ID));
    assert_eq!(parse_uuid("a1a2a3a4b1b2c1c2d1d2d3d4d5d6d7d8"), Some(ID));
    assert_eq!(parse_uuid("not a uuid"), None);
    assert_eq!(parse_uuid(""), None);
}

#[test]
fn random_ids_are_version_4() {
    let a = new_v4_id();
    let b = new_v4_id();
    assert_ne!(a, b);
    let mask: u128 = 0x0000_0000_0000_f000_c000_0000_0000_0000;
    let fixed: u128 = 0x0000_0000_0000_4000_8000_0000_0000_0000;
    assert_eq!(a & mask, fixed);
    assert_eq!(b & mask, fixed);
}

#[test]
fn message_service_error_messages() {
    assert_eq!(
        MessageServiceError::MessageTooLong(2000).to_string(),
        "Message too long. Maximum length is 2000 characters."
    );
    assert_eq!(
        MessageServiceError::UserNotFoundInRoom { user_id: ID, room_id: 0 }.to_string(),
        format!("User with id {ID_TEXT} not found in room with id 00000000-0000-0000-0000-000000000000")
    );
    assert_eq!(
        MessageServiceError::RoomNotFound(ID).to_string(),
        format!("Room with id {ID_TEXT} not found")
    );
    assert_eq!(
        MessageServiceError::MessageNotFound(ID).to_string(),
        format!("Message with id {ID_TEXT} not found")
    );
    assert_eq!(
        MessageServiceError::RateLimited(5).to_string(),
        "Rate limit exceeded. Maximum 5 requests per window."
    );
    assert_eq!(
        MessageServiceError::DatabaseError("disk full".to_string()).to_string(),
        "Database error in MessageService: disk full"
    );
}

#[test]
fn room_service_error_messages() {
    assert_eq!(
        RoomServiceError::RoomNotFound(ID).to_string(),
        format!("Room not found with id: {ID_TEXT}")
    );
    assert_eq!(
        RoomServiceError::RoomNotAdded("constraint".to_string()).to_string(),
        "Failed to add room: constraint"
    );
    assert_eq!(
        RoomServiceError::MaxCapacityExceeded(1001).to_string(),
        "Max Room capacity exceeded: 1001"
    );
    assert_eq!(RoomServiceError::DatabaseError("x".to_string()).to_string(), "Database error: x");
}

#[test]
fn user_service_error_messages() {
    assert_eq!(
        UserServiceError::UserNotAdded("ann".to_string()).to_string(),
        "Failed to add user: ann"
    );
    assert_eq!(
        UserServiceError::UserNotFound(ID).to_string(),
        format!("User not found with id: {ID_TEXT}")
    );
    assert_eq!(
        UserServiceError::RoomNotFound(ID).to_string(),
        format!("Room not found with id: {ID_TEXT}")
    );
    assert_eq!(
        UserServiceError::RoomOrUserNotFound { user_id: ID, room_id: ID }.to_string(),
        format!("User {ID_TEXT} or room {ID_TEXT} not found")
    );
    assert_eq!(
        UserServiceError::UserStatusUpdateFailed("away".to_string()).to_string(),
        "Failed to update user status to: away"
    );
    assert_eq!(
        UserServiceError::UserAlreadyExists("ann".to_string()).to_string(),
        "User already exists with name: ann"
    );
    assert_eq!(
        UserServiceError::InvalidStatus(ParseUserStatusError::InvalidStatus("zz".to_string()))
            .to_string(),
        "invalid user status: zz"
    );
    assert_eq!(UserServiceError::DatabaseError("x".to_string()).to_string(), "Database error: x");
}

#[test]
fn fixed_api_error_messages() {
    assert_eq!(InternalError::new().message, "Internal server error");
    assert_eq!(
        MissingIdempotencyKeyError::new().message,
        "Missing or invalid Idempotency-Key header. Provide a valid UUID."
    );
}
