use chat_room::api_errors::{MessageError, RoomError, UserError};
use chat_room::api_resolvers::{
    CreateRoomResult, CreateUserResult, DeleteMessageResult, GetRoomResult, MessageListResult,
    MessageMutation, MessagePageResult, MessageQuery, MessageSubscription, PresenceChange,
    RoomMutation, RoomQuery, RoomSubscription, SendMessageResult, SetPresenceResult,
    SetTypingResult, UserMutation, UserQuery, UserSubscription, UserListResult,
};
use chat_room::api_types::{IdempotencyHeader, UserStatus};
use chat_room::domain::{
    CursorPage, Message, MessageEvent, ParseUserStatusError, Room, RoomEvent, Status, Timestamp,
    TypingEvent, User, UserEvent,
};
use chat_room::service_errors::{MessageServiceError, RoomServiceError, UserServiceError};

const KEY_TEXT: &str = "550e8400-e29b-41d4-a716-446655440000";
const KEY: u128 = 0x550e8400e29b41d4a716446655440000;

fn msg(id: u128, room: u128) -> Message {
    Message { id, created_at: Timestamp { secs: 0, nanos: 0 }, content: "c".into(), sender: 1, room }
}

fn room() -> Room {
    Room { id: 7, name: "General".into(), description: None, capacity: 100 }
}

fn user() -> User {
    User { id: 5, name: "ann".into(), status: Some(Status::Away), room: Some(7), last_seen: None }
}

#[test]
fn idempotency_header_parsing() {
    assert_eq!(IdempotencyHeader::from_header(Some(KEY_TEXT)).0, Some(KEY));
    assert_eq!(IdempotencyHeader::from_header(Some("nope")).0, None);
    assert_eq!(IdempotencyHeader::from_header(None).0, None);
}

#[test]
fn creating_mutations_need_a_key() {
    assert!(matches!(
        MessageMutation.send_message_key(IdempotencyHeader(None)),
        Err(SendMessageResult::Error(MessageError::MissingIdempotencyKey(_)))
    ));
    assert_eq!(MessageMutation.send_message_key(IdempotencyHeader(Some(KEY))).ok(), Some(KEY));
    assert!(matches!(
        RoomMutation.create_room_key(IdempotencyHeader(None)),
        Err(CreateRoomResult::Error(RoomError::MissingIdempotencyKey(_)))
    ));
    assert!(matches!(
        UserMutation.create_user_key(IdempotencyHeader(None)),
        Err(CreateUserResult::Error(UserError::MissingIdempotencyKey(e))) if e.message.starts_with("Missing")
    ));
    assert_eq!(UserMutation.create_user_key(IdempotencyHeader(Some(3))).ok(), Some(3));
}

#[test]
fn message_error_mapping() {
    match MessageError::from(MessageServiceError::MessageTooLong(2000)) {
        MessageError::MessageTooLong(e) => {
            assert_eq!(e.max_length, 2000);
            assert_eq!(e.message, "Message too long. Maximum length is 2000 characters.");
        }
        _ => panic!("expected MessageTooLong"),
    }
    match MessageError::from(MessageServiceError::RateLimited(5)) {
        MessageError::RateLimited(e) => assert_eq!(e.max_requests, 5),
        _ => panic!("expected RateLimited"),
    }
    match MessageError::from(MessageServiceError::DatabaseError("secret".into())) {
        MessageError::InternalError(e) => assert_eq!(e.message, "Internal server error"),
        _ => panic!("database errors are concealed"),
    }
    match MessageError::from(MessageServiceError::UserNotFoundInRoom { user_id: 1, room_id: 2 }) {
        MessageError::UserNotFoundInRoom(e) => assert_eq!((e.user_id, e.room_id), (1, 2)),
        _ => panic!("expected UserNotFoundInRoom"),
    }
}

#[test]
fn room_error_mapping() {
    match RoomError::from(RoomServiceError::RoomNotAdded("sql detail".into())) {
        RoomError::RoomNotAdded(e) => assert_eq!(e.message, "Failed to add room"),
        _ => panic!("expected RoomNotAdded"),
    }
    match RoomError::from(RoomServiceError::MaxCapacityExceeded(2000)) {
        RoomError::MaxCapacityExceeded(e) => {
            assert_eq!(e.requested_capacity, 2000);
            assert_eq!(e.message, "Max Room capacity exceeded: 2000");
        }
        _ => panic!("expected MaxCapacityExceeded"),
    }
    assert!(matches!(RoomError::from(RoomServiceError::DatabaseError("x".into())), RoomError::InternalError(_)));
}

#[test]
fn user_error_mapping() {
    match UserError::from(UserServiceError::UserNotAdded("bob".into())) {
        UserError::UserNotAdded(e) => {
            assert_eq!(e.message, "Failed to add user 'bob'");
            assert_eq!(e.name, "bob");
        }
        _ => panic!("expected UserNotAdded"),
    }
    match UserError::from(UserServiceError::UserAlreadyExists("bob".into())) {
        UserError::UserAlreadyExists(e) => assert_eq!(e.message, "User already exists with name: bob"),
        _ => panic!("expected UserAlreadyExists"),
    }
    match UserError::from(UserServiceError::InvalidStatus(ParseUserStatusError::InvalidStatus("q".into()))) {
        UserError::InvalidStatus(e) => assert_eq!(e.message, "invalid user status: q"),
        _ => panic!("expected InvalidStatus"),
    }
    match UserError::from(UserServiceError::RoomOrUserNotFound { user_id: 1, room_id: 2 }) {
        UserError::UserOrRoomNotFound(e) => assert_eq!((e.user_id, e.room_id), (1, 2)),
        _ => panic!("expected UserOrRoomNotFound"),
    }
    assert!(matches!(UserError::from(UserServiceError::DatabaseError("x".into())), UserError::InternalError(_)));
    assert!(matches!(UserError::from(UserServiceError::UserStatusUpdateFailed("x".into())), UserError::UserStatusUpdateFailed(_)));
}

#[test]
fn query_results() {
    match MessageQuery.messages(Ok(vec![msg(1, 7), msg(2, 7)])) {
        MessageListResult::Messages(l) => assert_eq!(l.items.len(), 2),
        _ => panic!("expected messages"),
    }
    assert!(matches!(
        MessageQuery.messages(Err(MessageServiceError::RoomNotFound(7))),
        MessageListResult::Error(MessageError::RoomNotFound(_))
    ));
    let page = CursorPage { items: vec![msg(3, 7)], next_cursor: Some(3), has_next_page: true };
    match MessageQuery.messages_paginated(Ok(page)) {
        MessagePageResult::Page(p) => {
            assert_eq!(p.items[0].id, 3);
            assert_eq!(p.next_cursor, Some(3));
            assert!(p.has_next_page);
        }
        _ => panic!("expected page"),
    }
    match RoomQuery.room(Ok(room())) {
        GetRoomResult::Room(r) => assert_eq!((r.id, r.capacity), (7, 100)),
        _ => panic!("expected room"),
    }
    match UserQuery.users_in_room(Ok(vec![user()])) {
        UserListResult::Users(l) => assert_eq!(l.items[0].status, Some(UserStatus::Away)),
        _ => panic!("expected users"),
    }
}

#[test]
fn mutation_results() {
    assert!(matches!(MessageMutation.send_message(Ok(msg(4, 7))), SendMessageResult::Message(ref m) if m.id == 4));
    assert!(matches!(MessageMutation.delete_message(Ok(4)), DeleteMessageResult::Success(s) if s.id == 4));
    assert!(matches!(RoomMutation.create_room(Ok(room())), CreateRoomResult::Room(ref r) if r.name == "General"));
    assert!(matches!(RoomMutation.set_typing(Ok(())), SetTypingResult::Success(s) if s.ok));
    assert!(matches!(UserMutation.create_user(Ok(user())), CreateUserResult::User(ref u) if u.name == "ann"));
    assert_eq!(UserMutation.presence_change(true), PresenceChange::Join);
    assert_eq!(UserMutation.presence_change(false), PresenceChange::Leave);
    assert!(matches!(
        UserMutation.set_presence(Err(UserServiceError::RoomOrUserNotFound { user_id: 1, room_id: 2 })),
        SetPresenceResult::Error(UserError::UserOrRoomNotFound(_))
    ));
}

#[test]
fn api_subscription_filters() {
    let sent = MessageEvent::Sent(msg(1, 7));
    assert!(MessageSubscription.message_sent(&sent, 7).is_some());
    assert!(MessageSubscription.message_sent(&sent, 8).is_none());
    assert!(MessageSubscription.message_edited(&sent, 7).is_none());
    let deleted = MessageEvent::Deleted { message_id: 1, room_id: 7 };
    assert_eq!(MessageSubscription.message_deleted(&deleted, 7), Some(1));
    assert_eq!(MessageSubscription.message_deleted(&deleted, 9), None);
    assert_eq!(RoomSubscription.room_added(&RoomEvent::Added(room())).map(|r| r.id), Some(7));
    assert!(RoomSubscription.room_added(&RoomEvent::Removed(7)).is_none());
    let typing = RoomEvent::UserTyping(TypingEvent {
        user_id: 1,
        room_id: 7,
        is_typing: true,
        timestamp: Timestamp { secs: 1, nanos: 0 },
    });
    assert!(RoomSubscription.user_typing(&typing, 7).is_some());
    assert!(RoomSubscription.user_typing(&typing, 8).is_none());
    let changed = UserEvent::StatusChanged { user_id: 1, status: Status::Offline };
    assert_eq!(UserSubscription.user_status_changed(&changed).map(|c| c.status), Some(UserStatus::Offline));
    assert!(UserSubscription.user_status_changed(&UserEvent::Removed(1)).is_none());
}

#[test]
fn status_conversions() {
    for s in [Status::Online, Status::Offline, Status::Away] {
        assert_eq!(Status::from(UserStatus::from(s)), s);
    }
}

#[test]
fn entered_and_left_streams_filter_by_room() {
    let entered = RoomEvent::UserEntered { room_id: 7, user_id: 3 };
    let left = RoomEvent::UserLeft { room_id: 7, user_id: 3 };
    let e = RoomSubscription.user_entered(&entered, 7).unwrap();
    assert_eq!((e.room_id, e.user_id), (7, 3));
    assert!(RoomSubscription.user_entered(&entered, 8).is_none());
    assert!(RoomSubscription.user_entered(&left, 7).is_none());
    let l = RoomSubscription.user_left(&left, 7).unwrap();
    assert_eq!((l.room_id, l.user_id), (7, 3));
    assert!(RoomSubscription.user_left(&left, 8).is_none());
    assert!(RoomSubscription.user_left(&entered, 7).is_none());
}
