use chat_room::config::RoomConfig;
use chat_room::domain::{Message, MessageEvent, Room, RoomEvent, Status, Timestamp, UserEvent};
use chat_room::records::{
    EntityToDomain, MessageContext, MessageRecord, MessageRow, RoomParam, RoomRecord,
    TryEntityToDomain, UserRecord, UserRow,
};
use chat_room::service_errors::{MessageServiceError, RoomServiceError, UserServiceError};
use chat_room::service_rules::{
    apply_room_update, check_message_length, check_user_name, join_room_after_check, join_room_after_update,
    left_room, message_delete_target, message_deleted_event, message_lookup, message_sent_event, new_message_record, new_room_record,
    new_user_record, plan_room_update, rate_limit_check, records_last_seen, room_added_event,
    room_deleted, room_lookup, status_updated, typing_action, typing_event, user_created_event,
    user_deleted, user_insert_error, user_lookup, JoinRoomStep, RoomUpdate, RoomUpdatePlan,
    TypingAction,
};

fn room_record() -> RoomRecord {
    RoomRecord {
        id: 3,
        public_id: 77,
        name: "General".to_string(),
        description: Some("talk".to_string()),
        capacity: 100,
    }
}

#[test]
fn message_length_is_counted_in_characters() {
    assert!(check_message_length("hello", 5).is_ok());
    assert!(matches!(
        check_message_length("hello!", 5),
        Err(MessageServiceError::MessageTooLong(5))
    ));
    // Five characters, more than five bytes.
    assert!(check_message_length("héllö", 5).is_ok());
    assert!(check_message_length("", 0).is_ok());
}

#[test]
fn message_needs_sender_in_room() {
    match new_message_record("hi", None, 1, 2) {
        Err(MessageServiceError::UserNotFoundInRoom { user_id, room_id }) => {
            assert_eq!((user_id, room_id), (1, 2))
        }
        _ => panic!("expected UserNotFoundInRoom"),
    }
    let m = new_message_record("hi", Some((10, 20)), 1, 2).unwrap();
    assert_eq!((m.content.as_str(), m.sender, m.room), ("hi", 10, 20));
}

#[test]
fn message_lookups() {
    assert!(matches!(message_lookup(None, 9), Err(MessageServiceError::MessageNotFound(9))));
    let row = MessageRow {
        id: 9,
        created_at: Timestamp { secs: 1, nanos: 2 },
        content: "x".to_string(),
        sender: 4,
        room: 5,
    };
    let m = message_lookup(Some(row), 9).unwrap();
    assert_eq!((m.id, m.sender, m.room), (9, 4, 5));
    assert!(matches!(message_delete_target(None, 8), Err(MessageServiceError::MessageNotFound(8))));
    assert_eq!(message_delete_target(Some((3, 77)), 8).unwrap(), (3, 77));
}

#[test]
fn new_room_capacity_rules() {
    let cfg = RoomConfig::default();
    let r = new_room_record("a".to_string(), None, &cfg).unwrap();
    assert_eq!(r.capacity, 100);
    assert_eq!(r.description, None);
    let r = new_room_record("a".to_string(), Some(1000), &cfg).unwrap();
    assert_eq!(r.capacity, 1000);
    assert!(matches!(
        new_room_record("a".to_string(), Some(1001), &cfg),
        Err(RoomServiceError::MaxCapacityExceeded(1001))
    ));
}

#[test]
fn room_rows_to_domain() {
    let room = room_record().entity_to_domain(());
    assert_eq!((room.id, room.name.as_str(), room.capacity), (77, "General", 100));
    assert!(matches!(room_lookup(None, 5), Err(RoomServiceError::RoomNotFound(5))));
    assert_eq!(room_lookup(Some(room_record()), 77).unwrap().description.as_deref(), Some("talk"));
    let ev = room_added_event(&room);
    assert!(matches!(ev, RoomEvent::Added(ref r) if r.id == 77));
}

#[test]
fn room_update_rules() {
    let cfg = RoomConfig::default();
    let empty = RoomUpdate { name: None, description: None, capacity: None };
    assert_eq!(plan_room_update(&empty, &cfg).unwrap(), RoomUpdatePlan::ReturnCurrent);
    let too_big = RoomUpdate { name: None, description: None, capacity: Some(5000) };
    assert!(matches!(
        plan_room_update(&too_big, &cfg),
        Err(RoomServiceError::MaxCapacityExceeded(5000))
    ));
    let rename = RoomUpdate { name: Some("Lobby".to_string()), description: Some(None), capacity: Some(10) };
    assert_eq!(plan_room_update(&rename, &cfg).unwrap(), RoomUpdatePlan::Apply);
    let updated = apply_room_update(Some(room_record()), 77, rename).unwrap();
    assert_eq!(updated.name, "Lobby");
    assert_eq!(updated.description, None);
    assert_eq!(updated.capacity, 10);
    assert_eq!(updated.public_id, 77);
    let keep = RoomUpdate { name: None, description: None, capacity: Some(7) };
    let updated = apply_room_update(Some(room_record()), 77, keep).unwrap();
    assert_eq!(updated.name, "General");
    assert_eq!(updated.description.as_deref(), Some("talk"));
    let missing = RoomUpdate { name: None, description: None, capacity: Some(7) };
    assert!(matches!(apply_room_update(None, 77, missing), Err(RoomServiceError::RoomNotFound(77))));
}

#[test]
fn delete_outcomes() {
    assert!(matches!(room_deleted(0, 4), Err(RoomServiceError::RoomNotFound(4))));
    assert!(matches!(room_deleted(1, 4), Ok((4, RoomEvent::Removed(4)))));
    assert!(matches!(user_deleted(0, 4), Err(UserServiceError::UserNotFound(4))));
    assert_eq!(user_deleted(2, 4).unwrap(), 4);
}

#[test]
fn typing_debounce() {
    assert_eq!(typing_action(true, false), TypingAction::SetGuardAndPublish);
    assert_eq!(typing_action(true, true), TypingAction::Debounced);
    assert_eq!(typing_action(false, true), TypingAction::ClearGuardAndPublish);
    assert_eq!(typing_action(false, false), TypingAction::ClearGuardAndPublish);
    let ts = Timestamp { secs: 5, nanos: 6 };
    match typing_event(1, 2, true, ts) {
        RoomEvent::UserTyping(t) => {
            assert_eq!((t.room_id, t.user_id, t.is_typing, t.timestamp), (1, 2, true, ts))
        }
        _ => panic!("expected UserTyping"),
    }
}

#[test]
fn new_users() {
    let u = new_user_record("ann".to_string(), &Some(room_record()));
    assert_eq!(u.status.as_deref(), Some("online"));
    assert_eq!(u.room, Some(3));
    assert_eq!(u.last_seen_at, None);
    assert_eq!(new_user_record("bo".to_string(), &None).room, None);
    assert!(matches!(user_insert_error(true, &"ann".to_string()), UserServiceError::UserAlreadyExists(ref n) if n == "ann"));
    assert!(matches!(user_insert_error(false, &"ann".to_string()), UserServiceError::UserNotAdded(ref n) if n == "ann"));
    assert!(matches!(user_created_event(&Some(room_record()), 1), Some(RoomEvent::UserEntered { room_id: 77, user_id: 1 })));
    assert!(user_created_event(&None, 1).is_none());
}

#[test]
fn user_in_missing_room_enters_nothing() {
    // A requested room that was not found gives a user without a room and no event.
    let u = new_user_record("ann".to_string(), &None);
    assert_eq!(u.room, None);
    assert!(user_created_event(&None, 5).is_none());
}

#[test]
fn taken_user_name_is_refused() {
    assert!(matches!(check_user_name(true, &"ann".to_string()), Err(UserServiceError::UserAlreadyExists(ref n)) if n == "ann"));
    assert!(check_user_name(false, &"ann".to_string()).is_ok());
}

#[test]
fn user_rows_to_domain() {
    let rec = UserRecord {
        id: 1,
        public_id: 50,
        name: "ann".to_string(),
        status: Some("away".to_string()),
        room: Some(3),
        last_seen_at: None,
    };
    let u = rec.try_entity_to_domain(Some(RoomParam::Entity(room_record()))).unwrap();
    assert_eq!((u.id, u.status, u.room), (50, Some(Status::Away), Some(77)));
    let bad = UserRecord {
        id: 1,
        public_id: 50,
        name: "ann".to_string(),
        status: Some("gone".to_string()),
        room: None,
        last_seen_at: None,
    };
    assert!(bad.try_entity_to_domain(Some(RoomParam::PublicId(8))).is_err());
    let row = UserRow { id: 50, name: "ann".to_string(), status: Some("gone".to_string()), room: Some(8), last_seen: None };
    let u = chat_room::domain::User::from(row);
    assert_eq!((u.status, u.room), (None, Some(8)));
    assert!(matches!(user_lookup(None, 50), Err(UserServiceError::UserNotFound(50))));
    let row = UserRow { id: 50, name: "ann".to_string(), status: Some("online".to_string()), room: None, last_seen: None };
    assert_eq!(user_lookup(Some(row), 50).unwrap().status, Some(Status::Online));
}

#[test]
fn message_rows_to_domain() {
    let rec = MessageRecord {
        id: 1,
        public_id: 99,
        created_at: Timestamp { secs: 1, nanos: 0 },
        content: "yo".to_string(),
        sender: 4,
        room: 5,
    };
    let m: Message = rec.entity_to_domain(MessageContext { user_id: 40, room_id: 50 });
    assert_eq!((m.id, m.sender, m.room, m.content.as_str()), (99, 40, 50, "yo"));
    let _unused: Option<Room> = None;
}

#[test]
fn status_updates() {
    assert!(records_last_seen(Status::Offline));
    assert!(records_last_seen(Status::Away));
    assert!(!records_last_seen(Status::Online));
    assert!(matches!(status_updated(0, 3, Status::Away), Err(UserServiceError::UserNotFound(3))));
    assert!(matches!(
        status_updated(1, 3, Status::Away),
        Ok(UserEvent::StatusChanged { user_id: 3, status: Status::Away })
    ));
}

#[test]
fn room_membership_outcomes() {
    assert!(matches!(left_room(0, 1, 2), Err(UserServiceError::UserNotFound(1))));
    assert!(matches!(left_room(1, 1, 2), Ok(RoomEvent::UserLeft { room_id: 2, user_id: 1 })));
    assert_eq!(join_room_after_update(1, 1, 2), JoinRoomStep::Joined { room_id: 2, user_id: 1 });
    assert_eq!(join_room_after_update(0, 1, 2), JoinRoomStep::CheckMembership);
    assert!(join_room_after_check(true, 1, 2).is_ok());
    assert!(matches!(
        join_room_after_check(false, 1, 2),
        Err(UserServiceError::RoomOrUserNotFound { user_id: 1, room_id: 2 })
    ));
}

#[test]
fn rate_limit_allows_max_requests_per_window() {
    let mut count = 0u32;
    let mut allowed = Vec::new();
    for _ in 0..8 {
        let (next, r) = rate_limit_check(count, 5);
        allowed.push(r.is_ok());
        count = next;
    }
    assert_eq!(allowed, vec![true, true, true, true, true, false, false, false]);
    assert_eq!(count, 8);
    assert_eq!(rate_limit_check(u32::MAX, 5), (0, Err(())));
}

#[test]
fn joining_twice_changes_nothing_the_second_time() {
    // First join: the update changed the user's row, so the user joined.
    assert_eq!(join_room_after_update(1, 1, 2), JoinRoomStep::Joined { room_id: 2, user_id: 1 });
    // Second join: the update changes nothing and the user is already in.
    assert_eq!(join_room_after_update(0, 1, 2), JoinRoomStep::CheckMembership);
    assert!(join_room_after_check(true, 1, 2).is_ok());
}

#[test]
fn message_events() {
    let m = Message {
        id: 5,
        created_at: Timestamp { secs: 1, nanos: 0 },
        content: "hi".into(),
        sender: 1,
        room: 2,
    };
    assert!(matches!(message_sent_event(&m), MessageEvent::Sent(ref x) if x.id == 5 && x.room == 2));
    assert!(matches!(message_deleted_event(5, 2), MessageEvent::Deleted { message_id: 5, room_id: 2 }));
}
