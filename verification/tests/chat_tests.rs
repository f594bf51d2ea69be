use chat_room::chat_models::{BusEvent, Room, RoomEvent, Status, User, UserEvent};
use chat_room::chat_resolvers::{
    AddMessageResult, AddRoomResult, AddUserResult, ChatsMutation, ChatsQuery, ChatsQueryResult,
    RemoveUserResult, RoomsMutation, RoomsQuery, RoomsSubscription, UsersMutation, UsersQuery,
    UsersSubscription,
};
use chat_room::chat_state::ChatRoomState;

fn user(name: &str, room: Option<&str>) -> User {
    User { name: name.to_string(), status: Status::Online, room: room.map(|r| r.to_string()) }
}

fn names(users: &[User]) -> Vec<String> {
    users.iter().map(|u| u.name.clone()).collect()
}

#[test]
fn initial_state() {
    let s = ChatRoomState::new();
    assert_eq!(names(&s.users), vec!["Alice", "AliceInWonder", "Bob"]);
    assert_eq!(s.users[0].room.as_deref(), Some("General"));
    assert_eq!(s.users[1].room.as_deref(), Some("Anime"));
    assert_eq!(s.users[2].room, None);
    assert_eq!(s.users[2].status, Status::Offline);
    let rooms: Vec<(String, usize)> = s.rooms.iter().map(|r| (r.name.clone(), r.capacity)).collect();
    assert_eq!(
        rooms,
        vec![
            ("General".to_string(), 50),
            ("Random".to_string(), 50),
            ("Tech".to_string(), 100),
            ("Gaming".to_string(), 10),
            ("Anime".to_string(), 5),
        ]
    );
    assert_eq!(s.messages.len(), 2);
    assert_eq!(s.messages[0].content, "bacon v5");
    assert_eq!(s.messages[0].timestamp, "2023-10-01T12:00:00Z");
    assert_eq!(s.messages[1].sender, "Bob");
    assert_ne!(s.messages[0].id, s.messages[1].id);
}

#[test]
fn add_user_in_known_room_publishes_added_and_entered() {
    let mut s = ChatRoomState::new();
    let (r, events) = UsersMutation.add_user(&mut s, user("Carol", Some("Tech")));
    match r {
        AddUserResult::UserAdded(u) => assert_eq!(u.room.as_deref(), Some("Tech")),
        _ => panic!("expected UserAdded"),
    }
    assert_eq!(events.len(), 2);
    assert!(matches!(&events[0], BusEvent::User(UserEvent::UserAdded(u)) if u.name == "Carol"));
    assert!(matches!(&events[1], BusEvent::Room(RoomEvent::UserEntered(r, u)) if r == "Tech" && u.name == "Carol"));
    assert_eq!(names(&s.users), vec!["Alice", "AliceInWonder", "Bob", "Carol"]);
}

#[test]
fn add_user_in_unknown_room_drops_the_room() {
    let mut s = ChatRoomState::new();
    let (r, events) = UsersMutation.add_user(&mut s, user("Dan", Some("Nowhere")));
    match r {
        AddUserResult::UserAdded(u) => assert_eq!(u.room, None),
        _ => panic!("expected UserAdded"),
    }
    assert_eq!(events.len(), 1);
    assert_eq!(s.users[3].room, None);
}

#[test]
fn add_user_with_taken_name_is_refused() {
    let mut s = ChatRoomState::new();
    let (r, events) = UsersMutation.add_user(&mut s, user("Bob", None));
    match r {
        AddUserResult::UserAlreadyExists(e) => assert_eq!(e.user_name, "Bob"),
        _ => panic!("expected UserAlreadyExists"),
    }
    assert!(events.is_empty());
    assert_eq!(s.users.len(), 3);
}

#[test]
fn remove_user_publishes_left_for_users_in_rooms() {
    let mut s = ChatRoomState::new();
    let (r, events) = UsersMutation.remove_user(&mut s, "Alice".to_string());
    match r {
        RemoveUserResult::UserRemoved(u) => assert_eq!(u.name, "Alice"),
        _ => panic!("expected UserRemoved"),
    }
    assert!(matches!(&events[0], BusEvent::Room(RoomEvent::UserLeft(r, u)) if r == "General" && u.name == "Alice"));
    assert_eq!(names(&s.users), vec!["AliceInWonder", "Bob"]);
    let (_, events) = UsersMutation.remove_user(&mut s, "Bob".to_string());
    assert!(events.is_empty());
}

#[test]
fn remove_unknown_user() {
    let mut s = ChatRoomState::new();
    match UsersMutation.remove_user(&mut s, "Zed".to_string()).0 {
        RemoveUserResult::UserNotFound(e) => assert_eq!(e.name, "Zed"),
        _ => panic!("expected UserNotFound"),
    }
    assert_eq!(s.users.len(), 3);
}

#[test]
fn remove_undoes_add() {
    let mut s = ChatRoomState::new();
    let before = names(&s.users);
    UsersMutation.add_user(&mut s, user("Eve", Some("Gaming")));
    UsersMutation.remove_user(&mut s, "Eve".to_string());
    assert_eq!(names(&s.users), before);
}

#[test]
fn add_room_and_duplicate() {
    let mut s = ChatRoomState::new();
    let (r, events) = RoomsMutation.add_room(&mut s, Room { name: "Music".to_string(), capacity: 20 });
    assert!(matches!(r, AddRoomResult::RoomAdded(ref room) if room.name == "Music" && room.capacity == 20));
    assert!(matches!(&events[0], BusEvent::Room(RoomEvent::RoomAdded(room)) if room.name == "Music"));
    let (r, events) = RoomsMutation.add_room(&mut s, Room { name: "Music".to_string(), capacity: 3 });
    assert!(matches!(r, AddRoomResult::RoomAlreadyExists(ref e) if e.room_name == "Music"));
    assert!(events.is_empty());
    assert_eq!(RoomsQuery.rooms(&s).len(), 6);
}

#[test]
fn add_message_checks_room_then_user() {
    let mut s = ChatRoomState::new();
    let r = ChatsMutation.add_message(&mut s, "hi".into(), "Nobody".into(), "Nowhere".into());
    assert!(matches!(r, AddMessageResult::RoomNotFound(ref e) if e.room_name == "Nowhere"));
    let r = ChatsMutation.add_message(&mut s, "hi".into(), "Nobody".into(), "Tech".into());
    assert!(matches!(r, AddMessageResult::UserNotFound(ref e) if e.name == "Nobody"));
    assert_eq!(s.messages.len(), 2);
    let r = ChatsMutation.add_message(&mut s, "hi".into(), "Bob".into(), "Tech".into());
    let id = match r {
        AddMessageResult::Message(m) => {
            assert_eq!(m.content, "hi");
            assert_eq!(m.room_name, "Tech");
            assert!(!m.timestamp.is_empty());
            m.id
        }
        _ => panic!("expected Message"),
    };
    assert_eq!(s.messages.len(), 3);
    match ChatsQuery.message_by_id(&s, id) {
        ChatsQueryResult::Message(m) => assert_eq!(m.sender, "Bob"),
        _ => panic!("message should be found"),
    }
}

#[test]
fn message_queries() {
    let s = ChatRoomState::new();
    assert_eq!(ChatsQuery.messages(&s).len(), 2);
    let by_bob = ChatsQuery.messages_by_user(&s, "Bob".to_string());
    assert_eq!(by_bob.len(), 1);
    assert_eq!(by_bob[0].content, "Bob said: How's it going?");
    match ChatsQuery.message_by_id(&s, 12345) {
        ChatsQueryResult::Error(e) => assert_eq!(e.id, 12345),
        _ => panic!("no such message"),
    }
    assert_eq!(s.users[0].messages(&s).len(), 1);
    assert_eq!(UsersQuery.users(&s).len(), 3);
}

#[test]
fn room_fields() {
    let s = ChatRoomState::new();
    let general = s.rooms[0].clone();
    assert_eq!(names(&general.users(&s)), vec!["Alice"]);
    assert_eq!(general.messages(&s).len(), 2);
    assert!(s.rooms[2].users(&s).is_empty());
    assert_eq!(s.messages[0].room(&s).name, "General");
    let mut orphan = s.messages[0].clone();
    orphan.room_name = "Gone".to_string();
    let r = orphan.room(&s);
    assert_eq!(r.name, "");
    assert_eq!(r.capacity, 0);
}

#[test]
fn chat_subscription_filters() {
    let u = user("Ann", Some("Tech"));
    assert_eq!(UsersSubscription.user_added(&UserEvent::UserAdded(u.clone())).map(|u| u.name), Some("Ann".to_string()));
    assert!(UsersSubscription.user_added(&UserEvent::UserRemoved("Ann".into())).is_none());
    assert_eq!(UsersSubscription.user_removed(&UserEvent::UserRemoved("Ann".into())), Some("Ann".to_string()));
    let entered = RoomEvent::UserEntered("Tech".into(), u.clone());
    assert!(RoomsSubscription.user_entered(&entered, &"Tech".to_string()).is_some());
    assert!(RoomsSubscription.user_entered(&entered, &"General".to_string()).is_none());
    assert!(RoomsSubscription.user_left(&entered, &"Tech".to_string()).is_none());
    let left = RoomEvent::UserLeft("Tech".into(), u);
    assert!(RoomsSubscription.user_left(&left, &"Tech".to_string()).is_some());
    let added = RoomEvent::RoomAdded(Room { name: "X".into(), capacity: 1 });
    assert_eq!(RoomsSubscription.room_added(&added).map(|r| r.name), Some("X".to_string()));
    assert!(RoomsSubscription.room_added(&left_event()).is_none());
}

fn left_event() -> RoomEvent {
    RoomEvent::RoomRemoved("X".into())
}

#[test]
fn add_message_at_keeps_the_given_id_and_time() {
    let mut s = ChatRoomState::new();
    let r = ChatsMutation.add_message_at(
        &mut s,
        "hello".into(),
        "Bob".into(),
        "Tech".into(),
        42,
        "2024-01-02T03:04:05+00:00".into(),
    );
    match r {
        AddMessageResult::Message(m) => {
            assert_eq!(m.id, 42);
            assert_eq!(m.timestamp, "2024-01-02T03:04:05+00:00");
            assert_eq!(m.content, "hello");
        }
        _ => panic!("expected a message"),
    }
    assert_eq!(s.messages.len(), 3);
    assert_eq!(s.messages[2].id, 42);
}
