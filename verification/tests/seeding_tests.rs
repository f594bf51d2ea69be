use chat_room::seeding::{seed_messages, seed_rooms, seed_users};

#[test]
fn seeded_rooms_and_users() {
    let rooms = seed_rooms();
    assert_eq!(rooms.len(), 2);
    assert_eq!(rooms[0].name, "General");
    assert_eq!(rooms[0].description.as_deref(), Some("General discussion room"));
    assert_eq!(rooms[0].capacity, 100);
    assert_eq!(rooms[1].name, "Tech");
    assert_eq!(rooms[1].capacity, 50);
    assert_ne!(rooms[0].public_id, rooms[1].public_id);
    let users = seed_users();
    assert_eq!(users[0].name, "seeder_alice");
    assert_eq!(users[0].status.as_deref(), Some("online"));
    assert_eq!(users[1].name, "seeder_bob");
    assert_eq!(users[1].status.as_deref(), Some("offline"));
    assert!(users.iter().all(|u| u.room.is_none()));
}

#[test]
fn seeded_messages() {
    assert!(seed_messages(&vec![1], &vec![1, 2]).is_none());
    assert!(seed_messages(&vec![1, 2], &vec![]).is_none());
    let m = seed_messages(&vec![10, 11, 12], &vec![20, 21]).unwrap();
    assert_eq!(m.len(), 2);
    assert_eq!(m[0].content, "Hello from seeder message 1");
    assert_eq!(m[1].content, "Hello from seeder message 2");
    assert_eq!((m[0].sender, m[0].room), (10, 20));
    assert_eq!((m[1].sender, m[1].room), (11, 21));
    let mask: u128 = 0x0000_0000_0000_f000_c000_0000_0000_0000;
    assert_eq!(m[0].public_id & mask, 0x0000_0000_0000_7000_8000_0000_0000_0000);
}
