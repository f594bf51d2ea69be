//! The data that seeds an empty database: two rooms, two users, and one
//! message by each of the first two users in the first two rooms.

use vstd::prelude::*;
use crate::ids::{new_v4_id, new_v7_id, v4_fixed_bits, v7_fixed_bits};
use crate::text::{decimal, decimal_text};

verus! {

/// A room row to seed.
#[derive(Debug)]
pub struct SeedRoom {
    pub name: String,
    pub description: Option<String>,
    pub capacity: i32,
    pub public_id: u128,
}

/// A user row to seed.
#[derive(Debug)]
pub struct SeedUser {
    pub name: String,
    pub status: Option<String>,
    /// Internal id of the user's room.
    pub room: Option<i32>,
    pub public_id: u128,
}

/// A message row to seed.
#[derive(Debug)]
pub struct SeedMessage {
    pub content: String,
    /// Internal id of the sender.
    pub sender: i32,
    /// Internal id of the room.
    pub room: i32,
    pub public_id: u128,
}

/// The rooms to seed, with fresh random public ids.
pub fn seed_rooms() -> (r: Vec<SeedRoom>)
    ensures
        r@.len() == 2,
        r@[0].name@ == "General"@,
        r@[0].description matches Some(d) && d@ == "General discussion room"@,
        r@[0].capacity == 100,
        v4_fixed_bits(r@[0].public_id),
        r@[1].name@ == "Tech"@,
        r@[1].description matches Some(d) && d@ == "Technology discussion room"@,
        r@[1].capacity == 50,
        v4_fixed_bits(r@[1].public_id),
{
    let mut rooms: Vec<SeedRoom> = Vec::new();
    rooms.push(
        SeedRoom {
            name: String::from_str("General"),
            description: Some(String::from_str("General discussion room")),
            capacity: 100,
            public_id: new_v4_id(),
        },
    );
    rooms.push(
        SeedRoom {
            name: String::from_str("Tech"),
            description: Some(String::from_str("Technology discussion room")),
            capacity: 50,
            public_id: new_v4_id(),
        },
    );
    rooms
}

/// The users to seed, in no room, with fresh random public ids.
pub fn seed_users() -> (r: Vec<SeedUser>)
    ensures
        r@.len() == 2,
        r@[0].name@ == "seeder_alice"@,
        r@[0].status matches Some(s) && s@ == "online"@,
        r@[0].room is None,
        v4_fixed_bits(r@[0].public_id),
        r@[1].name@ == "seeder_bob"@,
        r@[1].status matches Some(s) && s@ == "offline"@,
        r@[1].room is None,
        v4_fixed_bits(r@[1].public_id),
{
    let mut users: Vec<SeedUser> = Vec::new();
    users.push(
        SeedUser {
            name: String::from_str("seeder_alice"),
            status: Some(String::from_str("online")),
            room: None,
            public_id: new_v4_id(),
        },
    );
    users.push(
        SeedUser {
            name: String::from_str("seeder_bob"),
            status: Some(String::from_str("offline")),
            room: None,
            public_id: new_v4_id(),
        },
    );
    users
}

/// The content of the `n`-th seeded message: `Hello from seeder message {n}`.
pub open spec fn seed_message_text(n: nat) -> Seq<char> {
    "Hello from seeder message "@ + decimal_text(n)
}

/// The messages to seed, given the internal ids of the seeded users and
/// rooms: none where there are fewer than two of either; else message `i + 1`
/// by user `i` in room `i`, for the first two, with time-ordered public ids.
pub fn seed_messages(users: &Vec<i32>, rooms: &Vec<i32>) -> (r: Option<Vec<SeedMessage>>)
    ensures
        users@.len() < 2 || rooms@.len() < 2 ==> r is None,
        users@.len() >= 2 && rooms@.len() >= 2 ==> (r matches Some(v) && v@.len() == 2 && forall|
            i: int,
        |
            0 <= i < 2 ==> #[trigger] v@[i].sender == users@[i] && v@[i].room == rooms@[i]
                && v@[i].content@ == seed_message_text((i + 1) as nat) && v7_fixed_bits(
                v@[i].public_id,
            )),
{
    if users.len() < 2 || rooms.len() < 2 {
        return None;
    }
    let mut messages: Vec<SeedMessage> = Vec::new();
    let mut i: usize = 0;
    while i < 2
        invariant
            i <= 2,
            users@.len() >= 2,
            rooms@.len() >= 2,
            messages@.len() == i,
            forall|j: int|
                0 <= j < i ==> #[trigger] messages@[j].sender == users@[j] && messages@[j].room
                    == rooms@[j] && messages@[j].content@ == seed_message_text((j + 1) as nat)
                    && v7_fixed_bits(messages@[j].public_id),
        decreases 2 - i,
    {
        let n = decimal((i + 1) as u64);
        let content = String::from_str("Hello from seeder message ").concat(n.as_str());
        messages.push(
            SeedMessage { content, sender: users[i], room: rooms[i], public_id: new_v7_id() },
        );
        i = i + 1;
    }
    Some(messages)
}

} // verus!
