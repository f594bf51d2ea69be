//! The in-memory state of the chat room: its users, messages and rooms, with
//! the invariant that names identify users and rooms.

use vstd::prelude::*;
use crate::chat_models::{Message, Room, Status, User};
use crate::ids::{new_v4_id, v4_fixed_bits};

verus! {

/// All users, messages and rooms of the chat.
pub struct ChatRoomState {
    pub users: Vec<User>,
    pub messages: Vec<Message>,
    pub rooms: Vec<Room>,
}

/// Some user has the name.
pub open spec fn has_user(users: Seq<User>, name: Seq<char>) -> bool {
    exists|i: int| 0 <= i < users.len() && #[trigger] users[i].name@ == name
}

/// Some room has the name.
pub open spec fn has_room(rooms: Seq<Room>, name: Seq<char>) -> bool {
    exists|i: int| 0 <= i < rooms.len() && #[trigger] rooms[i].name@ == name
}

/// `i` is the first position of a user with the name.
pub open spec fn is_first_user(users: Seq<User>, name: Seq<char>, i: int) -> bool {
    &&& 0 <= i < users.len()
    &&& users[i].name@ == name
    &&& forall|j: int| 0 <= j < i ==> #[trigger] users[j].name@ != name
}

/// `i` is the first position of a room with the name.
pub open spec fn is_first_room(rooms: Seq<Room>, name: Seq<char>, i: int) -> bool {
    &&& 0 <= i < rooms.len()
    &&& rooms[i].name@ == name
    &&& forall|j: int| 0 <= j < i ==> #[trigger] rooms[j].name@ != name
}

/// The first position of a user with the name, or -1 where there is none.
pub open spec fn first_user_index(users: Seq<User>, name: Seq<char>) -> int {
    if exists|i: int| is_first_user(users, name, i) {
        choose|i: int| is_first_user(users, name, i)
    } else {
        -1
    }
}

/// No two users share a name.
pub open spec fn user_names_unique(users: Seq<User>) -> bool {
    forall|i: int, j: int| 0 <= i < j < users.len() ==> users[i].name@ != users[j].name@
}

/// No two rooms share a name.
pub open spec fn room_names_unique(rooms: Seq<Room>) -> bool {
    forall|i: int, j: int| 0 <= i < j < rooms.len() ==> rooms[i].name@ != rooms[j].name@
}

/// Every user who is in a room is in one that exists.
pub open spec fn user_rooms_exist(users: Seq<User>, rooms: Seq<Room>) -> bool {
    forall|i: int|
        0 <= i < users.len() ==> (#[trigger] users[i].room matches Some(rn) ==> has_room(
            rooms,
            rn@,
        ))
}

impl ChatRoomState {
    /// The state's invariant: user and room names are unique, and users are
    /// only in rooms that exist.
    pub open spec fn wf(&self) -> bool {
        &&& user_names_unique(self.users@)
        &&& room_names_unique(self.rooms@)
        &&& user_rooms_exist(self.users@, self.rooms@)
    }
}

/// First positions are unique.
pub proof fn lemma_first_user_unique(users: Seq<User>, name: Seq<char>, i: int, k: int)
    requires
        is_first_user(users, name, i),
        is_first_user(users, name, k),
    ensures
        i == k,
{
    if i < k {
        assert(users[i].name@ != name);
    } else if k < i {
        assert(users[k].name@ != name);
    }
}

/// The first position of a user with the name.
pub fn find_user(users: &Vec<User>, name: &String) -> (r: Option<usize>)
    ensures
        match r {
            Some(i) => is_first_user(users@, name@, i as int) && first_user_index(users@, name@)
                == i,
            None => !has_user(users@, name@) && first_user_index(users@, name@) == -1,
        },
{
    let mut i: usize = 0;
    while i < users.len()
        invariant
            i <= users.len(),
            forall|j: int| 0 <= j < i ==> #[trigger] users@[j].name@ != name@,
        decreases users.len() - i,
    {
        if users[i].name == *name {
            proof {
                assert(is_first_user(users@, name@, i as int));
                let c = choose|k: int| is_first_user(users@, name@, k);
                lemma_first_user_unique(users@, name@, i as int, c);
            }
            return Some(i);
        }
        i = i + 1;
    }
    proof {
        assert(!exists|k: int| is_first_user(users@, name@, k));
    }
    None
}

/// The first position of a room with the name.
pub fn find_room(rooms: &Vec<Room>, name: &String) -> (r: Option<usize>)
    ensures
        match r {
            Some(i) => is_first_room(rooms@, name@, i as int),
            None => !has_room(rooms@, name@),
        },
{
    let mut i: usize = 0;
    while i < rooms.len()
        invariant
            i <= rooms.len(),
            forall|j: int| 0 <= j < i ==> #[trigger] rooms@[j].name@ != name@,
        decreases rooms.len() - i,
    {
        if rooms[i].name == *name {
            return Some(i);
        }
        i = i + 1;
    }
    None
}

impl ChatRoomState {
    /// The chat as it starts: three users, two messages and five rooms.
    pub fn new() -> (r: Self)
        ensures
            r.wf(),
            r.users@.len() == 3,
            r.users@[0].name@ == "Alice"@,
            r.users@[0].status == Status::Online,
            r.users@[0].room matches Some(rn) && rn@ == "General"@,
            r.users@[1].name@ == "AliceInWonder"@,
            r.users@[1].status == Status::Online,
            r.users@[1].room matches Some(rn) && rn@ == "Anime"@,
            r.users@[2].name@ == "Bob"@,
            r.users@[2].status == Status::Offline,
            r.users@[2].room is None,
            r.messages@.len() == 2,
            v4_fixed_bits(r.messages@[0].id),
            r.messages@[0].content@ == "bacon v5"@,
            r.messages@[0].timestamp@ == "2023-10-01T12:00:00Z"@,
            r.messages@[0].room_name@ == "General"@,
            r.messages@[0].sender@ == "Alice"@,
            v4_fixed_bits(r.messages@[1].id),
            r.messages@[1].content@ == "Bob said: How's it going?"@,
            r.messages@[1].timestamp@ == "2023-10-01T12:05:00Z"@,
            r.messages@[1].room_name@ == "General"@,
            r.messages@[1].sender@ == "Bob"@,
            r.rooms@.len() == 5,
            r.rooms@[0].name@ == "General"@ && r.rooms@[0].capacity == 50,
            r.rooms@[1].name@ == "Random"@ && r.rooms@[1].capacity == 50,
            r.rooms@[2].name@ == "Tech"@ && r.rooms@[2].capacity == 100,
            r.rooms@[3].name@ == "Gaming"@ && r.rooms@[3].capacity == 10,
            r.rooms@[4].name@ == "Anime"@ && r.rooms@[4].capacity == 5,
    {
        let mut users: Vec<User> = Vec::new();
        users.push(
            User {
                name: String::from_str("Alice"),
                status: Status::Online,
                room: Some(String::from_str("General")),
            },
        );
        users.push(
            User {
                name: String::from_str("AliceInWonder"),
                status: Status::Online,
                room: Some(String::from_str("Anime")),
            },
        );
        users.push(User { name: String::from_str("Bob"), status: Status::Offline, room: None });

        let mut messages: Vec<Message> = Vec::new();
        let first_id = new_v4_id();
        messages.push(
            Message {
                id: first_id,
                content: String::from_str("bacon v5"),
                timestamp: String::from_str("2023-10-01T12:00:00Z"),
                room_name: String::from_str("General"),
                sender: String::from_str("Alice"),
            },
        );
        let second_id = new_v4_id();
        messages.push(
            Message {
                id: second_id,
                content: String::from_str("Bob said: How's it going?"),
                timestamp: String::from_str("2023-10-01T12:05:00Z"),
                room_name: String::from_str("General"),
                sender: String::from_str("Bob"),
            },
        );

        let mut rooms: Vec<Room> = Vec::new();
        rooms.push(Room { name: String::from_str("General"), capacity: 50 });
        rooms.push(Room { name: String::from_str("Random"), capacity: 50 });
        rooms.push(Room { name: String::from_str("Tech"), capacity: 100 });
        rooms.push(Room { name: String::from_str("Gaming"), capacity: 10 });
        rooms.push(Room { name: String::from_str("Anime"), capacity: 5 });

        let r = ChatRoomState { users, messages, rooms };
        proof {
            reveal_strlit("Alice");
            reveal_strlit("AliceInWonder");
            reveal_strlit("Bob");
            reveal_strlit("General");
            reveal_strlit("Random");
            reveal_strlit("Tech");
            reveal_strlit("Gaming");
            reveal_strlit("Anime");
            assert(r.users@[0].name@.len() == 5 && r.users@[0].name@[0] == 'A');
            assert(r.users@[1].name@.len() == 13 && r.users@[1].name@[0] == 'A');
            assert(r.users@[2].name@.len() == 3 && r.users@[2].name@[0] == 'B');
            assert(r.rooms@[0].name@.len() == 7 && r.rooms@[0].name@[0] == 'G');
            assert(r.rooms@[1].name@.len() == 6 && r.rooms@[1].name@[0] == 'R');
            assert(r.rooms@[2].name@.len() == 4 && r.rooms@[2].name@[0] == 'T');
            assert(r.rooms@[3].name@.len() == 6 && r.rooms@[3].name@[0] == 'G');
            assert(r.rooms@[4].name@.len() == 5 && r.rooms@[4].name@[0] == 'A');
            assert(r.users@[0].name@.len() != r.users@[1].name@.len());
            assert(r.users@[0].name@ != r.users@[1].name@);
            assert(r.users@[0].name@.len() != r.users@[2].name@.len());
            assert(r.users@[0].name@ != r.users@[2].name@);
            assert(r.users@[1].name@ != r.users@[2].name@);
            assert(r.rooms@[0].name@ != r.rooms@[1].name@);
            assert(r.rooms@[0].name@ != r.rooms@[2].name@);
            assert(r.rooms@[0].name@ != r.rooms@[3].name@);
            assert(r.rooms@[0].name@ != r.rooms@[4].name@);
            assert(r.rooms@[1].name@ != r.rooms@[2].name@);
            assert(r.rooms@[1].name@ != r.rooms@[3].name@);
            assert(r.rooms@[1].name@ != r.rooms@[4].name@);
            assert(r.rooms@[2].name@ != r.rooms@[3].name@);
            assert(r.rooms@[2].name@ != r.rooms@[4].name@);
            assert(r.rooms@[3].name@ != r.rooms@[4].name@);
            assert(has_room(r.rooms@, r.rooms@[0].name@));
            assert(has_room(r.rooms@, r.rooms@[4].name@));
        }
        r
    }
}

} // verus!
