//! Queries, mutations and subscription filters of the in-memory chat room.
//! Mutations change the state and return the events to publish, in order.

use vstd::prelude::*;
use crate::chat_models::{BusEvent, Message, Room, RoomEvent, User, UserEvent, UserNotFound};
use crate::chat_state::{
    ChatRoomState, find_room, find_user, first_user_index, has_room, has_user, is_first_room,
    is_first_user, lemma_first_user_unique, room_names_unique, user_names_unique,
    user_rooms_exist,
};
use crate::clock::now_rfc3339;
use crate::ids::{new_v4_id, v4_fixed_bits};

verus! {

/// Answer to adding a user whose name is taken.
#[derive(Debug)]
pub struct UserAlreadyExists {
    pub user_name: String,
}

/// Result of adding a user.
#[derive(Debug)]
pub enum AddUserResult {
    UserAdded(User),
    UserAlreadyExists(UserAlreadyExists),
}

/// Result of removing a user.
#[derive(Debug)]
pub enum RemoveUserResult {
    UserRemoved(User),
    UserNotFound(UserNotFound),
}

/// Answer to adding a room whose name is taken.
#[derive(Debug)]
pub struct RoomAlreadyExists {
    pub room_name: String,
}

/// Result of adding a room.
#[derive(Debug)]
pub enum AddRoomResult {
    RoomAdded(Room),
    RoomAlreadyExists(RoomAlreadyExists),
}

/// Answer to asking for a message id that does not exist.
#[derive(Debug)]
pub struct MessageNotFound {
    pub id: u128,
}

/// Result of looking a message up.
#[derive(Debug)]
pub enum ChatsQueryResult {
    Message(Message),
    Error(MessageNotFound),
}

/// Answer naming a room that does not exist.
#[derive(Debug)]
pub struct RoomNotFound {
    pub room_name: String,
}

/// Result of adding a message.
#[derive(Debug)]
pub enum AddMessageResult {
    Message(Message),
    RoomNotFound(RoomNotFound),
    UserNotFound(UserNotFound),
}

/// The user as the chat admits it: placed in its room only where that room exists.
pub open spec fn admitted_user(rooms: Seq<Room>, user: User) -> User {
    User {
        name: user.name,
        status: user.status,
        room: match user.room {
            Some(rn) => if has_room(rooms, rn@) {
                Some(rn)
            } else {
                None
            },
            None => None,
        },
    }
}

/// The events of adding a user: it was added, and it entered its room if any.
pub open spec fn user_added_events(user: User) -> Seq<BusEvent> {
    seq![BusEvent::User(UserEvent::UserAdded(user))] + match user.room {
        Some(rn) => seq![BusEvent::Room(RoomEvent::UserEntered(rn, user))],
        None => Seq::<BusEvent>::empty(),
    }
}

/// The events of removing a user: it left its room if it was in one.
pub open spec fn user_removed_events(user: User) -> Seq<BusEvent> {
    match user.room {
        Some(rn) => seq![BusEvent::Room(RoomEvent::UserLeft(rn, user))],
        None => Seq::<BusEvent>::empty(),
    }
}

/// The users of the chat after adding `user`.
pub open spec fn spec_add_user(users: Seq<User>, rooms: Seq<Room>, user: User) -> Seq<User> {
    if has_user(users, user.name@) {
        users
    } else {
        users.push(admitted_user(rooms, user))
    }
}

/// The users of the chat after removing the user named `name`.
pub open spec fn spec_remove_user(users: Seq<User>, name: Seq<char>) -> Seq<User> {
    if first_user_index(users, name) >= 0 {
        users.remove(first_user_index(users, name))
    } else {
        users
    }
}

/// Messages sent by the named user.
pub open spec fn sent_by(messages: Seq<Message>, name: Seq<char>) -> Seq<Message> {
    messages.filter(|m: Message| m.sender@ == name)
}

/// Messages in the named room.
pub open spec fn posted_in(messages: Seq<Message>, name: Seq<char>) -> Seq<Message> {
    messages.filter(|m: Message| m.room_name@ == name)
}

/// Users in the named room.
pub open spec fn users_in(users: Seq<User>, name: Seq<char>) -> Seq<User> {
    users.filter(|u: User| u.room matches Some(rn) && rn@ == name)
}

/// A copy of a list of users.
fn copy_users(v: &Vec<User>) -> (r: Vec<User>)
    ensures
        r@ == v@,
{
    let mut r: Vec<User> = Vec::new();
    for i in 0..v.len()
        invariant
            r@ == v@.take(i as int),
    {
        r.push(v[i].clone());
        assert(r@ =~= v@.take(i + 1));
    }
    assert(r@ =~= v@);
    r
}

/// A copy of a list of rooms.
fn copy_rooms(v: &Vec<Room>) -> (r: Vec<Room>)
    ensures
        r@ == v@,
{
    let mut r: Vec<Room> = Vec::new();
    for i in 0..v.len()
        invariant
            r@ == v@.take(i as int),
    {
        r.push(v[i].clone());
        assert(r@ =~= v@.take(i + 1));
    }
    assert(r@ =~= v@);
    r
}

/// A copy of a list of messages.
fn copy_messages(v: &Vec<Message>) -> (r: Vec<Message>)
    ensures
        r@ == v@,
{
    let mut r: Vec<Message> = Vec::new();
    for i in 0..v.len()
        invariant
            r@ == v@.take(i as int),
    {
        r.push(v[i].clone());
        assert(r@ =~= v@.take(i + 1));
    }
    assert(r@ =~= v@);
    r
}

/// The messages sent by the named user, in order.
fn messages_sent_by(messages: &Vec<Message>, name: &String) -> (r: Vec<Message>)
    ensures
        r@ == sent_by(messages@, name@),
{
    let ghost pred = |m: Message| m.sender@ == name@;
    let mut r: Vec<Message> = Vec::new();
    for i in 0..messages.len()
        invariant
            r@ == messages@.take(i as int).filter(pred),
            forall|m: Message| #[trigger] pred(m) == (m.sender@ == name@),
    {
        let ghost prev = r@;
        if messages[i].sender == *name {
            r.push(messages[i].clone());
        }
        proof {
            let s = messages@.take(i + 1);
            assert(s.drop_last() =~= messages@.take(i as int));
            assert(s.last() == messages@[i as int]);
            reveal_with_fuel(Seq::<_>::filter, 1);
            assert(s.filter(pred) == (if pred(s.last()) {
                prev.push(s.last())
            } else {
                prev
            }));
        }
    }
    assert(messages@.take(messages.len() as int) =~= messages@);
    r
}

/// The messages in the named room, in order.
fn messages_posted_in(messages: &Vec<Message>, name: &String) -> (r: Vec<Message>)
    ensures
        r@ == posted_in(messages@, name@),
{
    let ghost pred = |m: Message| m.room_name@ == name@;
    let mut r: Vec<Message> = Vec::new();
    for i in 0..messages.len()
        invariant
            r@ == messages@.take(i as int).filter(pred),
            forall|m: Message| #[trigger] pred(m) == (m.room_name@ == name@),
    {
        let ghost prev = r@;
        if messages[i].room_name == *name {
            r.push(messages[i].clone());
        }
        proof {
            let s = messages@.take(i + 1);
            assert(s.drop_last() =~= messages@.take(i as int));
            assert(s.last() == messages@[i as int]);
            reveal_with_fuel(Seq::<_>::filter, 1);
            assert(s.filter(pred) == (if pred(s.last()) {
                prev.push(s.last())
            } else {
                prev
            }));
        }
    }
    assert(messages@.take(messages.len() as int) =~= messages@);
    r
}

/// Whether a user is in the named room.
fn in_room(user: &User, name: &String) -> (r: bool)
    ensures
        r == (user.room matches Some(rn) && rn@ == name@),
{
    match &user.room {
        Some(rn) => *rn == *name,
        None => false,
    }
}

/// The users in the named room, in order.
fn users_in_room(users: &Vec<User>, name: &String) -> (r: Vec<User>)
    ensures
        r@ == users_in(users@, name@),
{
    let ghost pred = |u: User| u.room matches Some(rn) && rn@ == name@;
    let mut r: Vec<User> = Vec::new();
    for i in 0..users.len()
        invariant
            r@ == users@.take(i as int).filter(pred),
            forall|u: User| #[trigger] pred(u) == (u.room matches Some(rn) && rn@ == name@),
    {
        let ghost prev = r@;
        if in_room(&users[i], name) {
            r.push(users[i].clone());
        }
        proof {
            let s = users@.take(i + 1);
            assert(s.drop_last() =~= users@.take(i as int));
            assert(s.last() == users@[i as int]);
            reveal_with_fuel(Seq::<_>::filter, 1);
            assert(s.filter(pred) == (if pred(s.last()) {
                prev.push(s.last())
            } else {
                prev
            }));
        }
    }
    assert(users@.take(users.len() as int) =~= users@);
    r
}

/// Queries on users.
#[derive(Default)]
pub struct UsersQuery;

impl UsersQuery {
    /// All users.
    pub fn users(&self, state: &ChatRoomState) -> (r: Vec<User>)
        ensures
            r@ == state.users@,
    {
        copy_users(&state.users)
    }
}

/// Mutations on users.
#[derive(Default)]
pub struct UsersMutation;

impl UsersMutation {
    /// Adds a user unless its name is taken. A user whose room does not
    /// exist is added without a room.
    pub fn add_user(&self, state: &mut ChatRoomState, user: User) -> (r: (
        AddUserResult,
        Vec<BusEvent>,
    ))
        ensures
            final(state).users@ == spec_add_user(old(state).users@, old(state).rooms@, user),
            final(state).rooms@ == old(state).rooms@,
            final(state).messages@ == old(state).messages@,
            has_user(old(state).users@, user.name@) ==> (r.0 matches AddUserResult::UserAlreadyExists(
                e,
            ) && e.user_name@ == user.name@ && r.1@.len() == 0),
            !has_user(old(state).users@, user.name@) ==> r.0 == AddUserResult::UserAdded(
                admitted_user(old(state).rooms@, user),
            ) && r.1@ == user_added_events(admitted_user(old(state).rooms@, user)),
            !has_user(old(state).users@, user.name@) ==> (r.0 matches AddUserResult::UserAdded(u)
                && u.name == user.name && u.status == user.status && (user.room matches Some(rn)
                && has_room(old(state).rooms@, rn@) ==> u.room == user.room) && (!(user.room matches Some(rn)
                && has_room(old(state).rooms@, rn@)) ==> u.room is None)
                && final(state).users@.len() == old(state).users@.len() + 1
                && final(state).users@.last() == u
                && final(state).users@.drop_last() == old(state).users@),
            old(state).wf() ==> final(state).wf(),
    {
        proof {
            law_admitted_user(old(state).rooms@, user);
        }
        match find_user(&state.users, &user.name) {
            Some(_) => {
                let user_name = user.name.clone();
                return (
                    AddUserResult::UserAlreadyExists(UserAlreadyExists { user_name }),
                    Vec::new(),
                );
            },
            None => {},
        }
        let ghost admitted = admitted_user(state.rooms@, user);
        let mut user = user;
        let known_room = match &user.room {
            Some(room_name) => find_room(&state.rooms, room_name).is_some(),
            None => true,
        };
        if !known_room {
            user.room = None;
        }
        assert(user == admitted);
        let ghost old_users = state.users@;
        state.users.push(user.clone());
        let mut events: Vec<BusEvent> = Vec::new();
        events.push(BusEvent::User(UserEvent::UserAdded(user.clone())));
        match &user.room {
            Some(room_name) => {
                events.push(BusEvent::Room(RoomEvent::UserEntered(room_name.clone(), user.clone())));
            },
            None => {},
        }
        proof {
            assert(events@ =~= user_added_events(admitted));
            if old(state).wf() {
                assert forall|i: int, j: int|
                    0 <= i < j < state.users@.len() implies state.users@[i].name@
                    != state.users@[j].name@ by {
                    if j == old_users.len() {
                        assert(old_users[i].name@ != user.name@);
                    }
                }
                assert forall|i: int| 0 <= i < state.users@.len() implies (
                #[trigger] state.users@[i].room matches Some(rn) ==> has_room(
                    state.rooms@,
                    rn@,
                )) by {
                    if i < old_users.len() {
                        assert(state.users@[i] == old_users[i]);
                    }
                }
            }
        }
        (AddUserResult::UserAdded(user), events)
    }

    /// Removes the user with the name, if any; a user in a room leaves it.
    pub fn remove_user(&self, state: &mut ChatRoomState, user_name: String) -> (r: (
        RemoveUserResult,
        Vec<BusEvent>,
    ))
        ensures
            final(state).users@ == spec_remove_user(old(state).users@, user_name@),
            final(state).rooms@ == old(state).rooms@,
            final(state).messages@ == old(state).messages@,
            ({
                let i = first_user_index(old(state).users@, user_name@);
                &&& i >= 0 ==> r.0 == RemoveUserResult::UserRemoved(old(state).users@[i])
                    && r.1@ == user_removed_events(old(state).users@[i])
                &&& i < 0 ==> (r.0 matches RemoveUserResult::UserNotFound(e) && e.name@
                    == user_name@ && r.1@.len() == 0)
            }),
            old(state).wf() ==> final(state).wf(),
    {
        match find_user(&state.users, &user_name) {
            Some(pos) => {
                let ghost old_users = state.users@;
                let removed_user = state.users.remove(pos);
                let mut events: Vec<BusEvent> = Vec::new();
                match &removed_user.room {
                    Some(room_name) => {
                        events.push(
                            BusEvent::Room(
                                RoomEvent::UserLeft(room_name.clone(), removed_user.clone()),
                            ),
                        );
                    },
                    None => {},
                }
                proof {
                    assert(events@ =~= user_removed_events(removed_user));
                    if old(state).wf() {
                        assert forall|i: int, j: int|
                            0 <= i < j < state.users@.len() implies state.users@[i].name@
                            != state.users@[j].name@ by {
                            let oi = if i < pos {
                                i
                            } else {
                                i + 1
                            };
                            let oj = if j < pos {
                                j
                            } else {
                                j + 1
                            };
                            assert(state.users@[i] == old_users[oi]);
                            assert(state.users@[j] == old_users[oj]);
                        }
                        assert forall|i: int| 0 <= i < state.users@.len() implies (
                        #[trigger] state.users@[i].room matches Some(rn) ==> has_room(
                            state.rooms@,
                            rn@,
                        )) by {
                            let oi = if i < pos {
                                i
                            } else {
                                i + 1
                            };
                            assert(state.users@[i] == old_users[oi]);
                        }
                    }
                }
                (RemoveUserResult::UserRemoved(removed_user), events)
            },
            None => (
                RemoveUserResult::UserNotFound(UserNotFound { name: user_name }),
                Vec::new(),
            ),
        }
    }
}

/// Subscriptions to user events.
#[derive(Default)]
pub struct UsersSubscription;

impl UsersSubscription {
    /// What the `user_added` stream yields for an event: the added user.
    pub fn user_added(&self, event: &UserEvent) -> (r: Option<User>)
        ensures
            r == match *event {
                UserEvent::UserAdded(u) => Some(u),
                _ => None::<User>,
            },
    {
        match event {
            UserEvent::UserAdded(u) => Some(u.clone()),
            _ => None,
        }
    }

    /// What the `user_removed` stream yields for an event: the removed user's name.
    pub fn user_removed(&self, event: &UserEvent) -> (r: Option<String>)
        ensures
            r == match *event {
                UserEvent::UserRemoved(n) => Some(n),
                _ => None::<String>,
            },
    {
        match event {
            UserEvent::UserRemoved(n) => Some(n.clone()),
            _ => None,
        }
    }
}

/// Queries on rooms.
#[derive(Default)]
pub struct RoomsQuery;

impl RoomsQuery {
    /// All rooms.
    pub fn rooms(&self, state: &ChatRoomState) -> (r: Vec<Room>)
        ensures
            r@ == state.rooms@,
    {
        copy_rooms(&state.rooms)
    }
}

/// Mutations on rooms.
#[derive(Default)]
pub struct RoomsMutation;

impl RoomsMutation {
    /// Adds a room unless its name is taken.
    pub fn add_room(&self, state: &mut ChatRoomState, room_input: Room) -> (r: (
        AddRoomResult,
        Vec<BusEvent>,
    ))
        ensures
            final(state).users@ == old(state).users@,
            final(state).messages@ == old(state).messages@,
            has_room(old(state).rooms@, room_input.name@) ==> (r.0 matches AddRoomResult::RoomAlreadyExists(
                e,
            ) && e.room_name@ == room_input.name@ && r.1@.len() == 0 && final(state).rooms@ == old(state).rooms@),
            !has_room(old(state).rooms@, room_input.name@) ==> (r.0 == AddRoomResult::RoomAdded(
                room_input,
            ) && r.1@ == seq![BusEvent::Room(RoomEvent::RoomAdded(room_input))]
                && final(state).rooms@ == old(state).rooms@.push(room_input)),
            old(state).wf() ==> final(state).wf(),
    {
        if find_room(&state.rooms, &room_input.name).is_some() {
            let room_name = room_input.name.clone();
            return (AddRoomResult::RoomAlreadyExists(RoomAlreadyExists { room_name }), Vec::new());
        }
        let ghost old_rooms = state.rooms@;
        let new_room = Room { name: room_input.name, capacity: room_input.capacity };
        state.rooms.push(new_room.clone());
        let mut events: Vec<BusEvent> = Vec::new();
        events.push(BusEvent::Room(RoomEvent::RoomAdded(new_room.clone())));
        proof {
            if old(state).wf() {
                assert forall|i: int, j: int|
                    0 <= i < j < state.rooms@.len() implies state.rooms@[i].name@
                    != state.rooms@[j].name@ by {
                    if j == old_rooms.len() {
                        assert(old_rooms[i].name@ != new_room.name@);
                    }
                }
                assert forall|i: int| 0 <= i < state.users@.len() implies (
                #[trigger] state.users@[i].room matches Some(rn) ==> has_room(
                    state.rooms@,
                    rn@,
                )) by {
                    if let Some(rn) = state.users@[i].room {
                        let k = choose|k: int| 0 <= k < old_rooms.len() && #[trigger] old_rooms[k].name@ == rn@;
                        assert(state.rooms@[k] == old_rooms[k]);
                    }
                }
            }
        }
        (AddRoomResult::RoomAdded(new_room), events)
    }
}

/// Subscriptions to room events.
#[derive(Default)]
pub struct RoomsSubscription;

impl RoomsSubscription {
    /// What the `room_added` stream yields for an event: the added room.
    pub fn room_added(&self, event: &RoomEvent) -> (r: Option<Room>)
        ensures
            r == match *event {
                RoomEvent::RoomAdded(room) => Some(room),
                _ => None::<Room>,
            },
    {
        match event {
            RoomEvent::RoomAdded(room) => Some(room.clone()),
            _ => None,
        }
    }

    /// What the `user_entered` stream of the named room yields for an event:
    /// the user who entered that room.
    pub fn user_entered(&self, event: &RoomEvent, room_name: &String) -> (r: Option<User>)
        ensures
            r == match *event {
                RoomEvent::UserEntered(name, u) => if name@ == room_name@ {
                    Some(u)
                } else {
                    None
                },
                _ => None::<User>,
            },
    {
        match event {
            RoomEvent::UserEntered(name, u) => if *name == *room_name {
                Some(u.clone())
            } else {
                None
            },
            _ => None,
        }
    }

    /// What the `user_left` stream of the named room yields for an event:
    /// the user who left that room.
    pub fn user_left(&self, event: &RoomEvent, room_name: &String) -> (r: Option<User>)
        ensures
            r == match *event {
                RoomEvent::UserLeft(name, u) => if name@ == room_name@ {
                    Some(u)
                } else {
                    None
                },
                _ => None::<User>,
            },
    {
        match event {
            RoomEvent::UserLeft(name, u) => if *name == *room_name {
                Some(u.clone())
            } else {
                None
            },
            _ => None,
        }
    }
}

/// Queries on messages.
#[derive(Default)]
pub struct ChatsQuery;

impl ChatsQuery {
    /// All messages.
    pub fn messages(&self, state: &ChatRoomState) -> (r: Vec<Message>)
        ensures
            r@ == state.messages@,
    {
        copy_messages(&state.messages)
    }

    /// The first message with the id, or an answer that there is none.
    pub fn message_by_id(&self, state: &ChatRoomState, id: u128) -> (r: ChatsQueryResult)
        ensures
            match r {
                ChatsQueryResult::Message(m) => exists|i: int|
                    0 <= i < state.messages@.len() && state.messages@[i] == m && m.id == id
                        && forall|j: int| 0 <= j < i ==> #[trigger] state.messages@[j].id != id,
                ChatsQueryResult::Error(e) => e.id == id && forall|j: int|
                    0 <= j < state.messages@.len() ==> #[trigger] state.messages@[j].id != id,
            },
    {
        let mut i: usize = 0;
        while i < state.messages.len()
            invariant
                i <= state.messages@.len(),
                forall|j: int| 0 <= j < i ==> #[trigger] state.messages@[j].id != id,
            decreases state.messages@.len() - i,
        {
            if state.messages[i].id == id {
                let m = state.messages[i].clone();
                assert(state.messages@[i as int] == m);
                return ChatsQueryResult::Message(m);
            }
            i = i + 1;
        }
        ChatsQueryResult::Error(MessageNotFound { id })
    }

    /// The messages the named user sent, in order.
    pub fn messages_by_user(&self, state: &ChatRoomState, user_name: String) -> (r: Vec<Message>)
        ensures
            r@ == sent_by(state.messages@, user_name@),
            r@ == state.messages@.filter(|m: Message| m.sender@ == user_name@),
            forall|i: int| 0 <= i < r@.len() ==> (#[trigger] r@[i]).sender@ == user_name@,
    {
        proof {
            law_user_messages(state.messages@, user_name@);
        }
        messages_sent_by(&state.messages, &user_name)
    }
}

/// Mutations on messages.
#[derive(Default)]
pub struct ChatsMutation;

impl ChatsMutation {
    /// Posts a message from an existing user to an existing room, with a
    /// fresh random id and the current time.
    pub fn add_message(
        &self,
        state: &mut ChatRoomState,
        content: String,
        sender: String,
        room_name: String,
    ) -> (r: AddMessageResult)
        ensures
            final(state).users@ == old(state).users@,
            final(state).rooms@ == old(state).rooms@,
            !has_room(old(state).rooms@, room_name@) ==> (r matches AddMessageResult::RoomNotFound(e)
                && e.room_name@ == room_name@ && final(state).messages@ == old(state).messages@),
            has_room(old(state).rooms@, room_name@) && !has_user(old(state).users@, sender@) ==> (
            r matches AddMessageResult::UserNotFound(e) && e.name@ == sender@ && final(state).messages@ == old(state).messages@),
            has_room(old(state).rooms@, room_name@) && has_user(old(state).users@, sender@) ==> (
            r matches AddMessageResult::Message(m) && m.content@ == content@ && m.sender@
                == sender@ && m.room_name@ == room_name@ && v4_fixed_bits(m.id) && final(state).messages@ == old(state).messages@.push(m)),
            old(state).wf() ==> final(state).wf(),
    {
        let id = new_v4_id();
        let timestamp = now_rfc3339();
        self.add_message_at(state, content, sender, room_name, id, timestamp)
    }

    /// Posts a message from an existing user to an existing room, with the
    /// given id and time text.
    pub fn add_message_at(
        &self,
        state: &mut ChatRoomState,
        content: String,
        sender: String,
        room_name: String,
        id: u128,
        timestamp: String,
    ) -> (r: AddMessageResult)
        ensures
            final(state).users@ == old(state).users@,
            final(state).rooms@ == old(state).rooms@,
            !has_room(old(state).rooms@, room_name@) ==> (r matches AddMessageResult::RoomNotFound(e)
                && e.room_name@ == room_name@ && final(state).messages@ == old(state).messages@),
            has_room(old(state).rooms@, room_name@) && !has_user(old(state).users@, sender@) ==> (
            r matches AddMessageResult::UserNotFound(e) && e.name@ == sender@ && final(state).messages@ == old(state).messages@),
            has_room(old(state).rooms@, room_name@) && has_user(old(state).users@, sender@) ==> (
            r == AddMessageResult::Message(Message { id, timestamp, content, sender, room_name })
                && final(state).messages@ == old(state).messages@.push(
                Message { id, timestamp, content, sender, room_name },
            )),
            old(state).wf() ==> final(state).wf(),
    {
        if find_room(&state.rooms, &room_name).is_none() {
            return AddMessageResult::RoomNotFound(RoomNotFound { room_name });
        }
        if find_user(&state.users, &sender).is_none() {
            return AddMessageResult::UserNotFound(UserNotFound { name: sender });
        }
        let new_message = Message { id, content, sender, timestamp, room_name };
        state.messages.push(new_message.clone());
        AddMessageResult::Message(new_message)
    }
}

impl Room {
    /// The users in this room, in order.
    pub fn users(&self, state: &ChatRoomState) -> (r: Vec<User>)
        ensures
            r@ == users_in(state.users@, self.name@),
            r@ == state.users@.filter(|u: User| u.room matches Some(rn) && rn@ == self.name@),
            forall|i: int| 0 <= i < r@.len() ==> ((#[trigger] r@[i]).room matches Some(rn) && rn@
                == self.name@),
    {
        proof {
            law_room_users(state.users@, self.name@);
        }
        users_in_room(&state.users, &self.name)
    }

    /// The messages posted in this room, in order.
    pub fn messages(&self, state: &ChatRoomState) -> (r: Vec<Message>)
        ensures
            r@ == posted_in(state.messages@, self.name@),
            r@ == state.messages@.filter(|m: Message| m.room_name@ == self.name@),
            forall|i: int| 0 <= i < r@.len() ==> (#[trigger] r@[i]).room_name@ == self.name@,
    {
        proof {
            law_room_messages(state.messages@, self.name@);
        }
        messages_posted_in(&state.messages, &self.name)
    }
}

impl User {
    /// The messages this user sent, in order.
    pub fn messages(&self, state: &ChatRoomState) -> (r: Vec<Message>)
        ensures
            r@ == sent_by(state.messages@, self.name@),
            r@ == state.messages@.filter(|m: Message| m.sender@ == self.name@),
            forall|i: int| 0 <= i < r@.len() ==> (#[trigger] r@[i]).sender@ == self.name@,
    {
        proof {
            law_user_messages(state.messages@, self.name@);
        }
        messages_sent_by(&state.messages, &self.name)
    }
}

impl Message {
    /// The room this message was posted in: the first room of that name, or
    /// the empty default room where there is none.
    pub fn room(&self, state: &ChatRoomState) -> (r: Room)
        ensures
            has_room(state.rooms@, self.room_name@) ==> exists|i: int|
                is_first_room(state.rooms@, self.room_name@, i) && r == state.rooms@[i],
            !has_room(state.rooms@, self.room_name@) ==> r.name@ == Seq::<char>::empty()
                && r.capacity == 0,
    {
        match find_room(&state.rooms, &self.room_name) {
            Some(i) => state.rooms[i].clone(),
            None => Room::default(),
        }
    }
}

/// Removing a user right after adding it gives the users back as they were.
pub proof fn law_remove_undoes_add(users: Seq<User>, rooms: Seq<Room>, user: User)
    requires
        !has_user(users, user.name@),
    ensures
        spec_remove_user(spec_add_user(users, rooms, user), user.name@) == users,
{
    let added = spec_add_user(users, rooms, user);
    let n = users.len() as int;
    assert(added[n].name@ == user.name@);
    assert(is_first_user(added, user.name@, n)) by {
        assert forall|j: int| 0 <= j < n implies #[trigger] added[j].name@ != user.name@ by {
            assert(added[j] == users[j]);
        }
    }
    let c = choose|k: int| is_first_user(added, user.name@, k);
    lemma_first_user_unique(added, user.name@, n, c);
    assert(added.remove(n) =~= users);
}

/// A second user of the same name is refused: adding twice changes the
/// users once.
pub proof fn law_add_user_twice(users: Seq<User>, rooms: Seq<Room>, user: User, again: User)
    requires
        again.name@ == user.name@,
    ensures
        spec_add_user(spec_add_user(users, rooms, user), rooms, again) == spec_add_user(
            users,
            rooms,
            user,
        ),
{
    let added = spec_add_user(users, rooms, user);
    if !has_user(users, user.name@) {
        assert(added[users.len() as int].name@ == again.name@);
    }
}

/// A room's messages: each was posted in that room, every message posted in
/// it is among them, and they are messages of the chat.
pub proof fn law_room_messages(messages: Seq<Message>, name: Seq<char>)
    ensures
        forall|i: int|
            0 <= i < posted_in(messages, name).len() ==> (#[trigger] posted_in(messages, name)[i]).room_name@
                == name,
        forall|i: int|
            0 <= i < messages.len() && messages[i].room_name@ == name ==> posted_in(
                messages,
                name,
            ).contains(#[trigger] messages[i]),
        forall|m: Message| #[trigger] posted_in(messages, name).contains(m) ==> messages.contains(m),
        posted_in(messages, name).len() <= messages.len(),
{
    broadcast use vstd::seq_lib::group_filter_ensures;
    broadcast use vstd::seq::Seq::lemma_filter_contains_rev;

}

/// A user's messages: each was sent by that user, every message the user
/// sent is among them, and they are messages of the chat.
pub proof fn law_user_messages(messages: Seq<Message>, name: Seq<char>)
    ensures
        forall|i: int|
            0 <= i < sent_by(messages, name).len() ==> (#[trigger] sent_by(messages, name)[i]).sender@
                == name,
        forall|i: int|
            0 <= i < messages.len() && messages[i].sender@ == name ==> sent_by(
                messages,
                name,
            ).contains(#[trigger] messages[i]),
        forall|m: Message| #[trigger] sent_by(messages, name).contains(m) ==> messages.contains(m),
        sent_by(messages, name).len() <= messages.len(),
{
    broadcast use vstd::seq_lib::group_filter_ensures;
    broadcast use vstd::seq::Seq::lemma_filter_contains_rev;

}

/// A room's users: each is in that room, every user in it is among them, and
/// they are users of the chat.
pub proof fn law_room_users(users: Seq<User>, name: Seq<char>)
    ensures
        forall|i: int|
            0 <= i < users_in(users, name).len() ==> ((#[trigger] users_in(users, name)[i]).room matches Some(
                rn,
            ) && rn@ == name),
        forall|i: int|
            0 <= i < users.len() && (users[i].room matches Some(rn) && rn@ == name) ==> users_in(
                users,
                name,
            ).contains(#[trigger] users[i]),
        forall|u: User| #[trigger] users_in(users, name).contains(u) ==> users.contains(u),
        users_in(users, name).len() <= users.len(),
{
    broadcast use vstd::seq_lib::group_filter_ensures;
    broadcast use vstd::seq::Seq::lemma_filter_contains_rev;

}

/// The chat admits a user as given, except that a room that does not exist is
/// dropped: name and status are kept, and so is a room that exists.
pub proof fn law_admitted_user(rooms: Seq<Room>, user: User)
    ensures
        admitted_user(rooms, user).name == user.name,
        admitted_user(rooms, user).status == user.status,
        user.room matches Some(rn) && has_room(rooms, rn@) ==> admitted_user(rooms, user).room
            == user.room,
        !(user.room matches Some(rn) && has_room(rooms, rn@)) ==> admitted_user(rooms, user).room is None,
{
}

/// Adding a user whose name is free appends it, as the chat admits it, after
/// the users there were; adding one whose name is taken changes nothing.
pub proof fn law_add_user_appends(users: Seq<User>, rooms: Seq<Room>, user: User)
    ensures
        !has_user(users, user.name@) ==> spec_add_user(users, rooms, user).len() == users.len() + 1
            && spec_add_user(users, rooms, user).drop_last() == users && spec_add_user(
            users,
            rooms,
            user,
        ).last().name == user.name && spec_add_user(users, rooms, user).last().status
            == user.status,
        has_user(users, user.name@) ==> spec_add_user(users, rooms, user) == users,
{
    if !has_user(users, user.name@) {
        assert(spec_add_user(users, rooms, user).drop_last() =~= users);
    }
}

} // verus!
