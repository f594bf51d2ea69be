//! Models of the in-memory chat room: users, rooms and messages, named by
//! strings.

use vstd::prelude::*;

verus! {

/// Possible statuses of a chat user.
#[derive(Clone, Copy, PartialEq, Eq, Debug, Structural)]
pub enum Status {
    Online,
    Offline,
    Away,
}

/// A chat user; `room` names the room the user is in, if any.
#[derive(Debug)]
pub struct User {
    pub name: String,
    pub status: Status,
    pub room: Option<String>,
}

impl Clone for User {
    fn clone(&self) -> (r: Self)
        ensures
            r == *self,
    {
        User {
            name: self.name.clone(),
            status: self.status,
            room: crate::domain::clone_opt_string(&self.room),
        }
    }
}

/// A chat room.
#[derive(Debug)]
pub struct Room {
    pub name: String,
    pub capacity: usize,
}

impl Clone for Room {
    fn clone(&self) -> (r: Self)
        ensures
            r == *self,
    {
        Room { name: self.name.clone(), capacity: self.capacity }
    }
}

impl Default for Room {
    /// The room with an empty name and no capacity.
    fn default() -> (r: Self)
        ensures
            r.name@ == Seq::<char>::empty(),
            r.capacity == 0,
    {
        Room { name: String::new(), capacity: 0 }
    }
}

/// A chat message; `sender` and `room_name` name its user and room.
#[derive(Debug)]
pub struct Message {
    pub id: u128,
    pub timestamp: String,
    pub content: String,
    pub sender: String,
    pub room_name: String,
}

impl Clone for Message {
    fn clone(&self) -> (r: Self)
        ensures
            r == *self,
    {
        Message {
            id: self.id,
            timestamp: self.timestamp.clone(),
            content: self.content.clone(),
            sender: self.sender.clone(),
            room_name: self.room_name.clone(),
        }
    }
}

/// Answer naming a user that does not exist.
#[derive(Debug)]
pub struct UserNotFound {
    pub name: String,
}

/// Events about chat users.
#[derive(Clone, Debug)]
pub enum UserEvent {
    UserAdded(User),
    /// By user name.
    UserRemoved(String),
}

/// Events about chat rooms.
#[derive(Clone, Debug)]
pub enum RoomEvent {
    RoomAdded(Room),
    /// By room name.
    RoomRemoved(String),
    /// Room name, user.
    UserEntered(String, User),
    /// Room name, user.
    UserLeft(String, User),
}

/// An event, by the channel of the event bus that carries it.
#[derive(Clone, Debug)]
pub enum BusEvent {
    User(UserEvent),
    Room(RoomEvent),
}

} // verus!
