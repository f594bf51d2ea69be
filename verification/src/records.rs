//! Database rows as plain values, and their conversion to domain models.

use vstd::prelude::*;
use crate::domain::{
    Message, ParseUserStatusError, Room, Status, Timestamp, User, clone_opt_string, parse_status,
};

verus! {

/// A row of the room table.
#[derive(Debug)]
pub struct RoomRecord {
    /// Internal id.
    pub id: i32,
    pub public_id: u128,
    pub name: String,
    pub description: Option<String>,
    pub capacity: i32,
}

impl Clone for RoomRecord {
    fn clone(&self) -> (r: Self)
        ensures
            r == *self,
    {
        RoomRecord {
            id: self.id,
            public_id: self.public_id,
            name: self.name.clone(),
            description: clone_opt_string(&self.description),
            capacity: self.capacity,
        }
    }
}

/// A row of the user table.
#[derive(Debug)]
pub struct UserRecord {
    /// Internal id.
    pub id: i32,
    pub public_id: u128,
    pub name: String,
    pub status: Option<String>,
    /// Internal id of the user's room.
    pub room: Option<i32>,
    pub last_seen_at: Option<Timestamp>,
}

/// A row of the message table.
#[derive(Debug)]
pub struct MessageRecord {
    /// Internal id.
    pub id: i32,
    pub public_id: u128,
    pub created_at: Timestamp,
    pub content: String,
    /// Internal id of the sender.
    pub sender: i32,
    /// Internal id of the room.
    pub room: i32,
}

/// A message joined with the public ids of its sender and room.
#[derive(Debug)]
pub struct MessageRow {
    pub id: u128,
    pub created_at: Timestamp,
    pub content: String,
    pub sender: u128,
    pub room: u128,
}

/// A user joined with the public id of its room.
#[derive(Debug)]
pub struct UserRow {
    pub id: u128,
    pub name: String,
    pub status: Option<String>,
    pub room: Option<u128>,
    pub last_seen: Option<Timestamp>,
}

/// Context needed for converting a message row to the domain.
#[derive(Clone, Copy, Debug, PartialEq, Eq, Structural)]
pub struct MessageContext {
    pub user_id: u128,
    pub room_id: u128,
}

/// A room, either as its row or by its public id.
#[derive(Debug)]
pub enum RoomParam {
    Entity(RoomRecord),
    PublicId(u128),
}

impl RoomParam {
    /// The room's public id.
    pub fn into_public_id(self) -> (r: u128)
        ensures
            r == match self {
                RoomParam::Entity(room) => room.public_id,
                RoomParam::PublicId(id) => id,
            },
    {
        match self {
            RoomParam::Entity(room) => room.public_id,
            RoomParam::PublicId(id) => id,
        }
    }
}

/// Infallible conversion from a database row to a domain model.
pub trait EntityToDomain<Domain, Context> {
    fn entity_to_domain(self, context: Context) -> Domain;
}

/// Fallible conversion from a database row to a domain model.
pub trait TryEntityToDomain<Domain, Context> {
    type Error;

    fn try_entity_to_domain(self, context: Context) -> Result<Domain, Self::Error>;
}

impl EntityToDomain<Message, MessageContext> for MessageRecord {
    /// The message with its public id, sent by and in the context's user and room.
    fn entity_to_domain(self, context: MessageContext) -> (r: Message)
        ensures
            r == (Message {
                id: self.public_id,
                created_at: self.created_at,
                content: self.content,
                sender: context.user_id,
                room: context.room_id,
            }),
    {
        Message {
            id: self.public_id,
            created_at: self.created_at,
            content: self.content,
            sender: context.user_id,
            room: context.room_id,
        }
    }
}

impl EntityToDomain<Room, ()> for RoomRecord {
    /// The room by its public id; the stored capacity is read as unsigned.
    fn entity_to_domain(self, context: ()) -> (r: Room)
        ensures
            r == (Room {
                id: self.public_id,
                name: self.name,
                description: self.description,
                capacity: self.capacity as u32,
            }),
    {
        Room {
            id: self.public_id,
            name: self.name,
            capacity: self.capacity as u32,
            description: self.description,
        }
    }
}

/// The status of a row: absent where the row has none.
pub open spec fn row_status(status: Option<String>) -> Option<Option<Status>> {
    match status {
        None => Some(None),
        Some(t) => match parse_status(t@) {
            Some(s) => Some(Some(s)),
            None => None,
        },
    }
}

impl TryEntityToDomain<User, Option<RoomParam>> for UserRecord {
    type Error = ParseUserStatusError;

    /// The user with its public id and the given room; fails where the stored
    /// status is no status.
    fn try_entity_to_domain(self, context: Option<RoomParam>) -> (r: Result<User, ParseUserStatusError>)
        ensures
            row_status(self.status) is None <==> r is Err,
            r matches Err(ParseUserStatusError::InvalidStatus(t)) ==> self.status matches Some(
                st,
            ) && t@ == st@,
            r matches Ok(u) ==> u == (User {
                id: self.public_id,
                name: self.name,
                status: row_status(self.status)->0,
                room: match context {
                    Some(RoomParam::Entity(room)) => Some(room.public_id),
                    Some(RoomParam::PublicId(id)) => Some(id),
                    None => None,
                },
                last_seen: self.last_seen_at,
            }),
    {
        let status = match &self.status {
            Some(s) => match Status::from_str(s.as_str()) {
                Ok(st) => Some(st),
                Err(e) => {
                    return Err(e);
                },
            },
            None => None,
        };
        let room = match context {
            Some(r) => Some(r.into_public_id()),
            None => None,
        };
        Ok(User { id: self.public_id, name: self.name, status, room, last_seen: self.last_seen_at })
    }
}

impl Message {
    /// The message of a joined row.
    pub fn from(row: MessageRow) -> (r: Message)
        ensures
            r == (Message {
                id: row.id,
                created_at: row.created_at,
                content: row.content,
                sender: row.sender,
                room: row.room,
            }),
    {
        Message {
            id: row.id,
            created_at: row.created_at,
            content: row.content,
            sender: row.sender,
            room: row.room,
        }
    }
}

/// The user of a joined row; a stored status that is no status is dropped.
pub open spec fn user_of_row(row: UserRow) -> User {
    User {
        id: row.id,
        name: row.name,
        status: match row.status {
            Some(t) => parse_status(t@),
            None => None,
        },
        room: row.room,
        last_seen: row.last_seen,
    }
}

impl User {
    /// The user of a joined row; a stored status that is no status is dropped.
    pub fn from(row: UserRow) -> (r: User)
        ensures
            r == user_of_row(row),
    {
        let status = match &row.status {
            Some(s) => match Status::from_str(s.as_str()) {
                Ok(st) => Some(st),
                Err(_) => None,
            },
            None => None,
        };
        User { id: row.id, name: row.name, status, room: row.room, last_seen: row.last_seen }
    }
}

} // verus!
