//! Domain models shared by the service layer and the API: users, rooms,
//! messages, cursor pages and the events published on the event bus.

use vstd::prelude::*;
use crate::text::str_eq;

verus! {

/// A point in time (UTC): seconds since the Unix epoch and nanoseconds.
#[derive(Clone, Copy, PartialEq, Eq, Debug, Structural)]
pub struct Timestamp {
    pub secs: i64,
    pub nanos: u32,
}

/// Possible statuses for a user.
#[derive(Clone, Copy, PartialEq, Eq, Debug, Structural)]
pub enum Status {
    Online,
    Offline,
    Away,
}

/// The text under which a status is stored and displayed.
pub open spec fn status_text(s: Status) -> Seq<char> {
    match s {
        Status::Online => seq!['o', 'n', 'l', 'i', 'n', 'e'],
        Status::Offline => seq!['o', 'f', 'f', 'l', 'i', 'n', 'e'],
        Status::Away => seq!['a', 'w', 'a', 'y'],
    }
}

/// The status that a stored text names, if any.
pub open spec fn parse_status(text: Seq<char>) -> Option<Status> {
    if text == status_text(Status::Online) {
        Some(Status::Online)
    } else if text == status_text(Status::Offline) {
        Some(Status::Offline)
    } else if text == status_text(Status::Away) {
        Some(Status::Away)
    } else {
        None
    }
}

/// The text of the error that an unknown status text gives.
pub open spec fn invalid_status_message(text: Seq<char>) -> Seq<char> {
    seq!['i', 'n', 'v', 'a', 'l', 'i', 'd', ' ', 'u', 's', 'e', 'r', ' ', 's', 't', 'a', 't', 'u',
        's', ':', ' '] + text
}

/// Error of parsing a stored status text.
#[derive(Debug)]
pub enum ParseUserStatusError {
    InvalidStatus(String),
}

impl Clone for ParseUserStatusError {
    fn clone(&self) -> (r: Self)
        ensures
            r == *self,
    {
        match self {
            ParseUserStatusError::InvalidStatus(t) => ParseUserStatusError::InvalidStatus(t.clone()),
        }
    }
}

impl ParseUserStatusError {
    /// The error's message, `invalid user status: {text}`.
    pub fn message(&self) -> (r: String)
        ensures
            r@ == invalid_status_message(match self {
                ParseUserStatusError::InvalidStatus(t) => t@,
            }),
    {
        match self {
            ParseUserStatusError::InvalidStatus(t) => {
                let prefix = "invalid user status: ";
                proof { reveal_strlit("invalid user status: "); }
                let r = String::from_str(prefix).concat(t.as_str());
                assert(r@ =~= invalid_status_message(t@));
                r
            },
        }
    }
}

impl Status {
    /// The status's text, as `Display` writes it.
    pub fn as_str(&self) -> (r: &'static str)
        ensures
            r@ == status_text(*self),
            *self == Status::Online ==> r@ == seq!['o', 'n', 'l', 'i', 'n', 'e'],
            *self == Status::Offline ==> r@ == seq!['o', 'f', 'f', 'l', 'i', 'n', 'e'],
            *self == Status::Away ==> r@ == seq!['a', 'w', 'a', 'y'],
    {
        match self {
            Status::Online => {
                proof {
                    reveal_strlit("online");
                    assert("online"@ =~= status_text(Status::Online));
                }
                "online"
            },
            Status::Offline => {
                proof {
                    reveal_strlit("offline");
                    assert("offline"@ =~= status_text(Status::Offline));
                }
                "offline"
            },
            Status::Away => {
                proof {
                    reveal_strlit("away");
                    assert("away"@ =~= status_text(Status::Away));
                }
                "away"
            },
        }
    }

    /// The status's text as an owned string (`to_string`).
    pub fn fmt(&self) -> (r: String)
        ensures
            r@ == status_text(*self),
            *self == Status::Online ==> r@ == seq!['o', 'n', 'l', 'i', 'n', 'e'],
            *self == Status::Offline ==> r@ == seq!['o', 'f', 'f', 'l', 'i', 'n', 'e'],
            *self == Status::Away ==> r@ == seq!['a', 'w', 'a', 'y'],
    {
        String::from_str(self.as_str())
    }

    /// Converts a stored text to a status.
    pub fn from_str(input: &str) -> (r: Result<Status, ParseUserStatusError>)
        ensures
            r is Ok <==> parse_status(input@) is Some,
            r matches Ok(s) ==> parse_status(input@) == Some(s),
            r matches Err(ParseUserStatusError::InvalidStatus(t)) ==> t@ == input@,
    {
        proof {
            reveal_strlit("online");
            reveal_strlit("offline");
            reveal_strlit("away");
            assert("online"@ =~= status_text(Status::Online));
            assert("offline"@ =~= status_text(Status::Offline));
            assert("away"@ =~= status_text(Status::Away));
        }
        if str_eq(input, "online") {
            Ok(Status::Online)
        } else if str_eq(input, "offline") {
            Ok(Status::Offline)
        } else if str_eq(input, "away") {
            Ok(Status::Away)
        } else {
            Err(ParseUserStatusError::InvalidStatus(String::from_str(input)))
        }
    }
}

/// Parsing the text of a status gives that status back.
pub proof fn law_status_text_parses(s: Status)
    ensures
        parse_status(status_text(s)) == Some(s),
{
    assert(status_text(Status::Online) != status_text(Status::Offline));
    assert(status_text(Status::Online) != status_text(Status::Away));
    assert(status_text(Status::Offline) != status_text(Status::Away));
}

/// A text that parses to a status is that status's text.
pub proof fn law_parsed_text_is_status_text(text: Seq<char>)
    ensures
        parse_status(text) matches Some(s) ==> status_text(s) == text,
{
}

/// Copies an optional string.
pub fn clone_opt_string(o: &Option<String>) -> (r: Option<String>)
    ensures
        r == *o,
{
    match o {
        Some(s) => Some(s.clone()),
        None => None,
    }
}

/// Domain representation of a user.
#[derive(Debug)]
pub struct User {
    /// Public id of the user.
    pub id: u128,
    pub name: String,
    pub status: Option<Status>,
    /// Public id of the room the user is currently in.
    pub room: Option<u128>,
    /// Time of the last activity.
    pub last_seen: Option<Timestamp>,
}

impl Clone for User {
    fn clone(&self) -> (r: Self)
        ensures
            r == *self,
    {
        User {
            id: self.id,
            name: self.name.clone(),
            status: self.status,
            room: self.room,
            last_seen: self.last_seen,
        }
    }
}

/// Domain representation of a room.
#[derive(Debug)]
pub struct Room {
    pub id: u128,
    pub name: String,
    pub description: Option<String>,
    pub capacity: u32,
}

impl Clone for Room {
    fn clone(&self) -> (r: Self)
        ensures
            r == *self,
    {
        Room {
            id: self.id,
            name: self.name.clone(),
            description: clone_opt_string(&self.description),
            capacity: self.capacity,
        }
    }
}

/// Domain representation of a message.
#[derive(Debug)]
pub struct Message {
    /// Public id of the message; time-ordered (UUIDv7).
    pub id: u128,
    pub created_at: Timestamp,
    pub content: String,
    /// Public id of the sender.
    pub sender: u128,
    /// Public id of the room.
    pub room: u128,
}

impl Clone for Message {
    fn clone(&self) -> (r: Self)
        ensures
            r == *self,
    {
        Message {
            id: self.id,
            created_at: self.created_at,
            content: self.content.clone(),
            sender: self.sender,
            room: self.room,
        }
    }
}

/// A cursor-based page of results. The cursor is the public id of the last
/// item of the page; clients pass it back to fetch the next page.
pub struct CursorPage<T> {
    /// The items in this page.
    pub items: Vec<T>,
    /// Cursor pointing to the next page, `None` if this is the last page.
    pub next_cursor: Option<u128>,
    /// Whether there are more items after this page.
    pub has_next_page: bool,
}

impl<T: Clone> Clone for CursorPage<T> {
    fn clone(&self) -> Self {
        CursorPage {
            items: self.items.clone(),
            next_cursor: self.next_cursor,
            has_next_page: self.has_next_page,
        }
    }
}

/// A typing indicator event: ephemeral, never persisted.
#[derive(Clone, Copy, Debug, PartialEq, Eq, Structural)]
pub struct TypingEvent {
    pub user_id: u128,
    pub room_id: u128,
    pub is_typing: bool,
    pub timestamp: Timestamp,
}

/// Events about users.
#[derive(Clone, Debug)]
pub enum UserEvent {
    Added(User),
    Removed(u128),
    StatusChanged { user_id: u128, status: Status },
}

/// Events about rooms.
#[derive(Clone, Debug)]
pub enum RoomEvent {
    Added(Room),
    Removed(u128),
    UserEntered { room_id: u128, user_id: u128 },
    UserLeft { room_id: u128, user_id: u128 },
    UserTyping(TypingEvent),
}

/// Events about messages.
#[derive(Clone, Debug)]
pub enum MessageEvent {
    Sent(Message),
    Edited(Message),
    Deleted { message_id: u128, room_id: u128 },
}

} // verus!
