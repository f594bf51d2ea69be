//! Which cache entries each write of the services drops or refills, and why
//! a read after a write sees the write.
//!
//! The services cache single rooms, the list of all rooms, single users, the
//! users of a room and the latest messages of a room. After each write they
//! drop the entries `cache_plan` lists and refill the one it names with the
//! value just written. Over a model of the caches as a map from keys to
//! values, and of what the database would answer for each key before and
//! after the write, `law_read_after_write` shows that the cache agrees with
//! the database again after the plan, wherever the write changes no entry
//! beyond those the plan covers.

use vstd::prelude::*;

verus! {

/// An entry of the services' caches.
#[derive(Clone, Copy, Debug, PartialEq, Eq, Hash, Structural)]
pub enum CacheKey {
    /// A room, by public id.
    Room(u128),
    /// The list of all rooms.
    AllRooms,
    /// A user, by public id.
    User(u128),
    /// The users of a room, by the room's public id.
    UsersInRoom(u128),
    /// The latest messages of a room, by the room's public id.
    LatestMessages(u128),
}

/// A write of the services, by the public ids it names.
#[derive(Clone, Copy, Debug, PartialEq, Eq, Structural)]
pub enum CacheWrite {
    MessageAdded { room_id: u128 },
    MessageDeleted { room_id: u128 },
    RoomAdded { room_id: u128 },
    RoomUpdated { room_id: u128 },
    RoomDeleted { room_id: u128 },
    /// `room_id` is the room the user was placed in, if one was found.
    UserAdded { user_id: u128, room_id: Option<u128> },
    UserStatusChanged { user_id: u128 },
    UserDeleted { user_id: u128 },
    UserLeft { user_id: u128, room_id: u128 },
    UserJoined { user_id: u128, room_id: u128 },
}

/// What to do to the caches after a write: drop the entries of
/// `invalidate`, and put the value just written under `refresh`.
#[derive(Debug)]
pub struct CachePlan {
    pub invalidate: Vec<CacheKey>,
    pub refresh: Option<CacheKey>,
}

/// The entries dropped after a write.
pub open spec fn invalidated(w: CacheWrite) -> Seq<CacheKey> {
    match w {
        CacheWrite::MessageAdded { room_id } => seq![CacheKey::LatestMessages(room_id)],
        CacheWrite::MessageDeleted { room_id } => seq![CacheKey::LatestMessages(room_id)],
        CacheWrite::RoomAdded { room_id } => seq![CacheKey::AllRooms],
        CacheWrite::RoomUpdated { room_id } => seq![CacheKey::Room(room_id), CacheKey::AllRooms],
        CacheWrite::RoomDeleted { room_id } => seq![CacheKey::Room(room_id), CacheKey::AllRooms],
        CacheWrite::UserAdded { user_id, room_id } => match room_id {
            Some(r) => seq![CacheKey::UsersInRoom(r)],
            None => Seq::empty(),
        },
        CacheWrite::UserStatusChanged { user_id } => seq![CacheKey::User(user_id)],
        CacheWrite::UserDeleted { user_id } => seq![CacheKey::User(user_id)],
        CacheWrite::UserLeft { user_id, room_id } => seq![
            CacheKey::User(user_id),
            CacheKey::UsersInRoom(room_id),
        ],
        CacheWrite::UserJoined { user_id, room_id } => seq![
            CacheKey::User(user_id),
            CacheKey::UsersInRoom(room_id),
        ],
    }
}

/// The entry refilled with the value just written, if any.
pub open spec fn refreshed(w: CacheWrite) -> Option<CacheKey> {
    match w {
        CacheWrite::RoomAdded { room_id } => Some(CacheKey::Room(room_id)),
        CacheWrite::RoomUpdated { room_id } => Some(CacheKey::Room(room_id)),
        CacheWrite::UserAdded { user_id, room_id } => Some(CacheKey::User(user_id)),
        _ => None,
    }
}

/// The cache work after a write.
pub fn cache_plan(w: CacheWrite) -> (r: CachePlan)
    ensures
        r.invalidate@ == invalidated(w),
        r.refresh == refreshed(w),
{
    match w {
        CacheWrite::MessageAdded { room_id } => CachePlan {
            invalidate: vec![CacheKey::LatestMessages(room_id)],
            refresh: None,
        },
        CacheWrite::MessageDeleted { room_id } => CachePlan {
            invalidate: vec![CacheKey::LatestMessages(room_id)],
            refresh: None,
        },
        CacheWrite::RoomAdded { room_id } => CachePlan {
            invalidate: vec![CacheKey::AllRooms],
            refresh: Some(CacheKey::Room(room_id)),
        },
        CacheWrite::RoomUpdated { room_id } => CachePlan {
            invalidate: vec![CacheKey::Room(room_id), CacheKey::AllRooms],
            refresh: Some(CacheKey::Room(room_id)),
        },
        CacheWrite::RoomDeleted { room_id } => CachePlan {
            invalidate: vec![CacheKey::Room(room_id), CacheKey::AllRooms],
            refresh: None,
        },
        CacheWrite::UserAdded { user_id, room_id } => CachePlan {
            invalidate: match room_id {
                Some(r) => vec![CacheKey::UsersInRoom(r)],
                None => Vec::new(),
            },
            refresh: Some(CacheKey::User(user_id)),
        },
        CacheWrite::UserStatusChanged { user_id } => CachePlan {
            invalidate: vec![CacheKey::User(user_id)],
            refresh: None,
        },
        CacheWrite::UserDeleted { user_id } => CachePlan {
            invalidate: vec![CacheKey::User(user_id)],
            refresh: None,
        },
        CacheWrite::UserLeft { user_id, room_id } => CachePlan {
            invalidate: vec![CacheKey::User(user_id), CacheKey::UsersInRoom(room_id)],
            refresh: None,
        },
        CacheWrite::UserJoined { user_id, room_id } => CachePlan {
            invalidate: vec![CacheKey::User(user_id), CacheKey::UsersInRoom(room_id)],
            refresh: None,
        },
    }
}

/// What the database held before a write, as far as the caches are
/// concerned: the room of the user the write names, whether the room it
/// names had users or messages, and whether the user had sent messages.
pub struct WriteFacts {
    pub user_room: Option<u128>,
    pub room_had_users: bool,
    pub room_had_messages: bool,
    pub user_had_messages: bool,
}

/// Whether a write changes what the database answers for a cache entry.
/// Deleting a room removes its users from it and deletes its messages;
/// deleting a user deletes its messages; a user's status, room or removal
/// shows in the user list of the room it was in.
pub open spec fn changed_by(w: CacheWrite, f: WriteFacts, k: CacheKey) -> bool {
    match w {
        CacheWrite::MessageAdded { room_id } => k == CacheKey::LatestMessages(room_id),
        CacheWrite::MessageDeleted { room_id } => k == CacheKey::LatestMessages(room_id),
        CacheWrite::RoomAdded { room_id } => k == CacheKey::AllRooms || k == CacheKey::Room(room_id),
        CacheWrite::RoomUpdated { room_id } => k == CacheKey::Room(room_id) || k
            == CacheKey::AllRooms,
        CacheWrite::RoomDeleted { room_id } => k == CacheKey::Room(room_id) || k
            == CacheKey::AllRooms || (f.room_had_users && (k == CacheKey::UsersInRoom(room_id)
            || k is User)) || (f.room_had_messages && k == CacheKey::LatestMessages(room_id)),
        CacheWrite::UserAdded { user_id, room_id } => k == CacheKey::User(user_id) || (
        room_id matches Some(r) && k == CacheKey::UsersInRoom(r)),
        CacheWrite::UserStatusChanged { user_id } => k == CacheKey::User(user_id) || (
        f.user_room matches Some(r) && k == CacheKey::UsersInRoom(r)),
        CacheWrite::UserDeleted { user_id } => k == CacheKey::User(user_id) || (
        f.user_room matches Some(r) && k == CacheKey::UsersInRoom(r)) || (f.user_had_messages
            && k is LatestMessages),
        CacheWrite::UserLeft { user_id, room_id } => k == CacheKey::User(user_id) || (
        f.user_room matches Some(r) && k == CacheKey::UsersInRoom(r)),
        CacheWrite::UserJoined { user_id, room_id } => k == CacheKey::User(user_id) || k
            == CacheKey::UsersInRoom(room_id) || (f.user_room matches Some(r) && k
            == CacheKey::UsersInRoom(r)),
    }
}

/// The writes whose changes the plan covers. It does not cover deleting a
/// room that had users or messages, a status change or deletion of a user in
/// a room, deleting a user who had sent messages, or leaving or joining from
/// another room than the one named: the entries those also change are left
/// to expire.
pub open spec fn plan_covers(w: CacheWrite, f: WriteFacts) -> bool {
    match w {
        CacheWrite::RoomDeleted { room_id } => !f.room_had_users && !f.room_had_messages,
        CacheWrite::UserStatusChanged { user_id } => f.user_room is None,
        CacheWrite::UserDeleted { user_id } => f.user_room is None && !f.user_had_messages,
        CacheWrite::UserLeft { user_id, room_id } => f.user_room is None || f.user_room == Some(
            room_id,
        ),
        CacheWrite::UserJoined { user_id, room_id } => f.user_room is None || f.user_room == Some(
            room_id,
        ),
        _ => true,
    }
}

/// The cache agrees with the database wherever it holds an entry.
pub open spec fn coherent<V>(cache: Map<CacheKey, V>, db: spec_fn(CacheKey) -> V) -> bool {
    forall|k: CacheKey| #[trigger] cache.contains_key(k) ==> cache[k] == db(k)
}

/// The cache after the plan of a write, where `db` answers for the database
/// after the write.
pub open spec fn after_plan<V>(cache: Map<CacheKey, V>, w: CacheWrite, db: spec_fn(CacheKey) -> V) -> Map<
    CacheKey,
    V,
> {
    let kept = Map::new(
        |k: CacheKey| cache.contains_key(k) && !invalidated(w).contains(k),
        |k: CacheKey| cache[k],
    );
    match refreshed(w) {
        Some(k) => kept.insert(k, db(k)),
        None => kept,
    }
}

/// A read through the cache: the entry where there is one, else the database.
pub open spec fn cached_read<V>(cache: Map<CacheKey, V>, db: spec_fn(CacheKey) -> V, k: CacheKey) -> V {
    if cache.contains_key(k) {
        cache[k]
    } else {
        db(k)
    }
}

/// Every entry a covered write changes is dropped or refilled by its plan.
proof fn lemma_plan_covers_changes(w: CacheWrite, f: WriteFacts, k: CacheKey)
    requires
        plan_covers(w, f),
        changed_by(w, f, k),
    ensures
        invalidated(w).contains(k) || refreshed(w) == Some(k),
{
    let s = invalidated(w);
    match w {
        CacheWrite::MessageAdded { room_id } => assert(s[0] == k),
        CacheWrite::MessageDeleted { room_id } => assert(s[0] == k),
        CacheWrite::RoomAdded { room_id } => {
            if k == CacheKey::AllRooms {
                assert(s[0] == k);
            }
        },
        CacheWrite::RoomUpdated { room_id } => {
            if k == CacheKey::AllRooms {
                assert(s[1] == k);
            } else {
                assert(s[0] == k);
            }
        },
        CacheWrite::RoomDeleted { room_id } => {
            if k == CacheKey::AllRooms {
                assert(s[1] == k);
            } else {
                assert(s[0] == k);
            }
        },
        CacheWrite::UserAdded { user_id, room_id } => {
            if k != CacheKey::User(user_id) {
                assert(s[0] == k);
            }
        },
        CacheWrite::UserStatusChanged { user_id } => assert(s[0] == k),
        CacheWrite::UserDeleted { user_id } => assert(s[0] == k),
        CacheWrite::UserLeft { user_id, room_id } => {
            if k == CacheKey::User(user_id) {
                assert(s[0] == k);
            } else {
                assert(s[1] == k);
            }
        },
        CacheWrite::UserJoined { user_id, room_id } => {
            if k == CacheKey::User(user_id) {
                assert(s[0] == k);
            } else {
                assert(s[1] == k);
            }
        },
    }
}

/// A read after a write sees the write: where the cache agreed with the
/// database before a write whose changes the plan covers, it agrees again
/// after the plan, so every read through the cache gives what the database
/// now holds.
pub proof fn law_read_after_write<V>(
    cache: Map<CacheKey, V>,
    w: CacheWrite,
    f: WriteFacts,
    before: spec_fn(CacheKey) -> V,
    after: spec_fn(CacheKey) -> V,
)
    requires
        coherent(cache, before),
        forall|k: CacheKey| !changed_by(w, f, k) ==> #[trigger] after(k) == before(k),
        plan_covers(w, f),
    ensures
        coherent(after_plan(cache, w, after), after),
        forall|k: CacheKey| #[trigger] cached_read(after_plan(cache, w, after), after, k) == after(k),
{
    let c = after_plan(cache, w, after);
    assert forall|k: CacheKey| #[trigger] c.contains_key(k) implies c[k] == after(k) by {
        if refreshed(w) != Some(k) {
            assert(cache.contains_key(k) && !invalidated(w).contains(k));
            if changed_by(w, f, k) {
                lemma_plan_covers_changes(w, f, k);
            }
            assert(after(k) == before(k));
        }
    }
    assert forall|k: CacheKey| #[trigger] cached_read(c, after, k) == after(k) by {
        if c.contains_key(k) {
            assert(c[k] == after(k));
        }
    }
}

} // verus!
