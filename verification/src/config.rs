//! Application configuration and its defaults.

use vstd::prelude::*;

verus! {

/// Capacity and time-to-live of one cache.
#[derive(Clone, Copy, Debug)]
pub struct CacheEntry {
    pub capacity: u64,
    pub ttl_secs: u64,
}

/// Settings of the latest-messages cache.
#[derive(Clone, Copy, Debug)]
pub struct LatestMessagesCacheConfig {
    pub capacity: u64,
    pub ttl_secs: u64,
    /// Maximum number of messages served from the cache.
    /// Requests for more than this bypass the cache and hit the database.
    pub limit: u64,
}

impl Default for LatestMessagesCacheConfig {
    fn default() -> (r: Self)
        ensures
            r.capacity == 500,
            r.ttl_secs == 30,
            r.limit == 50,
    {
        LatestMessagesCacheConfig { capacity: 500, ttl_secs: 30, limit: 50 }
    }
}

/// Per-user rate limiting of write operations.
#[derive(Clone, Copy, Debug)]
pub struct RateLimitConfig {
    pub capacity: u64,
    pub window_secs: u64,
    pub max_requests: u32,
}

impl Default for RateLimitConfig {
    fn default() -> (r: Self)
        ensures
            r.capacity == 100_000,
            r.window_secs == 10,
            r.max_requests == 5,
    {
        RateLimitConfig { capacity: 100_000, window_secs: 10, max_requests: 5 }
    }
}

/// Settings of every cache of the service layer.
#[derive(Clone, Copy, Debug)]
pub struct CacheConfig {
    pub room: CacheEntry,
    pub all_rooms: CacheEntry,
    pub user: CacheEntry,
    pub users_in_room: CacheEntry,
    pub latest_messages: LatestMessagesCacheConfig,
    pub idempotency: CacheEntry,
    pub typing_indicators: CacheEntry,
    pub rate_limit: RateLimitConfig,
}

impl Default for CacheConfig {
    fn default() -> (r: Self)
        ensures
            r.room == (CacheEntry { capacity: 500, ttl_secs: 300 }),
            r.all_rooms == (CacheEntry { capacity: 1, ttl_secs: 120 }),
            r.user == (CacheEntry { capacity: 5_000, ttl_secs: 120 }),
            r.users_in_room == (CacheEntry { capacity: 500, ttl_secs: 60 }),
            r.latest_messages == (LatestMessagesCacheConfig { capacity: 500, ttl_secs: 30, limit: 50 }),
            r.idempotency == (CacheEntry { capacity: 10_000, ttl_secs: 300 }),
            r.typing_indicators == (CacheEntry { capacity: 10_000, ttl_secs: 5 }),
            r.rate_limit == (RateLimitConfig { capacity: 100_000, window_secs: 10, max_requests: 5 }),
    {
        CacheConfig {
            room: CacheEntry { capacity: 500, ttl_secs: 300 },
            all_rooms: CacheEntry { capacity: 1, ttl_secs: 120 },
            user: CacheEntry { capacity: 5_000, ttl_secs: 120 },
            users_in_room: CacheEntry { capacity: 500, ttl_secs: 60 },
            latest_messages: LatestMessagesCacheConfig::default(),
            idempotency: CacheEntry { capacity: 10_000, ttl_secs: 300 },
            typing_indicators: CacheEntry { capacity: 10_000, ttl_secs: 5 },
            rate_limit: RateLimitConfig::default(),
        }
    }
}

/// Capacities of the event bus channels.
#[derive(Clone, Copy, Debug)]
pub struct EventBusConfig {
    pub default_capacity: usize,
    pub message_capacity: usize,
}

impl Default for EventBusConfig {
    fn default() -> (r: Self)
        ensures
            r.default_capacity == 1024,
            r.message_capacity == 2048,
    {
        EventBusConfig { default_capacity: 1024, message_capacity: 2048 }
    }
}

/// Message validation settings.
#[derive(Clone, Copy, Debug)]
pub struct MessageConfig {
    /// Maximum message length, counted in characters.
    pub max_length: usize,
}

impl Default for MessageConfig {
    fn default() -> (r: Self)
        ensures
            r.max_length == 2_000,
    {
        MessageConfig { max_length: 2_000 }
    }
}

/// Room creation settings.
#[derive(Clone, Copy, Debug)]
pub struct RoomConfig {
    pub default_capacity: u32,
    pub max_capacity: u32,
}

impl Default for RoomConfig {
    fn default() -> (r: Self)
        ensures
            r.default_capacity == 100,
            r.max_capacity == 1_000,
    {
        RoomConfig { default_capacity: 100, max_capacity: 1_000 }
    }
}

/// Top-level application configuration.
#[derive(Clone, Copy, Debug)]
pub struct AppConfig {
    pub cache: CacheConfig,
    pub event_bus: EventBusConfig,
    pub message: MessageConfig,
    pub room: RoomConfig,
}

impl Default for AppConfig {
    fn default() -> (r: Self)
        ensures
            r.cache.room == (CacheEntry { capacity: 500, ttl_secs: 300 }),
            r.cache.all_rooms == (CacheEntry { capacity: 1, ttl_secs: 120 }),
            r.cache.user == (CacheEntry { capacity: 5_000, ttl_secs: 120 }),
            r.cache.users_in_room == (CacheEntry { capacity: 500, ttl_secs: 60 }),
            r.cache.latest_messages == (LatestMessagesCacheConfig { capacity: 500, ttl_secs: 30, limit: 50 }),
            r.cache.idempotency == (CacheEntry { capacity: 10_000, ttl_secs: 300 }),
            r.cache.typing_indicators == (CacheEntry { capacity: 10_000, ttl_secs: 5 }),
            r.cache.rate_limit == (RateLimitConfig { capacity: 100_000, window_secs: 10, max_requests: 5 }),
            r.event_bus == (EventBusConfig { default_capacity: 1024, message_capacity: 2048 }),
            r.message == (MessageConfig { max_length: 2_000 }),
            r.room == (RoomConfig { default_capacity: 100, max_capacity: 1_000 }),
    {
        AppConfig {
            cache: CacheConfig::default(),
            event_bus: EventBusConfig::default(),
            message: MessageConfig::default(),
            room: RoomConfig::default(),
        }
    }
}

} // verus!
