use chat_room::config::{
    AppConfig, CacheConfig, EventBusConfig, LatestMessagesCacheConfig, MessageConfig,
    RateLimitConfig, RoomConfig,
};

#[test]
fn app_config_defaults() {
    let c = AppConfig::default();
    assert_eq!(c.cache.room.capacity, 500);
    assert_eq!(c.cache.room.ttl_secs, 300);
    assert_eq!(c.cache.all_rooms.capacity, 1);
    assert_eq!(c.cache.all_rooms.ttl_secs, 120);
    assert_eq!(c.cache.user.capacity, 5_000);
    assert_eq!(c.cache.user.ttl_secs, 120);
    assert_eq!(c.cache.users_in_room.capacity, 500);
    assert_eq!(c.cache.users_in_room.ttl_secs, 60);
    assert_eq!(c.cache.idempotency.capacity, 10_000);
    assert_eq!(c.cache.idempotency.ttl_secs, 300);
    assert_eq!(c.cache.typing_indicators.capacity, 10_000);
    assert_eq!(c.cache.typing_indicators.ttl_secs, 5);
    assert_eq!(c.event_bus.default_capacity, 1024);
    assert_eq!(c.event_bus.message_capacity, 2048);
    assert_eq!(c.message.max_length, 2_000);
    assert_eq!(c.room.default_capacity, 100);
    assert_eq!(c.room.max_capacity, 1_000);
}

#[test]
fn cache_config_defaults() {
    let c = CacheConfig::default();
    assert_eq!(c.latest_messages.capacity, 500);
    assert_eq!(c.latest_messages.ttl_secs, 30);
    assert_eq!(c.latest_messages.limit, 50);
    assert_eq!(c.rate_limit.capacity, 100_000);
    assert_eq!(c.rate_limit.window_secs, 10);
    assert_eq!(c.rate_limit.max_requests, 5);
}

#[test]
fn section_defaults() {
    let l = LatestMessagesCacheConfig::default();
    assert_eq!((l.capacity, l.ttl_secs, l.limit), (500, 30, 50));
    let r = RateLimitConfig::default();
    assert_eq!((r.capacity, r.window_secs, r.max_requests), (100_000, 10, 5));
    let e = EventBusConfig::default();
    assert_eq!((e.default_capacity, e.message_capacity), (1024, 2048));
    assert_eq!(MessageConfig::default().max_length, 2_000);
    let room = RoomConfig::default();
    assert_eq!((room.default_capacity, room.max_capacity), (100, 1_000));
}
