//! Idempotent creation. A client-generated key accompanies each creating
//! request, and the services serve it through the idempotency cache's
//! get-or-create: while the key's entry lives, a retry is answered with the
//! value first created instead of creating again; failed attempts are not
//! remembered, so a retry after a failure tries again. `serve` states that
//! rule over the cache's contents, leaving out expiry and eviction; the
//! get-or-create itself is the asynchronous cache's, outside this library.
//!
//! Rooms and users are keyed by the client's key alone; messages by the
//! sender together with the client's key, built by `message_key`.

use vstd::prelude::*;

verus! {

/// The idempotency-cache key of a message: the sender and the client's key.
#[derive(Clone, Copy, Debug, PartialEq, Eq, Hash, Structural)]
pub struct MessageKey {
    pub user_id: u128,
    pub key: u128,
}

/// The key under which a message sent by `user_id` with the client's `key`
/// is remembered.
pub fn message_key(user_id: u128, key: u128) -> (r: MessageKey)
    ensures
        r == (MessageKey { user_id, key }),
{
    MessageKey { user_id, key }
}

/// The cache and the answer after serving a creating request with `key`,
/// where `created` is what creating would give.
pub open spec fn serve<K, T, E>(cache: Map<K, T>, key: K, created: Result<T, E>) -> (
    Map<K, T>,
    Result<T, E>,
) {
    if cache.contains_key(key) {
        (cache, Ok(cache[key]))
    } else {
        match created {
            Ok(v) => (cache.insert(key, v), Ok(v)),
            Err(e) => (cache, Err(e)),
        }
    }
}

/// A retry with the same key gets the answer of the first successful
/// request, whatever creating again would give, and leaves the cache as it is.
pub proof fn law_retry_replays_first_result<K, T, E>(
    cache: Map<K, T>,
    key: K,
    first: Result<T, E>,
    retry: Result<T, E>,
)
    requires
        serve(cache, key, first).1 is Ok,
    ensures
        serve(serve(cache, key, first).0, key, retry).1 == serve(cache, key, first).1,
        serve(serve(cache, key, first).0, key, retry).0 == serve(cache, key, first).0,
{
}

/// A failed creation leaves no trace: a retry creates again.
pub proof fn law_failure_is_not_remembered<K, T, E>(
    cache: Map<K, T>,
    key: K,
    first: Result<T, E>,
    retry: Result<T, E>,
)
    requires
        serve(cache, key, first).1 is Err,
    ensures
        serve(cache, key, first).0 == cache,
        serve(serve(cache, key, first).0, key, retry) == serve(cache, key, retry),
{
}

/// Requests under other keys do not affect each other: serving one key
/// leaves the answer for any other key as it was.
pub proof fn law_other_keys_unaffected<K, T, E>(
    cache: Map<K, T>,
    key: K,
    first: Result<T, E>,
    other: K,
    created: Result<T, E>,
)
    requires
        other != key,
    ensures
        serve(serve(cache, key, first).0, other, created).1 == serve(cache, other, created).1,
{
}

/// Message keys are scoped to the sender: two senders using the same client
/// key get different cache keys, so one sender's message is never replayed to
/// the other.
pub proof fn law_message_keys_scoped_by_sender<T, E>(
    cache: Map<MessageKey, T>,
    sender: u128,
    other_sender: u128,
    key: u128,
    first: Result<T, E>,
    created: Result<T, E>,
)
    requires
        sender != other_sender,
    ensures
        (MessageKey { user_id: sender, key }) != (MessageKey { user_id: other_sender, key }),
        serve(
            serve(cache, MessageKey { user_id: sender, key }, first).0,
            MessageKey { user_id: other_sender, key },
            created,
        ).1 == serve(cache, MessageKey { user_id: other_sender, key }, created).1,
{
    law_other_keys_unaffected(
        cache,
        MessageKey { user_id: sender, key },
        first,
        MessageKey { user_id: other_sender, key },
        created,
    );
}

} // verus!
