//! Cursor-based pagination of a room's messages, newest first.
//!
//! The database answers a page query with the room's messages ordered by
//! public id (UUIDv7, so by creation time), newest first, those below the
//! cursor only, at most `limit + 1` of them. The functions here turn such
//! rows into a page, decide when the latest-messages cache can serve a
//! request, and cut a cached first page down to a smaller limit.

use vstd::prelude::*;
use crate::domain::{CursorPage, Message};

verus! {

/// The abstract content of a page of messages.
pub struct PageView {
    pub items: Seq<Message>,
    pub next_cursor: Option<u128>,
    pub has_next_page: bool,
}

/// The abstract content of a page.
pub open spec fn page_view(p: &CursorPage<Message>) -> PageView {
    PageView { items: p.items@, next_cursor: p.next_cursor, has_next_page: p.has_next_page }
}

/// The first `n` elements of `s`, or all of them where it has fewer.
pub open spec fn prefix(s: Seq<Message>, n: nat) -> Seq<Message> {
    if n >= s.len() {
        s
    } else {
        s.take(n as int)
    }
}

/// Messages ordered newest first: public ids strictly decreasing.
pub open spec fn newest_first(h: Seq<Message>) -> bool {
    forall|i: int, j: int| 0 <= i < j < h.len() ==> h[i].id > h[j].id
}

/// The messages of `h` that come after the cursor: those whose public id is
/// below it, in their order; all of `h` where there is no cursor.
pub open spec fn after_cursor(h: Seq<Message>, cursor: Option<u128>) -> Seq<Message>
    decreases h.len(),
{
    match cursor {
        None => h,
        Some(c) => if h.len() == 0 {
            h
        } else if h[0].id < c {
            seq![h[0]] + after_cursor(h.drop_first(), cursor)
        } else {
            after_cursor(h.drop_first(), cursor)
        },
    }
}

/// What the database returns for a page query on a room whose messages,
/// newest first, are `h`: those after the cursor, at most `limit + 1` of them.
pub open spec fn page_rows(h: Seq<Message>, cursor: Option<u128>, limit: nat) -> Seq<Message> {
    prefix(after_cursor(h, cursor), limit + 1)
}

/// The page made of rows fetched with one row more than the limit: at most
/// `limit` items, a next page exactly when the extra row came, and then the
/// last item's id as the cursor where the page holds an item (with a limit
/// of 0 there is none, and the cursor is `None`).
pub open spec fn spec_page(rows: Seq<Message>, limit: nat) -> PageView {
    let has_next = rows.len() > limit;
    let items = prefix(rows, limit);
    PageView {
        items,
        next_cursor: if has_next && limit > 0 {
            Some(items.last().id)
        } else {
            None
        },
        has_next_page: has_next,
    }
}

/// A cached first page cut down to `limit` items: unchanged where it has no
/// more, else its first `limit` items, with a next page and the last kept
/// item's id as the cursor where some item was kept.
pub open spec fn spec_slice(page: PageView, limit: nat) -> PageView {
    if limit >= page.items.len() {
        page
    } else {
        let items = page.items.take(limit as int);
        PageView {
            items,
            next_cursor: if limit > 0 {
                Some(items.last().id)
            } else {
                None
            },
            has_next_page: true,
        }
    }
}

/// How a page request is served.
#[derive(Clone, Copy, Debug, PartialEq, Eq, Structural)]
pub enum MessagePagePlan {
    /// From the latest-messages cache, filled on a miss by a first-page query
    /// of `fetch` rows for `cache_limit` items; the cached page is then cut
    /// down to the limit.
    CachedFirstPage { fetch: u64 },
    /// Straight from the database, with `fetch` rows for `limit` items.
    Direct { cursor: Option<u128>, fetch: u64 },
}

/// Decides how a page request is served: first pages of at most
/// `cache_limit` items come from the cache, everything else from the database.
pub fn plan_message_page(cursor: Option<u128>, limit: u64, cache_limit: u64) -> (r:
    MessagePagePlan)
    requires
        limit < u64::MAX,
        cache_limit < u64::MAX,
    ensures
        (limit <= cache_limit && cursor is None) ==> r == (MessagePagePlan::CachedFirstPage {
            fetch: (cache_limit + 1) as u64,
        }),
        !(limit <= cache_limit && cursor is None) ==> r == (MessagePagePlan::Direct {
            cursor,
            fetch: (limit + 1) as u64,
        }),
{
    if limit <= cache_limit && cursor.is_none() {
        MessagePagePlan::CachedFirstPage { fetch: cache_limit + 1 }
    } else {
        MessagePagePlan::Direct { cursor, fetch: limit + 1 }
    }
}

/// Builds a page from rows fetched with one more row than `limit`.
pub fn build_page(rows: Vec<Message>, limit: u64) -> (r: CursorPage<Message>)
    ensures
        page_view(&r) == spec_page(rows@, limit as nat),
{
    let has_next_page = rows.len() as u64 > limit;
    let mut items = rows;
    if has_next_page {
        items.truncate(limit as usize);
    }
    let next_cursor = if has_next_page && limit > 0 {
        Some(items[items.len() - 1].id)
    } else {
        None
    };
    let r = CursorPage { items, next_cursor, has_next_page };
    assert(page_view(&r).items =~= spec_page(rows@, limit as nat).items);
    r
}

/// Cuts a cached first page down to `limit` items.
pub fn slice_cached_page(cached: CursorPage<Message>, limit: u64) -> (r: CursorPage<Message>)
    ensures
        page_view(&r) == spec_slice(page_view(&cached), limit as nat),
{
    if limit as usize >= cached.items.len() || limit >= cached.items.len() as u64 {
        return cached;
    }
    let mut items = cached.items;
    items.truncate(limit as usize);
    let next_cursor = if limit > 0 {
        Some(items[items.len() - 1].id)
    } else {
        None
    };
    CursorPage { items, next_cursor, has_next_page: true }
}

/// Serving a first page of at most the cache's limit from a fresh cache gives
/// the same page as asking the database for it directly.
pub proof fn law_cached_first_page_matches_direct(h: Seq<Message>, cache_limit: nat, limit: nat)
    requires
        limit <= cache_limit,
    ensures
        spec_slice(spec_page(page_rows(h, None, cache_limit), cache_limit), limit) == spec_page(
            page_rows(h, None, limit),
            limit,
        ),
{
    let big = spec_page(page_rows(h, None, cache_limit), cache_limit);
    let direct = spec_page(page_rows(h, None, limit), limit);
    assert(big.items =~= prefix(h, cache_limit));
    if limit >= big.items.len() {
        if h.len() <= limit {
            assert(direct.items =~= h);
        } else {
            assert(limit == cache_limit);
        }
    } else {
        assert(big.items.take(limit as int) =~= h.take(limit as int));
        assert(direct.items =~= h.take(limit as int));
    }
}

/// Every message after a cursor is one of the messages.
proof fn lemma_after_cursor_within(h: Seq<Message>, cursor: Option<u128>)
    ensures
        forall|i: int|
            0 <= i < after_cursor(h, cursor).len() ==> h.contains(#[trigger] after_cursor(h, cursor)[i]),
        forall|i: int|
            0 <= i < after_cursor(h, cursor).len() ==> (cursor matches Some(c) ==> #[trigger] after_cursor(h, cursor)[i].id < c),
    decreases h.len(),
{
    if let Some(c) = cursor {
        if h.len() > 0 {
            let t = h.drop_first();
            lemma_after_cursor_within(t, cursor);
            let a = after_cursor(h, cursor);
            assert forall|i: int| 0 <= i < a.len() implies h.contains(#[trigger] a[i]) by {
                if h[0].id < c {
                    if i == 0 {
                        assert(h[0] == a[i]);
                    } else {
                        assert(a[i] == after_cursor(t, cursor)[i - 1]);
                        let k = choose|k: int| 0 <= k < t.len() && t[k] == a[i];
                        assert(h[k + 1] == a[i]);
                    }
                } else {
                    let k = choose|k: int| 0 <= k < t.len() && t[k] == a[i];
                    assert(h[k + 1] == a[i]);
                }
            }
            assert forall|i: int| 0 <= i < a.len() implies #[trigger] a[i].id < c by {
                if h[0].id < c && i > 0 {
                    assert(a[i] == after_cursor(t, cursor)[i - 1]);
                }
            }
        }
    }
}

/// What comes after a cursor is again newest first.
proof fn lemma_after_cursor_newest_first(h: Seq<Message>, cursor: Option<u128>)
    requires
        newest_first(h),
    ensures
        newest_first(after_cursor(h, cursor)),
    decreases h.len(),
{
    if let Some(c) = cursor {
        if h.len() > 0 {
            let t = h.drop_first();
            assert(newest_first(t)) by {
                assert forall|i: int, j: int| 0 <= i < j < t.len() implies t[i].id > t[j].id by {
                    assert(t[i] == h[i + 1] && t[j] == h[j + 1]);
                }
            }
            lemma_after_cursor_newest_first(t, cursor);
            lemma_after_cursor_within(t, cursor);
            if h[0].id < c {
                let a = after_cursor(h, cursor);
                let at = after_cursor(t, cursor);
                assert forall|i: int, j: int| 0 <= i < j < a.len() implies a[i].id > a[j].id by {
                    if i == 0 {
                        assert(a[j] == at[j - 1]);
                        assert(t.contains(at[j - 1]));
                        let k = choose|k: int| 0 <= k < t.len() && t[k] == at[j - 1];
                        assert(h[k + 1] == t[k]);
                    } else {
                        assert(a[i] == at[i - 1] && a[j] == at[j - 1]);
                    }
                }
            }
        }
    }
}

/// Where every message is below the cursor, all of them come after it.
proof fn lemma_after_cursor_all_below(h: Seq<Message>, c: u128)
    requires
        forall|i: int| 0 <= i < h.len() ==> #[trigger] h[i].id < c,
    ensures
        after_cursor(h, Some(c)) == h,
    decreases h.len(),
{
    if h.len() > 0 {
        let t = h.drop_first();
        assert forall|i: int| 0 <= i < t.len() implies #[trigger] t[i].id < c by {
            assert(t[i] == h[i + 1]);
        }
        lemma_after_cursor_all_below(t, c);
        assert(seq![h[0]] + t =~= h);
    }
}

/// In messages ordered newest first, what comes after the id of the message
/// at `k` is everything behind position `k`.
proof fn lemma_after_cursor_at(h: Seq<Message>, k: int)
    requires
        newest_first(h),
        0 <= k < h.len(),
    ensures
        after_cursor(h, Some(h[k].id)) == h.skip(k + 1),
    decreases h.len(),
{
    let t = h.drop_first();
    assert(newest_first(t)) by {
        assert forall|i: int, j: int| 0 <= i < j < t.len() implies t[i].id > t[j].id by {
            assert(t[i] == h[i + 1] && t[j] == h[j + 1]);
        }
    }
    if k == 0 {
        assert forall|i: int| 0 <= i < t.len() implies #[trigger] t[i].id < h[0].id by {
            assert(t[i] == h[i + 1]);
        }
        lemma_after_cursor_all_below(t, h[0].id);
        assert(t =~= h.skip(1));
    } else {
        assert(t[k - 1] == h[k]);
        lemma_after_cursor_at(t, k - 1);
        assert(t.skip(k) =~= h.skip(k + 1));
    }
}

/// Cutting at a lower cursor after cutting at a higher one is cutting at the
/// lower one.
proof fn lemma_after_cursor_twice(h: Seq<Message>, first: Option<u128>, x: u128)
    requires
        first matches Some(c) ==> x < c,
    ensures
        after_cursor(after_cursor(h, first), Some(x)) == after_cursor(h, Some(x)),
    decreases h.len(),
{
    if let Some(c) = first {
        if h.len() > 0 {
            let t = h.drop_first();
            lemma_after_cursor_twice(t, first, x);
            if h[0].id < c {
                let s = seq![h[0]] + after_cursor(t, first);
                assert(s[0] == h[0]);
                assert(s.drop_first() =~= after_cursor(t, first));
            }
        }
    }
}

/// Following a page's cursor continues exactly where the page ended: what
/// comes after the new cursor is what came after the old one, less the page's
/// items.
pub proof fn law_next_cursor_continues(h: Seq<Message>, cursor: Option<u128>, limit: nat)
    requires
        newest_first(h),
        limit > 0,
        spec_page(page_rows(h, cursor, limit), limit).has_next_page,
    ensures
        after_cursor(h, spec_page(page_rows(h, cursor, limit), limit).next_cursor) == after_cursor(
            h,
            cursor,
        ).skip(limit as int),
{
    let s = after_cursor(h, cursor);
    let p = spec_page(page_rows(h, cursor, limit), limit);
    lemma_after_cursor_newest_first(h, cursor);
    lemma_after_cursor_within(h, cursor);
    assert(page_rows(h, cursor, limit).take(limit as int) =~= s.take(limit as int));
    let x = s[limit - 1].id;
    assert(p.next_cursor == Some(x));
    lemma_after_cursor_at(s, limit - 1);
    assert(cursor matches Some(c) ==> x < c);
    lemma_after_cursor_twice(h, cursor, x);
}

/// Two consecutive pages, the second fetched with the first's cursor, hold
/// exactly the first `2 * limit` messages after the starting cursor, in
/// order: nothing is skipped and nothing is repeated.
pub proof fn law_consecutive_pages(h: Seq<Message>, cursor: Option<u128>, limit: nat)
    requires
        newest_first(h),
        limit > 0,
        spec_page(page_rows(h, cursor, limit), limit).has_next_page,
    ensures
        spec_page(page_rows(h, cursor, limit), limit).items + spec_page(
            page_rows(h, spec_page(page_rows(h, cursor, limit), limit).next_cursor, limit),
            limit,
        ).items == prefix(after_cursor(h, cursor), 2 * limit),
{
    let s = after_cursor(h, cursor);
    let p = spec_page(page_rows(h, cursor, limit), limit);
    law_next_cursor_continues(h, cursor, limit);
    let q = spec_page(page_rows(h, p.next_cursor, limit), limit);
    assert(p.items =~= s.take(limit as int));
    assert(q.items =~= prefix(s.skip(limit as int), limit));
    assert(p.items + q.items =~= prefix(s, 2 * limit));
}

/// The pages a client gets by starting at `cursor` and following each page's
/// cursor for as long as the page says a next one exists.
pub open spec fn page_chain(h: Seq<Message>, cursor: Option<u128>, limit: nat) -> Seq<PageView>
    decreases after_cursor(h, cursor).len(),
    when newest_first(h) && limit > 0
{
    let p = spec_page(page_rows(h, cursor, limit), limit);
    if p.has_next_page {
        proof {
            law_next_cursor_continues(h, cursor, limit);
        }
        seq![p] + page_chain(h, p.next_cursor, limit)
    } else {
        seq![p]
    }
}

/// The items of a run of pages, page after page.
pub open spec fn chain_items(pages: Seq<PageView>) -> Seq<Message>
    decreases pages.len(),
{
    if pages.len() == 0 {
        Seq::empty()
    } else {
        pages[0].items + chain_items(pages.drop_first())
    }
}

/// The number of pages of `n` items at `limit` per page: one page where there
/// is nothing, else `n / limit` rounded up.
pub open spec fn page_count(n: nat, limit: nat) -> nat {
    if n == 0 {
        1
    } else {
        ((n + limit - 1) / limit as int) as nat
    }
}

/// Following the cursors from a starting cursor until the last page yields
/// every message after the starting cursor exactly once, newest first, with
/// no gap and no repeat, in `page_count` pages; from no cursor, that is every
/// message of the room.
pub proof fn law_page_chain(h: Seq<Message>, cursor: Option<u128>, limit: nat)
    requires
        newest_first(h),
        limit > 0,
    ensures
        chain_items(page_chain(h, cursor, limit)) == after_cursor(h, cursor),
        page_chain(h, cursor, limit).len() == page_count(after_cursor(h, cursor).len(), limit),
        cursor is None ==> chain_items(page_chain(h, cursor, limit)) == h,
    decreases after_cursor(h, cursor).len(),
{
    let s = after_cursor(h, cursor);
    let n = s.len();
    let p = spec_page(page_rows(h, cursor, limit), limit);
    let chain = page_chain(h, cursor, limit);
    if p.has_next_page {
        law_next_cursor_continues(h, cursor, limit);
        law_page_chain(h, p.next_cursor, limit);
        let rest = page_chain(h, p.next_cursor, limit);
        assert(chain == seq![p] + rest);
        assert(chain.drop_first() =~= rest);
        assert(p.items =~= s.take(limit as int));
        assert(s.take(limit as int) + s.skip(limit as int) =~= s);
        assert(chain_items(chain) == p.items + chain_items(rest));
        assert((n - limit) as nat > 0);
        let m = (n - limit) as nat;
        assert(after_cursor(h, p.next_cursor).len() == m);
        assert(rest.len() == page_count(m, limit));
        assert(rest.len() == ((m + limit - 1) / limit as int) as nat);
        vstd::arithmetic::div_mod::lemma_div_plus_one(m + limit - 1, limit as int);
        assert(limit + (m + limit - 1) == n + limit - 1);
        assert(chain.len() == 1 + rest.len());
    } else {
        assert(chain == seq![p]);
        assert(chain.drop_first() =~= Seq::<PageView>::empty());
        let rows = page_rows(h, cursor, limit);
        assert(rows == prefix(s, limit + 1));
        if n > limit {
            assert(rows.len() == limit + 1);
        }
        assert(n <= limit);
        assert(rows == s);
        assert(p.items =~= s);
        assert(chain[0] == p);
        assert(chain_items(chain.drop_first()) =~= Seq::<Message>::empty());
        assert(chain_items(chain) == p.items + Seq::<Message>::empty());
        assert(chain_items(chain) =~= p.items);
        if n > 0 {
            vstd::arithmetic::div_mod::lemma_basic_div(n - 1, limit as int);
            vstd::arithmetic::div_mod::lemma_div_plus_one(n - 1, limit as int);
        }
    }
}

} // verus!
