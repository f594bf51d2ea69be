use chat_room::domain::{CursorPage, Message, Timestamp};
use chat_room::pagination::{build_page, plan_message_page, slice_cached_page, MessagePagePlan};

fn msg(id: u128) -> Message {
    Message {
        id,
        created_at: Timestamp { secs: id as i64, nanos: 0 },
        content: format!("m{id}"),
        sender: 1,
        room: 2,
    }
}

/// Newest first: ids n, n-1, ..., 1.
fn history(n: u128) -> Vec<Message> {
    (1..=n).rev().map(msg).collect()
}

/// What the database returns: messages below the cursor, at most `fetch` of them.
fn rows(h: &[Message], cursor: Option<u128>, fetch: u64) -> Vec<Message> {
    h.iter()
        .filter(|m| cursor.map_or(true, |c| m.id < c))
        .take(fetch as usize)
        .cloned()
        .collect()
}

fn ids(p: &CursorPage<Message>) -> Vec<u128> {
    p.items.iter().map(|m| m.id).collect()
}

#[test]
fn page_with_more_rows_than_the_limit() {
    let h = history(10);
    let p = build_page(rows(&h, None, 4), 3);
    assert_eq!(ids(&p), vec![10, 9, 8]);
    assert!(p.has_next_page);
    assert_eq!(p.next_cursor, Some(8));
}

#[test]
fn last_page_has_no_cursor() {
    let h = history(3);
    let p = build_page(rows(&h, None, 4), 3);
    assert_eq!(ids(&p), vec![3, 2, 1]);
    assert!(!p.has_next_page);
    assert_eq!(p.next_cursor, None);
}

#[test]
fn empty_room_gives_empty_page() {
    let p = build_page(Vec::new(), 20);
    assert!(p.items.is_empty());
    assert!(!p.has_next_page);
    assert_eq!(p.next_cursor, None);
}

#[test]
fn zero_limit_page() {
    let h = history(2);
    let p = build_page(rows(&h, None, 1), 0);
    assert!(p.items.is_empty());
    // More rows exist, but an empty page has no item to point the cursor at.
    assert!(p.has_next_page);
    assert_eq!(p.next_cursor, None);
}

#[test]
fn page_chain_counts_pages() {
    // 7 messages at 3 per page: ceil(7 / 3) = 3 pages; an empty room: one page.
    for (n, limit, pages) in [(7u128, 3u64, 3usize), (6, 3, 2), (0, 3, 1), (1, 5, 1)] {
        let h = history(n);
        let mut cursor = None;
        let mut seen = Vec::new();
        let mut count = 0;
        loop {
            let p = build_page(rows(&h, cursor, limit + 1), limit);
            count += 1;
            seen.extend(ids(&p));
            if !p.has_next_page {
                break;
            }
            cursor = p.next_cursor;
        }
        assert_eq!(count, pages);
        assert_eq!(seen, (1..=n).rev().collect::<Vec<_>>());
    }
}

#[test]
fn following_cursors_walks_the_history_without_gaps() {
    let h = history(7);
    let mut cursor = None;
    let mut seen = Vec::new();
    loop {
        let p = build_page(rows(&h, cursor, 3), 2);
        seen.extend(ids(&p));
        if !p.has_next_page {
            break;
        }
        cursor = p.next_cursor;
    }
    assert_eq!(seen, vec![7, 6, 5, 4, 3, 2, 1]);
}

#[test]
fn consecutive_pages_hold_the_first_two_limits() {
    let h = history(9);
    let p1 = build_page(rows(&h, Some(9), 4), 3);
    assert_eq!(ids(&p1), vec![8, 7, 6]);
    let p2 = build_page(rows(&h, p1.next_cursor, 4), 3);
    assert_eq!(ids(&p2), vec![5, 4, 3]);
}

#[test]
fn plan_uses_cache_only_for_small_first_pages() {
    assert_eq!(plan_message_page(None, 20, 50), MessagePagePlan::CachedFirstPage { fetch: 51 });
    assert_eq!(plan_message_page(None, 50, 50), MessagePagePlan::CachedFirstPage { fetch: 51 });
    assert_eq!(
        plan_message_page(None, 51, 50),
        MessagePagePlan::Direct { cursor: None, fetch: 52 }
    );
    assert_eq!(
        plan_message_page(Some(7), 20, 50),
        MessagePagePlan::Direct { cursor: Some(7), fetch: 21 }
    );
}

#[test]
fn slicing_a_cached_page() {
    let h = history(60);
    let cached = build_page(rows(&h, None, 51), 50);
    let p = slice_cached_page(cached, 20);
    assert_eq!(p.items.len(), 20);
    assert_eq!(p.items[0].id, 60);
    assert_eq!(p.next_cursor, Some(41));
    assert!(p.has_next_page);
}

#[test]
fn slicing_keeps_a_small_cached_page() {
    let h = history(5);
    let cached = build_page(rows(&h, None, 51), 50);
    let p = slice_cached_page(cached, 20);
    assert_eq!(ids(&p), vec![5, 4, 3, 2, 1]);
    assert!(!p.has_next_page);
    assert_eq!(p.next_cursor, None);
}

#[test]
fn cached_first_page_matches_direct_query() {
    for n in [0u128, 1, 5, 20, 21, 50, 51, 70] {
        let h = history(n);
        for limit in [0u64, 1, 3, 20, 50] {
            let cached = slice_cached_page(build_page(rows(&h, None, 51), 50), limit);
            let direct = build_page(rows(&h, None, limit + 1), limit);
            assert_eq!(ids(&cached), ids(&direct));
            assert_eq!(cached.next_cursor, direct.next_cursor);
            assert_eq!(cached.has_next_page, direct.has_next_page);
        }
    }
}
