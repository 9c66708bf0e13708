//! The cursor-based pagination engine.

use apca_rest::activities::{Activity, ActivityType, GetAccountActivitiesByType};
use apca_rest::decimal::Decimal;
use apca_rest::pagination::{apply_cursor, next_state, PageCursor, PageState, DEFAULT_PAGE_SIZE};
use apca_rest::temporal::Date;

fn activity(id: &str) -> Activity {
    Activity::NonTradeActivity {
        activity_type: ActivityType::Dividend,
        id: id.to_string(),
        date: Date::new(2020, 1, 1),
        net_amount: Decimal::new(1, 0),
        symbol: None,
        qty: None,
        per_share_amount: None,
    }
}

#[test]
fn three_pages_of_sizes_two_two_one() {
    // page sizes (2, 2, 1) yield exactly five items; the engine stops
    // on the empty page that follows the short one
    let pages = vec![
        vec![activity("a1"), activity("a2")],
        vec![activity("b1"), activity("b2")],
        vec![activity("c1")],
        vec![],
    ];
    let mut state = PageState::Idle;
    let mut items: usize = 0;
    let mut cursors: Vec<PageCursor> = Vec::new();
    for page in &pages {
        assert!(!matches!(state, PageState::Exhausted));
        let ids: Vec<String> = page
            .iter()
            .map(|a| match a {
                Activity::NonTradeActivity { id, .. } => id.clone(),
                Activity::TradeActivity { id, .. } => id.clone(),
            })
            .collect();
        items += page.len();
        state = next_state(&state, &ids);
        if let PageState::HasCursor(c) = &state {
            cursors.push(c.clone());
        }
    }
    assert_eq!(items, 5);
    assert!(matches!(state, PageState::Exhausted));
    // the second request's token is the id of the last item of page one
    assert_eq!(cursors[0].page_token, "a2".to_string());
    assert_eq!(cursors[1].page_token, "b2".to_string());
    // the short page still yields a cursor: the stop policy is the
    // empty page, not the short one
    assert_eq!(cursors.len(), 3);
    assert_eq!(cursors[2].page_token, "c1".to_string());
    // the page size is inherited from cursor to cursor
    assert_eq!(cursors[0].page_size, DEFAULT_PAGE_SIZE);
    assert_eq!(cursors[2].page_size, DEFAULT_PAGE_SIZE);
}

#[test]
fn by_type_paginator_matches_engine() {
    let page = vec![activity("x1"), activity("x2")];
    let c = GetAccountActivitiesByType::next_page(None, &page).unwrap();
    assert_eq!(c.page_size, DEFAULT_PAGE_SIZE);
    assert_eq!(c.page_token, "x2".to_string());
    let prev = PageCursor {
        page_size: 10,
        page_token: "x2".to_string(),
    };
    let c2 = GetAccountActivitiesByType::next_page(Some(&prev), &vec![activity("y1")]).unwrap();
    assert_eq!(c2.page_size, 10);
    assert_eq!(c2.page_token, "y1".to_string());
    assert!(GetAccountActivitiesByType::next_page(Some(&prev), &vec![]).is_none());
}

#[test]
fn cursor_replaces_stale_query_parameters() {
    let query = vec![
        ("direction".to_string(), "asc".to_string()),
        ("page_size".to_string(), "10".to_string()),
        ("page_token".to_string(), "old".to_string()),
    ];
    let cursor = PageCursor {
        page_size: 25,
        page_token: "new".to_string(),
    };
    let merged = apply_cursor(&query, &cursor);
    assert_eq!(
        merged,
        vec![
            ("direction".to_string(), "asc".to_string()),
            ("page_size".to_string(), "25".to_string()),
            ("page_token".to_string(), "new".to_string()),
        ]
    );
}
