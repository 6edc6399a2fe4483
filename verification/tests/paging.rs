use asimov_telegram_module::telegram::messages::Message;
use asimov_telegram_module::telegram::paging::{
    Collection, PageCursor, PageFailure, PageRequest, PaginatedFetcher, Position, HISTORY_PAGE,
    INACCESSIBLE, MEMBERS_PAGE, PAGE_TIMEOUT_SECS,
};
use asimov_telegram_module::telegram::requests::Request;

fn members(limit: Option<usize>, cap: usize) -> PaginatedFetcher {
    PaginatedFetcher::new(
        Collection::SupergroupMembers { supergroup_id: 42 },
        Position::Offset(0),
        limit,
        cap,
        PAGE_TIMEOUT_SECS,
    )
}

fn message(id: i64) -> Message {
    Message {
        typ: "message".to_string(),
        id,
        chat_id: 7,
        other: serde_json::Value::Null,
    }
}

#[test]
fn limit_zero_asks_for_no_page() {
    let fetcher = members(Some(0), 50);
    assert!(fetcher.is_finished());
    assert_eq!(fetcher.next_request(), None);
    let history = PaginatedFetcher::new(
        Collection::ChatHistory { chat_id: 1 },
        Position::Before(None),
        Some(0),
        HISTORY_PAGE,
        PAGE_TIMEOUT_SECS,
    );
    assert_eq!(history.next_request(), None);
}

#[test]
fn cap_50_limit_120_asks_for_50_50_20() {
    let mut fetcher = members(Some(120), 50);
    let mut sizes = Vec::new();
    let mut yielded = 0;
    while let Some(request) = fetcher.next_request() {
        sizes.push(request.limit);
        let page: Vec<i64> = (0..request.limit as i64).collect();
        yielded += fetcher.accept_page(&page);
    }
    assert_eq!(sizes, vec![50, 50, 20]);
    assert_eq!(yielded, 120);
    assert!(fetcher.is_finished());
    assert_eq!(
        fetcher.cursor(),
        PageCursor { position: Position::Offset(120), remaining: Some(0) }
    );
}

#[test]
fn the_offset_moves_past_what_was_returned() {
    let mut fetcher = members(None, 200);
    assert_eq!(
        fetcher.next_request(),
        Some(PageRequest {
            collection: Collection::SupergroupMembers { supergroup_id: 42 },
            position: Position::Offset(0),
            limit: 200,
            timeout_secs: 60,
        })
    );
    assert_eq!(fetcher.accept_page(&vec![1; 200]), 200);
    assert_eq!(fetcher.next_request().unwrap().position, Position::Offset(200));
    assert_eq!(fetcher.accept_page(&vec![1; 13]), 13);
    assert_eq!(fetcher.next_request().unwrap().position, Position::Offset(213));
}

#[test]
fn an_empty_page_ends_the_fetch() {
    let mut fetcher = members(None, 200);
    assert_eq!(fetcher.accept_page(&vec![1, 2, 3]), 3);
    assert!(!fetcher.is_finished());
    assert_eq!(fetcher.accept_page(&Vec::new()), 0);
    assert!(fetcher.is_finished());
    assert_eq!(fetcher.next_request(), None);
}

#[test]
fn inaccessible_ends_the_fetch_without_error() {
    let mut fetcher = members(Some(500), 200);
    assert_eq!(fetcher.accept_page(&vec![0; 200]), 200);
    assert_eq!(INACCESSIBLE, 400);
    assert_eq!(fetcher.accept_error(400, "Member list is inaccessible"), Ok(()));
    assert!(fetcher.is_finished());
    assert_eq!(fetcher.next_request(), None);
}

#[test]
fn another_error_breaks_the_fetch_off() {
    let mut fetcher = members(None, 200);
    assert_eq!(fetcher.accept_page(&vec![0; 200]), 200);
    let failure = fetcher.accept_error(500, "Internal").unwrap_err();
    assert_eq!(
        failure,
        PageFailure::Rejected {
            collection: Collection::SupergroupMembers { supergroup_id: 42 },
            code: 500,
            message: "Internal".to_string(),
        }
    );
    assert_eq!(failure.to_string(), "Failed to get chat members: Internal");
    assert!(fetcher.is_finished());
    assert_eq!(fetcher.next_request(), None);

    let mut history = PaginatedFetcher::new(
        Collection::ChatHistory { chat_id: 7 },
        Position::Before(None),
        None,
        HISTORY_PAGE,
        PAGE_TIMEOUT_SECS,
    );
    assert_eq!(
        history.accept_error(403, "Forbidden").unwrap_err().to_string(),
        "Failed to get chat history: Forbidden"
    );
    assert!(history.is_finished());
}

#[test]
fn a_timeout_breaks_the_fetch_off() {
    let mut fetcher = members(None, 200);
    assert_eq!(fetcher.accept_timeout(), PageFailure::TimedOut);
    assert_eq!(PageFailure::TimedOut.to_string(), "Request timed out");
    assert!(fetcher.is_finished());
    assert_eq!(fetcher.next_request(), None);
}

#[test]
fn a_reply_that_is_no_page_breaks_the_fetch_off() {
    let mut fetcher = members(None, 200);
    let failure = fetcher.accept_unreadable();
    assert_eq!(
        failure,
        PageFailure::Unreadable { collection: Collection::SupergroupMembers { supergroup_id: 42 } }
    );
    assert_eq!(failure.to_string(), "Failed to get chat members: unreadable reply");
    assert!(fetcher.is_finished());
    assert_eq!(fetcher.next_request(), None);
}

#[test]
fn a_page_larger_than_asked_for_is_cut() {
    let mut fetcher = members(Some(5), 3);
    assert_eq!(fetcher.accept_page(&vec![9; 10]), 3);
    assert_eq!(fetcher.next_request().unwrap().limit, 2);
    assert_eq!(fetcher.accept_page(&vec![9; 10]), 2);
    assert_eq!(fetcher.next_request(), None);
}

#[test]
fn history_is_walked_towards_older_messages() {
    let mut fetcher = PaginatedFetcher::new(
        Collection::ChatHistory { chat_id: 7 },
        Position::Before(None),
        Some(250),
        HISTORY_PAGE,
        PAGE_TIMEOUT_SECS,
    );
    let first = fetcher.next_request().unwrap();
    assert_eq!(first.limit, 100);
    assert_eq!(first.position, Position::Before(None));
    let out = fetcher.accept_messages(vec![message(90), message(80), message(70)]);
    assert_eq!(out, vec![message(90), message(80), message(70)]);
    let second = fetcher.next_request().unwrap();
    assert_eq!(second.position, Position::Before(Some(70)));
    assert_eq!(second.limit, 100);
    fetcher.accept_messages(vec![message(60), message(65), message(50)]);
    assert_eq!(
        fetcher.cursor(),
        PageCursor { position: Position::Before(Some(50)), remaining: Some(244) }
    );
}

#[test]
fn history_that_does_not_get_older_ends() {
    let mut fetcher = PaginatedFetcher::new(
        Collection::ChatHistory { chat_id: 7 },
        Position::Before(Some(100)),
        None,
        HISTORY_PAGE,
        PAGE_TIMEOUT_SECS,
    );
    let out = fetcher.accept_messages(vec![message(100), message(120)]);
    assert_eq!(out.len(), 2);
    assert!(fetcher.is_finished());
    assert_eq!(fetcher.cursor().position, Position::Before(Some(100)));
}

#[test]
fn messages_beyond_the_limit_are_not_handed_on() {
    let mut fetcher = PaginatedFetcher::new(
        Collection::ChatHistory { chat_id: 7 },
        Position::Before(None),
        Some(2),
        HISTORY_PAGE,
        PAGE_TIMEOUT_SECS,
    );
    let out = fetcher.accept_messages(vec![message(30), message(20), message(10)]);
    assert_eq!(out, vec![message(30), message(20)]);
    assert_eq!(
        fetcher.cursor(),
        PageCursor { position: Position::Before(Some(20)), remaining: Some(0) }
    );
    assert!(fetcher.is_finished());
}

#[test]
fn pages_become_requests() {
    let members = PageRequest {
        collection: Collection::SupergroupMembers { supergroup_id: 42 },
        position: Position::Offset(400),
        limit: MEMBERS_PAGE,
        timeout_secs: 60,
    };
    assert_eq!(
        Request::for_page(&members),
        Some(Request::GetSupergroupMembers { supergroup_id: 42, offset: 400, limit: 200 })
    );
    let history = PageRequest {
        collection: Collection::ChatHistory { chat_id: 7 },
        position: Position::Before(Some(55)),
        limit: 100,
        timeout_secs: 60,
    };
    assert_eq!(
        Request::for_page(&history),
        Some(Request::GetChatHistory {
            chat_id: 7,
            from_message_id: 55,
            offset: 0,
            limit: 100,
            only_local: false
        })
    );
    let newest = PageRequest { position: Position::Before(None), ..history };
    assert_eq!(
        Request::for_page(&newest),
        Some(Request::GetChatHistory {
            chat_id: 7,
            from_message_id: 0,
            offset: 0,
            limit: 100,
            only_local: false
        })
    );
    let mismatched = PageRequest { position: Position::Offset(1), ..history };
    assert_eq!(Request::for_page(&mismatched), None);
    let huge = PageRequest { limit: usize::MAX, ..members };
    assert_eq!(
        Request::for_page(&huge),
        Some(Request::GetSupergroupMembers { supergroup_id: 42, offset: 400, limit: i32::MAX })
    );
}

#[test]
fn the_offset_stops_at_what_the_engine_can_address() {
    let mut fetcher = PaginatedFetcher::new(
        Collection::SupergroupMembers { supergroup_id: 1 },
        Position::Offset(2147483647),
        None,
        10,
        60,
    );
    assert_eq!(fetcher.accept_page(&vec![0; 10]), 10);
    assert!(fetcher.is_finished());
    assert_eq!(fetcher.cursor().position, Position::Offset(2147483647));
}
