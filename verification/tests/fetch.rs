use rssbot::cycle::FeedResult;
use rssbot::fetch::{check_head, FetchError, Intake, MAX_FEED_BYTES};
use rssbot::memory::NoveltyMemory;
use rssbot::outcome::{single_summary, tally, ParseError, SyncError};

#[test]
fn head_with_success_status_is_taken() {
    assert_eq!(check_head(200, None), Ok(()));
    assert_eq!(check_head(204, Some(0)), Ok(()));
    assert_eq!(check_head(299, Some(MAX_FEED_BYTES)), Ok(()));
}

#[test]
fn head_with_other_status_is_http_error() {
    assert_eq!(check_head(199, None), Err(FetchError::Http(199)));
    assert_eq!(check_head(300, None), Err(FetchError::Http(300)));
    assert_eq!(check_head(404, Some(10)), Err(FetchError::Http(404)));
    assert_eq!(check_head(500, Some(MAX_FEED_BYTES + 1)), Err(FetchError::Http(500)));
}

#[test]
fn declared_length_beyond_limit_is_too_large() {
    assert_eq!(MAX_FEED_BYTES, 5_000_000);
    assert_eq!(check_head(200, Some(5_000_001)), Err(FetchError::TooLarge));
    assert_eq!(check_head(200, Some(u64::MAX)), Err(FetchError::TooLarge));
}

#[test]
fn intake_counts_what_is_read() {
    let mut intake = Intake::new();
    assert_eq!(intake.accept(4_000_000), Ok(()));
    assert_eq!(intake.accept(1_000_000), Ok(()));
    assert_eq!(intake.accept(0), Ok(()));
    assert_eq!(intake.accept(1), Err(FetchError::TooLarge));
    assert_eq!(intake.accept(usize::MAX), Err(FetchError::TooLarge));
    let mut fresh = Intake::new();
    assert_eq!(fresh.accept(5_000_001), Err(FetchError::TooLarge));
    assert_eq!(fresh.accept(5_000_000), Ok(()));
}

#[test]
fn fetch_errors_have_words() {
    assert_eq!(FetchError::Unreachable.message(), "Unable to reach the URL");
    assert_eq!(FetchError::Timeout.message(), "Timeout fetching feed");
    assert_eq!(FetchError::Http(503).message(), "HTTP 503");
    assert_eq!(FetchError::Http(0).message(), "HTTP 0");
    assert_eq!(FetchError::TooLarge.message(), "Feed too large");
}

#[test]
fn sync_errors_have_words() {
    assert_eq!(
        SyncError::NotFound(String::from("https://x/rss")).message(),
        "Feed not found: https://x/rss"
    );
    assert_eq!(SyncError::Fetch(FetchError::Http(404)).message(), "HTTP 404");
    assert_eq!(SyncError::Parse(ParseError { reason: String::from("bad") }).message(), "bad");
    assert_eq!(SyncError::Timeout.message(), "Timeout");
    assert_eq!(
        SyncError::Store(String::from("connection refused")).message(),
        "connection refused"
    );
}

#[test]
fn timeouts_are_told_apart() {
    assert!(SyncError::Timeout.is_timeout());
    assert!(SyncError::Fetch(FetchError::Timeout).is_timeout());
    assert!(!SyncError::Fetch(FetchError::Unreachable).is_timeout());
    assert!(!SyncError::NotFound(String::new()).is_timeout());
    assert!(!SyncError::Store(String::from("Timeout")).is_timeout());
    assert!(!SyncError::Parse(ParseError { reason: String::from("Timeout") }).is_timeout());
}

#[test]
fn outcomes_are_tallied() {
    assert_eq!(tally(&Ok(3)), FeedResult::Success(3));
    assert_eq!(tally(&Err(SyncError::Timeout)), FeedResult::Failure);
}

#[test]
fn single_summary_words_the_outcome() {
    assert_eq!(single_summary(&Ok(0)), "Synced feed, no new items found");
    assert_eq!(single_summary(&Ok(12)), "Synced feed and found 12 new items");
    assert_eq!(
        single_summary(&Err(SyncError::Fetch(FetchError::Http(500)))),
        "Failed to sync feed: HTTP 500"
    );
    assert_eq!(
        single_summary(&Err(SyncError::NotFound(String::from("u")))),
        "Failed to sync feed: Feed not found: u"
    );
}

#[test]
fn memory_forgets_the_oldest_when_full() {
    let mut memory = NoveltyMemory::new(2);
    assert_eq!(memory.capacity(), 2);
    memory.remember(String::from("a"));
    memory.remember(String::from("b"));
    memory.remember(String::from("a"));
    assert_eq!(memory.len(), 2);
    memory.remember(String::from("c"));
    assert_eq!(memory.len(), 2);
    assert!(!memory.contains(&String::from("a")));
    assert!(memory.contains(&String::from("b")));
    assert!(memory.contains(&String::from("c")));
}

#[test]
fn memory_without_room_remembers_nothing() {
    let mut memory = NoveltyMemory::new(0);
    memory.remember(String::from("a"));
    assert_eq!(memory.len(), 0);
    assert!(!memory.contains(&String::from("a")));
}
