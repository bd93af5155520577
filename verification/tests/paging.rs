use rssbot::link::is_url;
use rssbot::paging::{
    extract_page_from_custom_id, is_last_page, jump_target, menu_window, next_page, page_bounds,
    parse_number, previous_page, select_target, total_pages, FEEDS_PER_PAGE,
};
use rssbot::publisher::judge_failure;
use rssbot::registration::{
    channel_name, judge_feed, judge_items, judge_size, Refusal, MAX_FEED_ITEMS,
};
use rssbot::run::Delivery;

#[test]
fn total_pages_rounds_up() {
    assert_eq!(FEEDS_PER_PAGE, 10);
    assert_eq!(total_pages(0), 0);
    assert_eq!(total_pages(1), 1);
    assert_eq!(total_pages(10), 1);
    assert_eq!(total_pages(11), 2);
    assert_eq!(total_pages(100), 10);
    assert_eq!(total_pages(usize::MAX), usize::MAX / 10 + 1);
}

#[test]
fn page_bounds_cover_the_list() {
    assert_eq!(page_bounds(0, 25), (0, 10));
    assert_eq!(page_bounds(1, 25), (10, 20));
    assert_eq!(page_bounds(2, 25), (20, 25));
    assert_eq!(page_bounds(3, 25), (25, 25));
    assert_eq!(page_bounds(usize::MAX, 25), (25, 25));
    assert_eq!(page_bounds(0, 0), (0, 0));
}

#[test]
fn turning_pages_stays_within_the_pages() {
    assert_eq!(previous_page(0), 0);
    assert_eq!(previous_page(3), 2);
    assert_eq!(next_page(0, 3), 1);
    assert_eq!(next_page(2, 3), 2);
    assert_eq!(next_page(7, 3), 2);
    assert_eq!(next_page(0, 0), 0);
    assert!(is_last_page(2, 3));
    assert!(!is_last_page(1, 3));
    assert!(is_last_page(0, 0));
    assert!(is_last_page(usize::MAX, usize::MAX));
}

#[test]
fn menu_offers_ten_pages_around_the_current() {
    assert_eq!(menu_window(0, 30), (0, 10));
    assert_eq!(menu_window(4, 30), (0, 10));
    assert_eq!(menu_window(5, 30), (1, 11));
    assert_eq!(menu_window(28, 30), (24, 30));
    assert_eq!(menu_window(2, 6), (0, 6));
    assert_eq!(menu_window(50, 6), (46, 6));
}

#[test]
fn parse_number_matches_std() {
    let samples = [
        "0", "7", "42", "007", "+5", "+", "", "-1", "1a", "a1", " 1", "1 ", "١",
        "18446744073709551615", "18446744073709551616", "99999999999999999999999", "+0",
        "++1", "1+",
    ];
    for s in samples {
        assert_eq!(parse_number(s), s.parse::<usize>().ok());
    }
}

#[test]
fn page_is_read_from_the_second_field() {
    assert_eq!(extract_page_from_custom_id("next_3"), 3);
    assert_eq!(extract_page_from_custom_id("prev_12_extra"), 12);
    assert_eq!(extract_page_from_custom_id("jump_"), 0);
    assert_eq!(extract_page_from_custom_id("page"), 0);
    assert_eq!(extract_page_from_custom_id("page_select"), 0);
    assert_eq!(extract_page_from_custom_id("_5"), 5);
    assert_eq!(extract_page_from_custom_id("a__5"), 0);
    assert_eq!(extract_page_from_custom_id(""), 0);
    assert_eq!(extract_page_from_custom_id("next_99999999999999999999999"), 0);
}

#[test]
fn jump_takes_only_pages_that_exist() {
    assert_eq!(jump_target("1", 3), Some(0));
    assert_eq!(jump_target("3", 3), Some(2));
    assert_eq!(jump_target("4", 3), None);
    assert_eq!(jump_target("0", 3), None);
    assert_eq!(jump_target("x", 3), None);
    assert_eq!(jump_target("1", 0), None);
}

#[test]
fn menu_pick_is_kept_within_the_pages() {
    assert_eq!(select_target("1", 3), Some(0));
    assert_eq!(select_target("3", 3), Some(2));
    assert_eq!(select_target("9", 3), Some(2));
    assert_eq!(select_target("0", 3), Some(0));
    assert_eq!(select_target("2", 0), Some(0));
    assert_eq!(select_target("two", 3), None);
}

#[test]
fn feed_is_judged_by_size_then_by_entries() {
    assert_eq!(MAX_FEED_ITEMS, 500);
    assert_eq!(judge_size(5_000_000), Ok(()));
    assert_eq!(judge_size(5_000_001), Err(Refusal::TooLarge(5_000_001)));
    assert_eq!(judge_items(500), Ok(()));
    assert_eq!(judge_items(501), Err(Refusal::TooManyItems(501)));
    assert_eq!(judge_feed(5_000_000, 500), Ok(()));
    assert_eq!(judge_feed(5_000_001, 0), Err(Refusal::TooLarge(5_000_001)));
    assert_eq!(judge_feed(10, 501), Err(Refusal::TooManyItems(501)));
    assert_eq!(judge_feed(6_000_000, 900), Err(Refusal::TooLarge(6_000_000)));
}

#[test]
fn channel_name_is_lowercase_with_hyphens() {
    assert_eq!(channel_name("World News"), "world-news");
    assert_eq!(channel_name("AI"), "ai");
    assert_eq!(channel_name(" a  b "), "-a--b-");
}

#[test]
fn url_validity_is_that_of_the_url_crate() {
    assert!(is_url("https://example.com/feed.xml"));
    assert!(is_url("mailto:a@example.com"));
    assert!(!is_url("example.com/feed.xml"));
    assert!(!is_url(""));
}

#[test]
fn lost_destination_is_told_from_other_failures() {
    assert_eq!(judge_failure(Some(404)), Delivery::DestinationLost);
    assert_eq!(judge_failure(Some(403)), Delivery::DestinationLost);
    assert_eq!(judge_failure(Some(500)), Delivery::Failed);
    assert_eq!(judge_failure(Some(429)), Delivery::Failed);
    assert_eq!(judge_failure(None), Delivery::Failed);
}
