use rssbot::fingerprint::identifier;
use rssbot::instant::Timestamp;
use rssbot::memory::NoveltyMemory;
use rssbot::model::ParsedEntry;
use rssbot::run::{Advance, Delivery, FeedRun, Step};

const NOW: i64 = 1_704_067_200_000_000_000;

const DAY: i64 = 86_400;
const JAN_1_2024: i64 = 1_704_067_200;

fn entry(id: &str, published: Option<i64>) -> ParsedEntry {
    ParsedEntry {
        id: String::from(id),
        link: Some(format!("https://example.com/{}", id)),
        title: Some(format!("Title of {}", id)),
        summary: None,
        content: None,
        published: published.map(|secs| Timestamp { secs, nanos: 0 }),
        updated: None,
    }
}

fn january() -> Option<String> {
    Some(String::from("2024-01-01T00:00:00Z"))
}

#[test]
fn scenario_watermark_moves_to_the_published_entry() {
    let entries = vec![entry("a", Some(JAN_1_2024 + DAY)), entry("b", Some(JAN_1_2024 - DAY))];
    let mut memory = NoveltyMemory::new(100);
    let mut run = FeedRun::begin(&entries, &january(), &memory, NOW);
    assert_eq!(run.candidates().len(), 1);
    assert_eq!(run.candidates()[0].index, 0);
    assert_eq!(run.next(&memory), Step::Publish(0));
    run.record(Delivery::Delivered, &mut memory);
    assert_eq!(run.next(&memory), Step::Finish);
    assert_eq!(run.published(), 1);
    match run.advance() {
        Advance::To(w) => assert_eq!(w, Some(String::from("2024-01-02T00:00:00+00:00"))),
        Advance::Keep => panic!("the watermark must move"),
    }
    assert!(memory.contains(&identifier(&entries[0], NOW)));
}

#[test]
fn nothing_new_keeps_the_watermark() {
    let entries = vec![entry("b", Some(JAN_1_2024 - DAY))];
    let memory = NoveltyMemory::new(100);
    let mut run = FeedRun::begin(&entries, &january(), &memory, NOW);
    assert_eq!(run.next(&memory), Step::Finish);
    assert_eq!(run.published(), 0);
    assert!(matches!(run.advance(), Advance::Keep));
}

#[test]
fn no_repeat_after_a_successful_run() {
    let entries = vec![entry("a", Some(JAN_1_2024 + 2 * DAY)), entry("b", Some(JAN_1_2024 + DAY))];
    let mut memory = NoveltyMemory::new(100);
    let mut run = FeedRun::begin(&entries, &january(), &memory, NOW);
    while let Step::Publish(_) = run.next(&memory) {
        run.record(Delivery::Delivered, &mut memory);
    }
    assert_eq!(run.published(), 2);
    let reached = match run.advance() {
        Advance::To(w) => w,
        Advance::Keep => panic!("the watermark must move"),
    };
    assert_eq!(reached, Some(String::from("2024-01-03T00:00:00+00:00")));
    let mut again = FeedRun::begin(&entries, &reached, &memory, NOW);
    assert_eq!(again.next(&memory), Step::Finish);
    let mut forgetful = FeedRun::begin(&entries, &reached, &NoveltyMemory::new(100), NOW);
    assert_eq!(forgetful.next(&NoveltyMemory::new(100)), Step::Finish);
    let mut by_memory = FeedRun::begin(&entries, &january(), &memory, NOW);
    assert_eq!(by_memory.next(&memory), Step::Finish);
}

#[test]
fn failed_delivery_is_not_consumed() {
    let entries = vec![entry("a", Some(JAN_1_2024 + 2 * DAY)), entry("b", Some(JAN_1_2024 + DAY))];
    let mut memory = NoveltyMemory::new(100);
    let mut run = FeedRun::begin(&entries, &january(), &memory, NOW);
    assert_eq!(run.next(&memory), Step::Publish(0));
    run.record(Delivery::Failed, &mut memory);
    assert!(!memory.contains(&identifier(&entries[0], NOW)));
    assert_eq!(run.next(&memory), Step::Publish(1));
    run.record(Delivery::Delivered, &mut memory);
    assert_eq!(run.next(&memory), Step::Finish);
    assert_eq!(run.published(), 1);
    match run.advance() {
        Advance::To(w) => assert_eq!(w, Some(String::from("2024-01-02T00:00:00+00:00"))),
        Advance::Keep => panic!("the watermark must move"),
    }
    let reached = Some(String::from("2024-01-02T00:00:00+00:00"));
    let retry = FeedRun::begin(&entries, &reached, &memory, NOW);
    assert_eq!(retry.candidates().len(), 1);
    assert_eq!(retry.candidates()[0].index, 0);
}

#[test]
fn lost_destination_ends_the_run() {
    let entries = vec![entry("a", Some(JAN_1_2024 + 2 * DAY)), entry("b", Some(JAN_1_2024 + DAY))];
    let mut memory = NoveltyMemory::new(100);
    let mut run = FeedRun::begin(&entries, &january(), &memory, NOW);
    assert_eq!(run.next(&memory), Step::Publish(0));
    run.record(Delivery::DestinationLost, &mut memory);
    assert_eq!(run.next(&memory), Step::Finish);
    assert_eq!(run.published(), 0);
    assert!(matches!(run.advance(), Advance::Keep));
    assert_eq!(memory.len(), 0);
}

#[test]
fn record_without_pending_candidate_changes_nothing() {
    let entries: Vec<ParsedEntry> = Vec::new();
    let mut memory = NoveltyMemory::new(100);
    let mut run = FeedRun::begin(&entries, &None, &memory, NOW);
    run.record(Delivery::Delivered, &mut memory);
    assert_eq!(run.published(), 0);
    assert_eq!(memory.len(), 0);
    assert_eq!(run.next(&memory), Step::Finish);
}

#[test]
fn candidates_remembered_meanwhile_are_passed_over() {
    let entries = vec![entry("a", Some(JAN_1_2024 + 2 * DAY)), entry("b", Some(JAN_1_2024 + DAY))];
    let mut memory = NoveltyMemory::new(100);
    let mut run = FeedRun::begin(&entries, &january(), &memory, NOW);
    memory.remember(identifier(&entries[0], NOW));
    assert_eq!(run.next(&memory), Step::Publish(1));
    run.record(Delivery::Delivered, &mut memory);
    assert_eq!(run.published(), 1);
}

#[test]
fn first_check_of_undated_entry_leaves_no_watermark() {
    let entries = vec![entry("u", None)];
    let mut memory = NoveltyMemory::new(100);
    let mut run = FeedRun::begin(&entries, &None, &memory, NOW);
    assert_eq!(run.next(&memory), Step::Publish(0));
    run.record(Delivery::Delivered, &mut memory);
    match run.advance() {
        Advance::To(w) => assert_eq!(w, None),
        Advance::Keep => panic!("something was published"),
    }
    let mut later = FeedRun::begin(&entries, &None, &memory, NOW);
    assert_eq!(later.next(&memory), Step::Finish);
}

#[test]
fn undated_delivery_keeps_the_watermark_where_it_was() {
    let entries = vec![entry("u", None), entry("v", None)];
    let mut memory = NoveltyMemory::new(100);
    let mut run = FeedRun::begin(&entries, &january(), &memory, NOW);
    assert_eq!(run.next(&memory), Step::Publish(0));
    assert_eq!(run.candidates()[0].index, 0);
    run.record(Delivery::Delivered, &mut memory);
    assert_eq!(run.next(&memory), Step::Finish);
    assert_eq!(run.published(), 1);
    match run.advance() {
        Advance::To(w) => assert_eq!(w, january()),
        Advance::Keep => panic!("something was published"),
    }
    let mut second = FeedRun::begin(&entries, &january(), &memory, NOW);
    assert_eq!(second.next(&memory), Step::Publish(0));
    assert_eq!(second.candidates()[0].index, 1);
}

#[test]
fn failed_deliveries_leave_everything_as_it_was() {
    let entries = vec![entry("a", Some(JAN_1_2024 + 2 * DAY)), entry("b", Some(JAN_1_2024 + DAY))];
    let mut memory = NoveltyMemory::new(100);
    let mut picks = Vec::new();
    for _ in 0..2 {
        let mut run = FeedRun::begin(&entries, &january(), &memory, NOW);
        let mut asked = Vec::new();
        while let Step::Publish(place) = run.next(&memory) {
            asked.push(run.candidates()[place].index);
            run.record(Delivery::Failed, &mut memory);
        }
        assert_eq!(run.published(), 0);
        assert!(matches!(run.advance(), Advance::Keep));
        assert_eq!(memory.len(), 0);
        picks.push(asked);
    }
    assert_eq!(picks[0], vec![0, 1]);
    assert_eq!(picks[0], picks[1]);
}
