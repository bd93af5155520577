use rssbot::detector::{fingerprints_of, select_new, SCAN_WINDOW};
use rssbot::fingerprint::identifier;
use rssbot::instant::Timestamp;
use rssbot::memory::NoveltyMemory;
use rssbot::model::ParsedEntry;

const NOW: i64 = 1_704_067_200_000_000_000;

const DAY: i64 = 86_400;
const JAN_1_2024: i64 = 1_704_067_200;

fn entry(id: &str, published: Option<i64>) -> ParsedEntry {
    ParsedEntry {
        id: String::from(id),
        link: Some(format!("https://example.com/{}", id)),
        title: Some(format!("Title of {}", id)),
        summary: None,
        content: None,
        published: published.map(|secs| Timestamp { secs, nanos: 0 }),
        updated: None,
    }
}

fn indices(list: &Vec<rssbot::detector::Candidate>) -> Vec<usize> {
    list.iter().map(|c| c.index).collect()
}

#[test]
fn scenario_only_the_entry_beyond_the_watermark() {
    let entries = vec![entry("a", Some(JAN_1_2024 + DAY)), entry("b", Some(JAN_1_2024 - DAY))];
    let watermark = Some(String::from("2024-01-01T00:00:00Z"));
    let out = select_new(&entries, &watermark, &NoveltyMemory::new(100), NOW);
    assert_eq!(indices(&out), vec![0]);
    assert_eq!(out[0].marker, Some(String::from("2024-01-02T00:00:00+00:00")));
    assert_eq!(out[0].fingerprint, identifier(&entries[0], NOW));
}

#[test]
fn first_check_selects_exactly_the_newest() {
    let entries = vec![
        entry("old", Some(JAN_1_2024)),
        entry("new", Some(JAN_1_2024 + 3 * DAY)),
        entry("mid", Some(JAN_1_2024 + DAY)),
    ];
    let out = select_new(&entries, &None, &NoveltyMemory::new(100), NOW);
    assert_eq!(indices(&out), vec![1]);
}

#[test]
fn first_check_breaks_ties_by_feed_order() {
    let entries = vec![
        entry("x", Some(JAN_1_2024)),
        entry("y", Some(JAN_1_2024 + DAY)),
        entry("z", Some(JAN_1_2024 + DAY)),
    ];
    let out = select_new(&entries, &None, &NoveltyMemory::new(100), NOW);
    assert_eq!(indices(&out), vec![1]);
}

#[test]
fn first_check_of_undated_feed_selects_first_entry() {
    let entries = vec![entry("p", None), entry("q", None)];
    let out = select_new(&entries, &None, &NoveltyMemory::new(100), NOW);
    assert_eq!(indices(&out), vec![0]);
    assert_eq!(out[0].marker, None);
}

#[test]
fn first_check_skips_a_remembered_newest() {
    let entries = vec![entry("p", Some(JAN_1_2024)), entry("q", None)];
    let mut memory = NoveltyMemory::new(100);
    memory.remember(identifier(&entries[0], NOW));
    let out = select_new(&entries, &None, &memory, NOW);
    assert!(out.is_empty());
}

#[test]
fn empty_feed_selects_nothing() {
    let entries: Vec<ParsedEntry> = Vec::new();
    assert!(select_new(&entries, &None, &NoveltyMemory::new(10), NOW).is_empty());
    let watermark = Some(String::from("2024-01-01T00:00:00+00:00"));
    assert!(select_new(&entries, &watermark, &NoveltyMemory::new(10), NOW).is_empty());
}

#[test]
fn later_checks_scan_only_the_window() {
    let entries: Vec<ParsedEntry> =
        (0..6).map(|i| entry(&format!("e{}", i), Some(JAN_1_2024 + (i + 1) * DAY))).collect();
    let watermark = Some(String::from("2024-01-01T00:00:00+00:00"));
    let out = select_new(&entries, &watermark, &NoveltyMemory::new(100), NOW);
    assert_eq!(SCAN_WINDOW, 3);
    assert_eq!(indices(&out), vec![5, 4, 3]);
}

#[test]
fn undated_entry_beside_dated_ones_stays_out_under_a_watermark() {
    let entries = vec![entry("u", None), entry("d", Some(JAN_1_2024 + DAY))];
    let watermark = Some(String::from("2024-01-01T00:00:00+00:00"));
    let out = select_new(&entries, &watermark, &NoveltyMemory::new(100), NOW);
    assert_eq!(indices(&out), vec![1]);
}

#[test]
fn undated_feed_with_watermark_yields_the_first_unseen_entry() {
    let entries = vec![entry("a", None), entry("b", None), entry("c", None), entry("d", None)];
    let watermark = Some(String::from("2024-01-01T00:00:00+00:00"));
    let mut memory = NoveltyMemory::new(100);
    assert_eq!(indices(&select_new(&entries, &watermark, &memory, NOW)), vec![0]);
    memory.remember(identifier(&entries[0], NOW));
    assert_eq!(indices(&select_new(&entries, &watermark, &memory, NOW)), vec![1]);
    memory.remember(identifier(&entries[1], NOW));
    assert_eq!(indices(&select_new(&entries, &watermark, &memory, NOW)), vec![2]);
    memory.remember(identifier(&entries[2], NOW));
    assert!(select_new(&entries, &watermark, &memory, NOW).is_empty());
}

#[test]
fn one_marker_in_the_scan_brings_the_dates_back() {
    let entries = vec![entry("old", Some(JAN_1_2024 - DAY)), entry("u", None)];
    let watermark = Some(String::from("2024-01-01T00:00:00+00:00"));
    let out = select_new(&entries, &watermark, &NoveltyMemory::new(100), NOW);
    assert!(out.is_empty());
}

#[test]
fn candidates_name_positions_of_the_feed() {
    let entries: Vec<ParsedEntry> =
        (0..7).map(|i| entry(&format!("e{}", i), Some(JAN_1_2024 + (7 - i) * DAY))).collect();
    let watermark = Some(String::from("2024-01-01T00:00:00+00:00"));
    for c in select_new(&entries, &watermark, &NoveltyMemory::new(100), NOW) {
        assert!(c.index < entries.len());
        assert_eq!(c.fingerprint, identifier(&entries[c.index], NOW));
    }
}

#[test]
fn entry_at_the_watermark_is_not_new() {
    let entries = vec![entry("same", Some(JAN_1_2024))];
    let watermark = Some(String::from("2024-01-01T00:00:00+00:00"));
    assert!(select_new(&entries, &watermark, &NoveltyMemory::new(100), NOW).is_empty());
}

#[test]
fn duplicates_within_one_scan_are_selected_once() {
    let twin = entry("twin", Some(JAN_1_2024 + DAY));
    let entries = vec![twin.clone(), twin.clone(), entry("other", Some(JAN_1_2024 + DAY))];
    let watermark = Some(String::from("2024-01-01T00:00:00+00:00"));
    let out = select_new(&entries, &watermark, &NoveltyMemory::new(100), NOW);
    assert_eq!(indices(&out), vec![0, 2]);
}

#[test]
fn remembered_fingerprints_are_passed_over() {
    let entries = vec![entry("a", Some(JAN_1_2024 + 2 * DAY)), entry("b", Some(JAN_1_2024 + DAY))];
    let watermark = Some(String::from("2024-01-01T00:00:00+00:00"));
    let mut memory = NoveltyMemory::new(100);
    memory.remember(identifier(&entries[0], NOW));
    let out = select_new(&entries, &watermark, &memory, NOW);
    assert_eq!(indices(&out), vec![1]);
}

#[test]
fn detection_is_idempotent() {
    let entries = vec![
        entry("a", Some(JAN_1_2024 + 2 * DAY)),
        entry("b", Some(JAN_1_2024 + DAY)),
        entry("c", None),
    ];
    let watermark = Some(String::from("2024-01-01T00:00:00+00:00"));
    let memory = NoveltyMemory::new(100);
    let first = select_new(&entries, &watermark, &memory, NOW);
    let second = select_new(&entries, &watermark, &memory, NOW);
    assert_eq!(indices(&first), indices(&second));
    for (x, y) in first.iter().zip(second.iter()) {
        assert_eq!(x.fingerprint, y.fingerprint);
        assert_eq!(x.marker, y.marker);
    }
}

#[test]
fn undetermined_entries_are_marked_by_the_reading() {
    let nothing = ParsedEntry {
        id: String::new(),
        link: None,
        title: None,
        summary: None,
        content: None,
        published: None,
        updated: None,
    };
    let prints = fingerprints_of(&vec![nothing.clone(), entry("a", None)], NOW);
    assert_eq!(prints[0], "entry_1704067200000000000");
    assert_eq!(prints[1], identifier(&entry("a", None), NOW));
    let out = select_new(&vec![nothing.clone()], &None, &NoveltyMemory::new(10), NOW);
    assert_eq!(indices(&out), vec![0]);
    assert_eq!(out[0].fingerprint, "entry_1704067200000000000");
    let later = select_new(&vec![nothing], &None, &NoveltyMemory::new(10), NOW + 1);
    assert_eq!(later[0].fingerprint, "entry_1704067200000000001");
}

#[test]
fn watermark_order_is_that_of_the_marker_texts() {
    let entries = vec![entry("frac", Some(JAN_1_2024))];
    let mut with_fraction = entries.clone();
    with_fraction[0].published = Some(Timestamp { secs: JAN_1_2024, nanos: 1_000_000 });
    let watermark = Some(String::from("2024-01-01T00:00:00+00:00"));
    let out = select_new(&with_fraction, &watermark, &NoveltyMemory::new(1), NOW);
    assert_eq!(indices(&out), vec![0]);
    let zulu = Some(String::from("2024-01-01T00:00:00Z"));
    assert!(select_new(&entries, &zulu, &NoveltyMemory::new(1), NOW).is_empty());
}
