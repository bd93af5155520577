use rssbot::instant::{reading_or_zero, Timestamp};
use rssbot::link::{host_of, path_of, LinkPath};
use rssbot::recency::{is_later, recency_order};

#[test]
fn marker_is_rfc3339_in_utc() {
    assert_eq!(
        Timestamp { secs: 1704153600, nanos: 0 }.marker(),
        Some(String::from("2024-01-02T00:00:00+00:00"))
    );
    assert_eq!(
        Timestamp { secs: 0, nanos: 500_000_000 }.marker(),
        Some(String::from("1970-01-01T00:00:00.500+00:00"))
    );
    assert_eq!(
        Timestamp { secs: -1, nanos: 1 }.marker(),
        Some(String::from("1969-12-31T23:59:59.000000001+00:00"))
    );
}

#[test]
fn marker_agrees_with_chrono() {
    let d = chrono::DateTime::parse_from_rfc3339("2024-06-30T12:34:56.789Z").unwrap().to_utc();
    let t = Timestamp { secs: d.timestamp(), nanos: d.timestamp_subsec_nanos() };
    assert_eq!(t.marker(), Some(d.to_rfc3339()));
    assert_eq!(t.day(), Some(String::from("2024-06-30")));
}

#[test]
fn day_is_the_calendar_day() {
    assert_eq!(Timestamp { secs: 1703980800, nanos: 0 }.day(), Some(String::from("2023-12-31")));
    assert_eq!(Timestamp { secs: 1704067199, nanos: 999 }.day(), Some(String::from("2023-12-31")));
}

#[test]
fn instant_out_of_range_has_no_marker() {
    assert_eq!(Timestamp { secs: i64::MAX, nanos: 0 }.marker(), None);
    assert_eq!(Timestamp { secs: i64::MIN, nanos: 0 }.day(), None);
    assert_eq!(Timestamp { secs: 0, nanos: 2_000_000_000 }.marker(), None);
}

#[test]
fn is_after_orders_by_seconds_then_nanoseconds() {
    let a = Timestamp { secs: 5, nanos: 1 };
    let b = Timestamp { secs: 5, nanos: 2 };
    let c = Timestamp { secs: 6, nanos: 0 };
    assert!(b.is_after(&a));
    assert!(c.is_after(&b));
    assert!(!a.is_after(&a));
    assert!(!a.is_after(&c));
}

#[test]
fn reading_that_does_not_fit_counts_as_zero() {
    assert_eq!(reading_or_zero(None), 0);
    assert_eq!(reading_or_zero(Some(-3)), -3);
    assert_eq!(reading_or_zero(Some(i64::MAX)), i64::MAX);
}

#[test]
fn path_of_reads_segments() {
    match path_of("https://example.com/foo/bar%20baz/") {
        LinkPath::Segments(v) => assert_eq!(v, vec!["foo", "bar%20baz", ""]),
        _ => panic!("expected segments"),
    }
    assert!(matches!(path_of("data:text/plain,Hello"), LinkPath::Opaque));
    assert!(matches!(path_of("no url at all"), LinkPath::Unparsable));
}

#[test]
fn host_of_reads_host() {
    assert_eq!(
        host_of("https://blog.example.com/feed.xml"),
        Some(String::from("blog.example.com"))
    );
    assert_eq!(host_of("data:text/plain,Hello"), None);
    assert_eq!(host_of("::nonsense::"), None);
}

#[test]
fn is_later_puts_missing_dates_last() {
    let t = Some(Timestamp { secs: 1, nanos: 0 });
    assert!(is_later(t, None));
    assert!(!is_later(None, t));
    assert!(!is_later(None, None));
    assert!(is_later(Some(Timestamp { secs: 2, nanos: 0 }), t));
}

#[test]
fn recency_order_is_newest_first_and_stable() {
    let dates = vec![
        Some(Timestamp { secs: 10, nanos: 0 }),
        None,
        Some(Timestamp { secs: 30, nanos: 0 }),
        Some(Timestamp { secs: 10, nanos: 0 }),
        None,
        Some(Timestamp { secs: 30, nanos: 1 }),
    ];
    assert_eq!(recency_order(&dates), vec![5, 2, 0, 3, 1, 4]);
    assert_eq!(recency_order(&Vec::new()), Vec::<usize>::new());
}

#[test]
fn recency_order_matches_a_stable_sort() {
    let dates: Vec<Option<Timestamp>> = (0..40u32)
        .map(|i| {
            if i % 7 == 0 {
                None
            } else {
                Some(Timestamp { secs: ((i * 37) % 11) as i64, nanos: i % 3 })
            }
        })
        .collect();
    let mut expected: Vec<usize> = (0..dates.len()).collect();
    expected.sort_by(|a, b| {
        let ka = dates[*a].map(|t| (t.secs, t.nanos));
        let kb = dates[*b].map(|t| (t.secs, t.nanos));
        kb.cmp(&ka)
    });
    assert_eq!(recency_order(&dates), expected);
}
