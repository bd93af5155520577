use rssbot::instant::Timestamp;
use rssbot::model::{Feed, ParsedEntry};
use rssbot::publisher::{
    compose, destination, extract_image, extract_image_from_html, footer, validate_image_url,
    Attempts, Destination, RetryPolicy, Verdict, ACCENT, TITLE_LIMIT,
};

fn feed(title: Option<&str>, url: &str) -> Feed {
    Feed {
        id: 1,
        guild_id: 2,
        channel_id: 3,
        url: String::from(url),
        title: title.map(String::from),
        webhook_url: None,
        last_updated: String::from("2024-01-01T00:00:00+00:00"),
        last_item_date: None,
    }
}

fn entry() -> ParsedEntry {
    ParsedEntry {
        id: String::from("id"),
        link: Some(String::from("https://example.com/post")),
        title: Some(String::from("<b>Head</b>line")),
        summary: Some(String::from("<p>Sum &amp; substance</p>")),
        content: Some(String::from(
            "<p>Body <img alt=\"x\" src=\"https://cdn.example.com/pic.PNG\"></p>",
        )),
        published: None,
        updated: Some(Timestamp { secs: 77, nanos: 1 }),
    }
}

#[test]
fn image_url_is_judged_by_ending_or_keyword() {
    assert!(validate_image_url("https://x.example/a.JPG"));
    assert!(validate_image_url("https://x.example/a.jpeg?w=1"));
    assert!(validate_image_url("https://x.example/a.webp"));
    assert!(validate_image_url("https://x.example/a.gif"));
    assert!(validate_image_url("https://x.example/a.bmp"));
    assert!(validate_image_url("https://x.example/a.svg"));
    assert!(validate_image_url("https://x.example/Images/1"));
    assert!(validate_image_url("https://img.example/1"));
    assert!(!validate_image_url("https://x.example/doc.pdf"));
    assert!(!validate_image_url(""));
}

#[test]
fn image_is_taken_from_the_first_img_element() {
    assert_eq!(
        extract_image_from_html(
            "<img class='c' src='https://a.example/one.png'><img src=\"https://b.example/2.gif\">",
        ),
        Some(String::from("https://a.example/one.png"))
    );
    assert_eq!(extract_image_from_html("<img src=\"/relative/pic.png\">"), None);
    assert_eq!(
        extract_image_from_html("<img src='/rel.png'><img src='https://x.org/a.png'>"),
        Some(String::from("https://x.org/a.png"))
    );
    assert_eq!(
        extract_image_from_html(
            "<img src='https://x.org/d.pdf'><img src='ftp://x.org/i.png'>\
             <img src='http://y.org/i.gif'>"
        ),
        Some(String::from("http://y.org/i.gif"))
    );
    assert_eq!(extract_image_from_html("<img src=\"https://a.example/file.pdf\">"), None);
    assert_eq!(extract_image_from_html("<p>no picture</p>"), None);
    assert_eq!(extract_image_from_html("<img src=\"https://a.example/pic.png\""), None);
}

#[test]
fn image_of_entry_prefers_content_over_summary() {
    let mut e = entry();
    e.summary = Some(String::from("<img src=\"https://s.example/sum.jpg\">"));
    assert_eq!(extract_image(&e), Some(String::from("https://cdn.example.com/pic.PNG")));
    e.content = Some(String::from("<p>plain</p>"));
    assert_eq!(extract_image(&e), Some(String::from("https://s.example/sum.jpg")));
    e.content = None;
    assert_eq!(extract_image(&e), Some(String::from("https://s.example/sum.jpg")));
    e.summary = None;
    assert_eq!(extract_image(&e), None);
}

#[test]
fn footer_is_title_then_host_then_plain() {
    assert_eq!(footer(&feed(Some("My <i>Feed</i>"), "https://example.com/rss")), "My Feed");
    assert_eq!(footer(&feed(None, "https://news.example.org/rss")), "news.example.org");
    assert_eq!(footer(&feed(None, "data:text/plain,x")), "RSS Feed");
    assert_eq!(footer(&feed(None, "not a url")), "RSS Feed");
}

#[test]
fn compose_fills_every_field() {
    let p = compose(&feed(None, "https://example.com/rss"), &entry());
    assert_eq!(p.title, "Headline");
    assert_eq!(p.description, "Sum & substance");
    assert_eq!(p.link, Some(String::from("https://example.com/post")));
    assert_eq!(p.timestamp, Some(Timestamp { secs: 77, nanos: 1 }));
    assert_eq!(p.image, Some(String::from("https://cdn.example.com/pic.PNG")));
    assert_eq!(p.footer, "example.com");
    assert_eq!(p.color, 0x5865f2);
    assert_eq!(p.color, ACCENT);
}

#[test]
fn compose_truncates_long_titles() {
    let mut e = entry();
    e.title = Some("t".repeat(300));
    let p = compose(&feed(None, "https://example.com/rss"), &e);
    assert_eq!(TITLE_LIMIT, 256);
    assert_eq!(p.title, format!("{}\u{2026}", "t".repeat(255)));
}

#[test]
fn compose_of_bare_entry() {
    let e = ParsedEntry {
        id: String::new(),
        link: None,
        title: None,
        summary: None,
        content: None,
        published: None,
        updated: None,
    };
    let p = compose(&feed(Some("F"), "x"), &e);
    assert_eq!(p.title, "Untitled");
    assert_eq!(p.description, "No description available.");
    assert_eq!(p.link, None);
    assert_eq!(p.timestamp, None);
    assert_eq!(p.image, None);
    assert_eq!(p.footer, "F");
}

#[test]
fn one_retry_then_give_up() {
    let mut attempts = Attempts::new(RetryPolicy::once());
    assert_eq!(attempts.record(false), Verdict::Retry);
    assert_eq!(attempts.record(false), Verdict::GiveUp);
    let mut lucky = Attempts::new(RetryPolicy::once());
    assert_eq!(lucky.record(true), Verdict::Done);
    let mut second = Attempts::new(RetryPolicy::once());
    assert_eq!(second.record(false), Verdict::Retry);
    assert_eq!(second.record(true), Verdict::Done);
}

#[test]
fn policy_bounds_the_attempts() {
    for max in 0..5u32 {
        let mut attempts = Attempts::new(RetryPolicy { max_attempts: max });
        let mut made = 0;
        loop {
            made += 1;
            if attempts.record(false) != Verdict::Retry {
                break;
            }
        }
        assert_eq!(made, max.max(1));
    }
}

#[test]
fn destination_is_endpoint_where_there_is_one() {
    let mut f = feed(None, "https://example.com/rss");
    assert!(matches!(destination(&f), Destination::Channel(3)));
    f.webhook_url = Some(String::from("https://hooks.example/1/abc"));
    match destination(&f) {
        Destination::Endpoint(url) => assert_eq!(url, "https://hooks.example/1/abc"),
        Destination::Channel(_) => panic!("the endpoint takes precedence"),
    }
}
