use rssbot::instant::Timestamp;
use rssbot::model::ParsedEntry;
use rssbot::entity::dereference;
use rssbot::normalizer::{artifacts, clean, decode, description, normalize, strip, title, truncate};

fn entry_with(title: Option<&str>, summary: Option<&str>, content: Option<&str>) -> ParsedEntry {
    ParsedEntry {
        id: String::from("id"),
        link: None,
        title: title.map(String::from),
        summary: summary.map(String::from),
        content: content.map(String::from),
        published: Some(Timestamp { secs: 0, nanos: 0 }),
        updated: None,
    }
}

#[test]
fn clean_strips_tags_and_decodes_entities() {
    assert_eq!(clean("<p>A &amp; B</p>"), "A & B");
}

#[test]
fn clean_removes_script_with_its_content() {
    assert_eq!(clean("<script>evil()</script>Hello"), "Hello");
}

#[test]
fn clean_removes_style_with_its_content() {
    assert_eq!(clean("<STYLE type=\"text/css\">p { color: red }\n</STYLE>Text"), "Text");
}

#[test]
fn clean_of_empty_is_empty() {
    assert_eq!(clean(""), "");
}

#[test]
fn clean_unwraps_cdata() {
    assert_eq!(clean("<![CDATA[Hello <b>there</b>]]>"), "Hello there");
}

#[test]
fn clean_collapses_white_space() {
    assert_eq!(clean("  one \n\t two   three  "), "one two three");
}

#[test]
fn clean_removes_teasers_and_trailing_dots() {
    assert_eq!(clean("Some news Read More... and the rest"), "Some news");
    assert_eq!(clean("A story [...]"), "A story");
    assert_eq!(clean("Cut off ..."), "Cut off");
    assert_eq!(clean("The tale goes on Continue reading on the site"), "The tale goes on");
}

#[test]
fn clean_tolerates_malformed_markup() {
    assert_eq!(clean("<p unclosed"), "<p unclosed");
    assert_eq!(clean("a > b"), "a > b");
    assert_eq!(clean("<<>>"), ">");
}

#[test]
fn strip_removes_every_tag() {
    assert_eq!(strip("<a href=\"x\">link</a> <br/>text"), "link text");
    assert_eq!(strip("<script>a</script>b<style>c</style>d"), "bd");
}

#[test]
fn artifacts_removes_template_leftovers() {
    assert_eq!(artifacts("x StructValue(a, b) y"), "x  y");
    assert_eq!(artifacts("a&#1234;b"), "ab");
    assert_eq!(artifacts("see <Foo object at 0x7ffAB12> here"), "see  here");
    assert_eq!(artifacts("aside_block <ListValue: [1]> text"), " text");
}

#[test]
fn decode_applies_rules_in_order() {
    assert_eq!(decode("&amp;lt;"), "<");
    assert_eq!(decode("a&nbsp;b&#8230;"), "a b\u{2026}");
}

#[test]
fn decode_knows_every_entity() {
    assert_eq!(
        decode("&amp;&lt;&gt;&quot;&apos;&nbsp;&#39;&#x27;&#x2F;"),
        "&<>\"' ''/"
    );
    assert_eq!(
        decode("&#8220;&#8221;&#8217;&#8211;&#8212;&#8230;"),
        "\u{201C}\u{201D}\u{2019}\u{2013}\u{2014}\u{2026}"
    );
    assert_eq!(
        decode("&mdash;&ndash;&ldquo;&rdquo;&lsquo;&rsquo;&hellip;&#160;"),
        "\u{2014}\u{2013}\u{201C}\u{201D}\u{2018}\u{2019}\u{2026} "
    );
    assert_eq!(decode("&#8594;&#8592;&#8593;&#8595;"), "\u{2192}\u{2190}\u{2191}\u{2193}");
}

#[test]
fn decode_leaves_unknown_entities() {
    assert_eq!(decode("&copy; &amp"), "&copy; &amp");
}

#[test]
fn normalize_trims_and_collapses() {
    assert_eq!(normalize("\u{a0} a \u{2003}\n b \t"), "a b");
    assert_eq!(normalize("   "), "");
}

#[test]
fn format_removes_leading_bullets_and_dumps() {
    assert_eq!(rssbot::normalizer::format("- item"), "item");
    assert_eq!(rssbot::normalizer::format("* item"), "item");
    assert_eq!(rssbot::normalizer::format("a {'key': 'value'} b"), "a  b");
    assert_eq!(rssbot::normalizer::format("a ('x', 1) b"), "a  b");
    assert_eq!(rssbot::normalizer::format("More info at the site"), "");
    assert_eq!(rssbot::normalizer::format("Click here to read"), "");
}

#[test]
fn truncate_prefers_sentence_boundary() {
    assert_eq!(truncate("Sentence one. Sentence two.", 15), "Sentence one.");
}

#[test]
fn truncate_keeps_short_text() {
    assert_eq!(truncate("short", 10), "short");
    assert_eq!(truncate("exactly10!", 10), "exactly10!");
    assert_eq!(truncate("", 0), "");
}

#[test]
fn truncate_hard_cut_ends_with_ellipsis() {
    assert_eq!(truncate("abcdefghijklmnop", 8), "abcdefg\u{2026}");
    assert_eq!(truncate("abc", 0), "");
    assert_eq!(truncate("abc", 1), "\u{2026}");
    assert_eq!(truncate("abc", 2), "a\u{2026}");
}

#[test]
fn truncate_falls_back_to_word_boundary() {
    assert_eq!(truncate("aaaaaaaaaa bbbbbbb", 12), "aaaaaaaaaa\u{2026}");
    assert_eq!(truncate("aaaa bbbb cccc dddd eeee", 12), "aaaa bbbb c\u{2026}");
}

#[test]
fn truncate_falls_back_to_punctuation() {
    assert_eq!(truncate("aaaaaaaaaa,bbbbbb", 12), "aaaaaaaaaa,\u{2026}");
    assert_eq!(truncate("aaaaaaaaaaa!bbbbb", 12), "aaaaaaaaaaa\u{2026}");
    assert_eq!(truncate("aaaaaaaaa!bbbbb", 10), "aaaaaaaaa\u{2026}");
    assert_eq!(truncate("aaaaaaaa!bbbbbb", 10), "aaaaaaaa!\u{2026}");
}

#[test]
fn truncate_ignores_boundary_outside_last_quarter() {
    assert_eq!(truncate("a. bbbbbbbbbbbbbbbbbbb", 12), "a. bbbbbbbb\u{2026}");
}

#[test]
fn truncate_counts_characters() {
    assert_eq!(truncate("\u{e9}\u{e9}\u{e9}\u{e9}\u{e9}\u{e9}", 4), "\u{e9}\u{e9}\u{e9}\u{2026}");
    assert_eq!(truncate("\u{e9}\u{e9}\u{e9}\u{e9}", 4), "\u{e9}\u{e9}\u{e9}\u{e9}");
}

#[test]
fn truncate_result_is_bounded() {
    let text = "The quick brown fox. Jumps over, the lazy dog; again and again! And more?";
    for max in 0..80usize {
        let out = truncate(text, max);
        let n = out.chars().count();
        assert!(n <= max);
        if text.chars().count() <= max {
            assert_eq!(out, text);
        } else if max > 0 {
            assert!(out.ends_with('.') || out.ends_with('\u{2026}'));
        } else {
            assert_eq!(out, "");
        }
    }
}

#[test]
fn title_is_cleaned_or_untitled() {
    assert_eq!(title(&entry_with(Some("<b>Big</b> &amp; small"), None, None)), "Big & small");
    assert_eq!(title(&entry_with(None, None, None)), "Untitled");
}

#[test]
fn description_prefers_summary_then_content() {
    assert_eq!(description(&entry_with(None, Some("<p>sum</p>"), Some("body"))), "sum");
    assert_eq!(description(&entry_with(None, None, Some("<i>body</i>"))), "body");
    assert_eq!(description(&entry_with(None, None, None)), "No description available.");
}

#[test]
fn description_is_cut_at_sentence() {
    let mut long = String::new();
    for _ in 0..150 {
        long.push_str("Ten chars.");
    }
    long.push_str(&"x".repeat(400));
    let out = description(&entry_with(None, Some(&long), None));
    assert_eq!(out.chars().count(), 1500);
    assert!(out.ends_with("Ten chars."));
}

#[test]
fn description_is_cut_at_word() {
    let mut long = "y".repeat(1500);
    long.push(' ');
    long.push_str(&"z".repeat(600));
    let out = description(&entry_with(None, Some(&long), None));
    assert_eq!(out, format!("{}\u{2026}", "y".repeat(1500)));
}

#[test]
fn description_hard_cut() {
    let long = "w".repeat(2000);
    let out = description(&entry_with(None, Some(&long), None));
    assert_eq!(out, format!("{}\u{2026}", "w".repeat(1797)));
}

fn dereferenced(text: &str) -> String {
    rssbot::text::text_of(&dereference(&rssbot::text::chars_of(text)))
}

#[test]
fn clean_unwraps_cdata_over_line_breaks() {
    assert_eq!(clean("<![CDATA[Hello\nWorld]]>"), "Hello World");
    assert_eq!(clean("a<![CDATA[ one\r\n two ]]>b<![CDATA[three]]>"), "a one two bthree");
}

#[test]
fn clean_leaves_single_spaces_behind_what_it_removes() {
    assert_eq!(clean("a [...] b"), "a b");
    assert_eq!(clean("x {'k': 'v'} y"), "x y");
    assert_eq!(clean("one [\u{2026}]  two"), "one two");
    assert_eq!(clean(" - lead"), "lead");
}

#[test]
fn clean_output_is_single_spaced() {
    let samples = [
        "a [...] b",
        "  <p> x </p>\n<p>\ty\u{a0}z </p> ",
        "&nbsp;&#160; q &#8230; [...] ",
        "<![CDATA[ a \n\n b ]]> StructValue(1) c",
        "\u{3000}wide\u{2003}space\u{3000}",
    ];
    for s in samples {
        let out = clean(s);
        assert_eq!(out, out.split_whitespace().collect::<Vec<&str>>().join(" "));
        assert!(out.chars().all(|c| !c.is_whitespace() || c == ' '));
    }
}

#[test]
fn clean_decodes_numeric_entities() {
    assert_eq!(clean("caf&#233;"), "caf\u{e9}");
    assert_eq!(clean("caf&#xE9; &#x1F600;"), "caf\u{e9} \u{1F600}");
    assert_eq!(clean("&amp;#233;"), "\u{e9}");
}

#[test]
fn decode_turns_references_into_characters() {
    assert_eq!(decode("&#65;&#x42;&#X43;&#0100;"), "ABCd");
    assert_eq!(decode("&#8364; &#x20AC;"), "\u{20AC} \u{20AC}");
    assert_eq!(decode("&#1114111;"), "\u{10FFFF}");
}

#[test]
fn references_that_name_no_character_stay() {
    for s in ["&#;", "&#x;", "&#12", "&#xZZ;", "&#55296;", "&#1114112;", "&#99999999999999999999;",
        "&#-1;", "& #65;", "&#65 ;", "&#", "&"]
    {
        assert_eq!(dereferenced(s), s);
    }
    assert_eq!(dereferenced("&#&#65;;"), "&#A;");
    assert_eq!(dereferenced("&#x41g;&#x41;"), "&#x41g;A");
}

#[test]
fn artifacts_removes_references_that_name_no_character() {
    assert_eq!(clean("a&#55296;b &#1114112;c"), "ab c");
}
