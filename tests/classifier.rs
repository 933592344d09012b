use moderation::classifier::{classify, classify_lowered, ClassificationResult, Reason};
use moderation::text::{chars_of, count_char, count_words, white_space};

fn labels(r: &ClassificationResult) -> Vec<&'static str> {
    r.reasons.iter().map(|x| x.label()).collect()
}

#[test]
fn short_greeting_is_very_short() {
    let r = classify("hi");
    assert_eq!(r.score, 10);
    assert!(!r.is_spam);
    assert_eq!(labels(&r), vec!["very short message"]);
}

#[test]
fn link_with_exclamations_is_spam() {
    let r = classify("Visit https://example.com now!!!!!");
    assert_eq!(r.score, 70);
    assert!(r.is_spam);
    assert_eq!(
        labels(&r),
        vec!["contains spam marker", "too many exclamation marks"]
    );
}

#[test]
fn empty_text_is_very_short() {
    let r = classify("");
    assert_eq!(r.score, 10);
    assert!(!r.is_spam);
    assert_eq!(r.reasons, vec![Reason::VeryShort]);
}

#[test]
fn text_of_321_chars_is_too_long() {
    let mut text = String::new();
    while text.len() < 321 {
        text.push_str("word ");
    }
    text.truncate(321);
    assert_eq!(text.chars().count(), 321);
    let r = classify(&text);
    assert_eq!(r.score, 20);
    assert!(!r.is_spam);
    assert_eq!(r.reasons, vec![Reason::TooLong]);
}

#[test]
fn text_of_320_chars_is_not_too_long() {
    let text = "abcd ".repeat(64);
    assert_eq!(text.chars().count(), 320);
    let r = classify(&text);
    assert_eq!(r.score, 0);
    assert!(r.reasons.is_empty());
}

#[test]
fn marker_alone_stops_at_first_rule() {
    let r = classify("join our casino tonight");
    assert_eq!(r.score, 55);
    assert!(!r.is_spam);
    assert_eq!(r.reasons, vec![Reason::SpamMarker]);
}

#[test]
fn markers_match_regardless_of_case() {
    let r = classify("Join Our CASINO Tonight");
    assert_eq!(r.reasons, vec![Reason::SpamMarker]);
    let r = classify("see T.ME/channel for more");
    assert_eq!(r.reasons, vec![Reason::SpamMarker]);
}

#[test]
fn markers_match_inside_words() {
    let r = classify("I study cryptography at school");
    assert_eq!(r.reasons, vec![Reason::SpamMarker]);
    let r = classify("come to Discord.gg/abc now");
    assert_eq!(r.reasons, vec![Reason::SpamMarker]);
    let r = classify("old site http://a.b here");
    assert_eq!(r.reasons, vec![Reason::SpamMarker]);
}

#[test]
fn no_marker_in_plain_text() {
    let r = classify("a perfectly ordinary sentence here");
    assert_eq!(r.score, 0);
    assert!(!r.is_spam);
    assert!(r.reasons.is_empty());
}

#[test]
fn four_exclamations_are_not_too_many() {
    let r = classify("wow this is great!!!!");
    assert!(r.reasons.is_empty());
    let r = classify("wow this is great!!!!!");
    assert_eq!(r.reasons, vec![Reason::TooManyExclamations]);
    assert_eq!(r.score, 15);
}

#[test]
fn all_rules_fire_together() {
    let mut text = String::from("crypto!!!!!");
    text.push_str(&"x".repeat(400));
    let r = classify(&text);
    assert_eq!(r.score, 100);
    assert!(r.is_spam);
    assert_eq!(
        labels(&r),
        vec![
            "contains spam marker",
            "too long",
            "too many exclamation marks",
            "very short message"
        ]
    );
}

#[test]
fn three_words_are_not_very_short() {
    assert!(classify("one two three").reasons.is_empty());
    assert_eq!(classify("  one \t\n two  ").reasons, vec![Reason::VeryShort]);
    assert_eq!(classify("one\u{3000}two").reasons, vec![Reason::VeryShort]);
    assert!(classify("one\u{3000}two\u{a0}three").reasons.is_empty());
}

#[test]
fn score_stays_in_range_and_decides() {
    let texts = [
        "",
        "hi",
        "Visit https://example.com now!!!!!",
        "casino crypto discord.gg t.me/ http:// https:// !!!!!!!!",
        "ordinary words in a row",
    ];
    for t in texts.iter() {
        let r = classify(t);
        assert!(r.score <= 100);
        assert_eq!(r.is_spam, r.score >= 60);
        assert!(r.reasons.len() <= 4);
    }
}

#[test]
fn reasons_follow_rule_order() {
    let r = classify("casino!!!!!");
    assert_eq!(
        r.reasons,
        vec![
            Reason::SpamMarker,
            Reason::TooManyExclamations,
            Reason::VeryShort
        ]
    );
    assert_eq!(r.score, 80);
}

#[test]
fn classify_twice_gives_same_result() {
    let text = "Visit https://example.com now!!!!!";
    let a = classify(text);
    let b = classify(text);
    assert_eq!(a.score, b.score);
    assert_eq!(a.is_spam, b.is_spam);
    assert_eq!(a.reasons, b.reasons);
}

#[test]
fn markers_are_sought_in_the_lowered_form() {
    let r = classify_lowered("Free stuff for everyone", "free casino for everyone");
    assert_eq!(r.reasons, vec![Reason::SpamMarker]);
    let r = classify_lowered("CASINO night for all", "CASINO night for all");
    assert!(r.reasons.is_empty());
}

#[test]
fn reason_labels() {
    assert_eq!(Reason::SpamMarker.label(), "contains spam marker");
    assert_eq!(Reason::TooLong.label(), "too long");
    assert_eq!(Reason::TooManyExclamations.label(), "too many exclamation marks");
    assert_eq!(Reason::VeryShort.label(), "very short message");
}

#[test]
fn counting_characters_and_words() {
    let v: Vec<char> = "a!b!!c".chars().collect();
    assert_eq!(count_char(&v, '!'), 3);
    let v: Vec<char> = " two  words ".chars().collect();
    assert_eq!(count_words(&v), 2);
    let v: Vec<char> = "".chars().collect();
    assert_eq!(count_words(&v), 0);
    assert!(white_space('\u{2028}'));
    assert!(white_space('\t'));
    assert!(!white_space('x'));
    assert!(!white_space('\u{200b}'));
}

#[test]
fn reason_points() {
    assert_eq!(Reason::SpamMarker.points(), 55);
    assert_eq!(Reason::TooLong.points(), 20);
    assert_eq!(Reason::TooManyExclamations.points(), 15);
    assert_eq!(Reason::VeryShort.points(), 10);
}

#[test]
fn chars_of_keeps_every_character() {
    assert_eq!(chars_of("añ!\u{3000}z"), vec!['a', 'ñ', '!', '\u{3000}', 'z']);
    assert!(chars_of("").is_empty());
}
