//! Texts, and how they are split and sent.

use lexi::http_status::status_text;
use lexi::telegram::fmt::{escape_html, markdown_to_telegram_html, parse_markdown, render_events};
use lexi::telegram::types::{ApiResponse, User};
use lexi::telegram::{
    get_me, method_url, send_long_message, send_message_params, split_message,
    start_delivery, ApiReply, Delivery, MAX_MESSAGE_LENGTH,
};
use lexi::text::{
    collapse_white_space, decimal_text, parse_unsigned, replace, signed_decimal_text, slice_bytes,
    split_words, trim_text,
};

#[test]
fn a_short_text_is_one_message() {
    assert_eq!(split_message("hello"), vec!["hello"]);
}

#[test]
fn a_long_text_is_split_where_a_line_ends() {
    let line = "a".repeat(3000);
    let text = format!("{line}\n{line}");
    let parts = split_message(&text);
    assert_eq!(parts, vec![line.as_str(), line.as_str()]);
    let solid = "b".repeat(MAX_MESSAGE_LENGTH + 10);
    let parts = split_message(&solid);
    assert_eq!(parts.len(), 2);
    assert_eq!(parts[0].len(), MAX_MESSAGE_LENGTH);
    assert_eq!(parts.concat(), solid);
    for part in parts {
        assert!(part.len() <= MAX_MESSAGE_LENGTH);
    }
}

#[test]
fn a_long_text_is_never_split_inside_a_character() {
    let text = "\u{20AC}".repeat(1366);
    let parts = split_message(&text);
    assert_eq!(parts.len(), 2);
    assert_eq!(parts[0], "\u{20AC}".repeat(1365));
    assert_eq!(parts[1], "\u{20AC}");
    assert_eq!(parts.concat(), text);
    let mixed = format!("{} {}", "\u{1F600}".repeat(600), "\u{1F600}".repeat(600));
    let parts = split_message(&mixed);
    assert_eq!(parts, vec!["\u{1F600}".repeat(600), "\u{1F600}".repeat(600)]);
    let full = format!("{}\u{e9}", "a".repeat(MAX_MESSAGE_LENGTH - 1));
    let parts = split_message(&full);
    assert_eq!(parts[0].len(), MAX_MESSAGE_LENGTH - 1);
    assert_eq!(parts[1], "\u{e9}");
}

#[test]
fn a_delivery_goes_message_by_message() {
    let first = start_delivery(2, true);
    assert!(matches!(first, Delivery::Send { index: 0, formatted: true }));
    let again = send_long_message(first, 2, true, Some("Bad Request: can't parse entities: x"));
    assert!(matches!(again, Delivery::Send { index: 0, formatted: false }));
    let second = send_long_message(again, 2, true, None);
    assert!(matches!(second, Delivery::Send { index: 1, formatted: true }));
    let done = send_long_message(second, 2, true, None);
    assert!(matches!(done, Delivery::Sent));
    let failed = send_long_message(start_delivery(2, true), 2, true, Some("too many requests"));
    assert!(matches!(failed, Delivery::Failed));
}

#[test]
fn a_message_is_sent_with_what_is_given() {
    assert_eq!(
        method_url("https://api.telegram.org/bot", "123:abc", "sendMessage"),
        "https://api.telegram.org/bot123:abc/sendMessage"
    );
    let plain = send_message_params(-5, "hello", None, None);
    assert_eq!(plain.to_string(), "{\"chat_id\":-5,\"text\":\"hello\"}");
    let full = send_message_params(5, "hello", Some(9), Some("HTML"));
    assert_eq!(full["message_thread_id"], 9);
    assert_eq!(full["parse_mode"], "HTML");
}

#[test]
fn an_unsuccessful_call_is_told_of() {
    let reply: ApiReply<User> = ApiReply::Answer(ApiResponse {
        ok: false,
        result: None,
        description: Some("Unauthorized".to_string()),
        error_code: Some(401),
    });
    match get_me(reply) {
        Ok(_) => panic!("there is no user"),
        Err(message) => assert!(message.contains("Unauthorized")),
    }
    let reply: ApiReply<User> = ApiReply::HttpError { status: 502, body: "gateway".to_string() };
    match get_me(reply) {
        Ok(_) => panic!("there is no user"),
        Err(message) => {
            assert!(message.contains("502"));
            assert!(message.contains("gateway"));
        }
    }
}

#[test]
fn markup_is_escaped() {
    assert_eq!(escape_html("a < b & c > d"), "a &lt; b &amp; c &gt; d");
    assert_eq!(markdown_to_telegram_html("1 < 2"), "1 &lt; 2");
    assert_eq!(
        render_events(&parse_markdown("**a** ~~b~~", true)),
        "<b>a</b> <s>b</s>"
    );
}

#[test]
fn statuses_have_their_phrases() {
    assert_eq!(status_text(200), "200 OK");
    assert_eq!(status_text(404), "404 Not Found");
    assert_eq!(status_text(599), "599 <unknown status code>");
}

#[test]
fn numbers_are_written_and_read() {
    assert_eq!(decimal_text(0), "0");
    assert_eq!(decimal_text(120), "120");
    assert_eq!(signed_decimal_text(i64::MIN), "-9223372036854775808");
    let chars = |text: &str| text.chars().collect::<Vec<char>>();
    assert_eq!(parse_unsigned(&chars("18446744073709551615")), Some(u64::MAX));
    assert_eq!(parse_unsigned(&chars("18446744073709551616")), None);
    assert_eq!(parse_unsigned(&chars("+7")), Some(7));
    assert_eq!(parse_unsigned(&chars("+")), None);
    assert_eq!(parse_unsigned(&chars("")), None);
    assert_eq!(parse_unsigned(&chars("1a")), None);
}

#[test]
fn white_space_is_that_of_unicode() {
    assert_eq!(collapse_white_space("  a \u{2003}b\n\tc "), "a b c");
    assert_eq!(split_words("\u{85}x\u{a0}y"), vec!["x", "y"]);
    assert_eq!(trim_text("\u{3000} x \u{feff}"), "x \u{feff}");
    for code in 0..0x11_0000u32 {
        if let Some(c) = char::from_u32(code) {
            assert_eq!(
                lexi::text::is_white_space(c),
                c.is_whitespace(),
                "character {code:x}"
            );
        }
    }
}

#[test]
fn texts_are_cut_and_changed() {
    assert_eq!(slice_bytes("aäb", 1, 2), "ä");
    assert_eq!(replace("aXbXc", "X", "--"), "a--b--c");
    assert_eq!(replace("aaa", "aa", "b"), "ba");
}
