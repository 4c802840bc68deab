//! Markdown as Telegram's HTML.

use lexi::telegram::fmt::markdown_to_telegram_html;

#[test]
fn test_bold() {
    assert_eq!(markdown_to_telegram_html("**hello**"), "<b>hello</b>");
}

#[test]
fn test_italic() {
    assert_eq!(markdown_to_telegram_html("*hello*"), "<i>hello</i>");
}

#[test]
fn test_code_inline() {
    assert_eq!(markdown_to_telegram_html("`foo`"), "<code>foo</code>");
}

#[test]
fn test_code_block() {
    let input = "```rust\nfn main() {}\n```";
    let expected = "<pre><code class=\"language-rust\">fn main() {}</code></pre>";
    assert_eq!(markdown_to_telegram_html(input), expected);
}

#[test]
fn test_code_block_no_lang() {
    let input = "```\nhello\n```";
    let expected = "<pre>hello</pre>";
    assert_eq!(markdown_to_telegram_html(input), expected);
}

#[test]
fn test_link() {
    assert_eq!(
        markdown_to_telegram_html("[text](https://example.com)"),
        "<a href=\"https://example.com\">text</a>"
    );
}

#[test]
fn test_blockquote() {
    assert_eq!(
        markdown_to_telegram_html("> text"),
        "<blockquote>text</blockquote>"
    );
}

#[test]
fn test_heading_as_bold() {
    assert_eq!(markdown_to_telegram_html("# title"), "<b>title</b>");
}

#[test]
fn test_strikethrough() {
    assert_eq!(markdown_to_telegram_html("~~text~~"), "<s>text</s>");
}

#[test]
fn test_unordered_list() {
    let input = "- a\n- b";
    let expected = "• a\n• b";
    assert_eq!(markdown_to_telegram_html(input), expected);
}

#[test]
fn test_ordered_list() {
    let input = "1. a\n2. b";
    let expected = "1. a\n2. b";
    assert_eq!(markdown_to_telegram_html(input), expected);
}

#[test]
fn test_escapes_html_entities() {
    assert_eq!(markdown_to_telegram_html("<script>"), "&lt;script&gt;");
}

#[test]
fn test_nested_formatting() {
    assert_eq!(
        markdown_to_telegram_html("**bold *and italic***"),
        "<b>bold <i>and italic</i></b>"
    );
}

#[test]
fn test_plain_text_passthrough() {
    assert_eq!(markdown_to_telegram_html("hello world"), "hello world");
}

#[test]
fn test_rule() {
    let input = "above\n\n---\n\nbelow";
    let expected = "above\n\n———\n\nbelow";
    assert_eq!(markdown_to_telegram_html(input), expected);
}

#[test]
fn html_in_a_text_does_not_become_markup() {
    assert_eq!(
        markdown_to_telegram_html("a <b>bold</b> tag\nand 1 < 2"),
        "a &lt;b&gt;bold&lt;/b&gt; tag\nand 1 &lt; 2"
    );
}

#[test]
fn a_code_block_is_closed_as_it_was_opened() {
    assert_eq!(
        markdown_to_telegram_html("```rust\na\n```\n\n```\nb\n```"),
        "<pre><code class=\"language-rust\">a</code></pre>\n\n<pre>b</pre>"
    );
    assert_eq!(
        markdown_to_telegram_html("```\na\n```\n\n```c\nb\n```\n\n    d"),
        "<pre>a</pre>\n\n<pre><code class=\"language-c\">b</code></pre>\n\n<pre>d</pre>"
    );
}
