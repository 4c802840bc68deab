//! Markdown to the HTML that Telegram accepts.
//!
//! `pulldown_cmark` reads the Markdown; the events it gives are held as [`MarkdownEvent`]s and
//! written out by [`render_events`].

use crate::text;
use crate::text::{chars_of, decimal_text, push_char, push_text, text_of, trim_end_chars};
use pulldown_cmark::{CodeBlockKind, Event, Options, Parser, Tag, TagEnd};
use vstd::prelude::*;

verus! {

// ---------------------------------------------------------------------------------------------
// Escaping

/// What stands for one character in Telegram's HTML.
pub open spec fn escaped_char(c: char) -> Seq<char> {
    if c == '&' {
        "&amp;"@
    } else if c == '<' {
        "&lt;"@
    } else if c == '>' {
        "&gt;"@
    } else {
        seq![c]
    }
}

/// `text` with `&`, `<` and `>` escaped.
pub open spec fn escaped(text: Seq<char>) -> Seq<char>
    decreases text.len(),
{
    if text.len() == 0 {
        seq![]
    } else {
        escaped(text.drop_last()) + escaped_char(text.last())
    }
}

/// Escapes text for Telegram's HTML mode: `<`, `>` and `&`.
pub fn escape_html(text: &str) -> (r: String)
    ensures
        r@ == escaped(text@),
{
    let chars = chars_of(text);
    let mut out = String::new();
    let mut i: usize = 0;
    while i < chars.len()
        invariant
            i <= chars@.len(),
            out@ == escaped(chars@.take(i as int)),
        decreases chars@.len() - i,
    {
        let c = chars[i];
        proof {
            assert(chars@.take(i + 1).drop_last() =~= chars@.take(i as int));
            assert(out@.push(c) =~= out@ + seq![c]);
        }
        if c == '&' {
            out.append("&amp;");
        } else if c == '<' {
            out.append("&lt;");
        } else if c == '>' {
            out.append("&gt;");
        } else {
            push_char(&mut out, c);
        }
        i += 1;
    }
    proof {
        assert(chars@.take(i as int) =~= chars@);
    }
    out
}

/// Escaped text holds neither `<` nor `>`, so no tag of Telegram's HTML.
pub proof fn law_escaped_text_holds_no_tag(text: Seq<char>)
    ensures
        !escaped(text).contains('<'),
        !escaped(text).contains('>'),
    decreases text.len(),
{
    if text.len() > 0 {
        law_escaped_text_holds_no_tag(text.drop_last());
        reveal_strlit("&amp;");
        reveal_strlit("&lt;");
        reveal_strlit("&gt;");
        let before = escaped(text.drop_last());
        let added = escaped_char(text.last());
        assert(!added.contains('<'));
        assert(!added.contains('>'));
        assert forall|i: int| 0 <= i < (before + added).len() implies (before + added)[i] != '<' && (
        before + added)[i] != '>' by {
            if i < before.len() {
                assert(before.contains(before[i]));
            } else {
                assert(added.contains(added[i - before.len()]));
            }
        }
    }
}

/// Two texts that escape to the same HTML are the same text.
pub proof fn law_escaping_loses_nothing(a: Seq<char>, b: Seq<char>)
    requires
        escaped(a) == escaped(b),
    ensures
        a == b,
    decreases a.len(),
{
    reveal_strlit("&amp;");
    reveal_strlit("&lt;");
    reveal_strlit("&gt;");
    if a.len() == 0 {
        if b.len() > 0 {
            assert(escaped(b).len() > 0);
        }
        assert(a =~= b);
    } else if b.len() == 0 {
        assert(escaped(a).len() > 0);
    } else {
        let x = escaped(a.drop_last());
        let y = escaped(b.drop_last());
        let p = escaped_char(a.last());
        let q = escaped_char(b.last());
        let whole = escaped(a);
        assert(whole == x + p);
        assert(whole == y + q);
        lemma_escaped_ends(a);
        lemma_escaped_ends(b);
        assert(a.last() == b.last());
        assert(p == q);
        assert(x =~= whole.take(whole.len() - p.len()));
        assert(y =~= whole.take(whole.len() - q.len()));
        law_escaping_loses_nothing(a.drop_last(), b.drop_last());
        assert(a =~= a.drop_last().push(a.last()));
        assert(b =~= b.drop_last().push(b.last()));
    }
}

proof fn lemma_ampersand_opens_entity(text: Seq<char>, i: int)
    requires
        0 <= i < escaped(text).len(),
        escaped(text)[i] == '&',
    ensures
        text::occurs_at(escaped(text), "&amp;"@, i) || text::occurs_at(escaped(text), "&lt;"@, i) || text::occurs_at(
            escaped(text),
            "&gt;"@,
            i,
        ),
    decreases text.len(),
{
    reveal_strlit("&amp;");
    reveal_strlit("&lt;");
    reveal_strlit("&gt;");
    let before = escaped(text.drop_last());
    let added = escaped_char(text.last());
    let whole = escaped(text);
    if i < before.len() {
        lemma_ampersand_opens_entity(text.drop_last(), i);
        assert(whole.subrange(i, i + 5) =~= before.subrange(i, i + 5) || i + 5 > before.len());
        assert(whole.subrange(i, i + 4) =~= before.subrange(i, i + 4) || i + 4 > before.len());
    } else {
        assert(i == before.len());
        assert(whole.subrange(i, i + added.len()) =~= added);
    }
}

proof fn lemma_escaped_ends(text: Seq<char>)
    requires
        text.len() > 0,
    ensures
        text.last() == '&' <==> text::has_suffix(escaped(text), "&amp;"@),
        text.last() == '<' <==> text::has_suffix(escaped(text), "&lt;"@),
        text.last() == '>' <==> text::has_suffix(escaped(text), "&gt;"@),
        text.last() != '&' && text.last() != '<' && text.last() != '>' ==> escaped(text).last()
            == text.last(),
{
    reveal_strlit("&amp;");
    reveal_strlit("&lt;");
    reveal_strlit("&gt;");
    let before = escaped(text.drop_last());
    let added = escaped_char(text.last());
    let whole = escaped(text);
    assert(whole == before + added);
    assert(whole.skip(whole.len() - added.len()) =~= added);
    if text.last() == '&' {
        assert(whole.subrange(whole.len() - 5, whole.len() as int) =~= "&amp;"@);
        assert(whole[whole.len() - 2] == 'p');
        lemma_second_to_last(whole);
    } else if text.last() == '<' {
        assert(whole.subrange(whole.len() - 4, whole.len() as int) =~= "&lt;"@);
        assert(whole[whole.len() - 3] == 'l');
        lemma_second_to_last(whole);
    } else if text.last() == '>' {
        assert(whole.subrange(whole.len() - 4, whole.len() as int) =~= "&gt;"@);
        assert(whole[whole.len() - 3] == 'g');
        lemma_second_to_last(whole);
    } else {
        lemma_second_to_last(whole);
        if text::has_suffix(whole, "&amp;"@) {
            lemma_open_entity_is_whole(text.drop_last(), 4);
        }
        if text::has_suffix(whole, "&lt;"@) || text::has_suffix(whole, "&gt;"@) {
            lemma_open_entity_is_whole(text.drop_last(), 3);
        }
    }
}

/// The letters that the three entities end in tell them apart.
proof fn lemma_second_to_last(s: Seq<char>)
    ensures
        text::has_suffix(s, "&amp;"@) ==> s.len() >= 5 && s[s.len() - 2] == 'p' && s[s.len() - 3] == 'm'
            && s[s.len() - 5] == '&',
        text::has_suffix(s, "&lt;"@) ==> s.len() >= 4 && s[s.len() - 2] == 't' && s[s.len() - 3] == 'l'
            && s[s.len() - 4] == '&',
        text::has_suffix(s, "&gt;"@) ==> s.len() >= 4 && s[s.len() - 2] == 't' && s[s.len() - 3] == 'g'
            && s[s.len() - 4] == '&',
{
    reveal_strlit("&amp;");
    reveal_strlit("&lt;");
    reveal_strlit("&gt;");
    if text::has_suffix(s, "&amp;"@) {
        let tail = s.subrange(s.len() - 5, s.len() as int);
        assert(tail[0] == '&' && tail[2] == 'm' && tail[3] == 'p');
    }
    if text::has_suffix(s, "&lt;"@) {
        let tail = s.subrange(s.len() - 4, s.len() as int);
        assert(tail[0] == '&' && tail[1] == 'l' && tail[2] == 't');
    }
    if text::has_suffix(s, "&gt;"@) {
        let tail = s.subrange(s.len() - 4, s.len() as int);
        assert(tail[0] == '&' && tail[1] == 'g' && tail[2] == 't');
    }
}

/// No escaped text ends `k` characters behind an `&` with an entity that is not closed there.
proof fn lemma_open_entity_is_whole(text: Seq<char>, k: int)
    requires
        k == 3 || k == 4,
        escaped(text).len() >= k,
        escaped(text)[escaped(text).len() - k] == '&',
    ensures
        k == 3 ==> escaped(text).last() != 't',
        k == 4 ==> escaped(text).last() != 'p',
{
    reveal_strlit("&amp;");
    reveal_strlit("&lt;");
    reveal_strlit("&gt;");
    let whole = escaped(text);
    let i = whole.len() - k;
    lemma_ampersand_opens_entity(text, i);
    if k == 4 && text::occurs_at(whole, "&lt;"@, i) {
        assert(whole.subrange(i, i + 4)[3] == ';');
    }
    if k == 4 && text::occurs_at(whole, "&gt;"@, i) {
        assert(whole.subrange(i, i + 4)[3] == ';');
    }
}

// ---------------------------------------------------------------------------------------------
// Markdown events

/// The elements that open and close in Markdown. A fenced code block carries its language, an
/// indented one carries none; an ordered list carries the number of its first item; a link and an
/// image carry where they point.
pub enum Element<S> {
    Paragraph,
    Heading,
    BlockQuote,
    CodeBlock(Option<S>),
    List(Option<u64>),
    Item,
    Emphasis,
    Strong,
    Strikethrough,
    Link(S),
    Image(S),
    Other,
}

/// The closing of an element.
#[derive(Clone, Copy, PartialEq, Eq, Structural)]
pub enum ElementEnd {
    Paragraph,
    Heading,
    BlockQuote,
    CodeBlock,
    List,
    Item,
    Emphasis,
    Strong,
    Strikethrough,
    Link,
    Image,
    Other,
}

/// One event of reading Markdown.
pub enum MarkdownEvent<S> {
    Start(Element<S>),
    End(ElementEnd),
    Text(S),
    Code(S),
    Html(S),
    InlineHtml(S),
    SoftBreak,
    HardBreak,
    Rule,
    Other,
}

/// An event as it comes from the reader, its elements still in the reader's own types.
pub enum ReaderEvent<'a> {
    Start(Tag<'a>),
    End(TagEnd),
    Text(String),
    Code(String),
    Html(String),
    InlineHtml(String),
    SoftBreak,
    HardBreak,
    Rule,
    Other,
}

/// `pulldown_cmark::Tag`.
#[verifier::external_type_specification]
#[verifier::external_body]
pub struct ExTag<'a>(Tag<'a>);

/// `pulldown_cmark::TagEnd`.
#[verifier::external_type_specification]
#[verifier::external_body]
pub struct ExTagEnd(TagEnd);

/// The element that a `pulldown_cmark::Tag` opens.
pub uninterp spec fn element_of(tag: Tag<'_>) -> Element<Seq<char>>;

/// The element that a `pulldown_cmark::TagEnd` closes.
pub uninterp spec fn element_end_of(end: TagEnd) -> ElementEnd;

/// The events that `pulldown_cmark` reads from a Markdown text, with or without strikethrough.
pub uninterp spec fn markdown_events(
    markdown: Seq<char>,
    strikethrough: bool,
) -> Seq<MarkdownEvent<Seq<char>>>;

/// The element behind its strings.
pub open spec fn element_view(element: Element<String>) -> Element<Seq<char>> {
    match element {
        Element::Paragraph => Element::Paragraph,
        Element::Heading => Element::Heading,
        Element::BlockQuote => Element::BlockQuote,
        Element::CodeBlock(Some(language)) => Element::CodeBlock(Some(language@)),
        Element::CodeBlock(None) => Element::CodeBlock(None),
        Element::List(first) => Element::List(first),
        Element::Item => Element::Item,
        Element::Emphasis => Element::Emphasis,
        Element::Strong => Element::Strong,
        Element::Strikethrough => Element::Strikethrough,
        Element::Link(url) => Element::Link(url@),
        Element::Image(url) => Element::Image(url@),
        Element::Other => Element::Other,
    }
}

/// The event behind its strings.
pub open spec fn event_view(event: MarkdownEvent<String>) -> MarkdownEvent<Seq<char>> {
    match event {
        MarkdownEvent::Start(element) => MarkdownEvent::Start(element_view(element)),
        MarkdownEvent::End(end) => MarkdownEvent::End(end),
        MarkdownEvent::Text(s) => MarkdownEvent::Text(s@),
        MarkdownEvent::Code(s) => MarkdownEvent::Code(s@),
        MarkdownEvent::Html(s) => MarkdownEvent::Html(s@),
        MarkdownEvent::InlineHtml(s) => MarkdownEvent::InlineHtml(s@),
        MarkdownEvent::SoftBreak => MarkdownEvent::SoftBreak,
        MarkdownEvent::HardBreak => MarkdownEvent::HardBreak,
        MarkdownEvent::Rule => MarkdownEvent::Rule,
        MarkdownEvent::Other => MarkdownEvent::Other,
    }
}

/// The events behind their strings.
pub open spec fn event_views(events: Seq<MarkdownEvent<String>>) -> Seq<MarkdownEvent<Seq<char>>> {
    events.map_values(|event: MarkdownEvent<String>| event_view(event))
}

/// The event behind its strings and the reader's types.
pub open spec fn reader_event_view(event: ReaderEvent<'_>) -> MarkdownEvent<Seq<char>> {
    match event {
        ReaderEvent::Start(tag) => MarkdownEvent::Start(element_of(tag)),
        ReaderEvent::End(end) => MarkdownEvent::End(element_end_of(end)),
        ReaderEvent::Text(s) => MarkdownEvent::Text(s@),
        ReaderEvent::Code(s) => MarkdownEvent::Code(s@),
        ReaderEvent::Html(s) => MarkdownEvent::Html(s@),
        ReaderEvent::InlineHtml(s) => MarkdownEvent::InlineHtml(s@),
        ReaderEvent::SoftBreak => MarkdownEvent::SoftBreak,
        ReaderEvent::HardBreak => MarkdownEvent::HardBreak,
        ReaderEvent::Rule => MarkdownEvent::Rule,
        ReaderEvent::Other => MarkdownEvent::Other,
    }
}

/// The events behind their strings and the reader's types.
pub open spec fn reader_event_views(events: Seq<ReaderEvent<'_>>) -> Seq<
    MarkdownEvent<Seq<char>>,
> {
    events.map_values(|event: ReaderEvent<'_>| reader_event_view(event))
}

/// `pulldown_cmark::Parser::new_ext` with strikethrough as its one option, run to its end: the
/// events of the text, as [`markdown_events`] names them. Math, footnote references and task
/// markers, which need other options, come as `Other`. Nothing is claimed of how the elements are
/// nested.
#[verifier::external_body]
fn read_markdown<'a>(markdown: &'a str, strikethrough: bool) -> (r: Vec<ReaderEvent<'a>>)
    ensures
        reader_event_views(r@) == markdown_events(markdown@, strikethrough),
{
    let mut options = Options::empty();
    options.set(Options::ENABLE_STRIKETHROUGH, strikethrough);
    Parser::new_ext(markdown, options).map(|event| match event {
        Event::Start(tag) => ReaderEvent::Start(tag),
        Event::End(end) => ReaderEvent::End(end),
        Event::Text(s) => ReaderEvent::Text(s.to_string()),
        Event::Code(s) => ReaderEvent::Code(s.to_string()),
        Event::Html(s) => ReaderEvent::Html(s.to_string()),
        Event::InlineHtml(s) => ReaderEvent::InlineHtml(s.to_string()),
        Event::SoftBreak => ReaderEvent::SoftBreak,
        Event::HardBreak => ReaderEvent::HardBreak,
        Event::Rule => ReaderEvent::Rule,
        _ => ReaderEvent::Other,
    }).collect()
}

/// Tells the variants of `pulldown_cmark::Tag` apart: the element that the tag opens, as
/// [`element_of`] names it. The ones that only other options give come as `Other`.
#[verifier::external_body]
fn open_element(tag: Tag<'_>) -> (r: Element<String>)
    ensures
        element_view(r) == element_of(tag),
{
    match tag {
        Tag::Paragraph => Element::Paragraph,
        Tag::Heading { .. } => Element::Heading,
        Tag::BlockQuote(_) => Element::BlockQuote,
        Tag::CodeBlock(CodeBlockKind::Fenced(s)) => Element::CodeBlock(Some(s.to_string())),
        Tag::CodeBlock(CodeBlockKind::Indented) => Element::CodeBlock(None),
        Tag::List(first) => Element::List(first),
        Tag::Item => Element::Item,
        Tag::Emphasis => Element::Emphasis,
        Tag::Strong => Element::Strong,
        Tag::Strikethrough => Element::Strikethrough,
        Tag::Link { dest_url, .. } => Element::Link(dest_url.to_string()),
        Tag::Image { dest_url, .. } => Element::Image(dest_url.to_string()),
        _ => Element::Other,
    }
}

/// Tells the variants of `pulldown_cmark::TagEnd` apart: the element that is closed, as
/// [`element_end_of`] names it.
#[verifier::external_body]
fn close_element(end: TagEnd) -> (r: ElementEnd)
    ensures
        r == element_end_of(end),
{
    match end {
        TagEnd::Paragraph => ElementEnd::Paragraph,
        TagEnd::Heading(_) => ElementEnd::Heading,
        TagEnd::BlockQuote(_) => ElementEnd::BlockQuote,
        TagEnd::CodeBlock => ElementEnd::CodeBlock,
        TagEnd::List(_) => ElementEnd::List,
        TagEnd::Item => ElementEnd::Item,
        TagEnd::Emphasis => ElementEnd::Emphasis,
        TagEnd::Strong => ElementEnd::Strong,
        TagEnd::Strikethrough => ElementEnd::Strikethrough,
        TagEnd::Link => ElementEnd::Link,
        TagEnd::Image => ElementEnd::Image,
        _ => ElementEnd::Other,
    }
}

/// Reads a Markdown text to its events.
pub fn parse_markdown(markdown: &str, strikethrough: bool) -> (r: Vec<MarkdownEvent<String>>)
    ensures
        event_views(r@) == markdown_events(markdown@, strikethrough),
{
    let read = read_markdown(markdown, strikethrough);
    let ghost wanted = reader_event_views(read@);
    let mut rest = read;
    let mut backwards: Vec<MarkdownEvent<String>> = Vec::new();
    while rest.len() > 0
        invariant
            rest@.len() + backwards@.len() == wanted.len(),
            reader_event_views(rest@) == wanted.take(rest@.len() as int),
            forall|i: int|
                0 <= i < backwards@.len() ==> event_view(#[trigger] backwards@[i])
                    == wanted[wanted.len() - 1 - i],
        decreases rest@.len(),
    {
        let ghost before = rest@;
        let last = rest.pop();
        proof {
            assert(reader_event_views(before)[before.len() - 1] == reader_event_view(before.last()));
            assert(reader_event_views(rest@) =~= wanted.take(rest@.len() as int)) by {
                assert(reader_event_views(before).drop_last() =~= reader_event_views(rest@));
            }
        }
        if let Some(event) = last {
            let converted = match event {
                ReaderEvent::Start(tag) => MarkdownEvent::Start(open_element(tag)),
                ReaderEvent::End(end) => MarkdownEvent::End(close_element(end)),
                ReaderEvent::Text(s) => MarkdownEvent::Text(s),
                ReaderEvent::Code(s) => MarkdownEvent::Code(s),
                ReaderEvent::Html(s) => MarkdownEvent::Html(s),
                ReaderEvent::InlineHtml(s) => MarkdownEvent::InlineHtml(s),
                ReaderEvent::SoftBreak => MarkdownEvent::SoftBreak,
                ReaderEvent::HardBreak => MarkdownEvent::HardBreak,
                ReaderEvent::Rule => MarkdownEvent::Rule,
                ReaderEvent::Other => MarkdownEvent::Other,
            };
            backwards.push(converted);
        }
    }
    let ghost turned = backwards@;
    let mut out: Vec<MarkdownEvent<String>> = Vec::new();
    while backwards.len() > 0
        invariant
            turned.len() == wanted.len(),
            out@.len() + backwards@.len() == wanted.len(),
            backwards@ == turned.take(backwards@.len() as int),
            forall|i: int|
                0 <= i < turned.len() ==> event_view(#[trigger] turned[i])
                    == wanted[wanted.len() - 1 - i],
            forall|i: int|
                0 <= i < out@.len() ==> event_view(#[trigger] out@[i]) == wanted[i],
        decreases backwards@.len(),
    {
        let ghost k = backwards@.len() - 1;
        if let Some(event) = backwards.pop() {
            proof {
                assert(event == turned[k]);
            }
            out.push(event);
        }
    }
    proof {
        assert(event_views(out@) =~= wanted);
    }
    out
}

// ---------------------------------------------------------------------------------------------
// Rendering

/// A list that is open, with the number of its next item where it is ordered.
pub enum ListKind<N> {
    Ordered(N),
    Unordered,
}

/// What has been written, whether a code block with a language is open, and the lists that are
/// open.
pub struct Rendering {
    pub out: Seq<char>,
    pub in_code: bool,
    pub lists: Seq<ListKind<nat>>,
}

/// Whether a code block is in a language.
pub open spec fn has_language(language: Option<Seq<char>>) -> bool {
    language matches Some(name) && name.len() > 0
}

/// The tags that open a code block.
pub open spec fn code_block_tag(language: Option<Seq<char>>) -> Seq<char> {
    match language {
        Some(name) if name.len() > 0 => "<pre><code class=\"language-"@ + escaped(name) + "\">"@,
        _ => "<pre>"@,
    }
}

/// The rendering with `added` written behind it.
pub open spec fn written(r: Rendering, added: Seq<char>) -> Rendering {
    Rendering { out: r.out + added, in_code: r.in_code, lists: r.lists }
}

/// `s` without its last character where that is a line break.
pub open spec fn without_line_break(s: Seq<char>) -> Seq<char> {
    if s.len() > 0 && s.last() == '\n' {
        s.drop_last()
    } else {
        s
    }
}

/// `s` without the line breaks at its end.
pub open spec fn without_line_breaks(s: Seq<char>) -> Seq<char>
    decreases s.len(),
{
    if s.len() > 0 && s.last() == '\n' {
        without_line_breaks(s.drop_last())
    } else {
        s
    }
}

/// The rendering once an element has been opened.
pub open spec fn opened(r: Rendering, element: Element<Seq<char>>) -> Rendering {
    match element {
        Element::Heading => written(r, "<b>"@),
        Element::BlockQuote => written(r, "<blockquote>"@),
        Element::CodeBlock(language) => Rendering {
            out: r.out + code_block_tag(language),
            in_code: has_language(language),
            lists: r.lists,
        },
        Element::List(first) => Rendering {
            out: r.out,
            in_code: r.in_code,
            lists: r.lists.push(
                match first {
                    Some(start) => ListKind::Ordered(start as nat),
                    None => ListKind::Unordered,
                },
            ),
        },
        Element::Item => if r.lists.len() == 0 {
            r
        } else {
            match r.lists.last() {
                ListKind::Unordered => written(r, "• "@),
                ListKind::Ordered(n) => Rendering {
                    out: r.out + text::decimal(n) + ". "@,
                    in_code: r.in_code,
                    lists: r.lists.drop_last().push(ListKind::Ordered(n + 1)),
                },
            }
        },
        Element::Emphasis => written(r, "<i>"@),
        Element::Strong => written(r, "<b>"@),
        Element::Strikethrough => written(r, "<s>"@),
        Element::Link(url) => written(r, "<a href=\""@ + escaped(url) + "\">"@),
        Element::Image(url) => written(r, "<a href=\""@ + escaped(url) + "\">"@),
        Element::Paragraph => r,
        Element::Other => r,
    }
}

/// The rendering once an element has been closed.
pub open spec fn closed(r: Rendering, end: ElementEnd) -> Rendering {
    match end {
        ElementEnd::Paragraph => written(r, "\n\n"@),
        ElementEnd::Heading => written(r, "</b>\n\n"@),
        ElementEnd::BlockQuote => Rendering {
            out: text::trim_end(r.out) + "</blockquote>\n\n"@,
            in_code: r.in_code,
            lists: r.lists,
        },
        ElementEnd::CodeBlock => Rendering {
            out: without_line_break(r.out) + if r.in_code {
                "</code></pre>\n\n"@
            } else {
                "</pre>\n\n"@
            },
            in_code: false,
            lists: r.lists,
        },
        ElementEnd::List => {
            let lists = if r.lists.len() == 0 {
                r.lists
            } else {
                r.lists.drop_last()
            };
            Rendering {
                out: if lists.len() == 0 {
                    r.out.push('\n')
                } else {
                    r.out
                },
                in_code: r.in_code,
                lists,
            }
        },
        ElementEnd::Item => Rendering {
            out: without_line_breaks(r.out).push('\n'),
            in_code: r.in_code,
            lists: r.lists,
        },
        ElementEnd::Emphasis => written(r, "</i>"@),
        ElementEnd::Strong => written(r, "</b>"@),
        ElementEnd::Strikethrough => written(r, "</s>"@),
        ElementEnd::Link => written(r, "</a>"@),
        ElementEnd::Image => written(r, "</a>"@),
        ElementEnd::Other => r,
    }
}

/// The rendering behind one more event.
pub open spec fn rendered_event(r: Rendering, event: MarkdownEvent<Seq<char>>) -> Rendering {
    match event {
        MarkdownEvent::Start(element) => opened(r, element),
        MarkdownEvent::End(end) => closed(r, end),
        MarkdownEvent::Text(s) => written(r, escaped(s)),
        MarkdownEvent::Code(s) => written(r, "<code>"@ + escaped(s) + "</code>"@),
        MarkdownEvent::SoftBreak => written(r, seq!['\n']),
        MarkdownEvent::HardBreak => written(r, seq!['\n']),
        MarkdownEvent::Rule => written(r, "———\n\n"@),
        MarkdownEvent::Html(s) => written(r, escaped(s)),
        MarkdownEvent::InlineHtml(s) => written(r, escaped(s)),
        MarkdownEvent::Other => r,
    }
}

/// The rendering of a sequence of events.
pub open spec fn rendering(events: Seq<MarkdownEvent<Seq<char>>>) -> Rendering
    decreases events.len(),
{
    if events.len() == 0 {
        Rendering { out: seq![], in_code: false, lists: seq![] }
    } else {
        rendered_event(rendering(events.drop_last()), events.last())
    }
}

/// The HTML of a sequence of events: its rendering, without white space at the end.
pub open spec fn html_of(events: Seq<MarkdownEvent<Seq<char>>>) -> Seq<char> {
    text::trim_end(rendering(events).out)
}

/// Whether an event stands for text and its paragraphs, and not for markup.
pub open spec fn is_plain(event: MarkdownEvent<Seq<char>>) -> bool {
    match event {
        MarkdownEvent::Start(element) => element is Paragraph || element is Other,
        MarkdownEvent::End(end) => end is Paragraph || end is Other,
        MarkdownEvent::Code(_) => false,
        _ => true,
    }
}

/// Whether `s` holds neither `<` nor `>`.
pub open spec fn holds_no_tag(s: Seq<char>) -> bool {
    !s.contains('<') && !s.contains('>')
}

proof fn lemma_no_tag_is_added(before: Seq<char>, added: Seq<char>)
    requires
        holds_no_tag(before),
        holds_no_tag(added),
    ensures
        holds_no_tag(before + added),
{
    let whole = before + added;
    assert forall|i: int| 0 <= i < whole.len() implies whole[i] != '<' && whole[i] != '>' by {
        if i < before.len() {
            assert(before.contains(before[i]));
        } else {
            assert(added.contains(added[i - before.len()]));
        }
    }
}

proof fn lemma_trimming_adds_no_tag(s: Seq<char>)
    requires
        holds_no_tag(s),
    ensures
        holds_no_tag(text::trim_end(s)),
    decreases s.len(),
{
    if s.len() > 0 && text::white_space(s.last()) {
        let shorter = s.drop_last();
        assert forall|i: int| 0 <= i < shorter.len() implies shorter[i] != '<' && shorter[i]
            != '>' by {
            assert(s.contains(s[i]));
        }
        lemma_trimming_adds_no_tag(shorter);
    }
}

proof fn lemma_plain_events_bring_no_tag(events: Seq<MarkdownEvent<Seq<char>>>)
    requires
        forall|i: int| 0 <= i < events.len() ==> is_plain(#[trigger] events[i]),
    ensures
        holds_no_tag(rendering(events).out),
    decreases events.len(),
{
    if events.len() > 0 {
        let before = rendering(events.drop_last()).out;
        let event = events.last();
        lemma_plain_events_bring_no_tag(events.drop_last());
        assert(is_plain(event));
        reveal_strlit("\n\n");
        reveal_strlit("———\n\n");
        match event {
            MarkdownEvent::Text(s) => {
                law_escaped_text_holds_no_tag(s);
                lemma_no_tag_is_added(before, escaped(s));
            },
            MarkdownEvent::Html(s) => {
                law_escaped_text_holds_no_tag(s);
                lemma_no_tag_is_added(before, escaped(s));
            },
            MarkdownEvent::InlineHtml(s) => {
                law_escaped_text_holds_no_tag(s);
                lemma_no_tag_is_added(before, escaped(s));
            },
            MarkdownEvent::SoftBreak => lemma_no_tag_is_added(before, seq!['\n']),
            MarkdownEvent::HardBreak => lemma_no_tag_is_added(before, seq!['\n']),
            MarkdownEvent::Rule => lemma_no_tag_is_added(before, "———\n\n"@),
            MarkdownEvent::End(end) => lemma_no_tag_is_added(before, "\n\n"@),
            _ => {},
        }
    }
}

/// Text never turns into markup, HTML in it included: where Markdown holds none, its HTML has no
/// tags.
pub proof fn law_text_brings_no_tag(events: Seq<MarkdownEvent<Seq<char>>>)
    requires
        forall|i: int| 0 <= i < events.len() ==> is_plain(#[trigger] events[i]),
    ensures
        holds_no_tag(html_of(events)),
{
    lemma_plain_events_bring_no_tag(events);
    lemma_trimming_adds_no_tag(rendering(events).out);
}

/// The writer's state.
struct Renderer {
    out: Vec<char>,
    in_code: bool,
    lists: Vec<ListKind<u128>>,
}

spec fn list_view(kind: ListKind<u128>) -> ListKind<nat> {
    match kind {
        ListKind::Ordered(n) => ListKind::Ordered(n as nat),
        ListKind::Unordered => ListKind::Unordered,
    }
}

impl View for Renderer {
    type V = Rendering;

    closed spec fn view(&self) -> Rendering {
        Rendering {
            out: self.out@,
            in_code: self.in_code,
            lists: self.lists@.map_values(|kind: ListKind<u128>| list_view(kind)),
        }
    }
}

impl Renderer {
    /// No list has counted past `bound`.
    spec fn counts_below(&self, bound: int) -> bool {
        forall|i: int|
            0 <= i < self.lists@.len() ==> (#[trigger] self.lists@[i] matches ListKind::Ordered(n)
                ==> n <= bound)
    }

    fn write(&mut self, added: &str)
        ensures
            final(self)@ == written(old(self)@, added@),
            final(self).lists == old(self).lists,
    {
        push_text(&mut self.out, added);
    }

    fn write_link(&mut self, url: &str)
        ensures
            final(self)@ == written(old(self)@, "<a href=\""@ + escaped(url@) + "\">"@),
            final(self).lists == old(self).lists,
    {
        let ghost before = self.out@;
        self.write("<a href=\"");
        let target = escape_html(url);
        self.write(target.as_str());
        self.write("\">");
        proof {
            assert(self.out@ =~= before + ("<a href=\""@ + escaped(url@) + "\">"@));
        }
    }

    fn open(&mut self, element: &Element<String>, bound: u128)
        requires
            old(self).counts_below(bound as int),
            bound < u128::MAX,
            bound >= u64::MAX,
        ensures
            final(self)@ == opened(old(self)@, element_view(*element)),
            final(self).counts_below(bound + 1),
    {
        match element {
            Element::Paragraph => {},
            Element::Heading => self.write("<b>"),
            Element::BlockQuote => self.write("<blockquote>"),
            Element::CodeBlock(language) => {
                self.in_code = false;
                match language {
                    Some(name) if !name.as_str().is_empty() => {
                        self.in_code = true;
                        let ghost before = self.out@;
                        self.write("<pre><code class=\"language-");
                        let class = escape_html(name.as_str());
                        self.write(class.as_str());
                        self.write("\">");
                        proof {
                            assert(self.out@ =~= before + ("<pre><code class=\"language-"@ + escaped(
                                name@,
                            ) + "\">"@));
                        }
                    },
                    _ => self.write("<pre>"),
                }
            },
            Element::List(first) => {
                let kind: ListKind<u128> = match first {
                    Some(start) => ListKind::Ordered(*start as u128),
                    None => ListKind::Unordered,
                };
                let ghost before = self@.lists;
                self.lists.push(kind);
                proof {
                    assert(self@.lists =~= before.push(list_view(kind)));
                }
            },
            Element::Item => {
                let ghost start = self@;
                match self.lists.pop() {
                    None => {},
                    Some(ListKind::Unordered) => {
                        self.lists.push(ListKind::Unordered);
                        proof {
                            assert(self@.lists =~= start.lists);
                        }
                        self.write("• ");
                    },
                    Some(ListKind::Ordered(n)) => {
                        proof {
                            assert(old(self).lists@.last() == ListKind::Ordered(n));
                            assert(start.lists.last() == ListKind::Ordered(n as nat));
                        }
                        self.lists.push(ListKind::Ordered(n + 1));
                        proof {
                            assert(self@.lists =~= start.lists.drop_last().push(
                                ListKind::Ordered((n + 1) as nat),
                            ));
                        }
                        let number = decimal_text(n);
                        self.write(number.as_str());
                        self.write(". ");
                    },
                }
            },
            Element::Emphasis => self.write("<i>"),
            Element::Strong => self.write("<b>"),
            Element::Strikethrough => self.write("<s>"),
            Element::Link(url) => self.write_link(url.as_str()),
            Element::Image(url) => self.write_link(url.as_str()),
            Element::Other => {},
        }
    }

    fn drop_line_break(&mut self)
        ensures
            final(self).out@ == without_line_break(old(self).out@),
            final(self).in_code == old(self).in_code,
            final(self).lists == old(self).lists,
    {
        let n: usize = self.out.len();
        if n > 0 && self.out[n - 1] == '\n' {
            self.out.pop();
        }
    }

    fn drop_line_breaks(&mut self)
        ensures
            final(self).out@ == without_line_breaks(old(self).out@),
            final(self).in_code == old(self).in_code,
            final(self).lists == old(self).lists,
    {
        let mut n: usize = self.out.len();
        while n > 0 && self.out[n - 1] == '\n'
            invariant
                n == self.out@.len(),
                without_line_breaks(self.out@) == without_line_breaks(old(self).out@),
                self.in_code == old(self).in_code,
                self.lists == old(self).lists,
            decreases n,
        {
            self.out.pop();
            n -= 1;
        }
    }

    fn close(&mut self, end: ElementEnd, Ghost(bound): Ghost<int>)
        requires
            old(self).counts_below(bound),
        ensures
            final(self)@ == closed(old(self)@, end),
            final(self).counts_below(bound),
    {
        match end {
            ElementEnd::Paragraph => self.write("\n\n"),
            ElementEnd::Heading => self.write("</b>\n\n"),
            ElementEnd::BlockQuote => {
                trim_end_chars(&mut self.out);
                self.write("</blockquote>\n\n");
            },
            ElementEnd::CodeBlock => {
                self.drop_line_break();
                if self.in_code {
                    self.write("</code></pre>\n\n");
                } else {
                    self.write("</pre>\n\n");
                }
                self.in_code = false;
            },
            ElementEnd::List => {
                let ghost start = self@;
                self.lists.pop();
                proof {
                    if start.lists.len() > 0 {
                        assert(self@.lists =~= start.lists.drop_last());
                    }
                }
                if self.lists.len() == 0 {
                    self.out.push('\n');
                }
            },
            ElementEnd::Item => {
                self.drop_line_breaks();
                self.out.push('\n');
            },
            ElementEnd::Emphasis => self.write("</i>"),
            ElementEnd::Strong => self.write("</b>"),
            ElementEnd::Strikethrough => self.write("</s>"),
            ElementEnd::Link => self.write("</a>"),
            ElementEnd::Image => self.write("</a>"),
            ElementEnd::Other => {},
        }
    }

    fn add(&mut self, event: &MarkdownEvent<String>, bound: u128)
        requires
            old(self).counts_below(bound as int),
            bound < u128::MAX,
            bound >= u64::MAX,
        ensures
            final(self)@ == rendered_event(old(self)@, event_view(*event)),
            final(self).counts_below(bound + 1),
    {
        match event {
            MarkdownEvent::Start(element) => self.open(element, bound),
            MarkdownEvent::End(end) => self.close(*end, Ghost(bound as int)),
            MarkdownEvent::Text(s) => {
                let t = escape_html(s.as_str());
                self.write(t.as_str());
            },
            MarkdownEvent::Code(s) => {
                let ghost before = self.out@;
                self.write("<code>");
                let t = escape_html(s.as_str());
                self.write(t.as_str());
                self.write("</code>");
                proof {
                    assert(self.out@ =~= before + ("<code>"@ + escaped(s@) + "</code>"@));
                }
            },
            MarkdownEvent::SoftBreak => {
                self.out.push('\n');
                proof {
                    assert(self.out@ =~= old(self).out@ + seq!['\n']);
                }
            },
            MarkdownEvent::HardBreak => {
                self.out.push('\n');
                proof {
                    assert(self.out@ =~= old(self).out@ + seq!['\n']);
                }
            },
            MarkdownEvent::Rule => self.write("———\n\n"),
            MarkdownEvent::Html(s) => {
                let t = escape_html(s.as_str());
                self.write(t.as_str());
            },
            MarkdownEvent::InlineHtml(s) => {
                let t = escape_html(s.as_str());
                self.write(t.as_str());
            },
            MarkdownEvent::Other => {},
        }
    }
}

/// Writes Markdown events as Telegram's HTML.
pub fn render_events(events: &Vec<MarkdownEvent<String>>) -> (r: String)
    ensures
        r@ == html_of(event_views(events@)),
{
    let mut renderer = Renderer { out: Vec::new(), in_code: false, lists: Vec::new() };
    let mut i: usize = 0;
    proof {
        assert(renderer@.lists =~= Seq::empty());
    }
    while i < events.len()
        invariant
            i <= events@.len(),
            renderer@ == rendering(event_views(events@).take(i as int)),
            renderer.counts_below(u64::MAX + i),
        decreases events@.len() - i,
    {
        proof {
            let next = event_views(events@).take(i + 1);
            assert(next.drop_last() =~= event_views(events@).take(i as int));
            assert(next.last() == event_view(events@[i as int]));
        }
        renderer.add(&events[i], u64::MAX as u128 + i as u128);
        i += 1;
    }
    proof {
        assert(event_views(events@).take(i as int) =~= event_views(events@));
    }
    let mut out = renderer.out;
    trim_end_chars(&mut out);
    let n: usize = out.len();
    proof {
        assert(out@.subrange(0, n as int) =~= out@);
    }
    text_of(&out, 0, n)
}

/// Converts Markdown to the HTML that Telegram accepts.
pub fn markdown_to_telegram_html(md: &str) -> (r: String)
    ensures
        r@ == html_of(markdown_events(md@, true)),
{
    let events = parse_markdown(md, true);
    render_events(&events)
}

// ---------------------------------------------------------------------------------------------
// Laws of the rendering

/// Texts are escaped character by character: the three characters that HTML gives a meaning are
/// spelled out, and every other one stays.
pub proof fn law_escaping_is_by_character(a: Seq<char>, b: Seq<char>, c: char)
    ensures
        escaped(a + b) == escaped(a) + escaped(b),
        escaped(seq![]) == Seq::<char>::empty(),
        escaped(seq!['&']) == "&amp;"@,
        escaped(seq!['<']) == "&lt;"@,
        escaped(seq!['>']) == "&gt;"@,
        c != '&' && c != '<' && c != '>' ==> escaped(seq![c]) == seq![c],
    decreases b.len(),
{
    reveal_with_fuel(escaped, 2);
    if b.len() == 0 {
        assert(a + b =~= a);
        assert(escaped(a) + escaped(b) =~= escaped(a));
    } else {
        law_escaping_is_by_character(a, b.drop_last(), c);
        assert((a + b).drop_last() =~= a + b.drop_last());
        assert(escaped(a) + escaped(b.drop_last()) + escaped_char(b.last()) =~= escaped(a) + (
        escaped(b.drop_last()) + escaped_char(b.last())));
    }
    assert(seq!['&'].drop_last() =~= Seq::<char>::empty());
    assert(seq!['<'].drop_last() =~= Seq::<char>::empty());
    assert(seq!['>'].drop_last() =~= Seq::<char>::empty());
    assert(seq![c].drop_last() =~= Seq::<char>::empty());
    assert(Seq::<char>::empty() + "&amp;"@ =~= "&amp;"@);
    assert(Seq::<char>::empty() + "&lt;"@ =~= "&lt;"@);
    assert(Seq::<char>::empty() + "&gt;"@ =~= "&gt;"@);
    assert(Seq::<char>::empty() + seq![c] =~= seq![c]);
}

/// What an event adds to a rendering, where it only adds.
proof fn lemma_push(events: Seq<MarkdownEvent<Seq<char>>>, event: MarkdownEvent<Seq<char>>)
    ensures
        rendering(events.push(event)) == rendered_event(rendering(events), event),
{
    assert(events.push(event).drop_last() =~= events);
}

proof fn lemma_block_ends()
    ensures
        "\n\n"@ == seq!['\n', '\n'],
        text::has_suffix("</b>\n\n"@, "\n\n"@),
        text::has_suffix("</blockquote>\n\n"@, "\n\n"@),
        text::has_suffix("</code></pre>\n\n"@, "\n\n"@),
        text::has_suffix("</pre>\n\n"@, "\n\n"@),
        text::has_suffix("———\n\n"@, "\n\n"@),
        "</b>\n\n"@ == "</b>"@ + "\n\n"@,
        "</blockquote>\n\n"@ == "</blockquote>"@ + "\n\n"@,
        "</code></pre>\n\n"@ == "</code></pre>"@ + "\n\n"@,
        "</pre>\n\n"@ == "</pre>"@ + "\n\n"@,
        "———\n\n"@ == "———"@ + "\n\n"@,
{
    reveal_strlit("\n\n");
    reveal_strlit("</b>\n\n");
    reveal_strlit("</blockquote>\n\n");
    reveal_strlit("</code></pre>\n\n");
    reveal_strlit("</pre>\n\n");
    reveal_strlit("———\n\n");
    reveal_strlit("</b>");
    reveal_strlit("</blockquote>");
    reveal_strlit("</code></pre>");
    reveal_strlit("</pre>");
    reveal_strlit("———");
    assert("\n\n"@ =~= seq!['\n', '\n']);
    assert("</b>\n\n"@ =~= "</b>"@ + "\n\n"@);
    assert("</blockquote>\n\n"@ =~= "</blockquote>"@ + "\n\n"@);
    assert("</code></pre>\n\n"@ =~= "</code></pre>"@ + "\n\n"@);
    assert("</pre>\n\n"@ =~= "</pre>"@ + "\n\n"@);
    assert("———\n\n"@ =~= "———"@ + "\n\n"@);
    text::law_prefix_and_suffix("</b>"@, "\n\n"@);
    text::law_prefix_and_suffix("</blockquote>"@, "\n\n"@);
    text::law_prefix_and_suffix("</code></pre>"@, "\n\n"@);
    text::law_prefix_and_suffix("</pre>"@, "\n\n"@);
    text::law_prefix_and_suffix("———"@, "\n\n"@);
}


/// Blocks stay apart: behind the end of each block the rendering ends with an empty line, whatever
/// came before, so that an empty line stands between the block and the text that follows it. The
/// same holds of a rule.
pub proof fn law_blocks_stay_apart(
    events: Seq<MarkdownEvent<Seq<char>>>,
    block_end: MarkdownEvent<Seq<char>>,
    s: Seq<char>,
)
    requires
        block_end is Rule || (block_end matches MarkdownEvent::End(end) && (end is Paragraph
            || end is Heading || end is BlockQuote || end is CodeBlock)),
    ensures
        ({
            let block = rendering(events.push(block_end)).out;
            &&& block.len() >= 2
            &&& block[block.len() - 1] == '\n'
            &&& block[block.len() - 2] == '\n'
            &&& rendering(events.push(block_end).push(MarkdownEvent::Text(s))).out == block
                + escaped(s)
        }),
{
    lemma_block_ends();
    lemma_push(events, block_end);
    lemma_push(events.push(block_end), MarkdownEvent::Text(s));
    let r = rendering(events);
    let block = rendering(events.push(block_end)).out;
    let head = match block_end {
        MarkdownEvent::End(ElementEnd::Paragraph) => r.out,
        MarkdownEvent::End(ElementEnd::Heading) => r.out + "</b>"@,
        MarkdownEvent::End(ElementEnd::BlockQuote) => text::trim_end(r.out) + "</blockquote>"@,
        MarkdownEvent::End(ElementEnd::CodeBlock) => without_line_break(r.out) + if r.in_code {
            "</code></pre>"@
        } else {
            "</pre>"@
        },
        _ => r.out + "———"@,
    };
    assert(block =~= head + "\n\n"@);
}

/// Text is written where it stands, escaped, and HTML in it as text; a line break is a line break;
/// what there is no tag for is passed over.
pub proof fn law_text_is_written_where_it_stands(
    events: Seq<MarkdownEvent<Seq<char>>>,
    s: Seq<char>,
)
    ensures
        ({
            let out = rendering(events).out;
            &&& rendering(events.push(MarkdownEvent::Text(s))).out == out + escaped(s)
            &&& rendering(events.push(MarkdownEvent::Html(s))).out == out + escaped(s)
            &&& rendering(events.push(MarkdownEvent::InlineHtml(s))).out == out + escaped(s)
            &&& rendering(events.push(MarkdownEvent::Code(s))).out == out + ("<code>"@ + escaped(s)
                + "</code>"@)
            &&& rendering(events.push(MarkdownEvent::SoftBreak)).out == out.push('\n')
            &&& rendering(events.push(MarkdownEvent::HardBreak)).out == out.push('\n')
            &&& rendering(events.push(MarkdownEvent::Rule)).out == out + "———\n\n"@
            &&& rendering(events.push(MarkdownEvent::Other)).out == out
            &&& rendering(seq![]).out.len() == 0
            &&& !rendering(seq![]).in_code
            &&& rendering(seq![]).lists.len() == 0
        }),
{
    let out = rendering(events).out;
    lemma_push(events, MarkdownEvent::Text(s));
    lemma_push(events, MarkdownEvent::Html(s));
    lemma_push(events, MarkdownEvent::InlineHtml(s));
    lemma_push(events, MarkdownEvent::Code(s));
    lemma_push(events, MarkdownEvent::SoftBreak);
    lemma_push(events, MarkdownEvent::HardBreak);
    lemma_push(events, MarkdownEvent::Rule);
    lemma_push(events, MarkdownEvent::Other);
    assert(out + seq!['\n'] =~= out.push('\n'));
}

/// The rendering of a text inside an element.
pub open spec fn around(
    events: Seq<MarkdownEvent<Seq<char>>>,
    element: Element<Seq<char>>,
    s: Seq<char>,
    end: ElementEnd,
) -> Seq<char> {
    rendering(
        events.push(MarkdownEvent::Start(element)).push(MarkdownEvent::Text(s)).push(
            MarkdownEvent::End(end),
        ),
    ).out
}

proof fn lemma_around(
    events: Seq<MarkdownEvent<Seq<char>>>,
    element: Element<Seq<char>>,
    s: Seq<char>,
    end: ElementEnd,
)
    ensures
        around(events, element, s, end) == closed(
            written(opened(rendering(events), element), escaped(s)),
            end,
        ).out,
{
    let first = events.push(MarkdownEvent::Start(element));
    lemma_push(events, MarkdownEvent::Start(element));
    lemma_push(first, MarkdownEvent::Text(s));
    lemma_push(first.push(MarkdownEvent::Text(s)), MarkdownEvent::End(end));
}

/// Text that is set off is put between the tags that say how: strong text is bold, stressed text
/// italic, struck text struck through, and the text of a link or an image leads where it points.
pub proof fn law_inline_elements_are_tagged(
    events: Seq<MarkdownEvent<Seq<char>>>,
    s: Seq<char>,
    url: Seq<char>,
)
    ensures
        ({
            let out = rendering(events).out;
            let link = out + "<a href=\""@ + escaped(url) + "\">"@ + escaped(s) + "</a>"@;
            &&& around(events, Element::Strong, s, ElementEnd::Strong) == out + "<b>"@ + escaped(s)
                + "</b>"@
            &&& around(events, Element::Emphasis, s, ElementEnd::Emphasis) == out + "<i>"@
                + escaped(s) + "</i>"@
            &&& around(events, Element::Strikethrough, s, ElementEnd::Strikethrough) == out
                + "<s>"@ + escaped(s) + "</s>"@
            &&& around(events, Element::Link(url), s, ElementEnd::Link) == link
            &&& around(events, Element::Image(url), s, ElementEnd::Image) == link
            &&& around(events, Element::Other, s, ElementEnd::Other) == out + escaped(s)
        }),
{
    let out = rendering(events).out;
    lemma_around(events, Element::Strong, s, ElementEnd::Strong);
    lemma_around(events, Element::Emphasis, s, ElementEnd::Emphasis);
    lemma_around(events, Element::Strikethrough, s, ElementEnd::Strikethrough);
    lemma_around(events, Element::Link(url), s, ElementEnd::Link);
    lemma_around(events, Element::Image(url), s, ElementEnd::Image);
    lemma_around(events, Element::Other, s, ElementEnd::Other);
    assert(out + ("<a href=\""@ + escaped(url) + "\">"@) =~= out + "<a href=\""@ + escaped(url)
        + "\">"@);
}

proof fn lemma_trim_end_stops(a: Seq<char>, b: Seq<char>)
    requires
        a.len() > 0,
        !text::white_space(a.last()),
    ensures
        text::trim_end(a + b) == a + text::trim_end(b),
    decreases b.len(),
{
    if b.len() == 0 {
        assert(a + b =~= a);
        assert(a + text::trim_end(b) =~= a);
    } else if text::white_space(b.last()) {
        assert((a + b).drop_last() =~= a + b.drop_last());
        lemma_trim_end_stops(a, b.drop_last());
    }
}

/// A block is put between its tags, with an empty line behind: a paragraph needs none, a heading is
/// bold, a quote loses the white space at its end, and a code block, which ends in a line break,
/// loses that and names its language where it has one.
pub proof fn law_blocks_are_tagged(
    events: Seq<MarkdownEvent<Seq<char>>>,
    s: Seq<char>,
    language: Option<Seq<char>>,
)
    ensures
        ({
            let out = rendering(events).out;
            &&& around(events, Element::Paragraph, s, ElementEnd::Paragraph) == out + escaped(s)
                + "\n\n"@
            &&& around(events, Element::Heading, s, ElementEnd::Heading) == out + "<b>"@ + escaped(
                s,
            ) + "</b>"@ + "\n\n"@
            &&& around(events, Element::BlockQuote, s, ElementEnd::BlockQuote) == out
                + "<blockquote>"@ + text::trim_end(escaped(s)) + "</blockquote>"@ + "\n\n"@
            &&& around(
                events,
                Element::CodeBlock(language),
                s.push('\n'),
                ElementEnd::CodeBlock,
            ) == match language {
                Some(name) => if name.len() > 0 {
                    out + "<pre><code class=\"language-"@ + escaped(name) + "\">"@ + escaped(s)
                        + "</code></pre>"@ + "\n\n"@
                } else {
                    out + "<pre>"@ + escaped(s) + "</pre>"@ + "\n\n"@
                },
                None => out + "<pre>"@ + escaped(s) + "</pre>"@ + "\n\n"@,
            }
        }),
{
    lemma_block_ends();
    let out = rendering(events).out;
    lemma_around(events, Element::Paragraph, s, ElementEnd::Paragraph);
    lemma_around(events, Element::Heading, s, ElementEnd::Heading);
    assert(out + "<b>"@ + escaped(s) + "</b>\n\n"@ =~= out + "<b>"@ + escaped(s) + "</b>"@
        + "\n\n"@);
    lemma_around(events, Element::BlockQuote, s, ElementEnd::BlockQuote);
    reveal_strlit("<blockquote>");
    let quote = out + "<blockquote>"@;
    assert(quote.last() == '>');
    lemma_trim_end_stops(quote, escaped(s));
    assert(quote + text::trim_end(escaped(s)) + "</blockquote>\n\n"@ =~= quote + text::trim_end(
        escaped(s),
    ) + "</blockquote>"@ + "\n\n"@);
    lemma_around(events, Element::CodeBlock(language), s.push('\n'), ElementEnd::CodeBlock);
    assert(s.push('\n').drop_last() =~= s);
    assert(escaped(s.push('\n')) == escaped(s) + seq!['\n']);
    let code = out + code_block_tag(language);
    let whole = code + escaped(s.push('\n'));
    assert(whole.last() == '\n');
    assert(whole.drop_last() =~= code + escaped(s));
    if has_language(language) {
        let name = language->0;
        assert(code =~= out + "<pre><code class=\"language-"@ + escaped(name) + "\">"@);
        assert(code + escaped(s) + "</code></pre>\n\n"@ =~= code + escaped(s) + "</code></pre>"@
            + "\n\n"@);
    } else {
        assert(code + escaped(s) + "</pre>\n\n"@ =~= code + escaped(s) + "</pre>"@ + "\n\n"@);
    }
}

/// A list of two items, as it comes from the reader.
pub open spec fn list_of_two(
    events: Seq<MarkdownEvent<Seq<char>>>,
    first: Option<u64>,
    a: Seq<char>,
    b: Seq<char>,
) -> Seq<MarkdownEvent<Seq<char>>> {
    events + seq![
        MarkdownEvent::Start(Element::List(first)),
        MarkdownEvent::Start(Element::Item),
        MarkdownEvent::Text(a),
        MarkdownEvent::End(ElementEnd::Item),
        MarkdownEvent::Start(Element::Item),
        MarkdownEvent::Text(b),
        MarkdownEvent::End(ElementEnd::Item),
        MarkdownEvent::End(ElementEnd::List),
    ]
}

proof fn lemma_escaped_end(s: Seq<char>)
    requires
        s.len() > 0,
        s.last() != '\n',
    ensures
        escaped(s).len() > 0,
        escaped(s).last() != '\n',
{
    reveal_strlit("&amp;");
    reveal_strlit("&lt;");
    reveal_strlit("&gt;");
    assert(escaped(s).last() == escaped_char(s.last()).last());
}

/// Each item of a list stands on a line of its own, behind a bullet or, in a list that counts,
/// behind its number, which is one more than that of the item before. An empty line ends a list,
/// unless it is inside another one.
pub proof fn law_items_are_listed(
    events: Seq<MarkdownEvent<Seq<char>>>,
    first: Option<u64>,
    a: Seq<char>,
    b: Seq<char>,
)
    requires
        a.len() > 0,
        a.last() != '\n',
        b.len() > 0,
        b.last() != '\n',
    ensures
        ({
            let r = rendering(events);
            let (x, y) = match first {
                Some(n) => (text::decimal(n as nat) + ". "@, text::decimal((n + 1) as nat) + ". "@),
                None => ("• "@, "• "@),
            };
            let told = r.out + (x + escaped(a)).push('\n') + (y + escaped(b)).push('\n');
            &&& rendering(list_of_two(events, first, a, b)).out == if r.lists.len() == 0 {
                told.push('\n')
            } else {
                told
            }
            &&& rendering(list_of_two(events, first, a, b)).lists == r.lists
        }),
{
    let r = rendering(events);
    let all = list_of_two(events, first, a, b);
    let n = events.len() as int;
    lemma_escaped_end(a);
    lemma_escaped_end(b);
    assert(all.take(n) =~= events);
    assert(all.take(n + 1) =~= events.push(MarkdownEvent::Start(Element::List(first))));
    assert(all.take(n + 2) =~= all.take(n + 1).push(MarkdownEvent::Start(Element::Item)));
    assert(all.take(n + 3) =~= all.take(n + 2).push(MarkdownEvent::Text(a)));
    assert(all.take(n + 4) =~= all.take(n + 3).push(MarkdownEvent::End(ElementEnd::Item)));
    assert(all.take(n + 5) =~= all.take(n + 4).push(MarkdownEvent::Start(Element::Item)));
    assert(all.take(n + 6) =~= all.take(n + 5).push(MarkdownEvent::Text(b)));
    assert(all.take(n + 7) =~= all.take(n + 6).push(MarkdownEvent::End(ElementEnd::Item)));
    assert(all =~= all.take(n + 7).push(MarkdownEvent::End(ElementEnd::List)));
    lemma_push(events, MarkdownEvent::Start(Element::List(first)));
    lemma_push(all.take(n + 1), MarkdownEvent::Start(Element::Item));
    lemma_push(all.take(n + 2), MarkdownEvent::Text(a));
    lemma_push(all.take(n + 3), MarkdownEvent::End(ElementEnd::Item));
    lemma_push(all.take(n + 4), MarkdownEvent::Start(Element::Item));
    lemma_push(all.take(n + 5), MarkdownEvent::Text(b));
    lemma_push(all.take(n + 6), MarkdownEvent::End(ElementEnd::Item));
    lemma_push(all.take(n + 7), MarkdownEvent::End(ElementEnd::List));
    let (x, y) = match first {
        Some(m) => (text::decimal(m as nat) + ". "@, text::decimal((m + 1) as nat) + ". "@),
        None => ("• "@, "• "@),
    };
    let r2 = rendering(all.take(n + 2));
    assert(r2.out =~= r.out + x);
    let r4 = rendering(all.take(n + 4));
    assert(r4.out =~= r.out + (x + escaped(a)).push('\n'));
    let r5 = rendering(all.take(n + 5));
    assert(r5.out =~= r4.out + y);
    let r7 = rendering(all.take(n + 7));
    assert(r7.out =~= r4.out + (y + escaped(b)).push('\n'));
    assert(r7.lists.drop_last() =~= r.lists);
}

/// The HTML is the rendering without the white space at its end.
pub proof fn law_html_is_trimmed(events: Seq<MarkdownEvent<Seq<char>>>)
    ensures
        html_of(events).is_prefix_of(rendering(events).out),
        html_of(events).len() > 0 ==> !text::white_space(html_of(events).last()),
        forall|i: int|
            html_of(events).len() <= i < rendering(events).out.len() ==> text::white_space(
                #[trigger] rendering(events).out[i],
            ),
{
    lemma_trim_end_shape(rendering(events).out);
}

proof fn lemma_trim_end_shape(s: Seq<char>)
    ensures
        text::trim_end(s).is_prefix_of(s),
        text::trim_end(s).len() > 0 ==> !text::white_space(text::trim_end(s).last()),
        forall|i: int|
            text::trim_end(s).len() <= i < s.len() ==> text::white_space(#[trigger] s[i]),
    decreases s.len(),
{
    if s.len() > 0 && text::white_space(s.last()) {
        let t = s.drop_last();
        lemma_trim_end_shape(t);
        assert forall|i: int| text::trim_end(s).len() <= i < s.len() implies text::white_space(
            #[trigger] s[i],
        ) by {
            if i < t.len() {
                assert(t[i] == s[i]);
            }
        }
    }
}

/// The end of an item leaves just one line break behind it, and takes nothing away but the line
/// breaks that stood there.
pub proof fn law_items_end_in_one_line_break(events: Seq<MarkdownEvent<Seq<char>>>)
    ensures
        ({
            let before = rendering(events).out;
            let after = rendering(events.push(MarkdownEvent::End(ElementEnd::Item))).out;
            let kept = after.drop_last();
            &&& after.len() > 0 && after.last() == '\n'
            &&& kept.len() > 0 ==> kept.last() != '\n'
            &&& kept.is_prefix_of(before)
            &&& forall|i: int| kept.len() <= i < before.len() ==> #[trigger] before[i] == '\n'
        }),
{
    lemma_push(events, MarkdownEvent::End(ElementEnd::Item));
    let before = rendering(events).out;
    let after = rendering(events.push(MarkdownEvent::End(ElementEnd::Item))).out;
    lemma_line_breaks_shape(before);
    assert(after.drop_last() =~= without_line_breaks(before));
}

proof fn lemma_line_breaks_shape(s: Seq<char>)
    ensures
        without_line_breaks(s).is_prefix_of(s),
        without_line_breaks(s).len() > 0 ==> without_line_breaks(s).last() != '\n',
        forall|i: int| without_line_breaks(s).len() <= i < s.len() ==> #[trigger] s[i] == '\n',
    decreases s.len(),
{
    if s.len() > 0 && s.last() == '\n' {
        let t = s.drop_last();
        lemma_line_breaks_shape(t);
        assert forall|i: int| without_line_breaks(s).len() <= i < s.len() implies #[trigger] s[i]
            == '\n' by {
            if i < t.len() {
                assert(t[i] == s[i]);
            }
        }
    }
}

/// Code that does not end in a line break is kept whole.
pub proof fn law_code_is_kept_whole(events: Seq<MarkdownEvent<Seq<char>>>, s: Seq<char>)
    requires
        s.len() > 0,
        s.last() != '\n',
    ensures
        around(events, Element::CodeBlock(None), s, ElementEnd::CodeBlock) == rendering(events).out
            + "<pre>"@ + escaped(s) + "</pre>"@ + "\n\n"@,
{
    lemma_block_ends();
    lemma_escaped_end(s);
    lemma_around(events, Element::CodeBlock(None), s, ElementEnd::CodeBlock);
    let whole = rendering(events).out + "<pre>"@ + escaped(s);
    assert(whole.last() == escaped(s).last());
    assert(whole + "</pre>\n\n"@ =~= whole + "</pre>"@ + "\n\n"@);
}

// ---------------------------------------------------------------------------------------------
// Laws of the views

/// What stands for an element keeps its kind and what it carries.
pub proof fn law_views_of_elements_keep_every_part(s: String, first: Option<u64>)
    ensures
        element_view(Element::Paragraph) == Element::<Seq<char>>::Paragraph,
        element_view(Element::Heading) == Element::<Seq<char>>::Heading,
        element_view(Element::BlockQuote) == Element::<Seq<char>>::BlockQuote,
        element_view(Element::CodeBlock(Some(s))) == Element::CodeBlock(Some(s@)),
        element_view(Element::CodeBlock(None)) == Element::<Seq<char>>::CodeBlock(None),
        element_view(Element::List(first)) == Element::<Seq<char>>::List(first),
        element_view(Element::Item) == Element::<Seq<char>>::Item,
        element_view(Element::Emphasis) == Element::<Seq<char>>::Emphasis,
        element_view(Element::Strong) == Element::<Seq<char>>::Strong,
        element_view(Element::Strikethrough) == Element::<Seq<char>>::Strikethrough,
        element_view(Element::Link(s)) == Element::Link(s@),
        element_view(Element::Image(s)) == Element::Image(s@),
        element_view(Element::Other) == Element::<Seq<char>>::Other,
{
}

/// What stands for an event keeps its kind and what it carries, and what stands for a list of events
/// keeps each in its place.
pub proof fn law_views_of_events_keep_every_part(
    element: Element<String>,
    end: ElementEnd,
    s: String,
    events: Seq<MarkdownEvent<String>>,
)
    ensures
        event_view(MarkdownEvent::Start(element)) == MarkdownEvent::Start(element_view(element)),
        event_view(MarkdownEvent::End(end)) == MarkdownEvent::<Seq<char>>::End(end),
        event_view(MarkdownEvent::Text(s)) == MarkdownEvent::Text(s@),
        event_view(MarkdownEvent::Code(s)) == MarkdownEvent::Code(s@),
        event_view(MarkdownEvent::Html(s)) == MarkdownEvent::Html(s@),
        event_view(MarkdownEvent::InlineHtml(s)) == MarkdownEvent::InlineHtml(s@),
        event_view(MarkdownEvent::SoftBreak) == MarkdownEvent::<Seq<char>>::SoftBreak,
        event_view(MarkdownEvent::HardBreak) == MarkdownEvent::<Seq<char>>::HardBreak,
        event_view(MarkdownEvent::Rule) == MarkdownEvent::<Seq<char>>::Rule,
        event_view(MarkdownEvent::Other) == MarkdownEvent::<Seq<char>>::Other,
        event_views(events).len() == events.len(),
        forall|i: int|
            0 <= i < events.len() ==> #[trigger] event_views(events)[i] == event_view(events[i]),
{
}

/// What stands for an event of the reader is what the reader gave, with the reader's element.
pub proof fn law_reader_events_are_kept(
    tag: Tag<'_>,
    end: TagEnd,
    s: String,
    events: Seq<ReaderEvent<'_>>,
)
    ensures
        reader_event_view(ReaderEvent::Start(tag)) == MarkdownEvent::Start(element_of(tag)),
        reader_event_view(ReaderEvent::End(end)) == MarkdownEvent::<Seq<char>>::End(
            element_end_of(end),
        ),
        reader_event_view(ReaderEvent::Text(s)) == MarkdownEvent::Text(s@),
        reader_event_view(ReaderEvent::Code(s)) == MarkdownEvent::Code(s@),
        reader_event_view(ReaderEvent::Html(s)) == MarkdownEvent::Html(s@),
        reader_event_view(ReaderEvent::InlineHtml(s)) == MarkdownEvent::InlineHtml(s@),
        reader_event_view(ReaderEvent::SoftBreak) == MarkdownEvent::<Seq<char>>::SoftBreak,
        reader_event_view(ReaderEvent::HardBreak) == MarkdownEvent::<Seq<char>>::HardBreak,
        reader_event_view(ReaderEvent::Rule) == MarkdownEvent::<Seq<char>>::Rule,
        reader_event_view(ReaderEvent::Other) == MarkdownEvent::<Seq<char>>::Other,
        reader_event_views(events).len() == events.len(),
        forall|i: int|
            0 <= i < events.len() ==> #[trigger] reader_event_views(events)[i]
                == reader_event_view(events[i]),
{
}

} // verus!
