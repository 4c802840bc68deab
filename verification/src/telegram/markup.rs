//! The tags in the HTML that Markdown is rendered to: which there are, and that they match.

use super::fmt;
use super::fmt::{Element, ElementEnd, MarkdownEvent, Rendering};
use crate::text;
use vstd::prelude::*;

verus! {

/// The tags that a rendering may hold.
pub enum TagName {
    Bold,
    Italic,
    Struck,
    Quote,
    Pre,
    Code,
    Link,
}

/// A tag that opens: a bare one, that of code in a language, or that of a link to an address.
pub enum Opening {
    Bare(TagName),
    CodeIn(Seq<char>),
    LinkTo(Seq<char>),
}

/// A piece of HTML: text between tags, or a tag.
pub enum Piece {
    Text(Seq<char>),
    Open(Opening),
    Close(TagName),
}

/// What an opening tag opens.
pub open spec fn opened_name(opening: Opening) -> TagName {
    match opening {
        Opening::Bare(name) => name,
        Opening::CodeIn(_) => TagName::Code,
        Opening::LinkTo(_) => TagName::Link,
    }
}

/// How an opening tag is written.
pub open spec fn opening_tag(opening: Opening) -> Seq<char> {
    match opening {
        Opening::Bare(TagName::Bold) => "<b>"@,
        Opening::Bare(TagName::Italic) => "<i>"@,
        Opening::Bare(TagName::Struck) => "<s>"@,
        Opening::Bare(TagName::Quote) => "<blockquote>"@,
        Opening::Bare(TagName::Pre) => "<pre>"@,
        Opening::Bare(TagName::Code) => "<code>"@,
        Opening::Bare(TagName::Link) => "<a>"@,
        Opening::CodeIn(language) => "<code class=\"language-"@ + language + "\">"@,
        Opening::LinkTo(url) => "<a href=\""@ + url + "\">"@,
    }
}

/// How a closing tag is written.
pub open spec fn closing_tag(name: TagName) -> Seq<char> {
    match name {
        TagName::Bold => "</b>"@,
        TagName::Italic => "</i>"@,
        TagName::Struck => "</s>"@,
        TagName::Quote => "</blockquote>"@,
        TagName::Pre => "</pre>"@,
        TagName::Code => "</code>"@,
        TagName::Link => "</a>"@,
    }
}

/// How a piece is written.
pub open spec fn spelling(piece: Piece) -> Seq<char> {
    match piece {
        Piece::Text(s) => s,
        Piece::Open(opening) => opening_tag(opening),
        Piece::Close(name) => closing_tag(name),
    }
}

/// Whether neither text nor what stands inside a tag holds `<` or `>`, and a link has an address.
pub open spec fn is_sound(piece: Piece) -> bool {
    match piece {
        Piece::Text(s) => fmt::holds_no_tag(s),
        Piece::Open(Opening::Bare(name)) => !(name is Link),
        Piece::Open(Opening::CodeIn(language)) => fmt::holds_no_tag(language),
        Piece::Open(Opening::LinkTo(url)) => fmt::holds_no_tag(url),
        Piece::Close(_) => true,
    }
}

/// The pieces, written one behind the other.
pub open spec fn spell(pieces: Seq<Piece>) -> Seq<char>
    decreases pieces.len(),
{
    if pieces.len() == 0 {
        seq![]
    } else {
        spell(pieces.drop_last()) + spelling(pieces.last())
    }
}

/// The tags that are open once one more is opened; nothing where a tag did not match before.
pub open spec fn with_open(tags: Option<Seq<TagName>>, name: TagName) -> Option<Seq<TagName>> {
    match tags {
        Some(open) => Some(open.push(name)),
        None => None,
    }
}

/// The tags that are open once one is closed; nothing where it is not the last that was opened.
pub open spec fn with_closed(tags: Option<Seq<TagName>>, name: TagName) -> Option<Seq<TagName>> {
    match tags {
        Some(open) => if open.len() > 0 && open.last() == name {
            Some(open.drop_last())
        } else {
            None
        },
        None => None,
    }
}

/// The tags that are open behind one more piece.
pub open spec fn tags_behind(tags: Option<Seq<TagName>>, piece: Piece) -> Option<Seq<TagName>> {
    match piece {
        Piece::Text(_) => tags,
        Piece::Open(opening) => with_open(tags, opened_name(opening)),
        Piece::Close(name) => with_closed(tags, name),
    }
}

/// The tags that are open behind the pieces, the last opened at the end; nothing where a tag is
/// closed that is not the last that was opened.
pub open spec fn open_tags(pieces: Seq<Piece>) -> Option<Seq<TagName>>
    decreases pieces.len(),
{
    if pieces.len() == 0 {
        Some(seq![])
    } else {
        tags_behind(open_tags(pieces.drop_last()), pieces.last())
    }
}

/// Whether all the pieces are sound.
pub open spec fn all_sound(pieces: Seq<Piece>) -> bool {
    forall|i: int| 0 <= i < pieces.len() ==> is_sound(#[trigger] pieces[i])
}

/// Whether `pieces` make up `html`, and leave `tags` open.
pub open spec fn make_up(pieces: Seq<Piece>, html: Seq<char>, tags: Option<Seq<TagName>>) -> bool {
    all_sound(pieces) && spell(pieces) == html && open_tags(pieces) == tags
}

/// Whether `html` is text and tags, and leaves `tags` open.
pub open spec fn leaves_open(html: Seq<char>, tags: Option<Seq<TagName>>) -> bool {
    exists|pieces: Seq<Piece>| make_up(pieces, html, tags)
}

/// Whether `html` is text and tags, each tag that is opened is closed, and what is closed is
/// always the last that was opened.
pub open spec fn tags_match(html: Seq<char>) -> bool {
    leaves_open(html, Some(seq![]))
}

/// Whether `tag` is one of the tags that a rendering may hold.
pub open spec fn is_tag(tag: Seq<char>) -> bool {
    exists|piece: Piece| !(piece is Text) && is_sound(piece) && #[trigger] spelling(piece) == tag
}

/// Whether one of those tags starts at a position.
pub open spec fn tag_starts_at(html: Seq<char>, i: int) -> bool {
    exists|j: int| i < j <= html.len() && is_tag(#[trigger] html.subrange(i, j))
}

// ---------------------------------------------------------------------------------------------
// Pieces

proof fn lemma_add_piece(
    html: Seq<char>,
    tags: Option<Seq<TagName>>,
    piece: Piece,
)
    requires
        leaves_open(html, tags),
        is_sound(piece),
    ensures
        leaves_open(html + spelling(piece), tags_behind(tags, piece)),
{
    let pieces = choose|pieces: Seq<Piece>| make_up(pieces, html, tags);
    let more = pieces.push(piece);
    assert(more.drop_last() =~= pieces);
    assert(make_up(more, html + spelling(piece), tags_behind(tags, piece)));
}

proof fn lemma_add_text(html: Seq<char>, tags: Option<Seq<TagName>>, added: Seq<char>)
    requires
        leaves_open(html, tags),
        fmt::holds_no_tag(added),
    ensures
        leaves_open(html + added, tags),
{
    lemma_add_piece(html, tags, Piece::Text(added));
}

proof fn lemma_reveal_tags()
    ensures
        "<b>"@ == seq!['<', 'b', '>'],
        "<i>"@ == seq!['<', 'i', '>'],
        "<s>"@ == seq!['<', 's', '>'],
        "<blockquote>"@.len() == 12 && "<blockquote>"@[0] == '<' && "<blockquote>"@[11] == '>',
        "<pre>"@ == seq!['<', 'p', 'r', 'e', '>'],
        "<code>"@ == seq!['<', 'c', 'o', 'd', 'e', '>'],
        "<a>"@ == seq!['<', 'a', '>'],
        "</b>"@ == seq!['<', '/', 'b', '>'],
        "</i>"@ == seq!['<', '/', 'i', '>'],
        "</s>"@ == seq!['<', '/', 's', '>'],
        "</blockquote>"@.len() == 13 && "</blockquote>"@[0] == '<' && "</blockquote>"@[12] == '>',
        "</pre>"@ == seq!['<', '/', 'p', 'r', 'e', '>'],
        "</code>"@ == seq!['<', '/', 'c', 'o', 'd', 'e', '>'],
        "</a>"@ == seq!['<', '/', 'a', '>'],
        "\">"@ == seq!['"', '>'],
        "<a href=\""@.len() == 9 && "<a href=\""@[0] == '<',
        "<code class=\"language-"@.len() == 22 && "<code class=\"language-"@[0] == '<',
{
    reveal_strlit("<b>");
    reveal_strlit("<i>");
    reveal_strlit("<s>");
    reveal_strlit("<blockquote>");
    reveal_strlit("<pre>");
    reveal_strlit("<code>");
    reveal_strlit("<a>");
    reveal_strlit("</b>");
    reveal_strlit("</i>");
    reveal_strlit("</s>");
    reveal_strlit("</blockquote>");
    reveal_strlit("</pre>");
    reveal_strlit("</code>");
    reveal_strlit("</a>");
    reveal_strlit("\">");
    reveal_strlit("<a href=\"");
    reveal_strlit("<code class=\"language-");
}

/// Inside a tag no other one starts, and it ends in `>`.
proof fn lemma_tag_shape(piece: Piece)
    requires
        is_sound(piece),
        !(piece is Text),
    ensures
        spelling(piece).len() > 0,
        spelling(piece).last() == '>',
        forall|i: int| 0 < i < spelling(piece).len() ==> #[trigger] spelling(piece)[i] != '<',
{
    lemma_reveal_tags();
    reveal_strlit("<blockquote>");
    reveal_strlit("</blockquote>");
    reveal_strlit("<a href=\"");
    reveal_strlit("<code class=\"language-");
    let s = spelling(piece);
    match piece {
        Piece::Open(Opening::CodeIn(value)) => {
            assert forall|i: int| 0 < i < s.len() implies #[trigger] s[i] != '<' by {
                if 22 <= i < 22 + value.len() {
                    assert(s[i] == value[i - 22]);
                    assert(value.contains(value[i - 22]));
                }
            }
        },
        Piece::Open(Opening::LinkTo(value)) => {
            assert forall|i: int| 0 < i < s.len() implies #[trigger] s[i] != '<' by {
                if 9 <= i < 9 + value.len() {
                    assert(s[i] == value[i - 9]);
                    assert(value.contains(value[i - 9]));
                }
            }
        },
        _ => {},
    }
}

/// A last character that ends no tag can be taken away.
proof fn lemma_drop_last_char(pieces: Seq<Piece>)
    requires
        all_sound(pieces),
        spell(pieces).len() > 0,
        spell(pieces).last() != '>',
    ensures
        leaves_open(spell(pieces).drop_last(), open_tags(pieces)),
    decreases pieces.len(),
{
    let before = pieces.drop_last();
    let last = pieces.last();
    let html = spell(pieces);
    assert(is_sound(pieces[pieces.len() - 1]));
    match last {
        Piece::Text(s) => {
            if s.len() == 0 {
                assert(html =~= spell(before));
                lemma_drop_last_char(before);
            } else {
                let shorter = s.drop_last();
                assert forall|i: int| 0 <= i < shorter.len() implies shorter[i] != '<' && shorter[i]
                    != '>' by {
                    assert(s.contains(s[i]));
                }
                assert(make_up(before, spell(before), open_tags(before)));
                lemma_add_text(spell(before), open_tags(before), shorter);
                assert(spell(before) + shorter =~= html.drop_last());
            }
        },
        _ => {
            lemma_tag_shape(last);
            assert(html.last() == spelling(last).last());
        },
    }
}

proof fn lemma_take_char_away(html: Seq<char>, tags: Option<Seq<TagName>>)
    requires
        leaves_open(html, tags),
        html.len() > 0,
        html.last() != '>',
    ensures
        leaves_open(html.drop_last(), tags),
{
    let pieces = choose|pieces: Seq<Piece>| make_up(pieces, html, tags);
    lemma_drop_last_char(pieces);
}

proof fn lemma_trim_end(html: Seq<char>, tags: Option<Seq<TagName>>)
    requires
        leaves_open(html, tags),
    ensures
        leaves_open(text::trim_end(html), tags),
    decreases html.len(),
{
    if html.len() > 0 && text::white_space(html.last()) {
        lemma_take_char_away(html, tags);
        lemma_trim_end(html.drop_last(), tags);
    }
}

proof fn lemma_drop_line_breaks(html: Seq<char>, tags: Option<Seq<TagName>>)
    requires
        leaves_open(html, tags),
    ensures
        leaves_open(fmt::without_line_breaks(html), tags),
    decreases html.len(),
{
    if html.len() > 0 && html.last() == '\n' {
        lemma_take_char_away(html, tags);
        lemma_drop_line_breaks(html.drop_last(), tags);
    }
}

proof fn lemma_tags_start(pieces: Seq<Piece>)
    requires
        all_sound(pieces),
    ensures
        forall|i: int|
            0 <= i < spell(pieces).len() && #[trigger] spell(pieces)[i] == '<' ==> tag_starts_at(
                spell(pieces),
                i,
            ),
    decreases pieces.len(),
{
    if pieces.len() > 0 {
        let before = spell(pieces.drop_last());
        let last = pieces.last();
        let added = spelling(last);
        let html = spell(pieces);
        assert(is_sound(pieces[pieces.len() - 1]));
        lemma_tags_start(pieces.drop_last());
        if !(last is Text) {
            lemma_tag_shape(last);
        }
        assert forall|i: int| 0 <= i < html.len() && #[trigger] html[i] == '<' implies tag_starts_at(
            html,
            i,
        ) by {
            if i < before.len() {
                assert(before[i] == '<');
                let j = choose|j: int| i < j <= before.len() && is_tag(
                    #[trigger] before.subrange(i, j),
                );
                assert(html.subrange(i, j) =~= before.subrange(i, j));
            } else {
                assert(added[i - before.len()] == '<');
                if let Piece::Text(s) = last {
                    assert(s.contains(s[i - before.len()]));
                }
                assert(html.subrange(i, html.len() as int) =~= added);
                assert(is_tag(html.subrange(i, html.len() as int)));
            }
        }
    }
}

// ---------------------------------------------------------------------------------------------
// Events

/// The tags that are open once an element has been opened.
pub open spec fn tags_with_element(
    tags: Option<Seq<TagName>>,
    element: Element<Seq<char>>,
) -> Option<Seq<TagName>> {
    match element {
        Element::Heading => with_open(tags, TagName::Bold),
        Element::BlockQuote => with_open(tags, TagName::Quote),
        Element::CodeBlock(language) => if fmt::has_language(language) {
            with_open(with_open(tags, TagName::Pre), TagName::Code)
        } else {
            with_open(tags, TagName::Pre)
        },
        Element::Emphasis => with_open(tags, TagName::Italic),
        Element::Strong => with_open(tags, TagName::Bold),
        Element::Strikethrough => with_open(tags, TagName::Struck),
        Element::Link(_) => with_open(tags, TagName::Link),
        Element::Image(_) => with_open(tags, TagName::Link),
        _ => tags,
    }
}

/// The tags that are open once an element has been closed, where the open code block has a
/// language or not.
pub open spec fn tags_without_element(
    tags: Option<Seq<TagName>>,
    end: ElementEnd,
    in_code: bool,
) -> Option<Seq<TagName>> {
    match end {
        ElementEnd::Heading => with_closed(tags, TagName::Bold),
        ElementEnd::BlockQuote => with_closed(tags, TagName::Quote),
        ElementEnd::CodeBlock => if in_code {
            with_closed(with_closed(tags, TagName::Code), TagName::Pre)
        } else {
            with_closed(tags, TagName::Pre)
        },
        ElementEnd::Emphasis => with_closed(tags, TagName::Italic),
        ElementEnd::Strong => with_closed(tags, TagName::Bold),
        ElementEnd::Strikethrough => with_closed(tags, TagName::Struck),
        ElementEnd::Link => with_closed(tags, TagName::Link),
        ElementEnd::Image => with_closed(tags, TagName::Link),
        _ => tags,
    }
}

/// The tags that are open behind one more event.
pub open spec fn tags_with_event(
    tags: Option<Seq<TagName>>,
    event: MarkdownEvent<Seq<char>>,
    in_code: bool,
) -> Option<Seq<TagName>> {
    match event {
        MarkdownEvent::Start(element) => tags_with_element(tags, element),
        MarkdownEvent::End(end) => tags_without_element(tags, end, in_code),
        _ => tags,
    }
}

proof fn lemma_opened(r: Rendering, tags: Option<Seq<TagName>>, element: Element<Seq<char>>)
    requires
        leaves_open(r.out, tags),
    ensures
        leaves_open(fmt::opened(r, element).out, tags_with_element(tags, element)),
{
    match element {
        Element::Heading | Element::Strong => {
            lemma_add_piece(r.out, tags, Piece::Open(Opening::Bare(TagName::Bold)));
        },
        Element::BlockQuote => {
            lemma_add_piece(r.out, tags, Piece::Open(Opening::Bare(TagName::Quote)));
        },
        Element::Emphasis => {
            lemma_add_piece(r.out, tags, Piece::Open(Opening::Bare(TagName::Italic)));
        },
        Element::Strikethrough => {
            lemma_add_piece(r.out, tags, Piece::Open(Opening::Bare(TagName::Struck)));
        },
        Element::Link(url) | Element::Image(url) => {
            fmt::law_escaped_text_holds_no_tag(url);
            lemma_add_piece(r.out, tags, Piece::Open(Opening::LinkTo(fmt::escaped(url))));
        },
        Element::CodeBlock(language) => {
            let pre = Piece::Open(Opening::Bare(TagName::Pre));
            lemma_add_piece(r.out, tags, pre);
            if let Some(name) = language {
                if name.len() > 0 {
                    fmt::law_escaped_text_holds_no_tag(name);
                    let code = Piece::Open(Opening::CodeIn(fmt::escaped(name)));
                    lemma_add_piece(
                        r.out + spelling(pre),
                        with_open(tags, TagName::Pre),
                        code,
                    );
                    reveal_strlit("<pre>");
                    reveal_strlit("<code class=\"language-");
                    reveal_strlit("<pre><code class=\"language-");
                    assert("<pre><code class=\"language-"@ =~= "<pre>"@
                        + "<code class=\"language-"@);
                    assert(r.out + spelling(pre) + spelling(code) =~= r.out + fmt::code_block_tag(
                        language,
                    ));
                }
            }
        },
        Element::Item => {
            if r.lists.len() > 0 {
                match r.lists.last() {
                    fmt::ListKind::Unordered => {
                        reveal_strlit("• ");
                        lemma_add_text(r.out, tags, "• "@);
                    },
                    fmt::ListKind::Ordered(n) => {
                        text::lemma_decimal_shape(n);
                        let number = text::decimal(n);
                        assert forall|i: int| 0 <= i < number.len() implies number[i] != '<'
                            && number[i] != '>' by {
                            assert(text::ascii_digit(number[i]));
                        }
                        lemma_add_text(r.out, tags, number);
                        reveal_strlit(". ");
                        lemma_add_text(r.out + number, tags, ". "@);
                    },
                }
            }
        },
        _ => {},
    }
}

proof fn lemma_close_then_text(
    html: Seq<char>,
    tags: Option<Seq<TagName>>,
    name: TagName,
    added: Seq<char>,
)
    requires
        leaves_open(html, tags),
        added == closing_tag(name) + "\n\n"@,
    ensures
        leaves_open(html + added, with_closed(tags, name)),
{
    lemma_add_piece(html, tags, Piece::Close(name));
    reveal_strlit("\n\n");
    lemma_add_text(html + closing_tag(name), with_closed(tags, name), "\n\n"@);
    assert(html + closing_tag(name) + "\n\n"@ =~= html + added);
}

proof fn lemma_closed(r: Rendering, tags: Option<Seq<TagName>>, end: ElementEnd)
    requires
        leaves_open(r.out, tags),
    ensures
        leaves_open(fmt::closed(r, end).out, tags_without_element(tags, end, r.in_code)),
{
    reveal_strlit("\n\n");
    match end {
        ElementEnd::Paragraph => lemma_add_text(r.out, tags, "\n\n"@),
        ElementEnd::Heading => {
            reveal_strlit("</b>");
            reveal_strlit("</b>\n\n");
            assert("</b>\n\n"@ =~= "</b>"@ + "\n\n"@);
            lemma_close_then_text(r.out, tags, TagName::Bold, "</b>\n\n"@);
        },
        ElementEnd::BlockQuote => {
            lemma_trim_end(r.out, tags);
            reveal_strlit("</blockquote>");
            reveal_strlit("</blockquote>\n\n");
            assert("</blockquote>\n\n"@ =~= "</blockquote>"@ + "\n\n"@);
            lemma_close_then_text(
                text::trim_end(r.out),
                tags,
                TagName::Quote,
                "</blockquote>\n\n"@,
            );
        },
        ElementEnd::CodeBlock => {
            let html = fmt::without_line_break(r.out);
            if r.out.len() > 0 && r.out.last() == '\n' {
                lemma_take_char_away(r.out, tags);
            }
            reveal_strlit("</pre>");
            reveal_strlit("</pre>\n\n");
            assert("</pre>\n\n"@ =~= "</pre>"@ + "\n\n"@);
            if r.in_code {
                lemma_add_piece(html, tags, Piece::Close(TagName::Code));
                lemma_close_then_text(
                    html + "</code>"@,
                    with_closed(tags, TagName::Code),
                    TagName::Pre,
                    "</pre>\n\n"@,
                );
                reveal_strlit("</code>");
                reveal_strlit("</code></pre>\n\n");
                assert("</code></pre>\n\n"@ =~= "</code>"@ + "</pre>\n\n"@);
                assert(html + "</code>"@ + "</pre>\n\n"@ =~= html + "</code></pre>\n\n"@);
            } else {
                lemma_close_then_text(html, tags, TagName::Pre, "</pre>\n\n"@);
            }
        },
        ElementEnd::List => {
            lemma_add_text(r.out, tags, seq!['\n']);
            assert(r.out + seq!['\n'] =~= r.out.push('\n'));
        },
        ElementEnd::Item => {
            lemma_drop_line_breaks(r.out, tags);
            let html = fmt::without_line_breaks(r.out);
            lemma_add_text(html, tags, seq!['\n']);
            assert(html + seq!['\n'] =~= html.push('\n'));
        },
        ElementEnd::Emphasis => lemma_add_piece(r.out, tags, Piece::Close(TagName::Italic)),
        ElementEnd::Strong => lemma_add_piece(r.out, tags, Piece::Close(TagName::Bold)),
        ElementEnd::Strikethrough => lemma_add_piece(r.out, tags, Piece::Close(TagName::Struck)),
        ElementEnd::Link => lemma_add_piece(r.out, tags, Piece::Close(TagName::Link)),
        ElementEnd::Image => lemma_add_piece(r.out, tags, Piece::Close(TagName::Link)),
        ElementEnd::Other => {},
    }
}

proof fn lemma_event(r: Rendering, tags: Option<Seq<TagName>>, event: MarkdownEvent<Seq<char>>)
    requires
        leaves_open(r.out, tags),
    ensures
        leaves_open(
            fmt::rendered_event(r, event).out,
            tags_with_event(tags, event, r.in_code),
        ),
{
    match event {
        MarkdownEvent::Start(element) => lemma_opened(r, tags, element),
        MarkdownEvent::End(end) => lemma_closed(r, tags, end),
        MarkdownEvent::Text(s) | MarkdownEvent::Html(s) | MarkdownEvent::InlineHtml(s) => {
            fmt::law_escaped_text_holds_no_tag(s);
            lemma_add_text(r.out, tags, fmt::escaped(s));
        },
        MarkdownEvent::Code(s) => {
            fmt::law_escaped_text_holds_no_tag(s);
            let inside = with_open(tags, TagName::Code);
            let code = Piece::Open(Opening::Bare(TagName::Code));
            lemma_add_piece(r.out, tags, code);
            lemma_add_text(r.out + "<code>"@, inside, fmt::escaped(s));
            lemma_add_piece(
                r.out + "<code>"@ + fmt::escaped(s),
                inside,
                Piece::Close(TagName::Code),
            );
            assert(r.out + "<code>"@ + fmt::escaped(s) + "</code>"@ =~= r.out + ("<code>"@
                + fmt::escaped(s) + "</code>"@));
            if let Some(open) = tags {
                assert(open.push(TagName::Code).drop_last() =~= open);
            }
        },
        MarkdownEvent::SoftBreak | MarkdownEvent::HardBreak => {
            lemma_add_text(r.out, tags, seq!['\n']);
        },
        MarkdownEvent::Rule => {
            reveal_strlit("———\n\n");
            lemma_add_text(r.out, tags, "———\n\n"@);
        },
        MarkdownEvent::Other => {},
    }
}

/// The rendering of no events leaves nothing open.
proof fn lemma_nothing_is_open()
    ensures
        leaves_open(seq![], Some(seq![])),
{
    assert(make_up(seq![], seq![], Some(seq![])));
}

proof fn lemma_rendering_is_pieces(events: Seq<MarkdownEvent<Seq<char>>>) -> (tags: Option<
    Seq<TagName>,
>)
    ensures
        leaves_open(fmt::rendering(events).out, tags),
    decreases events.len(),
{
    if events.len() == 0 {
        lemma_nothing_is_open();
        Some(seq![])
    } else {
        let r = fmt::rendering(events.drop_last());
        let tags = lemma_rendering_is_pieces(events.drop_last());
        lemma_event(r, tags, events.last());
        tags_with_event(tags, events.last(), r.in_code)
    }
}

/// Whatever the Markdown, every `<` in its HTML starts one of the tags that Telegram knows: bold,
/// italic, struck, quote, code in and out of a block, and link.
pub proof fn law_only_known_tags_are_written(events: Seq<MarkdownEvent<Seq<char>>>)
    ensures
        forall|i: int|
            0 <= i < fmt::html_of(events).len() && #[trigger] fmt::html_of(events)[i] == '<'
                ==> tag_starts_at(fmt::html_of(events), i),
{
    let tags = lemma_rendering_is_pieces(events);
    lemma_trim_end(fmt::rendering(events).out, tags);
    let html = fmt::html_of(events);
    let pieces = choose|pieces: Seq<Piece>| make_up(pieces, html, tags);
    lemma_tags_start(pieces);
}

// ---------------------------------------------------------------------------------------------
// Nesting

/// What closes an element.
pub open spec fn end_of(element: Element<Seq<char>>) -> ElementEnd {
    match element {
        Element::Paragraph => ElementEnd::Paragraph,
        Element::Heading => ElementEnd::Heading,
        Element::BlockQuote => ElementEnd::BlockQuote,
        Element::CodeBlock(_) => ElementEnd::CodeBlock,
        Element::List(_) => ElementEnd::List,
        Element::Item => ElementEnd::Item,
        Element::Emphasis => ElementEnd::Emphasis,
        Element::Strong => ElementEnd::Strong,
        Element::Strikethrough => ElementEnd::Strikethrough,
        Element::Link(_) => ElementEnd::Link,
        Element::Image(_) => ElementEnd::Image,
        Element::Other => ElementEnd::Other,
    }
}

/// The elements that are open behind the events, the last opened at the end; nothing where one is
/// closed that is not the last that was opened, or where one is opened inside a code block.
pub open spec fn open_elements(events: Seq<MarkdownEvent<Seq<char>>>) -> Option<
    Seq<Element<Seq<char>>>,
>
    decreases events.len(),
{
    if events.len() == 0 {
        Some(seq![])
    } else {
        match open_elements(events.drop_last()) {
            Some(open) => match events.last() {
                MarkdownEvent::Start(element) => if open.len() > 0 && open.last() is CodeBlock {
                    None
                } else {
                    Some(open.push(element))
                },
                MarkdownEvent::End(end) => if open.len() > 0 && end_of(open.last()) == end {
                    Some(open.drop_last())
                } else {
                    None
                },
                _ => Some(open),
            },
            None => None,
        }
    }
}

/// Whether each element that is opened is closed, what is closed is always the last that was
/// opened, and code blocks hold no other elements.
pub open spec fn well_nested(events: Seq<MarkdownEvent<Seq<char>>>) -> bool {
    open_elements(events) == Some(Seq::<Element<Seq<char>>>::empty())
}

/// The tags that stand open for elements that are open.
pub open spec fn tags_for(open: Seq<Element<Seq<char>>>) -> Option<Seq<TagName>>
    decreases open.len(),
{
    if open.len() == 0 {
        Some(seq![])
    } else {
        tags_with_element(tags_for(open.drop_last()), open.last())
    }
}

/// Whether the innermost of the elements is a code block in a language.
pub open spec fn innermost_has_language(open: Seq<Element<Seq<char>>>) -> bool {
    open.len() > 0 && (open.last() matches Element::CodeBlock(language) && fmt::has_language(
        language,
    ))
}

proof fn lemma_some_tags(open: Seq<Element<Seq<char>>>)
    ensures
        tags_for(open) is Some,
    decreases open.len(),
{
    if open.len() > 0 {
        lemma_some_tags(open.drop_last());
    }
}

/// Closing an element takes its tags away again.
proof fn lemma_tags_are_undone(tags: Seq<TagName>, element: Element<Seq<char>>, in_code: bool)
    requires
        element matches Element::CodeBlock(language) ==> in_code == fmt::has_language(language),
    ensures
        tags_without_element(
            tags_with_element(Some(tags), element),
            end_of(element),
            in_code,
        ) == Some(tags),
{
    assert forall|base: Seq<TagName>, name: TagName|
        with_closed(#[trigger] with_open(Some(base), name), name) == Some(base) by {
        assert(base.push(name).drop_last() =~= base);
    }
    if let Element::CodeBlock(language) = element {
        if fmt::has_language(language) {
            let inside = tags.push(TagName::Pre);
            assert(with_open(Some(tags), TagName::Pre) == Some(inside));
            assert(with_closed(with_open(Some(inside), TagName::Code), TagName::Code) == Some(
                inside,
            ));
        }
    }
}

proof fn lemma_nesting(events: Seq<MarkdownEvent<Seq<char>>>)
    requires
        open_elements(events) is Some,
    ensures
        leaves_open(fmt::rendering(events).out, tags_for(open_elements(events)->0)),
        fmt::rendering(events).in_code == innermost_has_language(open_elements(events)->0),
        forall|i: int|
            0 <= i < open_elements(events)->0.len() - 1 ==> !((
            #[trigger] open_elements(events)->0[i]) is CodeBlock),
    decreases events.len(),
{
    if events.len() == 0 {
        lemma_nothing_is_open();
    } else {
        let before = events.drop_last();
        let event = events.last();
        let r = fmt::rendering(before);
        lemma_nesting(before);
        let open = open_elements(before)->0;
        let next = open_elements(events)->0;
        lemma_event(r, tags_for(open), event);
        match event {
            MarkdownEvent::Start(element) => {
                assert(next.drop_last() =~= open);
                assert forall|i: int| 0 <= i < next.len() - 1 implies !((#[trigger] next[i]) is CodeBlock) by {
                    assert(next[i] == open[i]);
                }
            },
            MarkdownEvent::End(end) => {
                lemma_some_tags(next);
                lemma_tags_are_undone(tags_for(next)->0, open.last(), r.in_code);
                assert forall|i: int| 0 <= i < next.len() implies !((#[trigger] next[i]) is CodeBlock) by {
                    assert(next[i] == open[i]);
                }
            },
            _ => {},
        }
    }
}

/// Where the elements of Markdown are well nested, the tags of its HTML match.
pub proof fn law_tags_match(events: Seq<MarkdownEvent<Seq<char>>>)
    requires
        well_nested(events),
    ensures
        tags_match(fmt::html_of(events)),
{
    lemma_nesting(events);
    lemma_trim_end(fmt::rendering(events).out, Some(seq![]));
}

} // verus!
