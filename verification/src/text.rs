//! Text primitives: equality, decimal numbers, white space, searching, replacing and slicing.
//!
//! Texts are modelled as sequences of characters (`Seq<char>`), and, where a byte offset comes
//! in from outside, as their UTF-8 encoding.

use vstd::prelude::*;
use vstd::utf8::*;

verus! {

// ---------------------------------------------------------------------------------------------
// Characters and whole texts

/// Appends one character: `String::push`, which adds exactly that character at the end.
#[verifier::external_body]
pub(crate) fn push_char(text: &mut String, c: char)
    ensures
        final(text)@ == old(text)@.push(c),
{
    text.push(c);
}

/// The characters of `text`, in order.
pub fn chars_of(text: &str) -> (r: Vec<char>)
    ensures
        r@ == text@,
{
    let mut out: Vec<char> = Vec::new();
    for c in it: text.chars()
        invariant
            out@ == it.seq().take(it.index()),
            it.seq() == text@,
    {
        out.push(c);
    }
    out
}

/// The text made of the characters `chars[from..to]`.
pub fn text_of(chars: &Vec<char>, from: usize, to: usize) -> (r: String)
    requires
        from <= to <= chars@.len(),
    ensures
        r@ == chars@.subrange(from as int, to as int),
{
    let mut out = String::new();
    let mut i: usize = from;
    while i < to
        invariant
            from <= i <= to <= chars@.len(),
            out@ == chars@.subrange(from as int, i as int),
        decreases to - i,
    {
        push_char(&mut out, chars[i]);
        i += 1;
    }
    out
}

/// Whether two texts are equal.
pub fn same_text(a: &str, b: &str) -> (r: bool)
    ensures
        r == (a@ == b@),
{
    let x = a.as_bytes();
    let y = b.as_bytes();
    if x.len() != y.len() {
        return false;
    }
    let mut i: usize = 0;
    while i < x.len()
        invariant
            i <= x@.len(),
            x@.len() == y@.len(),
            x@ == encode_utf8(a@),
            y@ == encode_utf8(b@),
            forall|j: int| 0 <= j < i ==> x@[j] == y@[j],
        decreases x@.len() - i,
    {
        if x[i] != y[i] {
            return false;
        }
        i += 1;
    }
    proof {
        assert(x@ =~= y@);
        encode_utf8_decode_utf8(a@);
        encode_utf8_decode_utf8(b@);
    }
    true
}

/// The texts of a list of strings.
pub open spec fn texts(list: Seq<String>) -> Seq<Seq<char>> {
    list.map_values(|s: String| s@)
}

/// The optional text behind an optional string.
pub open spec fn text_view(text: Option<String>) -> Option<Seq<char>> {
    match text {
        Some(s) => Some(s@),
        None => None,
    }
}

/// The text of an optional string slice.
pub open spec fn slice_view(text: Option<&str>) -> Option<Seq<char>> {
    match text {
        Some(s) => Some(s@),
        None => None,
    }
}

/// The result with its message as a text.
pub open spec fn message_view<T>(result: Result<T, String>) -> Result<T, Seq<char>> {
    match result {
        Ok(value) => Ok(value),
        Err(message) => Err(message@),
    }
}

// ---------------------------------------------------------------------------------------------
// Decimal numbers

/// The character of the decimal digit `d`.
pub open spec fn digit_char(d: nat) -> char {
    (48 + d) as char
}

/// The decimal digits of `n`, without leading zeros.
pub open spec fn decimal(n: nat) -> Seq<char>
    decreases n,
{
    if n < 10 {
        seq![digit_char(n)]
    } else {
        decimal(n / 10).push(digit_char(n % 10))
    }
}

/// The decimal digits of `i`, behind a minus sign where `i` is negative.
pub open spec fn signed_decimal(i: int) -> Seq<char> {
    if i < 0 {
        seq!['-'] + decimal((-i) as nat)
    } else {
        decimal(i as nat)
    }
}

/// `n` in decimal.
pub fn decimal_text(n: u128) -> (r: String)
    ensures
        r@ == decimal(n as nat),
    decreases n,
{
    let digit: u8 = (n % 10) as u8;
    let c: char = (48u8 + digit) as char;
    if n < 10 {
        let mut out = String::new();
        push_char(&mut out, c);
        out
    } else {
        let mut out = decimal_text(n / 10);
        push_char(&mut out, c);
        out
    }
}

/// `i` in decimal, with its sign where it is negative.
pub fn signed_decimal_text(i: i64) -> (r: String)
    ensures
        r@ == signed_decimal(i as int),
{
    if i < 0 {
        let mut out = String::new();
        push_char(&mut out, '-');
        out.append(decimal_text((-(i as i128)) as u128).as_str());
        out
    } else {
        decimal_text(i as u128)
    }
}

/// Decimals are digits, at least one, and mean the number that they write.
pub proof fn lemma_decimal_shape(n: nat)
    ensures
        decimal(n).len() > 0,
        all_digits(decimal(n)),
        digits_value(decimal(n)) == n,
    decreases n,
{
    let last = digit_char(n % 10);
    assert(last as nat == 48 + n % 10);
    if n < 10 {
        assert(decimal(n) =~= seq![last]);
        assert(decimal(n).drop_last() =~= Seq::<char>::empty());
        reveal_with_fuel(digits_value, 2);
    } else {
        lemma_decimal_shape(n / 10);
        assert(decimal(n).drop_last() =~= decimal(n / 10));
        assert(decimal(n).last() == last);
        assert forall|i: int| 0 <= i < decimal(n).len() implies ascii_digit(
            #[trigger] decimal(n)[i],
        ) by {
            if i < decimal(n / 10).len() {
                assert(decimal(n)[i] == decimal(n / 10)[i]);
            }
        }
    }
}

/// A number in decimal holds nothing but digits, and a minus sign at most.
pub proof fn lemma_decimal_has_no(i: int, c: char)
    requires
        !ascii_digit(c),
        c != '-',
    ensures
        !signed_decimal(i).contains(c),
{
    if i < 0 {
        lemma_decimal_shape((-i) as nat);
    } else {
        lemma_decimal_shape(i as nat);
    }
    let s = signed_decimal(i);
    assert forall|k: int| 0 <= k < s.len() implies s[k] != c by {
        if i < 0 && k > 0 {
            assert(s[k] == decimal((-i) as nat)[k - 1]);
        }
    }
}

/// Different integers are written differently in decimal.
pub proof fn law_signed_decimal_is_unique(a: int, b: int)
    requires
        signed_decimal(a) == signed_decimal(b),
    ensures
        a == b,
{
    let s = signed_decimal(a);
    if a < 0 {
        lemma_decimal_shape((-a) as nat);
        assert(s.drop_first() =~= decimal((-a) as nat));
    } else {
        lemma_decimal_shape(a as nat);
        assert(ascii_digit(s[0]));
    }
    if b < 0 {
        lemma_decimal_shape((-b) as nat);
        assert(s.drop_first() =~= decimal((-b) as nat));
    } else {
        lemma_decimal_shape(b as nat);
        assert(ascii_digit(s[0]));
    }
}

/// The value of a run of decimal digits, read from the left.
pub open spec fn digits_value(digits: Seq<char>) -> nat
    decreases digits.len(),
{
    if digits.len() == 0 {
        0
    } else {
        digits_value(digits.drop_last()) * 10 + (digits.last() as nat - 48) as nat
    }
}

/// Whether `c` is one of the ten ASCII digits.
pub open spec fn ascii_digit(c: char) -> bool {
    '0' <= c <= '9'
}

/// Whether every character of `s` is an ASCII digit.
pub open spec fn all_digits(s: Seq<char>) -> bool {
    forall|i: int| 0 <= i < s.len() ==> ascii_digit(#[trigger] s[i])
}

/// `s` without one leading plus sign.
pub open spec fn without_plus(s: Seq<char>) -> Seq<char> {
    if s.len() > 0 && s[0] == '+' {
        s.drop_first()
    } else {
        s
    }
}

/// The number that `s` writes in decimal, if it writes one that fits 64 bits: at least one digit,
/// nothing but digits, behind at most one plus sign.
pub open spec fn unsigned_number(s: Seq<char>) -> Option<u64> {
    let digits = without_plus(s);
    if digits.len() > 0 && all_digits(digits) && digits_value(digits) <= u64::MAX {
        Some(digits_value(digits) as u64)
    } else {
        None
    }
}

proof fn lemma_digits_value_grows(digits: Seq<char>, i: int)
    requires
        0 <= i <= digits.len(),
    ensures
        digits_value(digits.take(i)) <= digits_value(digits),
    decreases digits.len(),
{
    if i == digits.len() {
        assert(digits.take(i) =~= digits);
    } else {
        lemma_digits_value_grows(digits.drop_last(), i);
        assert(digits.drop_last().take(i) =~= digits.take(i));
    }
}

/// Reads a number in decimal.
pub fn parse_unsigned(chars: &Vec<char>) -> (r: Option<u64>)
    ensures
        r == unsigned_number(chars@),
{
    let start: usize = if chars.len() > 0 && chars[0] == '+' {
        1
    } else {
        0
    };
    let ghost digits = without_plus(chars@);
    proof {
        assert(digits =~= chars@.skip(start as int));
    }
    if start == chars.len() {
        return None;
    }
    let mut value: u64 = 0;
    let mut i: usize = start;
    while i < chars.len()
        invariant
            start <= i <= chars@.len(),
            digits == chars@.skip(start as int),
            digits == without_plus(chars@),
            start < chars@.len(),
            all_digits(digits.take(i - start)),
            value == digits_value(digits.take(i - start)),
        decreases chars@.len() - i,
    {
        let c = chars[i];
        proof {
            assert(digits[i - start] == c);
            assert(digits.take(i - start + 1).drop_last() =~= digits.take(i - start));
        }
        if c < '0' || c > '9' {
            return None;
        }
        let digit: u64 = c as u64 - 48;
        let next: u128 = (value as u128) * 10 + digit as u128;
        if next > u64::MAX as u128 {
            proof {
                lemma_digits_value_grows(digits, i - start + 1);
            }
            return None;
        }
        value = next as u64;
        i += 1;
    }
    proof {
        assert(digits.take(i - start) =~= digits);
    }
    Some(value)
}

// ---------------------------------------------------------------------------------------------
// White space

/// Whether `c` has the Unicode property White_Space.
pub open spec fn white_space(c: char) -> bool {
    ||| '\u{9}' <= c <= '\u{d}'
    ||| c == ' '
    ||| c == '\u{85}'
    ||| c == '\u{a0}'
    ||| c == '\u{1680}'
    ||| '\u{2000}' <= c <= '\u{200a}'
    ||| c == '\u{2028}'
    ||| c == '\u{2029}'
    ||| c == '\u{202f}'
    ||| c == '\u{205f}'
    ||| c == '\u{3000}'
}

/// Whether `c` is white space.
pub fn is_white_space(c: char) -> (r: bool)
    ensures
        r == white_space(c),
{
    ('\u{9}' <= c && c <= '\u{d}') || c == ' ' || c == '\u{85}' || c == '\u{a0}' || c == '\u{1680}'
        || ('\u{2000}' <= c && c <= '\u{200a}') || c == '\u{2028}' || c == '\u{2029}'
        || c == '\u{202f}' || c == '\u{205f}' || c == '\u{3000}'
}

/// `s` without the white space at its start.
pub open spec fn trim_start(s: Seq<char>) -> Seq<char>
    decreases s.len(),
{
    if s.len() > 0 && white_space(s[0]) {
        trim_start(s.drop_first())
    } else {
        s
    }
}

/// `s` without the white space at its end.
pub open spec fn trim_end(s: Seq<char>) -> Seq<char>
    decreases s.len(),
{
    if s.len() > 0 && white_space(s.last()) {
        trim_end(s.drop_last())
    } else {
        s
    }
}

/// `s` without the white space at its two ends.
pub open spec fn trim(s: Seq<char>) -> Seq<char> {
    trim_end(trim_start(s))
}

/// How many characters of white space stand at the start.
fn leading_white_space(chars: &Vec<char>) -> (k: usize)
    ensures
        k <= chars@.len(),
        trim_start(chars@) == chars@.skip(k as int),
{
    let mut k: usize = 0;
    proof {
        assert(chars@.skip(0) =~= chars@);
    }
    while k < chars.len() && is_white_space(chars[k])
        invariant
            k <= chars@.len(),
            trim_start(chars@) == trim_start(chars@.skip(k as int)),
        decreases chars@.len() - k,
    {
        proof {
            assert(chars@.skip(k as int).drop_first() =~= chars@.skip(k + 1));
        }
        k += 1;
    }
    k
}

/// Where the white space at the end begins, in the part that starts at `from`.
fn trailing_white_space(chars: &Vec<char>, from: usize) -> (k: usize)
    requires
        from <= chars@.len(),
    ensures
        from <= k <= chars@.len(),
        trim_end(chars@.skip(from as int)) == chars@.subrange(from as int, k as int),
{
    let mut k: usize = chars.len();
    proof {
        assert(chars@.skip(from as int) =~= chars@.subrange(from as int, k as int));
    }
    while k > from && is_white_space(chars[k - 1])
        invariant
            from <= k <= chars@.len(),
            trim_end(chars@.skip(from as int)) == trim_end(chars@.subrange(from as int, k as int)),
        decreases k,
    {
        proof {
            assert(chars@.subrange(from as int, k as int).drop_last() =~= chars@.subrange(
                from as int,
                k - 1,
            ));
        }
        k -= 1;
    }
    k
}

/// The text without the white space at its start.
pub fn trim_start_text<'a>(text: &'a str) -> (r: &'a str)
    ensures
        r@ == trim_start(text@),
{
    let chars = chars_of(text);
    let k = leading_white_space(&chars);
    text.substring_char(k, chars.len())
}

/// The text without the white space at its two ends.
pub fn trim_text<'a>(text: &'a str) -> (r: &'a str)
    ensures
        r@ == trim(text@),
{
    let chars = chars_of(text);
    let from = leading_white_space(&chars);
    let to = trailing_white_space(&chars, from);
    text.substring_char(from, to)
}

// ---------------------------------------------------------------------------------------------
// Words

/// One word, unless it is empty.
pub open spec fn word_or_none(word: Seq<char>) -> Seq<Seq<char>> {
    if word.len() == 0 {
        seq![]
    } else {
        seq![word]
    }
}

/// The maximal runs of characters that are not white space in `s`, where `begun` is the part of
/// the first one that came before `s`.
pub open spec fn words_from(begun: Seq<char>, s: Seq<char>) -> Seq<Seq<char>>
    decreases s.len(),
{
    if s.len() == 0 {
        word_or_none(begun)
    } else if white_space(s[0]) {
        word_or_none(begun) + words_from(seq![], s.drop_first())
    } else {
        words_from(begun.push(s[0]), s.drop_first())
    }
}

/// The words of `s`: its maximal runs of characters that are not white space, in order.
pub open spec fn words(s: Seq<char>) -> Seq<Seq<char>> {
    words_from(seq![], s)
}

/// The parts, one behind the other, with `separator` between neighbours.
pub open spec fn join(parts: Seq<Seq<char>>, separator: Seq<char>) -> Seq<char>
    decreases parts.len(),
{
    if parts.len() == 0 {
        seq![]
    } else if parts.len() == 1 {
        parts[0]
    } else {
        join(parts.drop_last(), separator) + separator + parts.last()
    }
}

/// The words of `s` with one space between neighbours.
pub open spec fn collapsed(s: Seq<char>) -> Seq<char> {
    join(words(s), seq![' '])
}

/// The words of the text, in order.
pub fn split_words(text: &str) -> (r: Vec<String>)
    ensures
        texts(r@) == words(text@),
{
    let chars = chars_of(text);
    let mut out: Vec<String> = Vec::new();
    let mut word = String::new();
    let mut word_len: usize = 0;
    let mut i: usize = 0;
    proof {
        assert(chars@.skip(0) =~= chars@);
        assert(texts(out@) + words_from(word@, chars@.skip(0)) =~= words(text@));
    }
    while i < chars.len()
        invariant
            i <= chars@.len(),
            word_len == word@.len(),
            word_len <= i,
            texts(out@) + words_from(word@, chars@.skip(i as int)) == words(text@),
        decreases chars@.len() - i,
    {
        let c = chars[i];
        let ghost rest = chars@.skip(i as int);
        let ghost before = texts(out@);
        let ghost begun = word@;
        proof {
            assert(rest[0] == c);
            assert(rest.drop_first() =~= chars@.skip(i + 1));
        }
        if is_white_space(c) {
            if word_len > 0 {
                let done = word;
                out.push(done);
                word = String::new();
                word_len = 0;
                proof {
                    assert(texts(out@) =~= before + word_or_none(begun));
                }
            }
            proof {
                assert(texts(out@) =~= before + word_or_none(begun));
                assert(word@ =~= Seq::<char>::empty());
                assert(before + (word_or_none(begun) + words_from(seq![], rest.drop_first()))
                    =~= texts(out@) + words_from(seq![], rest.drop_first()));
            }
        } else {
            push_char(&mut word, c);
            word_len += 1;
        }
        i += 1;
    }
    let ghost before = texts(out@);
    let ghost begun = word@;
    proof {
        assert(chars@.skip(i as int).len() == 0);
    }
    if word_len > 0 {
        out.push(word);
    }
    proof {
        assert(texts(out@) =~= before + word_or_none(begun));
    }
    out
}

/// Joins texts with a separator between neighbours.
pub fn join_texts(parts: &Vec<String>, separator: &str) -> (r: String)
    ensures
        r@ == join(texts(parts@), separator@),
{
    let mut out = String::new();
    let mut i: usize = 0;
    while i < parts.len()
        invariant
            i <= parts@.len(),
            out@ == join(texts(parts@.take(i as int)), separator@),
        decreases parts@.len() - i,
    {
        proof {
            let next = texts(parts@.take(i + 1));
            assert(next.drop_last() =~= texts(parts@.take(i as int)));
            assert(next.last() == parts@[i as int]@);
            if i == 0 {
                assert(next[0] == parts@[0]@);
                assert(out@ + parts@[0]@ =~= parts@[0]@);
            }
        }
        if i > 0 {
            out.append(separator);
        }
        out.append(parts[i].as_str());
        i += 1;
    }
    proof {
        assert(parts@.take(i as int) =~= parts@);
    }
    out
}

/// The words of the text with one space between neighbours.
pub fn collapse_white_space(text: &str) -> (r: String)
    ensures
        r@ == collapsed(text@),
{
    let parts = split_words(text);
    proof {
        reveal_strlit(" ");
        assert(" "@ =~= seq![' ']);
    }
    join_texts(&parts, " ")
}

// ---------------------------------------------------------------------------------------------
// Searching and replacing

/// Whether `pattern` stands in `s` at position `i`.
pub open spec fn occurs_at(s: Seq<char>, pattern: Seq<char>, i: int) -> bool {
    0 <= i && i + pattern.len() <= s.len() && s.subrange(i, i + pattern.len()) == pattern
}

/// Whether `pattern` stands anywhere in `s`.
pub open spec fn contains_text(s: Seq<char>, pattern: Seq<char>) -> bool {
    exists|i: int| occurs_at(s, pattern, i)
}

/// Whether `s` begins with `prefix`.
pub open spec fn has_prefix(s: Seq<char>, prefix: Seq<char>) -> bool {
    occurs_at(s, prefix, 0)
}

/// Whether `s` ends with `suffix`.
pub open spec fn has_suffix(s: Seq<char>, suffix: Seq<char>) -> bool {
    occurs_at(s, suffix, s.len() - suffix.len())
}

/// `s` with every occurrence of `pattern` replaced, found from the left without overlaps.
pub open spec fn replace_all(s: Seq<char>, pattern: Seq<char>, replacement: Seq<char>) -> Seq<char>
    decreases s.len(),
{
    if pattern.len() == 0 || s.len() < pattern.len() {
        s
    } else if has_prefix(s, pattern) {
        replacement + replace_all(s.skip(pattern.len() as int), pattern, replacement)
    } else {
        seq![s[0]] + replace_all(s.drop_first(), pattern, replacement)
    }
}

fn pattern_at(chars: &Vec<char>, pattern: &Vec<char>, i: usize) -> (r: bool)
    requires
        i <= chars@.len(),
    ensures
        r == occurs_at(chars@, pattern@, i as int),
{
    if chars.len() - i < pattern.len() {
        return false;
    }
    let mut j: usize = 0;
    while j < pattern.len()
        invariant
            j <= pattern@.len(),
            i + pattern@.len() <= chars@.len() <= usize::MAX,
            forall|k: int| 0 <= k < j ==> chars@[i + k] == pattern@[k],
        decreases pattern@.len() - j,
    {
        if chars[i + j] != pattern[j] {
            proof {
                assert(chars@.subrange(i as int, i + pattern@.len())[j as int] != pattern@[j as int]);
            }
            return false;
        }
        j += 1;
    }
    proof {
        assert(chars@.subrange(i as int, i + pattern@.len()) =~= pattern@);
    }
    true
}

/// Whether `pattern` stands anywhere in `chars`.
pub fn chars_contain(chars: &Vec<char>, pattern: &str) -> (r: bool)
    ensures
        r == contains_text(chars@, pattern@),
{
    let wanted = chars_of(pattern);
    let mut i: usize = 0;
    while i < chars.len()
        invariant
            i <= chars@.len(),
            wanted@ == pattern@,
            forall|k: int| 0 <= k < i ==> !occurs_at(chars@, wanted@, k),
        decreases chars@.len() - i,
    {
        if pattern_at(chars, &wanted, i) {
            return true;
        }
        i += 1;
    }
    pattern_at(chars, &wanted, i)
}

/// Adds the characters of `text` at the end.
pub fn push_text(chars: &mut Vec<char>, text: &str)
    ensures
        final(chars)@ == old(chars)@ + text@,
{
    let added = chars_of(text);
    let ghost before = chars@;
    let mut i: usize = 0;
    while i < added.len()
        invariant
            i <= added@.len(),
            chars@ == before + added@.take(i as int),
        decreases added@.len() - i,
    {
        chars.push(added[i]);
        proof {
            assert(before + added@.take(i + 1) =~= (before + added@.take(i as int)).push(
                added@[i as int],
            ));
        }
        i += 1;
    }
    proof {
        assert(added@.take(i as int) =~= added@);
    }
}

/// Takes the white space off the end.
pub fn trim_end_chars(chars: &mut Vec<char>)
    ensures
        final(chars)@ == trim_end(old(chars)@),
{
    let k = trailing_white_space(chars, 0);
    proof {
        assert(chars@.skip(0) =~= chars@);
    }
    chars.truncate(k);
}

/// Whether `pattern` stands anywhere in `text`.
pub fn contains(text: &str, pattern: &str) -> (r: bool)
    ensures
        r == contains_text(text@, pattern@),
{
    chars_contain(&chars_of(text), pattern)
}

/// Whether `text` begins with `prefix`.
pub fn starts_with(text: &str, prefix: &str) -> (r: bool)
    ensures
        r == has_prefix(text@, prefix@),
{
    let chars = chars_of(text);
    let wanted = chars_of(prefix);
    pattern_at(&chars, &wanted, 0)
}

/// Replaces every occurrence of `pattern`.
pub fn replace(text: &str, pattern: &str, replacement: &str) -> (r: String)
    requires
        pattern@.len() > 0,
    ensures
        r@ == replace_all(text@, pattern@, replacement@),
{
    let chars = chars_of(text);
    let wanted = chars_of(pattern);
    let mut out = String::new();
    let mut i: usize = 0;
    proof {
        assert(chars@.skip(0) =~= chars@);
        assert(out@ + replace_all(chars@.skip(0), wanted@, replacement@) =~= replace_all(
            text@,
            pattern@,
            replacement@,
        ));
    }
    while i < chars.len()
        invariant
            i <= chars@.len(),
            wanted@.len() > 0,
            wanted@ == pattern@,
            chars@ == text@,
            out@ + replace_all(chars@.skip(i as int), wanted@, replacement@) == replace_all(
                text@,
                pattern@,
                replacement@,
            ),
        decreases chars@.len() - i,
    {
        let ghost rest = chars@.skip(i as int);
        let ghost before = out@;
        if pattern_at(&chars, &wanted, i) {
            proof {
                assert(rest.subrange(0, wanted@.len() as int) =~= chars@.subrange(
                    i as int,
                    i + wanted@.len(),
                ));
                assert(rest.skip(wanted@.len() as int) =~= chars@.skip(i + wanted@.len()));
                assert(before + (replacement@ + replace_all(
                    rest.skip(wanted@.len() as int),
                    wanted@,
                    replacement@,
                )) =~= before + replacement@ + replace_all(
                    rest.skip(wanted@.len() as int),
                    wanted@,
                    replacement@,
                ));
            }
            out.append(replacement);
            i += wanted.len();
        } else {
            proof {
                if rest.len() >= wanted@.len() {
                    assert(rest.subrange(0, wanted@.len() as int) =~= chars@.subrange(
                        i as int,
                        i + wanted@.len(),
                    ));
                }
                assert(rest[0] == chars@[i as int]);
                assert(rest.drop_first() =~= chars@.skip(i + 1));
                assert(replace_all(rest, wanted@, replacement@) =~= seq![rest[0]] + replace_all(
                    rest.drop_first(),
                    wanted@,
                    replacement@,
                ));
                assert(before + (seq![rest[0]] + replace_all(
                    rest.drop_first(),
                    wanted@,
                    replacement@,
                )) =~= before.push(rest[0]) + replace_all(
                    rest.drop_first(),
                    wanted@,
                    replacement@,
                ));
            }
            push_char(&mut out, chars[i]);
            i += 1;
        }
    }
    proof {
        assert(chars@.skip(i as int).len() == 0);
        assert(out@ + replace_all(chars@.skip(i as int), wanted@, replacement@) =~= out@);
    }
    out
}

// ---------------------------------------------------------------------------------------------
// ASCII case

/// The ASCII lower case of `c`.
pub open spec fn ascii_lower(c: char) -> char {
    if 'A' <= c <= 'Z' {
        (c as u32 + 32) as char
    } else {
        c
    }
}

/// `s` with each ASCII capital in lower case.
pub open spec fn ascii_lower_text(s: Seq<char>) -> Seq<char> {
    s.map_values(|c: char| ascii_lower(c))
}

/// Whether two texts are equal up to the case of ASCII letters.
pub open spec fn same_ignoring_case(a: Seq<char>, b: Seq<char>) -> bool {
    ascii_lower_text(a) == ascii_lower_text(b)
}

fn to_ascii_lower(c: char) -> (r: char)
    ensures
        r == ascii_lower(c),
{
    if 'A' <= c && c <= 'Z' {
        ((c as u32 + 32) as u8) as char
    } else {
        c
    }
}

/// The text with each ASCII capital in lower case.
pub fn to_ascii_lower_text(text: &str) -> (r: String)
    ensures
        r@ == ascii_lower_text(text@),
{
    let chars = chars_of(text);
    let mut out = String::new();
    let mut i: usize = 0;
    while i < chars.len()
        invariant
            i <= chars@.len(),
            chars@ == text@,
            out@ == ascii_lower_text(text@).take(i as int),
        decreases chars@.len() - i,
    {
        push_char(&mut out, to_ascii_lower(chars[i]));
        proof {
            assert(ascii_lower_text(text@).take(i + 1) =~= ascii_lower_text(text@).take(
                i as int,
            ).push(ascii_lower(chars@[i as int])));
        }
        i += 1;
    }
    proof {
        assert(ascii_lower_text(text@).take(i as int) =~= ascii_lower_text(text@));
    }
    out
}

/// Whether two texts are equal up to the case of ASCII letters.
pub fn eq_ignore_ascii_case(a: &str, b: &str) -> (r: bool)
    ensures
        r == same_ignoring_case(a@, b@),
{
    let x = chars_of(a);
    let y = chars_of(b);
    if x.len() != y.len() {
        proof {
            assert(ascii_lower_text(a@).len() != ascii_lower_text(b@).len());
        }
        return false;
    }
    let mut i: usize = 0;
    while i < x.len()
        invariant
            i <= x@.len(),
            x@.len() == y@.len(),
            x@ == a@,
            y@ == b@,
            forall|j: int| 0 <= j < i ==> ascii_lower(x@[j]) == ascii_lower(y@[j]),
        decreases x@.len() - i,
    {
        if to_ascii_lower(x[i]) != to_ascii_lower(y[i]) {
            proof {
                assert(ascii_lower_text(a@)[i as int] != ascii_lower_text(b@)[i as int]);
            }
            return false;
        }
        i += 1;
    }
    proof {
        assert(ascii_lower_text(a@) =~= ascii_lower_text(b@));
    }
    true
}

// ---------------------------------------------------------------------------------------------
// Lower case

/// The lower case of a text, by the tables of Unicode.
pub uninterp spec fn lowercase(s: Seq<char>) -> Seq<char>;

/// Whether `s` is plain ASCII.
pub open spec fn all_ascii(s: Seq<char>) -> bool {
    forall|i: int| 0 <= i < s.len() ==> (#[trigger] s[i] as u32) < 128
}

/// `str::to_lowercase`: the lower case by Unicode, as [`lowercase`] names it; of plain ASCII it is
/// the text with its capitals in lower case.
#[verifier::external_body]
pub(crate) fn to_lowercase_text(text: &str) -> (r: String)
    ensures
        r@ == lowercase(text@),
        all_ascii(text@) ==> r@ == ascii_lower_text(text@),
{
    text.to_lowercase()
}

// ---------------------------------------------------------------------------------------------
// Byte offsets

/// The length of the UTF-8 encoding of `s`.
pub open spec fn byte_len(s: Seq<char>) -> nat {
    encode_utf8(s).len()
}

/// Whether the bytes `start..start + len` of the UTF-8 encoding of `s` are whole characters of it.
pub open spec fn sliceable(s: Seq<char>, start: int, len: int) -> bool {
    &&& 0 <= start
    &&& 0 <= len
    &&& start + len <= byte_len(s)
    &&& is_char_boundary(encode_utf8(s), start)
    &&& is_char_boundary(encode_utf8(s), start + len)
}

/// The text whose UTF-8 encoding is the bytes `start..start + len` of that of `s`.
pub open spec fn byte_slice(s: Seq<char>, start: int, len: int) -> Seq<char> {
    decode_utf8(encode_utf8(s).subrange(start, start + len))
}

/// The number of bytes of the text.
pub fn byte_count(text: &str) -> (r: usize)
    ensures
        r == byte_len(text@),
{
    text.as_bytes().len()
}

/// Whether the bytes `start..start + len` of the text are whole characters of it.
pub fn can_slice(text: &str, start: usize, len: usize) -> (r: bool)
    ensures
        r == sliceable(text@, start as int, len as int),
{
    let total: usize = byte_count(text);
    if start > total || len > total - start {
        return false;
    }
    text.is_char_boundary(start) && text.is_char_boundary(start + len)
}

/// The bytes `start..start + len` of the text.
pub fn slice_bytes<'a>(text: &'a str, start: usize, len: usize) -> (r: &'a str)
    requires
        sliceable(text@, start as int, len as int),
    ensures
        r@ == byte_slice(text@, start as int, len as int),
{
    let ghost bytes = encode_utf8(text@);
    let _total: usize = byte_count(text);
    proof {
        encode_utf8_valid_utf8(text@);
    }
    let (head, _tail) = text.split_at(start + len);
    proof {
        let cut = bytes.subrange(0, start + len);
        encode_utf8_valid_utf8(head@);
        is_char_boundary_start_end_of_seq(cut);
        if len > 0 {
            is_char_boundary_iff_not_is_continuation_byte(bytes, start as int);
            is_char_boundary_iff_not_is_continuation_byte(cut, start as int);
        }
    }
    let (_before, part) = head.split_at(start);
    proof {
        assert(encode_utf8(part@) =~= bytes.subrange(start as int, start + len));
        encode_utf8_decode_utf8(part@);
    }
    part
}

// ---------------------------------------------------------------------------------------------
// Laws of searching and replacing

/// A text holds a pattern just where it is the pattern with something before and behind it.
pub proof fn law_contained_text_is_a_part(s: Seq<char>, pattern: Seq<char>)
    ensures
        contains_text(s, pattern) <==> exists|a: Seq<char>, b: Seq<char>| s == #[trigger] (a
            + pattern + b),
{
    if contains_text(s, pattern) {
        let i = choose|i: int| occurs_at(s, pattern, i);
        let a = s.take(i);
        let b = s.skip(i + pattern.len());
        assert(s =~= a + s.subrange(i, i + pattern.len()) + b);
        assert(s == a + pattern + b);
    }
    if exists|a: Seq<char>, b: Seq<char>| s == #[trigger] (a + pattern + b) {
        let (a, b) = choose|a: Seq<char>, b: Seq<char>| s == #[trigger] (a + pattern + b);
        assert(s.subrange(a.len() as int, (a.len() + pattern.len()) as int) =~= pattern);
        assert(occurs_at(s, pattern, a.len() as int));
    }
}

/// A text begins with what it was put behind, and ends with what was put behind it; and only then.
pub proof fn law_prefix_and_suffix(s: Seq<char>, part: Seq<char>)
    ensures
        has_prefix(s, part) <==> part.is_prefix_of(s),
        has_suffix(s, part) <==> part.is_suffix_of(s),
        has_prefix(part + s, part),
        has_suffix(s + part, part),
{
    assert((part + s).subrange(0, part.len() as int) =~= part);
    assert((s + part).subrange(s.len() as int, (s.len() + part.len()) as int) =~= part);
    if part.len() <= s.len() {
        assert(s.subrange(0, part.len() as int) =~= s.take(part.len() as int));
        assert(s.subrange(s.len() - part.len(), s.len() as int) =~= s.skip(s.len() - part.len()));
    }
}

/// Where the pattern is not there, replacing it changes nothing.
pub proof fn law_replacing_what_is_not_there_changes_nothing(
    s: Seq<char>,
    pattern: Seq<char>,
    replacement: Seq<char>,
)
    requires
        !contains_text(s, pattern),
    ensures
        replace_all(s, pattern, replacement) == s,
    decreases s.len(),
{
    if pattern.len() > 0 && s.len() >= pattern.len() {
        assert(!occurs_at(s, pattern, 0));
        let rest = s.drop_first();
        assert(!contains_text(rest, pattern)) by {
            if contains_text(rest, pattern) {
                let i = choose|i: int| occurs_at(rest, pattern, i);
                assert(s.subrange(i + 1, i + 1 + pattern.len()) =~= rest.subrange(
                    i,
                    i + pattern.len(),
                ));
                assert(occurs_at(s, pattern, i + 1));
            }
        }
        law_replacing_what_is_not_there_changes_nothing(rest, pattern, replacement);
        assert(s =~= seq![s[0]] + rest);
    }
}

/// The first occurrence of a pattern is replaced, what stands before it is kept, and what stands
/// behind it is replaced in turn.
pub proof fn law_each_occurrence_is_replaced(
    a: Seq<char>,
    b: Seq<char>,
    pattern: Seq<char>,
    replacement: Seq<char>,
)
    requires
        pattern.len() > 0,
        forall|i: int| 0 <= i < a.len() ==> !#[trigger] occurs_at(a + pattern + b, pattern, i),
    ensures
        replace_all(a + pattern + b, pattern, replacement) == a + replacement + replace_all(
            b,
            pattern,
            replacement,
        ),
    decreases a.len(),
{
    let s = a + pattern + b;
    if a.len() == 0 {
        assert(s.subrange(0, pattern.len() as int) =~= pattern);
        assert(s.skip(pattern.len() as int) =~= b);
        assert(a + replacement =~= replacement);
    } else {
        assert(!occurs_at(s, pattern, 0));
        let c = a.drop_first();
        let rest = c + pattern + b;
        assert(s.drop_first() =~= rest);
        assert forall|i: int| 0 <= i < c.len() implies !#[trigger] occurs_at(rest, pattern, i) by {
            assert(s.subrange(i + 1, i + 1 + pattern.len()) =~= rest.subrange(
                i,
                i + pattern.len(),
            ) || i + pattern.len() > rest.len());
            assert(!occurs_at(s, pattern, i + 1));
        }
        law_each_occurrence_is_replaced(c, b, pattern, replacement);
        assert(seq![s[0]] + (c + replacement + replace_all(b, pattern, replacement)) =~= a
            + replacement + replace_all(b, pattern, replacement));
    }
}

// ---------------------------------------------------------------------------------------------
// Laws of numbers

/// One more digit behind a run of digits makes its value ten times as large and adds the digit.
pub proof fn law_digits_are_read_from_the_left(digits: Seq<char>, c: char)
    requires
        '0' <= c <= '9',
    ensures
        digits_value(seq![]) == 0,
        digits_value(digits.push(c)) == 10 * digits_value(digits) + (c as int - '0' as int),
{
    assert(digits.push(c).drop_last() =~= digits);
}

/// A number is written in digits alone, without leading zeros, and reads back as itself, with and
/// without a plus sign before it. A negative one is written behind a minus sign.
pub proof fn law_numbers_read_back(n: u64, i: int)
    ensures
        unsigned_number(decimal(n as nat)) == Some(n),
        unsigned_number(seq!['+'] + decimal(n as nat)) == Some(n),
        n > 0 ==> decimal(n as nat)[0] != '0',
        n < 10 ==> decimal(n as nat).len() == 1,
        forall|k: int|
            0 <= k < decimal(n as nat).len() ==> '0' <= #[trigger] decimal(n as nat)[k] <= '9',
        i >= 0 ==> signed_decimal(i) == decimal(i as nat),
        i < 0 ==> signed_decimal(i) == seq!['-'] + decimal((-i) as nat),
{
    let s = decimal(n as nat);
    lemma_decimal_shape(n as nat);
    if n > 0 {
        lemma_no_leading_zero(n as nat);
    }
    assert(ascii_digit(s[0]));
    assert(without_plus(s) == s);
    assert((seq!['+'] + s).drop_first() =~= s);
}

proof fn lemma_no_leading_zero(n: nat)
    requires
        n > 0,
    ensures
        decimal(n).len() > 0,
        decimal(n)[0] != '0',
    decreases n,
{
    if n >= 10 {
        lemma_no_leading_zero(n / 10);
        assert(decimal(n)[0] == decimal(n / 10)[0]);
    } else {
        assert(decimal(n)[0] as nat == 48 + n);
    }
}

/// What is not a number is read as none: a text without digits, and one with any other character
/// behind the plus sign that it may begin with.
pub proof fn law_only_numbers_are_read(s: Seq<char>, k: int)
    ensures
        unsigned_number(seq![]) is None,
        unsigned_number(seq!['+']) is None,
        0 <= k < s.len() && !('0' <= s[k] <= '9') && !(k == 0 && s[k] == '+') ==> unsigned_number(
            s,
        ) is None,
        unsigned_number(s) matches Some(n) ==> digits_value(without_plus(s)) == n,
{
    assert(seq!['+'].drop_first() =~= Seq::<char>::empty());
    if 0 <= k < s.len() && !('0' <= s[k] <= '9') && !(k == 0 && s[k] == '+') {
        let digits = without_plus(s);
        if s[0] == '+' {
            assert(!ascii_digit(digits[k - 1]));
        } else {
            assert(!ascii_digit(digits[k]));
        }
    }
}

// ---------------------------------------------------------------------------------------------
// Laws of white space and words

/// Among the characters of ASCII just the space and those from the tabulator to the carriage return
/// are white space.
pub proof fn law_ascii_white_space(c: char)
    requires
        (c as u32) < 128,
    ensures
        white_space(c) <==> c == ' ' || c == '\t' || c == '\n' || c == '\r' || c as u32 == 11
            || c as u32 == 12,
{
}

/// Whether `s` is white space and nothing else.
pub open spec fn is_blank(s: Seq<char>) -> bool {
    forall|i: int| 0 <= i < s.len() ==> white_space(#[trigger] s[i])
}

/// Trimming takes white space off the ends and nothing else, and all of it: what is left neither
/// begins nor ends with white space, and was there between two stretches of it.
pub proof fn law_trimming_takes_just_white_space(s: Seq<char>)
    ensures
        trim(s).len() > 0 ==> !white_space(trim(s)[0]) && !white_space(trim(s).last()),
        exists|a: Seq<char>, b: Seq<char>|
            is_blank(a) && is_blank(b) && s == #[trigger] (a + trim(s) + b),
        exists|a: Seq<char>| is_blank(a) && s == #[trigger] (a + trim_start(s)),
        trim_start(s).len() > 0 ==> !white_space(trim_start(s)[0]),
        exists|b: Seq<char>| is_blank(b) && s == #[trigger] (trim_end(s) + b),
        trim_end(s).len() > 0 ==> !white_space(trim_end(s).last()),
{
    let a = lemma_trim_start_shape(s);
    let t = trim_start(s);
    let b = lemma_trim_end_shape(t);
    assert(s =~= a + trim(s) + b);
    let c = lemma_trim_end_shape(s);
    if trim(s).len() > 0 {
        assert(trim(s)[0] == t[0]);
    }
}

proof fn lemma_trim_start_shape(s: Seq<char>) -> (a: Seq<char>)
    ensures
        is_blank(a),
        s == a + trim_start(s),
        trim_start(s).len() > 0 ==> !white_space(trim_start(s)[0]),
    decreases s.len(),
{
    if s.len() > 0 && white_space(s[0]) {
        let rest = lemma_trim_start_shape(s.drop_first());
        let a = seq![s[0]] + rest;
        assert forall|i: int| 0 <= i < a.len() implies white_space(#[trigger] a[i]) by {
            if i > 0 {
                assert(a[i] == rest[i - 1]);
            }
        }
        assert(s =~= seq![s[0]] + (rest + trim_start(s)));
        assert(s =~= a + trim_start(s));
        a
    } else {
        assert(s =~= Seq::<char>::empty() + s);
        Seq::empty()
    }
}

proof fn lemma_trim_end_shape(s: Seq<char>) -> (b: Seq<char>)
    ensures
        is_blank(b),
        s == trim_end(s) + b,
        trim_end(s).len() > 0 ==> !white_space(trim_end(s).last()),
    decreases s.len(),
{
    if s.len() > 0 && white_space(s.last()) {
        let rest = lemma_trim_end_shape(s.drop_last());
        let b = rest.push(s.last());
        assert(s =~= (trim_end(s) + rest).push(s.last()));
        assert(s =~= trim_end(s) + b);
        b
    } else {
        assert(s =~= s + Seq::<char>::empty());
        Seq::empty()
    }
}

/// Whether `s` holds no white space.
pub open spec fn is_unbroken(s: Seq<char>) -> bool {
    forall|i: int| 0 <= i < s.len() ==> !white_space(#[trigger] s[i])
}

proof fn lemma_words_split(begun: Seq<char>, a: Seq<char>, c: char, b: Seq<char>)
    requires
        white_space(c),
    ensures
        words_from(begun, a + seq![c] + b) == words_from(begun, a) + words(b),
    decreases a.len(),
{
    let s = a + seq![c] + b;
    if a.len() == 0 {
        assert(s[0] == c);
        assert(s.drop_first() =~= b);
    } else {
        assert(s.drop_first() =~= a.drop_first() + seq![c] + b);
        assert(s[0] == a[0]);
        if white_space(a[0]) {
            lemma_words_split(seq![], a.drop_first(), c, b);
            assert(word_or_none(begun) + (words_from(seq![], a.drop_first()) + words(b)) =~=
                word_or_none(begun) + words_from(seq![], a.drop_first()) + words(b));
        } else {
            lemma_words_split(begun.push(a[0]), a.drop_first(), c, b);
        }
    }
}

proof fn lemma_word_is_whole(begun: Seq<char>, s: Seq<char>)
    requires
        is_unbroken(s),
    ensures
        words_from(begun, s) == word_or_none(begun + s),
    decreases s.len(),
{
    if s.len() == 0 {
        assert(begun + s =~= begun);
    } else {
        let rest = s.drop_first();
        assert forall|i: int| 0 <= i < rest.len() implies !white_space(#[trigger] rest[i]) by {
            assert(rest[i] == s[i + 1]);
        }
        assert(!white_space(s[0]));
        lemma_word_is_whole(begun.push(s[0]), rest);
        assert(begun.push(s[0]) + rest =~= begun + s);
    }
}

/// White space parts words and is in none: the words of two texts with white space between are
/// those of the one and then those of the other, and a text without white space is one word, or
/// none where it is empty.
pub proof fn law_white_space_parts_words(a: Seq<char>, c: char, b: Seq<char>)
    ensures
        white_space(c) ==> words(a + seq![c] + b) == words(a) + words(b),
        is_unbroken(a) && a.len() > 0 ==> words(a) == seq![a],
        words(seq![]).len() == 0,
{
    if white_space(c) {
        lemma_words_split(seq![], a, c, b);
    }
    if is_unbroken(a) && a.len() > 0 {
        lemma_word_is_whole(seq![], a);
        assert(Seq::<char>::empty() + a =~= a);
    }
}

/// Joined texts stand one behind the other with the separator between, however they are grouped.
pub proof fn law_joining_puts_the_separator_between(
    a: Seq<Seq<char>>,
    b: Seq<Seq<char>>,
    part: Seq<char>,
    separator: Seq<char>,
)
    ensures
        join(seq![], separator).len() == 0,
        join(seq![part], separator) == part,
        a.len() > 0 && b.len() > 0 ==> join(a + b, separator) == join(a, separator) + separator
            + join(b, separator),
    decreases b.len(),
{
    if a.len() > 0 && b.len() > 0 {
        assert((a + b).drop_last() =~= a + b.drop_last());
        assert((a + b).last() == b.last());
        if b.len() == 1 {
            assert(a + b.drop_last() =~= a);
        } else {
            law_joining_puts_the_separator_between(a, b.drop_last(), part, separator);
            assert(join(a, separator) + separator + join(b.drop_last(), separator) + separator
                + b.last() =~= join(a, separator) + separator + (join(b.drop_last(), separator)
                + separator + b.last()));
        }
    }
}

/// Collapsing leaves one space between words and none at the ends: the texts around a stretch of
/// white space are put one space apart, unless one of them holds no word.
pub proof fn law_collapsing_leaves_single_spaces(a: Seq<char>, c: char, b: Seq<char>)
    requires
        white_space(c),
    ensures
        collapsed(a + seq![c] + b) == if words(a).len() == 0 {
            collapsed(b)
        } else if words(b).len() == 0 {
            collapsed(a)
        } else {
            collapsed(a).push(' ') + collapsed(b)
        },
        is_unbroken(a) ==> collapsed(a) == a,
{
    law_white_space_parts_words(a, c, b);
    let x = words(a);
    let y = words(b);
    law_joining_puts_the_separator_between(x, y, a, seq![' ']);
    if x.len() == 0 {
        assert(x + y =~= y);
    } else if y.len() == 0 {
        assert(x + y =~= x);
    } else {
        assert(join(x, seq![' ']) + seq![' '] =~= join(x, seq![' ']).push(' '));
    }
    if is_unbroken(a) && a.len() == 0 {
        assert(a =~= Seq::<char>::empty());
    }
}

// ---------------------------------------------------------------------------------------------
// Laws of case and of bytes

/// Two texts are the same but for the case of their letters just where they are as long as each
/// other and each character is the same, or one is a capital of ASCII and the other its small
/// letter, which stands 32 behind it.
pub proof fn law_case_is_all_that_is_ignored(a: Seq<char>, b: Seq<char>)
    ensures
        same_ignoring_case(a, b) <==> a.len() == b.len() && forall|i: int|
            0 <= i < a.len() ==> #[trigger] a[i] == b[i] || ('A' <= a[i] <= 'Z' && b[i] as u32
                == a[i] as u32 + 32) || ('A' <= b[i] <= 'Z' && a[i] as u32 == b[i] as u32 + 32),
{
    if same_ignoring_case(a, b) {
        assert(a.len() == ascii_lower_text(a).len());
        assert(b.len() == ascii_lower_text(b).len());
        assert forall|i: int| 0 <= i < a.len() implies #[trigger] a[i] == b[i] || ('A' <= a[i]
            <= 'Z' && b[i] as u32 == a[i] as u32 + 32) || ('A' <= b[i] <= 'Z' && a[i] as u32
            == b[i] as u32 + 32) by {
            assert(ascii_lower_text(a)[i] == ascii_lower(a[i]));
            assert(ascii_lower_text(b)[i] == ascii_lower(b[i]));
        }
    }
    if a.len() == b.len() && forall|i: int|
        0 <= i < a.len() ==> #[trigger] a[i] == b[i] || ('A' <= a[i] <= 'Z' && b[i] as u32
            == a[i] as u32 + 32) || ('A' <= b[i] <= 'Z' && a[i] as u32 == b[i] as u32 + 32) {
        assert forall|i: int| 0 <= i < a.len() implies ascii_lower(a[i]) == ascii_lower(b[i]) by {
            assert(a[i] == a[i]);
        }
        assert(ascii_lower_text(a) =~= ascii_lower_text(b));
    }
}

/// The bytes of a part of a text, counted from its start, give back the part.
pub proof fn law_slices_are_parts(a: Seq<char>, part: Seq<char>, b: Seq<char>)
    ensures
        sliceable(a + part + b, byte_len(a) as int, byte_len(part) as int),
        byte_slice(a + part + b, byte_len(a) as int, byte_len(part) as int) == part,
{
    let s = a + part + b;
    lemma_encode_concat(a + part, b);
    lemma_encode_concat(a, part);
    lemma_encode_concat(part, b);
    lemma_encode_concat(a, part + b);
    assert(s =~= a + (part + b));
    let bytes = encode_utf8(s);
    let i = byte_len(a) as int;
    let j = i + byte_len(part);
    assert(bytes.subrange(i, j) =~= encode_utf8(part));
    encode_utf8_decode_utf8(part);
    lemma_boundary(a, part + b);
    lemma_boundary(a + part, b);
}

/// The encoding of two texts, one behind the other, is that of the one and then that of the other.
pub proof fn lemma_encode_concat(a: Seq<char>, b: Seq<char>)
    ensures
        encode_utf8(a + b) == encode_utf8(a) + encode_utf8(b),
    decreases a.len(),
{
    if a.len() == 0 {
        assert(a + b =~= b);
        assert(encode_utf8(a) + encode_utf8(b) =~= encode_utf8(b));
    } else {
        assert((a + b).drop_first() =~= a.drop_first() + b);
        lemma_encode_concat(a.drop_first(), b);
        assert(encode_utf8(a + b) =~= encode_utf8(a) + encode_utf8(b));
    }
}

/// The end of a text is a boundary of what it is followed by.
proof fn lemma_boundary(a: Seq<char>, b: Seq<char>)
    ensures
        is_char_boundary(encode_utf8(a + b), byte_len(a) as int),
{
    lemma_encode_concat(a, b);
    let bytes = encode_utf8(a + b);
    let i = byte_len(a) as int;
    encode_utf8_valid_utf8(a);
    encode_utf8_valid_utf8(b);
    encode_utf8_valid_utf8(a + b);
    is_char_boundary_start_end_of_seq(encode_utf8(b));
    is_char_boundary_start_end_of_seq(bytes);
    if 0 < i && i < bytes.len() {
        is_char_boundary_iff_not_is_continuation_byte(encode_utf8(b), 0);
        is_char_boundary_iff_not_is_continuation_byte(bytes, i);
        assert(bytes[i] == encode_utf8(b)[0]);
    }
}

// ---------------------------------------------------------------------------------------------
// Laws of the views

/// What stands for a string is its text, for each of a list in its place, and where there is none
/// there is none.
pub proof fn law_strings_stand_for_their_texts<T>(
    list: Seq<String>,
    s: String,
    slice: &str,
    value: T,
)
    ensures
        texts(list).len() == list.len(),
        forall|i: int| 0 <= i < list.len() ==> #[trigger] texts(list)[i] == list[i]@,
        text_view(Some(s)) == Some(s@),
        text_view(None) is None,
        slice_view(Some(slice)) == Some(slice@),
        slice_view(None) is None,
        message_view(Ok::<T, String>(value)) == Ok::<T, Seq<char>>(value),
        message_view(Err::<T, String>(s)) == Err::<T, Seq<char>>(s@),
{
}

/// Beyond ASCII just these characters are white space.
pub proof fn law_other_white_space(c: char)
    requires
        c as u32 >= 128,
    ensures
        white_space(c) <==> {
            let code = c as u32;
            ||| code == 0x85
            ||| code == 0xa0
            ||| code == 0x1680
            ||| 0x2000 <= code <= 0x200a
            ||| code == 0x2028
            ||| code == 0x2029
            ||| code == 0x202f
            ||| code == 0x205f
            ||| code == 0x3000
        },
{
}

/// The lower case of ASCII has each capital turned into its small letter, which stands 32 behind it,
/// and every other character as it is.
pub proof fn law_capitals_become_small_letters(s: Seq<char>, i: int)
    requires
        0 <= i < s.len(),
    ensures
        ascii_lower_text(s).len() == s.len(),
        'A' <= s[i] <= 'Z' ==> ascii_lower_text(s)[i] as u32 == s[i] as u32 + 32,
        !('A' <= s[i] <= 'Z') ==> ascii_lower_text(s)[i] == s[i],
{
}

} // verus!
