//! Source previews: the lines around a place in the source, with the place marked.
//!
//! Positions are byte offsets. The search for the surrounding block goes by the number of a
//! character, which is its byte offset wherever the text before it is ASCII.

use vstd::prelude::*;

use crate::diagnostics::span::Span;
use crate::scan::{begins, opt_text, pieces, split, texts};
use crate::text::{
    byte_count, byte_len, cat2, cat3, cat4, cat5, cat7, cat9, chars_of, dec, dec_text, owned,
    repeat_text, repeated, text_of, utf8_width, Text,
};

verus! {

// ---------------------------------------------------------------------------------------------
// Byte offsets
// ---------------------------------------------------------------------------------------------
/// How many characters of `s` end at or before the byte offset `b`.
pub open spec fn char_index(s: Text, b: nat) -> nat
    decreases s.len(),
{
    if s.len() == 0 || byte_len(s) <= b {
        s.len()
    } else {
        char_index(s.drop_last(), b)
    }
}

/// The part of `s` in front of the byte offset `b`.
pub open spec fn front(s: Text, b: nat) -> Text {
    s.take(char_index(s, b) as int)
}

/// The part of `s` from the byte offset `b` on.
pub open spec fn back(s: Text, b: nat) -> Text {
    s.skip(char_index(s, b) as int)
}

/// A character of `s` begins or `s` ends at the byte offset `b`.
pub open spec fn boundary(s: Text, b: nat) -> bool {
    byte_len(front(s, b)) == b
}

proof fn lemma_char_index_bound(s: Text, b: nat)
    ensures
        char_index(s, b) <= s.len(),
    decreases s.len(),
{
    if s.len() > 0 && byte_len(s) > b {
        lemma_char_index_bound(s.drop_last(), b);
    }
}

proof fn lemma_byte_len_grows(s: Text, n: int)
    requires
        0 <= n <= s.len(),
    ensures
        byte_len(s.take(n)) <= byte_len(s),
        n < s.len() ==> byte_len(s.take(n)) < byte_len(s),
    decreases s.len() - n,
{
    if n < s.len() {
        lemma_byte_len_grows(s, n + 1);
        assert(s.take(n + 1).drop_last() == s.take(n));
    } else {
        assert(s.take(n) == s);
    }
}

/// The number of characters that end at or before `b` is the one after which the next would pass it.
proof fn lemma_char_index_is(s: Text, b: nat, k: int)
    requires
        0 <= k <= s.len(),
        byte_len(s.take(k)) <= b,
        k < s.len() ==> byte_len(s.take(k + 1)) > b,
    ensures
        char_index(s, b) == k,
    decreases s.len(),
{
    if k == s.len() {
        assert(s.take(k) == s);
    } else {
        lemma_byte_len_grows(s, k + 1);
        let t = s.drop_last();
        assert(t.take(k) == s.take(k));
        if k < t.len() {
            assert(t.take(k + 1) == s.take(k + 1));
        }
        lemma_char_index_is(t, b, k);
    }
}

fn index_at(v: &Vec<char>, b: u128) -> (r: usize)
    ensures
        r as nat == char_index(v@, b as nat),
        r <= v.len(),
{
    let mut n: u128 = 0;
    let mut i: usize = 0;
    assert(v@.take(0) == Seq::<char>::empty());
    while i < v.len()
        invariant
            i <= v.len(),
            n as nat == byte_len(v@.take(i as int)),
            n <= b,
            n <= 4 * i,
        decreases v.len() - i,
    {
        let c = v[i] as u32;
        let w: u128 = if c < 0x80 {
            1
        } else if c < 0x800 {
            2
        } else if c < 0x10000 {
            3
        } else {
            4
        };
        assert(v@.take(i + 1).drop_last() == v@.take(i as int));
        if n + w > b {
            proof {
                lemma_char_index_is(v@, b as nat, i as int);
            }
            return i;
        }
        n = n + w;
        i += 1;
    }
    proof {
        lemma_char_index_is(v@, b as nat, i as int);
    }
    i
}

fn front_text(s: &str, b: u128) -> (r: String)
    ensures
        r@ == front(s@, b as nat),
{
    let v = chars_of(s);
    let k = index_at(&v, b);
    let r = text_of(&v, 0, k);
    assert(r@ == s@.take(k as int));
    r
}

fn back_text(s: &str, b: u128) -> (r: String)
    ensures
        r@ == back(s@, b as nat),
{
    let v = chars_of(s);
    let k = index_at(&v, b);
    let r = text_of(&v, k, v.len());
    assert(r@ == s@.skip(k as int));
    r
}

/// Whether a character of `s` begins or `s` ends at a byte offset.
pub fn is_boundary(s: &str, b: u128) -> (r: bool)
    ensures
        r == boundary(s@, b as nat),
{
    byte_count(&front_text(s, b)) == b
}

// ---------------------------------------------------------------------------------------------
// Lines
// ---------------------------------------------------------------------------------------------
/// How many line feeds `s` holds.
pub open spec fn line_feeds(s: Text) -> nat
    decreases s.len(),
{
    if s.len() == 0 {
        0
    } else if s.last() == '\n' {
        line_feeds(s.drop_last()) + 1
    } else {
        line_feeds(s.drop_last())
    }
}

fn count_line_feeds(s: &str) -> (r: u128)
    ensures
        r as nat == line_feeds(s@),
        r <= usize::MAX,
{
    let v = chars_of(s);
    let mut n: u128 = 0;
    let mut i: usize = 0;
    while i < v.len()
        invariant
            v@ == s@,
            i <= v.len(),
            n as nat == line_feeds(s@.take(i as int)),
            n <= i,
        decreases v.len() - i,
    {
        if v[i] == '\n' {
            n = n + 1;
        }
        assert(s@.take(i + 1).drop_last() == s@.take(i as int));
        i += 1;
    }
    assert(s@.take(i as int) == s@);
    n
}

/// The byte offset behind the last line feed of `s`.
pub open spec fn last_line_start(s: Text) -> nat
    decreases s.len(),
{
    if s.len() == 0 {
        0
    } else if s.last() == '\n' {
        byte_len(s)
    } else {
        last_line_start(s.drop_last())
    }
}

fn find_line_start(s: &str) -> (r: u128)
    ensures
        r as nat == last_line_start(s@),
        r <= 4 * usize::MAX,
{
    let v = chars_of(s);
    let mut i: usize = v.len();
    assert(s@.take(i as int) == s@);
    while i > 0
        invariant
            v@ == s@,
            i <= v.len(),
            last_line_start(s@) == last_line_start(s@.take(i as int)),
        decreases i,
    {
        if v[i - 1] == '\n' {
            let t = text_of(&v, 0, i);
            assert(t@ == s@.take(i as int));
            return byte_count(&t);
        }
        assert(s@.take(i as int).drop_last() == s@.take(i - 1));
        i -= 1;
    }
    0
}

/// How many bytes stand in front of the first line feed of `s`.
pub open spec fn line_rest(s: Text) -> nat
    decreases s.len(),
{
    if s.len() == 0 || s[0] == '\n' {
        0
    } else {
        utf8_width(s[0]) + line_rest(s.skip(1))
    }
}

fn find_line_rest(s: &str) -> (r: u128)
    ensures
        r as nat == line_rest(s@),
        r <= 4 * usize::MAX,
{
    let v = chars_of(s);
    let mut n: u128 = 0;
    let mut i: usize = 0;
    assert(s@.skip(0) == s@);
    while i < v.len() && v[i] != '\n'
        invariant
            v@ == s@,
            i <= v.len(),
            n <= 4 * i,
            line_rest(s@) == n + line_rest(s@.skip(i as int)),
        decreases v.len() - i,
    {
        let c = v[i] as u32;
        let w: u128 = if c < 0x80 {
            1
        } else if c < 0x800 {
            2
        } else if c < 0x10000 {
            3
        } else {
            4
        };
        assert(s@.skip(i as int).skip(1) == s@.skip(i + 1));
        n = n + w;
        i += 1;
    }
    n
}

/// `s` with spaces in front of it, so that it is at least four characters long.
pub open spec fn padded(s: Text) -> Text {
    if s.len() < 4 {
        repeated(" "@, (4 - s.len()) as nat) + s
    } else {
        s
    }
}

fn pad(s: &str) -> (r: String)
    ensures
        r@ == padded(s@),
{
    let n = chars_of(s).len();
    if n < 4 {
        cat2(&repeat_text(" ", 4 - n), s)
    } else {
        owned(s)
    }
}

// ---------------------------------------------------------------------------------------------
// The surrounding block
// ---------------------------------------------------------------------------------------------
/// The character with number `i`; zero where there is none.
pub open spec fn char_at(s: Text, i: nat) -> char {
    if i < s.len() {
        s[i as int]
    } else {
        '\0'
    }
}

fn char_or_zero(v: &Vec<char>, i: u128) -> (r: char)
    ensures
        r == char_at(v@, i as nat),
{
    if i < v.len() as u128 {
        v[i as usize]
    } else {
        '\0'
    }
}

/// Where the block begins that surrounds `pos`, `depth` closed blocks having been passed on the
/// way back: behind the first brace that opens a block that is not closed.
pub open spec fn block_start(s: Text, pos: nat, depth: nat) -> nat
    decreases pos,
{
    if pos == 0 {
        0
    } else {
        let c = char_at(s, (pos - 1) as nat);
        if c == '}' {
            block_start(s, (pos - 1) as nat, depth + 1)
        } else if c == '{' {
            if depth == 0 {
                pos
            } else {
                block_start(s, (pos - 1) as nat, (depth - 1) as nat)
            }
        } else {
            block_start(s, (pos - 1) as nat, depth)
        }
    }
}

/// Where a block ends that begins at or behind `pos`, `depth` blocks being open and `opened`
/// telling whether one was opened on the way: behind the brace that closes the last one.
pub open spec fn block_end(s: Text, pos: nat, depth: int, opened: bool) -> nat
    decreases byte_len(s) - pos,
{
    if pos >= byte_len(s) {
        pos
    } else {
        let c = char_at(s, pos);
        if c == '{' {
            block_end(s, pos + 1, depth + 1, true)
        } else if c == '}' {
            if opened && depth - 1 <= 0 {
                pos + 1
            } else {
                block_end(s, pos + 1, depth - 1, opened)
            }
        } else {
            block_end(s, pos + 1, depth, opened)
        }
    }
}

fn find_block_start(v: &Vec<char>, from: u128) -> (r: u128)
    requires
        from <= 4 * usize::MAX,
    ensures
        r as nat == block_start(v@, from as nat, 0),
        r <= from,
{
    let mut pos: u128 = from;
    let mut depth: u128 = 0;
    while pos > 0
        invariant
            pos <= from,
            from <= 4 * usize::MAX,
            depth <= from - pos,
            block_start(v@, from as nat, 0) == block_start(v@, pos as nat, depth as nat),
        decreases pos,
    {
        let c = char_or_zero(v, pos - 1);
        if c == '}' {
            depth = depth + 1;
        } else if c == '{' {
            if depth == 0 {
                return pos;
            }
            depth = depth - 1;
        }
        pos = pos - 1;
    }
    pos
}

fn find_block_end(v: &Vec<char>, len: u128, from: u128) -> (r: u128)
    requires
        len as nat == byte_len(v@),
        len <= 4 * usize::MAX,
        from <= len,
    ensures
        r as nat == block_end(v@, from as nat, 0, false),
        r <= len,
{
    let mut pos: u128 = from;
    let mut depth: i128 = 0;
    let mut opened = false;
    while pos < len
        invariant
            from <= pos <= len,
            len as nat == byte_len(v@),
            len <= 4 * usize::MAX,
            -(pos - from) <= depth <= pos - from,
            block_end(v@, from as nat, 0, false) == block_end(v@, pos as nat, depth as int, opened),
        decreases len - pos,
    {
        let c = char_or_zero(v, pos);
        if c == '{' {
            opened = true;
            depth = depth + 1;
        } else if c == '}' {
            depth = depth - 1;
            if opened && depth <= 0 {
                return pos + 1;
            }
        }
        pos = pos + 1;
    }
    pos
}

// ---------------------------------------------------------------------------------------------
// The preview of an error
// ---------------------------------------------------------------------------------------------
/// The smaller of two numbers.
pub open spec fn at_most(a: nat, b: nat) -> nat {
    if a <= b {
        a
    } else {
        b
    }
}

/// `a - b`, or zero where `b` is larger.
pub open spec fn less(a: nat, b: nat) -> nat {
    if a >= b {
        (a - b) as nat
    } else {
        0
    }
}

/// Where the block begins that an error preview shows.
pub open spec fn shown_from(src: Text, span: Span) -> nat {
    block_start(src, at_most(span.start as nat, byte_len(src)), 0)
}

/// Where the block ends that an error preview shows.
pub open spec fn shown_to(src: Text, span: Span) -> nat {
    block_end(src, at_most(span.end as nat, byte_len(src)), 0, false)
}

/// The places that an error preview cuts the source at are between characters, in order.
pub open spec fn error_cuts(src: Text, span: Span) -> bool {
    &&& span.start <= byte_len(src)
    &&& boundary(src, span.start as nat)
    &&& boundary(src, shown_from(src, span))
    &&& boundary(src, shown_to(src, span))
    &&& shown_from(src, span) <= shown_to(src, span)
}

/// Whether an error at that place can be shown in that source.
pub fn error_can_be_shown(src: &str, span: Span) -> (r: bool)
    ensures
        r == error_cuts(src@, span),
{
    let v = chars_of(src);
    let len = byte_count(src);
    if span.start as u128 > len {
        return false;
    }
    let to: u128 = if span.end as u128 <= len {
        span.end as u128
    } else {
        len
    };
    let a = find_block_start(&v, span.start as u128);
    let b = find_block_end(&v, len, to);
    is_boundary(src, span.start as u128) && is_boundary(src, a) && is_boundary(src, b) && a <= b
}

/// The block that an error preview shows.
pub open spec fn shown_block(src: Text, span: Span) -> Text {
    src.subrange(
        char_index(src, shown_from(src, span)) as int,
        char_index(src, shown_to(src, span)) as int,
    )
}

/// The line of a block, from the line with number `i` on, that holds the byte `at`; `pos` is where
/// that line begins. The first line stands for a byte that no line holds.
pub open spec fn line_with(lines: Seq<Text>, i: nat, pos: nat, at: nat) -> nat
    decreases lines.len() - i,
{
    if i >= lines.len() {
        0
    } else if at < pos + byte_len(lines[i as int]) + 1 {
        i
    } else {
        line_with(lines, i + 1, pos + byte_len(lines[i as int]) + 1, at)
    }
}

/// How long the mark under a line is: from the column of the place to its end or to the end of the
/// line, and at least one.
pub open spec fn mark_len(from: nat, to: nat, line_len: nat) -> nat {
    if at_most(to, line_len) > from {
        (at_most(to, line_len) - from) as nat
    } else {
        1
    }
}

/// The mark under a line.
pub open spec fn mark_line(colour: Text, column: nat, len: nat) -> Text {
    "   \x1b[1;34m|\x1b[0m "@ + repeated(" "@, column) + colour + repeated("^"@, len) + "\x1b[0m\n"@
}

/// A source line with its number.
pub open spec fn numbered_line(n: nat, line: Text) -> Text {
    " "@ + padded(dec(n)) + " \x1b[1;34m|\x1b[0m "@ + line + "\n"@
}

/// The first `n` lines of a block, numbered from `first` on, with the mark under the marked one.
pub open spec fn shown_lines(lines: Seq<Text>, n: nat, first: nat, marked: nat, mark: Text) -> Text
    decreases n,
{
    if n == 0 || n > lines.len() {
        ""@
    } else {
        let before = shown_lines(lines, (n - 1) as nat, first, marked, mark);
        let i = (n - 1) as nat;
        if i == marked {
            before + numbered_line(first + i, lines[i as int]) + mark
        } else {
            before + numbered_line(first + i, lines[i as int])
        }
    }
}

/// The line between the parts of a preview.
pub open spec fn bar() -> Text {
    "   \x1b[1;34m|\x1b[0m\n"@
}

/// The file of an error with the place in it.
pub open spec fn error_place(file: Option<Text>, line: nat, column: nat) -> Text {
    match file {
        Some(name) => "  \x1b[1;34mfile\x1b[0m: "@ + name + "\n  \x1b[1;34m-->\x1b[0m "@ + name + ":"@
            + dec(line) + ":"@ + dec(column) + "\n"@,
        None => ""@,
    }
}

/// The preview of an error: its place, and the block around it with the place marked.
pub open spec fn error_preview(src: Text, span: Span, file: Option<Text>) -> Text {
    let from = shown_from(src, span);
    let lines = pieces(shown_block(src, span), "\n"@);
    let first = line_feeds(front(src, from)) + 1;
    let marked = line_with(lines, 0, from, span.start as nat);
    let line_start = last_line_start(front(src, span.start as nat));
    let line_end = span.start as nat + line_rest(back(src, span.start as nat));
    let column = less(span.start as nat, line_start);
    let len = mark_len(column, less(span.end as nat, line_start), less(line_end, line_start));
    error_place(file, first + marked, column + 1) + bar() + shown_lines(
        lines,
        lines.len(),
        first,
        marked,
        mark_line("\x1b[1;31m"@, column, len),
    ) + bar()
}

fn sub_or_zero(a: u128, b: u128) -> (r: u128)
    ensures
        r as nat == less(a as nat, b as nat),
{
    if a >= b {
        a - b
    } else {
        0
    }
}

fn repeat_wide(unit: &str, n: u128) -> (r: String)
    ensures
        r@ == repeated(unit@, n as nat),
{
    let mut r = owned("");
    let mut i: u128 = 0;
    while i < n
        invariant
            i <= n,
            r@ == repeated(unit@, i as nat),
        decreases n - i,
    {
        r.append(unit);
        i = i + 1;
    }
    r
}

fn find_mark_len(from: u128, to: u128, line_len: u128) -> (r: u128)
    ensures
        r as nat == mark_len(from as nat, to as nat, line_len as nat),
{
    let end: u128 = if to <= line_len {
        to
    } else {
        line_len
    };
    if end > from {
        end - from
    } else {
        1
    }
}

fn mark_text(colour: &str, column: u128, len: u128) -> (r: String)
    ensures
        r@ == mark_line(colour@, column as nat, len as nat),
{
    cat5(
        "   \x1b[1;34m|\x1b[0m ",
        &repeat_wide(" ", column),
        colour,
        &repeat_wide("^", len),
        "\x1b[0m\n",
    )
}

fn numbered_text(n: u128, line: &str) -> (r: String)
    ensures
        r@ == numbered_line(n as nat, line@),
{
    cat5(" ", &pad(&dec_text(n)), " \x1b[1;34m|\x1b[0m ", line, "\n")
}

fn find_line_with(lines: &Vec<String>, from: u128, at: u128) -> (r: usize)
    requires
        from <= 4 * usize::MAX,
        at <= 4 * usize::MAX,
    ensures
        r as nat == line_with(texts(lines@), 0, from as nat, at as nat),
        lines@.len() > 0 ==> r < lines@.len(),
{
    let mut pos: u128 = from;
    let mut i: usize = 0;
    while i < lines.len()
        invariant
            i <= lines@.len(),
            from <= 4 * usize::MAX,
            at <= 4 * usize::MAX,
            pos <= from || pos <= at,
            line_with(texts(lines@), 0, from as nat, at as nat) == line_with(
                texts(lines@),
                i as nat,
                pos as nat,
                at as nat,
            ),
        decreases lines.len() - i,
    {
        assert(texts(lines@)[i as int] == lines@[i as int]@);
        let n = byte_count(&lines[i]);
        if at < pos + n + 1 {
            return i;
        }
        pos = pos + n + 1;
        i += 1;
    }
    0
}

fn line_texts(lines: &Vec<String>, first: u128, marked: usize, mark: &str) -> (r: String)
    requires
        first <= usize::MAX + 1,
    ensures
        r@ == shown_lines(texts(lines@), lines@.len(), first as nat, marked as nat, mark@),
{
    let mut r = owned("");
    let mut i: usize = 0;
    while i < lines.len()
        invariant
            i <= lines@.len(),
            first <= usize::MAX + 1,
            r@ == shown_lines(texts(lines@), i as nat, first as nat, marked as nat, mark@),
        decreases lines.len() - i,
    {
        assert(texts(lines@)[i as int] == lines@[i as int]@);
        let line = numbered_text(first + i as u128, &lines[i]);
        if i == marked {
            r = cat3(&r, &line, mark);
        } else {
            r = cat2(&r, &line);
        }
        i += 1;
    }
    r
}

fn place_text(file: &Option<String>, line: u128, column: u128) -> (r: String)
    ensures
        r@ == error_place(opt_text(*file), line as nat, column as nat),
{
    match file {
        Some(name) => cat9(
            "  \x1b[1;34mfile\x1b[0m: ",
            name,
            "\n  \x1b[1;34m-->\x1b[0m ",
            name,
            ":",
            &dec_text(line),
            ":",
            &dec_text(column),
            "\n",
        ),
        None => owned(""),
    }
}

/// The preview of an error.
pub fn preview_error(src: &str, span: Span, file: &Option<String>) -> (r: String)
    requires
        error_cuts(src@, span),
    ensures
        r@ == error_preview(src@, span, opt_text(*file)),
{
    let v = chars_of(src);
    let len = byte_count(src);
    let at = span.start as u128;
    let to: u128 = if span.end as u128 <= len {
        span.end as u128
    } else {
        len
    };
    let a = find_block_start(&v, at);
    let b = find_block_end(&v, len, to);
    let from = index_at(&v, a);
    let until = index_at(&v, b);
    proof {
        lemma_char_index_grows(src@, a as nat, b as nat);
        reveal_strlit("\n");
    }
    let block = text_of(&v, from, until);
    let lines = split(&block, "\n");
    let first = count_line_feeds(&front_text(src, a)) + 1;
    let marked = find_line_with(&lines, a, at);
    let line_start = find_line_start(&front_text(src, at));
    let line_end = at + find_line_rest(&back_text(src, at));
    let column = sub_or_zero(at, line_start);
    let len = find_mark_len(
        column,
        sub_or_zero(span.end as u128, line_start),
        sub_or_zero(line_end, line_start),
    );
    let place = place_text(file, first + marked as u128, column + 1);
    let mark = mark_text("\x1b[1;31m", column, len);
    let shown = line_texts(&lines, first, marked, &mark);
    cat4(&place, "   \x1b[1;34m|\x1b[0m\n", &shown, "   \x1b[1;34m|\x1b[0m\n")
}

proof fn lemma_char_index_grows(s: Text, a: nat, b: nat)
    requires
        a <= b,
    ensures
        char_index(s, a) <= char_index(s, b) <= s.len(),
    decreases s.len(),
{
    lemma_char_index_bound(s, a);
    lemma_char_index_bound(s, b);
    if s.len() > 0 && byte_len(s) > b {
        lemma_char_index_grows(s.drop_last(), a, b);
    }
}

// ---------------------------------------------------------------------------------------------
// The preview of a warning
// ---------------------------------------------------------------------------------------------
/// Where a warning preview begins to look at the source.
pub open spec fn warned_at(src: Text, span: Span) -> nat {
    at_most(span.start as nat, byte_len(src))
}

/// The place that a warning preview cuts the source at is between characters.
pub open spec fn warning_cuts(src: Text, span: Span) -> bool {
    boundary(src, warned_at(src, span))
}

/// Whether a warning at that place can be shown in that source.
pub fn warning_can_be_shown(src: &str, span: Span) -> (r: bool)
    ensures
        r == warning_cuts(src@, span),
{
    let len = byte_count(src);
    let at: u128 = if span.start as u128 <= len {
        span.start as u128
    } else {
        len
    };
    is_boundary(src, at)
}

/// The file of a warning with the place in it.
pub open spec fn warning_place(file: Option<Text>, line: nat, column: nat) -> Text {
    match file {
        Some(name) => "  \x1b[1;34m-->\x1b[0m "@ + name + ":"@ + dec(line) + ":"@ + dec(column) + "\n"@,
        None => ""@,
    }
}

/// The preview of a warning: its place, and the line of the place with the place marked.
pub open spec fn warning_preview(src: Text, span: Span, file: Option<Text>) -> Text {
    let at = warned_at(src, span);
    let line_start = last_line_start(front(src, at));
    let line_end = at + line_rest(back(src, at));
    let n = line_feeds(front(src, line_start)) + 1;
    let column = less(at, line_start);
    let line = src.subrange(char_index(src, line_start) as int, char_index(src, line_end) as int);
    let len = mark_len(column, less(span.end as nat, line_start), less(line_end, line_start));
    warning_place(file, n, column + 1) + bar() + numbered_line(n, line) + mark_line(
        "\x1b[1;33m"@,
        column,
        len,
    ) + bar()
}

proof fn lemma_line_start_bound(s: Text)
    ensures
        last_line_start(s) <= byte_len(s),
    decreases s.len(),
{
    if s.len() > 0 && s.last() != '\n' {
        lemma_line_start_bound(s.drop_last());
    }
}

proof fn lemma_front_bound(s: Text, b: nat)
    ensures
        byte_len(front(s, b)) <= b,
    decreases s.len(),
{
    lemma_char_index_bound(s, b);
    if s.len() > 0 && byte_len(s) > b {
        lemma_front_bound(s.drop_last(), b);
        lemma_char_index_bound(s.drop_last(), b);
        assert(front(s, b) == front(s.drop_last(), b));
    } else {
        assert(s.take(s.len() as int) == s);
    }
}

/// The preview of a warning.
pub fn preview_warning(src: &str, span: Span, file: &Option<String>) -> (r: String)
    requires
        warning_cuts(src@, span),
    ensures
        r@ == warning_preview(src@, span, opt_text(*file)),
{
    let v = chars_of(src);
    let len = byte_count(src);
    let at: u128 = if span.start as u128 <= len {
        span.start as u128
    } else {
        len
    };
    let line_start = find_line_start(&front_text(src, at));
    proof {
        lemma_line_start_bound(front(src@, at as nat));
        lemma_front_bound(src@, at as nat);
        lemma_char_index_grows(
            src@,
            line_start as nat,
            (at as nat) + line_rest(back(src@, at as nat)),
        );
    }
    let line_end = at + find_line_rest(&back_text(src, at));
    let n = count_line_feeds(&front_text(src, line_start)) + 1;
    let column = sub_or_zero(at, line_start);
    let from = index_at(&v, line_start);
    let until = index_at(&v, line_end);
    let line = text_of(&v, from, until);
    let len = find_mark_len(
        column,
        sub_or_zero(span.end as u128, line_start),
        sub_or_zero(line_end, line_start),
    );
    let place = match file {
        Some(name) => cat7(
            "  \x1b[1;34m-->\x1b[0m ",
            name,
            ":",
            &dec_text(n),
            ":",
            &dec_text(column + 1),
            "\n",
        ),
        None => owned(""),
    };
    let mark = mark_text("\x1b[1;33m", column, len);
    cat5(
        &place,
        "   \x1b[1;34m|\x1b[0m\n",
        &numbered_text(n, &line),
        &mark,
        "   \x1b[1;34m|\x1b[0m\n",
    )
}

// ---------------------------------------------------------------------------------------------
// Places
// ---------------------------------------------------------------------------------------------
/// A text without a line feed.
pub open spec fn unbroken(s: Text) -> bool {
    forall|i: int| 0 <= i < s.len() ==> #[trigger] s[i] != '\n'
}

/// How many line feeds stand in a text.
pub open spec fn breaks(s: Text) -> nat {
    s.filter(|c: char| c == '\n').len()
}

proof fn lemma_breaks_counted(s: Text)
    ensures
        line_feeds(s) == breaks(s),
    decreases s.len(),
{
    reveal(Seq::filter);
    if s.len() > 0 {
        lemma_breaks_counted(s.drop_last());
    }
}

proof fn lemma_byte_len_cat(a: Text, b: Text)
    ensures
        byte_len(a + b) == byte_len(a) + byte_len(b),
    decreases b.len(),
{
    if b.len() == 0 {
        assert(a + b == a);
    } else {
        lemma_byte_len_cat(a, b.drop_last());
        assert((a + b).drop_last() == a + b.drop_last());
    }
}

proof fn lemma_front_is(a: Text, b: Text)
    ensures
        char_index(a + b, byte_len(a)) == a.len(),
        front(a + b, byte_len(a)) == a,
        back(a + b, byte_len(a)) == b,
{
    let s = a + b;
    let k = a.len() as int;
    assert(s.take(k) == a);
    if k < s.len() {
        lemma_byte_len_grows(s.take(k + 1), k);
        assert(s.take(k + 1).take(k) == a);
    }
    lemma_char_index_is(s, byte_len(a), k);
    assert(s.skip(k) == b);
}

proof fn lemma_line_begins(before: Text, line: Text)
    requires
        before.len() == 0 || before.last() == '\n',
        unbroken(line),
    ensures
        last_line_start(before + line) == byte_len(before),
    decreases line.len(),
{
    let s = before + line;
    if line.len() == 0 {
        assert(s == before);
    } else {
        assert(s.last() == line[line.len() - 1]);
        assert(s.drop_last() == before + line.drop_last());
        lemma_line_begins(before, line.drop_last());
    }
}

proof fn lemma_line_ends(tail: Text, rest: Text)
    requires
        unbroken(tail),
        rest.len() == 0 || rest[0] == '\n',
    ensures
        line_rest(tail + rest) == byte_len(tail),
    decreases tail.len(),
{
    let s = tail + rest;
    if tail.len() == 0 {
        assert(s == rest);
    } else {
        assert(s[0] == tail[0]);
        assert(s.skip(1) == tail.skip(1) + rest);
        lemma_line_ends(tail.skip(1), rest);
        let head = seq![tail[0]];
        assert(tail == head + tail.skip(1));
        lemma_byte_len_cat(head, tail.skip(1));
        assert(head.drop_last() == Seq::<char>::empty());
        assert(byte_len(head.drop_last()) == 0);
        assert(byte_len(head) == utf8_width(tail[0]));
    }
}

/// A warning is shown with the number of its line, one more than the line feeds in front of it, and with its column, one
/// more than the bytes of the line in front of it. Under the whole line stands a mark that begins under the place and
/// ends with it, or with the line.
pub proof fn lemma_warning_is_placed(
    before: Text,
    line: Text,
    tail: Text,
    rest: Text,
    span: Span,
    name: Text,
)
    requires
        before.len() == 0 || before.last() == '\n',
        unbroken(line),
        unbroken(tail),
        rest.len() == 0 || rest[0] == '\n',
        span.start == byte_len(before) + byte_len(line),
        span.end >= byte_len(before),
    ensures
        ({
            let src = before + line + tail + rest;
            let number = dec(breaks(before) + 1);
            let end = span.end - byte_len(before);
            let stop = if end <= byte_len(line) + byte_len(tail) {
                end
            } else {
                (byte_len(line) + byte_len(tail)) as int
            };
            let len = if stop > byte_len(line) {
                stop - byte_len(line)
            } else {
                1
            };
            let blank = if number.len() < 4 {
                repeated(" "@, (4 - number.len()) as nat)
            } else {
                ""@
            };
            warning_preview(src, span, Some(name)) == "  \x1b[1;34m-->\x1b[0m "@ + name + ":"@ + number + ":"@ + dec(
                byte_len(line) + 1,
            ) + "\n"@ + "   \x1b[1;34m|\x1b[0m\n"@ + (" "@ + (blank + number) + " \x1b[1;34m|\x1b[0m "@ + (line + tail)
                + "\n"@) + ("   \x1b[1;34m|\x1b[0m "@ + repeated(" "@, byte_len(line)) + "\x1b[1;33m"@ + repeated(
                "^"@,
                len as nat,
            ) + "\x1b[0m\n"@) + "   \x1b[1;34m|\x1b[0m\n"@
        }),
{
    let src = before + line + tail + rest;
    let at = span.start as nat;
    reveal_strlit("");
    lemma_byte_len_cat(before, line);
    lemma_byte_len_cat(before + line, tail);
    lemma_byte_len_cat(line, tail);
    lemma_byte_len_cat(before + line, tail + rest);
    lemma_byte_len_cat(before + line + tail, rest);
    assert(src == (before + line) + (tail + rest));
    assert(src == before + (line + tail + rest));
    assert(src == (before + line + tail) + rest);
    lemma_front_is(before + line, tail + rest);
    lemma_front_is(before, line + tail + rest);
    lemma_front_is(before + line + tail, rest);
    lemma_line_begins(before, line);
    lemma_line_ends(tail, rest);
    lemma_breaks_counted(before);
    assert(warned_at(src, span) == at);
    assert(src.subrange(before.len() as int, (before + line + tail).len() as int) == line + tail);
    let number = dec(breaks(before) + 1);
    assert(""@ + number == number);
}

/// An error is shown with its column, one more than the bytes of the line in front of it.
pub proof fn lemma_error_column(before: Text, line: Text, rest: Text, span: Span, name: Text)
    requires
        before.len() == 0 || before.last() == '\n',
        unbroken(line),
        span.start == byte_len(before) + byte_len(line),
    ensures
        exists|number: nat|
            begins(
                error_preview(before + line + rest, span, Some(name)),
                "  \x1b[1;34mfile\x1b[0m: "@ + name + "\n  \x1b[1;34m-->\x1b[0m "@ + name + ":"@ + #[trigger] dec(number)
                    + ":"@ + dec(byte_len(line) + 1) + "\n"@,
            ),
{
    let src = before + line + rest;
    lemma_byte_len_cat(before, line);
    lemma_front_is(before + line, rest);
    lemma_line_begins(before, line);
    let from = shown_from(src, span);
    let lines = pieces(shown_block(src, span), "\n"@);
    let number = line_feeds(front(src, from)) + 1 + line_with(lines, 0, from, span.start as nat);
    let column = byte_len(line);
    assert(last_line_start(front(src, span.start as nat)) == byte_len(before));
    let place = error_place(Some(name), number, column + 1);
    let line_end = span.start as nat + line_rest(back(src, span.start as nat));
    let len = mark_len(column, less(span.end as nat, byte_len(before)), less(line_end, byte_len(before)));
    let shown = shown_lines(
        lines,
        lines.len(),
        line_feeds(front(src, from)) + 1,
        line_with(lines, 0, from, span.start as nat),
        mark_line("\x1b[1;31m"@, column, len),
    );
    let all = error_preview(src, span, Some(name));
    assert(all == place + bar() + shown + bar());
    assert(all.take(place.len() as int) == place);
    assert(dec(number) == dec(number));
}

/// How many more braces open than close between two places.
pub open spec fn opened_between(s: Text, a: nat, b: nat) -> int
    decreases b,
{
    if a >= b {
        0
    } else {
        opened_between(s, a, (b - 1) as nat) + (if char_at(s, (b - 1) as nat) == '{' {
            1int
        } else if char_at(s, (b - 1) as nat) == '}' {
            -1
        } else {
            0
        })
    }
}

/// The block around a place begins behind the last brace that opens more than is closed up to the place; where there is
/// none, at the start.
pub proof fn lemma_block_begins(s: Text, pos: nat, depth: nat)
    ensures
        ({
            let b = block_start(s, pos, depth);
            &&& b <= pos
            &&& forall|a: nat| b <= a <= pos ==> #[trigger] opened_between(s, a, pos) <= depth
            &&& b > 0 ==> char_at(s, (b - 1) as nat) == '{' && opened_between(s, (b - 1) as nat, pos) == depth + 1
        }),
    decreases pos,
{
    let b = block_start(s, pos, depth);
    if pos > 0 {
        let before = (pos - 1) as nat;
        let c = char_at(s, before);
        let d: nat = if c == '}' {
            depth + 1
        } else if c == '{' && depth > 0 {
            (depth - 1) as nat
        } else {
            depth
        };
        if c == '{' && depth == 0 {
            assert(opened_between(s, before, before) == 0);
            assert(opened_between(s, pos, pos) == 0);
        } else {
            lemma_block_begins(s, before, d);
            assert forall|a: nat| b <= a <= pos implies #[trigger] opened_between(s, a, pos) <= depth by {
                if a < pos {
                    assert(opened_between(s, a, before) <= d);
                }
            }
            if b > 0 {
                assert(opened_between(s, (b - 1) as nat, before) == d + 1);
            }
        }
    }
}

} // verus!
