//! Searching, cutting and rewriting text.

use vstd::prelude::*;

use crate::text::{alphanumeric, cat3, chars_of, dec, digit, is_alphanumeric, text_of, Text};

verus! {

// ---------------------------------------------------------------------------------------------
// Prefixes and suffixes
// ---------------------------------------------------------------------------------------------
/// `s` begins with `p`.
pub open spec fn begins(s: Text, p: Text) -> bool {
    s.len() >= p.len() && s.take(p.len() as int) == p
}

/// `s` ends with `p`.
pub open spec fn ends(s: Text, p: Text) -> bool {
    s.len() >= p.len() && s.skip(s.len() - p.len()) == p
}

/// What is left of `s` behind the prefix `p`.
pub open spec fn behind(s: Text, p: Text) -> Option<Text> {
    if begins(s, p) {
        Some(s.skip(p.len() as int))
    } else {
        None
    }
}

/// What is left of `s` in front of the suffix `p`.
pub open spec fn in_front(s: Text, p: Text) -> Option<Text> {
    if ends(s, p) {
        Some(s.take(s.len() - p.len()))
    } else {
        None
    }
}

/// What a beginning begins with, the whole begins with.
pub proof fn lemma_begins_longer(a: Text, b: Text, c: Text)
    requires
        begins(b, a),
        begins(c, b),
    ensures
        begins(c, a),
{
    assert(c.take(a.len() as int) == b.take(a.len() as int));
}

/// A text begins with what something was put behind.
pub proof fn lemma_begins_appended(a: Text, b: Text)
    ensures
        begins(a + b, a),
{
    assert((a + b).take(a.len() as int) == a);
}

/// A text begins with itself.
pub proof fn lemma_begins_same(a: Text)
    ensures
        begins(a, a),
{
    assert(a.take(a.len() as int) == a);
}

/// An optional `String` as optional text.
pub open spec fn opt_text(o: Option<String>) -> Option<Text> {
    match o {
        Some(s) => Some(s@),
        None => None,
    }
}

/// Whether `p` stands in `v` at `at`.
fn stands_at(v: &Vec<char>, p: &Vec<char>, at: usize) -> (r: bool)
    ensures
        r == occurs_at(v@, p@, at as int),
{
    if at > v.len() || p.len() > v.len() - at {
        return false;
    }
    let mut i: usize = 0;
    while i < p.len()
        invariant
            at <= v.len(),
            p.len() <= v.len() - at,
            i <= p.len(),
            forall|j: int| 0 <= j < i ==> v@[at + j] == p@[j],
        decreases p.len() - i,
    {
        if v[at + i] != p[i] {
            assert(v@.subrange(at as int, at + p@.len())[i as int] != p@[i as int]);
            return false;
        }
        i += 1;
    }
    assert(v@.subrange(at as int, at + p@.len()) == p@);
    true
}

/// Computes [`begins`].
pub fn starts_with(s: &str, p: &str) -> (r: bool)
    ensures
        r == begins(s@, p@),
{
    let v = chars_of(s);
    let q = chars_of(p);
    stands_at(&v, &q, 0)
}

/// Computes [`ends`].
pub fn ends_with(s: &str, p: &str) -> (r: bool)
    ensures
        r == ends(s@, p@),
{
    let v = chars_of(s);
    let q = chars_of(p);
    if q.len() > v.len() {
        return false;
    }
    proof {
        assert(s@.skip(s@.len() - p@.len()) == s@.subrange(s@.len() - p@.len(), s@.len() as int));
    }
    stands_at(&v, &q, v.len() - q.len())
}

/// Computes [`behind`].
pub fn strip_prefix(s: &str, p: &str) -> (r: Option<String>)
    ensures
        opt_text(r) == behind(s@, p@),
{
    let v = chars_of(s);
    let q = chars_of(p);
    if stands_at(&v, &q, 0) {
        let rest = text_of(&v, q.len(), v.len());
        assert(rest@ == s@.skip(p@.len() as int));
        Some(rest)
    } else {
        None
    }
}

/// Computes [`in_front`].
pub fn strip_suffix(s: &str, p: &str) -> (r: Option<String>)
    ensures
        opt_text(r) == in_front(s@, p@),
{
    if ends_with(s, p) {
        let v = chars_of(s);
        let q = chars_of(p);
        let rest = text_of(&v, 0, v.len() - q.len());
        assert(rest@ == s@.take(s@.len() - p@.len()));
        Some(rest)
    } else {
        None
    }
}

/// `s` without any leading copies of `p`, which is not empty.
pub open spec fn trimmed_start(s: Text, p: Text) -> Text
    decreases s.len(),
{
    if p.len() > 0 && begins(s, p) {
        trimmed_start(s.skip(p.len() as int), p)
    } else {
        s
    }
}

/// Computes [`trimmed_start`].
pub fn trim_start_matches(s: &str, p: &str) -> (r: String)
    requires
        p@.len() > 0,
    ensures
        r@ == trimmed_start(s@, p@),
{
    let v = chars_of(s);
    let q = chars_of(p);
    let mut at: usize = 0;
    assert(s@.skip(0) == s@);
    while stands_at(&v, &q, at)
        invariant
            v@ == s@,
            q@ == p@,
            p@.len() > 0,
            at <= v.len(),
            trimmed_start(s@, p@) == trimmed_start(s@.skip(at as int), p@),
        decreases v.len() - at,
    {
        let ghost rest = s@.skip(at as int);
        assert(rest.take(p@.len() as int) == s@.subrange(at as int, at + p@.len()));
        assert(rest.skip(p@.len() as int) == s@.skip(at + p@.len()));
        at = at + q.len();
    }
    let r = text_of(&v, at, v.len());
    proof {
        let rest = s@.skip(at as int);
        assert(r@ == rest);
        if begins(rest, p@) {
            assert(rest.take(p@.len() as int) == s@.subrange(at as int, at + p@.len()));
        }
    }
    r
}

// ---------------------------------------------------------------------------------------------
// Searching
// ---------------------------------------------------------------------------------------------
/// `p` stands in `s` at position `at`.
pub open spec fn occurs_at(s: Text, p: Text, at: int) -> bool {
    0 <= at && at + p.len() <= s.len() && s.subrange(at, at + p.len()) == p
}

/// The first position from `from` on at which `p` stands in `s`.
pub open spec fn first_from(s: Text, p: Text, from: nat) -> Option<nat>
    decreases s.len() + 1 - from,
{
    if from + p.len() > s.len() {
        None
    } else if occurs_at(s, p, from as int) {
        Some(from)
    } else {
        first_from(s, p, from + 1)
    }
}

/// `p` stands somewhere in `s`.
pub open spec fn holds(s: Text, p: Text) -> bool {
    exists|at: int| occurs_at(s, p, at)
}

fn find_chars(v: &Vec<char>, p: &Vec<char>) -> (r: Option<usize>)
    ensures
        match r {
            Some(i) => first_from(v@, p@, 0) == Some(i as nat) && occurs_at(v@, p@, i as int),
            None => first_from(v@, p@, 0) is None && forall|at: int| !occurs_at(v@, p@, at),
        },
{
    let mut i: usize = 0;
    while i <= v.len() && p.len() <= v.len() - i
        invariant
            i <= v.len() + 1,
            first_from(v@, p@, 0) == first_from(v@, p@, i as nat),
            forall|at: int| at < i ==> !occurs_at(v@, p@, at),
        decreases v.len() + 1 - i,
    {
        if stands_at(v, p, i) {
            return Some(i);
        }
        if i == v.len() {
            proof {
                assert(first_from(v@, p@, i as nat) == first_from(v@, p@, (i + 1) as nat));
            }
            return None;
        }
        i += 1;
    }
    None
}

/// Where `p` first stands in `s`, counted in characters.
pub fn find(s: &str, p: &str) -> (r: Option<usize>)
    ensures
        match r {
            Some(i) => first_from(s@, p@, 0) == Some(i as nat) && i + p@.len() <= s@.len(),
            None => first_from(s@, p@, 0) is None,
        },
{
    let v = chars_of(s);
    let q = chars_of(p);
    find_chars(&v, &q)
}

/// Whether `p` stands somewhere in `s`.
pub fn contains(s: &str, p: &str) -> (r: bool)
    ensures
        r == holds(s@, p@),
{
    let v = chars_of(s);
    let q = chars_of(p);
    match find_chars(&v, &q) {
        Some(_) => true,
        None => false,
    }
}

/// Whether the character `c` stands in `s`.
pub fn contains_char(s: &str, c: char) -> (r: bool)
    ensures
        r == s@.contains(c),
{
    let v = chars_of(s);
    let mut i: usize = 0;
    while i < v.len()
        invariant
            v@ == s@,
            i <= v.len(),
            forall|j: int| 0 <= j < i ==> s@[j] != c,
        decreases v.len() - i,
    {
        if v[i] == c {
            assert(s@[i as int] == c);
            return true;
        }
        i += 1;
    }
    false
}

// ---------------------------------------------------------------------------------------------
// Rewriting character by character
// ---------------------------------------------------------------------------------------------
/// `s` with every `c` replaced by `with`.
pub open spec fn replaced(s: Text, c: char, with: Text) -> Text
    decreases s.len(),
{
    if s.len() == 0 {
        ""@
    } else if s.last() == c {
        replaced(s.drop_last(), c, with) + with
    } else {
        replaced(s.drop_last(), c, with).push(s.last())
    }
}

/// Computes [`replaced`].
pub fn replace_char(s: &str, c: char, with: &str) -> (r: String)
    ensures
        r@ == replaced(s@, c, with@),
{
    let v = chars_of(s);
    let mut r = "".to_owned();
    let mut i: usize = 0;
    while i < v.len()
        invariant
            v@ == s@,
            i <= v.len(),
            r@ == replaced(s@.take(i as int), c, with@),
        decreases v.len() - i,
    {
        if v[i] == c {
            r.append(with);
        } else {
            r.push(v[i]);
        }
        assert(s@.take(i + 1).drop_last() == s@.take(i as int));
        i += 1;
    }
    assert(s@.take(i as int) == s@);
    r
}

/// `s` with an underscore for every character that is neither a letter nor a number.
pub open spec fn as_identifier(s: Text) -> Text {
    s.map_values(|c: char| if alphanumeric(c) { c } else { '_' })
}

/// Computes [`as_identifier`].
pub fn to_identifier(s: &str) -> (r: String)
    ensures
        r@ == as_identifier(s@),
{
    let v = chars_of(s);
    let mut r = String::new();
    let mut i: usize = 0;
    while i < v.len()
        invariant
            v@ == s@,
            i <= v.len(),
            r@ == as_identifier(s@.take(i as int)),
        decreases v.len() - i,
    {
        if is_alphanumeric(v[i]) {
            r.push(v[i]);
        } else {
            r.push('_');
        }
        assert(r@ == as_identifier(s@.take(i + 1)));
        i += 1;
    }
    assert(s@.take(i as int) == s@);
    r
}

/// The ASCII lower case of `c`.
pub open spec fn lower(c: char) -> char {
    if 'A' <= c && c <= 'Z' {
        ((c as u8) + 32) as u8 as char
    } else {
        c
    }
}

/// `s` is `word`, where upper and lower case count as the same. No character outside ASCII is
/// another case of a letter of a keyword, so the ASCII fold decides.
pub open spec fn is_word(s: Text, word: Text) -> bool {
    s.len() == word.len() && forall|i: int| 0 <= i < s.len() ==> lower(#[trigger] s[i]) == word[i]
}

/// Computes [`is_word`].
pub fn same_word(s: &str, word: &str) -> (r: bool)
    ensures
        r == is_word(s@, word@),
{
    let v = chars_of(s);
    let w = chars_of(word);
    if v.len() != w.len() {
        return false;
    }
    let mut i: usize = 0;
    while i < v.len()
        invariant
            v@ == s@,
            w@ == word@,
            v.len() == w.len(),
            i <= v.len(),
            forall|j: int| 0 <= j < i ==> lower(#[trigger] s@[j]) == word@[j],
        decreases v.len() - i,
    {
        let c = v[i];
        let l: char = if 'A' <= c && c <= 'Z' {
            (c as u8 + 32) as char
        } else {
            c
        };
        assert(l == lower(s@[i as int]));
        if l != w[i] {
            return false;
        }
        i += 1;
    }
    true
}

// ---------------------------------------------------------------------------------------------
// Lists of texts
// ---------------------------------------------------------------------------------------------
/// A list of `String`s as a list of texts.
pub open spec fn texts(v: Seq<String>) -> Seq<Text> {
    v.map_values(|s: String| s@)
}

/// The texts of `parts` with `sep` between each two of them.
pub open spec fn joined(parts: Seq<Text>, sep: Text) -> Text
    decreases parts.len(),
{
    if parts.len() == 0 {
        ""@
    } else if parts.len() == 1 {
        parts[0]
    } else {
        joined(parts.drop_last(), sep) + sep + parts.last()
    }
}

/// Computes [`joined`].
pub fn join(parts: &Vec<String>, sep: &str) -> (r: String)
    ensures
        r@ == joined(texts(parts@), sep@),
{
    if parts.len() == 0 {
        return "".to_owned();
    }
    let mut r = parts[0].clone();
    let mut i: usize = 1;
    assert(texts(parts@).take(1)[0] == parts@[0]@);
    while i < parts.len()
        invariant
            1 <= i <= parts.len(),
            r@ == joined(texts(parts@).take(i as int), sep@),
        decreases parts.len() - i,
    {
        r = cat3(&r, sep, &parts[i]);
        assert(texts(parts@).take(i + 1).drop_last() == texts(parts@).take(i as int));
        i += 1;
    }
    assert(texts(parts@).take(i as int) == texts(parts@));
    r
}

/// The pieces of `s` between the copies of `sep`, which is not empty.
pub open spec fn pieces(s: Text, sep: Text) -> Seq<Text>
    decreases s.len(),
{
    match first_from(s, sep, 0) {
        Some(k) => if sep.len() > 0 && k + sep.len() <= s.len() {
            seq![s.take(k as int)] + pieces(s.skip((k + sep.len()) as int), sep)
        } else {
            seq![s]
        },
        None => seq![s],
    }
}

/// Computes [`pieces`].
pub fn split(s: &str, sep: &str) -> (r: Vec<String>)
    requires
        sep@.len() > 0,
    ensures
        texts(r@) == pieces(s@, sep@),
    decreases s@.len(),
{
    let v = chars_of(s);
    let mut r: Vec<String> = Vec::new();
    match find(s, sep) {
        Some(k) => {
            let q = chars_of(sep);
            let end = v.len();
            let head = text_of(&v, 0, k);
            let rest = text_of(&v, k + q.len(), end);
            assert(head@ == s@.take(k as int));
            assert(rest@ == s@.skip(k + sep@.len()));
            let mut more = split(&rest, sep);
            r.push(head);
            let ghost tail = more@;
            r.append(&mut more);
            assert(texts(r@) == seq![head@] + texts(tail));
        },
        None => {
            r.push(s.to_owned());
            assert(texts(r@) == seq![s@]);
        },
    }
    r
}

/// `s` without a carriage return at its end.
pub open spec fn without_cr(s: Text) -> Text {
    if s.len() > 0 && s.last() == '\r' {
        s.drop_last()
    } else {
        s
    }
}

/// The lines of `s`: each ends at a line feed, which may follow a carriage return; an empty rest
/// behind the last line feed is no line.
pub open spec fn lines_of(s: Text) -> Seq<Text>
    decreases s.len(),
{
    if s.len() == 0 {
        seq![]
    } else {
        match first_from(s, "\n"@, 0) {
            Some(k) => if k < s.len() {
                seq![without_cr(s.take(k as int))] + lines_of(s.skip((k + 1) as int))
            } else {
                seq![s]
            },
            None => seq![s],
        }
    }
}

fn drop_cr(s: &str) -> (r: String)
    ensures
        r@ == without_cr(s@),
{
    let v = chars_of(s);
    if v.len() > 0 && v[v.len() - 1] == '\r' {
        let r = text_of(&v, 0, v.len() - 1);
        assert(r@ == s@.drop_last());
        r
    } else {
        s.to_owned()
    }
}

/// Computes [`lines_of`].
pub fn lines(s: &str) -> (r: Vec<String>)
    ensures
        texts(r@) == lines_of(s@),
    decreases s@.len(),
{
    let v = chars_of(s);
    let mut r: Vec<String> = Vec::new();
    if v.len() == 0 {
        assert(texts(r@) == Seq::<Text>::empty());
        return r;
    }
    proof {
        reveal_strlit("\n");
    }
    match find(s, "\n") {
        Some(k) => {
            let head = text_of(&v, 0, k);
            let rest = text_of(&v, k + 1, v.len());
            assert(head@ == s@.take(k as int));
            assert(rest@ == s@.skip(k + 1));
            let mut more = lines(&rest);
            let first = drop_cr(&head);
            let ghost one = first@;
            r.push(first);
            let ghost tail = more@;
            r.append(&mut more);
            assert(texts(r@) == seq![one] + texts(tail));
        },
        None => {
            r.push(s.to_owned());
            assert(texts(r@) == seq![s@]);
        },
    }
    r
}

// ---------------------------------------------------------------------------------------------
// White space
// ---------------------------------------------------------------------------------------------
/// The Unicode property White_Space.
pub open spec fn is_space(c: char) -> bool {
    let n = c as u32;
    9 <= n <= 13 || n == 0x20 || n == 0x85 || n == 0xA0 || n == 0x1680 || 0x2000 <= n <= 0x200A
        || n == 0x2028 || n == 0x2029 || n == 0x202F || n == 0x205F || n == 0x3000
}

fn space(c: char) -> (r: bool)
    ensures
        r == is_space(c),
{
    let n = c as u32;
    (9 <= n && n <= 13) || n == 0x20 || n == 0x85 || n == 0xA0 || n == 0x1680 || (0x2000 <= n && n
        <= 0x200A) || n == 0x2028 || n == 0x2029 || n == 0x202F || n == 0x205F || n == 0x3000
}

/// How many characters of white space `s` begins with.
pub open spec fn leading_space(s: Text) -> nat
    decreases s.len(),
{
    if s.len() > 0 && is_space(s[0]) {
        1 + leading_space(s.skip(1))
    } else {
        0
    }
}

/// `s` without white space at its start and at its end.
pub open spec fn trimmed(s: Text) -> Text {
    let a = s.skip(leading_space(s) as int);
    a.take(a.len() - leading_space(a.reverse()))
}

/// The characters of `s` up to the first white space.
pub open spec fn until_space(s: Text) -> Text
    decreases s.len(),
{
    if s.len() > 0 && !is_space(s[0]) {
        seq![s[0]] + until_space(s.skip(1))
    } else {
        seq![]
    }
}

/// The first word of `s`, or `other` where `s` holds none.
pub open spec fn first_word(s: Text, other: Text) -> Text {
    let w = until_space(s.skip(leading_space(s) as int));
    if w.len() == 0 {
        other
    } else {
        w
    }
}

proof fn lemma_leading_space_bound(s: Text)
    ensures
        leading_space(s) <= s.len(),
    decreases s.len(),
{
    if s.len() > 0 && is_space(s[0]) {
        lemma_leading_space_bound(s.skip(1));
    }
}

/// The number of leading white-space characters of `v[from..]`.
fn skip_space(v: &Vec<char>) -> (r: usize)
    ensures
        r as nat == leading_space(v@),
        r <= v.len(),
{
    let mut i: usize = 0;
    assert(v@.skip(0) == v@);
    while i < v.len() && space(v[i])
        invariant
            i <= v.len(),
            leading_space(v@) == i + leading_space(v@.skip(i as int)),
        decreases v.len() - i,
    {
        assert(v@.skip(i as int).skip(1) == v@.skip(i + 1));
        i += 1;
    }
    i
}

/// Computes [`trimmed`].
pub fn trim(s: &str) -> (r: String)
    ensures
        r@ == trimmed(s@),
{
    let v = chars_of(s);
    let from = skip_space(&v);
    let ghost a = s@.skip(from as int);
    let mut to: usize = v.len();
    proof {
        assert(a.reverse().skip(0) == a.reverse());
    }
    while to > from && space(v[to - 1])
        invariant
            v@ == s@,
            a == s@.skip(from as int),
            from <= to <= v.len(),
            leading_space(a.reverse()) == (v.len() - to) + leading_space(
                a.reverse().skip(v.len() - to),
            ),
        decreases to,
    {
        let ghost gone = v.len() - to;
        assert(a.reverse().skip(gone)[0] == v@[to - 1]);
        assert(a.reverse().skip(gone).skip(1) == a.reverse().skip(gone + 1));
        to -= 1;
    }
    proof {
        let gone = v.len() - to;
        if to > from {
            assert(a.reverse().skip(gone)[0] == v@[to - 1]);
        }
        assert(v@.subrange(from as int, to as int) == a.take(a.len() - gone));
    }
    text_of(&v, from, to)
}

/// Computes [`first_word`].
pub fn first_word_of(s: &str, other: &str) -> (r: String)
    ensures
        r@ == first_word(s@, other@),
{
    let v = chars_of(s);
    let from = skip_space(&v);
    let mut to: usize = from;
    let ghost a = s@.skip(from as int);
    proof {
        assert(a.skip(0) == a);
        assert(a.take(0) + until_space(a) == until_space(a));
    }
    while to < v.len() && !space(v[to])
        invariant
            v@ == s@,
            a == s@.skip(from as int),
            from <= to <= v.len(),
            until_space(a) == a.take(to - from) + until_space(a.skip(to - from)),
        decreases v.len() - to,
    {
        let ghost k = to - from;
        assert(a.skip(k)[0] == v@[to as int]);
        assert(a.skip(k).skip(1) == a.skip(k + 1));
        assert(a.take(k + 1) == a.take(k) + seq![a[k]]);
        assert(until_space(a) == a.take(k + 1) + until_space(a.skip(k + 1)));
        to += 1;
    }
    proof {
        let k = to - from;
        if to < v.len() {
            assert(a.skip(k)[0] == v@[to as int]);
        }
        assert(until_space(a) == a.take(k));
        assert(v@.subrange(from as int, to as int) == a.take(k));
    }
    if to == from {
        other.to_owned()
    } else {
        text_of(&v, from, to)
    }
}

// ---------------------------------------------------------------------------------------------
// Reading numbers
// ---------------------------------------------------------------------------------------------
/// `c` is a decimal digit.
pub open spec fn is_digit(c: char) -> bool {
    '0' <= c && c <= '9'
}

/// The value of a run of decimal digits.
pub open spec fn digits_value(s: Text) -> nat
    decreases s.len(),
{
    if s.len() == 0 {
        0
    } else {
        digits_value(s.drop_last()) * 10 + ((s.last() as u32) - 48) as nat
    }
}

/// The digits of `s` behind an optional plus sign.
pub open spec fn unsigned(s: Text) -> Text {
    if s.len() > 0 && s[0] == '+' {
        s.skip(1)
    } else {
        s
    }
}

/// The number that `s` stands for, where `s` is an optional plus sign and at least one digit, and
/// the number is at most `max`.
pub open spec fn parsed(s: Text, max: nat) -> Option<nat> {
    let d = unsigned(s);
    if d.len() > 0 && (forall|i: int| 0 <= i < d.len() ==> is_digit(#[trigger] d[i]))
        && digits_value(d) <= max {
        Some(digits_value(d))
    } else {
        None
    }
}

proof fn lemma_digits_grow(s: Text, n: int)
    requires
        0 <= n <= s.len(),
        forall|i: int| 0 <= i < s.len() ==> is_digit(#[trigger] s[i]),
    ensures
        digits_value(s.take(n)) <= digits_value(s),
    decreases s.len() - n,
{
    if n < s.len() {
        lemma_digits_grow(s, n + 1);
        assert(s.take(n + 1).drop_last() == s.take(n));
    } else {
        assert(s.take(n) == s);
    }
}

/// The decimal form of a number is made of digits, and its value is the number.
pub proof fn lemma_dec_reads_back(n: nat)
    ensures
        dec(n).len() > 0,
        forall|i: int| 0 <= i < dec(n).len() ==> is_digit(#[trigger] dec(n)[i]),
        digits_value(dec(n)) == n,
    decreases n,
{
    let d = (n % 10) as nat;
    assert(is_digit(digit(d)) && (digit(d) as u32) - 48 == d);
    if n < 10 {
        assert(dec(n).drop_last() == Seq::<char>::empty());
        assert(digits_value(Seq::<char>::empty()) == 0);
        assert(dec(n).last() == digit(d));
    } else {
        lemma_dec_reads_back(n / 10);
        assert(dec(n).drop_last() == dec(n / 10));
        assert(n == (n / 10) * 10 + n % 10);
    }
}

/// A number that is written in decimal is read back as the same number.
pub proof fn lemma_number_reads_back(n: nat, max: nat)
    requires
        n <= max,
    ensures
        parsed(dec(n), max) == Some(n),
{
    lemma_dec_reads_back(n);
    assert(is_digit(dec(n)[0]));
    assert(unsigned(dec(n)) == dec(n));
}

/// Where a text stands and stands nowhere before, it is found.
pub proof fn lemma_first_place(s: Text, p: Text, from: nat, k: nat)
    requires
        from <= k,
        occurs_at(s, p, k as int),
        forall|j: int| from <= j < k ==> !occurs_at(s, p, j),
    ensures
        first_from(s, p, from) == Some(k),
    decreases k - from,
{
    if from < k {
        lemma_first_place(s, p, from + 1, k);
    }
}

/// The pieces of lines: the first line, and those of the rest.
pub proof fn lemma_pieces_of_lines(line: Text, rest: Text)
    requires
        !line.contains('\n'),
    ensures
        pieces(line + "\n"@ + rest, "\n"@) == seq![line] + pieces(rest, "\n"@),
{
    reveal_strlit("\n");
    let sep = "\n"@;
    let all = line + sep + rest;
    let k = line.len();
    assert(all.subrange(k as int, (k + 1) as int) == sep);
    assert forall|j: int| 0 <= j < k implies !occurs_at(all, sep, j) by {
        assert(all[j] == line[j]);
        if occurs_at(all, sep, j) {
            assert(all.subrange(j, j + 1)[0] == sep[0]);
        }
    }
    lemma_first_place(all, sep, 0, k);
    assert(all.take(k as int) == line);
    assert(all.skip((k + 1) as int) == rest);
}

/// A text without a line feed is one piece.
pub proof fn lemma_pieces_of_line(line: Text)
    requires
        !line.contains('\n'),
    ensures
        pieces(line, "\n"@) == seq![line],
{
    reveal_strlit("\n");
    lemma_first_from(line, "\n"@, 0);
    match first_from(line, "\n"@, 0) {
        Some(k) => {
            assert(line.subrange(k as int, (k + 1) as int)[0] == line[k as int]);
        },
        None => {},
    }
}

/// The pieces of a text, joined again, are the text.
pub proof fn lemma_pieces_join(s: Text, sep: Text)
    requires
        sep.len() > 0,
    ensures
        joined(pieces(s, sep), sep) == s,
        pieces(s, sep).len() > 0,
    decreases s.len(),
{
    lemma_first_from(s, sep, 0);
    match first_from(s, sep, 0) {
        Some(k) => {
            let head = s.take(k as int);
            let rest = s.skip((k + sep.len()) as int);
            lemma_pieces_join(rest, sep);
            let more = pieces(rest, sep);
            lemma_joined_front(head, more, sep);
            assert(s == head + sep + rest) by {
                assert(s.subrange(k as int, (k + sep.len()) as int) == sep);
            }
        },
        None => {},
    }
}

proof fn lemma_first_from(s: Text, p: Text, from: nat)
    ensures
        match first_from(s, p, from) {
            Some(k) => from <= k && occurs_at(s, p, k as int),
            None => true,
        },
    decreases s.len() + 1 - from,
{
    if from + p.len() <= s.len() && !occurs_at(s, p, from as int) {
        lemma_first_from(s, p, from + 1);
    }
}

proof fn lemma_joined_front(head: Text, more: Seq<Text>, sep: Text)
    requires
        more.len() > 0,
    ensures
        joined(seq![head] + more, sep) == head + sep + joined(more, sep),
    decreases more.len(),
{
    let all = seq![head] + more;
    if more.len() == 1 {
        assert(all.drop_last() == seq![head]);
        assert(joined(all.drop_last(), sep) == head);
        assert(all.last() == more[0]);
    } else {
        lemma_joined_front(head, more.drop_last(), sep);
        assert(all.drop_last() == seq![head] + more.drop_last());
        assert(all.last() == more.last());
    }
}

/// Reads an unsigned number of at most `max`.
pub fn parse_number(s: &str, max: u64) -> (r: Option<u64>)
    ensures
        match r {
            Some(n) => parsed(s@, max as nat) == Some(n as nat),
            None => parsed(s@, max as nat) is None,
        },
{
    let v = chars_of(s);
    let from: usize = if v.len() > 0 && v[0] == '+' {
        1
    } else {
        0
    };
    let ghost d = unsigned(s@);
    assert(d == s@.skip(from as int));
    if from == v.len() {
        return None;
    }
    let mut n: u64 = 0;
    let mut i: usize = from;
    while i < v.len()
        invariant
            v@ == s@,
            d == unsigned(s@),
            d == s@.skip(from as int),
            from <= i <= v.len(),
            from < v.len(),
            forall|j: int| 0 <= j < i - from ==> is_digit(#[trigger] d[j]),
            n as nat == digits_value(d.take(i - from)),
            n <= max,
        decreases v.len() - i,
    {
        let c = v[i];
        assert(d[i - from] == c);
        if !('0' <= c && c <= '9') {
            return None;
        }
        let x: u128 = (n as u128) * 10 + ((c as u32) - 48) as u128;
        assert(d.take(i - from + 1).drop_last() == d.take(i - from));
        assert(x as nat == digits_value(d.take(i - from + 1)));
        if x > max as u128 {
            proof {
                if forall|k: int| 0 <= k < d.len() ==> is_digit(#[trigger] d[k]) {
                    lemma_digits_grow(d, i - from + 1);
                }
            }
            return None;
        }
        n = x as u64;
        i += 1;
    }
    assert(d.take(i - from) == d);
    Some(n)
}

} // verus!
