//! Text building blocks: every function here says exactly which characters it returns.

use vstd::prelude::*;

verus! {

/// The mathematical view of a piece of text.
pub type Text = Seq<char>;

/// `String::push` appends one character.
pub assume_specification[ String::push ](s: &mut String, c: char)
    ensures
        final(s)@ == old(s)@.push(c),
;

/// What `char::is_alphanumeric` answers: the Unicode classes of letters and of numbers.
pub uninterp spec fn alphanumeric(c: char) -> bool;

/// `char::is_alphanumeric`. The Unicode tables stay behind the name [`alphanumeric`]; of the ASCII
/// range the documentation gives the answer, letters and digits.
#[verifier::external_body]
pub(crate) fn is_alphanumeric(c: char) -> (r: bool)
    ensures
        r == alphanumeric(c),
        (c as u32) < 128 ==> r == (('0' <= c && c <= '9') || ('a' <= c && c <= 'z') || ('A' <= c && c
            <= 'Z')),
{
    c.is_alphanumeric()
}

// ---------------------------------------------------------------------------------------------
// Characters and concatenation
// ---------------------------------------------------------------------------------------------
/// The characters of `s`, one by one.
pub fn chars_of(s: &str) -> (v: Vec<char>)
    ensures
        v@ == s@,
{
    let mut v: Vec<char> = Vec::new();
    for c in it: s.chars()
        invariant
            it.seq() == s@,
            v@ == s@.take(it.index() as int),
    {
        v.push(c);
        assert(s@.take(it.index() + 1) == s@.take(it.index() as int).push(c));
    }
    assert(s@.take(s@.len() as int) == s@);
    v
}

/// The text made of the characters `v[from..to]`.
pub fn text_of(v: &Vec<char>, from: usize, to: usize) -> (r: String)
    requires
        from <= to <= v@.len(),
    ensures
        r@ == v@.subrange(from as int, to as int),
{
    let mut r = String::new();
    let mut i: usize = from;
    while i < to
        invariant
            from <= i <= to <= v@.len(),
            r@ == v@.subrange(from as int, i as int),
        decreases to - i,
    {
        r.push(v[i]);
        assert(v@.subrange(from as int, i + 1) == v@.subrange(from as int, i as int).push(v@[i as int]));
        i += 1;
    }
    r
}

/// Whether two texts are the same.
pub fn same(a: &str, b: &str) -> (r: bool)
    ensures
        r == (a@ == b@),
{
    let x = chars_of(a);
    let y = chars_of(b);
    if x.len() != y.len() {
        return false;
    }
    let mut i: usize = 0;
    while i < x.len()
        invariant
            x@ == a@,
            y@ == b@,
            x.len() == y.len(),
            i <= x.len(),
            forall|j: int| 0 <= j < i ==> x@[j] == y@[j],
        decreases x.len() - i,
    {
        if x[i] != y[i] {
            return false;
        }
        i += 1;
    }
    assert(a@ == b@);
    true
}

/// A copy of `s`.
pub fn owned(s: &str) -> (r: String)
    ensures
        r@ == s@,
{
    s.to_owned()
}

/// 2 pieces of text, one behind the other.
pub fn cat2(a: &str, b: &str) -> (r: String)
    ensures
        r@ == a@ + b@,
{
    let mut r = a.to_owned();
    r.append(b);
    r
}

/// 3 pieces of text, one behind the other.
pub fn cat3(a: &str, b: &str, c: &str) -> (r: String)
    ensures
        r@ == a@ + b@ + c@,
{
    let mut r = cat2(a, b);
    r.append(c);
    r
}

/// 4 pieces of text, one behind the other.
pub fn cat4(a: &str, b: &str, c: &str, d: &str) -> (r: String)
    ensures
        r@ == a@ + b@ + c@ + d@,
{
    let mut r = cat3(a, b, c);
    r.append(d);
    r
}

/// 5 pieces of text, one behind the other.
pub fn cat5(a: &str, b: &str, c: &str, d: &str, e: &str) -> (r: String)
    ensures
        r@ == a@ + b@ + c@ + d@ + e@,
{
    let mut r = cat4(a, b, c, d);
    r.append(e);
    r
}

/// 6 pieces of text, one behind the other.
pub fn cat6(a: &str, b: &str, c: &str, d: &str, e: &str, f: &str) -> (r: String)
    ensures
        r@ == a@ + b@ + c@ + d@ + e@ + f@,
{
    let mut r = cat5(a, b, c, d, e);
    r.append(f);
    r
}

/// 7 pieces of text, one behind the other.
pub fn cat7(a: &str, b: &str, c: &str, d: &str, e: &str, f: &str, g: &str) -> (r: String)
    ensures
        r@ == a@ + b@ + c@ + d@ + e@ + f@ + g@,
{
    let mut r = cat6(a, b, c, d, e, f);
    r.append(g);
    r
}

/// 8 pieces of text, one behind the other.
pub fn cat8(a: &str, b: &str, c: &str, d: &str, e: &str, f: &str, g: &str, h: &str) -> (r: String)
    ensures
        r@ == a@ + b@ + c@ + d@ + e@ + f@ + g@ + h@,
{
    let mut r = cat7(a, b, c, d, e, f, g);
    r.append(h);
    r
}

/// 9 pieces of text, one behind the other.
pub fn cat9(
    a: &str, b: &str, c: &str, d: &str, e: &str, f: &str, g: &str, h: &str, i: &str,
) -> (r: String)
    ensures
        r@ == a@ + b@ + c@ + d@ + e@ + f@ + g@ + h@ + i@,
{
    let mut r = cat8(a, b, c, d, e, f, g, h);
    r.append(i);
    r
}

/// 10 pieces of text, one behind the other.
pub fn cat10(
    a: &str, b: &str, c: &str, d: &str, e: &str, f: &str, g: &str, h: &str, i: &str, j: &str,
) -> (r: String)
    ensures
        r@ == a@ + b@ + c@ + d@ + e@ + f@ + g@ + h@ + i@ + j@,
{
    let mut r = cat9(a, b, c, d, e, f, g, h, i);
    r.append(j);
    r
}

/// 11 pieces of text, one behind the other.
pub fn cat11(
    a: &str, b: &str, c: &str, d: &str, e: &str, f: &str, g: &str, h: &str, i: &str, j: &str, k: &str,
) -> (r: String)
    ensures
        r@ == a@ + b@ + c@ + d@ + e@ + f@ + g@ + h@ + i@ + j@ + k@,
{
    let mut r = cat10(a, b, c, d, e, f, g, h, i, j);
    r.append(k);
    r
}

/// 12 pieces of text, one behind the other.
pub fn cat12(
    a: &str, b: &str, c: &str, d: &str, e: &str, f: &str, g: &str, h: &str, i: &str, j: &str, k: &str, l: &str,
) -> (r: String)
    ensures
        r@ == a@ + b@ + c@ + d@ + e@ + f@ + g@ + h@ + i@ + j@ + k@ + l@,
{
    let mut r = cat11(a, b, c, d, e, f, g, h, i, j, k);
    r.append(l);
    r
}

/// 13 pieces of text, one behind the other.
pub fn cat13(
    a: &str, b: &str, c: &str, d: &str, e: &str, f: &str, g: &str, h: &str, i: &str, j: &str, k: &str, l: &str, m: &str,
) -> (r: String)
    ensures
        r@ == a@ + b@ + c@ + d@ + e@ + f@ + g@ + h@ + i@ + j@ + k@ + l@ + m@,
{
    let mut r = cat12(a, b, c, d, e, f, g, h, i, j, k, l);
    r.append(m);
    r
}

/// 14 pieces of text, one behind the other.
pub fn cat14(
    a: &str, b: &str, c: &str, d: &str, e: &str, f: &str, g: &str, h: &str, i: &str, j: &str, k: &str, l: &str, m: &str, n: &str,
) -> (r: String)
    ensures
        r@ == a@ + b@ + c@ + d@ + e@ + f@ + g@ + h@ + i@ + j@ + k@ + l@ + m@ + n@,
{
    let mut r = cat13(a, b, c, d, e, f, g, h, i, j, k, l, m);
    r.append(n);
    r
}

/// 15 pieces of text, one behind the other.
pub fn cat15(
    a: &str, b: &str, c: &str, d: &str, e: &str, f: &str, g: &str, h: &str, i: &str, j: &str, k: &str, l: &str, m: &str, n: &str, o: &str,
) -> (r: String)
    ensures
        r@ == a@ + b@ + c@ + d@ + e@ + f@ + g@ + h@ + i@ + j@ + k@ + l@ + m@ + n@ + o@,
{
    let mut r = cat14(a, b, c, d, e, f, g, h, i, j, k, l, m, n);
    r.append(o);
    r
}

/// 16 pieces of text, one behind the other.
pub fn cat16(
    a: &str, b: &str, c: &str, d: &str, e: &str, f: &str, g: &str, h: &str, i: &str, j: &str, k: &str, l: &str, m: &str, n: &str, o: &str, p: &str,
) -> (r: String)
    ensures
        r@ == a@ + b@ + c@ + d@ + e@ + f@ + g@ + h@ + i@ + j@ + k@ + l@ + m@ + n@ + o@ + p@,
{
    let mut r = cat15(a, b, c, d, e, f, g, h, i, j, k, l, m, n, o);
    r.append(p);
    r
}

/// `unit` written `n` times.
pub open spec fn repeated(unit: Text, n: nat) -> Text
    decreases n,
{
    if n == 0 {
        ""@
    } else {
        repeated(unit, (n - 1) as nat) + unit
    }
}

/// Computes [`repeated`].
pub fn repeat_text(unit: &str, n: usize) -> (r: String)
    ensures
        r@ == repeated(unit@, n as nat),
{
    let mut r = "".to_owned();
    let mut i: usize = 0;
    while i < n
        invariant
            i <= n,
            r@ == repeated(unit@, i as nat),
        decreases n - i,
    {
        r.append(unit);
        i += 1;
    }
    r
}

// ---------------------------------------------------------------------------------------------
// Numbers
// ---------------------------------------------------------------------------------------------
/// The decimal digit of `d`, for `d < 10`.
pub open spec fn digit(d: nat) -> char {
    ((48 + d) as u8) as char
}

/// `n` in decimal, without leading zeros.
pub open spec fn dec(n: nat) -> Text
    decreases n,
{
    if n < 10 {
        seq![digit(n)]
    } else {
        dec(n / 10).push(digit(n % 10))
    }
}

/// `n` in decimal, with a minus sign where it is negative.
pub open spec fn int_dec(n: int) -> Text {
    if n < 0 {
        "-"@ + dec((-n) as nat)
    } else {
        dec(n as nat)
    }
}

/// Computes [`dec`].
pub fn dec_text(n: u128) -> (r: String)
    ensures
        r@ == dec(n as nat),
    decreases n,
{
    let d = (48 + (n % 10) as u8) as char;
    if n < 10 {
        let mut s = String::new();
        s.push(d);
        assert(s@ == seq![digit(n as nat)]);
        s
    } else {
        let mut s = dec_text(n / 10);
        s.push(d);
        s
    }
}

/// Computes [`int_dec`].
pub fn int_text(n: i64) -> (r: String)
    ensures
        r@ == int_dec(n as int),
{
    if n < 0 {
        cat2("-", &dec_text((-(n as i128)) as u128))
    } else {
        dec_text(n as u128)
    }
}

/// The number that comes after `n` in a machine counter: after the largest one it starts again.
pub open spec fn bumped(n: nat) -> nat {
    if n >= usize::MAX {
        0
    } else {
        n + 1
    }
}

/// Computes [`bumped`].
pub fn bump(n: usize) -> (r: usize)
    ensures
        r as nat == bumped(n as nat),
{
    if n == usize::MAX {
        0
    } else {
        n + 1
    }
}

/// How many bytes UTF-8 takes for `c`.
pub open spec fn utf8_width(c: char) -> nat {
    if (c as u32) < 0x80 {
        1
    } else if (c as u32) < 0x800 {
        2
    } else if (c as u32) < 0x10000 {
        3
    } else {
        4
    }
}

/// How many bytes UTF-8 takes for `s`.
pub open spec fn byte_len(s: Text) -> nat
    decreases s.len(),
{
    if s.len() == 0 {
        0
    } else {
        byte_len(s.drop_last()) + utf8_width(s.last())
    }
}

/// Computes [`byte_len`].
pub fn byte_count(s: &str) -> (r: u128)
    ensures
        r as nat == byte_len(s@),
        r <= 4 * usize::MAX,
{
    let v = chars_of(s);
    let mut n: u128 = 0;
    let mut i: usize = 0;
    while i < v.len()
        invariant
            v@ == s@,
            i <= v.len(),
            n as nat == byte_len(s@.take(i as int)),
            n <= 4 * i,
        decreases v.len() - i,
    {
        let c = v[i] as u32;
        let w: u128 = if c < 0x80 {
            1
        } else if c < 0x800 {
            2
        } else if c < 0x10000 {
            3
        } else {
            4
        };
        n = n + w;
        assert(s@.take(i + 1).drop_last() == s@.take(i as int));
        i += 1;
    }
    assert(s@.take(i as int) == s@);
    n
}

} // verus!
