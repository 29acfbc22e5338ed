//! String literals: what they hold is read back as the text that they were made of.

use vstd::prelude::*;

use crate::codegen::c::c_string;
use crate::codegen::llvm::handler::{handler_text, static_text};
use crate::codegen::llvm::names::constant_text;
use crate::scan::replaced;
use crate::text::{byte_len, Text};

verus! {

// ---------------------------------------------------------------------------------------------
// Replacing
// ---------------------------------------------------------------------------------------------
/// What is replaced in two texts is what is replaced in both, one behind the other.
pub proof fn lemma_replaced_parts(a: Text, b: Text, c: char, with: Text)
    ensures
        replaced(a + b, c, with) == replaced(a, c, with) + replaced(b, c, with),
    decreases b.len(),
{
    reveal_strlit("");
    if b.len() == 0 {
        assert(a + b == a);
    } else {
        assert((a + b).drop_last() == a + b.drop_last());
        assert((a + b).last() == b.last());
        lemma_replaced_parts(a, b.drop_last(), c, with);
    }
}

proof fn lemma_replaced_one(x: char, c: char, with: Text)
    ensures
        replaced(seq![x], c, with) == (if x == c {
            with
        } else {
            seq![x]
        }),
{
    reveal_strlit("");
    assert(seq![x].drop_last() == Seq::<char>::empty());
    assert(replaced(Seq::<char>::empty(), c, with) == ""@);
}

proof fn lemma_replaced_two(x: char, y: char, c: char, with: Text)
    requires
        x != c,
        y != c,
    ensures
        replaced(seq![x, y], c, with) == seq![x, y],
{
    lemma_replaced_parts(seq![x], seq![y], c, with);
    lemma_replaced_one(x, c, with);
    lemma_replaced_one(y, c, with);
    assert(seq![x] + seq![y] == seq![x, y]);
}

proof fn lemma_replaced_three(x: char, y: char, z: char, c: char, with: Text)
    requires
        x != c,
        y != c,
        z != c,
    ensures
        replaced(seq![x, y, z], c, with) == seq![x, y, z],
{
    lemma_replaced_parts(seq![x, y], seq![z], c, with);
    lemma_replaced_two(x, y, c, with);
    lemma_replaced_one(z, c, with);
    assert(seq![x, y] + seq![z] == seq![x, y, z]);
}

proof fn lemma_first_apart(s: Text)
    requires
        s.len() > 0,
    ensures
        s == seq![s[0]] + s.skip(1),
{
    assert(s == seq![s[0]] + s.skip(1));
}

// ---------------------------------------------------------------------------------------------
// Literals of LLVM
// ---------------------------------------------------------------------------------------------
/// The value of a hexadecimal digit, in capitals.
pub open spec fn hex_digit(c: char) -> int {
    if '0' <= c <= '9' {
        c as int - '0' as int
    } else {
        c as int - 'A' as int + 10
    }
}

/// What an LLVM literal holds: two backslashes stand for one, and a backslash with two hexadecimal
/// digits for the character of that number.
pub open spec fn llvm_value(t: Text) -> Text
    decreases t.len(),
{
    if t.len() == 0 {
        seq![]
    } else if t[0] == '\\' && t.len() >= 2 && t[1] == '\\' {
        seq!['\\'] + llvm_value(t.skip(2))
    } else if t[0] == '\\' && t.len() >= 3 {
        seq![(16 * hex_digit(t[1]) + hex_digit(t[2])) as u8 as char] + llvm_value(t.skip(3))
    } else {
        seq![t[0]] + llvm_value(t.skip(1))
    }
}

proof fn lemma_value_of_plain(c: char, rest: Text)
    requires
        c != '\\',
    ensures
        llvm_value(seq![c] + rest) == seq![c] + llvm_value(rest),
{
    assert((seq![c] + rest).skip(1) == rest);
}

proof fn lemma_value_of_backslash(rest: Text)
    ensures
        llvm_value(seq!['\\', '\\'] + rest) == seq!['\\'] + llvm_value(rest),
{
    assert((seq!['\\', '\\'] + rest).skip(2) == rest);
}

proof fn lemma_value_of_number(a: char, b: char, rest: Text)
    requires
        a != '\\',
    ensures
        llvm_value(seq!['\\', a, b] + rest) == seq![(16 * hex_digit(a) + hex_digit(b)) as u8 as char]
            + llvm_value(rest),
{
    assert((seq!['\\', a, b] + rest).skip(3) == rest);
}

proof fn lemma_constant_parts(a: Text, b: Text)
    ensures
        constant_text(a + b) == constant_text(a) + constant_text(b),
{
    let x = replaced(a, '\\', "\\\\"@);
    let y = replaced(b, '\\', "\\\\"@);
    lemma_replaced_parts(a, b, '\\', "\\\\"@);
    lemma_replaced_parts(x, y, '\n', "\\0A"@);
    lemma_replaced_parts(replaced(x, '\n', "\\0A"@), replaced(y, '\n', "\\0A"@), '"', "\\22"@);
}

proof fn lemma_constant_one(c: char)
    ensures
        constant_text(seq![c]) == (if c == '\\' {
            seq!['\\', '\\']
        } else if c == '\n' {
            seq!['\\', '0', 'A']
        } else if c == '"' {
            seq!['\\', '2', '2']
        } else {
            seq![c]
        }),
{
    reveal_strlit("\\\\");
    reveal_strlit("\\0A");
    reveal_strlit("\\22");
    assert("\\\\"@ == seq!['\\', '\\']);
    assert("\\0A"@ == seq!['\\', '0', 'A']);
    assert("\\22"@ == seq!['\\', '2', '2']);
    lemma_replaced_one(c, '\\', "\\\\"@);
    if c == '\\' {
        lemma_replaced_two('\\', '\\', '\n', "\\0A"@);
        lemma_replaced_two('\\', '\\', '"', "\\22"@);
    } else {
        lemma_replaced_one(c, '\n', "\\0A"@);
        if c == '\n' {
            lemma_replaced_three('\\', '0', 'A', '"', "\\22"@);
        } else {
            lemma_replaced_one(c, '"', "\\22"@);
        }
    }
}

/// A constant of a program holds the text that it was made of, whatever follows it.
pub proof fn lemma_constant_reads_back(s: Text, rest: Text)
    ensures
        llvm_value(constant_text(s) + rest) == s + llvm_value(rest),
    decreases s.len(),
{
    reveal_strlit("");
    if s.len() == 0 {
        assert(constant_text(s) =~= seq![]) by {
            assert(replaced(s, '\\', "\\\\"@) == ""@);
        }
        assert(constant_text(s) + rest == rest);
        assert(s + llvm_value(rest) == llvm_value(rest));
    } else {
        let c = s[0];
        let tail = constant_text(s.skip(1)) + rest;
        lemma_first_apart(s);
        lemma_constant_parts(seq![c], s.skip(1));
        lemma_constant_one(c);
        lemma_constant_reads_back(s.skip(1), rest);
        assert(constant_text(s) + rest == constant_text(seq![c]) + tail);
        if c == '\\' {
            lemma_value_of_backslash(tail);
        } else if c == '\n' {
            lemma_value_of_number('0', 'A', tail);
        } else if c == '"' {
            lemma_value_of_number('2', '2', tail);
        } else {
            lemma_value_of_plain(c, tail);
        }
        assert(seq![c] + (s.skip(1) + llvm_value(rest)) == s + llvm_value(rest));
    }
}

proof fn lemma_value_of_end()
    ensures
        llvm_value("\\00"@) == seq!['\0'],
{
    reveal_strlit("\\00");
    assert("\\00"@ == seq!['\\', '0', '0'] + Seq::<char>::empty());
    lemma_value_of_number('0', '0', Seq::<char>::empty());
    assert(seq!['\0'] + llvm_value(Seq::<char>::empty()) == seq!['\0']);
}

proof fn lemma_byte_len_with_end(s: Text)
    ensures
        byte_len(s + seq!['\0']) == byte_len(s) + 1,
{
    assert((s + seq!['\0']).drop_last() == s);
}

/// A constant of a program is an array of as many bytes as its size says: those of the text, and a
/// zero.
pub proof fn lemma_constant_has_its_size(s: Text)
    ensures
        llvm_value(constant_text(s) + "\\00"@) == s + seq!['\0'],
        byte_len(llvm_value(constant_text(s) + "\\00"@)) == byte_len(s) + 1,
{
    lemma_constant_reads_back(s, "\\00"@);
    lemma_value_of_end();
    lemma_byte_len_with_end(s);
}

proof fn lemma_handler_parts(a: Text, b: Text)
    ensures
        handler_text(a + b) == handler_text(a) + handler_text(b),
        static_text(a + b) == static_text(a) + static_text(b),
{
    let (a1, b1) = (replaced(a, '\\', "\\\\"@), replaced(b, '\\', "\\\\"@));
    let (a2, b2) = (replaced(a1, '"', "\\22"@), replaced(b1, '"', "\\22"@));
    let (a3, b3) = (replaced(a2, '\n', "\\0A"@), replaced(b2, '\n', "\\0A"@));
    lemma_replaced_parts(a, b, '\\', "\\\\"@);
    lemma_replaced_parts(a1, b1, '"', "\\22"@);
    lemma_replaced_parts(a2, b2, '\n', "\\0A"@);
    lemma_replaced_parts(a3, b3, '\r', "\\0D"@);
    lemma_replaced_parts(handler_text(a), handler_text(b), '\t', "\\09"@);
}

proof fn lemma_handler_one(c: char)
    ensures
        handler_text(seq![c]) == (if c == '\\' {
            seq!['\\', '\\']
        } else if c == '"' {
            seq!['\\', '2', '2']
        } else if c == '\n' {
            seq!['\\', '0', 'A']
        } else if c == '\r' {
            seq!['\\', '0', 'D']
        } else {
            seq![c]
        }),
        static_text(seq![c]) == (if c == '\t' {
            seq!['\\', '0', '9']
        } else {
            handler_text(seq![c])
        }),
{
    reveal_strlit("\\\\");
    reveal_strlit("\\22");
    reveal_strlit("\\0A");
    reveal_strlit("\\0D");
    reveal_strlit("\\09");
    assert("\\\\"@ == seq!['\\', '\\']);
    assert("\\22"@ == seq!['\\', '2', '2']);
    assert("\\0A"@ == seq!['\\', '0', 'A']);
    assert("\\0D"@ == seq!['\\', '0', 'D']);
    assert("\\09"@ == seq!['\\', '0', '9']);
    lemma_replaced_one(c, '\\', "\\\\"@);
    lemma_replaced_one(c, '"', "\\22"@);
    lemma_replaced_one(c, '\n', "\\0A"@);
    lemma_replaced_one(c, '\r', "\\0D"@);
    lemma_replaced_one(c, '\t', "\\09"@);
    if c == '\\' {
        lemma_replaced_two('\\', '\\', '"', "\\22"@);
        lemma_replaced_two('\\', '\\', '\n', "\\0A"@);
        lemma_replaced_two('\\', '\\', '\r', "\\0D"@);
        lemma_replaced_two('\\', '\\', '\t', "\\09"@);
    } else if c == '"' {
        lemma_replaced_three('\\', '2', '2', '\n', "\\0A"@);
        lemma_replaced_three('\\', '2', '2', '\r', "\\0D"@);
        lemma_replaced_three('\\', '2', '2', '\t', "\\09"@);
    } else if c == '\n' {
        lemma_replaced_three('\\', '0', 'A', '\r', "\\0D"@);
        lemma_replaced_three('\\', '0', 'A', '\t', "\\09"@);
    } else if c == '\r' {
        lemma_replaced_three('\\', '0', 'D', '\t', "\\09"@);
    }
}

/// A constant of a handler holds the text that it was made of, whatever follows it.
pub proof fn lemma_handler_constant_reads_back(s: Text, rest: Text)
    ensures
        llvm_value(handler_text(s) + rest) == s + llvm_value(rest),
        llvm_value(static_text(s) + rest) == s + llvm_value(rest),
    decreases s.len(),
{
    reveal_strlit("");
    if s.len() == 0 {
        assert(handler_text(s) =~= seq![]) by {
            assert(replaced(s, '\\', "\\\\"@) == ""@);
        }
        assert(static_text(s) =~= seq![]);
        assert(handler_text(s) + rest == rest);
        assert(static_text(s) + rest == rest);
        assert(s + llvm_value(rest) == llvm_value(rest));
    } else {
        let c = s[0];
        let tail = handler_text(s.skip(1)) + rest;
        let other = static_text(s.skip(1)) + rest;
        lemma_first_apart(s);
        lemma_handler_parts(seq![c], s.skip(1));
        lemma_handler_one(c);
        lemma_handler_constant_reads_back(s.skip(1), rest);
        assert(handler_text(s) + rest == handler_text(seq![c]) + tail);
        assert(static_text(s) + rest == static_text(seq![c]) + other);
        if c == '\\' {
            lemma_value_of_backslash(tail);
            lemma_value_of_backslash(other);
        } else if c == '"' {
            lemma_value_of_number('2', '2', tail);
            lemma_value_of_number('2', '2', other);
        } else if c == '\n' {
            lemma_value_of_number('0', 'A', tail);
            lemma_value_of_number('0', 'A', other);
        } else if c == '\r' {
            lemma_value_of_number('0', 'D', tail);
            lemma_value_of_number('0', 'D', other);
        } else {
            lemma_value_of_plain(c, tail);
            if c == '\t' {
                lemma_value_of_number('0', '9', other);
            } else {
                lemma_value_of_plain(c, other);
            }
        }
        assert(seq![c] + (s.skip(1) + llvm_value(rest)) == s + llvm_value(rest));
    }
}

/// A constant of a handler is an array of as many bytes as its size says: those of the text, and a
/// zero.
pub proof fn lemma_handler_constant_has_its_size(s: Text)
    ensures
        byte_len(llvm_value(handler_text(s) + "\\00"@)) == byte_len(s) + 1,
        byte_len(llvm_value(static_text(s) + "\\00"@)) == byte_len(s) + 1,
{
    lemma_handler_constant_reads_back(s, "\\00"@);
    lemma_value_of_end();
    lemma_byte_len_with_end(s);
}

// ---------------------------------------------------------------------------------------------
// Literals of C
// ---------------------------------------------------------------------------------------------
/// What a C literal holds: a backslash gives the letters `n`, `r` and `t` their meaning, and lets
/// every other character stand for itself.
pub open spec fn c_value(t: Text) -> Text
    decreases t.len(),
{
    if t.len() == 0 {
        seq![]
    } else if t[0] == '\\' && t.len() >= 2 {
        seq![
            if t[1] == 'n' {
                '\n'
            } else if t[1] == 'r' {
                '\r'
            } else if t[1] == 't' {
                '\t'
            } else {
                t[1]
            },
        ] + c_value(t.skip(2))
    } else {
        seq![t[0]] + c_value(t.skip(1))
    }
}

proof fn lemma_c_parts(a: Text, b: Text)
    ensures
        c_string(a + b) == c_string(a) + c_string(b),
{
    let (a1, b1) = (replaced(a, '\\', "\\\\"@), replaced(b, '\\', "\\\\"@));
    let (a2, b2) = (replaced(a1, '"', "\\\""@), replaced(b1, '"', "\\\""@));
    let (a3, b3) = (replaced(a2, '\n', "\\n"@), replaced(b2, '\n', "\\n"@));
    let (a4, b4) = (replaced(a3, '\r', "\\r"@), replaced(b3, '\r', "\\r"@));
    lemma_replaced_parts(a, b, '\\', "\\\\"@);
    lemma_replaced_parts(a1, b1, '"', "\\\""@);
    lemma_replaced_parts(a2, b2, '\n', "\\n"@);
    lemma_replaced_parts(a3, b3, '\r', "\\r"@);
    lemma_replaced_parts(a4, b4, '\t', "\\t"@);
}

/// The letter with which a character is escaped.
pub open spec fn c_escape(c: char) -> Option<char> {
    if c == '\\' || c == '"' {
        Some(c)
    } else if c == '\n' {
        Some('n')
    } else if c == '\r' {
        Some('r')
    } else if c == '\t' {
        Some('t')
    } else {
        None
    }
}

proof fn lemma_c_one(c: char)
    ensures
        c_string(seq![c]) == (match c_escape(c) {
            Some(e) => seq!['\\', e],
            None => seq![c],
        }),
{
    reveal_strlit("\\\\");
    reveal_strlit("\\\"");
    reveal_strlit("\\n");
    reveal_strlit("\\r");
    reveal_strlit("\\t");
    assert("\\\\"@ == seq!['\\', '\\']);
    assert("\\\""@ == seq!['\\', '"']);
    assert("\\n"@ == seq!['\\', 'n']);
    assert("\\r"@ == seq!['\\', 'r']);
    assert("\\t"@ == seq!['\\', 't']);
    lemma_replaced_one(c, '\\', "\\\\"@);
    lemma_replaced_one(c, '"', "\\\""@);
    lemma_replaced_one(c, '\n', "\\n"@);
    lemma_replaced_one(c, '\r', "\\r"@);
    lemma_replaced_one(c, '\t', "\\t"@);
    if c == '\\' {
        lemma_replaced_two('\\', '\\', '"', "\\\""@);
    }
    if c == '\\' || c == '"' {
        lemma_replaced_two('\\', c, '\n', "\\n"@);
    }
    if c == '\\' || c == '"' || c == '\n' {
        let e = c_escape(c)->0;
        lemma_replaced_two('\\', e, '\r', "\\r"@);
        lemma_replaced_two('\\', e, '\t', "\\t"@);
    }
    if c == '\r' {
        lemma_replaced_two('\\', 'r', '\t', "\\t"@);
    }
}

/// A literal of a C program holds the text that it was made of, whatever follows it.
pub proof fn lemma_c_string_reads_back(s: Text, rest: Text)
    ensures
        c_value(c_string(s) + rest) == s + c_value(rest),
    decreases s.len(),
{
    reveal_strlit("");
    if s.len() == 0 {
        assert(c_string(s) =~= seq![]) by {
            assert(replaced(s, '\\', "\\\\"@) == ""@);
        }
        assert(c_string(s) + rest == rest);
        assert(s + c_value(rest) == c_value(rest));
    } else {
        let c = s[0];
        let tail = c_string(s.skip(1)) + rest;
        lemma_first_apart(s);
        lemma_c_parts(seq![c], s.skip(1));
        lemma_c_one(c);
        lemma_c_string_reads_back(s.skip(1), rest);
        let all = c_string(s) + rest;
        assert(all == c_string(seq![c]) + tail);
        match c_escape(c) {
            Some(e) => {
                assert(all.skip(2) == tail);
            },
            None => {
                assert(all.skip(1) == tail);
            },
        }
        assert(seq![c] + (s.skip(1) + c_value(rest)) == s + c_value(rest));
    }
}

} // verus!
