//! What the code for a match does: a test is true exactly where the value matches, names are bound to the
//! parts of the value, and the arm that matches first is the one that runs.

use vstd::prelude::*;

use crate::codegen::llvm::flow::{
    between, comes, laid, lemma_comes_itself, lemma_comes_next, lemma_laid_branch, lemma_laid_code, lemma_laid_goto,
    lemma_laid_mark, lemma_laid_nothing, lemma_laid_part, lemma_mark, mark_from, next, no_pieces, piece_text,
    pieces_text, start, Piece, Spot,
};
use crate::codegen::llvm::handler::bool_text;
use crate::codegen::llvm::laws::{
    keeps_compile_expr, keeps_compile_pattern_bind, keeps_compile_pattern_match, lemma_grows_on,
};
use crate::codegen::llvm::library::{
    constant_line, handed, lemma_literal_runs, lemma_make_string, literal_code, Given,
};
use crate::codegen::llvm::meaning::{
    group_machine, instr_text, int_in, kept, lemma_arguments, lemma_number_is_itself, lemma_older_on,
    lemma_register_ends, lemma_register_value, lemma_wrote_nothing, no_args, no_code, older, opcode_text, parts_in,
    real_in, register, regs_kept, run, truth, value, wrote, Instr, Machine, Opcode, Value, World,
};
use crate::codegen::llvm::names::size_text;
use crate::codegen::llvm::operators::{lemma_and_of_truths, lemma_then, lemma_then_label};
use crate::codegen::llvm::state::Gen;
use crate::syntax::ast::{BinOp, MatchArm, Pattern};
use crate::text::{byte_len, dec, int_dec, Text};

verus! {

// ---------------------------------------------------------------------------------------------
// Tests
// ---------------------------------------------------------------------------------------------
/// A pattern that every value of the type matches, as far as it is tested.
pub open spec fn always(pattern: Pattern, ty: Text) -> bool {
    match pattern {
        Pattern::Ignore | Pattern::Ident(_) | Pattern::Rest(_) => true,
        Pattern::LitInt(_) => ty != "i64"@,
        Pattern::LitReal(_) => ty != "double"@,
        Pattern::LitBool(b) => ty != "i1"@ && b,
        Pattern::LitStr(_) => ty != "%yk_string"@,
        Pattern::Variant(_, _) => ty != "%yk_variant"@,
        Pattern::Destruct(_) | Pattern::ListDestruct(_) => true,
    }
}

/// Whether a value of the type matches a pattern other than a string: a literal is matched by the value that
/// it stands for, a variant by the value that carries its tag.
pub open spec fn is_match(w: World, m: Machine, g: Gen, pattern: Pattern, v: Value, ty: Text) -> bool {
    if always(pattern, ty) {
        true
    } else {
        match pattern {
            Pattern::LitInt(k) => int_in(v) == k,
            Pattern::LitReal(x) => (w.test)(BinOp::Eq, real_in(v), real_in(value(w, m, x.fixed@))),
            Pattern::LitBool(b) => ty == "i1"@ && int_in(v) == truth(b),
            Pattern::Variant(name, _) => int_in(parts_in(v)[0]) == g.variant_name_tag(name@),
            _ => false,
        }
    }
}

/// The condition holds exactly where the value matches; no condition always holds.
pub open spec fn holds(w: World, m: Machine, cond: Option<Text>) -> bool {
    match cond {
        Some(c) => int_in(value(w, m, c)) != 0,
        None => true,
    }
}

proof fn lemma_literal_test(g: Gen, instr: Text, op: Opcode, ty: Text, val: Text, literal: Text)
    requires
        g.label_counter < usize::MAX,
        instr == opcode_text(op) + " "@ + ty,
    ensures
        ({
            let n = g.label_counter;
            let (h, c) = g.match_literal(instr, val, literal);
            &&& c == register(n)
            &&& h == (Gen { label_counter: n + 1, output: h.output, ..g })
            &&& wrote(g, h, no_code().push(Instr::Binary { to: register(n), op, ty, a: val, b: literal }))
        }),
{
    let n = g.label_counter;
    lemma_wrote_nothing(g);
    lemma_then_label(g, g, no_code());
    let (g1, tmp) = g.fresh_label();
    let i = Instr::Binary { to: register(n), op, ty, a: val, b: literal };
    let line = "%"@ + tmp + " = "@ + instr + " "@ + val + ", "@ + literal;
    assert(line == instr_text(i));
    lemma_then(g, g1, no_code(), i, line);
}

proof fn lemma_truth_literals(w: World, m: Machine, b: bool)
    ensures
        value(w, m, bool_text(b)) == Value::Int(truth(b)),
        bool_text(b).len() > 0,
        bool_text(b)[0] != '%',
{
    reveal_strlit("true");
    reveal_strlit("false");
    assert("true"@[0] == 't');
    assert("false"@[0] == 'f');
    assert("true"@ != "false"@);
}

/// The test that is written for a pattern other than a string literal is true exactly where the value
/// matches the pattern: for an integer literal `k` where the value is `k`, and likewise for real numbers,
/// truth values and the tags of variants.
pub proof fn lemma_test_is_match(g: Gen, pattern: Pattern, val: Text, ty: Text)
    requires
        !(pattern is LitStr && ty == "%yk_string"@),
        g.label_counter + 2 <= usize::MAX,
        older(val, g.label_counter),
    ensures
        ({
            let (h, cond) = g.compile_pattern_match(pattern, val, ty);
            &&& h.indent == g.indent
            &&& g.label_counter <= h.label_counter <= g.label_counter + 2
            &&& exists|code: Seq<Instr>| #[trigger]
                wrote(g, h, code) && forall|w: World, m: Machine|
                    {
                        let after = #[trigger] run(w, code, m);
                        &&& kept(m, after, g.label_counter)
                        &&& holds(w, after, cond) == is_match(w, m, g, pattern, value(w, m, val), ty)
                    }
        }),
{
    broadcast use group_machine;

    let n = g.label_counter;
    let (h, cond) = g.compile_pattern_match(pattern, val, ty);
    lemma_wrote_nothing(g);
    reveal_strlit(" ");
    reveal_strlit("icmp eq i64");
    reveal_strlit("icmp eq i1");
    reveal_strlit("icmp eq");
    reveal_strlit("i64");
    reveal_strlit("i1");
    reveal_strlit("fcmp oeq double");
    reveal_strlit("fcmp oeq");
    reveal_strlit("double");
    assert("icmp eq i64"@ == "icmp eq"@ + " "@ + "i64"@);
    assert("icmp eq i1"@ == "icmp eq"@ + " "@ + "i1"@);
    assert("fcmp oeq double"@ == "fcmp oeq"@ + " "@ + "double"@);
    match pattern {
        Pattern::LitInt(k) if ty == "i64"@ => {
            let literal = int_dec(k as int);
            lemma_literal_test(g, "icmp eq i64"@, Opcode::IntEq, "i64"@, val, literal);
            let code = no_code().push(
                Instr::Binary { to: register(n), op: Opcode::IntEq, ty: "i64"@, a: val, b: literal },
            );
            assert forall|w: World, m: Machine|
                {
                    let after = #[trigger] run(w, code, m);
                    &&& kept(m, after, n)
                    &&& holds(w, after, cond) == is_match(w, m, g, pattern, value(w, m, val), ty)
                } by {
                lemma_number_is_itself(w, m, k as int);
            }
            assert(wrote(g, h, code));
        },
        Pattern::LitReal(x) if ty == "double"@ => {
            lemma_literal_test(g, "fcmp oeq double"@, Opcode::RealOeq, "double"@, val, x.fixed@);
            let code = no_code().push(
                Instr::Binary { to: register(n), op: Opcode::RealOeq, ty: "double"@, a: val, b: x.fixed@ },
            );
            assert(wrote(g, h, code));
        },
        Pattern::LitBool(b) if ty == "i1"@ => {
            lemma_literal_test(g, "icmp eq i1"@, Opcode::IntEq, "i1"@, val, bool_text(b));
            let code = no_code().push(
                Instr::Binary { to: register(n), op: Opcode::IntEq, ty: "i1"@, a: val, b: bool_text(b) },
            );
            assert forall|w: World, m: Machine|
                {
                    let after = #[trigger] run(w, code, m);
                    &&& kept(m, after, n)
                    &&& holds(w, after, cond) == is_match(w, m, g, pattern, value(w, m, val), ty)
                } by {
                lemma_truth_literals(w, m, b);
            }
            assert(wrote(g, h, code));
        },
        Pattern::Variant(name, _) if ty == "%yk_variant"@ => {
            reveal_strlit(" = extractvalue %yk_variant ");
            reveal_strlit(" = extractvalue ");
            reveal_strlit("%yk_variant");
            reveal_strlit(", 0");
            reveal_strlit(", ");
            reveal_strlit(" = icmp eq i64 %");
            reveal_strlit(" = ");
            reveal_strlit("%");
            let tag = g.variant_name_tag(name@) as int;
            lemma_then_label(g, g, no_code());
            let (g1, t) = g.fresh_label();
            let i1 = Instr::Extract { to: register(n), ty: "%yk_variant"@, a: val, index: 0 };
            let l1 = "%"@ + t + " = extractvalue %yk_variant "@ + val + ", 0"@;
            assert(" = extractvalue %yk_variant "@ == " = extractvalue "@ + "%yk_variant"@ + " "@);
            assert(dec(0) == seq!['0']);
            assert(", 0"@ == ", "@ + dec(0));
            assert(l1 == instr_text(i1));
            lemma_then(g, g1, no_code(), i1, l1);
            let g2 = g1.e(l1);
            let c1 = no_code().push(i1);
            lemma_then_label(g, g2, c1);
            let (g3, u) = g2.fresh_label();
            let i2 = Instr::Binary {
                to: register(n + 1),
                op: Opcode::IntEq,
                ty: "i64"@,
                a: register(n),
                b: int_dec(tag),
            };
            let l2 = "%"@ + u + " = icmp eq i64 %"@ + t + ", "@ + int_dec(tag);
            assert(" = icmp eq i64 %"@ == " = "@ + "icmp eq"@ + " "@ + "i64"@ + " "@ + "%"@);
            assert(l2 == instr_text(i2));
            lemma_then(g, g3, c1, i2, l2);
            let code = c1.push(i2);
            assert forall|w: World, m: Machine|
                {
                    let after = #[trigger] run(w, code, m);
                    &&& kept(m, after, n)
                    &&& holds(w, after, cond) == is_match(w, m, g, pattern, value(w, m, val), ty)
                } by {
                lemma_number_is_itself(w, run(w, c1, m), tag);
            }
            assert(wrote(g, h, code));
        },
        _ => {
            assert forall|w: World, m: Machine|
                {
                    let after = #[trigger] run(w, no_code(), m);
                    &&& kept(m, after, n)
                    &&& holds(w, after, cond) == is_match(w, m, g, pattern, value(w, m, val), ty)
                } by {
                lemma_truth_literals(w, m, true);
                lemma_truth_literals(w, m, false);
            }
            assert(wrote(g, h, no_code()));
        },
    }
}

/// The instructions that compare the length of a string and take its bytes.
spec fn string_head(n: nat, val: Text, s: Text) -> Seq<Instr> {
    no_code().push(Instr::Extract { to: register(n), ty: "%yk_string"@, a: val, index: 1 }).push(
        Instr::Binary { to: register(n + 1), op: Opcode::IntEq, ty: "i64"@, a: register(n), b: size_text(s) },
    ).push(Instr::Extract { to: register(n + 3), ty: "%yk_string"@, a: val, index: 0 })
}

/// What the bytes are compared with.
spec fn compare_args(n: nat, s: Text) -> Seq<(Text, Text)> {
    no_args().push((register(n + 3), "ptr"@)).push((register(n + 10), "ptr"@)).push((size_text(s), "i64"@))
}

/// The instructions that compare the bytes of a string with those of a literal, behind others.
spec fn string_tail(code: Seq<Instr>, n: nat, s: Text) -> Seq<Instr> {
    code.push(Instr::Alloca { to: register(n + 8), ty: "%yk_string"@ }).push(
        Instr::Store { ty: "%yk_string"@, a: register(n + 7), at: register(n + 8) },
    ).push(Instr::Field { to: register(n + 9), ty: "%yk_string"@, at: register(n + 8), index: 0 }).push(
        Instr::Load { to: register(n + 10), ty: "ptr"@, at: register(n + 9) },
    ).push(
        Instr::Call { to: register(n + 2), ret: "i32"@, function: "@"@ + "memcmp"@, args: compare_args(n, s) },
    ).push(
        Instr::Binary { to: register(n + 11), op: Opcode::IntEq, ty: "i32"@, a: register(n + 2), b: int_dec(0) },
    ).push(
        Instr::Binary { to: register(n + 12), op: Opcode::And, ty: "i1"@, a: register(n + 1), b: register(n + 11) },
    )
}

proof fn lemma_string_head(g: Gen, val: Text, s: Text)
    requires
        g.label_counter + 4 <= usize::MAX,
    ensures
        ({
            let n = g.label_counter;
            let (g1, a) = g.fresh_label();
            let g2 = g1.e("%"@ + a + " = extractvalue %yk_string "@ + val + ", 1"@);
            let (g3, b) = g2.fresh_label();
            let g4 = g3.e("%"@ + b + " = icmp eq i64 %"@ + a + ", "@ + size_text(s));
            let (g5, c) = g4.fresh_label();
            let (g6, d) = g5.fresh_label();
            let g7 = g6.e("%"@ + d + " = extractvalue %yk_string "@ + val + ", 0"@);
            &&& wrote(g, g7, string_head(n, val, s))
            &&& g7 == (Gen { label_counter: n + 4, output: g7.output, ..g })
            &&& "%"@ + b == register(n + 1)
            &&& "%"@ + c == register(n + 2)
            &&& "%"@ + d == register(n + 3)
        }),
{
    reveal_strlit(" = extractvalue %yk_string ");
    reveal_strlit(" = extractvalue ");
    reveal_strlit("%yk_string");
    reveal_strlit(" ");
    reveal_strlit(", 1");
    reveal_strlit(", 0");
    reveal_strlit(", ");
    reveal_strlit(" = icmp eq i64 %");
    reveal_strlit(" = ");
    reveal_strlit("icmp eq");
    reveal_strlit("i64");
    reveal_strlit("%");
    let n = g.label_counter;
    assert(dec(0) == seq!['0']);
    assert(dec(1) == seq!['1']);
    assert(", 0"@ == ", "@ + dec(0));
    assert(", 1"@ == ", "@ + dec(1));
    assert(" = extractvalue %yk_string "@ == " = extractvalue "@ + "%yk_string"@ + " "@);
    assert(" = icmp eq i64 %"@ == " = "@ + "icmp eq"@ + " "@ + "i64"@ + " "@ + "%"@);
    lemma_wrote_nothing(g);
    lemma_then_label(g, g, no_code());
    let (g1, a) = g.fresh_label();
    let i1 = Instr::Extract { to: register(n), ty: "%yk_string"@, a: val, index: 1 };
    let l1 = "%"@ + a + " = extractvalue %yk_string "@ + val + ", 1"@;
    assert(l1 == instr_text(i1));
    lemma_then(g, g1, no_code(), i1, l1);
    let g2 = g1.e(l1);
    let c1 = no_code().push(i1);
    lemma_then_label(g, g2, c1);
    let (g3, b) = g2.fresh_label();
    let i2 = Instr::Binary { to: register(n + 1), op: Opcode::IntEq, ty: "i64"@, a: register(n), b: size_text(s) };
    let l2 = "%"@ + b + " = icmp eq i64 %"@ + a + ", "@ + size_text(s);
    assert(l2 == instr_text(i2));
    lemma_then(g, g3, c1, i2, l2);
    let g4 = g3.e(l2);
    let c2 = c1.push(i2);
    lemma_then_label(g, g4, c2);
    let (g5, c) = g4.fresh_label();
    lemma_then_label(g, g5, c2);
    let (g6, d) = g5.fresh_label();
    let i3 = Instr::Extract { to: register(n + 3), ty: "%yk_string"@, a: val, index: 0 };
    let l3 = "%"@ + d + " = extractvalue %yk_string "@ + val + ", 0"@;
    assert(l3 == instr_text(i3));
    lemma_then(g, g6, c2, i3, l3);
}

proof fn lemma_tail_texts()
    ensures
        "0"@ == int_dec(0),
        " = alloca %yk_string, align 8"@ == " = alloca "@ + "%yk_string"@ + ", align 8"@,
        "store %yk_string "@ == "store "@ + "%yk_string"@ + " "@,
        ", ptr %"@ == ", ptr "@ + "%"@,
        " = getelementptr inbounds %yk_string, ptr %"@ == " = getelementptr inbounds "@ + "%yk_string"@ + ", ptr "@
            + "%"@,
        ", i32 0, i32 0"@ == ", i32 0, i32 "@ + dec(0),
        " = load ptr, ptr %"@ == " = load "@ + "ptr"@ + ", ptr "@ + "%"@,
        " = icmp eq i32 %"@ == " = "@ + "icmp eq"@ + " "@ + "i32"@ + " "@ + "%"@,
        ", 0"@ == ", "@ + "0"@,
        " = and i1 %"@ == " = "@ + "and"@ + " "@ + "i1"@ + " "@ + "%"@,
        ", %"@ == ", "@ + "%"@,
{
    reveal_strlit(" = alloca %yk_string, align 8");
    reveal_strlit(" = alloca ");
    reveal_strlit("%yk_string");
    reveal_strlit(", align 8");
    reveal_strlit("store %yk_string ");
    reveal_strlit("store ");
    reveal_strlit(" ");
    reveal_strlit(", ptr %");
    reveal_strlit(", ptr ");
    reveal_strlit("%");
    reveal_strlit(" = getelementptr inbounds %yk_string, ptr %");
    reveal_strlit(" = getelementptr inbounds ");
    reveal_strlit(", i32 0, i32 0");
    reveal_strlit(", i32 0, i32 ");
    reveal_strlit(" = load ptr, ptr %");
    reveal_strlit(" = load ");
    reveal_strlit("ptr");
    reveal_strlit(" = call i32 @memcmp(ptr %");
    reveal_strlit(" = call ");
    reveal_strlit("i32");
    reveal_strlit("@");
    reveal_strlit("memcmp");
    reveal_strlit("(");
    reveal_strlit(")");
    reveal_strlit(", i64 ");
    reveal_strlit(", ");
    reveal_strlit("i64");
    reveal_strlit(" = icmp eq i32 %");
    reveal_strlit(" = ");
    reveal_strlit("icmp eq");
    reveal_strlit(", 0");
    reveal_strlit("0");
    reveal_strlit(" = and i1 %");
    reveal_strlit("and");
    reveal_strlit("i1");
    reveal_strlit(", %");
    assert(dec(0) == seq!['0']);
    assert("0"@ == int_dec(0));
    assert(" = alloca %yk_string, align 8"@ == " = alloca "@ + "%yk_string"@ + ", align 8"@);
    assert("store %yk_string "@ == "store "@ + "%yk_string"@ + " "@);
    assert(", ptr %"@ == ", ptr "@ + "%"@);
    assert(" = getelementptr inbounds %yk_string, ptr %"@ == " = getelementptr inbounds "@ + "%yk_string"@ + ", ptr "@
        + "%"@);
    assert(", i32 0, i32 0"@ == ", i32 0, i32 "@ + dec(0));
    assert(" = load ptr, ptr %"@ == " = load "@ + "ptr"@ + ", ptr "@ + "%"@);
    assert(" = icmp eq i32 %"@ == " = "@ + "icmp eq"@ + " "@ + "i32"@ + " "@ + "%"@);
    assert(", 0"@ == ", "@ + "0"@);
    assert(" = and i1 %"@ == " = "@ + "and"@ + " "@ + "i1"@ + " "@ + "%"@);
    assert(", %"@ == ", "@ + "%"@);
}

#[verifier::rlimit(80)]
proof fn lemma_string_tail(g: Gen, h: Gen, code: Seq<Instr>, n: nat, s: Text, b: Text, c: Text, d: Text)
    requires
        wrote(g, h, code),
        h.label_counter == n + 8,
        n + 13 <= usize::MAX,
        "%"@ + b == register(n + 1),
        "%"@ + c == register(n + 2),
        "%"@ + d == register(n + 3),
    ensures
        ({
            let (g1, e) = h.fresh_label();
            let g2 = g1.e("%"@ + e + " = alloca %yk_string, align 8"@);
            let g3 = g2.e("store %yk_string "@ + register(n + 7) + ", ptr %"@ + e);
            let (g4, f) = g3.fresh_label();
            let g5 = g4.e("%"@ + f + " = getelementptr inbounds %yk_string, ptr %"@ + e + ", i32 0, i32 0"@);
            let (g6, p) = g5.fresh_label();
            let g7 = g6.e("%"@ + p + " = load ptr, ptr %"@ + f);
            let g8 = g7.e(
                "%"@ + c + " = call i32 @memcmp(ptr %"@ + d + ", ptr %"@ + p + ", i64 "@ + size_text(s) + ")"@,
            );
            let (g9, q) = g8.fresh_label();
            let g10 = g9.e("%"@ + q + " = icmp eq i32 %"@ + c + ", 0"@);
            let (g11, r) = g10.fresh_label();
            let g12 = g11.e("%"@ + r + " = and i1 %"@ + b + ", %"@ + q);
            &&& wrote(g, g12, string_tail(code, n, s))
            &&& "%"@ + r == register(n + 12)
            &&& g12.label_counter == n + 13
        }),
{
    lemma_tail_texts();
    lemma_then_label(g, h, code);
    let (g1, e) = h.fresh_label();
    let i1 = Instr::Alloca { to: register(n + 8), ty: "%yk_string"@ };
    let l1 = "%"@ + e + " = alloca %yk_string, align 8"@;
    assert(l1 == instr_text(i1));
    lemma_then(g, g1, code, i1, l1);
    let g2 = g1.e(l1);
    let c1 = code.push(i1);
    let i2 = Instr::Store { ty: "%yk_string"@, a: register(n + 7), at: register(n + 8) };
    let l2 = "store %yk_string "@ + register(n + 7) + ", ptr %"@ + e;
    assert(l2 == instr_text(i2));
    lemma_then(g, g2, c1, i2, l2);
    let g3 = g2.e(l2);
    let c2 = c1.push(i2);
    lemma_then_label(g, g3, c2);
    let (g4, f) = g3.fresh_label();
    let i3 = Instr::Field { to: register(n + 9), ty: "%yk_string"@, at: register(n + 8), index: 0 };
    let l3 = "%"@ + f + " = getelementptr inbounds %yk_string, ptr %"@ + e + ", i32 0, i32 0"@;
    assert(l3 == instr_text(i3));
    lemma_then(g, g4, c2, i3, l3);
    let g5 = g4.e(l3);
    let c3 = c2.push(i3);
    lemma_then_label(g, g5, c3);
    let (g6, p) = g5.fresh_label();
    let i4 = Instr::Load { to: register(n + 10), ty: "ptr"@, at: register(n + 9) };
    let l4 = "%"@ + p + " = load ptr, ptr %"@ + f;
    assert(l4 == instr_text(i4));
    lemma_then(g, g6, c3, i4, l4);
    let g7 = g6.e(l4);
    let c4 = c3.push(i4);
    lemma_compared(g, g7, c4, n, s, c, d, p);
    let i5 = Instr::Call { to: register(n + 2), ret: "i32"@, function: "@"@ + "memcmp"@, args: compare_args(n, s) };
    let l5 = "%"@ + c + " = call i32 @memcmp(ptr %"@ + d + ", ptr %"@ + p + ", i64 "@ + size_text(s) + ")"@;
    let g8 = g7.e(l5);
    let c5 = c4.push(i5);
    lemma_then_label(g, g8, c5);
    let (g9, q) = g8.fresh_label();
    let i6 = Instr::Binary { to: register(n + 11), op: Opcode::IntEq, ty: "i32"@, a: register(n + 2), b: int_dec(0) };
    let l6 = "%"@ + q + " = icmp eq i32 %"@ + c + ", 0"@;
    assert(l6 == instr_text(i6));
    lemma_then(g, g9, c5, i6, l6);
    let g10 = g9.e(l6);
    let c6 = c5.push(i6);
    lemma_then_label(g, g10, c6);
    let (g11, r) = g10.fresh_label();
    let i7 = Instr::Binary { to: register(n + 12), op: Opcode::And, ty: "i1"@, a: register(n + 1), b: register(n + 11) };
    let l7 = "%"@ + r + " = and i1 %"@ + b + ", %"@ + q;
    assert(l7 == instr_text(i7));
    lemma_then(g, g11, c6, i7, l7);
}

proof fn lemma_compared(g: Gen, h: Gen, code: Seq<Instr>, n: nat, s: Text, c: Text, d: Text, p: Text)
    requires
        wrote(g, h, code),
        "%"@ + c == register(n + 2),
        "%"@ + d == register(n + 3),
        "%"@ + p == register(n + 10),
    ensures
        ({
            let i = Instr::Call {
                to: register(n + 2),
                ret: "i32"@,
                function: "@"@ + "memcmp"@,
                args: compare_args(n, s),
            };
            let l = "%"@ + c + " = call i32 @memcmp(ptr %"@ + d + ", ptr %"@ + p + ", i64 "@ + size_text(s) + ")"@;
            &&& wrote(g, h.e(l), code.push(i))
            &&& h.e(l) == (Gen { output: h.e(l).output, ..h })
        }),
{
    reveal_strlit(" = call i32 @memcmp(ptr %");
    reveal_strlit(" = call ");
    reveal_strlit("i32");
    reveal_strlit(" ");
    reveal_strlit("@");
    reveal_strlit("memcmp");
    reveal_strlit("(");
    reveal_strlit(")");
    reveal_strlit("ptr");
    reveal_strlit("%");
    reveal_strlit(", ptr %");
    reveal_strlit(", i64 ");
    reveal_strlit(", ");
    reveal_strlit("i64");
    let i = Instr::Call { to: register(n + 2), ret: "i32"@, function: "@"@ + "memcmp"@, args: compare_args(n, s) };
    let l = "%"@ + c + " = call i32 @memcmp(ptr %"@ + d + ", ptr %"@ + p + ", i64 "@ + size_text(s) + ")"@;
    lemma_arguments((register(n + 3), "ptr"@), (register(n + 10), "ptr"@), (size_text(s), "i64"@));
    assert(" = call i32 @memcmp(ptr %"@ == " = call "@ + "i32"@ + " "@ + ("@"@ + "memcmp"@) + "("@ + ("ptr"@ + " "@
        + "%"@));
    assert(", ptr %"@ == ", "@ + ("ptr"@ + " "@ + "%"@));
    assert(", i64 "@ == ", "@ + ("i64"@ + " "@));
    let head = "%"@ + c + " = call "@ + "i32"@ + " "@ + ("@"@ + "memcmp"@) + "("@;
    assert(l == head + (("ptr"@ + " "@ + ("%"@ + d)) + ", "@ + ("ptr"@ + " "@ + ("%"@ + p)) + ", "@ + ("i64"@ + " "@
        + size_text(s))) + ")"@);
    assert(l == instr_text(i));
    lemma_then(g, h, code, i, l);
}

/// The test that is written for a string literal compares the length of the value with that of the literal,
/// and the bytes of the value with the bytes of a constant that holds the literal; it is true exactly where
/// both are equal. That the bytes are equal is what `memcmp` says by answering zero.
pub proof fn lemma_string_test(g: Gen, s: String, val: Text)
    requires
        g.label_counter + 13 <= usize::MAX,
        older(val, g.label_counter),
    ensures
        ({
            let n = g.label_counter;
            let (h, cond) = g.compile_pattern_match(Pattern::LitStr(s), val, "%yk_string"@);
            &&& cond is Some
            &&& h.string_constants == g.string_constants + constant_line(
                "yk_"@ + dec(n + 4),
                s@,
            )
            &&& exists|code: Seq<Instr>| #[trigger]
                wrote(g, h, code) && forall|w: World, m: Machine|
                    {
                        let after = #[trigger] run(w, code, m);
                        let c = after.calls.last();
                        let v = parts_in(value(w, m, val));
                        &&& regs_kept(m, after, n)
                        &&& after.calls == m.calls.push(c)
                        &&& handed(
                            c,
                            "memcmp"@,
                            seq![
                                Given::Itself(v[0]),
                                Given::Itself(Value::Global("@"@ + ("yk_"@ + dec(n + 4)))),
                                Given::Itself(Value::Int(byte_len(s@) as int)),
                            ],
                        )
                        &&& holds(w, after, cond) <==> int_in(v[1]) == byte_len(s@) && int_in((w.answer)(c)) == 0
                    }
        }),
{
    broadcast use group_machine;

    let n = g.label_counter;
    let (h, cond) = g.compile_pattern_match(Pattern::LitStr(s), val, "%yk_string"@);
    lemma_string_head(g, val, s@);
    let (g1, a) = g.fresh_label();
    let g2 = g1.e("%"@ + a + " = extractvalue %yk_string "@ + val + ", 1"@);
    let (g3, b) = g2.fresh_label();
    let g4 = g3.e("%"@ + b + " = icmp eq i64 %"@ + a + ", "@ + size_text(s@));
    let (g5, c) = g4.fresh_label();
    let (g6, d) = g5.fresh_label();
    let g7 = g6.e("%"@ + d + " = extractvalue %yk_string "@ + val + ", 0"@);
    let head = string_head(n, val, s@);
    lemma_make_string(g, g7, head, s@);
    let (g8, made) = g7.make_string_slot(s@);
    let middle = literal_code(head, n + 4, s@);
    lemma_string_tail(g, g8, middle, n, s@, b, c, d);
    let code = string_tail(middle, n, s@);
    assert(wrote(g, h, code));
    lemma_tail_constants(g8, n, s@, b, c, d);
    assert forall|w: World, m: Machine|
        {
            let after = #[trigger] run(w, code, m);
            let c = after.calls.last();
            let v = parts_in(value(w, m, val));
            &&& regs_kept(m, after, n)
            &&& after.calls == m.calls.push(c)
            &&& handed(
                c,
                "memcmp"@,
                seq![
                    Given::Itself(v[0]),
                    Given::Itself(Value::Global("@"@ + ("yk_"@ + dec(n + 4)))),
                    Given::Itself(Value::Int(byte_len(s@) as int)),
                ],
            )
            &&& holds(w, after, cond) <==> int_in(v[1]) == byte_len(s@) && int_in((w.answer)(c)) == 0
        } by {
        lemma_string_runs(w, m, n, val, s@);
    }
}

proof fn lemma_tail_constants(h: Gen, n: nat, s: Text, b: Text, c: Text, d: Text)
    requires
        h.label_counter == n + 8,
        n + 13 <= usize::MAX,
    ensures
        ({
            let (g1, e) = h.fresh_label();
            let g2 = g1.e("%"@ + e + " = alloca %yk_string, align 8"@);
            let g3 = g2.e("store %yk_string "@ + register(n + 7) + ", ptr %"@ + e);
            let (g4, f) = g3.fresh_label();
            let g5 = g4.e("%"@ + f + " = getelementptr inbounds %yk_string, ptr %"@ + e + ", i32 0, i32 0"@);
            let (g6, p) = g5.fresh_label();
            let g7 = g6.e("%"@ + p + " = load ptr, ptr %"@ + f);
            let g8 = g7.e(
                "%"@ + c + " = call i32 @memcmp(ptr %"@ + d + ", ptr %"@ + p + ", i64 "@ + size_text(s) + ")"@,
            );
            let (g9, q) = g8.fresh_label();
            let g10 = g9.e("%"@ + q + " = icmp eq i32 %"@ + c + ", 0"@);
            let (g11, r) = g10.fresh_label();
            let g12 = g11.e("%"@ + r + " = and i1 %"@ + b + ", %"@ + q);
            g12.string_constants == h.string_constants
        }),
{
    reveal(Gen::e);
    reveal(Gen::fresh_label);
}

/// The machine behind the literal, and the one in front of the comparison.
spec fn string_load(code: Seq<Instr>, n: nat) -> Seq<Instr> {
    code.push(Instr::Alloca { to: register(n + 8), ty: "%yk_string"@ }).push(
        Instr::Store { ty: "%yk_string"@, a: register(n + 7), at: register(n + 8) },
    ).push(Instr::Field { to: register(n + 9), ty: "%yk_string"@, at: register(n + 8), index: 0 }).push(
        Instr::Load { to: register(n + 10), ty: "ptr"@, at: register(n + 9) },
    )
}

proof fn lemma_head_runs(w: World, m: Machine, n: nat, val: Text, s: Text)
    requires
        older(val, n),
    ensures
        ({
            let v = parts_in(value(w, m, val));
            let m1 = run(w, string_head(n, val, s), m);
            &&& value(w, m1, register(n + 1)) == Value::Int(truth(int_in(v[1]) == byte_len(s)))
            &&& value(w, m1, register(n + 3)) == v[0]
            &&& kept(m, m1, n)
        }),
{
    broadcast use group_machine;

    let head = string_head(n, val, s);
    assert(size_text(s) == int_dec(byte_len(s) as int));
    lemma_number_is_itself(w, run(w, no_code().push(head[0]), m), byte_len(s) as int);
}

proof fn lemma_load_runs(w: World, m: Machine, code: Seq<Instr>, n: nat, p: Value, l: Value)
    requires
        value(w, run(w, code, m), register(n + 7)) == Value::Parts(seq![p, l]),
    ensures
        ({
            let m2 = run(w, code, m);
            let m6 = run(w, string_load(code, n), m);
            &&& value(w, m6, register(n + 10)) == p
            &&& regs_kept(m2, m6, n + 8)
            &&& m6.calls == m2.calls
        }),
{
    broadcast use group_machine;

}

proof fn lemma_compare_runs(w: World, m: Machine, code: Seq<Instr>, n: nat, s: Text, b: bool)
    requires
        value(w, run(w, code, m), register(n + 1)) == Value::Int(truth(b)),
    ensures
        ({
            let m6 = run(w, code, m);
            let after = run(w, string_compare(code, n, s), m);
            let c = after.calls.last();
            &&& after.calls == m6.calls.push(c)
            &&& c.function == Value::Global("@"@ + "memcmp"@)
            &&& c.args.len() == 3
            &&& c.args[0] == value(w, m6, register(n + 3))
            &&& c.args[1] == value(w, m6, register(n + 10))
            &&& c.args[2] == Value::Int(byte_len(s) as int)
            &&& int_in(value(w, after, register(n + 12))) != 0 <==> b && int_in((w.answer)(c)) == 0
            &&& regs_kept(m6, after, n)
        }),
{
    broadcast use group_machine;

    let m6 = run(w, code, m);
    assert(size_text(s) == int_dec(byte_len(s) as int));
    lemma_number_is_itself(w, m6, byte_len(s) as int);
    let i5 = Instr::Call { to: register(n + 2), ret: "i32"@, function: "@"@ + "memcmp"@, args: compare_args(n, s) };
    let m7 = run(w, code.push(i5), m);
    let call = m7.calls.last();
    lemma_number_is_itself(w, m7, 0);
    lemma_and_of_truths(truth(b), truth(int_in((w.answer)(call)) == 0));
}

spec fn string_compare(code: Seq<Instr>, n: nat, s: Text) -> Seq<Instr> {
    code.push(
        Instr::Call { to: register(n + 2), ret: "i32"@, function: "@"@ + "memcmp"@, args: compare_args(n, s) },
    ).push(
        Instr::Binary { to: register(n + 11), op: Opcode::IntEq, ty: "i32"@, a: register(n + 2), b: int_dec(0) },
    ).push(
        Instr::Binary { to: register(n + 12), op: Opcode::And, ty: "i1"@, a: register(n + 1), b: register(n + 11) },
    )
}

proof fn lemma_string_runs(w: World, m: Machine, n: nat, val: Text, s: Text)
    requires
        older(val, n),
    ensures
        ({
            let after = run(w, string_tail(literal_code(string_head(n, val, s), n + 4, s), n, s), m);
            let c = after.calls.last();
            let v = parts_in(value(w, m, val));
            &&& regs_kept(m, after, n)
            &&& after.calls == m.calls.push(c)
            &&& handed(
                c,
                "memcmp"@,
                seq![
                    Given::Itself(v[0]),
                    Given::Itself(Value::Global("@"@ + ("yk_"@ + dec(n + 4)))),
                    Given::Itself(Value::Int(byte_len(s) as int)),
                ],
            )
            &&& int_in(value(w, after, register(n + 12))) != 0 <==> int_in(v[1]) == byte_len(s) && int_in(
                (w.answer)(c),
            ) == 0
        }),
{
    let v = parts_in(value(w, m, val));
    let p = Value::Global("@"@ + ("yk_"@ + dec(n + 4)));
    let head = string_head(n, val, s);
    let middle = literal_code(head, n + 4, s);
    let m1 = run(w, head, m);
    let m2 = run(w, middle, m);
    let m6 = run(w, string_load(middle, n), m);
    let after = run(w, string_tail(middle, n, s), m);
    lemma_head_runs(w, m, n, val, s);
    lemma_literal_runs(w, m, head, n + 4, s);
    lemma_load_runs(w, m, middle, n, p, Value::Int(byte_len(s) as int));
    lemma_kept_register(w, m1, m2, n + 1, n + 4);
    lemma_kept_register(w, m1, m2, n + 3, n + 4);
    lemma_kept_register(w, m2, m6, n + 1, n + 8);
    lemma_kept_register(w, m2, m6, n + 3, n + 8);
    lemma_compare_runs(w, m, string_load(middle, n), n, s, int_in(v[1]) == byte_len(s));
    assert forall|t: Text| older(t, n) implies #[trigger] after.regs[t] == m.regs[t] by {
        lemma_older_on(t, n, n + 4);
        lemma_older_on(t, n, n + 8);
        assert(m1.regs[t] == m.regs[t]);
        assert(m2.regs[t] == m1.regs[t]);
        assert(m6.regs[t] == m2.regs[t]);
    }
}

proof fn lemma_kept_register(w: World, m: Machine, after: Machine, k: nat, n: nat)
    requires
        regs_kept(m, after, n),
        k < n,
    ensures
        value(w, after, register(k)) == value(w, m, register(k)),
{
    lemma_older_register(k, n);
    lemma_register_value(w, m, k);
    lemma_register_value(w, after, k);
    assert(after.regs[register(k)] == m.regs[register(k)]);
}

proof fn lemma_older_register(k: nat, n: nat)
    requires
        k < n,
    ensures
        older(register(k), n),
{
    lemma_register_ends(k);
    lemma_older_on(register(k), k + 1, n);
}

// ---------------------------------------------------------------------------------------------
// Arms
// ---------------------------------------------------------------------------------------------
/// The code of an arm: its test, the condition that the test leaves, what the generator wrote for its names and
/// its value, and the store of the value.
pub struct ArmCode {
    pub indent: nat,
    pub test: Piece,
    pub cond: Option<Text>,
    pub text: Text,
    pub store: Seq<Instr>,
}

/// Where control goes where the arm `i` does not match.
pub open spec fn else_label(labels: Seq<Text>, merge: Text, i: nat) -> Text {
    if i + 1 < labels.len() {
        labels[(i + 1) as int]
    } else {
        merge
    }
}

/// The pieces of an arm.
pub open spec fn arm_pieces(d: ArmCode, i: nat, labels: Seq<Text>, merge: Text) -> Seq<Piece> {
    no_pieces().push(d.test).push(
        match d.cond {
            Some(c) => Piece::Branch {
                indent: d.indent,
                cond: c,
                yes: labels[i as int],
                no: else_label(labels, merge, i),
            },
            None => Piece::Goto { indent: d.indent, to: labels[i as int] },
        },
    ).push(Piece::Mark(labels[i as int])).push(Piece::Part { number: i, text: d.text }).push(
        Piece::Code { indent: d.indent, code: d.store },
    ).push(Piece::Goto { indent: d.indent, to: merge })
}

/// The pieces of arms, one behind the other.
pub open spec fn all_arms(ds: Seq<ArmCode>, labels: Seq<Text>, merge: Text) -> Seq<Piece>
    decreases ds.len(),
{
    if ds.len() == 0 {
        no_pieces()
    } else {
        all_arms(ds.drop_last(), labels, merge) + arm_pieces(ds.last(), (ds.len() - 1) as nat, labels, merge)
    }
}

/// The value of an arm is stored where the match looks for it.
pub open spec fn arm_store(val: Text, ty: Text, result_ptr: Text) -> Seq<Instr> {
    no_code().push(Instr::Store { ty, a: val, at: "%"@ + result_ptr })
}

/// `d` is the code of an arm that `b` writes: its names are bound to the parts of the value, then its body is
/// computed and stored.
pub open spec fn is_arm(d: ArmCode, b: Gen, arm: MatchArm, sv: Text, st: Text, result_ptr: Text) -> bool {
    let (h, (val, ty)) = b.compile_pattern_bind(arm.pattern, sv, st).compile_expr(arm.body);
    &&& d.text == between(b, h)
    &&& d.store == arm_store(val, ty, result_ptr)
    &&& !(d.test is Mark)
}

proof fn lemma_all_arms(ds: Seq<ArmCode>, labels: Seq<Text>, merge: Text)
    ensures
        all_arms(ds, labels, merge).len() == 6 * ds.len(),
        forall|i: int, j: int|
            #![trigger arm_pieces(ds[i], i as nat, labels, merge)[j]]
            0 <= i < ds.len() && 0 <= j < 6 ==> all_arms(ds, labels, merge)[6 * i + j] == arm_pieces(
                ds[i],
                i as nat,
                labels,
                merge,
            )[j],
    decreases ds.len(),
{
    if ds.len() > 0 {
        let before = ds.drop_last();
        lemma_all_arms(before, labels, merge);
        assert forall|i: int, j: int|
            #![trigger arm_pieces(ds[i], i as nat, labels, merge)[j]]
            0 <= i < ds.len() && 0 <= j < 6 implies all_arms(ds, labels, merge)[6 * i + j] == arm_pieces(
            ds[i],
            i as nat,
            labels,
            merge,
        )[j] by {
            if i < before.len() {
                assert(before[i] == ds[i]);
                assert(all_arms(before, labels, merge)[6 * i + j] == arm_pieces(before[i], i as nat, labels, merge)[j]);
            }
        }
    }
}

/// Pieces behind pieces.
proof fn lemma_laid_on(g: Gen, h: Gen, k: Gen, p: Seq<Piece>, q: Seq<Piece>)
    requires
        laid(g, h, p),
        laid(h, k, q),
    ensures
        laid(g, k, p + q),
    decreases q.len(),
{
    reveal(laid);
    lemma_pieces_on(p, q);
    assert(g.output + (pieces_text(p) + pieces_text(q)) == (g.output + pieces_text(p)) + pieces_text(q));
}

proof fn lemma_pieces_on(p: Seq<Piece>, q: Seq<Piece>)
    ensures
        pieces_text(p + q) == pieces_text(p) + pieces_text(q),
    decreases q.len(),
{
    if q.len() == 0 {
        assert(p + q == p);
        assert(pieces_text(p) + Seq::<char>::empty() == pieces_text(p));
    } else {
        lemma_pieces_on(p, q.drop_last());
        assert((p + q).drop_last() == p + q.drop_last());
        assert(pieces_text(p) + (pieces_text(q.drop_last()) + piece_text(q.last())) == (pieces_text(p) + pieces_text(
            q.drop_last(),
        )) + piece_text(q.last()));
    }
}

/// One arm, with a test that is laid already.
proof fn lemma_one_arm(
    g: Gen,
    h: Gen,
    test: Piece,
    cond: Option<Text>,
    i: nat,
    arm: MatchArm,
    labels: Seq<Text>,
    merge: Text,
    sv: Text,
    st: Text,
    result_ptr: Text,
) -> (d: ArmCode)
    requires
        laid(g, h, no_pieces().push(test)),
        !(test is Mark),
        h.indent == g.indent,
    ensures
        ({
            let k = match cond {
                Some(c) => h.test_arm(c, labels[i as int], else_label(labels, merge, i)),
                None => h.e("br label %"@ + labels[i as int]),
            };
            let b = k.e_raw(labels[i as int] + ":"@);
            let (e, (val, ty)) = b.compile_pattern_bind(arm.pattern, sv, st).compile_expr(arm.body);
            let end = e.end_arm(val, ty, result_ptr, merge);
            &&& laid(g, end, arm_pieces(d, i, labels, merge))
            &&& is_arm(d, b, arm, sv, st, result_ptr)
            &&& d.test == test
            &&& d.cond == cond
            &&& end.indent == g.indent
        }),
{
    let p1 = no_pieces().push(test);
    let l = labels[i as int];
    let k = match cond {
        Some(c) => h.test_arm(c, l, else_label(labels, merge, i)),
        None => h.e("br label %"@ + l),
    };
    let jump = match cond {
        Some(c) => Piece::Branch { indent: h.indent, cond: c, yes: l, no: else_label(labels, merge, i) },
        None => Piece::Goto { indent: h.indent, to: l },
    };
    match cond {
        Some(c) => {
            lemma_laid_branch(g, h, p1, c, l, else_label(labels, merge, i));
        },
        None => {
            lemma_laid_goto(g, h, p1, l);
        },
    }
    let p2 = p1.push(jump);
    lemma_laid_mark(g, k, p2, l);
    let b = k.e_raw(l + ":"@);
    let p3 = p2.push(Piece::Mark(l));
    keeps_compile_pattern_bind(b, arm.pattern, sv, st);
    let bound = b.compile_pattern_bind(arm.pattern, sv, st);
    keeps_compile_expr(bound, arm.body);
    let (e, (val, ty)) = bound.compile_expr(arm.body);
    lemma_grows_on(b, bound, e);
    lemma_laid_part(g, b, e, p3, i);
    let p4 = p3.push(Piece::Part { number: i, text: between(b, e) });
    reveal_strlit(", ptr %");
    reveal_strlit(", ptr ");
    reveal_strlit("%");
    assert(", ptr %"@ == ", ptr "@ + "%"@);
    let line = "store "@ + ty + " "@ + val + ", ptr %"@ + result_ptr;
    let s = Instr::Store { ty, a: val, at: "%"@ + result_ptr };
    assert(line == instr_text(s));
    lemma_wrote_nothing(e);
    lemma_then(e, e, no_code(), s, line);
    lemma_laid_code(g, e, e.e(line), p4, no_code().push(s));
    let p5 = p4.push(Piece::Code { indent: e.indent, code: no_code().push(s) });
    lemma_laid_goto(g, e.e(line), p5, merge);
    let d = ArmCode {
        indent: g.indent,
        test,
        cond,
        text: between(b, e),
        store: no_code().push(s),
    };
    assert(p5.push(Piece::Goto { indent: e.indent, to: merge }) == arm_pieces(d, i, labels, merge));
    d
}

/// All arms of a match are laid in their order; the test of the first one is `code`.
proof fn lemma_arms_laid(
    g: Gen,
    arms: Seq<MatchArm>,
    n: nat,
    labels: Seq<Text>,
    merge: Text,
    sv: Text,
    st: Text,
    result_ptr: Text,
    code: Seq<Instr>,
) -> (r: (Seq<ArmCode>, Seq<Gen>))
    requires
        1 <= n <= arms.len(),
        labels.len() == arms.len(),
        wrote(g, g.compile_pattern_match(arms[0].pattern, sv, st).0, code),
    ensures
        r.0.len() == n,
        r.1.len() == n,
        laid(g, g.compile_arms(arms, n, labels, merge, sv, st, result_ptr), all_arms(r.0, labels, merge)),
        g.compile_arms(arms, n, labels, merge, sv, st, result_ptr).indent == g.indent,
        r.0[0].test == (Piece::Code { indent: g.indent, code }),
        r.0[0].cond == g.compile_pattern_match(arms[0].pattern, sv, st).1,
        forall|i: int| 0 <= i < n ==> is_arm(#[trigger] r.0[i], r.1[i], arms[i], sv, st, result_ptr),
    decreases n,
{
    let i = (n - 1) as nat;
    let before = g.compile_arms(arms, i, labels, merge, sv, st, result_ptr);
    let arm = arms[i as int];
    let (h, cond) = before.compile_pattern_match(arm.pattern, sv, st);
    keeps_compile_pattern_match(before, arm.pattern, sv, st);
    lemma_laid_nothing(before);
    let test = if n == 1 {
        Piece::Code { indent: before.indent, code }
    } else {
        Piece::Part { number: arms.len() + i, text: between(before, h) }
    };
    if n == 1 {
        assert(before == g);
        lemma_laid_code(before, before, h, no_pieces(), code);
    } else {
        lemma_laid_part(before, before, h, no_pieces(), arms.len() + i);
    }
    let d = lemma_one_arm(before, h, test, cond, i, arm, labels, merge, sv, st, result_ptr);
    let k = match cond {
        Some(c) => h.test_arm(c, labels[i as int], else_label(labels, merge, i)),
        None => h.e("br label %"@ + labels[i as int]),
    };
    let b = k.e_raw(labels[i as int] + ":"@);
    let end = g.compile_arms(arms, n, labels, merge, sv, st, result_ptr);
    if n == 1 {
        let ds = Seq::<ArmCode>::empty().push(d);
        assert(ds.drop_last() == Seq::<ArmCode>::empty());
        assert(all_arms(Seq::<ArmCode>::empty(), labels, merge) == no_pieces());
        assert(ds.last() == d);
        assert(no_pieces() + arm_pieces(d, i, labels, merge) == arm_pieces(d, i, labels, merge));
        assert(all_arms(ds, labels, merge) == arm_pieces(d, i, labels, merge));
        (ds, Seq::<Gen>::empty().push(b))
    } else {
        let (ds, gs) = lemma_arms_laid(g, arms, i, labels, merge, sv, st, result_ptr, code);
        lemma_laid_on(g, before, end, all_arms(ds, labels, merge), arm_pieces(d, i, labels, merge));
        assert(ds.push(d).drop_last() == ds);
        (ds.push(d), gs.push(b))
    }
}

/// The first arm from `from` on that the value matches.
pub open spec fn first_match(w: World, m: Machine, g: Gen, arms: Seq<MatchArm>, v: Value, ty: Text, from: nat) -> nat
    decreases arms.len() - from,
{
    if from >= arms.len() || is_match(w, m, g, arms[from as int].pattern, v, ty) {
        from
    } else {
        first_match(w, m, g, arms, v, ty, from + 1)
    }
}

/// Control goes from the start through the code of the arm that the value matches first, and nothing else, to
/// the end, where the value of the arm is stored.
pub open spec fn takes_arm(
    pieces: Seq<Piece>,
    code: Seq<Instr>,
    stores: Seq<Seq<Instr>>,
    g: Gen,
    arms: Seq<MatchArm>,
    sv: Text,
    st: Text,
    w: World,
    parts: spec_fn(nat, Machine) -> Machine,
    m: Machine,
) -> bool {
    let taken = first_match(w, m, g, arms, value(w, m, sv), st, 0);
    taken < 2 && taken < arms.len() ==> comes(
        w,
        parts,
        pieces,
        start(m),
        Spot {
            at: pieces.len(),
            machine: run(w, stores[taken as int], parts(taken, run(w, code, m))),
            seen: seq![taken],
        },
    )
}

/// The pieces hold the code of every arm: what `gs` write for its names and its value.
pub open spec fn has_arms(
    pieces: Seq<Piece>,
    gs: Seq<Gen>,
    stores: Seq<Seq<Instr>>,
    arms: Seq<MatchArm>,
    sv: Text,
    st: Text,
    result_ptr: Text,
) -> bool {
    &&& gs.len() == arms.len()
    &&& stores.len() == arms.len()
    &&& forall|i: int|
        0 <= i < arms.len() ==> {
            let (h, (val, ty)) = (#[trigger] gs[i]).compile_pattern_bind(arms[i].pattern, sv, st).compile_expr(
                arms[i].body,
            );
            &&& pieces.contains(Piece::Part { number: i as nat, text: between(gs[i], h) })
            &&& stores[i] == arm_store(val, ty, result_ptr)
        }
}

/// From `g` to `h` the pieces of a match were laid.
pub open spec fn is_matching(
    g: Gen,
    h: Gen,
    arms: Seq<MatchArm>,
    sv: Text,
    st: Text,
    result_ptr: Text,
    pieces: Seq<Piece>,
    code: Seq<Instr>,
    gs: Seq<Gen>,
    stores: Seq<Seq<Instr>>,
) -> bool {
    &&& laid(g, h, pieces)
    &&& has_arms(pieces, gs, stores, arms, sv, st, result_ptr)
    &&& forall|w: World, parts: spec_fn(nat, Machine) -> Machine, m: Machine| #[trigger]
        takes_arm(pieces, code, stores, g, arms, sv, st, w, parts, m)
}

/// A value that matches the first or the second pattern of a match runs the arm that it matches first, and its
/// value becomes that of the match. (Where it matches neither, control comes to the second arm all the same.)
pub proof fn lemma_first_arm_runs(
    g: Gen,
    arms: Seq<MatchArm>,
    labels: Seq<Text>,
    merge: Text,
    sv: Text,
    st: Text,
    result_ptr: Text,
)
    requires
        arms.len() >= 1,
        labels.len() == arms.len(),
        !(arms[0].pattern is LitStr && st == "%yk_string"@),
        g.label_counter + 2 <= usize::MAX,
        older(sv, g.label_counter),
        forall|i: int, j: int| 0 <= i < j < labels.len() ==> #[trigger] labels[i] != #[trigger] labels[j],
        forall|i: int| 0 <= i < labels.len() ==> #[trigger] labels[i] != merge,
    ensures
        exists|pieces: Seq<Piece>, code: Seq<Instr>, gs: Seq<Gen>, stores: Seq<Seq<Instr>>| #[trigger]
            is_matching(
                g,
                g.compile_arms(arms, arms.len(), labels, merge, sv, st, result_ptr).e_raw(merge + ":"@),
                arms,
                sv,
                st,
                result_ptr,
                pieces,
                code,
                gs,
                stores,
            ),
{
    lemma_test_is_match(g, arms[0].pattern, sv, st);
    let (h0, cond) = g.compile_pattern_match(arms[0].pattern, sv, st);
    let code = choose|code: Seq<Instr>| #[trigger]
        wrote(g, h0, code) && forall|w: World, m: Machine|
            {
                let after = #[trigger] run(w, code, m);
                &&& kept(m, after, g.label_counter)
                &&& holds(w, after, cond) == is_match(w, m, g, arms[0].pattern, value(w, m, sv), st)
            };
    let n = arms.len();
    let (ds, gs) = lemma_arms_laid(g, arms, n, labels, merge, sv, st, result_ptr, code);
    let h = g.compile_arms(arms, n, labels, merge, sv, st, result_ptr);
    let body = all_arms(ds, labels, merge);
    lemma_laid_mark(g, h, body, merge);
    let pieces = body.push(Piece::Mark(merge));
    let stores = Seq::new(n, |i: int| ds[i].store);
    lemma_all_arms(ds, labels, merge);
    assert forall|i: int| 0 <= i < n implies {
        let (h, (val, ty)) = (#[trigger] gs[i]).compile_pattern_bind(arms[i].pattern, sv, st).compile_expr(
            arms[i].body,
        );
        &&& pieces.contains(Piece::Part { number: i as nat, text: between(gs[i], h) })
        &&& stores[i] == arm_store(val, ty, result_ptr)
    } by {
        assert(is_arm(ds[i], gs[i], arms[i], sv, st, result_ptr));
        assert(arm_pieces(ds[i], i as nat, labels, merge)[3] == pieces[6 * i + 3]);
    }
    assert forall|w: World, parts: spec_fn(nat, Machine) -> Machine, m: Machine| #[trigger]
        takes_arm(pieces, code, stores, g, arms, sv, st, w, parts, m) by {
        lemma_arms_walk(pieces, ds, labels, merge, code, w, parts, m);
        let after = run(w, code, m);
        assert(holds(w, after, cond) == is_match(w, m, g, arms[0].pattern, value(w, m, sv), st));
        let v = value(w, m, sv);
        lemma_first_match_from(w, m, g, arms, v, st, 1);
        assert(first_match(w, m, g, arms, v, st, 0) == 0 <==> is_match(w, m, g, arms[0].pattern, v, st));
        if n >= 2 && !is_match(w, m, g, arms[0].pattern, v, st) {
            lemma_first_match_from(w, m, g, arms, v, st, 2);
            assert(first_match(w, m, g, arms, v, st, 0) == first_match(w, m, g, arms, v, st, 1));
        }
    }
    assert(is_matching(
        g,
        h.e_raw(merge + ":"@),
        arms,
        sv,
        st,
        result_ptr,
        pieces,
        code,
        gs,
        stores,
    ));
}

proof fn lemma_first_match_from(w: World, m: Machine, g: Gen, arms: Seq<MatchArm>, v: Value, ty: Text, from: nat)
    ensures
        first_match(w, m, g, arms, v, ty, from) >= from,
    decreases arms.len() - from,
{
    if from < arms.len() && !is_match(w, m, g, arms[from as int].pattern, v, ty) {
        lemma_first_match_from(w, m, g, arms, v, ty, from + 1);
    }
}

proof fn lemma_arms_walk(
    pieces: Seq<Piece>,
    ds: Seq<ArmCode>,
    labels: Seq<Text>,
    merge: Text,
    code: Seq<Instr>,
    w: World,
    parts: spec_fn(nat, Machine) -> Machine,
    m: Machine,
)
    requires
        ds.len() >= 1,
        labels.len() == ds.len(),
        pieces == all_arms(ds, labels, merge).push(Piece::Mark(merge)),
        forall|i: int| 0 <= i < ds.len() ==> !((#[trigger] ds[i]).test is Mark),
        ds[0].test is Code,
        ds[0].test->Code_code == code,
        forall|i: int, j: int| 0 <= i < j < labels.len() ==> #[trigger] labels[i] != #[trigger] labels[j],
        forall|i: int| 0 <= i < labels.len() ==> #[trigger] labels[i] != merge,
    ensures
        ({
            let after = run(w, code, m);
            let taken: nat = if holds(w, after, ds[0].cond) {
                0
            } else {
                1
            };
            taken < ds.len() ==> comes(
                w,
                parts,
                pieces,
                start(m),
                Spot {
                    at: pieces.len(),
                    machine: run(w, ds[taken as int].store, parts(taken, after)),
                    seen: seq![taken],
                },
            )
        }),
{
    lemma_arm_places(pieces, ds, labels, merge);
    let n = ds.len();
    let after = run(w, code, m);
    if holds(w, after, ds[0].cond) {
        lemma_arm_walk(pieces, ds[0], 0, ds[0], 0, labels, merge, code, w, parts, m);
    } else if n >= 2 {
        lemma_arm_walk(pieces, ds[0], 6, ds[1], 1, labels, merge, code, w, parts, m);
    }
}

/// The arm `i` stands in the pieces from `base` on.
spec fn arm_stands(pieces: Seq<Piece>, base: nat, d: ArmCode, i: nat, labels: Seq<Text>, merge: Text) -> bool {
    &&& base + 6 <= pieces.len()
    &&& pieces.subrange(base as int, (base + 6) as int) == arm_pieces(d, i, labels, merge)
}

proof fn lemma_arm_stands(ds: Seq<ArmCode>, labels: Seq<Text>, merge: Text, i: nat)
    requires
        i < ds.len(),
    ensures
        arm_stands(all_arms(ds, labels, merge).push(Piece::Mark(merge)), 6 * i, ds[i as int], i, labels, merge),
    decreases ds.len(),
{
    let pieces = all_arms(ds, labels, merge).push(Piece::Mark(merge));
    let before = ds.drop_last();
    lemma_all_arms(ds, labels, merge);
    lemma_all_arms(before, labels, merge);
    if i < before.len() {
        lemma_arm_stands(before, labels, merge, i);
        assert(before[i as int] == ds[i as int]);
        assert(pieces.subrange(6 * i as int, (6 * i + 6) as int) == all_arms(before, labels, merge).push(
            Piece::Mark(merge),
        ).subrange(6 * i as int, (6 * i + 6) as int));
    } else {
        assert(pieces.subrange(6 * i as int, (6 * i + 6) as int) == arm_pieces(ds.last(), i, labels, merge));
    }
}

proof fn lemma_arm_places(pieces: Seq<Piece>, ds: Seq<ArmCode>, labels: Seq<Text>, merge: Text)
    requires
        ds.len() >= 1,
        labels.len() == ds.len(),
        pieces == all_arms(ds, labels, merge).push(Piece::Mark(merge)),
        forall|i: int| 0 <= i < ds.len() ==> !((#[trigger] ds[i]).test is Mark),
        forall|i: int, j: int| 0 <= i < j < labels.len() ==> #[trigger] labels[i] != #[trigger] labels[j],
        forall|i: int| 0 <= i < labels.len() ==> #[trigger] labels[i] != merge,
    ensures
        arm_stands(pieces, 0, ds[0], 0, labels, merge),
        ds.len() >= 2 ==> arm_stands(pieces, 6, ds[1], 1, labels, merge),
        mark_from(pieces, labels[0], 0) == 2,
        ds.len() >= 2 ==> mark_from(pieces, labels[1], 0) == 8,
        mark_from(pieces, merge, 0) == pieces.len() - 1,
        pieces.last() == Piece::Mark(merge),
{
    let n = ds.len();
    lemma_all_arms(ds, labels, merge);
    lemma_arm_stands(ds, labels, merge, 0);
    let first = arm_pieces(ds[0], 0, labels, merge);
    assert(pieces.subrange(0, 6) == first);
    assert(pieces[0] == first[0] && pieces[1] == first[1] && pieces[2] == first[2] && pieces[3] == first[3]
        && pieces[4] == first[4] && pieces[5] == first[5]);
    assert(!(ds[0].test is Mark));
    lemma_mark(pieces, labels[0], 0, 2);
    if n >= 2 {
        lemma_arm_stands(ds, labels, merge, 1);
        let second = arm_pieces(ds[1], 1, labels, merge);
        assert(pieces.subrange(6, 12) == second);
        assert(pieces[6] == second[0] && pieces[7] == second[1] && pieces[8] == second[2]);
        assert(!(ds[1].test is Mark));
        assert(labels[0] != labels[1]);
        lemma_mark(pieces, labels[1], 0, 8);
    }
    assert forall|k: int| 0 <= k < 6 * n implies #[trigger] pieces[k] != Piece::Mark(merge) by {
        let i = (k / 6) as nat;
        let j = k % 6;
        lemma_arm_stands(ds, labels, merge, i);
        assert(pieces.subrange(6 * i as int, (6 * i + 6) as int)[j] == pieces[k]);
        assert(!(ds[i as int].test is Mark));
        assert(labels[i as int] != merge);
    }
    lemma_mark(pieces, merge, 0, 6 * n);
}

proof fn lemma_arm_walk(
    pieces: Seq<Piece>,
    first: ArmCode,
    base: nat,
    d: ArmCode,
    i: nat,
    labels: Seq<Text>,
    merge: Text,
    code: Seq<Instr>,
    w: World,
    parts: spec_fn(nat, Machine) -> Machine,
    m: Machine,
)
    requires
        arm_stands(pieces, 0, first, 0, labels, merge),
        arm_stands(pieces, base, d, i, labels, merge),
        i < labels.len(),
        mark_from(pieces, labels[0], 0) == 2,
        mark_from(pieces, labels[i as int], 0) == base + 2,
        mark_from(pieces, merge, 0) == pieces.len() - 1,
        pieces.last() == Piece::Mark(merge),
        first.test is Code,
        first.test->Code_code == code,
        i == if holds(w, run(w, code, m), first.cond) {
            0nat
        } else {
            1nat
        },
    ensures
        comes(
            w,
            parts,
            pieces,
            start(m),
            Spot { at: pieces.len(), machine: run(w, d.store, parts(i, run(w, code, m))), seen: seq![i] },
        ),
{
    let a = arm_pieces(first, 0, labels, merge);
    let b = arm_pieces(d, i, labels, merge);
    assert(pieces.subrange(0, 6)[0] == a[0] && pieces.subrange(0, 6)[1] == a[1]);
    let sub = pieces.subrange(base as int, (base + 6) as int);
    assert(sub[2] == b[2] && sub[3] == b[3] && sub[4] == b[4] && sub[5] == b[5]);
    assert(pieces[0] == a[0] && pieces[1] == a[1]);
    assert(pieces[(base + 2) as int] == b[2] && pieces[(base + 3) as int] == b[3] && pieces[(base + 4) as int] == b[4] && pieces[(base + 5) as int]
        == b[5]);
    let s0 = start(m);
    lemma_comes_itself(w, parts, pieces, s0);
    let s1 = next(w, parts, pieces, s0);
    lemma_comes_next(w, parts, pieces, s0, s0);
    let s2 = next(w, parts, pieces, s1);
    lemma_comes_next(w, parts, pieces, s0, s1);
    assert(s2.at == base + 2);
    let s3 = next(w, parts, pieces, s2);
    lemma_comes_next(w, parts, pieces, s0, s2);
    let s4 = next(w, parts, pieces, s3);
    lemma_comes_next(w, parts, pieces, s0, s3);
    assert(s4.seen == seq![i]);
    let s5 = next(w, parts, pieces, s4);
    lemma_comes_next(w, parts, pieces, s0, s4);
    let s6 = next(w, parts, pieces, s5);
    lemma_comes_next(w, parts, pieces, s0, s5);
    assert(s6.at == pieces.len() - 1);
    let s7 = next(w, parts, pieces, s6);
    lemma_comes_next(w, parts, pieces, s0, s6);
}

} // verus!
