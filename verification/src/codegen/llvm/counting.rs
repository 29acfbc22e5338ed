//! What the code for a loop over integers does: it counts from zero up to the end, the end included.

use vstd::prelude::*;

use crate::codegen::llvm::flow::{
    between, comes, has_expr, has_stmts, label, laid, lemma_comes_itself, lemma_comes_next, lemma_labels_apart,
    lemma_laid_branch, lemma_laid_code, lemma_laid_goto, lemma_laid_mark, lemma_laid_nothing, lemma_laid_part,
    lemma_laid_same, lemma_mark, next, no_pieces, start, Piece, Spot,
};
use crate::codegen::llvm::laws::{keeps_compile_expr, keeps_compile_stmts};
use crate::codegen::llvm::meaning::{
    fits, group_machine, instr_text, int_in, lemma_label, lemma_number_is_itself, lemma_wrote_nothing, loaded,
    no_code, numbering, older, register, run, stored, value, wrote, Instr, Machine, Opcode, Value, World,
};
use crate::codegen::llvm::names::{alloca_name, undotted};
use crate::codegen::llvm::operators::lemma_then;
use crate::codegen::llvm::state::Gen;
use crate::codegen::llvm::storing::{lemma_int_bits, lemma_put_found, lemma_slot_name, lemma_wrote_same};
use crate::scan::ends;
use crate::syntax::ast::{ExprNode, StmtNode};
use crate::text::{dec, int_dec, Text};

verus! {

// ---------------------------------------------------------------------------------------------
// Machines
// ---------------------------------------------------------------------------------------------
/// From `m` to `m1` only registers were set, and `v` holds what lies at `p`.
pub open spec fn read_from(w: World, m: Machine, m1: Machine, p: Text, v: Text) -> bool {
    &&& m1.memory == m.memory
    &&& m1.calls == m.calls
    &&& value(w, m1, p) == value(w, m, p)
    &&& value(w, m1, v) == loaded(m.memory, value(w, m, p))
}

/// From `m` to `m1` the integer after that of `v` was stored at `p`.
pub open spec fn counted_on(w: World, m: Machine, m1: Machine, p: Text, v: Text) -> bool {
    let x = int_in(value(w, m, v));
    &&& m1.calls == m.calls
    &&& fits(64, x + 1) ==> m1.memory == stored(m.memory, value(w, m, p), Value::Int(x + 1))
}

/// Where control goes from the head of the loop: through the body and back to the head, with the next integer at `p`,
/// where the integer at `p` is not above the end; else to the end of the pieces.
pub open spec fn takes_turn(
    pieces: Seq<Piece>,
    p: Text,
    v: Text,
    end: Text,
    w: World,
    parts: spec_fn(nat, Machine) -> Machine,
    m: Machine,
    seen: Seq<nat>,
    m1: Machine,
) -> bool {
    let head = Spot { at: 5, machine: m, seen };
    if int_in(loaded(m.memory, value(w, m, p))) <= int_in(value(w, m, end)) {
        exists|m2: Machine| #[trigger]
            counted_on(w, parts(1, m1), m2, p, v) && comes(
                w,
                parts,
                pieces,
                head,
                Spot { at: 5, machine: m2, seen: seen.push(1) },
            )
    } else {
        comes(w, parts, pieces, head, Spot { at: pieces.len(), machine: m1, seen })
    }
}

/// Control comes through the end of the range to the head of the loop, with zero at `p`.
pub open spec fn begins_at_zero(
    pieces: Seq<Piece>,
    p: Text,
    w: World,
    parts: spec_fn(nat, Machine) -> Machine,
    m: Machine,
) -> bool {
    exists|m1: Machine| #[trigger]
        comes(w, parts, pieces, start(m), Spot { at: 5, machine: m1, seen: Seq::<nat>::empty().push(0) }) && loaded(
            m1.memory,
            value(w, m1, p),
        ) == Value::Int(0)
}

/// Control begins at zero and takes its turns.
pub open spec fn counts(
    pieces: Seq<Piece>,
    p: Text,
    v: Text,
    end: Text,
    w: World,
    parts: spec_fn(nat, Machine) -> Machine,
    m: Machine,
    seen: Seq<nat>,
) -> bool {
    &&& begins_at_zero(pieces, p, w, parts, m)
    &&& exists|m1: Machine| #[trigger]
        read_from(w, m, m1, p, v) && takes_turn(pieces, p, v, end, w, parts, m, seen, m1)
}

// ---------------------------------------------------------------------------------------------
// Code
// ---------------------------------------------------------------------------------------------
spec fn start_code(p: Text) -> Seq<Instr> {
    no_code().push(Instr::Alloca { to: p, ty: "i64"@ }).push(Instr::Store { ty: "i64"@, a: int_dec(0), at: p })
}

spec fn head_code(p: Text, v: Text, c: Text, end: Text) -> Seq<Instr> {
    no_code().push(Instr::Load { to: v, ty: "i64"@, at: p }).push(
        Instr::Binary { to: c, op: Opcode::IntSle, ty: "i64"@, a: v, b: end },
    )
}

spec fn step_code(p: Text, v: Text, k: nat) -> Seq<Instr> {
    no_code().push(Instr::Binary { to: register(k), op: Opcode::Add, ty: "i64"@, a: v, b: int_dec(1) }).push(
        Instr::Store { ty: "i64"@, a: register(k), at: p },
    )
}

proof fn lemma_start_wrote(g: Gen, name: Text)
    ensures
        ({
            let (h, p) = g.declare_index(name);
            &&& p == alloca_name(name)
            &&& wrote(g, h, start_code(p))
            &&& h.label_counter == g.label_counter
            &&& h.var_slot(name) == Some(p)
        }),
{
    reveal(Gen::set_var_type);
    reveal(Gen::set_var_alloca);
    reveal_strlit(" = alloca i64, align 8");
    reveal_strlit(" = alloca ");
    reveal_strlit("i64");
    reveal_strlit(", align 8");
    reveal_strlit("store i64 0, ptr ");
    reveal_strlit("store ");
    reveal_strlit(" ");
    reveal_strlit(", ptr ");
    assert(dec(0) == seq!['0']);
    assert(" = alloca i64, align 8"@ == " = alloca "@ + "i64"@ + ", align 8"@);
    assert("store i64 0, ptr "@ == "store "@ + "i64"@ + " "@ + int_dec(0) + ", ptr "@);
    let p = alloca_name(name);
    lemma_put_found(g.var_alloca, name, p);
    lemma_wrote_nothing(g);
    let g1 = g.bind_var(name, "i64"@).0;
    lemma_wrote_same(g, g, g1, no_code());
    let i1 = Instr::Alloca { to: p, ty: "i64"@ };
    let l1 = p + " = alloca i64, align 8"@;
    assert(l1 == instr_text(i1));
    lemma_then(g, g1, no_code(), i1, l1);
    let g2 = g1.e(l1);
    let i2 = Instr::Store { ty: "i64"@, a: int_dec(0), at: p };
    let l2 = "store i64 0, ptr "@ + p;
    assert(l2 == instr_text(i2));
    lemma_then(g, g2, no_code().push(i1), i2, l2);
}

proof fn lemma_head_wrote(g: Gen, p: Text, v: Text, var: Text, end: Text)
    ensures
        ({
            let h = g.e(v + " = load i64, ptr "@ + p).e("%cmp_"@ + var + " = icmp sle i64 "@ + v + ", "@ + end);
            &&& wrote(g, h, head_code(p, v, "%cmp_"@ + var, end))
            &&& h == (Gen { output: h.output, ..g })
        }),
{
    reveal_strlit(" = load i64, ptr ");
    reveal_strlit(" = load ");
    reveal_strlit("i64");
    reveal_strlit(", ptr ");
    reveal_strlit(" = icmp sle i64 ");
    reveal_strlit(" = ");
    reveal_strlit("icmp sle");
    reveal_strlit(" ");
    assert(" = load i64, ptr "@ == " = load "@ + "i64"@ + ", ptr "@);
    assert(" = icmp sle i64 "@ == " = "@ + "icmp sle"@ + " "@ + "i64"@ + " "@);
    lemma_wrote_nothing(g);
    let i1 = Instr::Load { to: v, ty: "i64"@, at: p };
    let l1 = v + " = load i64, ptr "@ + p;
    assert(l1 == instr_text(i1));
    lemma_then(g, g, no_code(), i1, l1);
    let g1 = g.e(l1);
    let i2 = Instr::Binary { to: "%cmp_"@ + var, op: Opcode::IntSle, ty: "i64"@, a: v, b: end };
    let l2 = "%cmp_"@ + var + " = icmp sle i64 "@ + v + ", "@ + end;
    assert(l2 == instr_text(i2));
    lemma_then(g, g1, no_code().push(i1), i2, l2);
}

proof fn lemma_step_wrote(g: Gen, p: Text, v: Text)
    ensures
        wrote(g, g.step_index(v, p), step_code(p, v, g.label_counter)),
{
    reveal(Gen::fresh_label);
    reveal_strlit(" = add i64 ");
    reveal_strlit(" = ");
    reveal_strlit("add");
    reveal_strlit("i64");
    reveal_strlit(" ");
    reveal_strlit(", 1");
    reveal_strlit(", ");
    reveal_strlit("store i64 %");
    reveal_strlit("store ");
    reveal_strlit("%");
    assert(dec(1) == seq!['1']);
    assert(" = add i64 "@ == " = "@ + "add"@ + " "@ + "i64"@ + " "@);
    assert(", 1"@ == ", "@ + int_dec(1));
    assert("store i64 %"@ == "store "@ + "i64"@ + " "@ + "%"@);
    let k = g.label_counter;
    lemma_wrote_nothing(g);
    let (g1, t) = g.fresh_label();
    assert("%"@ + t == register(k));
    lemma_wrote_same(g, g, g1, no_code());
    let i1 = Instr::Binary { to: register(k), op: Opcode::Add, ty: "i64"@, a: v, b: int_dec(1) };
    let l1 = "%"@ + t + " = add i64 "@ + v + ", 1"@;
    assert(l1 == instr_text(i1));
    lemma_then(g, g1, no_code(), i1, l1);
    let g2 = g1.e(l1);
    let i2 = Instr::Store { ty: "i64"@, a: register(k), at: p };
    let l2 = "store i64 %"@ + t + ", ptr "@ + p;
    assert(l2 == "store "@ + "i64"@ + " "@ + ("%"@ + t) + ", ptr "@ + p);
    assert(l2 == instr_text(i2));
    lemma_then(g, g2, no_code().push(i1), i2, l2);
}

// ---------------------------------------------------------------------------------------------
// Names
// ---------------------------------------------------------------------------------------------
/// The registers of a loop over integers: the slot, the value read from it, and the condition.
proof fn lemma_names(var: Text, k: nat)
    requires
        !var.contains('.'),
    ensures
        ({
            let p = alloca_name(var);
            let v = "%"@ + undotted(var) + ".val_"@ + (""@ + dec(k));
            let c = "%cmp_"@ + var;
            &&& p != v && p != c && v != c
            &&& v.len() > 0 && v[0] == '%'
            &&& c.len() > 0 && c[0] == '%'
            &&& ends(v, numbering(k))
        }),
{
    reveal_strlit("%");
    reveal_strlit(".val_");
    reveal_strlit(".ptr");
    reveal_strlit("");
    reveal_strlit("_");
    reveal_strlit("%cmp_");
    let p = alloca_name(var);
    let u = undotted(var);
    let v = "%"@ + u + ".val_"@ + (""@ + dec(k));
    let c = "%cmp_"@ + var;
    lemma_slot_name(var);
    assert(v == "%"@ + u + seq!['.', 'v', 'a', 'l'] + numbering(k));
    assert(v.skip(v.len() - numbering(k).len()) == numbering(k));
    assert(ends(v, numbering(k)));
    assert(older(p, 0));
    assert(p[(1 + u.len()) as int] == '.');
    assert(v[(1 + u.len()) as int] == '.');
    assert forall|i: int| 0 <= i < c.len() implies c[i] != '.' by {
        if i >= 5 {
            assert(var.contains(var[i - 5]));
        }
    }
}

// ---------------------------------------------------------------------------------------------
// The loop
// ---------------------------------------------------------------------------------------------
spec fn count_pieces(
    end_text: Text,
    body_text: Text,
    p: Text,
    v: Text,
    c: Text,
    end: Text,
    n: nat,
    k: nat,
    i: nat,
    j: nat,
) -> Seq<Piece> {
    no_pieces().push(Piece::Part { number: 0, text: end_text }).push(Piece::Goto { indent: i, to: label(n) }).push(
        Piece::Mark(label(n)),
    ).push(Piece::Code { indent: i, code: start_code(p) }).push(Piece::Goto { indent: i, to: label(n + 1) }).push(
        Piece::Mark(label(n + 1)),
    ).push(Piece::Code { indent: i, code: head_code(p, v, c, end) }).push(
        Piece::Branch { indent: i, cond: c, yes: label(n + 2), no: label(n + 3) },
    ).push(Piece::Mark(label(n + 2))).push(Piece::Part { number: 1, text: body_text }).push(
        Piece::Code { indent: j, code: step_code(p, v, k) },
    ).push(Piece::Goto { indent: j, to: label(n + 1) }).push(Piece::Mark(label(n + 3)))
}

proof fn lemma_codes_run(w: World, m: Machine, p: Text, v: Text, c: Text, end: Text, k: nat)
    requires
        p != v && p != c && v != c,
        end != v && end != c,
        p.len() > 0 && p[0] == '%' && older(p, 0),
        v.len() > 0 && v[0] == '%',
        c.len() > 0 && c[0] == '%',
    ensures
        ({
            let m0 = run(w, start_code(p), m);
            loaded(m0.memory, value(w, m0, p)) == Value::Int(0)
        }),
        ({
            let m1 = run(w, head_code(p, v, c, end), m);
            &&& read_from(w, m, m1, p, v)
            &&& (int_in(value(w, m1, c)) != 0) == (int_in(loaded(m.memory, value(w, m, p))) <= int_in(
                value(w, m, end),
            ))
        }),
        counted_on(w, m, run(w, step_code(p, v, k), m), p, v),
{
    broadcast use group_machine;

    lemma_int_bits();
    let a = run(w, no_code().push(Instr::Alloca { to: p, ty: "i64"@ }), m);
    lemma_number_is_itself(w, a, 0);
    lemma_number_is_itself(w, m, 1);
    assert(value(w, a, p) == Value::Slot(p));
}

proof fn lemma_count_walk(
    end_text: Text,
    body_text: Text,
    p: Text,
    v: Text,
    c: Text,
    end: Text,
    n: nat,
    k: nat,
    i: nat,
    j: nat,
    w: World,
    parts: spec_fn(nat, Machine) -> Machine,
    m: Machine,
    seen: Seq<nat>,
)
    requires
        p != v && p != c && v != c,
        end != v && end != c,
        p.len() > 0 && p[0] == '%' && older(p, 0),
        v.len() > 0 && v[0] == '%',
        c.len() > 0 && c[0] == '%',
    ensures
        counts(count_pieces(end_text, body_text, p, v, c, end, n, k, i, j), p, v, end, w, parts, m, seen),
{
    let pieces = count_pieces(end_text, body_text, p, v, c, end, n, k, i, j);
    lemma_labels_apart(n);
    lemma_mark(pieces, label(n), 0, 2);
    lemma_mark(pieces, label(n + 1), 0, 5);
    lemma_mark(pieces, label(n + 2), 0, 8);
    lemma_mark(pieces, label(n + 3), 0, 12);
    let a0 = start(m);
    lemma_comes_itself(w, parts, pieces, a0);
    let a1 = next(w, parts, pieces, a0);
    lemma_comes_next(w, parts, pieces, a0, a0);
    let a2 = next(w, parts, pieces, a1);
    lemma_comes_next(w, parts, pieces, a0, a1);
    let a3 = next(w, parts, pieces, a2);
    lemma_comes_next(w, parts, pieces, a0, a2);
    let a4 = next(w, parts, pieces, a3);
    lemma_comes_next(w, parts, pieces, a0, a3);
    let a5 = next(w, parts, pieces, a4);
    lemma_comes_next(w, parts, pieces, a0, a4);
    lemma_codes_run(w, parts(0, m), p, v, c, end, k);
    assert(a5 == (Spot {
        at: 5,
        machine: run(w, start_code(p), parts(0, m)),
        seen: Seq::<nat>::empty().push(0),
    }));
    assert(begins_at_zero(pieces, p, w, parts, m));
    let s0 = Spot { at: 5, machine: m, seen };
    lemma_comes_itself(w, parts, pieces, s0);
    let s1 = next(w, parts, pieces, s0);
    lemma_comes_next(w, parts, pieces, s0, s0);
    let s2 = next(w, parts, pieces, s1);
    lemma_comes_next(w, parts, pieces, s0, s1);
    let s3 = next(w, parts, pieces, s2);
    lemma_comes_next(w, parts, pieces, s0, s2);
    let s4 = next(w, parts, pieces, s3);
    lemma_comes_next(w, parts, pieces, s0, s3);
    let s5 = next(w, parts, pieces, s4);
    lemma_comes_next(w, parts, pieces, s0, s4);
    let s6 = next(w, parts, pieces, s5);
    lemma_comes_next(w, parts, pieces, s0, s5);
    let s7 = next(w, parts, pieces, s6);
    lemma_comes_next(w, parts, pieces, s0, s6);
    let m1 = run(w, head_code(p, v, c, end), m);
    assert(s2 == (Spot { at: 7, machine: m1, seen }));
    lemma_codes_run(w, m, p, v, c, end, k);
    if int_in(value(w, m1, c)) != 0 {
        let b = parts(1, m1);
        let m2 = run(w, step_code(p, v, k), b);
        lemma_codes_run(w, b, p, v, c, end, k);
        assert(s3.at == 8 && s4.at == 9 && s5.at == 10 && s6.at == 11);
        assert(s7 == (Spot { at: 5, machine: m2, seen: seen.push(1) }));
        assert(counted_on(w, parts(1, m1), m2, p, v));
    } else {
        assert(s3.at == 12);
        assert(s4 == (Spot { at: pieces.len(), machine: m1, seen }));
    }
    assert(takes_turn(pieces, p, v, end, w, parts, m, seen, m1));
}

/// From `g` to `h` the pieces were laid, and they are those of a loop over integers: its end is that of the range, its
/// body is compiled where the variable has the slot `p`, and control counts at `p`.
pub open spec fn is_count(
    g: Gen,
    h: Gen,
    var: Text,
    iter: ExprNode,
    body: Seq<StmtNode>,
    pieces: Seq<Piece>,
    a: Gen,
    b: Gen,
    p: Text,
    v: Text,
) -> bool {
    &&& laid(g, h, pieces)
    &&& has_expr(pieces, 0, a, iter)
    &&& has_stmts(pieces, 1, b, body)
    &&& b.var_slot(var) == Some(p)
    &&& forall|w: World, parts: spec_fn(nat, Machine) -> Machine, m: Machine, seen: Seq<nat>| #[trigger]
        counts(pieces, p, v, a.compile_expr(iter).1.0, w, parts, m, seen)
}

/// The state in which the end of the range of a loop is compiled: four labels on.
pub open spec fn four_on(g: Gen) -> Gen {
    Gen { label_counter: g.label_counter + 4, ..g }
}

/// The code for a loop over integers runs its body for zero and for every integer after it up to the end, the end
/// included, in their order, as long as the body does not set the variable.
pub proof fn lemma_loop_counts(g0: Gen, stmt: StmtNode)
    requires
        stmt.value is For,
        !stmt.value->For_0@.contains('.'),
        g0.expr_type_str(stmt.value->For_1).1 != "%yk_string"@,
        g0.expr_type_str(stmt.value->For_1).0.label_counter + 4 <= usize::MAX,
        ({
            let (h, (end, _)) = four_on(g0.expr_type_str(stmt.value->For_1).0).compile_expr(stmt.value->For_1);
            &&& older(end, h.label_counter)
            &&& end != "%cmp_"@ + stmt.value->For_0@
        }),
    ensures
        exists|pieces: Seq<Piece>, a: Gen, b: Gen, p: Text, v: Text| #[trigger]
            is_count(
                g0.expr_type_str(stmt.value->For_1).0,
                g0.compile_stmt(stmt),
                stmt.value->For_0@,
                stmt.value->For_1,
                stmt.value->For_2@,
                pieces,
                a,
                b,
                p,
                v,
            ),
{
    let var = stmt.value->For_0@;
    let iter = stmt.value->For_1;
    let body = stmt.value->For_2@;
    let g = g0.expr_type_str(iter).0;
    let n = g.label_counter;
    reveal(Gen::set_indent);
    reveal(Gen::next_number);
    lemma_label(g);
    let g1 = g.fresh_label().0;
    lemma_label(g1);
    let g2 = g1.fresh_label().0;
    lemma_label(g2);
    let g3 = g2.fresh_label().0;
    lemma_label(g3);
    let a = g3.fresh_label().0;
    assert(a == four_on(g));
    let i = g.indent;
    lemma_laid_nothing(g);
    lemma_laid_same(g, g, a, no_pieces());
    keeps_compile_expr(a, iter);
    let (h0, (end, _)) = a.compile_expr(iter);
    lemma_laid_part(g, a, h0, no_pieces(), 0);
    let p0 = no_pieces().push(Piece::Part { number: 0, text: between(a, h0) });
    lemma_laid_goto(g, h0, p0, label(n));
    let h1 = h0.e("br label %"@ + label(n));
    let p1 = p0.push(Piece::Goto { indent: i, to: label(n) });
    lemma_laid_mark(g, h1, p1, label(n));
    let h2 = h1.e_raw(label(n) + ":"@);
    let p2 = p1.push(Piece::Mark(label(n)));
    lemma_start_wrote(h2, var);
    let (h3, p) = h2.declare_index(var);
    assert(h3.indent == h2.indent) by {
        reveal(wrote);
    }
    lemma_laid_code(g, h2, h3, p2, start_code(p));
    let p3 = p2.push(Piece::Code { indent: i, code: start_code(p) });
    lemma_laid_goto(g, h3, p3, label(n + 1));
    let h4 = h3.e("br label %"@ + label(n + 1));
    let p4 = p3.push(Piece::Goto { indent: i, to: label(n + 1) });
    lemma_laid_mark(g, h4, p4, label(n + 1));
    let h5 = h4.e_raw(label(n + 1) + ":"@);
    let p5 = p4.push(Piece::Mark(label(n + 1)));
    let (h6, v) = h5.value_name(var);
    let kv = h5.label_counter;
    assert(kv == h0.label_counter);
    lemma_names(var, kv);
    lemma_slot_name(var);
    let c = "%cmp_"@ + var;
    lemma_laid_same(g, h5, h6, p5);
    lemma_head_wrote(h6, p, v, var, end);
    let h7 = h6.e(v + " = load i64, ptr "@ + p).e("%cmp_"@ + var + " = icmp sle i64 "@ + v + ", "@ + end);
    lemma_laid_code(g, h6, h7, p5, head_code(p, v, c, end));
    let p6 = p5.push(Piece::Code { indent: i, code: head_code(p, v, c, end) });
    lemma_laid_branch(g, h7, p6, c, label(n + 2), label(n + 3));
    let h8 = h7.test_arm(c, label(n + 2), label(n + 3));
    let p7 = p6.push(Piece::Branch { indent: i, cond: c, yes: label(n + 2), no: label(n + 3) });
    assert("br i1 %cmp_"@ + var + ", label %"@ + label(n + 2) + ", label %"@ + label(n + 3) == "br i1 "@ + c
        + ", label %"@ + label(n + 2) + ", label %"@ + label(n + 3)) by {
        reveal_strlit("br i1 %cmp_");
        reveal_strlit("br i1 ");
        reveal_strlit("%cmp_");
        assert("br i1 %cmp_"@ + var == "br i1 "@ + c);
    }
    assert(h3.range_loop_head(var, p, end, label(n + 1), label(n + 2), label(n + 3)) == (h8, v));
    lemma_laid_mark(g, h8, p7, label(n + 2));
    let h9 = h8.e_raw(label(n + 2) + ":"@);
    let p8 = p7.push(Piece::Mark(label(n + 2)));
    let b = h9.set_indent(h9.deeper());
    assert(b == h8.begin_block(label(n + 2)));
    lemma_laid_same(g, h9, b, p8);
    keeps_compile_stmts(b, body);
    let h10 = b.compile_stmts(body);
    lemma_laid_part(g, b, h10, p8, 1);
    let p9 = p8.push(Piece::Part { number: 1, text: between(b, h10) });
    let k = h10.label_counter;
    lemma_step_wrote(h10, p, v);
    let h11 = h10.step_index(v, p);
    assert(h11.indent == h10.indent) by {
        reveal(wrote);
    }
    let j = h10.indent;
    lemma_laid_code(g, h10, h11, p9, step_code(p, v, k));
    let p10 = p9.push(Piece::Code { indent: j, code: step_code(p, v, k) });
    lemma_laid_goto(g, h11, p10, label(n + 1));
    let h12 = h11.e("br label %"@ + label(n + 1));
    let p11 = p10.push(Piece::Goto { indent: j, to: label(n + 1) });
    let h13 = h12.set_indent(h8.depth());
    assert(h13 == h11.end_block(label(n + 1), h8.depth()));
    lemma_laid_same(g, h12, h13, p11);
    lemma_laid_mark(g, h13, p11, label(n + 3));
    let pieces = p11.push(Piece::Mark(label(n + 3)));
    let h = h13.e_raw(label(n + 3) + ":"@);
    assert(g0.compile_for(stmt) == h);
    assert(g0.compile_stmt(stmt) == h);
    assert(pieces == count_pieces(between(a, h0), between(b, h10), p, v, c, end, n, k, i, j));
    assert(pieces[0] == Piece::Part { number: 0, text: between(a, a.compile_expr(iter).0) });
    assert(pieces[9] == Piece::Part { number: 1, text: between(b, b.compile_stmts(body)) });
    assert forall|w: World, parts: spec_fn(nat, Machine) -> Machine, m: Machine, seen: Seq<nat>| #[trigger]
        counts(pieces, p, v, end, w, parts, m, seen) by {
        lemma_count_walk(between(a, h0), between(b, h10), p, v, c, end, n, k, i, j, w, parts, m, seen);
    }
    assert(is_count(g, h, var, iter, body, pieces, a, b, p, v));
}

} // verus!
