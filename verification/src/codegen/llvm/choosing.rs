//! What the code for a condition with two values does: it has the value of the branch that was taken.

use vstd::prelude::*;

use crate::codegen::llvm::flow::{
    between, comes, has_expr, label, laid, lemma_comes_itself, lemma_comes_next, lemma_labels_apart,
    lemma_laid_branch, lemma_laid_goto, lemma_laid_mark, lemma_laid_nothing, lemma_laid_part, lemma_laid_same,
    lemma_mark, next, no_pieces, start, takes_branch, Piece,
};
use crate::codegen::llvm::laws::keeps_compile_expr;
use crate::codegen::llvm::meaning::{
    group_machine, instr_text, int_in, kept, lemma_label, lemma_number_is_itself, lemma_wrote_nothing, no_code, older,
    parts_in, register, run, value, wrote, Instr, Machine, Opcode, World,
};
use crate::codegen::llvm::operators::{lemma_then, lemma_then_label};
use crate::codegen::llvm::state::Gen;
use crate::syntax::ast::{Expr, ExprNode};
use crate::text::{dec, int_dec, repeated, Text};

verus! {

/// The operand that is taken where control comes from behind a mark.
pub open spec fn picked(choices: Seq<(Text, Text)>, from: Text) -> Text
    decreases choices.len(),
{
    if choices.len() == 0 {
        ""@
    } else if choices[0].1 == from {
        choices[0].0
    } else {
        picked(choices.skip(1), from)
    }
}

/// How the instruction is written that takes one of two operands, after where control comes from.
pub open spec fn phi_text(to: Text, ty: Text, a: (Text, Text), b: (Text, Text)) -> Text {
    to + " = phi "@ + ty + " [ "@ + a.0 + ", %"@ + a.1 + " ], [ "@ + b.0 + ", %"@ + b.1 + " ]"@
}

/// The part with that number stands behind the mark.
pub open spec fn stands_behind(pieces: Seq<Piece>, mark: Text, number: nat) -> bool {
    exists|i: int|
        0 <= i < pieces.len() - 1 && #[trigger] pieces[i] == Piece::Mark(mark) && pieces[i + 1] is Part && pieces[i
            + 1]->number == number
}

spec fn choice_pieces(t0: Text, t1: Text, t2: Text, cond: Text, n: nat, i: nat, j: nat) -> Seq<Piece> {
    no_pieces().push(Piece::Part { number: 0, text: t0 }).push(
        Piece::Branch { indent: i, cond, yes: label(n), no: label(n + 1) },
    ).push(Piece::Mark(label(n))).push(Piece::Part { number: 1, text: t1 }).push(
        Piece::Goto { indent: j, to: label(n + 2) },
    ).push(Piece::Mark(label(n + 1))).push(Piece::Part { number: 2, text: t2 }).push(
        Piece::Goto { indent: j, to: label(n + 2) },
    ).push(Piece::Mark(label(n + 2)))
}

proof fn lemma_choice_walk(
    t0: Text,
    t1: Text,
    t2: Text,
    cond: Text,
    n: nat,
    i: nat,
    j: nat,
    w: World,
    parts: spec_fn(nat, Machine) -> Machine,
    m: Machine,
)
    ensures
        takes_branch(choice_pieces(t0, t1, t2, cond, n, i, j), cond, w, parts, m),
{
    let pieces = choice_pieces(t0, t1, t2, cond, n, i, j);
    lemma_labels_apart(n);
    lemma_mark(pieces, label(n), 0, 2);
    lemma_mark(pieces, label(n + 1), 0, 5);
    lemma_mark(pieces, label(n + 2), 0, 8);
    let s0 = start(m);
    lemma_comes_itself(w, parts, pieces, s0);
    let s1 = next(w, parts, pieces, s0);
    lemma_comes_next(w, parts, pieces, s0, s0);
    let s2 = next(w, parts, pieces, s1);
    lemma_comes_next(w, parts, pieces, s0, s1);
    let s3 = next(w, parts, pieces, s2);
    lemma_comes_next(w, parts, pieces, s0, s2);
    let s4 = next(w, parts, pieces, s3);
    lemma_comes_next(w, parts, pieces, s0, s3);
    let s5 = next(w, parts, pieces, s4);
    lemma_comes_next(w, parts, pieces, s0, s4);
    let s6 = next(w, parts, pieces, s5);
    lemma_comes_next(w, parts, pieces, s0, s5);
    assert(s1.seen == seq![0nat]);
    if int_in(value(w, s1.machine, cond)) != 0 {
        assert(s2.at == 2 && s3.at == 3 && s4.at == 4 && s5.at == 8 && s6.at == 9);
        assert(s4.seen == seq![0nat, 1nat]);
    } else {
        assert(s2.at == 5 && s3.at == 6 && s4.at == 7 && s5.at == 8 && s6.at == 9);
        assert(s4.seen == seq![0nat, 2nat]);
    }
}

/// From `g` to `h` the pieces were laid, and behind them the instruction that takes a value. Control goes through the
/// branch of the condition, and the value that is taken is that of the branch that control comes from.
pub open spec fn is_choice(
    g: Gen,
    h: Gen,
    r: Text,
    e: ExprNode,
    pieces: Seq<Piece>,
    a: Gen,
    b: Gen,
    c: Gen,
    k: Gen,
    first: (Text, Text),
    second: (Text, Text),
) -> bool {
    let cond = *e.value->If_0;
    let yes = *e.value->If_1;
    let no = *e.value->If_2->0;
    let choices = seq![first, second];
    &&& laid(g, k, pieces)
    &&& has_expr(pieces, 0, a, cond)
    &&& has_expr(pieces, 1, b, yes)
    &&& has_expr(pieces, 2, c, no)
    &&& forall|w: World, parts: spec_fn(nat, Machine) -> Machine, m: Machine| #[trigger]
        takes_branch(pieces, a.compile_expr(cond).1.0, w, parts, m)
    &&& h.output == k.output + (repeated("  "@, k.indent) + phi_text(r, b.compile_expr(yes).1.1, first, second) + "\n"@)
    &&& stands_behind(pieces, first.1, 1)
    &&& stands_behind(pieces, second.1, 2)
    &&& picked(choices, first.1) == b.compile_expr(yes).1.0
    &&& picked(choices, second.1) == c.compile_expr(no).1.0
}

/// The code for a condition with two values runs the condition and then the code for one of the values: the first where
/// the condition holds, else the second. Its value is the one whose code was run.
pub proof fn lemma_choice_has_its_value(g: Gen, e: ExprNode)
    requires
        e.value is If,
        e.value->If_2 is Some,
        g.label_counter + 3 <= usize::MAX,
    ensures
        exists|pieces: Seq<Piece>, a: Gen, b: Gen, c: Gen, k: Gen, first: (Text, Text), second: (Text, Text)| #[trigger]
            is_choice(g, g.compile_expr(e).0, g.compile_expr(e).1.0, e, pieces, a, b, c, k, first, second),
{
    let cond = *e.value->If_0;
    let yes = *e.value->If_1;
    let no = *e.value->If_2->0;
    let n = g.label_counter;
    reveal(Gen::set_indent);
    lemma_label(g);
    let g1 = g.fresh_label().0;
    lemma_label(g1);
    let g2 = g1.fresh_label().0;
    lemma_label(g2);
    let a = g2.fresh_label().0;
    lemma_laid_nothing(g);
    lemma_laid_same(g, g, a, no_pieces());
    keeps_compile_expr(a, cond);
    let (h1, (cv, ct)) = a.compile_expr(cond);
    lemma_laid_part(g, a, h1, no_pieces(), 0);
    let p1 = no_pieces().push(Piece::Part { number: 0, text: between(a, h1) });
    lemma_laid_branch(g, h1, p1, cv, label(n), label(n + 1));
    let h2 = h1.test_arm(cv, label(n), label(n + 1));
    let i = h1.indent;
    let p2 = p1.push(Piece::Branch { indent: i, cond: cv, yes: label(n), no: label(n + 1) });
    lemma_laid_mark(g, h2, p2, label(n));
    let h3 = h2.e_raw(label(n) + ":"@);
    let p3 = p2.push(Piece::Mark(label(n)));
    let b = h3.set_indent(h3.deeper());
    lemma_laid_same(g, h3, b, p3);
    keeps_compile_expr(b, yes);
    let (h4, (tv, tt)) = b.compile_expr(yes);
    lemma_laid_part(g, b, h4, p3, 1);
    let p4 = p3.push(Piece::Part { number: 1, text: between(b, h4) });
    lemma_laid_goto(g, h4, p4, label(n + 2));
    let h5 = h4.e("br label %"@ + label(n + 2));
    let j = h4.indent;
    let p5 = p4.push(Piece::Goto { indent: j, to: label(n + 2) });
    let h6 = h5.set_indent(h2.indent);
    lemma_laid_same(g, h5, h6, p5);
    lemma_laid_mark(g, h6, p5, label(n + 1));
    let h7 = h6.e_raw(label(n + 1) + ":"@);
    let p6 = p5.push(Piece::Mark(label(n + 1)));
    let c = h7.set_indent(h7.deeper());
    lemma_laid_same(g, h7, c, p6);
    keeps_compile_expr(c, no);
    let (h8, (ev, et)) = c.compile_expr(no);
    lemma_laid_part(g, c, h8, p6, 2);
    let p7 = p6.push(Piece::Part { number: 2, text: between(c, h8) });
    lemma_laid_goto(g, h8, p7, label(n + 2));
    let h9 = h8.e("br label %"@ + label(n + 2));
    let p8 = p7.push(Piece::Goto { indent: h8.indent, to: label(n + 2) });
    let h10 = h9.set_indent(h2.indent);
    lemma_laid_same(g, h9, h10, p8);
    lemma_laid_mark(g, h10, p8, label(n + 2));
    let pieces = p8.push(Piece::Mark(label(n + 2)));
    let k = h10.e_raw(label(n + 2) + ":"@);
    assert(h8.indent == j);
    assert(e.value == Expr::If(e.value->If_0, e.value->If_1, Some(e.value->If_2->0)));
    assert(b == h2.begin_block(label(n)));
    assert(h6 == h4.end_block(label(n + 2), h2.depth()));
    assert(c == h6.begin_block(label(n + 1)));
    assert(h10 == h8.end_block(label(n + 2), h2.depth()));
    assert(g.compile_if_expr(e) == k.merge_values(tt, tv, label(n), ev, label(n + 1)));
    assert(g.compile_composite(e) == g.compile_if_expr(e));
    assert(g.compile_expr(e) == g.compile_composite(e));
    assert(g.compile_expr(e) == k.merge_values(tt, tv, label(n), ev, label(n + 1)));
    let (h, r) = g.compile_expr(e);
    let first = (tv, label(n));
    let second = (ev, label(n + 1));
    assert(h.output == k.output + (repeated("  "@, k.indent) + phi_text(r.0, tt, first, second) + "\n"@)) by {
        reveal(Gen::e);
        reveal(Gen::fresh_label);
    }
    assert(pieces == choice_pieces(between(a, h1), between(b, h4), between(c, h8), cv, n, i, j));
    assert(pieces[0] == Piece::Part { number: 0, text: between(a, a.compile_expr(cond).0) });
    assert(pieces[2] == Piece::Mark(label(n)));
    assert(pieces[3] == Piece::Part { number: 1, text: between(b, b.compile_expr(yes).0) });
    assert(pieces[5] == Piece::Mark(label(n + 1)));
    assert(pieces[6] == Piece::Part { number: 2, text: between(c, c.compile_expr(no).0) });
    assert(stands_behind(pieces, label(n), 1)) by {
        assert(pieces[3] is Part);
    }
    assert(stands_behind(pieces, label(n + 1), 2)) by {
        assert(pieces[6] is Part);
    }
    lemma_labels_apart(n);
    let choices = seq![first, second];
    assert(choices.skip(1)[0] == second);
    assert(picked(choices, label(n)) == tv);
    assert(picked(choices.skip(1), label(n + 1)) == ev);
    assert forall|w: World, parts: spec_fn(nat, Machine) -> Machine, m: Machine| #[trigger]
        takes_branch(pieces, cv, w, parts, m) by {
        lemma_choice_walk(between(a, h1), between(b, h4), between(c, h8), cv, n, i, j, w, parts, m);
    }
    assert(is_choice(g, h, r.0, e, pieces, a, b, c, k, first, second));
}

/// A nullable value counts as null exactly where the truth value behind what it carries is false.
pub proof fn lemma_null_is_told(g: Gen, a: Text, ty: Text)
    requires
        g.label_counter + 2 <= usize::MAX,
        older(a, g.label_counter),
    ensures
        ({
            let (h, t) = g.null_test(a, ty);
            exists|code: Seq<Instr>| #[trigger]
                wrote(g, h, code) && forall|w: World, m: Machine|
                    {
                        let after = #[trigger] run(w, code, m);
                        &&& (int_in(value(w, after, "%"@ + t)) != 0) == (int_in(parts_in(value(w, m, a))[1]) == 0)
                        &&& kept(m, after, g.label_counter)
                    }
        }),
{
    broadcast use group_machine;

    reveal_strlit(", 1");
    reveal_strlit(", 0");
    reveal_strlit(", ");
    reveal_strlit(" = icmp eq i1 %");
    reveal_strlit(" = ");
    reveal_strlit("icmp eq");
    reveal_strlit(" ");
    reveal_strlit("i1");
    reveal_strlit("%");
    assert(dec(0) == seq!['0']);
    assert(dec(1) == seq!['1']);
    assert(", 1"@ == ", "@ + dec(1));
    assert(", 0"@ == ", "@ + int_dec(0));
    assert(" = icmp eq i1 %"@ == " = "@ + "icmp eq"@ + " "@ + "i1"@ + " "@ + "%"@);
    let n = g.label_counter;
    lemma_wrote_nothing(g);
    lemma_then_label(g, g, no_code());
    let (g1, f) = g.fresh_label();
    let i1 = Instr::Extract { to: register(n), ty, a, index: 1 };
    let l1 = "%"@ + f + " = extractvalue "@ + ty + " "@ + a + ", 1"@;
    assert(l1 == instr_text(i1));
    lemma_then(g, g1, no_code(), i1, l1);
    let g2 = g1.e(l1);
    let c1 = no_code().push(i1);
    lemma_then_label(g, g2, c1);
    let (g3, t) = g2.fresh_label();
    let i2 = Instr::Binary { to: register(n + 1), op: Opcode::IntEq, ty: "i1"@, a: register(n), b: int_dec(0) };
    let l2 = "%"@ + t + " = icmp eq i1 %"@ + f + ", 0"@;
    assert(l2 == ("%"@ + t) + (" = "@ + "icmp eq"@ + " "@ + "i1"@ + " "@) + ("%"@ + f) + ", "@ + int_dec(0));
    assert(l2 == instr_text(i2));
    lemma_then(g, g3, c1, i2, l2);
    let code = c1.push(i2);
    assert(wrote(g, g.null_test(a, ty).0, code));
    assert forall|w: World, m: Machine|
        {
            let after = #[trigger] run(w, code, m);
            &&& (int_in(value(w, after, register(n + 1))) != 0) == (int_in(parts_in(value(w, m, a))[1]) == 0)
            &&& kept(m, after, n)
        } by {
        lemma_number_is_itself(w, run(w, c1, m), 0);
    }
}

} // verus!
