//! Where control goes: pieces of a program with their marks and jumps, and what the code for conditions and
//! loops does.

use vstd::prelude::*;

use crate::codegen::llvm::identity::lemma_labels_differ;
use crate::codegen::llvm::laws::{grows, keeps_compile_expr, keeps_compile_stmts};
use crate::codegen::llvm::meaning::{
    code_text, int_in, lemma_label, run, value, wrote, Instr, Machine, World,
};

use crate::codegen::llvm::state::Gen;
use crate::syntax::ast::{ExprNode, Stmt, StmtNode};
use crate::text::{dec, repeated, Text};

verus! {

// ---------------------------------------------------------------------------------------------
// Pieces
// ---------------------------------------------------------------------------------------------
/// A piece of a program. A part is a piece with a number of its own, of which only the text is known; control
/// comes out at its end.
pub enum Piece {
    Code { indent: nat, code: Seq<Instr> },
    Mark(Text),
    Goto { indent: nat, to: Text },
    Branch { indent: nat, cond: Text, yes: Text, no: Text },
    Part { number: nat, text: Text },
}

/// How a piece is written.
pub open spec fn piece_text(p: Piece) -> Text {
    match p {
        Piece::Code { indent, code } => code_text(code, indent),
        Piece::Mark(l) => l + ":"@ + "\n"@,
        Piece::Goto { indent, to } => repeated("  "@, indent) + ("br label %"@ + to) + "\n"@,
        Piece::Branch { indent, cond, yes, no } => repeated("  "@, indent) + ("br i1 "@ + cond + ", label %"@ + yes
            + ", label %"@ + no) + "\n"@,
        Piece::Part { text, .. } => text,
    }
}

/// How pieces are written, one behind the other.
pub open spec fn pieces_text(pieces: Seq<Piece>) -> Text
    decreases pieces.len(),
{
    if pieces.len() == 0 {
        Seq::empty()
    } else {
        pieces_text(pieces.drop_last()) + piece_text(pieces.last())
    }
}

/// From `g` to `h` these pieces were written, and nothing else.
#[verifier::opaque]
pub open spec fn laid(g: Gen, h: Gen, pieces: Seq<Piece>) -> bool {
    h.output == g.output + pieces_text(pieces)
}

/// No pieces.
pub open spec fn no_pieces() -> Seq<Piece> {
    Seq::empty()
}

// ---------------------------------------------------------------------------------------------
// Where control goes
// ---------------------------------------------------------------------------------------------
/// Where control is: in front of a piece, with a machine, after some parts.
pub struct Spot {
    pub at: nat,
    pub machine: Machine,
    pub seen: Seq<nat>,
}

/// The first place of a mark.
pub open spec fn mark_from(pieces: Seq<Piece>, l: Text, from: nat) -> nat
    decreases pieces.len() - from,
{
    if from >= pieces.len() {
        pieces.len()
    } else if pieces[from as int] == Piece::Mark(l) {
        from
    } else {
        mark_from(pieces, l, from + 1)
    }
}

/// Where control is next. `parts` says what the parts do.
pub open spec fn next(w: World, parts: spec_fn(nat, Machine) -> Machine, pieces: Seq<Piece>, s: Spot) -> Spot {
    if s.at >= pieces.len() {
        s
    } else {
        match pieces[s.at as int] {
            Piece::Code { code, .. } => Spot { at: s.at + 1, machine: run(w, code, s.machine), ..s },
            Piece::Mark(_) => Spot { at: s.at + 1, ..s },
            Piece::Goto { to, .. } => Spot { at: mark_from(pieces, to, 0), ..s },
            Piece::Branch { cond, yes, no, .. } => if int_in(value(w, s.machine, cond)) != 0 {
                Spot { at: mark_from(pieces, yes, 0), ..s }
            } else {
                Spot { at: mark_from(pieces, no, 0), ..s }
            },
            Piece::Part { number, .. } => Spot {
                at: s.at + 1,
                machine: parts(number, s.machine),
                seen: s.seen.push(number),
            },
        }
    }
}

/// Where control is after `n` steps.
pub open spec fn walked(
    w: World,
    parts: spec_fn(nat, Machine) -> Machine,
    pieces: Seq<Piece>,
    s: Spot,
    n: nat,
) -> Spot
    decreases n,
{
    if n == 0 {
        s
    } else {
        next(w, parts, pieces, walked(w, parts, pieces, s, (n - 1) as nat))
    }
}

/// Control comes from one spot to another.
pub open spec fn comes(
    w: World,
    parts: spec_fn(nat, Machine) -> Machine,
    pieces: Seq<Piece>,
    s: Spot,
    t: Spot,
) -> bool {
    exists|n: nat| #[trigger] walked(w, parts, pieces, s, n) == t
}

// ---------------------------------------------------------------------------------------------
// Laying pieces
// ---------------------------------------------------------------------------------------------
/// Nothing is laid where nothing is done.
pub proof fn lemma_laid_nothing(g: Gen)
    ensures
        laid(g, g, no_pieces()),
{
    reveal(laid);
    assert(g.output + Seq::<char>::empty() == g.output);
}

proof fn lemma_laid_more(g: Gen, h: Gen, k: Gen, pieces: Seq<Piece>, p: Piece)
    requires
        laid(g, h, pieces),
        k.output == h.output + piece_text(p),
    ensures
        laid(g, k, pieces.push(p)),
{
    reveal(laid);
    assert(pieces.push(p).drop_last() == pieces);
    assert(g.output + (pieces_text(pieces) + piece_text(p)) == (g.output + pieces_text(pieces)) + piece_text(p));
}

/// Instructions behind pieces.
pub proof fn lemma_laid_code(g: Gen, h: Gen, k: Gen, pieces: Seq<Piece>, code: Seq<Instr>)
    requires
        laid(g, h, pieces),
        wrote(h, k, code),
    ensures
        laid(g, k, pieces.push(Piece::Code { indent: h.indent, code })),
{
    reveal(wrote);
    lemma_laid_more(g, h, k, pieces, Piece::Code { indent: h.indent, code });
}

/// A mark behind pieces.
pub proof fn lemma_laid_mark(g: Gen, h: Gen, pieces: Seq<Piece>, l: Text)
    requires
        laid(g, h, pieces),
    ensures
        laid(g, h.e_raw(l + ":"@), pieces.push(Piece::Mark(l))),
        h.e_raw(l + ":"@) == (Gen { output: h.e_raw(l + ":"@).output, ..h }),
{
    reveal(Gen::e_raw);
    lemma_laid_more(g, h, h.e_raw(l + ":"@), pieces, Piece::Mark(l));
}

/// A jump behind pieces.
pub proof fn lemma_laid_goto(g: Gen, h: Gen, pieces: Seq<Piece>, to: Text)
    requires
        laid(g, h, pieces),
    ensures
        laid(g, h.e("br label %"@ + to), pieces.push(Piece::Goto { indent: h.indent, to })),
        h.e("br label %"@ + to) == (Gen { output: h.e("br label %"@ + to).output, ..h }),
{
    reveal(Gen::e);
    lemma_laid_more(g, h, h.e("br label %"@ + to), pieces, Piece::Goto { indent: h.indent, to });
}

/// A jump that depends on a condition, behind pieces.
pub proof fn lemma_laid_branch(g: Gen, h: Gen, pieces: Seq<Piece>, cond: Text, yes: Text, no: Text)
    requires
        laid(g, h, pieces),
    ensures
        laid(g, h.test_arm(cond, yes, no), pieces.push(Piece::Branch { indent: h.indent, cond, yes, no })),
        h.test_arm(cond, yes, no) == (Gen { output: h.test_arm(cond, yes, no).output, ..h }),
{
    reveal(Gen::e);
    lemma_laid_more(g, h, h.test_arm(cond, yes, no), pieces, Piece::Branch { indent: h.indent, cond, yes, no });
}

/// What was written between two states.
pub open spec fn between(g: Gen, h: Gen) -> Text {
    h.output.skip(g.output.len() as int)
}

/// A part behind pieces: what the generator wrote meanwhile.
pub proof fn lemma_laid_part(g: Gen, h: Gen, k: Gen, pieces: Seq<Piece>, number: nat)
    requires
        laid(g, h, pieces),
        grows(h, k),
    ensures
        laid(g, k, pieces.push(Piece::Part { number, text: between(h, k) })),
{
    reveal(grows);
    assert(k.output == h.output + between(h, k)) by {
        assert(k.output.take(h.output.len() as int) + k.output.skip(h.output.len() as int) == k.output);
    }
    lemma_laid_more(g, h, k, pieces, Piece::Part { number, text: between(h, k) });
}

/// Going to another depth, or taking a label, writes nothing.
pub proof fn lemma_laid_same(g: Gen, h: Gen, k: Gen, pieces: Seq<Piece>)
    requires
        laid(g, h, pieces),
        k.output == h.output,
    ensures
        laid(g, k, pieces),
{
    reveal(laid);
}

// ---------------------------------------------------------------------------------------------
// Walking
// ---------------------------------------------------------------------------------------------
/// Every spot comes to itself.
pub proof fn lemma_comes_itself(w: World, parts: spec_fn(nat, Machine) -> Machine, pieces: Seq<Piece>, s: Spot)
    ensures
        comes(w, parts, pieces, s, s),
{
    assert(walked(w, parts, pieces, s, 0) == s);
}

/// Control that comes to a spot comes to the next one.
pub broadcast proof fn lemma_comes_next(
    w: World,
    parts: spec_fn(nat, Machine) -> Machine,
    pieces: Seq<Piece>,
    s: Spot,
    t: Spot,
)
    requires
        #[trigger] comes(w, parts, pieces, s, t),
    ensures
        comes(w, parts, pieces, s, #[trigger] next(w, parts, pieces, t)),
{
    let n = choose|n: nat| #[trigger] walked(w, parts, pieces, s, n) == t;
    assert(walked(w, parts, pieces, s, n + 1) == next(w, parts, pieces, t));
}

/// A mark that no earlier piece is, is where control goes.
pub proof fn lemma_mark(pieces: Seq<Piece>, l: Text, from: nat, at: nat)
    requires
        from <= at < pieces.len(),
        pieces[at as int] == Piece::Mark(l),
        forall|i: int| from <= i < at ==> #[trigger] pieces[i] != Piece::Mark(l),
    ensures
        mark_from(pieces, l, from) == at,
    decreases at - from,
{
    if from < at {
        assert(pieces[from as int] != Piece::Mark(l));
        lemma_mark(pieces, l, from + 1, at);
    }
}

// ---------------------------------------------------------------------------------------------
// Conditions and loops
// ---------------------------------------------------------------------------------------------
/// Where control is at first.
pub open spec fn start(m: Machine) -> Spot {
    Spot { at: 0, machine: m, seen: Seq::empty() }
}

/// The pieces hold the code that `a` writes for an expression, as the part with that number.
pub open spec fn has_expr(pieces: Seq<Piece>, number: nat, a: Gen, e: ExprNode) -> bool {
    pieces.contains(Piece::Part { number, text: between(a, a.compile_expr(e).0) })
}

/// The pieces hold the code that `a` writes for statements, as the part with that number.
pub open spec fn has_stmts(pieces: Seq<Piece>, number: nat, a: Gen, stmts: Seq<StmtNode>) -> bool {
    pieces.contains(Piece::Part { number, text: between(a, a.compile_stmts(stmts)) })
}

/// Labels of different numbers, as marks.
pub proof fn lemma_labels_apart(n: nat)
    ensures
        forall|a: nat, b: nat| a != b ==> #[trigger] label(a) != #[trigger] label(b),
{
    assert forall|a: nat, b: nat| a != b implies #[trigger] label(a) != #[trigger] label(b) by {
        lemma_labels_differ(a, b);
    }
}

/// The label with a number.
pub open spec fn label(n: nat) -> Text {
    "yk_"@ + dec(n)
}

/// From the start, control goes through the condition and one of two parts to the end: through the first
/// where the condition holds, else through the second.
pub open spec fn takes_branch(
    pieces: Seq<Piece>,
    cond: Text,
    w: World,
    parts: spec_fn(nat, Machine) -> Machine,
    m: Machine,
) -> bool {
    let m1 = parts(0, m);
    let taken: nat = if int_in(value(w, m1, cond)) != 0 {
        1
    } else {
        2
    };
    comes(
        w,
        parts,
        pieces,
        start(m),
        Spot { at: pieces.len(), machine: parts(taken, m1), seen: seq![0nat, taken] },
    )
}

spec fn if_pieces(
    a: Gen,
    b: Gen,
    c: Gen,
    cond: ExprNode,
    yes: Seq<StmtNode>,
    no: Seq<StmtNode>,
    n: nat,
    i: nat,
    j: nat,
) -> Seq<Piece> {
    no_pieces().push(Piece::Part { number: 0, text: between(a, a.compile_expr(cond).0) }).push(
        Piece::Branch { indent: i, cond: a.compile_expr(cond).1.0, yes: label(n), no: label(n + 1) },
    ).push(Piece::Mark(label(n))).push(Piece::Part { number: 1, text: between(b, b.compile_stmts(yes)) }).push(
        Piece::Goto { indent: j, to: label(n + 2) },
    ).push(Piece::Mark(label(n + 1))).push(Piece::Part { number: 2, text: between(c, c.compile_stmts(no)) }).push(
        Piece::Goto { indent: j, to: label(n + 2) },
    ).push(Piece::Mark(label(n + 2)))
}

proof fn lemma_if_walk(
    a: Gen,
    b: Gen,
    c: Gen,
    cond: ExprNode,
    yes: Seq<StmtNode>,
    no: Seq<StmtNode>,
    n: nat,
    i: nat,
    j: nat,
    w: World,
    parts: spec_fn(nat, Machine) -> Machine,
    m: Machine,
)
    ensures
        takes_branch(if_pieces(a, b, c, cond, yes, no, n, i, j), a.compile_expr(cond).1.0, w, parts, m),
{
    let pieces = if_pieces(a, b, c, cond, yes, no, n, i, j);
    lemma_labels_apart(n);
    lemma_mark(pieces, label(n), 0, 2);
    lemma_mark(pieces, label(n + 1), 0, 5);
    lemma_mark(pieces, label(n + 2), 0, 8);
    let s0 = start(m);
    lemma_comes_itself(w, parts, pieces, s0);
    let s1 = next(w, parts, pieces, s0);
    lemma_comes_next(w, parts, pieces, s0, s0);
    let s2 = next(w, parts, pieces, s1);
    lemma_comes_next(w, parts, pieces, s0, s1);
    let s3 = next(w, parts, pieces, s2);
    lemma_comes_next(w, parts, pieces, s0, s2);
    let s4 = next(w, parts, pieces, s3);
    lemma_comes_next(w, parts, pieces, s0, s3);
    let s5 = next(w, parts, pieces, s4);
    lemma_comes_next(w, parts, pieces, s0, s4);
    let s6 = next(w, parts, pieces, s5);
    lemma_comes_next(w, parts, pieces, s0, s5);
    assert(s1.seen == seq![0nat]);
    if int_in(value(w, s1.machine, a.compile_expr(cond).1.0)) != 0 {
        assert(s2.at == 2 && s3.at == 3 && s4.at == 4 && s5.at == 8 && s6.at == 9);
        assert(s4.seen == seq![0nat, 1nat]);
    } else {
        assert(s2.at == 5 && s3.at == 6 && s4.at == 7 && s5.at == 8 && s6.at == 9);
        assert(s4.seen == seq![0nat, 2nat]);
    }
}

/// What is done where a condition does not hold.
pub open spec fn else_stmts(stmt: StmtNode) -> Seq<StmtNode> {
    match stmt.value {
        Stmt::If(_, _, Some(body)) => body@,
        _ => Seq::empty(),
    }
}

/// From `g` to `h` the pieces were laid, and they are those of a condition: they hold the code for it and for
/// its two bodies, and control goes through the right one.
pub open spec fn is_condition(
    g: Gen,
    h: Gen,
    cond: ExprNode,
    yes: Seq<StmtNode>,
    no: Seq<StmtNode>,
    pieces: Seq<Piece>,
    a: Gen,
    b: Gen,
    c: Gen,
) -> bool {
    &&& laid(g, h, pieces)
    &&& has_expr(pieces, 0, a, cond)
    &&& has_stmts(pieces, 1, b, yes)
    &&& has_stmts(pieces, 2, c, no)
    &&& forall|w: World, parts: spec_fn(nat, Machine) -> Machine, m: Machine| #[trigger]
        takes_branch(pieces, a.compile_expr(cond).1.0, w, parts, m)
}

/// The code for a condition runs the condition and then one of its two bodies: the first where the condition
/// holds, else the second, which is empty where there is none.
pub proof fn lemma_if_takes_its_branch(g: Gen, stmt: StmtNode)
    requires
        stmt.value is If,
        g.label_counter + 3 <= usize::MAX,
    ensures
        ({
            let cond = stmt.value->If_0;
            let yes = stmt.value->If_1@;
            let no = else_stmts(stmt);
            exists|pieces: Seq<Piece>, a: Gen, b: Gen, c: Gen| #[trigger]
                is_condition(g, g.compile_stmt(stmt), cond, yes, no, pieces, a, b, c)
        }),
{
    let cond = stmt.value->If_0;
    let yes = stmt.value->If_1@;
    let no = else_stmts(stmt);
    let n = g.label_counter;
    lemma_label(g);
    let g1 = g.fresh_label().0;
    lemma_label(g1);
    let g2 = g1.fresh_label().0;
    lemma_label(g2);
    let a = g2.fresh_label().0;
    lemma_laid_nothing(g);
    lemma_laid_same(g, g, a, no_pieces());
    keeps_compile_expr(a, cond);
    let (h1, (cv, ct)) = a.compile_expr(cond);
    lemma_laid_part(g, a, h1, no_pieces(), 0);
    let p1 = no_pieces().push(Piece::Part { number: 0, text: between(a, h1) });
    lemma_laid_branch(g, h1, p1, cv, label(n), label(n + 1));
    let h2 = h1.test_arm(cv, label(n), label(n + 1));
    let i = h1.indent;
    let p2 = p1.push(Piece::Branch { indent: i, cond: cv, yes: label(n), no: label(n + 1) });
    lemma_laid_mark(g, h2, p2, label(n));
    let h3 = h2.e_raw(label(n) + ":"@);
    let p3 = p2.push(Piece::Mark(label(n)));
    let b = h3.set_indent(h3.deeper());
    reveal(Gen::set_indent);
    lemma_laid_same(g, h3, b, p3);
    keeps_compile_stmts(b, yes);
    let h4 = b.compile_stmts(yes);
    lemma_laid_part(g, b, h4, p3, 1);
    let p4 = p3.push(Piece::Part { number: 1, text: between(b, h4) });
    lemma_laid_goto(g, h4, p4, label(n + 2));
    let h5 = h4.e("br label %"@ + label(n + 2));
    let j = h4.indent;
    let p5 = p4.push(Piece::Goto { indent: j, to: label(n + 2) });
    let h6 = h5.set_indent(h2.indent);
    lemma_laid_same(g, h5, h6, p5);
    lemma_laid_mark(g, h6, p5, label(n + 1));
    let h7 = h6.e_raw(label(n + 1) + ":"@);
    let p6 = p5.push(Piece::Mark(label(n + 1)));
    let c = h7.set_indent(h7.deeper());
    lemma_laid_same(g, h7, c, p6);
    keeps_compile_stmts(c, no);
    let h8 = c.compile_stmts(no);
    lemma_laid_part(g, c, h8, p6, 2);
    let p7 = p6.push(Piece::Part { number: 2, text: between(c, h8) });
    lemma_laid_goto(g, h8, p7, label(n + 2));
    let h9 = h8.e("br label %"@ + label(n + 2));
    let p8 = p7.push(Piece::Goto { indent: h8.indent, to: label(n + 2) });
    let h10 = h9.set_indent(h2.indent);
    lemma_laid_same(g, h9, h10, p8);
    lemma_laid_mark(g, h10, p8, label(n + 2));
    let pieces = p8.push(Piece::Mark(label(n + 2)));
    assert(h8.indent == j);
    assert(g.compile_stmt(stmt) == h10.e_raw(label(n + 2) + ":"@));
    assert(pieces == if_pieces(a, b, c, cond, yes, no, n, i, j));
    assert(pieces[0] == Piece::Part { number: 0, text: between(a, a.compile_expr(cond).0) });
    assert(pieces[3] == Piece::Part { number: 1, text: between(b, b.compile_stmts(yes)) });
    assert(pieces[6] == Piece::Part { number: 2, text: between(c, c.compile_stmts(no)) });
    assert(has_expr(pieces, 0, a, cond) && has_stmts(pieces, 1, b, yes) && has_stmts(pieces, 2, c, no));
    assert forall|w: World, parts: spec_fn(nat, Machine) -> Machine, m: Machine| #[trigger]
        takes_branch(pieces, a.compile_expr(cond).1.0, w, parts, m) by {
        lemma_if_walk(a, b, c, cond, yes, no, n, i, j, w, parts, m);
    }
    assert(is_condition(g, g.compile_stmt(stmt), cond, yes, no, pieces, a, b, c));
}

spec fn while_pieces(a: Gen, b: Gen, cond: ExprNode, body: Seq<StmtNode>, n: nat, i: nat, j: nat) -> Seq<Piece> {
    no_pieces().push(Piece::Goto { indent: i, to: label(n) }).push(Piece::Mark(label(n))).push(
        Piece::Part { number: 0, text: between(a, a.compile_expr(cond).0) },
    ).push(Piece::Branch { indent: i, cond: a.compile_expr(cond).1.0, yes: label(n + 1), no: label(n + 2) }).push(
        Piece::Mark(label(n + 1)),
    ).push(Piece::Part { number: 1, text: between(b, b.compile_stmts(body)) }).push(
        Piece::Goto { indent: j, to: label(n) },
    ).push(Piece::Mark(label(n + 2)))
}

/// Control comes to the head of a loop. From there it goes through the condition, and where that holds through
/// the body and back to the head, else to the end.
pub open spec fn goes_round(
    pieces: Seq<Piece>,
    cond: Text,
    w: World,
    parts: spec_fn(nat, Machine) -> Machine,
    m: Machine,
    seen: Seq<nat>,
) -> bool {
    let head = Spot { at: 1, machine: m, seen };
    let m1 = parts(0, m);
    &&& comes(w, parts, pieces, start(m), Spot { at: 1, machine: m, seen: Seq::empty() })
    &&& if int_in(value(w, m1, cond)) != 0 {
        comes(w, parts, pieces, head, Spot { at: 1, machine: parts(1, m1), seen: seen.push(0).push(1) })
    } else {
        comes(w, parts, pieces, head, Spot { at: pieces.len(), machine: m1, seen: seen.push(0) })
    }
}

proof fn lemma_while_walk(
    a: Gen,
    b: Gen,
    cond: ExprNode,
    body: Seq<StmtNode>,
    n: nat,
    i: nat,
    j: nat,
    w: World,
    parts: spec_fn(nat, Machine) -> Machine,
    m: Machine,
    seen: Seq<nat>,
)
    ensures
        goes_round(while_pieces(a, b, cond, body, n, i, j), a.compile_expr(cond).1.0, w, parts, m, seen),
{
    let pieces = while_pieces(a, b, cond, body, n, i, j);
    lemma_labels_apart(n);
    lemma_mark(pieces, label(n), 0, 1);
    lemma_mark(pieces, label(n + 1), 0, 4);
    lemma_mark(pieces, label(n + 2), 0, 7);
    let s = start(m);
    lemma_comes_itself(w, parts, pieces, s);
    lemma_comes_next(w, parts, pieces, s, s);
    let s0 = Spot { at: 1, machine: m, seen };
    lemma_comes_itself(w, parts, pieces, s0);
    let s1 = next(w, parts, pieces, s0);
    lemma_comes_next(w, parts, pieces, s0, s0);
    let s2 = next(w, parts, pieces, s1);
    lemma_comes_next(w, parts, pieces, s0, s1);
    let s3 = next(w, parts, pieces, s2);
    lemma_comes_next(w, parts, pieces, s0, s2);
    let s4 = next(w, parts, pieces, s3);
    lemma_comes_next(w, parts, pieces, s0, s3);
    let s5 = next(w, parts, pieces, s4);
    lemma_comes_next(w, parts, pieces, s0, s4);
    let s6 = next(w, parts, pieces, s5);
    lemma_comes_next(w, parts, pieces, s0, s5);
    if int_in(value(w, s2.machine, a.compile_expr(cond).1.0)) != 0 {
        assert(s3.at == 4 && s4.at == 5 && s5.at == 6 && s6.at == 1);
    } else {
        assert(s3.at == 7 && s4.at == 8);
    }
}

/// From `g` to `h` the pieces were laid, and they are those of a loop with a condition.
pub open spec fn is_loop(
    g: Gen,
    h: Gen,
    cond: ExprNode,
    body: Seq<StmtNode>,
    pieces: Seq<Piece>,
    a: Gen,
    b: Gen,
) -> bool {
    &&& laid(g, h, pieces)
    &&& has_expr(pieces, 0, a, cond)
    &&& has_stmts(pieces, 1, b, body)
    &&& forall|w: World, parts: spec_fn(nat, Machine) -> Machine, m: Machine, seen: Seq<nat>| #[trigger]
        goes_round(pieces, a.compile_expr(cond).1.0, w, parts, m, seen)
}

/// The code for a loop runs its condition and its body in turn, as long as the condition holds.
pub proof fn lemma_while_goes_round(g: Gen, stmt: StmtNode)
    requires
        stmt.value is While,
        g.label_counter + 3 <= usize::MAX,
    ensures
        exists|pieces: Seq<Piece>, a: Gen, b: Gen| #[trigger]
            is_loop(g, g.compile_stmt(stmt), stmt.value->While_0, stmt.value->While_1@, pieces, a, b),
{
    let cond = stmt.value->While_0;
    let body = stmt.value->While_1@;
    let n = g.label_counter;
    reveal(Gen::set_indent);
    lemma_label(g);
    let g1 = g.fresh_label().0;
    lemma_label(g1);
    let g2 = g1.fresh_label().0;
    lemma_label(g2);
    let g3 = g2.fresh_label().0;
    lemma_laid_nothing(g);
    lemma_laid_same(g, g, g3, no_pieces());
    lemma_laid_goto(g, g3, no_pieces(), label(n));
    let h0 = g3.e("br label %"@ + label(n));
    let i = g3.indent;
    let p0 = no_pieces().push(Piece::Goto { indent: i, to: label(n) });
    lemma_laid_mark(g, h0, p0, label(n));
    let a = h0.e_raw(label(n) + ":"@);
    let p1 = p0.push(Piece::Mark(label(n)));
    keeps_compile_expr(a, cond);
    let (h1, (cv, ct)) = a.compile_expr(cond);
    lemma_laid_part(g, a, h1, p1, 0);
    let p2 = p1.push(Piece::Part { number: 0, text: between(a, h1) });
    lemma_laid_branch(g, h1, p2, cv, label(n + 1), label(n + 2));
    let h2 = h1.test_arm(cv, label(n + 1), label(n + 2));
    let p3 = p2.push(Piece::Branch { indent: i, cond: cv, yes: label(n + 1), no: label(n + 2) });
    lemma_laid_mark(g, h2, p3, label(n + 1));
    let h3 = h2.e_raw(label(n + 1) + ":"@);
    let p4 = p3.push(Piece::Mark(label(n + 1)));
    let b = h3.set_indent(h3.deeper());
    lemma_laid_same(g, h3, b, p4);
    keeps_compile_stmts(b, body);
    let h4 = b.compile_stmts(body);
    lemma_laid_part(g, b, h4, p4, 1);
    let p5 = p4.push(Piece::Part { number: 1, text: between(b, h4) });
    lemma_laid_goto(g, h4, p5, label(n));
    let h5 = h4.e("br label %"@ + label(n));
    let j = h4.indent;
    let p6 = p5.push(Piece::Goto { indent: j, to: label(n) });
    let h6 = h5.set_indent(h2.indent);
    lemma_laid_same(g, h5, h6, p6);
    lemma_laid_mark(g, h6, p6, label(n + 2));
    let pieces = p6.push(Piece::Mark(label(n + 2)));
    assert(g.compile_stmt(stmt) == h6.e_raw(label(n + 2) + ":"@));
    assert(pieces == while_pieces(a, b, cond, body, n, i, j));
    assert(pieces[2] == Piece::Part { number: 0, text: between(a, a.compile_expr(cond).0) });
    assert(pieces[5] == Piece::Part { number: 1, text: between(b, b.compile_stmts(body)) });
    assert forall|w: World, parts: spec_fn(nat, Machine) -> Machine, m: Machine, seen: Seq<nat>| #[trigger]
        goes_round(pieces, a.compile_expr(cond).1.0, w, parts, m, seen) by {
        lemma_while_walk(a, b, cond, body, n, i, j, w, parts, m, seen);
    }
    assert(is_loop(g, g.compile_stmt(stmt), cond, body, pieces, a, b));
}

} // verus!
