//! What the statements of C do, as far as the compiler writes them, and what the compiled statements do: what the
//! statements of the source do.

use vstd::prelude::*;

use crate::codegen::c::meaning::{
    c_text, c_value, lemma_c_expression, lemma_no_string, no_strings, source_value, stands_for, whole, CExpr,
};
use crate::codegen::c::{print_calls, CGen};
use crate::scan::joined;
use crate::syntax::ast::{Expr, ExprNode, Param, Stmt, StmtNode, TypeExpr, TypeNode};
use crate::table::{lemma_slot, lookup_or, put, slot};
use crate::text::{bumped, dec, repeated, Text};

verus! {

// ---------------------------------------------------------------------------------------------
// Programs that run
// ---------------------------------------------------------------------------------------------
/// The variables of a program, and what it printed.
pub struct State {
    pub vars: Map<Text, int>,
    pub out: Seq<int>,
}

/// How statements end: they go on, they return from the function, or nothing is said of them, such as of a variable
/// that is not declared or of a loop that does not end in time.
pub enum Outcome {
    Next(State),
    Done(Option<int>, Seq<int>),
    Lost,
}

/// The state behind a block: what was declared in it is gone.
pub open spec fn behind_block(inner: State, outer: State) -> State {
    State { vars: inner.vars.restrict(outer.vars.dom()), out: inner.out }
}

/// The state with a value for a variable.
pub open spec fn with_var(s: State, x: Text, v: int) -> State {
    State { vars: s.vars.insert(x, v), out: s.out }
}

// ---------------------------------------------------------------------------------------------
// Statements of C
// ---------------------------------------------------------------------------------------------
/// A statement of C.
pub enum CStmt {
    Declare(Text, Text, CExpr),
    Change(Text, CExpr),
    Print(CExpr),
    Give(CExpr),
    GiveNothing,
    If(CExpr, Seq<CStmt>, Seq<CStmt>),
    While(CExpr, Seq<CStmt>),
    Forever(Seq<CStmt>),
    /// A loop of a variable from a bound to below another one; the bounds are held in two variables that have a
    /// number and that nothing else names.
    Count { number: nat, var: Text, from: CExpr, to: CExpr, body: Seq<CStmt> },
}

/// A line at a depth.
pub open spec fn c_line(depth: nat, s: Text) -> Text {
    repeated("    "@, depth) + s + "\n"@
}

/// How a statement is written.
pub open spec fn stmt_text(s: CStmt, depth: nat) -> Text
    decreases s, 0nat,
{
    match s {
        CStmt::Declare(ty, x, e) => c_line(depth, ty + " "@ + x + " = "@ + c_text(e) + ";"@),
        CStmt::Change(x, e) => c_line(depth, x + " = "@ + c_text(e) + ";"@),
        CStmt::Print(e) => c_line(depth, "yk_print_val("@ + c_text(e) + ")"@ + ";"@),
        CStmt::Give(e) => c_line(depth, "return "@ + c_text(e) + ";"@),
        CStmt::GiveNothing => c_line(depth, "return;"@),
        CStmt::If(c, yes, no) => c_line(depth, "if ("@ + c_text(c) + ") {"@) + stmts_text(yes, bumped(depth)) + (
        if no.len() == 0 {
            Seq::empty()
        } else {
            c_line(depth, "} else {"@) + stmts_text(no, bumped(depth))
        }) + c_line(depth, "}"@),
        CStmt::While(c, body) => c_line(depth, "while ("@ + c_text(c) + ") {"@) + stmts_text(body, bumped(depth))
            + c_line(depth, "}"@),
        CStmt::Forever(body) => c_line(depth, "for (;;) {"@) + stmts_text(body, bumped(depth)) + c_line(depth, "}"@),
        CStmt::Count { number, var, from, to, body } => {
            let d = bumped(depth);
            let a = "yk_start_"@ + dec(number);
            let b = "yk_end_"@ + dec(number);
            c_line(depth, "{"@) + c_line(d, "int64_t "@ + a + " = "@ + c_text(from) + ";"@) + c_line(
                d,
                "int64_t "@ + b + " = "@ + c_text(to) + ";"@,
            ) + c_line(
                d,
                "for (int64_t "@ + var + " = "@ + a + "; "@ + var + " < "@ + b + "; "@ + var + "++) {"@,
            ) + stmts_text(body, bumped(d)) + c_line(d, "}"@) + c_line(depth, "}"@)
        },
    }
}

/// How statements are written, one behind the other.
pub open spec fn stmts_text(list: Seq<CStmt>, depth: nat) -> Text
    decreases list, 1nat,
{
    if list.len() == 0 {
        Seq::empty()
    } else {
        stmts_text(list.drop_last(), depth) + stmt_text(list.last(), depth)
    }
}

/// What a statement of C does.
pub open spec fn c_run(c: CStmt, s: State, fns: spec_fn(Text, Seq<int>) -> int, fuel: nat) -> Outcome
    decreases fuel, c, 0nat,
{
    match c {
        CStmt::Declare(_, x, e) => match c_value(e, s.vars, fns) {
            Some(v) => Outcome::Next(with_var(s, x, v)),
            None => Outcome::Lost,
        },
        CStmt::Change(x, e) => match c_value(e, s.vars, fns) {
            Some(v) => if s.vars.dom().contains(x) {
                Outcome::Next(with_var(s, x, v))
            } else {
                Outcome::Lost
            },
            None => Outcome::Lost,
        },
        CStmt::Print(e) => match c_value(e, s.vars, fns) {
            Some(v) => Outcome::Next(State { out: s.out.push(v), ..s }),
            None => Outcome::Lost,
        },
        CStmt::Give(e) => match c_value(e, s.vars, fns) {
            Some(v) => Outcome::Done(Some(v), s.out),
            None => Outcome::Lost,
        },
        CStmt::GiveNothing => Outcome::Done(None, s.out),
        CStmt::If(e, yes, no) => match c_value(e, s.vars, fns) {
            Some(v) => match if v != 0 {
                c_run_all(yes, s, fns, fuel)
            } else {
                c_run_all(no, s, fns, fuel)
            } {
                Outcome::Next(t) => Outcome::Next(behind_block(t, s)),
                end => end,
            },
            None => Outcome::Lost,
        },
        CStmt::While(e, body) => match c_value(e, s.vars, fns) {
            Some(v) => if v == 0 {
                Outcome::Next(s)
            } else if fuel == 0 {
                Outcome::Lost
            } else {
                match c_run_all(body, s, fns, (fuel - 1) as nat) {
                    Outcome::Next(t) => c_run(c, behind_block(t, s), fns, (fuel - 1) as nat),
                    end => end,
                }
            },
            None => Outcome::Lost,
        },
        CStmt::Forever(body) => if fuel == 0 {
            Outcome::Lost
        } else {
            match c_run_all(body, s, fns, (fuel - 1) as nat) {
                Outcome::Next(t) => c_run(c, behind_block(t, s), fns, (fuel - 1) as nat),
                end => end,
            }
        },
        CStmt::Count { var, from, to, body, .. } => match (c_value(from, s.vars, fns), c_value(to, s.vars, fns)) {
            (Some(a), Some(b)) => match c_count(var, b, body, with_var(s, var, a), fns, fuel) {
                Outcome::Next(t) => Outcome::Next(behind_block(t, s)),
                end => end,
            },
            _ => Outcome::Lost,
        },
    }
}

/// The rounds of a counting loop, from where its variable is.
pub open spec fn c_count(
    var: Text,
    end: int,
    body: Seq<CStmt>,
    s: State,
    fns: spec_fn(Text, Seq<int>) -> int,
    fuel: nat,
) -> Outcome
    decreases fuel, body, 2nat,
{
    if !(s.vars[var] < end) {
        Outcome::Next(s)
    } else if fuel == 0 {
        Outcome::Lost
    } else {
        match c_run_all(body, s, fns, (fuel - 1) as nat) {
            Outcome::Next(t) => c_count(
                var,
                end,
                body,
                with_var(behind_block(t, s), var, t.vars[var] + 1),
                fns,
                (fuel - 1) as nat,
            ),
            end => end,
        }
    }
}

/// What statements of C do, one after the other.
pub open spec fn c_run_all(list: Seq<CStmt>, s: State, fns: spec_fn(Text, Seq<int>) -> int, fuel: nat) -> Outcome
    decreases fuel, list, 1nat,
{
    if list.len() == 0 {
        Outcome::Next(s)
    } else {
        match c_run_all(list.drop_last(), s, fns, fuel) {
            Outcome::Next(t) => c_run(list.last(), t, fns, fuel),
            end => end,
        }
    }
}

// ---------------------------------------------------------------------------------------------
// Statements of the source
// ---------------------------------------------------------------------------------------------
/// The only argument of a call that prints one value; none where the expression is no such call.
pub open spec fn printed(e: ExprNode) -> Option<ExprNode> {
    match e.value {
        Expr::Call(f, args) => match f.value {
            Expr::Ident(name) => if (name@ == "print"@ || name@ == "println"@) && args@.len() == 1 {
                Some(args@[0])
            } else {
                None
            },
            _ => None,
        },
        _ => None,
    }
}

/// What statements of the source do, one after the other.
pub open spec fn run_all(list: Seq<StmtNode>, s: State, fns: spec_fn(Text, Seq<int>) -> int, fuel: nat) -> Outcome
    decreases fuel, list, 1nat,
{
    if list.len() == 0 {
        Outcome::Next(s)
    } else {
        match run_all(list.drop_last(), s, fns, fuel) {
            Outcome::Next(t) => run_one(list.last(), t, fns, fuel),
            end => end,
        }
    }
}

/// What a statement of the source does.
pub open spec fn run_one(stmt: StmtNode, s: State, fns: spec_fn(Text, Seq<int>) -> int, fuel: nat) -> Outcome
    decreases fuel, stmt, 0nat,
{
    match stmt.value {
        Stmt::Decl { name, value, .. } => match source_value(value, s.vars, fns) {
            Some(v) => Outcome::Next(with_var(s, name@, v)),
            None => Outcome::Lost,
        },
        Stmt::Assign(name, value) => match source_value(value, s.vars, fns) {
            Some(v) => if s.vars.dom().contains(name@) {
                Outcome::Next(with_var(s, name@, v))
            } else {
                Outcome::Lost
            },
            None => Outcome::Lost,
        },
        Stmt::Expr(e) => match printed(e) {
            Some(x) => match source_value(x, s.vars, fns) {
                Some(v) => Outcome::Next(State { out: s.out.push(v), ..s }),
                None => Outcome::Lost,
            },
            None => Outcome::Lost,
        },
        Stmt::Return(Some(e)) => match source_value(e, s.vars, fns) {
            Some(v) => Outcome::Done(Some(v), s.out),
            None => Outcome::Lost,
        },
        Stmt::Return(None) => Outcome::Done(None, s.out),
        Stmt::If(cond, yes, no) => match source_value(cond, s.vars, fns) {
            Some(v) => match if v != 0 {
                run_all(yes@, s, fns, fuel)
            } else {
                match no {
                    Some(list) => run_all(list@, s, fns, fuel),
                    None => Outcome::Next(s),
                }
            } {
                Outcome::Next(t) => Outcome::Next(behind_block(t, s)),
                end => end,
            },
            None => Outcome::Lost,
        },
        Stmt::While(cond, body) => match source_value(cond, s.vars, fns) {
            Some(v) => if v == 0 {
                Outcome::Next(s)
            } else if fuel == 0 {
                Outcome::Lost
            } else {
                match run_all(body@, s, fns, (fuel - 1) as nat) {
                    Outcome::Next(t) => run_one(stmt, behind_block(t, s), fns, (fuel - 1) as nat),
                    end => end,
                }
            },
            None => Outcome::Lost,
        },
        Stmt::Loop(body) => if fuel == 0 {
            Outcome::Lost
        } else {
            match run_all(body@, s, fns, (fuel - 1) as nat) {
                Outcome::Next(t) => run_one(stmt, behind_block(t, s), fns, (fuel - 1) as nat),
                end => end,
            }
        },
        Stmt::For(var, iter, body, _) => match iter.value {
            Expr::Range(l, r) => match (source_value(*l, s.vars, fns), source_value(*r, s.vars, fns)) {
                (Some(a), Some(b)) => match run_range(var@, a, b, body@, s, fns, fuel) {
                    Outcome::Next(t) => Outcome::Next(behind_block(t, s)),
                    end => end,
                },
                _ => Outcome::Lost,
            },
            _ => Outcome::Lost,
        },
        _ => Outcome::Lost,
    }
}

/// The rounds of a loop over a range, one for each integer from `a` to below `b`. Nothing is said of a body that
/// changes the variable of the loop.
pub open spec fn run_range(
    var: Text,
    a: int,
    b: int,
    body: Seq<StmtNode>,
    s: State,
    fns: spec_fn(Text, Seq<int>) -> int,
    fuel: nat,
) -> Outcome
    decreases fuel, body, 2nat,
{
    if a >= b {
        Outcome::Next(with_var(s, var, a))
    } else if fuel == 0 {
        Outcome::Lost
    } else {
        match run_all(body, with_var(s, var, a), fns, (fuel - 1) as nat) {
            Outcome::Next(t) => if t.vars[var] == a {
                run_range(var, a + 1, b, body, behind_block(t, with_var(s, var, a)), fns, (fuel - 1) as nat)
            } else {
                Outcome::Lost
            },
            end => end,
        }
    }
}

/// Statements on integers and truth values.
pub open spec fn plain_stmts(list: Seq<StmtNode>) -> bool
    decreases list, 1nat,
{
    list.len() == 0 || (plain_stmts(list.drop_last()) && plain_stmt(list.last()))
}

/// A statement on integers and truth values.
pub open spec fn plain_stmt(stmt: StmtNode) -> bool
    decreases stmt, 0nat,
{
    match stmt.value {
        Stmt::Decl { type_expr, value, .. } => whole(value) && match type_expr {
            Some(t) => t.value is Int || t.value is Bool,
            None => true,
        },
        Stmt::Assign(_, value) => whole(value),
        Stmt::Expr(e) => printed(e) is Some && whole(printed(e)->0),
        Stmt::Return(Some(e)) => whole(e),
        Stmt::Return(None) => true,
        Stmt::If(cond, yes, no) => whole(cond) && plain_stmts(yes@) && match no {
            Some(list) => plain_stmts(list@),
            None => true,
        },
        Stmt::While(cond, body) => whole(cond) && plain_stmts(body@),
        Stmt::Loop(body) => plain_stmts(body@),
        Stmt::For(_, iter, body, _) => plain_stmts(body@) && match iter.value {
            Expr::Range(l, r) => whole(*l) && whole(*r),
            _ => false,
        },
        _ => false,
    }
}

// ---------------------------------------------------------------------------------------------
// What is compiled
// ---------------------------------------------------------------------------------------------
/// The statements of C do what those of the source do, wherever anything is said of these.
pub open spec fn do_the_same(cs: Seq<CStmt>, list: Seq<StmtNode>) -> bool {
    forall|s: State, fns: spec_fn(Text, Seq<int>) -> int, fuel: nat|
        !(run_all(list, s, fns, fuel) is Lost) ==> #[trigger] c_run_all(cs, s, fns, fuel) == run_all(
            list,
            s,
            fns,
            fuel,
        )
}

/// The statement of C does what that of the source does.
pub open spec fn does_the_same(c: CStmt, stmt: StmtNode) -> bool {
    forall|s: State, fns: spec_fn(Text, Seq<int>) -> int, fuel: nat|
        !(run_one(stmt, s, fns, fuel) is Lost) ==> #[trigger] c_run(c, s, fns, fuel) == run_one(stmt, s, fns, fuel)
}

/// From `g` to `h` the statements of C were written.
pub open spec fn c_wrote(g: CGen, h: CGen, cs: Seq<CStmt>) -> bool {
    h.output == g.output + stmts_text(cs, g.indent) && h.indent == g.indent
}

/// From `g` to `h` one statement of C was written.
pub open spec fn c_wrote_one(g: CGen, h: CGen, c: CStmt) -> bool {
    h.output == g.output + stmt_text(c, g.indent) && h.indent == g.indent
}

proof fn lemma_emit(g: CGen, s: Text)
    ensures
        g.emit(s) == (CGen { output: g.output + c_line(g.indent, s), ..g }),
{
    reveal(CGen::emit);
}

proof fn lemma_set_type(g: CGen, x: Text, ty: Text)
    requires
        no_strings(g),
        ty != "yk_string"@,
    ensures
        no_strings(g.set_var_type(x, ty)),
        g.set_var_type(x, ty).output == g.output,
        g.set_var_type(x, ty).indent == g.indent,
{
    reveal(CGen::set_var_type);
    let h = g.set_var_type(x, ty);
    assert forall|y: Text| lookup_or(h.var_types, y, "int64_t"@) != "yk_string"@ by {
        lemma_put_type(g.var_types, x, ty, y);
        assert(lookup_or(g.var_types, y, "int64_t"@) != "yk_string"@);
    }
}

proof fn lemma_put_type(t: Seq<(Text, Text)>, x: Text, ty: Text, y: Text)
    ensures
        lookup_or(put(t, x, ty), y, "int64_t"@) == ty || lookup_or(put(t, x, ty), y, "int64_t"@) == lookup_or(
            t,
            y,
            "int64_t"@,
        ),
{
    let u = put(t, x, ty);
    lemma_slot(t, x);
    lemma_slot(t, y);
    lemma_slot(u, y);
    let a = slot(t, y);
    let b = slot(u, y);
    let p = slot(t, x);
    if b >= 0 {
        if b < t.len() && b != p {
            assert(u[b] == t[b]);
            if a >= 0 && a < b {
                if a == p {
                    assert(u[a].0 == y);
                } else {
                    assert(u[a] == t[a]);
                }
            } else if a < 0 {
                assert(t[b].0 != y);
            } else if a > b {
                assert(t[b].0 != y);
            }
        }
    } else if a >= 0 {
        if a == p {
            assert(u[a].0 == y);
        } else {
            assert(u[a] == t[a]);
        }
    }
}

proof fn lemma_int_is_no_string()
    ensures
        "int64_t"@ != "yk_string"@,
        "bool"@ != "yk_string"@,
{
    reveal_strlit("int64_t");
    reveal_strlit("yk_string");
    reveal_strlit("bool");
    assert("int64_t"@[0] == 'i');
    assert("yk_string"@[0] == 'y');
    assert("bool"@[0] == 'b');
}

/// The code of an expression.
proof fn lemma_expr(g: CGen, e: ExprNode) -> (c: CExpr)
    requires
        whole(e),
        no_strings(g),
    ensures
        g.compile_expr(e) == (g, c_text(c)),
        stands_for(c, c_text(c), e),
{
    lemma_c_expression(g, e);
    choose|c: CExpr| #[trigger] stands_for(c, g.compile_expr(e).1, e)
}

/// What an expression gives, its code gives.
proof fn lemma_same_value(c: CExpr, e: ExprNode, vars: Map<Text, int>, fns: spec_fn(Text, Seq<int>) -> int)
    requires
        stands_for(c, c_text(c), e),
        source_value(e, vars, fns) is Some,
    ensures
        c_value(c, vars, fns) == source_value(e, vars, fns),
{
}

proof fn lemma_while_same(
    c: CExpr,
    body: Seq<CStmt>,
    stmt: StmtNode,
    s: State,
    fns: spec_fn(Text, Seq<int>) -> int,
    fuel: nat,
)
    requires
        stmt.value is While,
        stands_for(c, c_text(c), stmt.value->While_0),
        do_the_same(body, stmt.value->While_1@),
        !(run_one(stmt, s, fns, fuel) is Lost),
    ensures
        c_run(CStmt::While(c, body), s, fns, fuel) == run_one(stmt, s, fns, fuel),
    decreases fuel,
{
    let cond = stmt.value->While_0;
    let list = stmt.value->While_1@;
    lemma_same_value(c, cond, s.vars, fns);
    if source_value(cond, s.vars, fns)->0 != 0 {
        let f = (fuel - 1) as nat;
        assert(c_run_all(body, s, fns, f) == run_all(list, s, fns, f));
        match run_all(list, s, fns, f) {
            Outcome::Next(t) => {
                lemma_while_same(c, body, stmt, behind_block(t, s), fns, f);
            },
            _ => {},
        }
    }
}

proof fn lemma_loop_same(
    body: Seq<CStmt>,
    stmt: StmtNode,
    s: State,
    fns: spec_fn(Text, Seq<int>) -> int,
    fuel: nat,
)
    requires
        stmt.value is Loop,
        do_the_same(body, stmt.value->Loop_0@),
        !(run_one(stmt, s, fns, fuel) is Lost),
    ensures
        c_run(CStmt::Forever(body), s, fns, fuel) == run_one(stmt, s, fns, fuel),
    decreases fuel,
{
    let list = stmt.value->Loop_0@;
    let f = (fuel - 1) as nat;
    assert(c_run_all(body, s, fns, f) == run_all(list, s, fns, f));
    match run_all(list, s, fns, f) {
        Outcome::Next(t) => {
            lemma_loop_same(body, stmt, behind_block(t, s), fns, f);
        },
        _ => {},
    }
}

proof fn lemma_range_same(
    var: Text,
    a: int,
    b: int,
    body: Seq<CStmt>,
    list: Seq<StmtNode>,
    s: State,
    fns: spec_fn(Text, Seq<int>) -> int,
    fuel: nat,
)
    requires
        do_the_same(body, list),
        !(run_range(var, a, b, list, s, fns, fuel) is Lost),
    ensures
        c_count(var, b, body, with_var(s, var, a), fns, fuel) == run_range(var, a, b, list, s, fns, fuel),
    decreases fuel,
{
    let s1 = with_var(s, var, a);
    if a < b {
        let f = (fuel - 1) as nat;
        assert(c_run_all(body, s1, fns, f) == run_all(list, s1, fns, f));
        match run_all(list, s1, fns, f) {
            Outcome::Next(t) => {
                lemma_range_same(var, a + 1, b, body, list, behind_block(t, s1), fns, f);
            },
            _ => {},
        }
    }
}

/// The C statements that are written for statements on integers do what the statements do: they declare, change and
/// print the values that the source says, take the branch and go round the loops that it says, and return what it
/// says.
pub proof fn lemma_c_statements(g: CGen, list: Seq<StmtNode>)
    requires
        plain_stmts(list),
        no_strings(g),
    ensures
        exists|cs: Seq<CStmt>| #[trigger] c_wrote(g, g.compile_stmts(list), cs) && do_the_same(cs, list),
        no_strings(g.compile_stmts(list)),
    decreases list, 2nat,
{
    if list.len() == 0 {
        let cs = Seq::<CStmt>::empty();
        assert(g.output + Seq::<char>::empty() == g.output);
        assert(c_wrote(g, g.compile_stmts(list), cs));
        assert(do_the_same(cs, list));
    } else {
        let before = list.drop_last();
        lemma_c_statements(g, before);
        let h = g.compile_stmts(before);
        lemma_c_statement(h, list.last());
        let cs = choose|cs: Seq<CStmt>| #[trigger] c_wrote(g, h, cs) && do_the_same(cs, before);
        let k = h.compile_stmt(list.last());
        let c = choose|c: CStmt| #[trigger] c_wrote_one(h, k, c) && does_the_same(c, list.last());
        let all = cs.push(c);
        assert(all.drop_last() == cs);
        assert(g.output + (stmts_text(cs, g.indent) + stmt_text(c, g.indent)) == (g.output + stmts_text(cs, g.indent))
            + stmt_text(c, g.indent));
        assert(k == g.compile_stmts(list));
        assert(c_wrote(g, k, all));
        assert forall|s: State, fns: spec_fn(Text, Seq<int>) -> int, fuel: nat| !(run_all(
            list,
            s,
            fns,
            fuel,
        ) is Lost) implies #[trigger] c_run_all(all, s, fns, fuel) == run_all(list, s, fns, fuel) by {
            assert(c_run_all(cs, s, fns, fuel) == run_all(before, s, fns, fuel));
            match run_all(before, s, fns, fuel) {
                Outcome::Next(t) => {
                    assert(c_run(c, t, fns, fuel) == run_one(list.last(), t, fns, fuel));
                },
                _ => {},
            }
        }
        assert(do_the_same(all, list));
    }
}

proof fn lemma_simple(g: CGen, h: CGen, stmt: StmtNode, c: CStmt, line: Text)
    requires
        h.output == g.output,
        h.indent == g.indent,
        stmt_text(c, g.indent) == c_line(g.indent, line),
        does_the_same(c, stmt),
        h.emit(line) == g.compile_stmt(stmt),
        no_strings(h),
    ensures
        c_wrote_one(g, g.compile_stmt(stmt), c),
        no_strings(g.compile_stmt(stmt)),
{
    lemma_emit(h, line);
}

proof fn lemma_printed(g: CGen, e: ExprNode, c: CExpr)
    requires
        printed(e) is Some,
        whole(printed(e)->0),
        no_strings(g),
        g.compile_expr(printed(e)->0) == (g, c_text(c)),
    ensures
        g.compile_expr(e) == (g, "yk_print_val("@ + c_text(c) + ")"@),
{
    reveal_strlit("");
    assert(g.compile_expr(e) == g.compile_call(e));
    reveal_with_fuel(CGen::compile_call, 2);
    match e.value {
        Expr::Call(f, args) => {
            reveal_with_fuel(CGen::compile_exprs, 2);
            assert(args@.drop_last() == Seq::<ExprNode>::empty());
            let codes = g.compile_exprs(args@).1;
            assert(codes == Seq::<Text>::empty().push(c_text(c)));
            assert(codes.drop_last() == Seq::<Text>::empty());
            reveal_with_fuel(print_calls, 2);
            assert(print_calls(codes) == ""@ + ("yk_print_val("@ + c_text(c) + ")"@));
            assert(print_calls(codes) == "yk_print_val("@ + c_text(c) + ")"@);
        },
        _ => {},
    }
}

proof fn lemma_c_statement(g: CGen, stmt: StmtNode)
    requires
        plain_stmt(stmt),
        no_strings(g),
    ensures
        exists|c: CStmt| #[trigger] c_wrote_one(g, g.compile_stmt(stmt), c) && does_the_same(c, stmt),
        no_strings(g.compile_stmt(stmt)),
    decreases stmt, 1nat,
{
    lemma_int_is_no_string();
    match stmt.value {
        Stmt::Decl { name, type_expr, value, is_const } => {
            let ty = match type_expr {
                Some(te) => g.type_to_c(te.value),
                None => g.expr_type(value).1,
            };
            lemma_no_string(g, value);
            lemma_set_type(g, name@, ty);
            let h = g.set_var_type(name@, ty);
            let e = lemma_expr(h, value);
            let c = CStmt::Declare(ty, name@, e);
            assert forall|s: State, fns: spec_fn(Text, Seq<int>) -> int, fuel: nat| !(run_one(
                stmt,
                s,
                fns,
                fuel,
            ) is Lost) implies #[trigger] c_run(c, s, fns, fuel) == run_one(stmt, s, fns, fuel) by {
                lemma_same_value(e, value, s.vars, fns);
            }
            lemma_simple(g, h, stmt, c, ty + " "@ + name@ + " = "@ + c_text(e) + ";"@);
        },
        Stmt::Assign(name, value) => {
            let e = lemma_expr(g, value);
            let c = CStmt::Change(name@, e);
            assert forall|s: State, fns: spec_fn(Text, Seq<int>) -> int, fuel: nat| !(run_one(
                stmt,
                s,
                fns,
                fuel,
            ) is Lost) implies #[trigger] c_run(c, s, fns, fuel) == run_one(stmt, s, fns, fuel) by {
                lemma_same_value(e, value, s.vars, fns);
            }
            lemma_simple(g, g, stmt, c, name@ + " = "@ + c_text(e) + ";"@);
        },
        Stmt::Expr(x) => {
            let e = lemma_expr(g, printed(x)->0);
            lemma_printed(g, x, e);
            let c = CStmt::Print(e);
            let code = "yk_print_val("@ + c_text(e) + ")"@;
            reveal_strlit("yk_print_val(");
            reveal_strlit("0");
            reveal_strlit("");
            assert(code.len() >= 13);
            assert forall|s: State, fns: spec_fn(Text, Seq<int>) -> int, fuel: nat| !(run_one(
                stmt,
                s,
                fns,
                fuel,
            ) is Lost) implies #[trigger] c_run(c, s, fns, fuel) == run_one(stmt, s, fns, fuel) by {
                lemma_same_value(e, printed(x)->0, s.vars, fns);
            }
            lemma_simple(g, g, stmt, c, code + ";"@);
        },
        Stmt::Return(Some(x)) => {
            let e = lemma_expr(g, x);
            let c = CStmt::Give(e);
            assert forall|s: State, fns: spec_fn(Text, Seq<int>) -> int, fuel: nat| !(run_one(
                stmt,
                s,
                fns,
                fuel,
            ) is Lost) implies #[trigger] c_run(c, s, fns, fuel) == run_one(stmt, s, fns, fuel) by {
                lemma_same_value(e, x, s.vars, fns);
            }
            lemma_simple(g, g, stmt, c, "return "@ + c_text(e) + ";"@);
        },
        Stmt::Return(None) => {
            lemma_simple(g, g, stmt, CStmt::GiveNothing, "return;"@);
        },
        Stmt::If(_, _, _) => {
            lemma_c_if(g, stmt);
        },
        Stmt::While(_, _) => {
            lemma_c_while(g, stmt);
        },
        Stmt::Loop(_) => {
            lemma_c_loop(g, stmt);
        },
        Stmt::For(_, _, _, _) => {
            lemma_c_for(g, stmt);
        },
        _ => {},
    }
}

/// A body in braces: what is written for it, one level deeper.
proof fn lemma_body(g: CGen, body: Seq<StmtNode>) -> (cs: Seq<CStmt>)
    requires
        plain_stmts(body),
        no_strings(g),
    ensures
        ({
            let h = g.set_indent(g.deeper()).compile_stmts(body).set_indent(g.indent);
            &&& h.output == g.output + stmts_text(cs, bumped(g.indent))
            &&& h.indent == g.indent
            &&& no_strings(h)
            &&& do_the_same(cs, body)
        }),
    decreases body, 3nat,
{
    reveal(CGen::set_indent);
    let g1 = g.set_indent(g.deeper());
    assert(no_strings(g1)) by {
        assert(g1.var_types == g.var_types);
    }
    lemma_c_statements(g1, body);
    let h1 = g1.compile_stmts(body);
    assert(no_strings(h1.set_indent(g.indent))) by {
        assert(h1.set_indent(g.indent).var_types == h1.var_types);
    }
    choose|cs: Seq<CStmt>| #[trigger] c_wrote(g1, h1, cs) && do_the_same(cs, body)
}

proof fn lemma_emit_no_strings(g: CGen, s: Text)
    requires
        no_strings(g),
    ensures
        no_strings(g.emit(s)),
{
    lemma_emit(g, s);
    assert(g.emit(s).var_types == g.var_types);
}

proof fn lemma_c_if(g: CGen, stmt: StmtNode)
    requires
        plain_stmt(stmt),
        no_strings(g),
        stmt.value is If,
    ensures
        exists|c: CStmt| #[trigger] c_wrote_one(g, g.compile_stmt(stmt), c) && does_the_same(c, stmt),
        no_strings(g.compile_stmt(stmt)),
    decreases stmt, 0nat,
{
    match stmt.value {
        Stmt::If(cond, yes, no) => {
            assert(g.compile_stmt(stmt) == g.compile_if_stmt(stmt));
            reveal_with_fuel(CGen::compile_if_stmt, 2);
            let e = lemma_expr(g, cond);
            let line = "if ("@ + c_text(e) + ") {"@;
            lemma_emit(g, line);
            lemma_emit_no_strings(g, line);
            let g1 = g.emit(line);
            let a = lemma_body(g1, yes@);
            let g2 = g1.set_indent(g1.deeper()).compile_stmts(yes@).set_indent(g1.indent);
            let other: Seq<StmtNode> = match no {
                Some(list) => list@,
                None => Seq::empty(),
            };
            if other.len() == 0 {
                let c = CStmt::If(e, a, Seq::empty());
                lemma_emit(g2, "}"@);
                lemma_emit_no_strings(g2, "}"@);
                let h = g2.emit("}"@);
                assert(g.compile_stmt(stmt) == h);
                let d = g.indent;
                assert(h.output == g.output + (c_line(d, line) + stmts_text(a, bumped(d)) + Seq::<char>::empty()
                    + c_line(d, "}"@)));
                assert(c_wrote_one(g, h, c));
                assert forall|s: State, fns: spec_fn(Text, Seq<int>) -> int, fuel: nat| !(run_one(
                    stmt,
                    s,
                    fns,
                    fuel,
                ) is Lost) implies #[trigger] c_run(c, s, fns, fuel) == run_one(stmt, s, fns, fuel) by {
                    lemma_same_value(e, cond, s.vars, fns);
                    assert(c_run_all(Seq::<CStmt>::empty(), s, fns, fuel) == Outcome::Next(s));
                    if source_value(cond, s.vars, fns)->0 != 0 {
                        assert(c_run_all(a, s, fns, fuel) == run_all(yes@, s, fns, fuel));
                    } else {
                        match no {
                            Some(list) => {
                                assert(run_all(list@, s, fns, fuel) == Outcome::Next(s));
                            },
                            None => {},
                        }
                    }
                }
                assert(does_the_same(c, stmt));
            } else {
                lemma_emit(g2, "} else {"@);
                lemma_emit_no_strings(g2, "} else {"@);
                let g3 = g2.emit("} else {"@);
                let b = lemma_body(g3, other);
                let g4 = g3.set_indent(g3.deeper()).compile_stmts(other).set_indent(g3.indent);
                lemma_emit(g4, "}"@);
                lemma_emit_no_strings(g4, "}"@);
                let h = g4.emit("}"@);
                assert(g.compile_stmt(stmt) == h);
                let d = g.indent;
                if b.len() == 0 {
                    // A body that has statements is written as statements, unless none of them is.
                    reveal(CGen::set_indent);
                    let inner = g3.set_indent(g3.deeper());
                    assert(no_strings(inner)) by {
                        assert(inner.var_types == g3.var_types);
                    }
                    lemma_some_statement(inner, other);
                    assert(stmts_text(b, bumped(d)) == Seq::<char>::empty());
                    assert(g4.output == g3.output + Seq::<char>::empty());
                    assert(false);
                }
                let c = CStmt::If(e, a, b);
                assert(h.output == g.output + (c_line(d, line) + stmts_text(a, bumped(d)) + (c_line(d, "} else {"@)
                    + stmts_text(b, bumped(d))) + c_line(d, "}"@)));
                assert(c_wrote_one(g, h, c));
                assert forall|s: State, fns: spec_fn(Text, Seq<int>) -> int, fuel: nat| !(run_one(
                    stmt,
                    s,
                    fns,
                    fuel,
                ) is Lost) implies #[trigger] c_run(c, s, fns, fuel) == run_one(stmt, s, fns, fuel) by {
                    lemma_same_value(e, cond, s.vars, fns);
                    if source_value(cond, s.vars, fns)->0 != 0 {
                        assert(c_run_all(a, s, fns, fuel) == run_all(yes@, s, fns, fuel));
                    } else {
                        assert(c_run_all(b, s, fns, fuel) == run_all(other, s, fns, fuel));
                    }
                }
                assert(does_the_same(c, stmt));
            }
        },
        _ => {},
    }
}

/// Every statement writes something.
proof fn lemma_some_statement(g: CGen, list: Seq<StmtNode>)
    requires
        plain_stmts(list),
        no_strings(g),
        list.len() > 0,
    ensures
        g.compile_stmts(list).output.len() > g.output.len(),
    decreases list, 3nat,
{
    let before = list.drop_last();
    lemma_c_statements(g, before);
    let h = g.compile_stmts(before);
    lemma_c_statement(h, list.last());
    let k = h.compile_stmt(list.last());
    let c = choose|c: CStmt| #[trigger] c_wrote_one(h, k, c) && does_the_same(c, list.last());
    reveal_strlit("\n");
    assert(stmt_text(c, h.indent).len() > 0);
}

proof fn lemma_c_while(g: CGen, stmt: StmtNode)
    requires
        plain_stmt(stmt),
        no_strings(g),
        stmt.value is While,
    ensures
        exists|c: CStmt| #[trigger] c_wrote_one(g, g.compile_stmt(stmt), c) && does_the_same(c, stmt),
        no_strings(g.compile_stmt(stmt)),
    decreases stmt, 0nat,
{
    match stmt.value {
        Stmt::While(cond, body) => {
            assert(g.compile_stmt(stmt) == g.compile_while(stmt));
            reveal_with_fuel(CGen::compile_while, 2);
            let e = lemma_expr(g, cond);
            let line = "while ("@ + c_text(e) + ") {"@;
            lemma_emit(g, line);
            lemma_emit_no_strings(g, line);
            let g1 = g.emit(line);
            let b = lemma_body(g1, body@);
            let g2 = g1.set_indent(g1.deeper()).compile_stmts(body@).set_indent(g1.indent);
            lemma_emit(g2, "}"@);
            lemma_emit_no_strings(g2, "}"@);
            let h = g2.emit("}"@);
            assert(g.compile_stmt(stmt) == h);
            let c = CStmt::While(e, b);
            let d = g.indent;
            assert(h.output == g.output + (c_line(d, line) + stmts_text(b, bumped(d)) + c_line(d, "}"@)));
            assert(c_wrote_one(g, h, c));
            assert forall|s: State, fns: spec_fn(Text, Seq<int>) -> int, fuel: nat| !(run_one(
                stmt,
                s,
                fns,
                fuel,
            ) is Lost) implies #[trigger] c_run(c, s, fns, fuel) == run_one(stmt, s, fns, fuel) by {
                lemma_while_same(e, b, stmt, s, fns, fuel);
            }
            assert(does_the_same(c, stmt));
        },
        _ => {},
    }
}

proof fn lemma_c_loop(g: CGen, stmt: StmtNode)
    requires
        plain_stmt(stmt),
        no_strings(g),
        stmt.value is Loop,
    ensures
        exists|c: CStmt| #[trigger] c_wrote_one(g, g.compile_stmt(stmt), c) && does_the_same(c, stmt),
        no_strings(g.compile_stmt(stmt)),
    decreases stmt, 0nat,
{
    match stmt.value {
        Stmt::Loop(body) => {
            let line = "for (;;) {"@;
            lemma_emit(g, line);
            lemma_emit_no_strings(g, line);
            let g1 = g.emit(line);
            let b = lemma_body(g1, body@);
            let g2 = g1.set_indent(g1.deeper()).compile_stmts(body@).set_indent(g1.indent);
            lemma_emit(g2, "}"@);
            lemma_emit_no_strings(g2, "}"@);
            let h = g2.emit("}"@);
            assert(g.compile_stmt(stmt) == h);
            let c = CStmt::Forever(b);
            let d = g.indent;
            assert(h.output == g.output + (c_line(d, line) + stmts_text(b, bumped(d)) + c_line(d, "}"@)));
            assert(c_wrote_one(g, h, c));
            assert forall|s: State, fns: spec_fn(Text, Seq<int>) -> int, fuel: nat| !(run_one(
                stmt,
                s,
                fns,
                fuel,
            ) is Lost) implies #[trigger] c_run(c, s, fns, fuel) == run_one(stmt, s, fns, fuel) by {
                lemma_loop_same(b, stmt, s, fns, fuel);
            }
            assert(does_the_same(c, stmt));
        },
        _ => {},
    }
}

proof fn lemma_count_texts(lbl: Text, var: Text, from: Text, to: Text)
    ensures
        "int64_t yk_start_"@ + lbl + " = "@ + from + ";"@ == "int64_t "@ + ("yk_start_"@ + lbl) + " = "@ + from + ";"@,
        "int64_t yk_end_"@ + lbl + " = "@ + to + ";"@ == "int64_t "@ + ("yk_end_"@ + lbl) + " = "@ + to + ";"@,
        "for (int64_t "@ + var + " = yk_start_"@ + lbl + "; "@ + var + " < yk_end_"@ + lbl + "; "@ + var + "++) {"@
            == "for (int64_t "@ + var + " = "@ + ("yk_start_"@ + lbl) + "; "@ + var + " < "@ + ("yk_end_"@ + lbl)
            + "; "@ + var + "++) {"@,
{
    reveal_strlit("int64_t yk_start_");
    reveal_strlit("int64_t ");
    reveal_strlit("yk_start_");
    reveal_strlit("int64_t yk_end_");
    reveal_strlit("yk_end_");
    reveal_strlit(" = yk_start_");
    reveal_strlit(" = ");
    reveal_strlit(" < yk_end_");
    reveal_strlit(" < ");
    assert("int64_t yk_start_"@ == "int64_t "@ + "yk_start_"@);
    assert("int64_t yk_end_"@ == "int64_t "@ + "yk_end_"@);
    assert(" = yk_start_"@ == " = "@ + "yk_start_"@);
    assert(" < yk_end_"@ == " < "@ + "yk_end_"@);
    assert("for (int64_t "@ + var + " = yk_start_"@ + lbl + "; "@ + var + " < yk_end_"@ + lbl + "; "@ + var + "++) {"@
        == "for (int64_t "@ + var + " = "@ + ("yk_start_"@ + lbl) + "; "@ + var + " < "@ + ("yk_end_"@ + lbl) + "; "@
        + var + "++) {"@);
}

proof fn lemma_seven(o: Text, a: Text, b: Text, c: Text, d: Text, e: Text, f: Text, g: Text)
    ensures
        o + a + b + c + d + e + f + g == o + (a + b + c + d + e + f + g),
{
}

/// The text of a counting loop.
proof fn lemma_count_text(g: CGen, lbl: Text, var: Text, from: Text, to: Text, body: Seq<StmtNode>) -> (cs: Seq<CStmt>)
    requires
        plain_stmts(body),
        no_strings(g),
    ensures
        ({
            let d = g.indent;
            let d1 = bumped(d);
            let a = "yk_start_"@ + lbl;
            let b = "yk_end_"@ + lbl;
            let g2 = g.emit("{"@);
            let g3 = g2.set_indent(g2.deeper());
            let g4 = g3.emit("int64_t yk_start_"@ + lbl + " = "@ + from + ";"@);
            let g5 = g4.emit("int64_t yk_end_"@ + lbl + " = "@ + to + ";"@);
            let g6 = g5.emit(
                "for (int64_t "@ + var + " = yk_start_"@ + lbl + "; "@ + var + " < yk_end_"@ + lbl + "; "@ + var
                    + "++) {"@,
            );
            let g7 = g6.set_indent(g6.deeper()).compile_stmts(body).set_indent(g6.indent);
            let h = g7.emit("}"@).set_indent(d).emit("}"@);
            &&& h.output == g.output + (c_line(d, "{"@) + c_line(d1, "int64_t "@ + a + " = "@ + from + ";"@) + c_line(
                d1,
                "int64_t "@ + b + " = "@ + to + ";"@,
            ) + c_line(
                d1,
                "for (int64_t "@ + var + " = "@ + a + "; "@ + var + " < "@ + b + "; "@ + var + "++) {"@,
            ) + stmts_text(cs, bumped(d1)) + c_line(d1, "}"@) + c_line(d, "}"@))
            &&& h.indent == d
            &&& no_strings(h)
            &&& do_the_same(cs, body)
        }),
    decreases body, 4nat,
{
    reveal(CGen::set_indent);
    let d = g.indent;
    let d1 = bumped(d);
    let l1 = "int64_t yk_start_"@ + lbl + " = "@ + from + ";"@;
    let l2 = "int64_t yk_end_"@ + lbl + " = "@ + to + ";"@;
    let l3 = "for (int64_t "@ + var + " = yk_start_"@ + lbl + "; "@ + var + " < yk_end_"@ + lbl + "; "@ + var + "++) {"@;
    lemma_emit(g, "{"@);
    lemma_emit_no_strings(g, "{"@);
    let g2 = g.emit("{"@);
    let g3 = g2.set_indent(g2.deeper());
    assert(no_strings(g3)) by {
        assert(g3.var_types == g2.var_types);
    }
    lemma_emit(g3, l1);
    lemma_emit_no_strings(g3, l1);
    let g4 = g3.emit(l1);
    lemma_emit(g4, l2);
    lemma_emit_no_strings(g4, l2);
    let g5 = g4.emit(l2);
    lemma_emit(g5, l3);
    lemma_emit_no_strings(g5, l3);
    let g6 = g5.emit(l3);
    let cs = lemma_body(g6, body);
    let g7 = g6.set_indent(g6.deeper()).compile_stmts(body).set_indent(g6.indent);
    lemma_emit(g7, "}"@);
    lemma_emit_no_strings(g7, "}"@);
    let g8 = g7.emit("}"@);
    let g9 = g8.set_indent(d);
    assert(no_strings(g9)) by {
        assert(g9.var_types == g8.var_types);
    }
    lemma_emit(g9, "}"@);
    lemma_emit_no_strings(g9, "}"@);
    lemma_seven(
        g.output,
        c_line(d, "{"@),
        c_line(d1, l1),
        c_line(d1, l2),
        c_line(d1, l3),
        stmts_text(cs, bumped(d1)),
        c_line(d1, "}"@),
        c_line(d, "}"@),
    );
    lemma_count_texts(lbl, var, from, to);
    cs
}

proof fn lemma_c_for(g: CGen, stmt: StmtNode)
    requires
        plain_stmt(stmt),
        no_strings(g),
        stmt.value is For,
    ensures
        exists|c: CStmt| #[trigger] c_wrote_one(g, g.compile_stmt(stmt), c) && does_the_same(c, stmt),
        no_strings(g.compile_stmt(stmt)),
    decreases stmt, 0nat,
{
    let var = stmt.value->For_0@;
    let iter = stmt.value->For_1;
    let body = stmt.value->For_2@;
    let l = *iter.value->Range_0;
    let r = *iter.value->Range_1;
    assert(iter.value is Range && whole(l) && whole(r) && plain_stmts(body));
    assert(g.compile_stmt(stmt) == g.compile_for(stmt));
    let g1 = g.fresh_label().0.set_var_type(var, "int64_t"@);
    lemma_for_begins(g, var);
    let a = lemma_expr(g1, l);
    let b = lemma_expr(g1, r);
    assert(g1.compile_bounds(iter) == (g1, (c_text(a), c_text(b))));
    let cs = lemma_for_text(g, stmt, a, b);
    let c = CStmt::Count { number: g.next_label, var, from: a, to: b, body: cs };
    lemma_count_same(c, a, b, cs, stmt);
    assert(c_wrote_one(g, g.compile_stmt(stmt), c));
}

/// What is written for a loop over a range.
proof fn lemma_for_text(g: CGen, stmt: StmtNode, a: CExpr, b: CExpr) -> (cs: Seq<CStmt>)
    requires
        stmt.value is For,
        plain_stmts(stmt.value->For_2@),
        no_strings(g),
        g.fresh_label().0.set_var_type(stmt.value->For_0@, "int64_t"@).compile_bounds(stmt.value->For_1) == (
            g.fresh_label().0.set_var_type(stmt.value->For_0@, "int64_t"@),
            (c_text(a), c_text(b)),
        ),
    ensures
        c_wrote_one(
            g,
            g.compile_for(stmt),
            CStmt::Count { number: g.next_label, var: stmt.value->For_0@, from: a, to: b, body: cs },
        ),
        no_strings(g.compile_for(stmt)),
        do_the_same(cs, stmt.value->For_2@),
    decreases stmt.value->For_2@, 5nat,
{
    let var = stmt.value->For_0@;
    let body = stmt.value->For_2@;
    let (g0, lbl) = g.fresh_label();
    let g1 = g0.set_var_type(var, "int64_t"@);
    lemma_for_begins(g, var);
    let cs = lemma_count_text(g1, lbl, var, c_text(a), c_text(b), body);
    lemma_for_is(g, stmt);
    lemma_outer(g1);
    let h = g.compile_for(stmt);
    lemma_count_stmt(h.output, g.output, g.next_label, var, a, b, cs, g.indent);
    cs
}

proof fn lemma_outer(g: CGen)
    ensures
        g.emit("{"@).indent == g.indent,
{
    reveal(CGen::emit);
}

/// How a counting loop is written.
proof fn lemma_count_stmt(
    whole_text: Text,
    before: Text,
    n: nat,
    var: Text,
    a: CExpr,
    b: CExpr,
    cs: Seq<CStmt>,
    d: nat,
)
    requires
        ({
            let d1 = bumped(d);
            let x = "yk_start_"@ + dec(n);
            let y = "yk_end_"@ + dec(n);
            whole_text == before + (c_line(d, "{"@) + c_line(d1, "int64_t "@ + x + " = "@ + c_text(a) + ";"@) + c_line(
                d1,
                "int64_t "@ + y + " = "@ + c_text(b) + ";"@,
            ) + c_line(
                d1,
                "for (int64_t "@ + var + " = "@ + x + "; "@ + var + " < "@ + y + "; "@ + var + "++) {"@,
            ) + stmts_text(cs, bumped(d1)) + c_line(d1, "}"@) + c_line(d, "}"@))
        }),
    ensures
        whole_text == before + stmt_text(CStmt::Count { number: n, var, from: a, to: b, body: cs }, d),
{
}

proof fn lemma_for_begins(g: CGen, var: Text)
    requires
        no_strings(g),
    ensures
        ({
            let (g0, lbl) = g.fresh_label();
            let g1 = g0.set_var_type(var, "int64_t"@);
            &&& lbl == dec(g.next_label)
            &&& no_strings(g1)
            &&& g1.output == g.output
            &&& g1.indent == g.indent
        }),
{
    lemma_int_is_no_string();
    reveal(CGen::fresh_label);
    let g0 = g.fresh_label().0;
    assert(no_strings(g0)) by {
        assert(g0.var_types == g.var_types);
    }
    lemma_set_type(g0, var, "int64_t"@);
}

/// A counting loop goes through the range.
proof fn lemma_count_same(c: CStmt, a: CExpr, b: CExpr, cs: Seq<CStmt>, stmt: StmtNode)
    requires
        stmt.value is For,
        stmt.value->For_1.value is Range,
        c is Count,
        c->var == stmt.value->For_0@,
        c->from == a,
        c->to == b,
        c->Count_body == cs,
        stands_for(a, c_text(a), *stmt.value->For_1.value->Range_0),
        stands_for(b, c_text(b), *stmt.value->For_1.value->Range_1),
        do_the_same(cs, stmt.value->For_2@),
    ensures
        does_the_same(c, stmt),
{
    let l = *stmt.value->For_1.value->Range_0;
    let r = *stmt.value->For_1.value->Range_1;
    assert forall|s: State, fns: spec_fn(Text, Seq<int>) -> int, fuel: nat| !(run_one(
        stmt,
        s,
        fns,
        fuel,
    ) is Lost) implies #[trigger] c_run(c, s, fns, fuel) == run_one(stmt, s, fns, fuel) by {
        lemma_same_value(a, l, s.vars, fns);
        lemma_same_value(b, r, s.vars, fns);
        lemma_range_same(
            stmt.value->For_0@,
            source_value(l, s.vars, fns)->0,
            source_value(r, s.vars, fns)->0,
            cs,
            stmt.value->For_2@,
            s,
            fns,
            fuel,
        );
    }
}

/// A loop over a range, step by step.
proof fn lemma_for_is(g: CGen, stmt: StmtNode)
    requires
        stmt.value is For,
    ensures
        ({
            let var = stmt.value->For_0@;
            let (g0, lbl) = g.fresh_label();
            let (g1, (from, to)) = g0.set_var_type(var, "int64_t"@).compile_bounds(stmt.value->For_1);
            let g2 = g1.emit("{"@);
            let g3 = g2.set_indent(g2.deeper());
            let g4 = g3.emit("int64_t yk_start_"@ + lbl + " = "@ + from + ";"@);
            let g5 = g4.emit("int64_t yk_end_"@ + lbl + " = "@ + to + ";"@);
            let g6 = g5.emit(
                "for (int64_t "@ + var + " = yk_start_"@ + lbl + "; "@ + var + " < yk_end_"@ + lbl + "; "@ + var
                    + "++) {"@,
            );
            let g7 = g6.set_indent(g6.deeper()).compile_stmts(stmt.value->For_2@).set_indent(g6.indent);
            g.compile_for(stmt) == g7.emit("}"@).set_indent(g2.indent).emit("}"@)
        }),
{
}

// ---------------------------------------------------------------------------------------------
// Functions
// ---------------------------------------------------------------------------------------------
/// The type of C for integers and truth values.
pub open spec fn c_type(t: TypeExpr) -> Text {
    if t is Bool {
        "bool"@
    } else {
        "int64_t"@
    }
}

/// Parameters that are integers or truth values.
pub open spec fn plain_params(params: Seq<Param>) -> bool {
    forall|i: int|
        0 <= i < params.len() ==> (#[trigger] params[i]).type_expr.value is Int || params[i].type_expr.value is Bool
}

/// The text of a function of C: its type, its name, its parameters in their order, and its statements.
pub open spec fn function_text(ret: Text, name: Text, params: Seq<Param>, cs: Seq<CStmt>, depth: nat) -> Text {
    ret + " "@ + name + "("@ + joined(
        Seq::new(params.len(), |i: int| c_type(params[i].type_expr.value) + " "@ + params[i].name@),
        ", "@,
    ) + ") {"@ + "\n"@ + stmts_text(cs, bumped(depth)) + ("}"@ + "\n"@) + (""@ + "\n"@)
}

proof fn lemma_bind_params(g: CGen, params: Seq<Param>)
    requires
        no_strings(g),
        plain_params(params),
    ensures
        no_strings(g.bind_params(params)),
        g.bind_params(params).output == g.output,
        g.bind_params(params).indent == g.indent,
    decreases params.len(),
{
    if params.len() > 0 {
        let before = params.drop_last();
        assert(plain_params(before)) by {
            assert forall|i: int| 0 <= i < before.len() implies (#[trigger] before[i]).type_expr.value is Int
                || before[i].type_expr.value is Bool by {
                assert(before[i] == params[i]);
            }
        }
        lemma_bind_params(g, before);
        lemma_int_is_no_string();
        let h = g.bind_params(before);
        let p = params[params.len() - 1];
        lemma_set_type(h, p.name@, h.type_to_c(p.type_expr.value));
    }
}

/// A function on integers is compiled to a function of C that has its name and its parameters in their order, and
/// whose statements do what its body does.
pub proof fn lemma_c_function(g: CGen, name: Text, params: Seq<Param>, ret_type: Option<TypeNode>, body: Seq<StmtNode>)
    requires
        no_strings(g),
        plain_params(params),
        plain_stmts(body),
        ret_type is Some ==> ret_type->0.value is Int || ret_type->0.value is Bool,
    ensures
        exists|cs: Seq<CStmt>| #[trigger]
            do_the_same(cs, body) && g.compile_fn(name, params, ret_type, body).output == g.output + function_text(
                match ret_type {
                    Some(t) => c_type(t.value),
                    None => "void"@,
                },
                name,
                params,
                cs,
                g.indent,
            ),
        no_strings(g.compile_fn(name, params, ret_type, body)),
{
    reveal(CGen::emit_raw);
    reveal(CGen::set_indent);
    let ret = match ret_type {
        Some(t) => g.type_to_c(t.value),
        None => "void"@,
    };
    let decls = Seq::new(params.len(), |i: int| c_type(params[i].type_expr.value) + " "@ + params[i].name@);
    assert(g.param_decls(params) == decls) by {
        assert forall|i: int| 0 <= i < decls.len() implies #[trigger] g.param_decls(params)[i] == decls[i] by {
            assert(params[i].type_expr.value is Int || params[i].type_expr.value is Bool);
        }
    }
    let head = ret + " "@ + name + "("@ + joined(decls, ", "@) + ") {"@;
    let g1 = g.emit_raw(head);
    let g2 = g1.set_indent(g1.deeper());
    assert(no_strings(g2)) by {
        assert(g2.var_types == g.var_types);
    }
    lemma_bind_params(g2, params);
    let g3 = g2.bind_params(params);
    lemma_c_statements(g3, body);
    let g4 = g3.compile_stmts(body);
    let cs = choose|cs: Seq<CStmt>| #[trigger] c_wrote(g3, g4, cs) && do_the_same(cs, body);
    let h = g.compile_fn(name, params, ret_type, body);
    assert(no_strings(h)) by {
        assert(h.var_types == g4.var_types);
    }
    let t = stmts_text(cs, bumped(g.indent));
    assert(g.output + (head + "\n"@) + t + ("}"@ + "\n"@) + (""@ + "\n"@) == g.output + (head + "\n"@ + t + ("}"@
        + "\n"@) + (""@ + "\n"@)));
    assert(do_the_same(cs, body));
}

/// The program of C runs what `main` does, and then returns zero.
pub proof fn lemma_c_main(g: CGen, body: Seq<StmtNode>)
    requires
        no_strings(g),
        plain_stmts(body),
    ensures
        exists|cs: Seq<CStmt>| #[trigger]
            do_the_same(cs, body) && g.compile_main(body).output == g.output + ("int main(int argc, char** argv) {"@
                + "\n"@ + c_line(bumped(g.indent), "(void)argc; (void)argv;"@) + stmts_text(cs, bumped(g.indent))
                + c_line(bumped(g.indent), "return 0;"@) + ("}"@ + "\n"@)),
{
    reveal(CGen::emit_raw);
    reveal(CGen::set_indent);
    let head = "int main(int argc, char** argv) {"@;
    let g1 = g.emit_raw(head);
    let g2 = g1.set_indent(g1.deeper());
    assert(no_strings(g2)) by {
        assert(g2.var_types == g.var_types);
    }
    let note = "(void)argc; (void)argv;"@;
    lemma_emit(g2, note);
    lemma_emit_no_strings(g2, note);
    let g3 = g2.emit(note);
    lemma_c_statements(g3, body);
    let g4 = g3.compile_stmts(body);
    let cs = choose|cs: Seq<CStmt>| #[trigger] c_wrote(g3, g4, cs) && do_the_same(cs, body);
    lemma_emit(g4, "return 0;"@);
    let d = bumped(g.indent);
    assert(g.output + (head + "\n"@) + c_line(d, note) + stmts_text(cs, d) + c_line(d, "return 0;"@) + ("}"@ + "\n"@)
        == g.output + (head + "\n"@ + c_line(d, note) + stmts_text(cs, d) + c_line(d, "return 0;"@) + ("}"@ + "\n"@)));
    assert(do_the_same(cs, body));
}

} // verus!
