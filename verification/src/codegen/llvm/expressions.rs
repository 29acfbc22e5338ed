//! What the code for an expression computes: the value of the expression.

use vstd::prelude::*;

use crate::codegen::c::meaning::source_value;
use crate::codegen::llvm::handler::bool_text;
use crate::codegen::llvm::meaning::{
    bits, instr_text, kept, lemma_number_is_itself, lemma_number_is_older, lemma_older_on, lemma_one_number,
    lemma_register_ends, lemma_run_on, lemma_run_push, lemma_value_kept, lemma_wrote_label, lemma_wrote_nothing,
    lemma_wrote_on, loaded, no_code, numbering, older, run, truth, value, wrote, Instr, Machine, Value, World,
};
use crate::codegen::llvm::names::undotted;
use crate::codegen::llvm::operators::{
    common_type, comparison, computes_int, computes_unary, int_type, lemma_integer_operator, lemma_then,
    lemma_unary_operator,
};
use crate::codegen::llvm::state::Gen;
use crate::scan::ends;
use crate::syntax::ast::{BinOp, Expr, ExprNode, UnOp};
use crate::text::{dec, int_dec, Text};

verus! {

/// An expression whose value is a truth value.
pub open spec fn is_flag(g: Gen, e: ExprNode) -> bool
    decreases e,
{
    match e.value {
        Expr::LitBool(_) => true,
        Expr::Ident(name) => g.val_ty(name@) == "i1"@,
        Expr::BinOp(_, op, _) => comparison(op) || op is And || op is Or,
        Expr::UnOp(op, _) => op is Not,
        Expr::AsConst(a) => is_flag(g, *a),
        _ => false,
    }
}

/// An expression of integers and truth values: literals, variables of such types and operators. Numbers are
/// computed from numbers.
pub open spec fn numeric(g: Gen, e: ExprNode) -> bool
    decreases e,
{
    match e.value {
        Expr::LitInt(_) => true,
        Expr::LitChar(_) => true,
        Expr::LitBool(_) => true,
        Expr::Ident(name) => {
            &&& !g.has_object(name@)
            &&& g.var_slot(name@) is Some
            &&& older(g.var_slot(name@)->0, 0)
            &&& g.val_ty(name@) == "i64"@ || g.val_ty(name@) == "i1"@
        },
        Expr::BinOp(l, op, r) => {
            &&& numeric(g, *l)
            &&& numeric(g, *r)
            &&& !(op is Pow || op is Assign)
            &&& comparison(op) || op is And || op is Or || (g.expr_type_str(*l).1 == "i64"@ && g.expr_type_str(*r).1
                == "i64"@)
        },
        Expr::UnOp(op, a) => numeric(g, *a) && (op is Not || (op is Neg && !is_flag(g, *a))),
        Expr::AsConst(a) => numeric(g, *a),
        _ => false,
    }
}

/// How many numbers the code for an expression takes at most.
pub open spec fn numbers(e: ExprNode) -> nat
    decreases e,
{
    match e.value {
        Expr::BinOp(l, _, r) => numbers(*l) + numbers(*r) + 4,
        Expr::UnOp(_, a) => numbers(*a) + 1,
        Expr::AsConst(a) => numbers(*a),
        _ => 1,
    }
}

/// The memory of the machine holds the variables: each in its slot.
pub open spec fn holds_vars(w: World, m: Machine, g: Gen, vars: Map<Text, int>) -> bool {
    forall|x: Text| #[trigger]
        vars.dom().contains(x) && g.var_slot(x) is Some ==> {
            &&& loaded(m.memory, value(w, m, g.var_slot(x)->0)) == Value::Int(vars[x])
            &&& older(g.var_slot(x)->0, 0)
            &&& g.val_ty(x) == "i1"@ ==> vars[x] == 0 || vars[x] == 1
        }
}

/// The code leaves the value of the expression in `r`, wherever it has one, and keeps what is older than `from`.
pub open spec fn computes(
    code: Seq<Instr>,
    from: nat,
    g: Gen,
    e: ExprNode,
    r: Text,
    fns: spec_fn(Text, Seq<int>) -> int,
) -> bool {
    forall|w: World, m: Machine, vars: Map<Text, int>|
        #![trigger run(w, code, m), source_value(e, vars, fns)]
        {
            let after = run(w, code, m);
            &&& kept(m, after, from)
            &&& holds_vars(w, m, g, vars) && source_value(e, vars, fns) is Some ==> value(w, after, r) == Value::Int(
                source_value(e, vars, fns)->0,
            )
        }
}

proof fn lemma_types(g: Gen, e: ExprNode)
    requires
        numeric(g, e),
    ensures
        g.expr_type_str(e).0 == g,
        g.expr_type_str(e).1 == "i64"@ || g.expr_type_str(e).1 == "i1"@,
    decreases e,
{
    reveal_strlit("i64");
    reveal_strlit("i1");
    reveal_strlit("double");
    reveal_strlit("%yk_string");
    reveal_strlit("%yk_complex");
    assert("i64"@[0] == 'i');
    assert("i1"@[0] == 'i');
    assert("double"@[0] == 'd');
    assert("%yk_string"@[0] == '%');
    assert("%yk_complex"@[0] == '%');
    match e.value {
        Expr::BinOp(l, op, r) => {
            lemma_types(g, *l);
            lemma_types(g, *r);
        },
        Expr::UnOp(op, a) => {
            lemma_types(g, *a);
        },
        _ => {},
    }
}

/// A truth value is one or zero.
proof fn lemma_flags(w: World, m: Machine, g: Gen, e: ExprNode, vars: Map<Text, int>, fns: spec_fn(Text, Seq<int>) -> int)
    requires
        numeric(g, e),
        is_flag(g, e),
        holds_vars(w, m, g, vars),
        source_value(e, vars, fns) is Some,
    ensures
        source_value(e, vars, fns)->0 == 0 || source_value(e, vars, fns)->0 == 1,
    decreases e,
{
    match e.value {
        Expr::Ident(name) => {
            assert(vars.dom().contains(name@));
        },
        Expr::AsConst(a) => {
            lemma_flags(w, m, g, *a, vars, fns);
        },
        _ => {},
    }
}

proof fn lemma_types_of_numbers()
    ensures
        int_type("i64"@),
        int_type("i1"@),
        bits("i64"@) == 64,
        "i64"@ != "i1"@,
{
    reveal_strlit("i64");
    reveal_strlit("i1");
    reveal_strlit("i8");
    reveal_strlit("i16");
    reveal_strlit("i32");
    assert("i64"@.len() == 3);
    assert("i1"@.len() == 2);
    assert("i8"@.len() == 2);
    assert("i64"@[1] == '6');
    assert("i16"@[1] == '1');
    assert("i32"@[1] == '3');
}

/// Reading a variable.
proof fn lemma_variable(g: Gen, e: ExprNode, fns: spec_fn(Text, Seq<int>) -> int)
    requires
        e.value is Ident,
        numeric(g, e),
        g.label_counter < usize::MAX,
    ensures
        ({
            let (h, r) = g.compile_expr(e);
            &&& h == (Gen { label_counter: g.label_counter + 1, output: h.output, ..g })
            &&& older(r.0, h.label_counter)
            &&& r.1 == g.val_ty(e.value->Ident_0@)
            &&& exists|code: Seq<Instr>| #[trigger] wrote(g, h, code) && computes(code, g.label_counter, g, e, r.0, fns)
        }),
{
    let name = e.value->Ident_0@;
    let n = g.label_counter;
    let p = g.var_slot(name)->0;
    let ty = g.val_ty(name);
    let (g1, v) = g.value_name(name);
    reveal(Gen::next_number);
    reveal_strlit("");
    reveal_strlit("%");
    reveal_strlit(".val_");
    reveal_strlit("_");
    assert(""@ + dec(n) == dec(n));
    assert(v == "%"@ + undotted(name) + ".val_"@ + dec(n));
    assert(v.skip(v.len() - numbering(n).len()) == numbering(n));
    assert(v[0] == '%');
    lemma_wrote_nothing(g);
    lemma_wrote_label(g, g, no_code());
    let i = Instr::Load { to: v, ty, at: p };
    let line = v + " = load "@ + ty + ", ptr "@ + p;
    assert(line == instr_text(i));
    lemma_then(g, g1, no_code(), i, line);
    let code = no_code().push(i);
    assert(older(v, n + 1)) by {
        assert forall|k: nat| k >= n + 1 implies !ends(v, #[trigger] numbering(k)) by {
            if ends(v, numbering(k)) {
                lemma_one_number(v, n, k);
            }
        }
    }
    let (h, r) = g.compile_expr(e);
    assert(r == (v, ty));
    assert forall|w: World, m: Machine, vars: Map<Text, int>|
        #![trigger run(w, code, m), source_value(e, vars, fns)]
        {
            let after = run(w, code, m);
            &&& kept(m, after, n)
            &&& holds_vars(w, m, g, vars) && source_value(e, vars, fns) is Some ==> value(w, after, r.0) == Value::Int(
                source_value(e, vars, fns)->0,
            )
        } by {
        lemma_run_push(w, no_code(), i, m);
        let after = run(w, code, m);
        assert forall|t: Text| older(t, n) implies #[trigger] after.regs[t] == m.regs[t] by {
            assert(!ends(t, numbering(n)));
            assert(t != v);
        }
        if holds_vars(w, m, g, vars) && source_value(e, vars, fns) is Some {
            assert(vars.dom().contains(name));
        }
    }
    assert(computes(code, n, g, e, r.0, fns));
    assert(wrote(g, h, code));
}

/// The code for an expression of integers and truth values leaves the value of the expression: the operators of the
/// source, applied to the values of their operands in their order, variables having the values that lie in their
/// slots.
pub proof fn lemma_expression(g: Gen, e: ExprNode, fns: spec_fn(Text, Seq<int>) -> int)
    requires
        numeric(g, e),
        g.label_counter + numbers(e) <= usize::MAX,
    ensures
        ({
            let (h, r) = g.compile_expr(e);
            &&& h == (Gen { label_counter: h.label_counter, output: h.output, ..g })
            &&& g.label_counter <= h.label_counter <= g.label_counter + numbers(e)
            &&& older(r.0, h.label_counter)
            &&& r.1 == (if is_flag(g, e) {
                "i1"@
            } else {
                "i64"@
            })
            &&& exists|code: Seq<Instr>| #[trigger] wrote(g, h, code) && computes(code, g.label_counter, g, e, r.0, fns)
        }),
    decreases e,
{
    lemma_types_of_numbers();
    lemma_wrote_nothing(g);
    let n = g.label_counter;
    let (h, r) = g.compile_expr(e);
    match e.value {
        Expr::LitInt(k) => {
            lemma_literal(g, e, k as int, fns);
        },
        Expr::LitChar(k) => {
            lemma_literal(g, e, k as int, fns);
        },
        Expr::LitBool(b) => {
            lemma_flag_literal(g, e, b, fns);
        },
        Expr::Ident(_) => {
            lemma_variable(g, e, fns);
        },
        Expr::AsConst(a) => {
            lemma_expression(g, *a, fns);
            let code = choose|code: Seq<Instr>| #[trigger]
                wrote(g, h, code) && computes(code, n, g, *a, r.0, fns);
            assert forall|w: World, m: Machine, vars: Map<Text, int>|
                #![trigger run(w, code, m), source_value(e, vars, fns)]
                {
                    let after = run(w, code, m);
                    &&& kept(m, after, n)
                    &&& holds_vars(w, m, g, vars) && source_value(e, vars, fns) is Some ==> value(w, after, r.0)
                        == Value::Int(source_value(e, vars, fns)->0)
                } by {
                assert(source_value(e, vars, fns) == source_value(*a, vars, fns));
            }
            assert(computes(code, n, g, e, r.0, fns));
        },
        Expr::UnOp(op, a) => {
            lemma_expression(g, *a, fns);
            lemma_unary(g, e, fns);
        },
        Expr::BinOp(l, op, right) => {
            lemma_expression(g, *l, fns);
            let (h1, r1) = g.compile_expr(*l);
            lemma_numeric_on(g, h1, *right);
            lemma_expression(h1, *right, fns);
            lemma_binary(g, e, fns);
        },
        _ => {},
    }
}

/// What an expression is does not depend on what was written.
pub proof fn lemma_numeric_on(g: Gen, h: Gen, e: ExprNode)
    requires
        numeric(g, e),
        h == (Gen { label_counter: h.label_counter, output: h.output, ..g }),
    ensures
        numeric(h, e),
        is_flag(h, e) == is_flag(g, e),
        h.expr_type_str(e).1 == g.expr_type_str(e).1,
    decreases e,
{
    lemma_types(g, e);
    match e.value {
        Expr::BinOp(l, op, r) => {
            lemma_numeric_on(g, h, *l);
            lemma_numeric_on(g, h, *r);
            lemma_types(g, *l);
            lemma_types(g, *r);
            lemma_types(h, *l);
            lemma_types(h, *r);
        },
        Expr::UnOp(op, a) => {
            lemma_numeric_on(g, h, *a);
        },
        Expr::AsConst(a) => {
            lemma_numeric_on(g, h, *a);
        },
        _ => {},
    }
}

proof fn lemma_literal(g: Gen, e: ExprNode, k: int, fns: spec_fn(Text, Seq<int>) -> int)
    requires
        g.compile_expr(e) == (g, (int_dec(k), "i64"@)),
        forall|vars: Map<Text, int>| #[trigger] source_value(e, vars, fns) == Some(k),
    ensures
        wrote(g, g, no_code()),
        computes(no_code(), g.label_counter, g, e, int_dec(k), fns),
        older(int_dec(k), g.label_counter),
{
    lemma_wrote_nothing(g);
    lemma_number_is_older(k);
    lemma_older_on(int_dec(k), 0, g.label_counter);
    let code = no_code();
    assert forall|w: World, m: Machine, vars: Map<Text, int>|
        #![trigger run(w, code, m), source_value(e, vars, fns)]
        {
            let after = run(w, code, m);
            &&& kept(m, after, g.label_counter)
            &&& holds_vars(w, m, g, vars) && source_value(e, vars, fns) is Some ==> value(w, after, int_dec(k))
                == Value::Int(source_value(e, vars, fns)->0)
        } by {
        lemma_number_is_itself(w, m, k);
    }
}

proof fn lemma_flag_literal(g: Gen, e: ExprNode, b: bool, fns: spec_fn(Text, Seq<int>) -> int)
    requires
        g.compile_expr(e) == (g, (bool_text(b), "i1"@)),
        forall|vars: Map<Text, int>| #[trigger] source_value(e, vars, fns) == Some(truth(b)),
    ensures
        wrote(g, g, no_code()),
        computes(no_code(), g.label_counter, g, e, bool_text(b), fns),
        older(bool_text(b), g.label_counter),
{
    lemma_wrote_nothing(g);
    reveal_strlit("true");
    reveal_strlit("false");
    reveal_strlit("_");
    assert("true"@[0] == 't');
    assert("false"@[0] == 'f');
    let t = bool_text(b);
    assert forall|k: nat| k >= g.label_counter implies !ends(t, #[trigger] numbering(k)) by {
        if ends(t, numbering(k)) {
            assert(t.skip(t.len() - numbering(k).len())[0] == '_');
            assert(t[t.len() - numbering(k).len()] == '_');
        }
    }
}

proof fn lemma_unary(g: Gen, e: ExprNode, fns: spec_fn(Text, Seq<int>) -> int)
    requires
        e.value is UnOp,
        numeric(g, e),
        g.label_counter + numbers(e) <= usize::MAX,
        ({
            let a = *e.value->UnOp_1;
            let (h, r) = g.compile_expr(a);
            &&& h == (Gen { label_counter: h.label_counter, output: h.output, ..g })
            &&& g.label_counter <= h.label_counter <= g.label_counter + numbers(a)
            &&& older(r.0, h.label_counter)
            &&& r.1 == (if is_flag(g, a) {
                "i1"@
            } else {
                "i64"@
            })
            &&& exists|code: Seq<Instr>| #[trigger] wrote(g, h, code) && computes(code, g.label_counter, g, a, r.0, fns)
        }),
    ensures
        ({
            let (h, r) = g.compile_expr(e);
            &&& h == (Gen { label_counter: h.label_counter, output: h.output, ..g })
            &&& g.label_counter <= h.label_counter <= g.label_counter + numbers(e)
            &&& older(r.0, h.label_counter)
            &&& r.1 == (if is_flag(g, e) {
                "i1"@
            } else {
                "i64"@
            })
            &&& exists|code: Seq<Instr>| #[trigger] wrote(g, h, code) && computes(code, g.label_counter, g, e, r.0, fns)
        }),
{
    lemma_types_of_numbers();
    let op = e.value->UnOp_0;
    let a = *e.value->UnOp_1;
    let n = g.label_counter;
    let (h1, (i, ty)) = g.compile_expr(a);
    let first = choose|code: Seq<Instr>| #[trigger] wrote(g, h1, code) && computes(code, n, g, a, i, fns);
    lemma_unary_operator(h1, op, i, ty);
    let (h, r) = h1.emit_unop(op, i, ty);
    assert(g.compile_expr(e) == (h, r));
    let k = h1.label_counter;
    let second = choose|code: Seq<Instr>| #[trigger]
        wrote(h1, h, code) && computes_unary(code, k, bits(ty), op, i, ty, r.0);
    lemma_wrote_on(g, h1, h, first, second);
    lemma_register_ends(k);
    let code = first + second;
    assert forall|w: World, m: Machine, vars: Map<Text, int>|
        #![trigger run(w, code, m), source_value(e, vars, fns)]
        {
            let after = run(w, code, m);
            &&& kept(m, after, n)
            &&& holds_vars(w, m, g, vars) && source_value(e, vars, fns) is Some ==> value(w, after, r.0) == Value::Int(
                source_value(e, vars, fns)->0,
            )
        } by {
        lemma_run_on(w, first, second, m);
        let m1 = run(w, first, m);
        let after = run(w, second, m1);
        assert(source_value(a, vars, fns) == source_value(a, vars, fns));
        assert(kept(m, m1, n));
        assert(kept(m1, after, k));
        assert forall|t: Text| older(t, n) implies #[trigger] after.regs[t] == m.regs[t] by {
            lemma_older_on(t, n, k);
            assert(m1.regs[t] == m.regs[t]);
        }
        if holds_vars(w, m, g, vars) && source_value(e, vars, fns) is Some {
            let x = source_value(a, vars, fns)->0;
            assert(value(w, m1, i) == Value::Int(x));
            if is_flag(g, a) {
                lemma_flags(w, m, g, a, vars, fns);
            }
        }
    }
    assert(computes(code, n, g, e, r.0, fns));
}

proof fn lemma_binary(g: Gen, e: ExprNode, fns: spec_fn(Text, Seq<int>) -> int)
    requires
        e.value is BinOp,
        numeric(g, e),
        g.label_counter + numbers(e) <= usize::MAX,
        ({
            let a = *e.value->BinOp_0;
            let b = *e.value->BinOp_2;
            let (h, r) = g.compile_expr(a);
            let (k, s) = h.compile_expr(b);
            &&& h == (Gen { label_counter: h.label_counter, output: h.output, ..g })
            &&& g.label_counter <= h.label_counter <= g.label_counter + numbers(a)
            &&& older(r.0, h.label_counter)
            &&& exists|code: Seq<Instr>| #[trigger] wrote(g, h, code) && computes(code, g.label_counter, g, a, r.0, fns)
            &&& k == (Gen { label_counter: k.label_counter, output: k.output, ..h })
            &&& h.label_counter <= k.label_counter <= h.label_counter + numbers(b)
            &&& older(s.0, k.label_counter)
            &&& exists|code: Seq<Instr>| #[trigger] wrote(h, k, code) && computes(code, h.label_counter, h, b, s.0, fns)
        }),
    ensures
        ({
            let (h, r) = g.compile_expr(e);
            &&& h == (Gen { label_counter: h.label_counter, output: h.output, ..g })
            &&& g.label_counter <= h.label_counter <= g.label_counter + numbers(e)
            &&& older(r.0, h.label_counter)
            &&& r.1 == (if is_flag(g, e) {
                "i1"@
            } else {
                "i64"@
            })
            &&& exists|code: Seq<Instr>| #[trigger] wrote(g, h, code) && computes(code, g.label_counter, g, e, r.0, fns)
        }),
{
    lemma_types_of_numbers();
    let a = *e.value->BinOp_0;
    let op = e.value->BinOp_1;
    let b = *e.value->BinOp_2;
    let n = g.label_counter;
    let (h1, (lc, _)) = g.compile_expr(a);
    let (h2, (rc, _)) = h1.compile_expr(b);
    let n1 = h1.label_counter;
    let n2 = h2.label_counter;
    lemma_types(g, a);
    lemma_numeric_on(g, h1, b);
    lemma_types(h1, b);
    let lt = g.expr_type_str(a).1;
    let rt = h1.expr_type_str(b).1;
    let target = h2.find_alloca_for_expr(a);
    lemma_older_on(lc, n1, n2);
    lemma_integer_operator(h2, op, lc, lt, rc, rt, target);
    let (h, r) = h2.emit_binop(op, lc, lt, rc, rt, target);
    assert(g.compile_expr(e) == (h, r));
    let first = choose|code: Seq<Instr>| #[trigger] wrote(g, h1, code) && computes(code, n, g, a, lc, fns);
    let second = choose|code: Seq<Instr>| #[trigger] wrote(h1, h2, code) && computes(code, n1, h1, b, rc, fns);
    let ty = common_type(lt, rt);
    let third = choose|code: Seq<Instr>| #[trigger]
        wrote(h2, h, code) && computes_int(code, n2, bits(ty), op, lc, rc, r.0);
    lemma_wrote_on(g, h1, h2, first, second);
    lemma_wrote_on(g, h2, h, first + second, third);
    let code = first + second + third;
    assert forall|w: World, m: Machine, vars: Map<Text, int>|
        #![trigger run(w, code, m), source_value(e, vars, fns)]
        {
            let after = run(w, code, m);
            &&& kept(m, after, n)
            &&& holds_vars(w, m, g, vars) && source_value(e, vars, fns) is Some ==> value(w, after, r.0) == Value::Int(
                source_value(e, vars, fns)->0,
            )
        } by {
        lemma_binary_runs(w, m, vars, g, h1, a, b, e, first, second, third, n, n1, n2, bits(ty), lc, rc, r.0, fns);
    }
    assert(computes(code, n, g, e, r.0, fns));
}

proof fn lemma_binary_runs(
    w: World,
    m: Machine,
    vars: Map<Text, int>,
    g: Gen,
    h1: Gen,
    a: ExprNode,
    b: ExprNode,
    e: ExprNode,
    first: Seq<Instr>,
    second: Seq<Instr>,
    third: Seq<Instr>,
    n: nat,
    n1: nat,
    n2: nat,
    size: nat,
    lc: Text,
    rc: Text,
    r: Text,
    fns: spec_fn(Text, Seq<int>) -> int,
)
    requires
        e.value is BinOp,
        a == *e.value->BinOp_0,
        b == *e.value->BinOp_2,
        n <= n1 <= n2,
        older(lc, n1),
        h1 == (Gen { label_counter: h1.label_counter, output: h1.output, ..g }),
        computes(first, n, g, a, lc, fns),
        computes(second, n1, h1, b, rc, fns),
        computes_int(third, n2, size, e.value->BinOp_1, lc, rc, r),
        size == 64 || comparison(e.value->BinOp_1) || e.value->BinOp_1 is And || e.value->BinOp_1 is Or,
    ensures
        ({
            let after = run(w, first + second + third, m);
            &&& kept(m, after, n)
            &&& holds_vars(w, m, g, vars) && source_value(e, vars, fns) is Some ==> value(w, after, r) == Value::Int(
                source_value(e, vars, fns)->0,
            )
        }),
{
    lemma_run_on(w, first, second, m);
    lemma_run_on(w, first + second, third, m);
    let m1 = run(w, first, m);
    let m2 = run(w, second, m1);
    let after = run(w, third, m2);
    let x = source_value(a, vars, fns);
    let y = source_value(b, vars, fns);
    assert(kept(m, m1, n));
    assert(kept(m1, m2, n1));
    assert(kept(m2, after, n2));
    assert forall|t: Text| older(t, n) implies #[trigger] after.regs[t] == m.regs[t] by {
        lemma_older_on(t, n, n1);
        lemma_older_on(t, n, n2);
        assert(m1.regs[t] == m.regs[t]);
        assert(m2.regs[t] == m1.regs[t]);
    }
    if holds_vars(w, m, g, vars) && source_value(e, vars, fns) is Some {
        assert(value(w, m1, lc) == Value::Int(x->0));
        lemma_vars_kept(w, m, m1, g, h1, n, vars);
        assert(value(w, m2, rc) == Value::Int(y->0));
        lemma_value_kept(w, m1, m2, n1, lc);
    }
}

/// The variables stay where nothing is stored.
pub proof fn lemma_vars_kept(w: World, m: Machine, after: Machine, g: Gen, h: Gen, n: nat, vars: Map<Text, int>)
    requires
        holds_vars(w, m, g, vars),
        kept(m, after, n),
        h == (Gen { label_counter: h.label_counter, output: h.output, ..g }),
    ensures
        holds_vars(w, after, h, vars),
{
    assert forall|x: Text| #[trigger] vars.dom().contains(x) && h.var_slot(x) is Some implies {
        &&& loaded(after.memory, value(w, after, h.var_slot(x)->0)) == Value::Int(vars[x])
        &&& older(h.var_slot(x)->0, 0)
        &&& h.val_ty(x) == "i1"@ ==> vars[x] == 0 || vars[x] == 1
    } by {
        let p = g.var_slot(x)->0;
        lemma_older_on(p, 0, n);
        lemma_value_kept(w, m, after, n, p);
    }
}

} // verus!
