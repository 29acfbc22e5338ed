//! What the code for a literal of a struct or of a class makes: a value that has the given values for its fields.

use vstd::prelude::*;

use crate::codegen::c::meaning::source_value;
use crate::codegen::llvm::dispatch::lemma_part_written;
use crate::codegen::llvm::expr::literal_place;
use crate::codegen::llvm::expressions::{
    computes, holds_vars, lemma_expression, lemma_numeric_on, lemma_vars_kept, numbers, numeric,
};
use crate::codegen::llvm::meaning::{
    kept, lemma_older_on, lemma_register_ends, lemma_run_on, lemma_value_kept, lemma_wrote_nothing, lemma_wrote_on,
    no_code, older, parts_in, put_part, register, run, value, wrote, Instr, Machine, Value, World,
};
use crate::codegen::llvm::state::Gen;
use crate::syntax::ast::ExprNode;
use crate::text::{dec, Text};

verus! {

/// How many numbers the code for the first `n` fields takes at most.
pub open spec fn field_numbers(fields: Seq<(String, ExprNode)>, n: nat, defs: Seq<(Text, Text)>) -> nat
    decreases n,
{
    if n == 0 || n > defs.len() {
        0
    } else {
        let at = literal_place(fields, defs[n - 1].0);
        field_numbers(fields, (n - 1) as nat, defs) + (if 0 <= at < fields.len() {
            numbers(fields[at].1) + 1
        } else {
            0
        })
    }
}

/// The parts of a value hold the values that a literal gives for the first `n` declared fields, each behind `offset`
/// other parts; those other parts are as they were.
pub open spec fn has_fields(
    before: Seq<Value>,
    after: Seq<Value>,
    fields: Seq<(String, ExprNode)>,
    n: nat,
    defs: Seq<(Text, Text)>,
    offset: nat,
    vars: Map<Text, int>,
    fns: spec_fn(Text, Seq<int>) -> int,
) -> bool {
    &&& forall|k: int|
        0 <= k < n && 0 <= literal_place(fields, (#[trigger] defs[k]).0) < fields.len() ==> {
            let v = source_value(fields[literal_place(fields, defs[k].0)].1, vars, fns);
            &&& after.len() > k + offset
            &&& v is Some ==> after[k + offset] == Value::Int(v->0)
        }
    &&& after.len() >= before.len()
    &&& forall|j: int| 0 <= j < offset && j < before.len() ==> #[trigger] after[j] == before[j]
}

/// The code leaves a value in `r` that has the fields.
pub open spec fn makes_fields(
    code: Seq<Instr>,
    g: Gen,
    fields: Seq<(String, ExprNode)>,
    n: nat,
    defs: Seq<(Text, Text)>,
    agg: Text,
    offset: nat,
    r: Text,
    fns: spec_fn(Text, Seq<int>) -> int,
) -> bool {
    forall|w: World, m: Machine, vars: Map<Text, int>| #[trigger]
        fields_made(w, m, vars, code, g, fields, n, defs, agg, offset, r, fns)
}

/// One run of the code leaves a value in `r` that has the fields.
pub open spec fn fields_made(
    w: World,
    m: Machine,
    vars: Map<Text, int>,
    code: Seq<Instr>,
    g: Gen,
    fields: Seq<(String, ExprNode)>,
    n: nat,
    defs: Seq<(Text, Text)>,
    agg: Text,
    offset: nat,
    r: Text,
    fns: spec_fn(Text, Seq<int>) -> int,
) -> bool {
    let after = run(w, code, m);
    &&& kept(m, after, g.label_counter)
    &&& holds_vars(w, m, g, vars) ==> has_fields(
        parts_in(value(w, m, agg)),
        parts_in(value(w, after, r)),
        fields,
        n,
        defs,
        offset,
        vars,
        fns,
    )
}

/// Every field of a literal that is declared gets the value that the literal gives for it, at the place of its
/// declaration, behind the method table where there is one.
pub proof fn lemma_literal_fields(
    g: Gen,
    fields: Seq<(String, ExprNode)>,
    n: nat,
    defs: Seq<(Text, Text)>,
    ty: Text,
    agg: Text,
    offset: nat,
    fns: spec_fn(Text, Seq<int>) -> int,
)
    requires
        n <= defs.len(),
        forall|i: int| 0 <= i < fields.len() ==> numeric(g, (#[trigger] fields[i]).1),
        g.label_counter + field_numbers(fields, n, defs) <= usize::MAX,
        older(agg, g.label_counter),
    ensures
        ({
            let (h, r) = g.insert_fields(fields, n, defs, ty, agg, offset);
            &&& h == (Gen { label_counter: h.label_counter, output: h.output, ..g })
            &&& g.label_counter <= h.label_counter <= g.label_counter + field_numbers(fields, n, defs)
            &&& older(r, h.label_counter)
            &&& exists|code: Seq<Instr>| #[trigger]
                wrote(g, h, code) && makes_fields(code, g, fields, n, defs, agg, offset, r, fns)
        }),
    decreases n,
{
    if n == 0 {
        lemma_wrote_nothing(g);
        assert(makes_fields(no_code(), g, fields, n, defs, agg, offset, agg, fns));
    } else {
        let before = (n - 1) as nat;
        lemma_literal_fields(g, fields, before, defs, ty, agg, offset, fns);
        let (g1, agg1) = g.insert_fields(fields, before, defs, ty, agg, offset);
        let first = choose|code: Seq<Instr>| #[trigger]
            wrote(g, g1, code) && makes_fields(code, g, fields, before, defs, agg, offset, agg1, fns);
        let at = literal_place(fields, defs[n - 1].0);
        if 0 <= at < fields.len() {
            lemma_numeric_on(g, g1, fields[at].1);
            lemma_expression(g1, fields[at].1, fns);
            let (g2, (fval, fty)) = g1.compile_expr(fields[at].1);
            let second = choose|code: Seq<Instr>| #[trigger]
                wrote(g1, g2, code) && computes(code, g1.label_counter, g1, fields[at].1, fval, fns);
            lemma_older_on(agg1, g1.label_counter, g2.label_counter);
            let index = (n - 1 + offset) as nat;
            lemma_part_written(g2, ty, agg1, fty, fval, index);
            let (h, r) = g2.insert_value(ty, agg1, fty, fval, dec(index));
            assert(g.insert_fields(fields, n, defs, ty, agg, offset) == (h, r));
            let third = no_code().push(
                Instr::Insert {
                    to: register(g2.label_counter),
                    ty,
                    into: agg1,
                    part_ty: fty,
                    a: fval,
                    index,
                },
            );
            lemma_wrote_on(g, g1, g2, first, second);
            lemma_wrote_on(g, g2, h, first + second, third);
            lemma_register_ends(g2.label_counter);
            let code = first + second + third;
            assert forall|w: World, m: Machine, vars: Map<Text, int>| #[trigger]
                fields_made(w, m, vars, code, g, fields, n, defs, agg, offset, r, fns) by {
                lemma_run_on(w, first, second, m);
                lemma_run_on(w, first + second, third, m);
                let m1 = run(w, first, m);
                let m2 = run(w, second, m1);
                let after = run(w, third, m2);
                let e = fields[at].1;
                assert(fields_made(w, m, vars, first, g, fields, before, defs, agg, offset, agg1, fns));
                let x = source_value(e, vars, fns);
                lemma_three_kept(
                    m,
                    m1,
                    m2,
                    after,
                    g.label_counter,
                    g1.label_counter,
                    g2.label_counter,
                );
                if holds_vars(w, m, g, vars) {
                    lemma_vars_kept(w, m, m1, g, g1, g.label_counter, vars);
                    lemma_value_kept(w, m1, m2, g1.label_counter, agg1);
                    let p0 = parts_in(value(w, m, agg));
                    let p1 = parts_in(value(w, m1, agg1));
                    lemma_one_more(p0, p1, fields, n, defs, offset, vars, fns, at, value(w, m2, fval));
                }
            }
            assert(makes_fields(code, g, fields, n, defs, agg, offset, r, fns));
        } else {
            assert(g.insert_fields(fields, n, defs, ty, agg, offset) == (g1, agg1));
            assert forall|w: World, m: Machine, vars: Map<Text, int>| #[trigger]
                fields_made(w, m, vars, first, g, fields, n, defs, agg, offset, agg1, fns) by {
                assert(fields_made(w, m, vars, first, g, fields, before, defs, agg, offset, agg1, fns));
            }
            assert(makes_fields(first, g, fields, n, defs, agg, offset, agg1, fns));
        }
    }
}

proof fn lemma_three_kept(m: Machine, m1: Machine, m2: Machine, after: Machine, a: nat, b: nat, c: nat)
    requires
        kept(m, m1, a),
        kept(m1, m2, b),
        kept(m2, after, c),
        a <= b <= c,
    ensures
        kept(m, after, a),
{
    assert forall|t: Text| older(t, a) implies #[trigger] after.regs[t] == m.regs[t] by {
        lemma_older_on(t, a, b);
        lemma_older_on(t, a, c);
        assert(m1.regs[t] == m.regs[t]);
        assert(m2.regs[t] == m1.regs[t]);
    }
}

proof fn lemma_one_more(
    p0: Seq<Value>,
    p1: Seq<Value>,
    fields: Seq<(String, ExprNode)>,
    n: nat,
    defs: Seq<(Text, Text)>,
    offset: nat,
    vars: Map<Text, int>,
    fns: spec_fn(Text, Seq<int>) -> int,
    at: int,
    v: Value,
)
    requires
        0 < n <= defs.len(),
        at == literal_place(fields, defs[n - 1].0),
        0 <= at < fields.len(),
        has_fields(p0, p1, fields, (n - 1) as nat, defs, offset, vars, fns),
        source_value(fields[at].1, vars, fns) is Some ==> v == Value::Int(source_value(fields[at].1, vars, fns)->0),
    ensures
        has_fields(p0, put_part(p1, (n - 1 + offset) as nat, v), fields, n, defs, offset, vars, fns),
{
    let p2 = put_part(p1, (n - 1 + offset) as nat, v);
    assert forall|k: int|
        0 <= k < n && 0 <= literal_place(fields, (#[trigger] defs[k]).0) < fields.len() implies {
        let x = source_value(fields[literal_place(fields, defs[k].0)].1, vars, fns);
        &&& p2.len() > k + offset
        &&& x is Some ==> p2[k + offset] == Value::Int(x->0)
    } by {
        if k < n - 1 {
            assert(p1.len() > k + offset);
        }
    }
}

} // verus!
