//! What the code for operators between complex numbers does: the runtime computes them.

use vstd::prelude::*;

use crate::codegen::llvm::meaning::{
    arguments, group_machine, instr_text, lemma_arguments, lemma_wrote_nothing, loaded, no_args, no_code, older,
    register, run, value, wrote, Instr, Machine, Value, World,
};
use crate::codegen::llvm::operators::{lemma_then, lemma_then_label};
use crate::codegen::llvm::state::Gen;

use crate::syntax::ast::BinOp;
use crate::text::Text;

verus! {

/// The function of the runtime for an operator between complex numbers.
pub open spec fn complex_function(op: BinOp) -> Option<Text> {
    match op {
        BinOp::Add => Some("yk_complex_add"@),
        BinOp::Sub => Some("yk_complex_sub"@),
        BinOp::Mul => Some("yk_complex_mul"@),
        BinOp::Div => Some("yk_complex_div"@),
        _ => None,
    }
}

spec fn complex_code(n: nat, f: Text, lc: Text, rc: Text) -> Seq<Instr> {
    let ty = "%yk_complex"@;
    no_code().push(Instr::Alloca { to: register(n + 1), ty }).push(Instr::Alloca { to: register(n + 2), ty }).push(
        Instr::Store { ty, a: lc, at: register(n + 1) },
    ).push(Instr::Store { ty, a: rc, at: register(n + 2) }).push(Instr::Alloca { to: register(n), ty }).push(
        Instr::CallVoid { function: "@"@ + f, args: complex_args(n) },
    ).push(Instr::Load { to: register(n + 3), ty, at: register(n) })
}

spec fn complex_args(n: nat) -> Seq<(Text, Text)> {
    no_args().push((register(n), "ptr"@)).push((register(n + 1), "ptr"@)).push((register(n + 2), "ptr"@))
}

proof fn lemma_complex_texts(f: Text, a: Text, b: Text, c: Text)
    ensures
        " = alloca %yk_complex, align 8"@ == " = alloca "@ + "%yk_complex"@ + ", align 8"@,
        "store %yk_complex "@ == "store "@ + "%yk_complex"@ + " "@,
        ", ptr %"@ == ", ptr "@ + "%"@,
        " = load %yk_complex, ptr %"@ == " = load "@ + "%yk_complex"@ + ", ptr "@ + "%"@,
        "call void @"@ + f + "(ptr %"@ + a + ", ptr %"@ + b + ", ptr %"@ + c + ")"@ == "call void "@ + ("@"@ + f) + "("@
            + arguments(
            no_args().push(("%"@ + a, "ptr"@)).push(("%"@ + b, "ptr"@)).push(("%"@ + c, "ptr"@)),
        ) + ")"@,
{
    lemma_arguments(("%"@ + a, "ptr"@), ("%"@ + b, "ptr"@), ("%"@ + c, "ptr"@));
    reveal_strlit(" = alloca %yk_complex, align 8");
    reveal_strlit(" = alloca ");
    reveal_strlit("%yk_complex");
    reveal_strlit(", align 8");
    reveal_strlit("store %yk_complex ");
    reveal_strlit("store ");
    reveal_strlit(" ");
    reveal_strlit(", ptr %");
    reveal_strlit(", ptr ");
    reveal_strlit("%");
    reveal_strlit(" = load %yk_complex, ptr %");
    reveal_strlit(" = load ");
    reveal_strlit("call void @");
    reveal_strlit("call void ");
    reveal_strlit("@");
    reveal_strlit("(ptr %");
    reveal_strlit("(");
    reveal_strlit("ptr");
    reveal_strlit(", ");
    assert(" = alloca %yk_complex, align 8"@ == " = alloca "@ + "%yk_complex"@ + ", align 8"@);
    assert("store %yk_complex "@ == "store "@ + "%yk_complex"@ + " "@);
    assert(" = load %yk_complex, ptr %"@ == " = load "@ + "%yk_complex"@ + ", ptr "@ + "%"@);
    assert("call void @"@ == "call void "@ + "@"@);
    assert("(ptr %"@ == "("@ + ("ptr"@ + " "@ + "%"@));
    assert(", ptr %"@ == ", "@ + ("ptr"@ + " "@ + "%"@));
    let x = "ptr"@ + " "@ + ("%"@ + a);
    let y = "ptr"@ + " "@ + ("%"@ + b);
    let z = "ptr"@ + " "@ + ("%"@ + c);
    assert("call void @"@ + f + "(ptr %"@ + a + ", ptr %"@ + b + ", ptr %"@ + c + ")"@ == "call void "@ + ("@"@ + f)
        + "("@ + (x + ", "@ + y + ", "@ + z) + ")"@);
}

#[verifier::rlimit(60)]
proof fn lemma_complex_wrote(g: Gen, op: BinOp, lc: Text, rc: Text, target: Text)
    requires
        complex_function(op) is Some,
        g.label_counter + 4 <= usize::MAX,
    ensures
        ({
            let n = g.label_counter;
            let ty = "%yk_complex"@;
            let (h, r) = g.emit_binop(op, lc, ty, rc, ty, target);
            &&& wrote(g, h, complex_code(n, complex_function(op)->0, lc, rc))
            &&& r == (register(n + 3), ty)
        }),
{
    reveal_strlit("%yk_complex");
    reveal_strlit("double");
    reveal_strlit("float");
    reveal_strlit("%");
    assert("%yk_complex"@[0] == '%' && "double"@[0] == 'd' && "float"@[0] == 'f');
    let n = g.label_counter;
    let ty = "%yk_complex"@;
    let f = complex_function(op)->0;
    lemma_wrote_nothing(g);
    lemma_then_label(g, g, no_code());
    let (g0, tmp) = g.fresh_label();
    lemma_then_label(g, g0, no_code());
    let (g1, la) = g0.fresh_label();
    lemma_then_label(g, g1, no_code());
    let (g2, ra) = g1.fresh_label();
    lemma_complex_texts(f, tmp, la, ra);
    let i1 = Instr::Alloca { to: register(n + 1), ty };
    let l1 = "%"@ + la + " = alloca %yk_complex, align 8"@;
    assert(l1 == instr_text(i1));
    lemma_then(g, g2, no_code(), i1, l1);
    let g3 = g2.e(l1);
    let c1 = no_code().push(i1);
    let i2 = Instr::Alloca { to: register(n + 2), ty };
    let l2 = "%"@ + ra + " = alloca %yk_complex, align 8"@;
    assert(l2 == instr_text(i2));
    lemma_then(g, g3, c1, i2, l2);
    let g4 = g3.e(l2);
    let c2 = c1.push(i2);
    let i3 = Instr::Store { ty, a: lc, at: register(n + 1) };
    let l3 = "store %yk_complex "@ + lc + ", ptr %"@ + la;
    assert(l3 == instr_text(i3));
    lemma_then(g, g4, c2, i3, l3);
    let g5 = g4.e(l3);
    let c3 = c2.push(i3);
    let i4 = Instr::Store { ty, a: rc, at: register(n + 2) };
    let l4 = "store %yk_complex "@ + rc + ", ptr %"@ + ra;
    assert(l4 == instr_text(i4));
    lemma_then(g, g5, c3, i4, l4);
    let g6 = g5.e(l4);
    let c4 = c3.push(i4);
    let i5 = Instr::Alloca { to: register(n), ty };
    let l5 = "%"@ + tmp + " = alloca %yk_complex, align 8"@;
    assert(l5 == instr_text(i5));
    lemma_then(g, g6, c4, i5, l5);
    let g7 = g6.e(l5);
    let c5 = c4.push(i5);
    let i6 = Instr::CallVoid { function: "@"@ + f, args: complex_args(n) };
    let l6 = "call void @"@ + f + "(ptr %"@ + tmp + ", ptr %"@ + la + ", ptr %"@ + ra + ")"@;
    assert(l6 == instr_text(i6));
    lemma_then(g, g7, c5, i6, l6);
    let g8 = g7.e(l6);
    let c6 = c5.push(i6);
    lemma_then_label(g, g8, c6);
    let (g9, v) = g8.fresh_label();
    let i7 = Instr::Load { to: register(n + 3), ty, at: register(n) };
    let l7 = "%"@ + v + " = load %yk_complex, ptr %"@ + tmp;
    assert(l7 == instr_text(i7));
    lemma_then(g, g9, c6, i7, l7);
    assert(g.emit_binop(op, lc, ty, rc, ty, target) == g0.complex_op(op, lc, ty, rc, ty, tmp));
    assert(g0.complex_op(op, lc, ty, rc, ty, tmp) == (g9.e(l7), (register(n + 3), ty)));
}

/// An operator between complex numbers calls the function of the runtime for it, with the place for the result and the
/// two numbers in their order; what the function leaves in that place is the value.
pub proof fn lemma_complex_operator(g: Gen, op: BinOp, lc: Text, rc: Text, target: Text)
    requires
        complex_function(op) is Some,
        g.label_counter + 4 <= usize::MAX,
        older(lc, g.label_counter),
        older(rc, g.label_counter),
    ensures
        ({
            let ty = "%yk_complex"@;
            let (h, r) = g.emit_binop(op, lc, ty, rc, ty, target);
            exists|code: Seq<Instr>| #[trigger]
                wrote(g, h, code) && forall|w: World, m: Machine|
                    {
                        let after = #[trigger] run(w, code, m);
                        let c = after.calls.last();
                        &&& after.calls == m.calls.push(c)
                        &&& c.function == Value::Global("@"@ + complex_function(op)->0)
                        &&& c.args.len() == 3
                        &&& loaded(c.memory, c.args[1]) == value(w, m, lc)
                        &&& loaded(c.memory, c.args[2]) == value(w, m, rc)
                        &&& c.args[0] != c.args[1] && c.args[0] != c.args[2]
                        &&& value(w, after, r.0) == loaded((w.after)(c), c.args[0])
                    }
        }),
{
    broadcast use group_machine;

    let n = g.label_counter;
    let f = complex_function(op)->0;
    lemma_complex_wrote(g, op, lc, rc, target);
    let code = complex_code(n, f, lc, rc);
    let ty = "%yk_complex"@;
    assert(wrote(g, g.emit_binop(op, lc, ty, rc, ty, target).0, code));
}

} // verus!
