//! What the code for an operator computes: the operator, of the values of its operands.

use vstd::prelude::*;

use crate::codegen::llvm::meaning::{
    bits, computed, exec, fits, group_machine, instr_text, int_in, kept, lemma_label, lemma_line,
    lemma_number_is_itself, lemma_older_on, lemma_register_ends, lemma_register_value, lemma_run_on, lemma_run_push,
    lemma_set_keeps, lemma_value_kept, lemma_wrote_label, lemma_wrote_line, lemma_wrote_nothing, lemma_wrote_on,
    no_code, older, opcode_text, quotient, real_in, register, run, truth, two_to, value, wrote, Cast, Instr, Machine,
    Opcode, Value, World,
};
use crate::codegen::llvm::names::width;
use crate::codegen::llvm::state::Gen;
use crate::scan::begins;
use crate::syntax::ast::{BinOp, UnOp};
use crate::text::{dec, int_dec, Text};

verus! {

// ---------------------------------------------------------------------------------------------
// What operators mean
// ---------------------------------------------------------------------------------------------
/// The value of `a op b` on integers of `n` bits; none where the operator has no value there. Zero is
/// false and everything else true, a truth value is one or zero.
pub open spec fn int_result(n: nat, op: BinOp, a: int, b: int) -> Option<int> {
    match op {
        BinOp::Add => if fits(n, a + b) {
            Some(a + b)
        } else {
            None
        },
        BinOp::Sub => if fits(n, a - b) {
            Some(a - b)
        } else {
            None
        },
        BinOp::Mul => if fits(n, a * b) {
            Some(a * b)
        } else {
            None
        },
        BinOp::Div => if b != 0 && fits(n, quotient(a, b)) {
            Some(quotient(a, b))
        } else {
            None
        },
        BinOp::Mod => if b != 0 && fits(n, quotient(a, b)) {
            Some(a - b * quotient(a, b))
        } else {
            None
        },
        BinOp::BitAnd => Some(((a as i64) & (b as i64)) as int),
        BinOp::BitOr => Some(((a as i64) | (b as i64)) as int),
        BinOp::BitXor => Some(((a as i64) ^ (b as i64)) as int),
        BinOp::Shl => if 0 <= b < n && fits(n, a * two_to(b as nat)) {
            Some(a * two_to(b as nat))
        } else {
            None
        },
        BinOp::Shr => if 0 <= b < n {
            Some(a / two_to(b as nat))
        } else {
            None
        },
        BinOp::Eq => Some(truth(a == b)),
        BinOp::Ne => Some(truth(a != b)),
        BinOp::Lt => Some(truth(a < b)),
        BinOp::Gt => Some(truth(a > b)),
        BinOp::Le => Some(truth(a < b || a == b)),
        BinOp::Ge => Some(truth(!(a < b))),
        BinOp::And => Some(truth(a != 0 && b != 0)),
        BinOp::Or => Some(truth(a != 0 || b != 0)),
        BinOp::Pow | BinOp::Assign => None,
    }
}

/// A type of integers.
pub open spec fn int_type(ty: Text) -> bool {
    ty == "i1"@ || ty == "i8"@ || ty == "i16"@ || ty == "i32"@ || ty == "i64"@
}

/// The type that an operator works in: the wider one.
pub open spec fn common_type(lt: Text, rt: Text) -> Text {
    if width(lt) < width(rt) {
        rt
    } else {
        lt
    }
}

/// An operator that is one instruction.
spec fn one_instruction(op: BinOp) -> bool {
    !(op is Pow || op is Assign || op is And || op is Or)
}

spec fn int_opcode(op: BinOp) -> Opcode {
    match op {
        BinOp::Add => Opcode::AddNsw,
        BinOp::Sub => Opcode::SubNsw,
        BinOp::Mul => Opcode::MulNsw,
        BinOp::Div => Opcode::Sdiv,
        BinOp::Mod => Opcode::Srem,
        BinOp::BitAnd => Opcode::And,
        BinOp::BitOr => Opcode::Or,
        BinOp::BitXor => Opcode::Xor,
        BinOp::Shl => Opcode::Shl,
        BinOp::Shr => Opcode::Ashr,
        BinOp::Eq => Opcode::IntOeq,
        BinOp::Ne => Opcode::IntOne,
        BinOp::Lt => Opcode::IntSlt,
        BinOp::Gt => Opcode::IntSgt,
        BinOp::Le => Opcode::IntSle,
        _ => Opcode::IntSge,
    }
}

/// The code leaves the value of `a op b` in `r`, and keeps what is older than `from`.
pub open spec fn computes_int(
    code: Seq<Instr>,
    from: nat,
    n: nat,
    op: BinOp,
    lc: Text,
    rc: Text,
    r: Text,
) -> bool {
    forall|w: World, m: Machine|
        {
            let after = #[trigger] run(w, code, m);
            let result = int_result(n, op, int_in(value(w, m, lc)), int_in(value(w, m, rc)));
            kept(m, after, from) && (result is Some ==> value(w, after, r) == Value::Int(result->0))
        }
}

proof fn lemma_compare_texts()
    ensures
        opcode_text(Opcode::IntOeq) == "icmp"@ + " "@ + "oeq"@,
        opcode_text(Opcode::IntOne) == "icmp"@ + " "@ + "one"@,
        opcode_text(Opcode::IntSlt) == "icmp"@ + " "@ + "slt"@,
        opcode_text(Opcode::IntSgt) == "icmp"@ + " "@ + "sgt"@,
        opcode_text(Opcode::IntSle) == "icmp"@ + " "@ + "sle"@,
        opcode_text(Opcode::IntSge) == "icmp"@ + " "@ + "sge"@,
        opcode_text(Opcode::RealOeq) == "fcmp"@ + " "@ + "oeq"@,
        opcode_text(Opcode::RealOne) == "fcmp"@ + " "@ + "one"@,
        opcode_text(Opcode::RealOlt) == "fcmp"@ + " "@ + "olt"@,
        opcode_text(Opcode::RealOgt) == "fcmp"@ + " "@ + "ogt"@,
        opcode_text(Opcode::RealOle) == "fcmp"@ + " "@ + "ole"@,
        opcode_text(Opcode::RealOge) == "fcmp"@ + " "@ + "oge"@,
{
    reveal_strlit("icmp");
    reveal_strlit("fcmp");
    reveal_strlit(" ");
    reveal_strlit("oeq");
    reveal_strlit("one");
    reveal_strlit("slt");
    reveal_strlit("sgt");
    reveal_strlit("sle");
    reveal_strlit("sge");
    reveal_strlit("olt");
    reveal_strlit("ogt");
    reveal_strlit("ole");
    reveal_strlit("oge");
    reveal_strlit("icmp oeq");
    reveal_strlit("icmp one");
    reveal_strlit("icmp slt");
    reveal_strlit("icmp sgt");
    reveal_strlit("icmp sle");
    reveal_strlit("icmp sge");
    reveal_strlit("fcmp oeq");
    reveal_strlit("fcmp one");
    reveal_strlit("fcmp olt");
    reveal_strlit("fcmp ogt");
    reveal_strlit("fcmp ole");
    reveal_strlit("fcmp oge");
}

/// One operation writes one instruction.
proof fn lemma_arith(g: Gen, tmp: Text, op: Opcode, ty: Text, lc: Text, rc: Text)
    ensures
        wrote(
            g,
            g.arith(tmp, opcode_text(op), ty, lc, rc).0,
            no_code().push(Instr::Binary { to: "%"@ + tmp, op, ty, a: lc, b: rc }),
        ),
{
    lemma_wrote_nothing(g);
    let i = Instr::Binary { to: "%"@ + tmp, op, ty, a: lc, b: rc };
    lemma_wrote_line(
        g,
        g,
        no_code(),
        i,
        "%"@ + tmp + " = "@ + opcode_text(op) + " "@ + ty + " "@ + lc + ", "@ + rc,
    );
}

/// One comparison writes one instruction.
proof fn lemma_compare(g: Gen, tmp: Text, op: Opcode, instr: Text, cond: Text, ty: Text, lc: Text, rc: Text)
    requires
        opcode_text(op) == instr + " "@ + cond,
    ensures
        wrote(
            g,
            g.compare(tmp, instr, cond, ty, lc, rc).0,
            no_code().push(Instr::Binary { to: "%"@ + tmp, op, ty, a: lc, b: rc }),
        ),
{
    lemma_wrote_nothing(g);
    let i = Instr::Binary { to: "%"@ + tmp, op, ty, a: lc, b: rc };
    let line = "%"@ + tmp + " = "@ + instr + " "@ + cond + " "@ + ty + " "@ + lc + ", "@ + rc;
    assert(line == instr_text(i));
    lemma_wrote_line(g, g, no_code(), i, line);
}

proof fn lemma_plain_one(g: Gen, op: BinOp, lc: Text, ty: Text, rc: Text, tmp: Text, target: Text)
    requires
        int_type(ty),
        one_instruction(op),
    ensures
        wrote(
            g,
            g.plain_op(op, lc, ty, rc, tmp, target).0,
            no_code().push(Instr::Binary { to: "%"@ + tmp, op: int_opcode(op), ty, a: lc, b: rc }),
        ),
        g.plain_op(op, lc, ty, rc, tmp, target).1.0 == "%"@ + tmp,
{
    lemma_int_type(ty);
    lemma_arith(g, tmp, int_opcode(op), ty, lc, rc);
    lemma_compare_texts();
    if op is Eq {
        lemma_compare(g, tmp, int_opcode(op), "icmp"@, "oeq"@, ty, lc, rc);
    } else if op is Ne {
        lemma_compare(g, tmp, int_opcode(op), "icmp"@, "one"@, ty, lc, rc);
    } else if op is Lt {
        lemma_compare(g, tmp, int_opcode(op), "icmp"@, "slt"@, ty, lc, rc);
    } else if op is Gt {
        lemma_compare(g, tmp, int_opcode(op), "icmp"@, "sgt"@, ty, lc, rc);
    } else if op is Le {
        lemma_compare(g, tmp, int_opcode(op), "icmp"@, "sle"@, ty, lc, rc);
    } else if op is Ge {
        lemma_compare(g, tmp, int_opcode(op), "icmp"@, "sge"@, ty, lc, rc);
    }
}

/// A type of integers is no other type.
pub proof fn lemma_int_type(ty: Text)
    requires
        int_type(ty),
    ensures
        ty != "double"@,
        ty != "float"@,
        ty != "%yk_string"@,
        ty != "%yk_complex"@,
        !begins(ty, "%"@),
{
    reveal_strlit("i1");
    reveal_strlit("i8");
    reveal_strlit("i16");
    reveal_strlit("i32");
    reveal_strlit("i64");
    reveal_strlit("double");
    reveal_strlit("float");
    reveal_strlit("%yk_string");
    reveal_strlit("%yk_complex");
    reveal_strlit("%");
    assert(ty[0] == 'i');
    if begins(ty, "%"@) {
        assert(ty.take(1)[0] == '%');
    }
}

/// A line behind others, as one more instruction; it changes the text only.
pub proof fn lemma_then(g: Gen, h: Gen, code: Seq<Instr>, i: Instr, line: Text)
    requires
        wrote(g, h, code),
        line == instr_text(i),
    ensures
        wrote(g, h.e(line), code.push(i)),
        h.e(line) == (Gen { output: h.e(line).output, ..h }),
{
    lemma_wrote_line(g, h, code, i, line);
    lemma_line(h, line);
}

/// A label behind instructions.
pub proof fn lemma_then_label(g: Gen, h: Gen, code: Seq<Instr>)
    requires
        wrote(g, h, code),
        h.label_counter < usize::MAX,
    ensures
        wrote(g, h.fresh_label().0, code),
        h.fresh_label().1 == "yk_"@ + dec(h.label_counter),
        "%"@ + h.fresh_label().1 == register(h.label_counter),
        h.fresh_label().0 == (Gen { label_counter: h.label_counter + 1, ..h }),
{
    lemma_wrote_label(g, h, code);
    lemma_label(h);
}

proof fn lemma_truth_texts()
    ensures
        " = icmp ne "@ == " = "@ + "icmp ne"@ + " "@,
        ", 0"@ == ", "@ + "0"@,
        " i1 %"@ == " "@ + "i1"@ + " "@ + "%"@,
        ", %"@ == ", "@ + "%"@,
        "0"@ == int_dec(0),
{
    reveal_strlit(" = icmp ne ");
    reveal_strlit(" = ");
    reveal_strlit("icmp ne");
    reveal_strlit(" ");
    reveal_strlit(", 0");
    reveal_strlit(", ");
    reveal_strlit("0");
    reveal_strlit(" i1 %");
    reveal_strlit("i1");
    reveal_strlit("%");
    reveal_strlit(", %");
    assert("0"@ =~= int_dec(0));
}

/// Both of two truth values.
pub proof fn lemma_and_of_truths(a: int, b: int)
    requires
        a == 0 || a == 1,
        b == 0 || b == 1,
    ensures
        ((a as i64) & (b as i64)) as int == truth(a != 0 && b != 0),
{
    lemma_bits_of_truth(a, b);
}

proof fn lemma_bits_of_truth(a: int, b: int)
    requires
        a == 0 || a == 1,
        b == 0 || b == 1,
    ensures
        ((a as i64) & (b as i64)) as int == truth(a != 0 && b != 0),
        ((a as i64) | (b as i64)) as int == truth(a != 0 || b != 0),
{
    assert(0i64 & 0i64 == 0i64 && 0i64 & 1i64 == 0i64 && 1i64 & 0i64 == 0i64 && 1i64 & 1i64 == 1i64) by (bit_vector);
    assert(0i64 | 0i64 == 0i64 && 0i64 | 1i64 == 1i64 && 1i64 | 0i64 == 1i64 && 1i64 | 1i64 == 1i64) by (bit_vector);
}

spec fn logical_code(n: nat, tmp: nat, op: Opcode, ty: Text, lc: Text, rc: Text) -> Seq<Instr> {
    no_code().push(Instr::Binary { to: register(n), op: Opcode::IntNe, ty, a: lc, b: "0"@ }).push(
        Instr::Binary { to: register(n + 1), op: Opcode::IntNe, ty, a: rc, b: "0"@ },
    ).push(Instr::Binary { to: register(tmp), op, ty: "i1"@, a: register(n), b: register(n + 1) })
}

proof fn lemma_logical_wrote(g: Gen, tmp: nat, op: Opcode, ty: Text, lc: Text, rc: Text)
    requires
        g.label_counter + 2 <= usize::MAX,
    ensures
        wrote(
            g,
            g.logical("yk_"@ + dec(tmp), opcode_text(op), ty, lc, rc).0,
            logical_code(g.label_counter, tmp, op, ty, lc, rc),
        ),
        g.logical("yk_"@ + dec(tmp), opcode_text(op), ty, lc, rc).1 == (register(tmp), "i1"@),
        g.logical("yk_"@ + dec(tmp), opcode_text(op), ty, lc, rc).0.label_counter == g.label_counter + 2,
{
    lemma_truth_texts();
    lemma_wrote_nothing(g);
    let n = g.label_counter;
    let (g1, z1) = g.fresh_label();
    lemma_then_label(g, g, no_code());
    let (g2, z2) = g1.fresh_label();
    lemma_then_label(g, g1, no_code());
    let i1 = Instr::Binary { to: register(n), op: Opcode::IntNe, ty, a: lc, b: "0"@ };
    let l1 = "%"@ + z1 + " = icmp ne "@ + ty + " "@ + lc + ", 0"@;
    assert(l1 == instr_text(i1));
    lemma_then(g, g2, no_code(), i1, l1);
    let g3 = g2.e(l1);
    let i2 = Instr::Binary { to: register(n + 1), op: Opcode::IntNe, ty, a: rc, b: "0"@ };
    let l2 = "%"@ + z2 + " = icmp ne "@ + ty + " "@ + rc + ", 0"@;
    assert(l2 == instr_text(i2));
    lemma_then(g, g3, no_code().push(i1), i2, l2);
    let g4 = g3.e(l2);
    let i3 = Instr::Binary { to: register(tmp), op, ty: "i1"@, a: register(n), b: register(n + 1) };
    let l3 = "%"@ + ("yk_"@ + dec(tmp)) + " = "@ + opcode_text(op) + " i1 %"@ + z1 + ", %"@ + z2;
    assert(l3 == instr_text(i3));
    lemma_then(g, g4, no_code().push(i1).push(i2), i3, l3);
}

proof fn lemma_logical_runs(n: nat, tmp: nat, op: BinOp, ty: Text, lc: Text, rc: Text, bits: nat)
    requires
        op is And || op is Or,
        tmp < n,
        older(lc, tmp),
        older(rc, tmp),
    ensures
        computes_int(
            logical_code(
                n,
                tmp,
                if op is And {
                    Opcode::And
                } else {
                    Opcode::Or
                },
                ty,
                lc,
                rc,
            ),
            tmp,
            bits,
            op,
            lc,
            rc,
            register(tmp),
        ),
{
    broadcast use lemma_run_push;

    let o = if op is And {
        Opcode::And
    } else {
        Opcode::Or
    };
    let code = logical_code(n, tmp, o, ty, lc, rc);
    lemma_truth_texts();
    lemma_older_on(lc, tmp, n);
    lemma_older_on(rc, tmp, n);
    assert forall|w: World, m: Machine|
        {
            let after = #[trigger] run(w, code, m);
            let result = int_result(bits, op, int_in(value(w, m, lc)), int_in(value(w, m, rc)));
            kept(m, after, tmp) && (result is Some ==> value(w, after, register(tmp)) == Value::Int(result->0))
        } by {
        let a = int_in(value(w, m, lc));
        let b = int_in(value(w, m, rc));
        lemma_number_is_itself(w, m, 0);
        let m1 = exec(w, code[0], m);
        lemma_set_keeps(m, tmp, n, Value::Int(truth(a != 0)));
        lemma_set_keeps(m, n, n, Value::Int(truth(a != 0)));
        lemma_number_is_itself(w, m1, 0);
        lemma_value_kept(w, m, m1, n, rc);
        let m2 = exec(w, code[1], m1);
        lemma_set_keeps(m1, tmp, n + 1, Value::Int(truth(b != 0)));
        lemma_set_keeps(m1, n + 1, n + 1, Value::Int(truth(b != 0)));
        lemma_register_ends(n);
        lemma_register_value(w, m2, n);
        lemma_register_value(w, m2, n + 1);
        let m3 = exec(w, code[2], m2);
        lemma_bits_of_truth(truth(a != 0), truth(b != 0));
        let v = Value::Int(if op is And {
            truth(a != 0 && b != 0)
        } else {
            truth(a != 0 || b != 0)
        });
        lemma_set_keeps(m2, tmp, tmp, v);
        lemma_register_value(w, m3, tmp);
        assert(run(w, code, m) == m3);
        assert forall|t: Text| older(t, tmp) implies #[trigger] m3.regs[t] == m.regs[t] by {
            assert(m2.regs[t] == m1.regs[t]);
            assert(m1.regs[t] == m.regs[t]);
        }
    }
}

/// The code for an operator between operands of one integer type computes the operator.
proof fn lemma_plain_int(g: Gen, op: BinOp, lc: Text, ty: Text, rc: Text, tmp: nat, target: Text)
    requires
        int_type(ty),
        !(op is Pow || op is Assign),
        tmp < g.label_counter,
        g.label_counter + 2 <= usize::MAX,
        older(lc, tmp),
        older(rc, tmp),
    ensures
        ({
            let (h, r) = g.plain_op(op, lc, ty, rc, "yk_"@ + dec(tmp), target);
            &&& g.label_counter <= h.label_counter <= g.label_counter + 2
            &&& r.0 == register(tmp)
            &&& exists|code: Seq<Instr>| #[trigger]
                wrote(g, h, code) && computes_int(code, tmp, bits(ty), op, lc, rc, register(tmp))
        }),
{
    let name = "yk_"@ + dec(tmp);
    if op is And {
        lemma_logical_wrote(g, tmp, Opcode::And, ty, lc, rc);
        lemma_logical_runs(g.label_counter, tmp, op, ty, lc, rc, bits(ty));
        let code = logical_code(g.label_counter, tmp, Opcode::And, ty, lc, rc);
        assert(opcode_text(Opcode::And) == "and"@);
        assert(wrote(g, g.plain_op(op, lc, ty, rc, name, target).0, code));
    } else if op is Or {
        lemma_logical_wrote(g, tmp, Opcode::Or, ty, lc, rc);
        lemma_logical_runs(g.label_counter, tmp, op, ty, lc, rc, bits(ty));
        let code = logical_code(g.label_counter, tmp, Opcode::Or, ty, lc, rc);
        assert(opcode_text(Opcode::Or) == "or"@);
        assert(wrote(g, g.plain_op(op, lc, ty, rc, name, target).0, code));
    } else {
        broadcast use lemma_run_push;

        lemma_plain_one(g, op, lc, ty, rc, name, target);
        lemma_int_type(ty);
        let i = Instr::Binary { to: "%"@ + name, op: int_opcode(op), ty, a: lc, b: rc };
        let code = no_code().push(i);
        reveal(Gen::e);
        assert forall|w: World, m: Machine|
            {
                let after = #[trigger] run(w, code, m);
                let result = int_result(bits(ty), op, int_in(value(w, m, lc)), int_in(value(w, m, rc)));
                kept(m, after, tmp) && (result is Some ==> value(w, after, register(tmp)) == Value::Int(
                    result->0,
                ))
            } by {
            assert(run(w, no_code(), m) == m);
            let v = computed(w, int_opcode(op), bits(ty), value(w, m, lc), value(w, m, rc));
            lemma_set_keeps(m, tmp, tmp, v);
            lemma_register_value(w, run(w, code, m), tmp);
        }
        assert(computes_int(code, tmp, bits(ty), op, lc, rc, register(tmp)));
        assert(wrote(g, g.plain_op(op, lc, ty, rc, name, target).0, code));
        lemma_line(g, instr_text(i));
        lemma_plain_labels(g, op, lc, ty, rc, name, target);
    }
}

proof fn lemma_plain_labels(g: Gen, op: BinOp, lc: Text, ty: Text, rc: Text, tmp: Text, target: Text)
    requires
        int_type(ty),
        one_instruction(op),
    ensures
        g.plain_op(op, lc, ty, rc, tmp, target).0.label_counter == g.label_counter,
{
    reveal(Gen::e);
    lemma_int_type(ty);
}

/// The type of what an operator between integers gives.
pub open spec fn result_type(op: BinOp, lt: Text, rt: Text) -> Text {
    if comparison(op) || op is And || op is Or {
        "i1"@
    } else {
        common_type(lt, rt)
    }
}

/// The code for an operator between two integers computes the operator, of the values of its operands in
/// their order: the narrower one is widened. For each comparison that is what the comparison says.
pub proof fn lemma_integer_operator(g: Gen, op: BinOp, lc: Text, lt: Text, rc: Text, rt: Text, target: Text)
    requires
        int_type(lt),
        int_type(rt),
        !(op is Pow || op is Assign),
        g.label_counter + 4 <= usize::MAX,
        older(lc, g.label_counter),
        older(rc, g.label_counter),
    ensures
        ({
            let (h, r) = g.emit_binop(op, lc, lt, rc, rt, target);
            &&& g.label_counter <= h.label_counter <= g.label_counter + 4
            &&& h == (Gen { label_counter: h.label_counter, output: h.output, ..g })
            &&& older(r.0, h.label_counter)
            &&& r.1 == result_type(op, lt, rt)
            &&& exists|code: Seq<Instr>| #[trigger]
                wrote(g, h, code) && computes_int(
                    code,
                    g.label_counter,
                    bits(common_type(lt, rt)),
                    op,
                    lc,
                    rc,
                    r.0,
                )
        }),
{
    lemma_binop_frame(g, op, lc, lt, rc, rt, target);
    lemma_int_type(lt);
    lemma_int_type(rt);
    lemma_wrote_nothing(g);
    let n = g.label_counter;
    lemma_register_ends(n);
    let ty = common_type(lt, rt);
    if lt != rt && width(lt) < width(rt) {
        let (g1, wide) = g.widen(lc, lt, rt);
        lemma_widened(g, lc, lt, rt);
        lemma_widened_op(g, op, lc, rc, wide, rc, ty, target, g1);
        assert(g.emit_binop(op, lc, lt, rc, rt, target) == g1.fresh_label().0.plain_op(
            op,
            wide,
            ty,
            rc,
            g1.fresh_label().1,
            target,
        ));
    } else if lt != rt && width(rt) < width(lt) {
        let (g1, wide) = g.widen(rc, rt, lt);
        lemma_widened(g, rc, rt, lt);
        lemma_widened_op(g, op, lc, rc, lc, wide, ty, target, g1);
        assert(g.emit_binop(op, lc, lt, rc, rt, target) == g1.fresh_label().0.plain_op(
            op,
            lc,
            ty,
            wide,
            g1.fresh_label().1,
            target,
        ));
    } else {
        lemma_label(g);
        lemma_wrote_label(g, g, no_code());
        let g1 = g.fresh_label().0;
        lemma_plain_int(g1, op, lc, ty, rc, n, target);
        let h = g1.plain_op(op, lc, ty, rc, "yk_"@ + dec(n), target).0;
        let code = choose|code: Seq<Instr>| #[trigger]
            wrote(g1, h, code) && computes_int(code, n, bits(ty), op, lc, rc, register(n));
        lemma_wrote_on(g, g1, h, no_code(), code);
        assert(no_code() + code == code);
        assert(g.emit_binop(op, lc, lt, rc, rt, target) == g1.plain_op(op, lc, lt, rc, "yk_"@ + dec(n), target));
        assert(ty == lt);
        lemma_older_on(register(n), n + 1, h.label_counter);
    }
}

proof fn lemma_binop_frame(g: Gen, op: BinOp, lc: Text, lt: Text, rc: Text, rt: Text, target: Text)
    requires
        int_type(lt),
        int_type(rt),
        !(op is Pow || op is Assign),
    ensures
        ({
            let (h, r) = g.emit_binop(op, lc, lt, rc, rt, target);
            &&& h == (Gen { label_counter: h.label_counter, output: h.output, ..g })
            &&& r.1 == result_type(op, lt, rt)
        }),
{
    reveal(Gen::e);
    reveal(Gen::fresh_label);
    lemma_int_type(lt);
    lemma_int_type(rt);
}

/// The code leaves the integer that `val` is in the register with the number `n`.
spec fn copies_int(code: Seq<Instr>, n: nat, val: Text) -> bool {
    forall|w: World, m: Machine|
        {
            let after = #[trigger] run(w, code, m);
            kept(m, after, n) && value(w, after, register(n)) == Value::Int(int_in(value(w, m, val)))
        }
}

/// A widened integer is the same integer.
proof fn lemma_widened(g: Gen, val: Text, ty: Text, wide: Text)
    requires
        int_type(ty),
        int_type(wide),
        width(ty) < width(wide),
        g.label_counter < usize::MAX,
        older(val, g.label_counter),
    ensures
        ({
            let (h, r) = g.widen(val, ty, wide);
            &&& r == register(g.label_counter)
            &&& h.label_counter == g.label_counter + 1
            &&& exists|code: Seq<Instr>| #[trigger]
                wrote(g, h, code) && copies_int(code, g.label_counter, val)
        }),
{
    broadcast use lemma_run_push;

    reveal_strlit(" = sext ");
    reveal_strlit(" = ");
    reveal_strlit("sext");
    reveal_strlit(" ");
    lemma_wrote_nothing(g);
    lemma_then_label(g, g, no_code());
    let n = g.label_counter;
    let (g1, ext) = g.fresh_label();
    let i = Instr::Convert { to: register(n), op: Cast::Sext, from: ty, a: val, into: wide };
    let line = "%"@ + ext + " = sext "@ + ty + " "@ + val + " to "@ + wide;
    assert(" = sext "@ == " = "@ + "sext"@ + " "@);
    assert(line == instr_text(i));
    lemma_then(g, g1, no_code(), i, line);
    let code = no_code().push(i);
    lemma_narrow(ty);
    assert forall|w: World, m: Machine|
        {
            let after = #[trigger] run(w, code, m);
            kept(m, after, n) && value(w, after, register(n)) == Value::Int(int_in(value(w, m, val)))
        } by {
        assert(run(w, no_code(), m) == m);
        lemma_set_keeps(m, n, n, Value::Int(int_in(value(w, m, val))));
        lemma_register_value(w, run(w, code, m), n);
    }
    assert(wrote(g, g.widen(val, ty, wide).0, code));
}

proof fn lemma_narrow(ty: Text)
    requires
        int_type(ty),
        width(ty) < 64,
    ensures
        bits(ty) != 1,
{
    reveal_strlit("i1");
    reveal_strlit("i8");
    reveal_strlit("i16");
    reveal_strlit("i32");
    assert("i8"@[1] == '8');
    assert("i1"@.len() == 2);
    assert("i16"@.len() == 3);
    assert("i32"@.len() == 3);
}

proof fn lemma_widened_op(
    g: Gen,
    op: BinOp,
    lc: Text,
    rc: Text,
    l: Text,
    r: Text,
    ty: Text,
    target: Text,
    g1: Gen,
)
    requires
        int_type(ty),
        !(op is Pow || op is Assign),
        g.label_counter + 4 <= usize::MAX,
        older(lc, g.label_counter),
        older(rc, g.label_counter),
        g1.label_counter == g.label_counter + 1,
        (l == register(g.label_counter) && r == rc) || (l == lc && r == register(g.label_counter)),
        exists|code: Seq<Instr>| #[trigger]
            wrote(g, g1, code) && copies_int(code, g.label_counter, if l == lc { rc } else { lc }),
        l == lc ==> r == register(g.label_counter),
        lc != register(g.label_counter),
    ensures
        ({
            let n = g.label_counter;
            let (h, v) = g1.fresh_label().0.plain_op(op, l, ty, r, g1.fresh_label().1, target);
            &&& n <= h.label_counter <= n + 4
            &&& older(v.0, h.label_counter)
            &&& exists|code: Seq<Instr>| #[trigger]
                wrote(g, h, code) && computes_int(code, n, bits(ty), op, lc, rc, v.0)
        }),
{
    let n = g.label_counter;
    let first = choose|code: Seq<Instr>| #[trigger]
        wrote(g, g1, code) && copies_int(code, n, if l == lc { rc } else { lc });
    lemma_label(g1);
    lemma_wrote_label(g, g1, first);
    let g2 = g1.fresh_label().0;
    lemma_register_ends(n);
    lemma_older_on(lc, n, n + 1);
    lemma_older_on(rc, n, n + 1);
    lemma_plain_int(g2, op, l, ty, r, n + 1, target);
    let h = g2.plain_op(op, l, ty, r, g1.fresh_label().1, target).0;
    let second = choose|code: Seq<Instr>| #[trigger]
        wrote(g2, h, code) && computes_int(code, n + 1, bits(ty), op, l, r, register(n + 1));
    lemma_wrote_on(g, g2, h, first, second);
    lemma_register_ends(n + 1);
    lemma_older_on(register(n + 1), n + 2, h.label_counter);
    let code = first + second;
    assert forall|w: World, m: Machine|
        {
            let after = #[trigger] run(w, code, m);
            let result = int_result(bits(ty), op, int_in(value(w, m, lc)), int_in(value(w, m, rc)));
            kept(m, after, n) && (result is Some ==> value(w, after, register(n + 1)) == Value::Int(result->0))
        } by {
        lemma_run_on(w, first, second, m);
        let m1 = run(w, first, m);
        let m2 = run(w, second, m1);
        lemma_value_kept(w, m, m1, n, lc);
        lemma_value_kept(w, m, m1, n, rc);
        assert(kept(m1, m2, n + 1));
        assert forall|t: Text| older(t, n) implies #[trigger] m2.regs[t] == m.regs[t] by {
            lemma_older_on(t, n, n + 1);
            assert(m1.regs[t] == m.regs[t]);
        }
    }
}

// ---------------------------------------------------------------------------------------------
// Real numbers
// ---------------------------------------------------------------------------------------------
/// A number as a real one.
pub open spec fn as_real(w: World, v: Value, ty: Text) -> int {
    if ty == "double"@ {
        real_in(v)
    } else {
        (w.real_of)(int_in(v))
    }
}

/// An operator between real numbers that gives a real number.
pub open spec fn real_operation(op: BinOp) -> bool {
    op is Add || op is Sub || op is Mul || op is Div || op is Mod
}

/// An operator that compares.
pub open spec fn comparison(op: BinOp) -> bool {
    op is Eq || op is Ne || op is Lt || op is Gt || op is Le || op is Ge
}

/// The value of `a op b` on real numbers.
pub open spec fn real_result(w: World, op: BinOp, a: int, b: int) -> Value {
    if comparison(op) {
        Value::Int(truth((w.test)(op, a, b)))
    } else {
        Value::Real((w.real)(op, a, b))
    }
}

spec fn real_opcode(op: BinOp) -> Opcode {
    match op {
        BinOp::Add => Opcode::Fadd,
        BinOp::Sub => Opcode::Fsub,
        BinOp::Mul => Opcode::Fmul,
        BinOp::Div => Opcode::Fdiv,
        BinOp::Mod => Opcode::Frem,
        BinOp::Eq => Opcode::RealOeq,
        BinOp::Ne => Opcode::RealOne,
        BinOp::Lt => Opcode::RealOlt,
        BinOp::Gt => Opcode::RealOgt,
        BinOp::Le => Opcode::RealOle,
        _ => Opcode::RealOge,
    }
}

/// The code leaves the value of `a op b` on real numbers in `r`, and keeps what is older than `from`.
pub open spec fn computes_real(
    code: Seq<Instr>,
    from: nat,
    op: BinOp,
    lc: Text,
    lt: Text,
    rc: Text,
    rt: Text,
    r: Text,
) -> bool {
    forall|w: World, m: Machine|
        {
            let after = #[trigger] run(w, code, m);
            kept(m, after, from) && value(w, after, r) == real_result(
                w,
                op,
                as_real(w, value(w, m, lc), lt),
                as_real(w, value(w, m, rc), rt),
            )
        }
}

proof fn lemma_double()
    ensures
        "double"@ != "float"@,
        "double"@ != "%yk_string"@,
        "double"@ != "%yk_complex"@,
        !begins("double"@, "%"@),
{
    reveal_strlit("double");
    reveal_strlit("float");
    reveal_strlit("%yk_string");
    reveal_strlit("%yk_complex");
    reveal_strlit("%");
    assert("double"@[0] == 'd');
    if begins("double"@, "%"@) {
        assert("double"@.take(1)[0] == '%');
    }
}

proof fn lemma_plain_real(g: Gen, op: BinOp, lc: Text, rc: Text, tmp: Text, target: Text)
    requires
        real_operation(op) || comparison(op),
    ensures
        ({
            let (h, r) = g.plain_op(op, lc, "double"@, rc, tmp, target);
            &&& wrote(
                g,
                h,
                no_code().push(Instr::Binary { to: "%"@ + tmp, op: real_opcode(op), ty: "double"@, a: lc, b: rc }),
            )
            &&& r.0 == "%"@ + tmp
            &&& h.label_counter == g.label_counter
        }),
{
    let ty = "double"@;
    lemma_double();
    lemma_arith(g, tmp, real_opcode(op), ty, lc, rc);
    lemma_compare_texts();
    reveal(Gen::e);
    if op is Eq {
        lemma_compare(g, tmp, real_opcode(op), "fcmp"@, "oeq"@, ty, lc, rc);
    } else if op is Ne {
        lemma_compare(g, tmp, real_opcode(op), "fcmp"@, "one"@, ty, lc, rc);
    } else if op is Lt {
        lemma_compare(g, tmp, real_opcode(op), "fcmp"@, "olt"@, ty, lc, rc);
    } else if op is Gt {
        lemma_compare(g, tmp, real_opcode(op), "fcmp"@, "ogt"@, ty, lc, rc);
    } else if op is Le {
        lemma_compare(g, tmp, real_opcode(op), "fcmp"@, "ole"@, ty, lc, rc);
    } else if op is Ge {
        lemma_compare(g, tmp, real_opcode(op), "fcmp"@, "oge"@, ty, lc, rc);
    }
}

/// What turning an integer into a real number writes.
pub proof fn lemma_int_to_real(g: Gen, val: Text, ty: Text, real_ty: Text)
    requires
        g.label_counter < usize::MAX,
    ensures
        ({
            let n = g.label_counter;
            let (h, r) = g.int_to_real(val, ty, real_ty);
            &&& r == register(n)
            &&& h.label_counter == n + 1
            &&& h.indent == g.indent
            &&& wrote(
                g,
                h,
                no_code().push(Instr::Convert { to: register(n), op: Cast::Sitofp, from: ty, a: val, into: real_ty }),
            )
        }),
{
    reveal_strlit(" = sitofp ");
    reveal_strlit(" = ");
    reveal_strlit("sitofp");
    reveal_strlit(" ");
    assert(" = sitofp "@ == " = "@ + "sitofp"@ + " "@);
    lemma_wrote_nothing(g);
    lemma_then_label(g, g, no_code());
    let n = g.label_counter;
    let (g1, ext) = g.fresh_label();
    let i = Instr::Convert { to: register(n), op: Cast::Sitofp, from: ty, a: val, into: real_ty };
    let line = "%"@ + ext + " = sitofp "@ + ty + " "@ + val + " to "@ + real_ty;
    assert(line == instr_text(i));
    lemma_then(g, g1, no_code(), i, line);
}

/// The code for an operator between a real number and a number computes the operator, of the values of its
/// operands in their order: an integer beside a real number becomes one.
pub proof fn lemma_real_operator(g: Gen, op: BinOp, lc: Text, lt: Text, rc: Text, rt: Text, target: Text)
    requires
        lt == "double"@ || rt == "double"@,
        lt == "double"@ || int_type(lt),
        rt == "double"@ || int_type(rt),
        real_operation(op) || comparison(op),
        g.label_counter + 4 <= usize::MAX,
        older(lc, g.label_counter),
        older(rc, g.label_counter),
    ensures
        ({
            let (h, r) = g.emit_binop(op, lc, lt, rc, rt, target);
            exists|code: Seq<Instr>| #[trigger]
                wrote(g, h, code) && computes_real(code, g.label_counter, op, lc, lt, rc, rt, r.0)
        }),
{
    broadcast use group_machine;

    let n = g.label_counter;
    let ty = "double"@;
    lemma_double();
    lemma_wrote_nothing(g);
    lemma_older_on(lc, n, n + 1);
    lemma_older_on(rc, n, n + 1);
    let (h, r) = g.emit_binop(op, lc, lt, rc, rt, target);
    if lt == rt {
        lemma_then_label(g, g, no_code());
        let g1 = g.fresh_label().0;
        lemma_plain_real(g1, op, lc, rc, g.fresh_label().1, target);
        let i = Instr::Binary { to: register(n), op: real_opcode(op), ty, a: lc, b: rc };
        let code = no_code().push(i);
        lemma_wrote_on(g, g1, h, no_code(), code);
        assert(no_code() + code == code);
        assert(computes_real(code, n, op, lc, lt, rc, rt, r.0));
    } else {
        let left = lt == ty;
        let (g1, ext) = if left {
            lemma_int_type(rt);
            lemma_int_to_real(g, rc, rt, ty);
            g.int_to_real(rc, rt, ty)
        } else {
            lemma_int_type(lt);
            lemma_int_to_real(g, lc, lt, ty);
            g.int_to_real(lc, lt, ty)
        };
        let c = Instr::Convert {
            to: register(n),
            op: Cast::Sitofp,
            from: if left { rt } else { lt },
            a: if left { rc } else { lc },
            into: ty,
        };
        lemma_then_label(g, g1, no_code().push(c));
        let g2 = g1.fresh_label().0;
        let a = if left { lc } else { register(n) };
        let b = if left { register(n) } else { rc };
        lemma_plain_real(g2, op, a, b, g1.fresh_label().1, target);
        let i = Instr::Binary { to: register(n + 1), op: real_opcode(op), ty, a, b };
        lemma_wrote_on(g, g2, h, no_code().push(c), no_code().push(i));
        let code = no_code().push(c).push(i);
        assert(no_code().push(c) + no_code().push(i) == code);
        assert(computes_real(code, n, op, lc, lt, rc, rt, r.0));
    }
}

// ---------------------------------------------------------------------------------------------
// One operand
// ---------------------------------------------------------------------------------------------
/// The value of an operator in front of an integer of `n` bits.
pub open spec fn unary_value(n: nat, op: UnOp, x: int) -> Option<int> {
    match op {
        UnOp::Neg => if fits(n, 0 - x) {
            Some(-x)
        } else {
            None
        },
        UnOp::Not => Some(truth(x == 0)),
        UnOp::BitNot => if fits(64, x) {
            Some(-1 - x)
        } else {
            None
        },
    }
}

proof fn lemma_xor(x: int)
    ensures
        x == 0 || x == 1 ==> ((x as i64) ^ (1int as i64)) as int == truth(x == 0),
        fits(64, x) ==> ((x as i64) ^ ((-1int) as i64)) as int == -1 - x,
{
    assert(0i64 ^ 1i64 == 1i64 && 1i64 ^ 1i64 == 0i64) by (bit_vector);
    lemma_two_to_63();
    if fits(64, x) {
        let y = x as i64;
        assert(y ^ (-1i64) == !y) by (bit_vector);
        lemma_not(y);
    }
}

proof fn lemma_not(y: i64)
    ensures
        (!y) + y == -1,
{
    assert((!y) == (-1i64) - y) by (bit_vector);
}

proof fn lemma_two_to_63()
    ensures
        two_to(63) == 0x8000_0000_0000_0000,
{
    reveal_with_fuel(two_to, 64);
}

spec fn unop_instr(n: nat, op: UnOp, i: Text, ty: Text) -> Instr {
    match op {
        UnOp::Neg => Instr::Binary { to: register(n), op: Opcode::Sub, ty, a: int_dec(0), b: i },
        UnOp::Not => if ty == "i1"@ {
            Instr::Binary { to: register(n), op: Opcode::Xor, ty: "i1"@, a: i, b: "true"@ }
        } else {
            Instr::Binary { to: register(n), op: Opcode::IntEq, ty: "i64"@, a: i, b: int_dec(0) }
        },
        UnOp::BitNot => Instr::Binary { to: register(n), op: Opcode::Xor, ty, a: i, b: int_dec(-1) },
    }
}

proof fn lemma_unop_wrote(g: Gen, op: UnOp, i: Text, ty: Text)
    requires
        g.label_counter < usize::MAX,
        ty != "double"@,
    ensures
        ({
            let n = g.label_counter;
            let (h, r) = g.emit_unop(op, i, ty);
            &&& wrote(g, h, no_code().push(unop_instr(n, op, i, ty)))
            &&& r.0 == register(n)
            &&& h == (Gen { label_counter: n + 1, output: h.output, ..g })
            &&& r.1 == (if op is Not {
                "i1"@
            } else {
                ty
            })
        }),
{
    reveal_strlit(" = sub ");
    reveal_strlit(" = ");
    reveal_strlit("sub");
    reveal_strlit(" ");
    reveal_strlit(" 0, ");
    reveal_strlit("0");
    reveal_strlit(", ");
    reveal_strlit(" = xor i1 ");
    reveal_strlit("xor");
    reveal_strlit("i1");
    reveal_strlit(", true");
    reveal_strlit("true");
    reveal_strlit(" = icmp eq i64 ");
    reveal_strlit("icmp eq");
    reveal_strlit("i64");
    reveal_strlit(", 0");
    reveal_strlit(" = xor ");
    reveal_strlit(", -1");
    reveal_strlit("-");
    reveal_strlit("-1");
    assert(dec(0) == seq!['0']);
    assert(dec(1) == seq!['1']);
    assert("0"@ == int_dec(0));
    assert("-1"@ == int_dec(-1));
    assert(" = sub "@ == " = "@ + "sub"@ + " "@);
    assert(" 0, "@ == " "@ + "0"@ + ", "@);
    assert(" = xor i1 "@ == " = "@ + "xor"@ + " "@ + "i1"@ + " "@);
    assert(", true"@ == ", "@ + "true"@);
    assert(" = icmp eq i64 "@ == " = "@ + "icmp eq"@ + " "@ + "i64"@ + " "@);
    assert(", 0"@ == ", "@ + "0"@);
    assert(" = xor "@ == " = "@ + "xor"@ + " "@);
    assert(", -1"@ == ", "@ + "-1"@);
    let n = g.label_counter;
    lemma_wrote_nothing(g);
    lemma_then_label(g, g, no_code());
    let (g1, tmp) = g.fresh_label();
    let c = unop_instr(n, op, i, ty);
    let line = match op {
        UnOp::Neg => "%"@ + tmp + " = sub "@ + ty + " 0, "@ + i,
        UnOp::Not => if ty == "i1"@ {
            "%"@ + tmp + " = xor i1 "@ + i + ", true"@
        } else {
            "%"@ + tmp + " = icmp eq i64 "@ + i + ", 0"@
        },
        UnOp::BitNot => "%"@ + tmp + " = xor "@ + ty + " "@ + i + ", -1"@,
    };
    assert(line == instr_text(c));
    lemma_then(g, g1, no_code(), c, line);
}

/// The code for an operator in front of an integer or a truth value computes the operator.
pub proof fn lemma_unary_operator(g: Gen, op: UnOp, i: Text, ty: Text)
    requires
        int_type(ty),
        g.label_counter < usize::MAX,
        older(i, g.label_counter),
    ensures
        ({
            let n = g.label_counter;
            let (h, r) = g.emit_unop(op, i, ty);
            &&& h == (Gen { label_counter: n + 1, output: h.output, ..g })
            &&& r.0 == register(n)
            &&& r.1 == (if op is Not {
                "i1"@
            } else {
                ty
            })
            &&& exists|code: Seq<Instr>| #[trigger] wrote(g, h, code) && computes_unary(code, n, bits(ty), op, i, ty, r.0)
        }),
{
    broadcast use group_machine;

    let n = g.label_counter;
    lemma_int_type(ty);
    lemma_unop_wrote(g, op, i, ty);
    let c = unop_instr(n, op, i, ty);
    let code = no_code().push(c);
    reveal_strlit("true");
    assert("true"@[0] == 't');
    assert forall|w: World, m: Machine|
        {
            let after = #[trigger] run(w, code, m);
            let x = int_in(value(w, m, i));
            let result = unary_value(bits(ty), op, x);
            &&& kept(m, after, n)
            &&& (ty == "i1"@ ==> x == 0 || x == 1) && result is Some ==> value(w, after, register(n)) == Value::Int(
                result->0,
            )
        } by {
        lemma_number_is_itself(w, m, 0);
        lemma_number_is_itself(w, m, -1);
        lemma_xor(int_in(value(w, m, i)));
    }
    assert(computes_unary(code, n, bits(ty), op, i, ty, register(n)));
}

/// The code leaves the value of `op i` in `r`, and keeps what is older than `from`.
pub open spec fn computes_unary(
    code: Seq<Instr>,
    from: nat,
    n: nat,
    op: UnOp,
    i: Text,
    ty: Text,
    r: Text,
) -> bool {
    forall|w: World, m: Machine|
        {
            let after = #[trigger] run(w, code, m);
            let x = int_in(value(w, m, i));
            let result = unary_value(n, op, x);
            &&& kept(m, after, from)
            &&& (ty == "i1"@ ==> x == 0 || x == 1) && result is Some ==> value(w, after, r) == Value::Int(result->0)
        }
}

} // verus!
