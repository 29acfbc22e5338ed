//! What the code for variables does: what is stored under a name is what is read under it.

use vstd::prelude::*;

use crate::codegen::llvm::meaning::{
    bits, cut, fits, group_machine, instr_text, int_in, kept, lemma_number_is_itself, lemma_older_on, lemma_undefined,
    lemma_wrote_nothing, loaded, no_code, numbering, older, opcode_text, parts_in, real_in, register, regs_kept, run,
    stored, truth, value, wrote, Cast, Instr, Machine, Opcode, Value, World,
};
use crate::codegen::llvm::names::{alloca_name, nullable, union_type, width};
use crate::codegen::llvm::operators::{lemma_then, lemma_then_label};
use crate::codegen::llvm::state::Gen;
use crate::scan::{begins, ends, is_digit, lemma_dec_reads_back};
use crate::syntax::ast::{BinOp, Expr, ExprNode};
use crate::table::{lemma_slot, lemma_slot_is, lookup, put, slot};
use crate::text::{dec, int_dec, Text};

verus! {

// ---------------------------------------------------------------------------------------------
// Slots
// ---------------------------------------------------------------------------------------------
/// What is put under a key is found under it.
pub proof fn lemma_put_found<V>(t: Seq<(Text, V)>, k: Text, v: V)
    ensures
        lookup(put(t, k, v), k) == Some(v),
{
    let u = put(t, k, v);
    lemma_slot(t, k);
    let at = if slot(t, k) >= 0 {
        slot(t, k)
    } else {
        t.len() as int
    };
    assert forall|j: int| 0 <= j < at implies (#[trigger] u[j]).0 != k by {
        assert(t[j].0 != k);
    }
    lemma_slot_is(u, k, at);
}

/// The name of a slot is no register with a number.
pub proof fn lemma_slot_name(name: Text)
    ensures
        alloca_name(name).len() > 0,
        alloca_name(name)[0] == '%',
        older(alloca_name(name), 0),
{
    reveal_strlit("%");
    reveal_strlit(".ptr");
    reveal_strlit("_");
    let p = alloca_name(name);
    assert(p.last() == 'r');
    assert forall|k: nat| k >= 0 implies !ends(p, #[trigger] numbering(k)) by {
        if ends(p, numbering(k)) {
            lemma_dec_reads_back(k);
            assert(p.skip(p.len() - numbering(k).len()).last() == p.last());
            assert(numbering(k).last() == dec(k).last());
            assert(is_digit(dec(k)[dec(k).len() - 1]));
        }
    }
}

/// What only changes names writes nothing.
pub proof fn lemma_wrote_same(g: Gen, h: Gen, k: Gen, code: Seq<Instr>)
    requires
        wrote(g, h, code),
        k.output == h.output,
        k.indent == h.indent,
    ensures
        wrote(g, k, code),
{
    reveal(wrote);
}

/// The slot of the variable holds what `val` stands for, after the code.
pub open spec fn keeps_value(code: Seq<Instr>, h: Gen, name: Text, val: Text) -> bool {
    forall|w: World, m: Machine|
        {
            let after = #[trigger] run(w, code, m);
            loaded(after.memory, value(w, after, h.var_slot(name)->0)) == value(w, m, val)
        }
}

proof fn lemma_new_slot(g: Gen, h: Gen, p: Text, ty: Text, val: Text)
    requires
        wrote(g, h, no_code()),
        p.len() > 0,
        p[0] == '%',
        val != p,
    ensures
        ({
            let h1 = h.e(p + " = alloca "@ + ty + ", align 8"@);
            let h2 = h1.e("store "@ + ty + " "@ + val + ", ptr "@ + p);
            let code = no_code().push(Instr::Alloca { to: p, ty }).push(Instr::Store { ty, a: val, at: p });
            &&& wrote(g, h2, code)
            &&& h2 == (Gen { output: h2.output, ..h })
            &&& forall|w: World, m: Machine|
                {
                    let after = #[trigger] run(w, code, m);
                    &&& loaded(after.memory, value(w, after, p)) == value(w, m, val)
                    &&& after.calls == m.calls
                }
        }),
{
    broadcast use group_machine;

    let i1 = Instr::Alloca { to: p, ty };
    let l1 = p + " = alloca "@ + ty + ", align 8"@;
    lemma_then(g, h, no_code(), i1, l1);
    let i2 = Instr::Store { ty, a: val, at: p };
    let l2 = "store "@ + ty + " "@ + val + ", ptr "@ + p;
    lemma_then(g, h.e(l1), no_code().push(i1), i2, l2);
}

/// A name that is bound to a value has a slot that holds the value, and the type of the value.
pub proof fn lemma_bound(g: Gen, name: Text, val: Text, ty: Text)
    requires
        val != alloca_name(name),
    ensures
        ({
            let h = g.bind_value(name, val, ty);
            &&& h.var_slot(name) is Some
            &&& h.val_ty(name) == ty
            &&& exists|code: Seq<Instr>| #[trigger] wrote(g, h, code) && keeps_value(code, h, name, val)
        }),
{
    reveal(Gen::set_var_type);
    reveal(Gen::set_var_alloca);
    lemma_slot_name(name);
    let p = alloca_name(name);
    lemma_put_found(g.var_types, name, ty);
    lemma_put_found(g.var_alloca, name, p);
    lemma_wrote_nothing(g);
    let (g1, ptr) = g.bind_var(name, ty);
    lemma_wrote_same(g, g, g1, no_code());
    lemma_new_slot(g, g1, p, ty, val);
    let code = no_code().push(Instr::Alloca { to: p, ty }).push(Instr::Store { ty, a: val, at: p });
    assert(keeps_value(code, g.bind_value(name, val, ty), name, val));
}

/// A parameter has a slot that holds the argument with its number.
pub proof fn lemma_parameter(g: Gen, name: Text, ty: Text, i: nat)
    requires
        "%"@ + dec(i) != alloca_name(name),
    ensures
        ({
            let h = g.store_param(name, ty, i);
            &&& h.var_slot(name) is Some
            &&& h.val_ty(name) == ty
            &&& exists|code: Seq<Instr>| #[trigger] wrote(g, h, code) && keeps_value(code, h, name, "%"@ + dec(i))
        }),
{
    reveal_strlit(" %");
    reveal_strlit(" ");
    reveal_strlit("%");
    assert(" %"@ == " "@ + "%"@);
    let p = alloca_name(name);
    assert("store "@ + ty + " %"@ + dec(i) + ", ptr "@ + p == "store "@ + ty + " "@ + ("%"@ + dec(i)) + ", ptr "@ + p);
    lemma_bound(g, name, "%"@ + dec(i), ty);
    assert(g.store_param(name, ty, i) == g.bind_value(name, "%"@ + dec(i), ty));
}

/// A name in a list pattern is bound to the part of a tuple at its place.
pub proof fn lemma_element_bound(g: Gen, name: Text, val: Text, ty: Text, idx: nat)
    requires
        begins(ty, "%tuple."@),
        g.label_counter < usize::MAX,
        older(val, g.label_counter),
        val != alloca_name(name),
    ensures
        ({
            let h = g.bind_element(name, val, ty, idx);
            &&& h.var_slot(name) is Some
            &&& exists|code: Seq<Instr>| #[trigger]
                wrote(g, h, code) && forall|w: World, m: Machine|
                    {
                        let after = #[trigger] run(w, code, m);
                        loaded(after.memory, value(w, after, h.var_slot(name)->0)) == parts_in(value(w, m, val))[idx as int]
                    }
        }),
{
    broadcast use group_machine;

    reveal(Gen::set_var_type);
    reveal(Gen::set_var_alloca);
    reveal_strlit(" = alloca i64, align 8");
    reveal_strlit(" = alloca ");
    reveal_strlit("i64");
    reveal_strlit(", align 8");
    reveal_strlit("store i64 %");
    reveal_strlit("store ");
    reveal_strlit(" ");
    reveal_strlit("%");
    lemma_slot_name(name);
    let n = g.label_counter;
    let p = alloca_name(name);
    lemma_older_on(p, 0, n);
    lemma_put_found(g.var_alloca, name, p);
    lemma_wrote_nothing(g);
    let (g1, ptr) = g.bind_var(name, "i64"@);
    lemma_wrote_same(g, g, g1, no_code());
    let i1 = Instr::Alloca { to: p, ty: "i64"@ };
    let l1 = p + " = alloca i64, align 8"@;
    assert(" = alloca i64, align 8"@ == " = alloca "@ + "i64"@ + ", align 8"@);
    assert(l1 == instr_text(i1));
    lemma_then(g, g1, no_code(), i1, l1);
    let g2 = g1.e(l1);
    let c1 = no_code().push(i1);
    lemma_then_label(g, g2, c1);
    let (g3, f) = g2.fresh_label();
    let i2 = Instr::Extract { to: register(n), ty, a: val, index: idx };
    let l2 = "%"@ + f + " = extractvalue "@ + ty + " "@ + val + ", "@ + dec(idx);
    assert(l2 == instr_text(i2));
    lemma_then(g, g3, c1, i2, l2);
    let g4 = g3.e(l2);
    let c2 = c1.push(i2);
    let i3 = Instr::Store { ty: "i64"@, a: register(n), at: p };
    let l3 = "store i64 %"@ + f + ", ptr "@ + p;
    assert("store i64 %"@ == "store "@ + "i64"@ + " "@ + "%"@);
    assert(l3 == instr_text(i3));
    lemma_then(g, g4, c2, i3, l3);
    let code = c2.push(i3);
    assert(wrote(g, g.bind_element(name, val, ty, idx), code));
}

/// A part of a value that a pattern takes apart: the payload of a variant is its second part, a field of a struct
/// the part at its place.
pub proof fn lemma_parts_taken(g: Gen, val: Text, ty: Text, idx: nat)
    requires
        g.label_counter < usize::MAX,
        older(val, g.label_counter),
    ensures
        ({
            let (h, r) = g.pattern_field(val, ty, idx);
            exists|code: Seq<Instr>| #[trigger]
                wrote(g, h, code) && forall|w: World, m: Machine|
                    {
                        let after = #[trigger] run(w, code, m);
                        &&& value(w, after, r) == parts_in(value(w, m, val))[idx as int]
                        &&& kept(m, after, g.label_counter)
                    }
        }),
        ({
            let (h, r) = g.variant_value(val);
            exists|code: Seq<Instr>| #[trigger]
                wrote(g, h, code) && forall|w: World, m: Machine|
                    {
                        let after = #[trigger] run(w, code, m);
                        &&& value(w, after, r) == parts_in(value(w, m, val))[1]
                        &&& kept(m, after, g.label_counter)
                    }
        }),
{
    broadcast use group_machine;

    reveal_strlit(" = extractvalue %yk_variant ");
    reveal_strlit(" = extractvalue ");
    reveal_strlit("%yk_variant");
    reveal_strlit(" ");
    reveal_strlit(", 1");
    reveal_strlit(", ");
    let n = g.label_counter;
    lemma_wrote_nothing(g);
    lemma_then_label(g, g, no_code());
    let (g1, f) = g.fresh_label();
    let i = Instr::Extract { to: register(n), ty, a: val, index: idx };
    let l = "%"@ + f + " = extractvalue "@ + ty + " "@ + val + ", "@ + dec(idx);
    assert(l == instr_text(i));
    lemma_then(g, g1, no_code(), i, l);
    assert(wrote(g, g.pattern_field(val, ty, idx).0, no_code().push(i)));
    let j = Instr::Extract { to: register(n), ty: "%yk_variant"@, a: val, index: 1 };
    let k = "%"@ + f + " = extractvalue %yk_variant "@ + val + ", 1"@;
    assert(dec(1) == seq!['1']);
    assert(" = extractvalue %yk_variant "@ == " = extractvalue "@ + "%yk_variant"@ + " "@);
    assert(", 1"@ == ", "@ + dec(1));
    assert(k == instr_text(j));
    lemma_then(g, g1, no_code(), j, k);
    assert(wrote(g, g.variant_value(val).0, no_code().push(j)));
}

// ---------------------------------------------------------------------------------------------
// Declarations and assignments
// ---------------------------------------------------------------------------------------------
/// A type whose values are stored as they are.
pub open spec fn plain_type(ty: Text) -> bool {
    !nullable(ty) && !union_type(ty) && !begins(ty, "%iface."@)
}

/// A declared variable has a slot that holds the value it is declared with.
pub proof fn lemma_declared(g: Gen, name: Text, ty: Text, val: Text, is_null: bool)
    requires
        plain_type(ty),
        val != alloca_name(name),
    ensures
        ({
            let h = g.declare(name, ty, None, val, ty, is_null);
            &&& h.var_slot(name) is Some
            &&& h.val_ty(name) == ty
            &&& exists|code: Seq<Instr>| #[trigger] wrote(g, h, code) && keeps_value(code, h, name, val)
        }),
{
    reveal_strlit("i64");
    reveal_strlit("i1");
    assert("i64"@.len() == 3);
    assert("i1"@.len() == 2);
    lemma_bound(g, name, val, ty);
    assert(g.declare(name, ty, None, val, ty, is_null) == g.bind_value(name, val, ty));
}

/// An assignment puts the value into the slot of the variable.
pub proof fn lemma_assigned(g: Gen, name: Text, val: Text, is_null: bool)
    requires
        g.var_slot(name) is Some,
        plain_type(g.val_ty(name)),
        g.val_ty(name) != "i1"@,
    ensures
        ({
            let h = g.assign(name, val, g.val_ty(name), false, is_null);
            &&& h.var_slot(name) == g.var_slot(name)
            &&& exists|code: Seq<Instr>| #[trigger]
                wrote(g, h, code) && forall|w: World, m: Machine|
                    {
                        let after = #[trigger] run(w, code, m);
                        &&& after.memory == stored(m.memory, value(w, m, g.var_slot(name)->0), value(w, m, val))
                        &&& after.regs == m.regs
                    }
        }),
{
    broadcast use group_machine;

    let p = g.var_slot(name)->0;
    let ty = g.val_ty(name);
    lemma_wrote_nothing(g);
    let i = Instr::Store { ty, a: val, at: p };
    let l = "store "@ + ty + " "@ + val + ", ptr "@ + p;
    lemma_then(g, g, no_code(), i, l);
    assert(g.assign(name, val, ty, false, is_null) == g.e(l));
    assert(wrote(g, g.e(l), no_code().push(i)));
}

/// An assignment inside an expression puts the right value into the place of the left one, and is the right value.
pub proof fn lemma_assignment(g: Gen, lc: Text, ty: Text, rc: Text, tmp: Text, target: Text)
    ensures
        ({
            let (h, r) = g.plain_op(BinOp::Assign, lc, ty, rc, tmp, target);
            &&& r == (rc, ty)
            &&& exists|code: Seq<Instr>| #[trigger]
                wrote(g, h, code) && forall|w: World, m: Machine|
                    {
                        let after = #[trigger] run(w, code, m);
                        &&& after.memory == stored(m.memory, value(w, m, target), value(w, m, rc))
                        &&& after.regs == m.regs
                    }
        }),
{
    broadcast use group_machine;

    lemma_wrote_nothing(g);
    let i = Instr::Store { ty, a: rc, at: target };
    let l = "store "@ + ty + " "@ + rc + ", ptr "@ + target;
    lemma_then(g, g, no_code(), i, l);
    assert(g.plain_op(BinOp::Assign, lc, ty, rc, tmp, target) == (g.e(l), (rc, ty)));
    let code = no_code().push(i);
    assert forall|w: World, m: Machine|
        {
            let after = #[trigger] run(w, code, m);
            &&& after.memory == stored(m.memory, value(w, m, target), value(w, m, rc))
            &&& after.regs == m.regs
        } by {
    }
    assert(wrote(g, g.plain_op(BinOp::Assign, lc, ty, rc, tmp, target).0, code));
}

/// A variable of integers that is stepped up or down.
pub open spec fn stepped(g: Gen, target: Text, up: bool) -> (Gen, (Text, Text)) {
    if up {
        g.step_var("i64"@, target, "fadd"@, "add"@)
    } else {
        g.step_var("i64"@, target, "fsub"@, "sub"@)
    }
}

/// The expressions that step a variable step it: one up, the other down.
pub proof fn lemma_steps(g: Gen, e: ExprNode, name: Text)
    requires
        e.value is PostInc || e.value is PostDec,
        ({
            let a = if e.value is PostInc {
                *e.value->PostInc_0
            } else {
                *e.value->PostDec_0
            };
            a.value is Ident && a.value->Ident_0@ == name
        }),
        !g.has_object(name),
        g.var_slot(name) is Some,
        g.val_ty(name) == "i64"@,
    ensures
        g.compile_expr(e) == stepped(g.load_name(name).0, g.var_slot(name)->0, e.value is PostInc),
{
    reveal(Gen::e);
    reveal(Gen::next_number);
    match e.value {
        Expr::PostInc(a) => {
            assert(g.compile_expr(*a) == g.load_name(name));
        },
        Expr::PostDec(a) => {
            assert(g.compile_expr(*a) == g.load_name(name));
        },
        _ => {},
    }
}

/// Stepping an integer variable leaves the value before as the value, and the next higher or lower one in the slot.
pub proof fn lemma_step(g: Gen, target: Text, up: bool)
    requires
        g.label_counter + 2 <= usize::MAX,
        older(target, g.label_counter),
    ensures
        ({
            let n = g.label_counter;
            let (h, r) = stepped(g, target, up);
            exists|code: Seq<Instr>| #[trigger]
                wrote(g, h, code) && forall|w: World, m: Machine|
                    {
                        let after = #[trigger] run(w, code, m);
                        let at = value(w, m, target);
                        let x = int_in(loaded(m.memory, at));
                        let y = if up {
                            x + 1
                        } else {
                            x - 1
                        };
                        &&& value(w, after, r.0) == loaded(m.memory, at)
                        &&& fits(64, y) ==> after.memory == stored(m.memory, at, Value::Int(y))
                        &&& regs_kept(m, after, n)
                    }
        }),
{
    broadcast use group_machine;

    reveal_strlit("double");
    reveal_strlit("i64");
    reveal_strlit(" nsw ");
    reveal_strlit(" nsw");
    reveal_strlit(" ");
    reveal_strlit("add");
    reveal_strlit("sub");
    reveal_strlit("add nsw");
    reveal_strlit("sub nsw");
    reveal_strlit(" = ");
    reveal_strlit(", 1");
    reveal_strlit(", ");
    reveal_strlit("1");
    reveal_strlit(" %");
    reveal_strlit("%");
    let n = g.label_counter;
    let instr = if up {
        "add"@
    } else {
        "sub"@
    };
    let op = if up {
        Opcode::AddNsw
    } else {
        Opcode::SubNsw
    };
    assert("i64"@[0] == 'i');
    assert("double"@[0] == 'd');
    assert(dec(1) == seq!['1']);
    assert(int_dec(1) == "1"@);
    assert(", 1"@ == ", "@ + "1"@);
    assert(" %"@ == " "@ + "%"@);
    assert(instr + " nsw "@ == opcode_text(op) + " "@);
    lemma_int_bits();
    lemma_wrote_nothing(g);
    lemma_then_label(g, g, no_code());
    let (g1, o) = g.fresh_label();
    let i1 = Instr::Load { to: register(n), ty: "i64"@, at: target };
    let l1 = "%"@ + o + " = load "@ + "i64"@ + ", ptr "@ + target;
    assert(l1 == instr_text(i1));
    lemma_then(g, g1, no_code(), i1, l1);
    let g2 = g1.e(l1);
    let c1 = no_code().push(i1);
    lemma_then_label(g, g2, c1);
    let (g3, v) = g2.fresh_label();
    let i2 = Instr::Binary { to: register(n + 1), op, ty: "i64"@, a: register(n), b: int_dec(1) };
    let l2 = "%"@ + v + " = "@ + instr + " nsw "@ + "i64"@ + " %"@ + o + ", 1"@;
    assert(l2 == "%"@ + v + " = "@ + (instr + " nsw "@) + "i64"@ + " "@ + ("%"@ + o) + ", "@ + "1"@);
    assert(l2 == instr_text(i2));
    lemma_then(g, g3, c1, i2, l2);
    let g4 = g3.e(l2);
    let c2 = c1.push(i2);
    let i3 = Instr::Store { ty: "i64"@, a: register(n + 1), at: target };
    let l3 = "store "@ + "i64"@ + " %"@ + v + ", ptr "@ + target;
    assert(l3 == "store "@ + "i64"@ + " "@ + ("%"@ + v) + ", ptr "@ + target);
    assert(l3 == instr_text(i3));
    lemma_then(g, g4, c2, i3, l3);
    let code = c2.push(i3);
    let h = stepped(g, target, up).0;
    assert(h == g4.e(l3));
    assert forall|w: World, m: Machine|
        {
            let after = #[trigger] run(w, code, m);
            let at = value(w, m, target);
            let x = int_in(loaded(m.memory, at));
            let y = if up {
                x + 1
            } else {
                x - 1
            };
            &&& value(w, after, register(n)) == loaded(m.memory, at)
            &&& fits(64, y) ==> after.memory == stored(m.memory, at, Value::Int(y))
            &&& regs_kept(m, after, n)
        } by {
        lemma_number_is_itself(w, run(w, c1, m), 1);
    }
    assert(wrote(g, h, code));
}

/// The width of a whole integer.
pub proof fn lemma_int_bits()
    ensures
        bits("i64"@) == 64,
{
    reveal_strlit("i64");
    reveal_strlit("i1");
    reveal_strlit("i8");
    reveal_strlit("i16");
    reveal_strlit("i32");
    assert("i64"@.len() == 3 && "i1"@.len() == 2 && "i8"@.len() == 2);
    assert("i64"@[1] == '6' && "i16"@[1] == '1' && "i32"@[1] == '3');
}

// ---------------------------------------------------------------------------------------------
// Conversions
// ---------------------------------------------------------------------------------------------
/// What a number is as a number of another type: an integer becomes the real number that it is, a real number the
/// integer that it is cut to, a number is true where it is not zero, a truth value is one or zero, an integer keeps
/// its last bits in a narrower type, and itself in a wider one.
pub open spec fn cast_value(w: World, v: Value, ty: Text, target: Text) -> Value {
    if ty == "double"@ {
        if target == "i1"@ {
            Value::Int(truth((w.test)(BinOp::Ne, real_in(v), (w.literal)("0.0"@))))
        } else {
            Value::Int((w.int_of)(real_in(v)))
        }
    } else if target == "double"@ {
        Value::Real((w.real_of)(int_in(v)))
    } else if target == "i1"@ {
        Value::Int(truth(int_in(v) != 0))
    } else if width(ty) > width(target) {
        Value::Int(cut(int_in(v), bits(target)))
    } else {
        v
    }
}

/// An integer type that is no truth value.
pub open spec fn whole_type(ty: Text) -> bool {
    ty == "i8"@ || ty == "i16"@ || ty == "i32"@ || ty == "i64"@
}

spec fn cast_code(n: nat, val: Text, ty: Text, target: Text) -> Seq<Instr> {
    if ty == "double"@ {
        if target == "i1"@ {
            no_code().push(Instr::Binary { to: register(n), op: Opcode::RealOne, ty, a: val, b: "0.0"@ })
        } else {
            no_code().push(Instr::Convert { to: register(n), op: Cast::Fptosi, from: ty, a: val, into: target })
        }
    } else if target == "double"@ {
        no_code().push(Instr::Convert { to: register(n), op: Cast::Sitofp, from: ty, a: val, into: target })
    } else if target == "i1"@ {
        no_code().push(Instr::Binary { to: register(n), op: Opcode::IntNe, ty, a: val, b: int_dec(0) })
    } else if width(ty) < width(target) {
        no_code().push(Instr::Convert { to: register(n), op: Cast::Sext, from: ty, a: val, into: target })
    } else if width(ty) > width(target) {
        no_code().push(Instr::Convert { to: register(n), op: Cast::Trunc, from: ty, a: val, into: target })
    } else {
        no_code()
    }
}

proof fn lemma_type_names()
    ensures
        "double"@ != "i1"@,
        "double"@ != "i8"@,
        "double"@ != "i16"@,
        "double"@ != "i32"@,
        "double"@ != "i64"@,
        "i1"@ != "i8"@,
        "i1"@ != "i16"@,
        "i1"@ != "i32"@,
        "i1"@ != "i64"@,
        "i8"@ != "i16"@,
        "i8"@ != "i32"@,
        "i8"@ != "i64"@,
        "i16"@ != "i32"@,
        "i16"@ != "i64"@,
        "i32"@ != "i64"@,
        begins("i8"@, "i"@),
        begins("i16"@, "i"@),
        begins("i32"@, "i"@),
        begins("i64"@, "i"@),
{
    reveal_strlit("double");
    reveal_strlit("i1");
    reveal_strlit("i8");
    reveal_strlit("i16");
    reveal_strlit("i32");
    reveal_strlit("i64");
    reveal_strlit("i");
    assert("double"@[0] == 'd');
    assert("i1"@[0] == 'i' && "i1"@[1] == '1' && "i1"@.len() == 2);
    assert("i8"@[0] == 'i' && "i8"@[1] == '8' && "i8"@.len() == 2);
    assert("i16"@[0] == 'i' && "i16"@[1] == '1' && "i16"@.len() == 3);
    assert("i32"@[0] == 'i' && "i32"@[1] == '3' && "i32"@.len() == 3);
    assert("i64"@[0] == 'i' && "i64"@[1] == '6' && "i64"@.len() == 3);
    assert("i8"@.take(1) == "i"@);
    assert("i16"@.take(1) == "i"@);
    assert("i32"@.take(1) == "i"@);
    assert("i64"@.take(1) == "i"@);
}

proof fn lemma_cast_wrote(g: Gen, val: Text, ty: Text, target: Text)
    requires
        whole_type(ty) || ty == "double"@,
        whole_type(target) || target == "i1"@ || (target == "double"@ && ty != "double"@),
        g.label_counter < usize::MAX,
    ensures
        ({
            let n = g.label_counter;
            let (h, r) = g.emit_cast(val, ty, target);
            let code = cast_code(n, val, ty, target);
            &&& wrote(g, h, code)
            &&& r == (if code == no_code() {
                val
            } else {
                register(n)
            }, target)
        }),
{
    reveal_strlit(" = ");
    reveal_strlit("sitofp");
    reveal_strlit(" ");
    reveal_strlit("fptosi");
    reveal_strlit("icmp ne");
    reveal_strlit("fcmp one");
    reveal_strlit("sext");
    reveal_strlit("trunc");
    reveal_strlit(", ");
    reveal_strlit("0.0");
    reveal_strlit("0");
    lemma_type_names();
    assert(dec(0) == seq!['0']);
    assert("0"@ == int_dec(0));
    let n = g.label_counter;
    lemma_wrote_nothing(g);
    lemma_then_label(g, g, no_code());
    let (g1, t) = g.fresh_label();
    let code = cast_code(n, val, ty, target);
    if code.len() > 0 {
        let i = code[0];
        assert(code == no_code().push(i));
        let l = instr_text(i);
        lemma_then(g, g1, no_code(), i, l);
        assert(code != no_code());
        assert(g.emit_cast(val, ty, target).0 == g1.e(l));
    }
}

/// A conversion gives the number of the other type that the value is.
pub proof fn lemma_conversion(g: Gen, val: Text, ty: Text, target: Text)
    requires
        whole_type(ty) || ty == "double"@,
        whole_type(target) || target == "i1"@ || (target == "double"@ && ty != "double"@),
        g.label_counter < usize::MAX,
        older(val, g.label_counter),
    ensures
        ({
            let (h, r) = g.emit_cast(val, ty, target);
            &&& r.1 == target
            &&& exists|code: Seq<Instr>| #[trigger]
                wrote(g, h, code) && forall|w: World, m: Machine|
                    {
                        let after = #[trigger] run(w, code, m);
                        let v = value(w, m, val);
                        &&& v is Int || ty == "double"@ ==> value(w, after, r.0) == cast_value(w, v, ty, target)
                        &&& kept(m, after, g.label_counter)
                    }
        }),
{
    broadcast use group_machine;

    let n = g.label_counter;
    let (h, r) = g.emit_cast(val, ty, target);
    lemma_type_names();
    lemma_cast_wrote(g, val, ty, target);
    let code = cast_code(n, val, ty, target);
    assert forall|w: World, m: Machine|
        {
            let after = #[trigger] run(w, code, m);
            let v = value(w, m, val);
            &&& v is Int || ty == "double"@ ==> value(w, after, r.0) == cast_value(w, v, ty, target)
            &&& kept(m, after, n)
        } by {
        lemma_number_is_itself(w, m, 0);
        lemma_zero_literal(w, m);
    }
    assert(wrote(g, h, code));
}

proof fn lemma_zero_literal(w: World, m: Machine)
    ensures
        value(w, m, "0.0"@) == Value::Real((w.literal)("0.0"@)),
{
    reveal_strlit("0.0");
    reveal_strlit("true");
    reveal_strlit("false");
    reveal_strlit("null");
    reveal_strlit("undef");
    reveal_strlit("zeroinitializer");
    reveal_strlit("-");
    assert("0.0"@[0] == '0' && "0.0"@[1] == '.');
    assert("true"@[0] == 't');
    assert("false"@[0] == 'f');
    assert("null"@[0] == 'n');
    assert("undef"@[0] == 'u');
    assert("zeroinitializer"@[0] == 'z');
    assert forall|n: int| #[trigger] int_dec(n) != "0.0"@ by {
        let x = (if n < 0 { -n } else { n }) as nat;
        lemma_dec_reads_back(x);
        if int_dec(n) == "0.0"@ {
            if n < 0 {
                assert(int_dec(n)[0] == '-');
            } else {
                assert(is_digit(dec(x)[1]));
            }
        }
    }
}

// ---------------------------------------------------------------------------------------------
// Variants
// ---------------------------------------------------------------------------------------------
/// A variant value is made of its tag and what it carries, in that order: the parts that a pattern tests and takes out.
pub proof fn lemma_variant_made(g: Gen, tag: i64, payload: Text)
    requires
        g.label_counter + 2 <= usize::MAX,
        older(payload, g.label_counter),
    ensures
        ({
            let (h, r) = g.make_variant(tag, payload);
            exists|code: Seq<Instr>| #[trigger]
                wrote(g, h, code) && forall|w: World, m: Machine|
                    {
                        let after = #[trigger] run(w, code, m);
                        &&& parts_in(value(w, after, r)) == seq![Value::Int(tag as int), value(w, m, payload)]
                        &&& kept(m, after, g.label_counter)
                    }
        }),
{
    broadcast use group_machine;

    reveal_strlit(" = insertvalue %yk_variant undef, i64 ");
    reveal_strlit(" = insertvalue ");
    reveal_strlit("%yk_variant");
    reveal_strlit(" ");
    reveal_strlit("undef");
    reveal_strlit(", ");
    reveal_strlit("i64");
    reveal_strlit(", 0");
    reveal_strlit(", 1");
    reveal_strlit(" = insertvalue %yk_variant %");
    reveal_strlit("%");
    reveal_strlit(", i64 ");
    let n = g.label_counter;
    assert(dec(0) == seq!['0']);
    assert(dec(1) == seq!['1']);
    assert(" = insertvalue %yk_variant undef, i64 "@ == " = insertvalue "@ + "%yk_variant"@ + " "@ + "undef"@ + ", "@
        + "i64"@ + " "@);
    assert(", 0"@ == ", "@ + dec(0));
    assert(", 1"@ == ", "@ + dec(1));
    assert(" = insertvalue %yk_variant %"@ == " = insertvalue "@ + "%yk_variant"@ + " "@ + "%"@);
    assert(", i64 "@ == ", "@ + "i64"@ + " "@);
    lemma_wrote_nothing(g);
    lemma_then_label(g, g, no_code());
    let (g1, a) = g.fresh_label();
    let i1 = Instr::Insert {
        to: register(n),
        ty: "%yk_variant"@,
        into: "undef"@,
        part_ty: "i64"@,
        a: int_dec(tag as int),
        index: 0,
    };
    let l1 = "%"@ + a + " = insertvalue %yk_variant undef, i64 "@ + int_dec(tag as int) + ", 0"@;
    assert(l1 == instr_text(i1));
    lemma_then(g, g1, no_code(), i1, l1);
    let g2 = g1.e(l1);
    let c1 = no_code().push(i1);
    lemma_then_label(g, g2, c1);
    let (g3, b) = g2.fresh_label();
    let i2 = Instr::Insert {
        to: register(n + 1),
        ty: "%yk_variant"@,
        into: register(n),
        part_ty: "i64"@,
        a: payload,
        index: 1,
    };
    let l2 = "%"@ + b + " = insertvalue %yk_variant %"@ + a + ", i64 "@ + payload + ", 1"@;
    assert(l2 == instr_text(i2));
    lemma_then(g, g3, c1, i2, l2);
    let code = c1.push(i2);
    assert(wrote(g, g.make_variant(tag, payload).0, code));
    assert forall|w: World, m: Machine|
        {
            let after = #[trigger] run(w, code, m);
            &&& parts_in(value(w, after, register(n + 1))) == seq![Value::Int(tag as int), value(w, m, payload)]
            &&& kept(m, after, n)
        } by {
        lemma_number_is_itself(w, m, tag as int);
        lemma_undefined(w, m);
        let after = run(w, code, m);
        assert(parts_in(value(w, after, register(n + 1))) =~= seq![Value::Int(tag as int), value(w, m, payload)]);
    }
}

} // verus!
