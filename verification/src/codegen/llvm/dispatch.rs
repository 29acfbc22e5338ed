//! What the code for a call of a method does: it calls the function that stands in the method table of the value,
//! at the place that the method has, and hands it the value and the arguments.

use vstd::prelude::*;

use crate::codegen::llvm::library::args_older;
use crate::codegen::llvm::meaning::{
    arguments, group_machine, instr_text, kept, lemma_arguments, lemma_undefined, lemma_value_kept,
    lemma_wrote_nothing, loaded, no_args, no_code, older, parts_in, put_part, register, regs_kept, run, value, wrote,
    Called, Cast, Instr, Machine, Value, World,
};
use crate::codegen::llvm::names::{dec_next, method_args, method_call_args, method_types, scoped_name, typed};
use crate::codegen::llvm::operators::{lemma_then, lemma_then_label};
use crate::codegen::llvm::state::Gen;
use crate::scan::begins;
use crate::text::{dec, Text};

verus! {

/// The receiver and the arguments of a method call.
pub open spec fn with_receiver(receiver: Text, args: Seq<(Text, Text)>) -> Seq<(Text, Text)> {
    seq![(receiver, "i64"@)] + args
}

/// The receiver comes first, then the arguments in their order.
proof fn lemma_receiver_first(receiver: Text, args: Seq<(Text, Text)>)
    ensures
        arguments(with_receiver(receiver, args)) == method_call_args(receiver, args),
{
    reveal_strlit("i64 ");
    reveal_strlit("i64");
    reveal_strlit(" ");
    assert("i64 "@ == "i64"@ + " "@);
    assert("i64 "@ + receiver == "i64"@ + " "@ + receiver);
    assert(typed(with_receiver(receiver, args)) == method_args(receiver, args));
}

/// The call hands over the value `v` by its address, then the arguments.
pub open spec fn hands_receiver(w: World, m: Machine, c: Called, v: Value, args: Seq<(Text, Text)>) -> bool {
    &&& c.args.len() == args.len() + 1
    &&& loaded(c.memory, c.args[0]) == v
    &&& forall|i: int| 0 <= i < args.len() ==> #[trigger] c.args[i + 1] == value(w, m, args[i].0)
}

/// The instructions that find the function of a method.
spec fn lookup_code(n: nat, o_val: Text, o_ty: Text, cls: Text, idx: nat) -> Seq<Instr> {
    no_code().push(Instr::Alloca { to: register(n), ty: o_ty }).push(
        Instr::Store { ty: o_ty, a: o_val, at: register(n) },
    ).push(Instr::Field { to: register(n + 1), ty: o_ty, at: register(n), index: 0 }).push(
        Instr::Load { to: register(n + 2), ty: "i64"@, at: register(n + 1) },
    ).push(
        Instr::Convert { to: register(n + 3), op: Cast::Inttoptr, from: "i64"@, a: register(n + 2), into: "ptr"@ },
    ).push(
        Instr::Field { to: register(n + 4), ty: "%class."@ + cls + ".vtable"@, at: register(n + 3), index: idx },
    ).push(Instr::Load { to: register(n + 5), ty: "ptr"@, at: register(n + 4) }).push(
        Instr::Convert { to: register(n + 6), op: Cast::Ptrtoint, from: "ptr"@, a: register(n), into: "i64"@ },
    )
}

proof fn lemma_lookup_texts()
    ensures
        ", ptr %"@ == ", ptr "@ + "%"@,
        ", i32 0, i32 0"@ == ", i32 0, i32 "@ + dec(0),
        " = load i64, ptr %"@ == " = load "@ + "i64"@ + ", ptr "@ + "%"@,
        " = inttoptr i64 %"@ == " = "@ + "inttoptr"@ + " "@ + "i64"@ + " "@ + "%"@,
        " to ptr"@ == " to "@ + "ptr"@,
        " = getelementptr inbounds %class."@ == " = getelementptr inbounds "@ + "%class."@,
        ".vtable, ptr %"@ == ".vtable"@ + ", ptr "@ + "%"@,
        " = load ptr, ptr %"@ == " = load "@ + "ptr"@ + ", ptr "@ + "%"@,
        " = ptrtoint ptr %"@ == " = "@ + "ptrtoint"@ + " "@ + "ptr"@ + " "@ + "%"@,
        " to i64"@ == " to "@ + "i64"@,
        ") %"@ == ") "@ + "%"@,
{
    reveal_strlit(", ptr %");
    reveal_strlit(", ptr ");
    reveal_strlit("%");
    reveal_strlit(", i32 0, i32 0");
    reveal_strlit(", i32 0, i32 ");
    reveal_strlit(" = load i64, ptr %");
    reveal_strlit(" = load ");
    reveal_strlit("i64");
    reveal_strlit(" = inttoptr i64 %");
    reveal_strlit(" = ");
    reveal_strlit("inttoptr");
    reveal_strlit(" ");
    reveal_strlit(" to ptr");
    reveal_strlit(" to ");
    reveal_strlit("ptr");
    reveal_strlit(" = getelementptr inbounds %class.");
    reveal_strlit(" = getelementptr inbounds ");
    reveal_strlit("%class.");
    reveal_strlit(".vtable, ptr %");
    reveal_strlit(".vtable");
    reveal_strlit(" = load ptr, ptr %");
    reveal_strlit(" = ptrtoint ptr %");
    reveal_strlit("ptrtoint");
    reveal_strlit(" to i64");
    reveal_strlit(") %");
    reveal_strlit(") ");
    assert(dec(0) == seq!['0']);
    assert(", ptr %"@ == ", ptr "@ + "%"@);
    assert(", i32 0, i32 0"@ == ", i32 0, i32 "@ + dec(0));
    assert(" = load i64, ptr %"@ == " = load "@ + "i64"@ + ", ptr "@ + "%"@);
    assert(" = inttoptr i64 %"@ == " = "@ + "inttoptr"@ + " "@ + "i64"@ + " "@ + "%"@);
    assert(" = getelementptr inbounds %class."@ == " = getelementptr inbounds "@ + "%class."@);
    assert(".vtable, ptr %"@ == ".vtable"@ + ", ptr "@ + "%"@);
    assert(" = load ptr, ptr %"@ == " = load "@ + "ptr"@ + ", ptr "@ + "%"@);
    assert(" = ptrtoint ptr %"@ == " = "@ + "ptrtoint"@ + " "@ + "ptr"@ + " "@ + "%"@);
}

#[verifier::rlimit(60)]
proof fn lemma_lookup_wrote(g: Gen, o_val: Text, o_ty: Text, cls: Text, idx: nat)
    requires
        g.label_counter + 8 <= usize::MAX,
    ensures
        ({
            let n = g.label_counter;
            let (g1, a) = g.fresh_label();
            let g2 = g1.e("%"@ + a + " = alloca "@ + o_ty + ", align 8"@);
            let g3 = g2.e("store "@ + o_ty + " "@ + o_val + ", ptr %"@ + a);
            let (g4, vp) = g3.fresh_label();
            let g5 = g4.e("%"@ + vp + " = getelementptr inbounds "@ + o_ty + ", ptr %"@ + a + ", i32 0, i32 0"@);
            let (g6, vt) = g5.fresh_label();
            let g7 = g6.e("%"@ + vt + " = load i64, ptr %"@ + vp);
            let (g8, tp) = g7.fresh_label();
            let g9 = g8.e("%"@ + tp + " = inttoptr i64 %"@ + vt + " to ptr"@);
            let (g10, mp) = g9.fresh_label();
            let g11 = g10.e(
                "%"@ + mp + " = getelementptr inbounds %class."@ + cls + ".vtable, ptr %"@ + tp + ", i32 0, i32 "@
                    + dec(idx),
            );
            let (g12, fp) = g11.fresh_label();
            let g13 = g12.e("%"@ + fp + " = load ptr, ptr %"@ + mp);
            let (g14, si) = g13.fresh_label();
            let g15 = g14.e("%"@ + si + " = ptrtoint ptr %"@ + a + " to i64"@);
            &&& wrote(g, g15, lookup_code(n, o_val, o_ty, cls, idx))
            &&& g15 == (Gen { label_counter: n + 7, output: g15.output, ..g })
            &&& "%"@ + fp == register(n + 5)
            &&& "%"@ + si == register(n + 6)
        }),
{
    lemma_lookup_texts();
    let n = g.label_counter;
    lemma_wrote_nothing(g);
    lemma_then_label(g, g, no_code());
    let (g1, a) = g.fresh_label();
    let i1 = Instr::Alloca { to: register(n), ty: o_ty };
    let l1 = "%"@ + a + " = alloca "@ + o_ty + ", align 8"@;
    assert(l1 == instr_text(i1));
    lemma_then(g, g1, no_code(), i1, l1);
    let g2 = g1.e(l1);
    let c1 = no_code().push(i1);
    let i2 = Instr::Store { ty: o_ty, a: o_val, at: register(n) };
    let l2 = "store "@ + o_ty + " "@ + o_val + ", ptr %"@ + a;
    assert(l2 == instr_text(i2));
    lemma_then(g, g2, c1, i2, l2);
    let g3 = g2.e(l2);
    let c2 = c1.push(i2);
    lemma_then_label(g, g3, c2);
    let (g4, vp) = g3.fresh_label();
    let i3 = Instr::Field { to: register(n + 1), ty: o_ty, at: register(n), index: 0 };
    let l3 = "%"@ + vp + " = getelementptr inbounds "@ + o_ty + ", ptr %"@ + a + ", i32 0, i32 0"@;
    assert(l3 == instr_text(i3));
    lemma_then(g, g4, c2, i3, l3);
    let g5 = g4.e(l3);
    let c3 = c2.push(i3);
    lemma_then_label(g, g5, c3);
    let (g6, vt) = g5.fresh_label();
    let i4 = Instr::Load { to: register(n + 2), ty: "i64"@, at: register(n + 1) };
    let l4 = "%"@ + vt + " = load i64, ptr %"@ + vp;
    assert(l4 == instr_text(i4));
    lemma_then(g, g6, c3, i4, l4);
    let g7 = g6.e(l4);
    let c4 = c3.push(i4);
    lemma_then_label(g, g7, c4);
    let (g8, tp) = g7.fresh_label();
    let i5 = Instr::Convert { to: register(n + 3), op: Cast::Inttoptr, from: "i64"@, a: register(n + 2), into: "ptr"@ };
    let l5 = "%"@ + tp + " = inttoptr i64 %"@ + vt + " to ptr"@;
    assert(l5 == instr_text(i5));
    lemma_then(g, g8, c4, i5, l5);
    let g9 = g8.e(l5);
    let c5 = c4.push(i5);
    lemma_then_label(g, g9, c5);
    let (g10, mp) = g9.fresh_label();
    let i6 = Instr::Field { to: register(n + 4), ty: "%class."@ + cls + ".vtable"@, at: register(n + 3), index: idx };
    let l6 = "%"@ + mp + " = getelementptr inbounds %class."@ + cls + ".vtable, ptr %"@ + tp + ", i32 0, i32 "@ + dec(
        idx,
    );
    assert(l6 == instr_text(i6));
    lemma_then(g, g10, c5, i6, l6);
    let g11 = g10.e(l6);
    let c6 = c5.push(i6);
    lemma_then_label(g, g11, c6);
    let (g12, fp) = g11.fresh_label();
    let i7 = Instr::Load { to: register(n + 5), ty: "ptr"@, at: register(n + 4) };
    let l7 = "%"@ + fp + " = load ptr, ptr %"@ + mp;
    assert(l7 == instr_text(i7));
    lemma_then(g, g12, c6, i7, l7);
    let g13 = g12.e(l7);
    let c7 = c6.push(i7);
    lemma_then_label(g, g13, c7);
    let (g14, si) = g13.fresh_label();
    let i8 = Instr::Convert { to: register(n + 6), op: Cast::Ptrtoint, from: "ptr"@, a: register(n), into: "i64"@ };
    let l8 = "%"@ + si + " = ptrtoint ptr %"@ + a + " to i64"@;
    assert(l8 == instr_text(i8));
    lemma_then(g, g14, c7, i8, l8);
}

proof fn lemma_lookup_runs(w: World, m: Machine, n: nat, o_val: Text, o_ty: Text, cls: Text, idx: nat)
    requires
        older(o_val, n),
        parts_in(value(w, m, o_val))[0] is Global,
    ensures
        ({
            let v = value(w, m, o_val);
            let at = run(w, lookup_code(n, o_val, o_ty, cls, idx), m);
            &&& value(w, at, register(n + 5)) == parts_in(m.memory[parts_in(v)[0]])[idx as int]
            &&& loaded(at.memory, value(w, at, register(n + 6))) == v
            &&& at.calls == m.calls
            &&& regs_kept(m, at, n)
        }),
{
    broadcast use group_machine;

}

/// The code for a call of a method of a class calls what stands in the method table of the value, at the place that
/// the method has in the table of the class, and hands it the value and the arguments in their order. The value
/// begins with the address of the table.
pub proof fn lemma_method_call(g: Gen, o_val: Text, o_ty: Text, cls: Text, field: Text, args: Seq<(Text, Text)>)
    requires
        g.class_method(cls, field) is Some,
        g.label_counter + 8 <= usize::MAX,
        older(o_val, g.label_counter),
        args_older(args, g.label_counter),
    ensures
        ({
            let (h, r) = g.class_method_call(o_val, o_ty, cls, field, args);
            let idx = (g.class_method(cls, field)->0).0;
            exists|code: Seq<Instr>| #[trigger]
                wrote(g, h, code) && forall|w: World, m: Machine|
                    {
                        let after = #[trigger] run(w, code, m);
                        let v = value(w, m, o_val);
                        let c = after.calls.last();
                        parts_in(v)[0] is Global ==> {
                            &&& after.calls == m.calls.push(c)
                            &&& c.function == parts_in(m.memory[parts_in(v)[0]])[idx as int]
                            &&& hands_receiver(w, m, c, v, args)
                            &&& r.1 != "void"@ ==> value(w, after, r.0) == (w.answer)(c)
                        }
                    }
        }),
{
    broadcast use group_machine;

    let n = g.label_counter;
    let (idx, f) = g.class_method(cls, field)->0;
    let (h, r) = g.class_method_call(o_val, o_ty, cls, field, args);
    lemma_lookup_texts();
    lemma_lookup_wrote(g, o_val, o_ty, cls, idx);
    let (g1, a) = g.fresh_label();
    let g2 = g1.e("%"@ + a + " = alloca "@ + o_ty + ", align 8"@);
    let g3 = g2.e("store "@ + o_ty + " "@ + o_val + ", ptr %"@ + a);
    let (g4, vp) = g3.fresh_label();
    let g5 = g4.e("%"@ + vp + " = getelementptr inbounds "@ + o_ty + ", ptr %"@ + a + ", i32 0, i32 0"@);
    let (g6, vt) = g5.fresh_label();
    let g7 = g6.e("%"@ + vt + " = load i64, ptr %"@ + vp);
    let (g8, tp) = g7.fresh_label();
    let g9 = g8.e("%"@ + tp + " = inttoptr i64 %"@ + vt + " to ptr"@);
    let (g10, mp) = g9.fresh_label();
    let g11 = g10.e(
        "%"@ + mp + " = getelementptr inbounds %class."@ + cls + ".vtable, ptr %"@ + tp + ", i32 0, i32 "@ + dec(idx),
    );
    let (g12, fp) = g11.fresh_label();
    let g13 = g12.e("%"@ + fp + " = load ptr, ptr %"@ + mp);
    let (g14, si) = g13.fresh_label();
    let g15 = g14.e("%"@ + si + " = ptrtoint ptr %"@ + a + " to i64"@);
    let pre = lookup_code(n, o_val, o_ty, cls, idx);
    let ret = g15.class_method_ret(cls, field);
    let ops = with_receiver(register(n + 6), args);
    let types = method_types(register(n + 6), args);
    lemma_receiver_first(register(n + 6), args);
    let list = method_call_args(register(n + 6), args);
    let code = if ret == "void"@ {
        let i = Instr::CallTypedVoid { types, function: register(n + 5), args: ops };
        let l = "call void ("@ + types + ") %"@ + fp + "("@ + list + ")"@;
        assert(l == instr_text(i));
        lemma_then(g, g15, pre, i, l);
        pre.push(i)
    } else {
        lemma_then_label(g, g15, pre);
        let (g16, t) = g15.fresh_label();
        let i = Instr::CallTyped { to: register(n + 7), ret, types, function: register(n + 5), args: ops };
        let l = "%"@ + t + " = call "@ + ret + " ("@ + types + ") %"@ + fp + "("@ + list + ")"@;
        assert(l == instr_text(i));
        lemma_then(g, g16, pre, i, l);
        pre.push(i)
    };
    assert(wrote(g, h, code));
    assert forall|w: World, m: Machine|
        {
            let after = #[trigger] run(w, code, m);
            let v = value(w, m, o_val);
            let c = after.calls.last();
            parts_in(v)[0] is Global ==> {
                &&& after.calls == m.calls.push(c)
                &&& c.function == parts_in(m.memory[parts_in(v)[0]])[idx as int]
                &&& hands_receiver(w, m, c, v, args)
                &&& r.1 != "void"@ ==> value(w, after, r.0) == (w.answer)(c)
            }
        } by {
        let v = value(w, m, o_val);
        if parts_in(v)[0] is Global {
            lemma_lookup_runs(w, m, n, o_val, o_ty, cls, idx);
            let at = run(w, pre, m);
            let after = run(w, code, m);
            let c = after.calls.last();
            assert(c.args[0] == value(w, at, ops[0].0));
            assert forall|i: int| 0 <= i < args.len() implies #[trigger] c.args[i + 1] == value(w, m, args[i].0) by {
                assert(ops[i + 1] == args[i]);
                assert(older(args[i].0, n));
                lemma_value_kept(w, m, at, n, args[i].0);
            }
        }
    }
}

/// A value of a class begins with the address of the method table of its class.
pub proof fn lemma_instance_has_its_table(g: Gen, name: Text)
    requires
        g.label_counter + 2 <= usize::MAX,
    ensures
        ({
            let (h, r) = g.with_vtable(name);
            exists|code: Seq<Instr>| #[trigger]
                wrote(g, h, code) && forall|w: World, m: Machine|
                    {
                        let after = #[trigger] run(w, code, m);
                        &&& parts_in(value(w, after, r)).len() == 1
                        &&& parts_in(value(w, after, r))[0] == Value::Global("@"@ + ("vtable."@ + name))
                        &&& kept(m, after, g.label_counter)
                    }
        }),
{
    broadcast use group_machine;

    reveal_strlit(" = ptrtoint %class.");
    reveal_strlit(" = ");
    reveal_strlit("ptrtoint");
    reveal_strlit(" ");
    reveal_strlit("%class.");
    reveal_strlit(".vtable* @vtable.");
    reveal_strlit(".vtable*");
    reveal_strlit("@");
    reveal_strlit("vtable.");
    reveal_strlit(" to i64");
    reveal_strlit(" to ");
    reveal_strlit("i64");
    reveal_strlit(" = insertvalue ");
    reveal_strlit(", ");
    reveal_strlit(" undef, i64 %");
    reveal_strlit("undef");
    reveal_strlit("%");
    reveal_strlit(", 0");
    let n = g.label_counter;
    assert(dec(0) == seq!['0']);
    assert(" = ptrtoint %class."@ == " = "@ + "ptrtoint"@ + " "@ + "%class."@);
    assert(".vtable* @vtable."@ == ".vtable*"@ + " "@ + ("@"@ + "vtable."@));
    assert(" to i64"@ == " to "@ + "i64"@);
    assert(" undef, i64 %"@ == " "@ + "undef"@ + ", "@ + "i64"@ + " "@ + "%"@);
    assert(", 0"@ == ", "@ + dec(0));
    lemma_wrote_nothing(g);
    lemma_then_label(g, g, no_code());
    let (g1, vt) = g.fresh_label();
    let i1 = Instr::Convert {
        to: register(n),
        op: Cast::Ptrtoint,
        from: "%class."@ + name + ".vtable*"@,
        a: "@"@ + ("vtable."@ + name),
        into: "i64"@,
    };
    let l1 = "%"@ + vt + " = ptrtoint %class."@ + name + ".vtable* @vtable."@ + name + " to i64"@;
    assert(l1 == "%"@ + vt + " = "@ + "ptrtoint"@ + " "@ + ("%class."@ + name + ".vtable*"@) + " "@ + ("@"@ + ("vtable."@
        + name)) + " to "@ + "i64"@);
    assert(l1 == instr_text(i1));
    lemma_then(g, g1, no_code(), i1, l1);
    let g2 = g1.e(l1);
    let c1 = no_code().push(i1);
    lemma_then_label(g, g2, c1);
    let (g3, t) = g2.fresh_label();
    let ty = "%class."@ + name;
    let i2 = Instr::Insert {
        to: register(n + 1),
        ty,
        into: "undef"@,
        part_ty: "i64"@,
        a: register(n),
        index: 0,
    };
    let l2 = "%"@ + t + " = insertvalue "@ + ty + " undef, i64 %"@ + vt + ", 0"@;
    assert(l2 == instr_text(i2));
    lemma_then(g, g3, c1, i2, l2);
    let code = c1.push(i2);
    assert(wrote(g, g.with_vtable(name).0, code));
    assert forall|w: World, m: Machine|
        {
            let after = #[trigger] run(w, code, m);
            &&& parts_in(value(w, after, register(n + 1))).len() == 1
            &&& parts_in(value(w, after, register(n + 1)))[0] == Value::Global("@"@ + ("vtable."@ + name))
            &&& kept(m, after, n)
        } by {
        lemma_undefined(w, run(w, c1, m));
    }
}

/// Reading a field of a class takes the part behind the method table, reading one of a struct or of an object the
/// part at its place.
pub proof fn lemma_field_read(g: Gen, o: Text, name: Text, field: Text)
    requires
        g.label_counter < usize::MAX,
        older(o, g.label_counter),
    ensures
        g.class_field(name, field) is Some ==> reads_part(
            g,
            g.emit_field(o, "%class."@ + name, field, false),
            o,
            (g.class_field(name, field)->0).0 + 1,
            (g.class_field(name, field)->0).1,
        ),
        g.object_field(name, field) is Some ==> reads_part(
            g,
            g.emit_field(o, "%object."@ + name, field, false),
            o,
            (g.object_field(name, field)->0).0,
            (g.object_field(name, field)->0).1,
        ),
        g.struct_field(name, field) is Some && g.tuple_signature("%struct."@ + name) is None ==> reads_part(
            g,
            g.emit_field(o, "%struct."@ + name, field, false),
            o,
            (g.struct_field(name, field)->0).0,
            (g.struct_field(name, field)->0).1,
        ),
{
    reveal_strlit("%class.");
    reveal_strlit("%object.");
    reveal_strlit("%struct.");
    reveal_strlit("%yk_string");
    reveal(Gen::fresh_label);
    assert("%class."@[1] == 'c' && "%object."@[1] == 'o' && "%struct."@[1] == 's' && "%yk_string"@[1] == 'y');
    let c = "%class."@ + name;
    let b = "%object."@ + name;
    let s = "%struct."@ + name;
    assert(c[1] == 'c' && b[1] == 'o' && s[1] == 's');
    assert(c.take(7) == "%class."@ && c.skip(7) == name);
    assert(b.take(8) == "%object."@ && b.skip(8) == name);
    assert(s.take(8) == "%struct."@ && s.skip(8) == name);
    if begins(c, "%struct."@) {
        assert(c.take(8)[1] == 's');
    }
    if begins(b, "%struct."@) {
        assert(b.take(8)[1] == 's');
    }
    if begins(b, "%class."@) {
        assert(b.take(7)[1] == 'c');
    }
    if g.class_field(name, field) is Some {
        let (idx, ft) = g.class_field(name, field)->0;
        lemma_extracted(g, c, o, idx + 1, ft);
    }
    if g.object_field(name, field) is Some {
        let (idx, ft) = g.object_field(name, field)->0;
        lemma_extracted(g, b, o, idx, ft);
    }
    if g.struct_field(name, field) is Some {
        let (idx, ft) = g.struct_field(name, field)->0;
        lemma_extracted(g, s, o, idx, ft);
    }
}

/// The code takes the part with a number out of a value, and says its type.
pub open spec fn reads_part(g: Gen, to: (Gen, (Text, Text)), o: Text, index: nat, ty: Text) -> bool {
    let (h, r) = to;
    &&& r.1 == ty
    &&& exists|code: Seq<Instr>| #[trigger]
        wrote(g, h, code) && forall|w: World, m: Machine|
            {
                let after = #[trigger] run(w, code, m);
                &&& value(w, after, r.0) == parts_in(value(w, m, o))[index as int]
                &&& kept(m, after, g.label_counter)
            }
}

proof fn lemma_extracted(g: Gen, ty: Text, o: Text, index: nat, ft: Text)
    requires
        g.label_counter < usize::MAX,
        older(o, g.label_counter),
    ensures
        reads_part(g, g.fresh_label().0.extract(g.fresh_label().1, ty, o, dec(index), ft), o, index, ft),
{
    broadcast use group_machine;

    let n = g.label_counter;
    lemma_wrote_nothing(g);
    lemma_then_label(g, g, no_code());
    let (g1, t) = g.fresh_label();
    let i = Instr::Extract { to: register(n), ty, a: o, index };
    let l = "%"@ + t + " = extractvalue "@ + ty + " "@ + o + ", "@ + dec(index);
    lemma_then(g, g1, no_code(), i, l);
    assert(wrote(g, g1.extract(t, ty, o, dec(index), ft).0, no_code().push(i)));
}

/// Putting a value into an aggregate sets the part with that number and keeps the others.
pub proof fn lemma_part_written(g: Gen, ty: Text, agg: Text, fty: Text, fval: Text, index: nat)
    requires
        g.label_counter < usize::MAX,
        older(agg, g.label_counter),
        older(fval, g.label_counter),
    ensures
        ({
            let n = g.label_counter;
            let (h, r) = g.insert_value(ty, agg, fty, fval, dec(index));
            let code = no_code().push(
                Instr::Insert { to: register(n), ty, into: agg, part_ty: fty, a: fval, index },
            );
            &&& wrote(g, h, code)
            &&& r == register(n)
            &&& h == (Gen { label_counter: n + 1, output: h.output, ..g })
            &&& forall|w: World, m: Machine|
                {
                    let after = #[trigger] run(w, code, m);
                    &&& value(w, after, r) == Value::Parts(
                        put_part(parts_in(value(w, m, agg)), index, value(w, m, fval)),
                    )
                    &&& kept(m, after, n)
                }
        }),
{
    broadcast use group_machine;

    let n = g.label_counter;
    lemma_wrote_nothing(g);
    lemma_then_label(g, g, no_code());
    let (g1, t) = g.fresh_label();
    let i = Instr::Insert { to: register(n), ty, into: agg, part_ty: fty, a: fval, index };
    let l = "%"@ + t + " = insertvalue "@ + ty + " "@ + agg + ", "@ + fty + " "@ + fval + ", "@ + dec(index);
    lemma_then(g, g1, no_code(), i, l);
}

// ---------------------------------------------------------------------------------------------
// Interfaces and objects
// ---------------------------------------------------------------------------------------------
/// The instructions that take an interface value apart.
spec fn interface_code(n: nat, o_val: Text, o_ty: Text, idx: nat) -> Seq<Instr> {
    no_code().push(Instr::Extract { to: register(n), ty: o_ty, a: o_val, index: 1 }).push(
        Instr::Extract { to: register(n + 1), ty: o_ty, a: o_val, index: 0 },
    ).push(
        Instr::Convert { to: register(n + 2), op: Cast::Ptrtoint, from: "ptr"@, a: register(n + 1), into: "i64"@ },
    ).push(Instr::Element { to: register(n + 3), at: register(n), index: idx }).push(
        Instr::Load { to: register(n + 4), ty: "ptr"@, at: register(n + 3) },
    )
}

proof fn lemma_interface_texts()
    ensures
        ", 1"@ == ", "@ + dec(1),
        ", 0"@ == ", "@ + dec(0),
        " = ptrtoint ptr %"@ == " = "@ + "ptrtoint"@ + " "@ + "ptr"@ + " "@ + "%"@,
        " to i64"@ == " to "@ + "i64"@,
        " = getelementptr inbounds ptr, ptr %"@ == " = getelementptr inbounds ptr, ptr "@ + "%"@,
        " = load ptr, ptr %"@ == " = load "@ + "ptr"@ + ", ptr "@ + "%"@,
{
    reveal_strlit(", 1");
    reveal_strlit(", ");
    reveal_strlit(", 0");
    reveal_strlit(" = ptrtoint ptr %");
    reveal_strlit(" = ");
    reveal_strlit("ptrtoint");
    reveal_strlit(" ");
    reveal_strlit("ptr");
    reveal_strlit("%");
    reveal_strlit(" to i64");
    reveal_strlit(" to ");
    reveal_strlit("i64");
    reveal_strlit(" = getelementptr inbounds ptr, ptr %");
    reveal_strlit(" = getelementptr inbounds ptr, ptr ");
    reveal_strlit(" = load ptr, ptr %");
    reveal_strlit(" = load ");
    reveal_strlit(", ptr ");
    assert(dec(0) == seq!['0']);
    assert(dec(1) == seq!['1']);
    assert(" = ptrtoint ptr %"@ == " = "@ + "ptrtoint"@ + " "@ + "ptr"@ + " "@ + "%"@);
    assert(" = load ptr, ptr %"@ == " = load "@ + "ptr"@ + ", ptr "@ + "%"@);
}

#[verifier::rlimit(40)]
proof fn lemma_interface_wrote(g: Gen, o_val: Text, o_ty: Text, idx: nat)
    requires
        g.label_counter + 6 <= usize::MAX,
    ensures
        ({
            let n = g.label_counter;
            let (g1, a) = g.fresh_label();
            let g2 = g1.e("%"@ + a + " = extractvalue "@ + o_ty + " "@ + o_val + ", 1"@);
            let (g3, b) = g2.fresh_label();
            let g4 = g3.e("%"@ + b + " = extractvalue "@ + o_ty + " "@ + o_val + ", 0"@);
            let (g5, c) = g4.fresh_label();
            let g6 = g5.e("%"@ + c + " = ptrtoint ptr %"@ + b + " to i64"@);
            let (g7, d) = g6.fresh_label();
            let g8 = g7.e("%"@ + d + " = getelementptr inbounds ptr, ptr %"@ + a + ", i64 "@ + dec(idx));
            let (g9, f) = g8.fresh_label();
            let g10 = g9.e("%"@ + f + " = load ptr, ptr %"@ + d);
            &&& wrote(g, g10, interface_code(n, o_val, o_ty, idx))
            &&& g6 == (Gen { label_counter: n + 3, output: g6.output, ..g })
            &&& g10 == (Gen { label_counter: n + 5, output: g10.output, ..g })
            &&& "%"@ + c == register(n + 2)
            &&& "%"@ + f == register(n + 4)
        }),
{
    lemma_interface_texts();
    let n = g.label_counter;
    lemma_wrote_nothing(g);
    lemma_then_label(g, g, no_code());
    let (g1, a) = g.fresh_label();
    let i1 = Instr::Extract { to: register(n), ty: o_ty, a: o_val, index: 1 };
    let l1 = "%"@ + a + " = extractvalue "@ + o_ty + " "@ + o_val + ", 1"@;
    assert(l1 == instr_text(i1));
    lemma_then(g, g1, no_code(), i1, l1);
    let g2 = g1.e(l1);
    let c1 = no_code().push(i1);
    lemma_then_label(g, g2, c1);
    let (g3, b) = g2.fresh_label();
    let i2 = Instr::Extract { to: register(n + 1), ty: o_ty, a: o_val, index: 0 };
    let l2 = "%"@ + b + " = extractvalue "@ + o_ty + " "@ + o_val + ", 0"@;
    assert(l2 == instr_text(i2));
    lemma_then(g, g3, c1, i2, l2);
    let g4 = g3.e(l2);
    let c2 = c1.push(i2);
    lemma_then_label(g, g4, c2);
    let (g5, c) = g4.fresh_label();
    let i3 = Instr::Convert { to: register(n + 2), op: Cast::Ptrtoint, from: "ptr"@, a: register(n + 1), into: "i64"@ };
    let l3 = "%"@ + c + " = ptrtoint ptr %"@ + b + " to i64"@;
    assert(l3 == instr_text(i3));
    lemma_then(g, g5, c2, i3, l3);
    let g6 = g5.e(l3);
    let c3 = c2.push(i3);
    lemma_then_label(g, g6, c3);
    let (g7, d) = g6.fresh_label();
    let i4 = Instr::Element { to: register(n + 3), at: register(n), index: idx };
    let l4 = "%"@ + d + " = getelementptr inbounds ptr, ptr %"@ + a + ", i64 "@ + dec(idx);
    assert(l4 == instr_text(i4));
    lemma_then(g, g7, c3, i4, l4);
    let g8 = g7.e(l4);
    let c4 = c3.push(i4);
    lemma_then_label(g, g8, c4);
    let (g9, f) = g8.fresh_label();
    let i5 = Instr::Load { to: register(n + 4), ty: "ptr"@, at: register(n + 3) };
    let l5 = "%"@ + f + " = load ptr, ptr %"@ + d;
    assert(l5 == instr_text(i5));
    lemma_then(g, g9, c4, i5, l5);
}

/// The code for a call of a method of an interface calls what stands in the table of the value, at the place that the
/// method has in the interface, and hands it the address of the object. The value is the address of the object and
/// that of the table.
pub proof fn lemma_interface_call(g: Gen, o_val: Text, o_ty: Text, iface: Text, field: Text)
    requires
        g.interface_method(iface, field) is Some,
        g.label_counter + 6 <= usize::MAX,
        older(o_val, g.label_counter),
    ensures
        ({
            let (h, r) = g.interface_method_call(o_val, o_ty, iface, field);
            let idx = g.interface_method(iface, field)->0;
            exists|code: Seq<Instr>| #[trigger]
                wrote(g, h, code) && forall|w: World, m: Machine|
                    {
                        let after = #[trigger] run(w, code, m);
                        let v = parts_in(value(w, m, o_val));
                        let c = after.calls.last();
                        &&& after.calls == m.calls.push(c)
                        &&& c.function == parts_in(m.memory[v[1]])[idx as int]
                        &&& c.args == seq![v[0]]
                        &&& r.1 != "void"@ ==> value(w, after, r.0) == (w.answer)(c)
                    }
        }),
{
    broadcast use group_machine;

    reveal_strlit("call void (i64) %");
    reveal_strlit("call void (");
    reveal_strlit("i64");
    reveal_strlit(") %");
    reveal_strlit(") ");
    reveal_strlit("%");
    reveal_strlit("(i64 %");
    reveal_strlit("(i64 ");
    reveal_strlit("(");
    reveal_strlit(" ");
    reveal_strlit(")");
    reveal_strlit(" (i64) %");
    reveal_strlit(" (");
    let n = g.label_counter;
    let idx = g.interface_method(iface, field)->0;
    let (h, r) = g.interface_method_call(o_val, o_ty, iface, field);
    lemma_interface_wrote(g, o_val, o_ty, idx);
    let (g1, a) = g.fresh_label();
    let g2 = g1.e("%"@ + a + " = extractvalue "@ + o_ty + " "@ + o_val + ", 1"@);
    let (g3, b) = g2.fresh_label();
    let g4 = g3.e("%"@ + b + " = extractvalue "@ + o_ty + " "@ + o_val + ", 0"@);
    let (g5, c) = g4.fresh_label();
    let g6 = g5.e("%"@ + c + " = ptrtoint ptr %"@ + b + " to i64"@);
    assert(g6.interface_method(iface, field) == g.interface_method(iface, field));
    let (g7, d) = g6.fresh_label();
    let g8 = g7.e("%"@ + d + " = getelementptr inbounds ptr, ptr %"@ + a + ", i64 "@ + dec(idx));
    let (g9, f) = g8.fresh_label();
    let g10 = g9.e("%"@ + f + " = load ptr, ptr %"@ + d);
    let pre = interface_code(n, o_val, o_ty, idx);
    let ret = g10.interface_method_ret(iface, field);
    let ops = no_args().push((register(n + 2), "i64"@));
    lemma_arguments((register(n + 2), "i64"@), (register(n + 2), "i64"@), (register(n + 2), "i64"@));
    assert(") %"@ == ") "@ + "%"@);
    assert("(i64 %"@ == "("@ + ("i64"@ + " "@ + "%"@));
    assert("call void (i64) %"@ == "call void ("@ + "i64"@ + ") "@ + "%"@);
    assert(" (i64) %"@ == " ("@ + "i64"@ + ") "@ + "%"@);
    let code = if ret == "void"@ {
        let i = Instr::CallTypedVoid { types: "i64"@, function: register(n + 4), args: ops };
        let l = "call void (i64) %"@ + f + "(i64 %"@ + c + ")"@;
        assert(l == "call void ("@ + "i64"@ + ") "@ + ("%"@ + f) + "("@ + ("i64"@ + " "@ + ("%"@ + c)) + ")"@);
        assert(l == instr_text(i));
        lemma_then(g, g10, pre, i, l);
        pre.push(i)
    } else {
        lemma_then_label(g, g10, pre);
        let (g11, t) = g10.fresh_label();
        let i = Instr::CallTyped { to: register(n + 5), ret, types: "i64"@, function: register(n + 4), args: ops };
        let l = "%"@ + t + " = call "@ + ret + " (i64) %"@ + f + "(i64 %"@ + c + ")"@;
        assert(l == "%"@ + t + " = call "@ + ret + " ("@ + "i64"@ + ") "@ + ("%"@ + f) + "("@ + ("i64"@ + " "@ + ("%"@
            + c)) + ")"@);
        assert(l == instr_text(i));
        lemma_then(g, g11, pre, i, l);
        pre.push(i)
    };
    assert(wrote(g, h, code));
    assert forall|w: World, m: Machine|
        {
            let after = #[trigger] run(w, code, m);
            let v = parts_in(value(w, m, o_val));
            let c = after.calls.last();
            &&& after.calls == m.calls.push(c)
            &&& c.function == parts_in(m.memory[v[1]])[idx as int]
            &&& c.args == seq![v[0]]
            &&& r.1 != "void"@ ==> value(w, after, r.0) == (w.answer)(c)
        } by {
        let after = run(w, code, m);
        let v = parts_in(value(w, m, o_val));
        assert(after.calls.last().args =~= seq![v[0]]);
    }
}

// ---------------------------------------------------------------------------------------------
// Instances
// ---------------------------------------------------------------------------------------------
/// The instructions that store a field of an instance.
spec fn field_code(code: Seq<Instr>, n: nat, ty: Text, slot: Text, i: nat, fty: Text, val: Text) -> Seq<Instr> {
    code.push(Instr::Field { to: register(n), ty, at: "%"@ + slot, index: i + 1 }).push(
        Instr::Store { ty: fty, a: val, at: register(n) },
    )
}

proof fn lemma_store_field(g: Gen, h: Gen, code: Seq<Instr>, ty: Text, slot: Text, i: nat, fty: Text, val: Text)
    requires
        wrote(g, h, code),
        h.label_counter < usize::MAX,
    ensures
        ({
            let n = h.label_counter;
            let k = h.store_field(ty, slot, i, fty, val);
            &&& wrote(g, k, field_code(code, n, ty, slot, i, fty, val))
            &&& k == (Gen { label_counter: n + 1, output: k.output, ..h })
        }),
{
    reveal_strlit(", ptr %");
    reveal_strlit(", ptr ");
    reveal_strlit("%");
    assert(", ptr %"@ == ", ptr "@ + "%"@);
    let n = h.label_counter;
    lemma_then_label(g, h, code);
    let (h1, f) = h.fresh_label();
    let i1 = Instr::Field { to: register(n), ty, at: "%"@ + slot, index: i + 1 };
    let l1 = "%"@ + f + " = getelementptr inbounds "@ + ty + ", ptr %"@ + slot + ", i32 0, i32 "@ + dec_next(i);
    assert(l1 == instr_text(i1));
    lemma_then(g, h1, code, i1, l1);
    let i2 = Instr::Store { ty: fty, a: val, at: register(n) };
    let l2 = "store "@ + fty + " "@ + val + ", ptr %"@ + f;
    assert(l2 == instr_text(i2));
    lemma_then(g, h1.e(l1), code.push(i1), i2, l2);
}

/// An instance lies in its slot: it begins with the address of its table, and its first fields have the values of the
/// arguments, as far as there are such fields.
pub open spec fn is_instance(w: World, m: Machine, parts: Seq<Value>, name: Text, fields: nat, args: Seq<(Text, Text)>) -> bool {
    &&& parts.len() >= 1
    &&& parts[0] == Value::Global("@"@ + ("vtable."@ + name))
    &&& forall|i: int|
        0 <= i < fields && i < args.len() ==> parts.len() > i + 1 && #[trigger] parts[i + 1] == value(w, m, args[i].0)
}

/// The code leaves an instance in the slot with the number `n`.
pub open spec fn lays_instance(code: Seq<Instr>, n: nat, name: Text, fields: nat, args: Seq<(Text, Text)>) -> bool {
    forall|w: World, m: Machine|
        {
            let after = #[trigger] run(w, code, m);
            &&& value(w, after, register(n)) == Value::Slot(register(n))
            &&& is_instance(w, m, parts_in(after.memory[Value::Slot(register(n))]), name, fields, args)
            &&& regs_kept(m, after, n)
            &&& after.calls == m.calls
        }
}

proof fn lemma_begin_instance(g: Gen, name: Text, args: Seq<(Text, Text)>) -> (code: Seq<Instr>)
    requires
        g.label_counter + 3 <= usize::MAX,
    ensures
        ({
            let n = g.label_counter;
            let (h, slot) = g.begin_instance(name);
            &&& wrote(g, h, code)
            &&& "%"@ + slot == register(n)
            &&& h == (Gen { label_counter: n + 3, output: h.output, ..g })
            &&& lays_instance(code, n, name, 0, args)
        }),
{
    broadcast use group_machine;

    reveal_strlit(" zeroinitializer, ptr %");
    reveal_strlit(" ");
    reveal_strlit("zeroinitializer");
    reveal_strlit(", ptr ");
    reveal_strlit("%");
    reveal_strlit(", ptr %");
    reveal_strlit(", i32 0, i32 0");
    reveal_strlit(", i32 0, i32 ");
    reveal_strlit(" = ptrtoint ptr @vtable.");
    reveal_strlit(" = ");
    reveal_strlit("ptrtoint");
    reveal_strlit("ptr");
    reveal_strlit("@");
    reveal_strlit("vtable.");
    reveal_strlit(" to i64");
    reveal_strlit(" to ");
    reveal_strlit("i64");
    reveal_strlit("store i64 %");
    reveal_strlit("store ");
    let n = g.label_counter;
    let ty = "%class."@ + name;
    assert(dec(0) == seq!['0']);
    assert(" zeroinitializer, ptr %"@ == " "@ + "zeroinitializer"@ + ", ptr "@ + "%"@);
    assert(", ptr %"@ == ", ptr "@ + "%"@);
    assert(", i32 0, i32 0"@ == ", i32 0, i32 "@ + dec(0));
    assert(" = ptrtoint ptr @vtable."@ == " = "@ + "ptrtoint"@ + " "@ + "ptr"@ + " "@ + ("@"@ + "vtable."@));
    assert(" to i64"@ == " to "@ + "i64"@);
    assert("store i64 %"@ == "store "@ + "i64"@ + " "@ + "%"@);
    lemma_wrote_nothing(g);
    lemma_then_label(g, g, no_code());
    let (g1, a) = g.fresh_label();
    let i1 = Instr::Alloca { to: register(n), ty };
    let l1 = "%"@ + a + " = alloca "@ + ty + ", align 8"@;
    assert(l1 == instr_text(i1));
    lemma_then(g, g1, no_code(), i1, l1);
    let g2 = g1.e(l1);
    let c1 = no_code().push(i1);
    let i2 = Instr::Store { ty, a: "zeroinitializer"@, at: register(n) };
    let l2 = "store "@ + ty + " zeroinitializer, ptr %"@ + a;
    assert(l2 == instr_text(i2));
    lemma_then(g, g2, c1, i2, l2);
    let g3 = g2.e(l2);
    let c2 = c1.push(i2);
    lemma_then_label(g, g3, c2);
    let (g4, v) = g3.fresh_label();
    let i3 = Instr::Field { to: register(n + 1), ty, at: register(n), index: 0 };
    let l3 = "%"@ + v + " = getelementptr inbounds "@ + ty + ", ptr %"@ + a + ", i32 0, i32 0"@;
    assert(l3 == instr_text(i3));
    lemma_then(g, g4, c2, i3, l3);
    let g5 = g4.e(l3);
    let c3 = c2.push(i3);
    lemma_then_label(g, g5, c3);
    let (g6, t) = g5.fresh_label();
    let i4 = Instr::Convert {
        to: register(n + 2),
        op: Cast::Ptrtoint,
        from: "ptr"@,
        a: "@"@ + ("vtable."@ + name),
        into: "i64"@,
    };
    let l4 = "%"@ + t + " = ptrtoint ptr @vtable."@ + name + " to i64"@;
    assert(l4 == instr_text(i4));
    lemma_then(g, g6, c3, i4, l4);
    let g7 = g6.e(l4);
    let c4 = c3.push(i4);
    let i5 = Instr::Store { ty: "i64"@, a: register(n + 2), at: register(n + 1) };
    let l5 = "store i64 %"@ + t + ", ptr %"@ + v;
    assert(l5 == instr_text(i5));
    lemma_then(g, g7, c4, i5, l5);
    c4.push(i5)
}

proof fn lemma_field_runs(
    code: Seq<Instr>,
    n: nat,
    k: nat,
    name: Text,
    ty: Text,
    slot: Text,
    i: nat,
    fty: Text,
    args: Seq<(Text, Text)>,
)
    requires
        n < k,
        "%"@ + slot == register(n),
        lays_instance(code, n, name, i, args),
        i < args.len(),
        args_older(args, n),
    ensures
        lays_instance(field_code(code, k, ty, slot, i, fty, args[i as int].0), n, name, i + 1, args),
{
    broadcast use group_machine;

    let val = args[i as int].0;
    let more = field_code(code, k, ty, slot, i, fty, val);
    assert(older(val, n));
    assert forall|w: World, m: Machine|
        {
            let after = #[trigger] run(w, more, m);
            &&& value(w, after, register(n)) == Value::Slot(register(n))
            &&& is_instance(w, m, parts_in(after.memory[Value::Slot(register(n))]), name, i + 1, args)
            &&& regs_kept(m, after, n)
            &&& after.calls == m.calls
        } by {
        let at = run(w, code, m);
        lemma_value_kept(w, m, at, n, val);
        let after = run(w, more, m);
        let p0 = parts_in(at.memory[Value::Slot(register(n))]);
        let p1 = parts_in(after.memory[Value::Slot(register(n))]);
        assert(p1 == put_part(p0, i + 1, value(w, m, val)));
        assert forall|t: Text| older(t, n) implies #[trigger] after.regs[t] == m.regs[t] by {
            assert(at.regs[t] == m.regs[t]);
        }
    }
}

proof fn lemma_store_fields(g: Gen, h: Gen, code: Seq<Instr>, n: nat, name: Text, slot: Text, defs: Seq<(Text, Text)>, args: Seq<
    (Text, Text),
>) -> (r: Seq<Instr>)
    requires
        wrote(g, h, code),
        n < h.label_counter,
        h.label_counter + defs.len() <= usize::MAX,
        "%"@ + slot == register(n),
        lays_instance(code, n, name, 0, args),
        args_older(args, n),
    ensures
        ({
            let k = h.store_fields("%class."@ + name, slot, defs, args);
            &&& wrote(g, k, r)
            &&& k == (Gen { label_counter: k.label_counter, output: k.output, ..h })
            &&& h.label_counter <= k.label_counter <= h.label_counter + defs.len()
            &&& lays_instance(r, n, name, defs.len(), args)
        }),
    decreases defs.len(),
{
    if defs.len() == 0 {
        code
    } else {
        let c1 = lemma_store_fields(g, h, code, n, name, slot, defs.drop_last(), args);
        let k1 = h.store_fields("%class."@ + name, slot, defs.drop_last(), args);
        let i = (defs.len() - 1) as nat;
        if i < args.len() {
            lemma_store_field(g, k1, c1, "%class."@ + name, slot, i, defs.last().1, args[i as int].0);
            lemma_field_runs(c1, n, k1.label_counter, name, "%class."@ + name, slot, i, defs.last().1, args);
            field_code(c1, k1.label_counter, "%class."@ + name, slot, i, defs.last().1, args[i as int].0)
        } else {
            assert forall|w: World, m: Machine|
                {
                    let after = #[trigger] run(w, c1, m);
                    &&& value(w, after, register(n)) == Value::Slot(register(n))
                    &&& is_instance(w, m, parts_in(after.memory[Value::Slot(register(n))]), name, defs.len(), args)
                    &&& regs_kept(m, after, n)
                    &&& after.calls == m.calls
                } by {
            }
            c1
        }
    }
}

/// Making an instance of a class gives a value that begins with the address of the table of the class and has the
/// arguments for its first fields, in their order.
pub proof fn lemma_constructed(g: Gen, name: Text, args: Seq<(Text, Text)>)
    requires
        g.class_def(name) is Some,
        g.label_counter + g.class_def(name)->0.len() + 5 <= usize::MAX,
        args_older(args, g.label_counter),
    ensures
        ({
            let (h, r) = g.construct(name, args);
            exists|code: Seq<Instr>| #[trigger]
                wrote(g, h, code) && forall|w: World, m: Machine|
                    {
                        let after = #[trigger] run(w, code, m);
                        is_instance(
                            w,
                            m,
                            parts_in(value(w, after, r.0)),
                            name,
                            g.class_def(name)->0.len(),
                            args,
                        )
                    }
        }),
{
    broadcast use group_machine;

    reveal_strlit(", ptr %");
    reveal_strlit(", ptr ");
    reveal_strlit("%");
    reveal_strlit(" = ptrtoint ptr %");
    reveal_strlit(" = ");
    reveal_strlit("ptrtoint");
    reveal_strlit(" ");
    reveal_strlit("ptr");
    reveal_strlit(" to i64");
    reveal_strlit(" to ");
    reveal_strlit("i64");
    reveal_strlit("call void @");
    reveal_strlit("call void ");
    reveal_strlit("@");
    reveal_strlit("(i64 %");
    reveal_strlit("(");
    assert(", ptr %"@ == ", ptr "@ + "%"@);
    assert(" = ptrtoint ptr %"@ == " = "@ + "ptrtoint"@ + " "@ + "ptr"@ + " "@ + "%"@);
    assert(" to i64"@ == " to "@ + "i64"@);
    assert("call void @"@ == "call void "@ + "@"@);
    assert("(i64 %"@ == "("@ + ("i64"@ + " "@ + "%"@));
    let n = g.label_counter;
    let first = lemma_begin_instance(g, name, args);
    let (g1, slot) = g.begin_instance(name);
    let defs = g.class_def(name)->0;
    assert(g1.class_def(name) == g.class_def(name));
    let code = lemma_store_fields(g, g1, first, n, name, slot, defs, args);
    let g2 = g1.store_fields("%class."@ + name, slot, defs, args);
    let k = g2.label_counter;
    let ty = "%class."@ + name;
    lemma_then_label(g, g2, code);
    let (g3, l) = g2.fresh_label();
    let i1 = Instr::Load { to: register(k), ty, at: register(n) };
    let l1 = "%"@ + l + " = load "@ + ty + ", ptr %"@ + slot;
    assert(l1 == instr_text(i1));
    lemma_then(g, g3, code, i1, l1);
    let g4 = g3.e(l1);
    let c1 = code.push(i1);
    lemma_then_label(g, g4, c1);
    let (g5, p) = g4.fresh_label();
    let i2 = Instr::Convert { to: register(k + 1), op: Cast::Ptrtoint, from: "ptr"@, a: register(n), into: "i64"@ };
    let l2 = "%"@ + p + " = ptrtoint ptr %"@ + slot + " to i64"@;
    assert(l2 == instr_text(i2));
    lemma_then(g, g5, c1, i2, l2);
    let g6 = g5.e(l2);
    let c2 = c1.push(i2);
    let init = scoped_name("__class_init"@, g4.class_module(name), name);
    let ops = no_args().push((register(k + 1), "i64"@));
    lemma_arguments((register(k + 1), "i64"@), (register(k + 1), "i64"@), (register(k + 1), "i64"@));
    let i3 = Instr::CallVoid { function: "@"@ + init, args: ops };
    let l3 = "call void @"@ + init + "(i64 %"@ + p + ")"@;
    assert(l3 == "call void "@ + ("@"@ + init) + "("@ + ("i64"@ + " "@ + ("%"@ + p)) + ")"@);
    assert(l3 == instr_text(i3));
    lemma_then(g, g6, c2, i3, l3);
    let all = c2.push(i3);
    let (h, r) = g.construct(name, args);
    assert(h == g6.e(l3) && r.0 == register(k));
    assert forall|w: World, m: Machine|
        {
            let after = #[trigger] run(w, all, m);
            is_instance(w, m, parts_in(value(w, after, r.0)), name, defs.len(), args)
        } by {
        let at = run(w, code, m);
        assert(value(w, at, register(n)) == Value::Slot(register(n)));
    }
    assert(wrote(g, h, all));
}

/// The code for a call of a method of an object calls the function of the method, and hands it the address of the object
/// where the method takes it, then the arguments in their order.
pub proof fn lemma_object_call(g: Gen, o_val: Text, o_ty: Text, name: Text, field: Text, args: Seq<(Text, Text)>)
    requires
        g.object_method_self(name, field),
        g.label_counter + 4 <= usize::MAX,
        older(o_val, g.label_counter),
        args_older(args, g.label_counter),
    ensures
        ({
            let (h, r) = g.object_method_call(o_val, o_ty, name, field, args);
            exists|code: Seq<Instr>| #[trigger]
                wrote(g, h, code) && forall|w: World, m: Machine|
                    {
                        let after = #[trigger] run(w, code, m);
                        let c = after.calls.last();
                        &&& after.calls == m.calls.push(c)
                        &&& c.function == Value::Global(
                            "@"@ + scoped_name("__obj_method"@, g.object_module(name), name + "_"@ + field),
                        )
                        &&& hands_receiver(w, m, c, value(w, m, o_val), args)
                        &&& r.1 != "void"@ ==> value(w, after, r.0) == (w.answer)(c)
                    }
        }),
{
    broadcast use group_machine;

    reveal_strlit(") @");
    reveal_strlit(") ");
    reveal_strlit("@");
    assert(") @"@ == ") "@ + "@"@);
    lemma_lookup_texts();
    let n = g.label_counter;
    lemma_wrote_nothing(g);
    lemma_then_label(g, g, no_code());
    let (g1, a) = g.fresh_label();
    let i1 = Instr::Alloca { to: register(n), ty: o_ty };
    let l1 = "%"@ + a + " = alloca "@ + o_ty + ", align 8"@;
    assert(l1 == instr_text(i1));
    lemma_then(g, g1, no_code(), i1, l1);
    let g2 = g1.e(l1);
    let c1 = no_code().push(i1);
    let i2 = Instr::Store { ty: o_ty, a: o_val, at: register(n) };
    let l2 = "store "@ + o_ty + " "@ + o_val + ", ptr %"@ + a;
    assert(l2 == instr_text(i2));
    lemma_then(g, g2, c1, i2, l2);
    let g3 = g2.e(l2);
    let c2 = c1.push(i2);
    lemma_then_label(g, g3, c2);
    let (g4, si) = g3.fresh_label();
    let i3 = Instr::Convert { to: register(n + 1), op: Cast::Ptrtoint, from: "ptr"@, a: register(n), into: "i64"@ };
    let l3 = "%"@ + si + " = ptrtoint ptr %"@ + a + " to i64"@;
    assert(l3 == instr_text(i3));
    lemma_then(g, g4, c2, i3, l3);
    let g5 = g4.e(l3);
    let pre = c2.push(i3);
    let mangled = scoped_name("__obj_method"@, g.object_module(name), name + "_"@ + field);
    assert(g5.object_module(name) == g.object_module(name));
    assert(g5.object_method_self(name, field));
    let ret = g5.object_method_ret(name, field);
    let ops = with_receiver(register(n + 1), args);
    let types = method_types(register(n + 1), args);
    let list = method_call_args(register(n + 1), args);
    lemma_receiver_first(register(n + 1), args);
    let (h, r) = g.object_method_call(o_val, o_ty, name, field, args);
    let code = if ret == "void"@ {
        let i = Instr::CallTypedVoid { types, function: "@"@ + mangled, args: ops };
        let l = "call void ("@ + types + ") @"@ + mangled + "("@ + list + ")"@;
        assert(l == instr_text(i));
        lemma_then(g, g5, pre, i, l);
        pre.push(i)
    } else {
        lemma_then_label(g, g5, pre);
        let (g6, t) = g5.fresh_label();
        let i = Instr::CallTyped { to: register(n + 2), ret, types, function: "@"@ + mangled, args: ops };
        let l = "%"@ + t + " = call "@ + ret + " ("@ + types + ") @"@ + mangled + "("@ + list + ")"@;
        assert(l == instr_text(i));
        lemma_then(g, g6, pre, i, l);
        pre.push(i)
    };
    assert(wrote(g, h, code));
    assert forall|w: World, m: Machine|
        {
            let after = #[trigger] run(w, code, m);
            let c = after.calls.last();
            &&& after.calls == m.calls.push(c)
            &&& c.function == Value::Global("@"@ + mangled)
            &&& hands_receiver(w, m, c, value(w, m, o_val), args)
            &&& r.1 != "void"@ ==> value(w, after, r.0) == (w.answer)(c)
        } by {
        let at = run(w, pre, m);
        let after = run(w, code, m);
        let c = after.calls.last();
        assert(regs_kept(m, at, n));
        assert(c.args[0] == value(w, at, ops[0].0));
        assert forall|i: int| 0 <= i < args.len() implies #[trigger] c.args[i + 1] == value(w, m, args[i].0) by {
            assert(ops[i + 1] == args[i]);
            assert(older(args[i].0, n));
            lemma_value_kept(w, m, at, n, args[i].0);
        }
    }
}

} // verus!
