//! What the code for a call of the library does: it calls the function of the runtime, and hands it the
//! arguments in their order.

use vstd::prelude::*;

use crate::codegen::llvm::meaning::{
    arg_values, arguments, exec, group_machine, instr_text, int_in, kept, lemma_arguments, lemma_label,
    lemma_number_is_itself, lemma_undefined, lemma_wrote_nothing, loaded, no_args, no_code, older, put_part, register,
    regs_kept, run, truth, value, with_reg, wrote, Called, Instr, Machine, Opcode, Value, World,
};
use crate::codegen::llvm::builtins::runtime_module;
use crate::codegen::llvm::expr::{is_function, is_server_call};
use crate::codegen::llvm::names::{array_size, constant_text, size_text, typed};
use crate::codegen::llvm::operators::{lemma_then, lemma_then_label};
use crate::codegen::llvm::state::Gen;
use crate::scan::begins;
use crate::syntax::ast::{BinOp, ExprNode};
use crate::text::{byte_len, dec, int_dec, Text};

verus! {

// ---------------------------------------------------------------------------------------------
// Calls
// ---------------------------------------------------------------------------------------------
/// What a function is handed for an argument: the value, or the address at which the value lies.
pub enum Given {
    Itself(Value),
    At(Value),
}

/// The argument at `i` of a call is `a`.
pub open spec fn is_given(c: Called, i: int, a: Given) -> bool {
    match a {
        Given::Itself(v) => c.args[i] == v,
        Given::At(v) => loaded(c.memory, c.args[i]) == v,
    }
}

/// The call is one of `function`, with these arguments in their order.
pub open spec fn handed(c: Called, function: Text, args: Seq<Given>) -> bool {
    &&& c.function == Value::Global("@"@ + function)
    &&& c.args.len() == args.len()
    &&& forall|i: int| 0 <= i < args.len() ==> is_given(c, i, #[trigger] args[i])
}

/// Between `m` and `after` one call was made: of `function`, with these arguments.
pub open spec fn one_call(m: Machine, after: Machine, function: Text, args: Seq<Given>) -> bool {
    &&& after.calls.len() == m.calls.len() + 1
    &&& after.calls == m.calls.push(after.calls.last())
    &&& handed(after.calls.last(), function, args)
}

/// What the last call answered.
pub open spec fn answered(w: World, after: Machine) -> Value {
    (w.answer)(after.calls.last())
}

/// The string that lies where the last call answered that it does.
pub open spec fn answered_string(w: World, after: Machine) -> Value {
    loaded((w.after)(after.calls.last()), answered(w, after))
}

// ---------------------------------------------------------------------------------------------
// The pieces of calls
// ---------------------------------------------------------------------------------------------
/// Putting a string on the stack writes a slot and a store.
pub proof fn lemma_string_to_ptr(g: Gen, h: Gen, code: Seq<Instr>, val: Text)
    requires
        wrote(g, h, code),
        h.label_counter < usize::MAX,
    ensures
        ({
            let n = h.label_counter;
            let (k, p) = h.string_to_ptr(val);
            &&& p == register(n)
            &&& k == (Gen { label_counter: n + 1, output: k.output, ..h })
            &&& wrote(
                g,
                k,
                code.push(Instr::Alloca { to: register(n), ty: "%yk_string"@ }).push(
                    Instr::Store { ty: "%yk_string"@, a: val, at: register(n) },
                ),
            )
        }),
{
    reveal_strlit(" = alloca %yk_string, align 8");
    reveal_strlit(" = alloca ");
    reveal_strlit("%yk_string");
    reveal_strlit(", align 8");
    reveal_strlit("store %yk_string ");
    reveal_strlit("store ");
    reveal_strlit(" ");
    reveal_strlit(", ptr %");
    reveal_strlit(", ptr ");
    reveal_strlit("%");
    let n = h.label_counter;
    lemma_then_label(g, h, code);
    let (h1, slot) = h.fresh_label();
    let i1 = Instr::Alloca { to: register(n), ty: "%yk_string"@ };
    let l1 = "%"@ + slot + " = alloca %yk_string, align 8"@;
    assert(" = alloca %yk_string, align 8"@ == " = alloca "@ + "%yk_string"@ + ", align 8"@);
    assert(l1 == instr_text(i1));
    lemma_then(g, h1, code, i1, l1);
    let i2 = Instr::Store { ty: "%yk_string"@, a: val, at: register(n) };
    let l2 = "store %yk_string "@ + val + ", ptr %"@ + slot;
    assert("store %yk_string "@ == "store "@ + "%yk_string"@ + " "@);
    assert(", ptr %"@ == ", ptr "@ + "%"@);
    assert(l2 == instr_text(i2));
    lemma_then(g, h1.e(l1), code.push(i1), i2, l2);
}

/// Loading a string writes a load.
pub proof fn lemma_load_string(g: Gen, h: Gen, code: Seq<Instr>, ptr: Text)
    requires
        wrote(g, h, code),
        h.label_counter < usize::MAX,
    ensures
        ({
            let n = h.label_counter;
            let (k, r) = h.load_string(ptr);
            &&& r == (register(n), "%yk_string"@)
            &&& k == (Gen { label_counter: n + 1, output: k.output, ..h })
            &&& wrote(g, k, code.push(Instr::Load { to: register(n), ty: "%yk_string"@, at: ptr }))
        }),
{
    reveal_strlit(" = load %yk_string, ptr ");
    reveal_strlit(" = load ");
    reveal_strlit("%yk_string");
    reveal_strlit(", ptr ");
    let n = h.label_counter;
    lemma_then_label(g, h, code);
    let (h1, l) = h.fresh_label();
    let i = Instr::Load { to: register(n), ty: "%yk_string"@, at: ptr };
    let line = "%"@ + l + " = load %yk_string, ptr "@ + ptr;
    assert(" = load %yk_string, ptr "@ == " = load "@ + "%yk_string"@ + ", ptr "@);
    assert(line == instr_text(i));
    lemma_then(g, h1, code, i, line);
}

/// A call as it is written behind the type of its value.
pub open spec fn call_text(function: Text, args: Seq<(Text, Text)>) -> Text {
    function + "("@ + arguments(args) + ")"@
}

/// A call of a function that returns the address of a string writes a call and a load.
pub proof fn lemma_call_string(g: Gen, h: Gen, code: Seq<Instr>, function: Text, args: Seq<(Text, Text)>, call: Text)
    requires
        wrote(g, h, code),
        h.label_counter + 2 <= usize::MAX,
        call == call_text(function, args),
    ensures
        ({
            let n = h.label_counter;
            let (k, r) = h.call_string(call);
            &&& r == (register(n + 1), "%yk_string"@)
            &&& k == (Gen { label_counter: n + 2, output: k.output, ..h })
            &&& wrote(
                g,
                k,
                code.push(Instr::Call { to: register(n), ret: "ptr"@, function: "@"@ + function, args }).push(
                    Instr::Load { to: register(n + 1), ty: "%yk_string"@, at: register(n) },
                ),
            )
        }),
{
    reveal_strlit(" = call ptr @");
    reveal_strlit(" = call ");
    reveal_strlit("ptr");
    reveal_strlit(" ");
    reveal_strlit("@");
    let n = h.label_counter;
    lemma_then_label(g, h, code);
    let (h1, l) = h.fresh_label();
    let i = Instr::Call { to: register(n), ret: "ptr"@, function: "@"@ + function, args };
    let line = "%"@ + l + " = call ptr @"@ + call;
    assert(" = call ptr @"@ == " = call "@ + "ptr"@ + " "@ + "@"@);
    assert(line == instr_text(i));
    lemma_then(g, h1, code, i, line);
    lemma_load_string(g, h1.e(line), code.push(i), register(n));
}

/// A call of a function that returns an integer writes a call.
pub proof fn lemma_call_int(g: Gen, h: Gen, code: Seq<Instr>, function: Text, args: Seq<(Text, Text)>, call: Text)
    requires
        wrote(g, h, code),
        h.label_counter < usize::MAX,
        call == call_text(function, args),
    ensures
        ({
            let n = h.label_counter;
            let (k, r) = h.call_int(call);
            &&& r == (register(n), "i64"@)
            &&& k == (Gen { label_counter: n + 1, output: k.output, ..h })
            &&& wrote(g, k, code.push(Instr::Call { to: register(n), ret: "i64"@, function: "@"@ + function, args }))
        }),
{
    reveal_strlit(" = call i64 @");
    reveal_strlit(" = call ");
    reveal_strlit("i64");
    reveal_strlit(" ");
    reveal_strlit("@");
    let n = h.label_counter;
    lemma_then_label(g, h, code);
    let (h1, l) = h.fresh_label();
    let i = Instr::Call { to: register(n), ret: "i64"@, function: "@"@ + function, args };
    let line = "%"@ + l + " = call i64 @"@ + call;
    assert(" = call i64 @"@ == " = call "@ + "i64"@ + " "@ + "@"@);
    assert(line == instr_text(i));
    lemma_then(g, h1, code, i, line);
}

/// A call of a function that answers yes or no writes a call and a comparison with zero.
pub proof fn lemma_call_flag(g: Gen, h: Gen, code: Seq<Instr>, function: Text, args: Seq<(Text, Text)>, call: Text)
    requires
        wrote(g, h, code),
        h.label_counter + 2 <= usize::MAX,
        call == call_text(function, args),
    ensures
        ({
            let n = h.label_counter;
            let (k, r) = h.call_flag(call);
            &&& r == (register(n + 1), "i1"@)
            &&& k == (Gen { label_counter: n + 2, output: k.output, ..h })
            &&& wrote(
                g,
                k,
                code.push(Instr::Call { to: register(n), ret: "i64"@, function: "@"@ + function, args }).push(
                    Instr::Binary {
                        to: register(n + 1),
                        op: Opcode::IntNe,
                        ty: "i64"@,
                        a: register(n),
                        b: int_dec(0),
                    },
                ),
            )
        }),
{
    reveal_strlit(" = icmp ne i64 %");
    reveal_strlit(" = ");
    reveal_strlit("icmp ne");
    reveal_strlit(" ");
    reveal_strlit("i64");
    reveal_strlit("%");
    reveal_strlit(", 0");
    reveal_strlit(", ");
    reveal_strlit("0");
    assert("0"@ == int_dec(0));
    let n = h.label_counter;
    lemma_call_int(g, h, code, function, args, call);
    let (h1, t) = h.fresh_label();
    let h2 = h1.e("%"@ + t + " = call i64 @"@ + call);
    let c1 = code.push(Instr::Call { to: register(n), ret: "i64"@, function: "@"@ + function, args });
    assert(h2 == h.call_int(call).0);
    lemma_then_label(g, h2, c1);
    let (h3, b) = h2.fresh_label();
    let i = Instr::Binary { to: register(n + 1), op: Opcode::IntNe, ty: "i64"@, a: register(n), b: int_dec(0) };
    let line = "%"@ + b + " = icmp ne i64 %"@ + t + ", 0"@;
    lemma_label(h);
    assert(" = icmp ne i64 %"@ == " = "@ + "icmp ne"@ + " "@ + "i64"@ + " "@ + "%"@);
    assert(", 0"@ == ", "@ + "0"@);
    assert(line == instr_text(i));
    lemma_then(g, h3, c1, i, line);
}

/// A call whose value is not kept writes a call.
pub proof fn lemma_call_void(g: Gen, h: Gen, code: Seq<Instr>, function: Text, args: Seq<(Text, Text)>, line: Text)
    requires
        wrote(g, h, code),
        line == "call void @"@ + call_text(function, args),
    ensures
        wrote(g, h.e(line), code.push(Instr::CallVoid { function: "@"@ + function, args })),
        h.e(line) == (Gen { output: h.e(line).output, ..h }),
{
    reveal_strlit("call void @");
    reveal_strlit("call void ");
    reveal_strlit("@");
    let i = Instr::CallVoid { function: "@"@ + function, args };
    assert("call void @"@ == "call void "@ + "@"@);
    assert(line == instr_text(i));
    lemma_then(g, h, code, i, line);
}

/// The definition of a string constant.
pub open spec fn constant_line(label: Text, s: Text) -> Text {
    "@"@ + label + " = private unnamed_addr constant ["@ + array_size(s) + " x i8] c\""@ + constant_text(s)
        + "\\00\", align 1"@ + "\n"@
}

/// The instructions that make a string of a constant.
pub open spec fn literal_code(code: Seq<Instr>, n: nat, s: Text) -> Seq<Instr> {
    code.push(Instr::Bytes { to: register(n + 1), size: array_size(s), name: "@"@ + ("yk_"@ + dec(n)) }).push(
        Instr::Insert {
            to: register(n + 2),
            ty: "%yk_string"@,
            into: "undef"@,
            part_ty: "ptr"@,
            a: register(n + 1),
            index: 0,
        },
    ).push(
        Instr::Insert {
            to: register(n + 3),
            ty: "%yk_string"@,
            into: register(n + 2),
            part_ty: "i64"@,
            a: size_text(s),
            index: 1,
        },
    )
}

/// A string literal: a constant that holds the text is defined, and a string is made of its address and of
/// how many bytes the text takes.
pub proof fn lemma_make_string(g: Gen, h: Gen, code: Seq<Instr>, s: Text)
    requires
        wrote(g, h, code),
        h.label_counter + 4 <= usize::MAX,
    ensures
        ({
            let n = h.label_counter;
            let (k, r) = h.make_string_slot(s);
            &&& r == register(n + 3)
            &&& k == (Gen {
                label_counter: n + 4,
                output: k.output,
                string_constants: h.string_constants + constant_line("yk_"@ + dec(n), s),
                ..h
            })
            &&& wrote(g, k, literal_code(code, n, s))
        }),
{
    reveal_strlit(" = getelementptr inbounds [");
    reveal_strlit(" x i8], ptr @");
    reveal_strlit(" x i8], ptr ");
    reveal_strlit("@");
    reveal_strlit(", i64 0, i64 0");
    reveal_strlit(" = insertvalue %yk_string undef, ptr %");
    reveal_strlit(" = insertvalue ");
    reveal_strlit("%yk_string");
    reveal_strlit(" ");
    reveal_strlit("undef");
    reveal_strlit(", ");
    reveal_strlit("ptr");
    reveal_strlit("%");
    reveal_strlit(", 0");
    reveal_strlit(", 1");
    reveal_strlit(" = insertvalue %yk_string %");
    reveal_strlit(", i64 ");
    reveal_strlit("i64");
    let n = h.label_counter;
    lemma_then_label(g, h, code);
    let (h1, lbl) = h.fresh_label();
    let line = "@"@ + lbl + " = private unnamed_addr constant ["@ + array_size(s) + " x i8] c\""@ + constant_text(s)
        + "\\00\", align 1"@;
    let h2 = h1.add_string(line);
    reveal(Gen::add_string);
    reveal(wrote);
    assert(wrote(g, h2, code));
    lemma_then_label(g, h2, code);
    let (h3, ptr) = h2.fresh_label();
    let i1 = Instr::Bytes { to: register(n + 1), size: array_size(s), name: "@"@ + ("yk_"@ + dec(n)) };
    let l1 = "%"@ + ptr + " = getelementptr inbounds ["@ + array_size(s) + " x i8], ptr @"@ + lbl + ", i64 0, i64 0"@;
    assert(" x i8], ptr @"@ == " x i8], ptr "@ + "@"@);
    assert(l1 == register(n + 1) + " = getelementptr inbounds ["@ + array_size(s) + " x i8], ptr "@ + ("@"@ + lbl)
        + ", i64 0, i64 0"@);
    assert(l1 == instr_text(i1));
    lemma_then(g, h3, code, i1, l1);
    let h4 = h3.e(l1);
    let c1 = code.push(i1);
    lemma_then_label(g, h4, c1);
    let (h5, t) = h4.fresh_label();
    let i2 = Instr::Insert {
        to: register(n + 2),
        ty: "%yk_string"@,
        into: "undef"@,
        part_ty: "ptr"@,
        a: register(n + 1),
        index: 0,
    };
    let l2 = "%"@ + t + " = insertvalue %yk_string undef, ptr %"@ + ptr + ", 0"@;
    assert(dec(0) == seq!['0']);
    assert(dec(1) == seq!['1']);
    assert(", 0"@ == ", "@ + dec(0));
    assert(", 1"@ == ", "@ + dec(1));
    assert(" = insertvalue %yk_string undef, ptr %"@ == " = insertvalue "@ + "%yk_string"@ + " "@ + "undef"@ + ", "@
        + "ptr"@ + " "@ + "%"@);
    assert(l2 == instr_text(i2));
    lemma_then(g, h5, c1, i2, l2);
    let h6 = h5.e(l2);
    let c2 = c1.push(i2);
    lemma_then_label(g, h6, c2);
    let (h7, u) = h6.fresh_label();
    let i3 = Instr::Insert {
        to: register(n + 3),
        ty: "%yk_string"@,
        into: register(n + 2),
        part_ty: "i64"@,
        a: size_text(s),
        index: 1,
    };
    let l3 = "%"@ + u + " = insertvalue %yk_string %"@ + t + ", i64 "@ + size_text(s) + ", 1"@;
    assert(" = insertvalue %yk_string %"@ == " = insertvalue "@ + "%yk_string"@ + " "@ + "%"@);
    assert(", i64 "@ == ", "@ + "i64"@ + " "@);
    assert(l3 == instr_text(i3));
    lemma_then(g, h7, c2, i3, l3);
    assert(constant_line(lbl, s) == line + "\n"@);
}

/// The string that the constant with the label `n` is made into.
pub open spec fn literal_value(n: nat, s: Text) -> Value {
    Value::Parts(seq![Value::Global("@"@ + ("yk_"@ + dec(n))), Value::Int(byte_len(s) as int)])
}

/// Running the code of a string literal leaves the string.
pub proof fn lemma_literal_runs(w: World, m: Machine, code: Seq<Instr>, n: nat, s: Text)
    ensures
        ({
            let at = run(w, code, m);
            let after = run(w, literal_code(code, n, s), m);
            &&& value(w, after, register(n + 3)) == literal_value(n, s)
            &&& kept(at, after, n)
        }),
{
    broadcast use group_machine;

    let at = run(w, code, m);
    let after = run(w, literal_code(code, n, s), m);
    let i1 = Instr::Bytes { to: register(n + 1), size: array_size(s), name: "@"@ + ("yk_"@ + dec(n)) };
    let m1 = exec(w, i1, at);
    lemma_undefined(w, m1);
    let v1 = Value::Global("@"@ + ("yk_"@ + dec(n)));
    let m2 = with_reg(m1, register(n + 2), Value::Parts(put_part(seq![], 0, v1)));
    assert(size_text(s) == int_dec(byte_len(s) as int));
    lemma_number_is_itself(w, m2, byte_len(s) as int);
    assert(run(w, literal_code(code, n, s), m) == with_reg(
        m2,
        register(n + 3),
        Value::Parts(put_part(put_part(seq![], 0, v1), 1, Value::Int(byte_len(s) as int))),
    ));
    assert(put_part(put_part(seq![], 0, v1), 1, Value::Int(byte_len(s) as int)) == seq![
        v1,
        Value::Int(byte_len(s) as int),
    ]);
}

// ---------------------------------------------------------------------------------------------
// The library
// ---------------------------------------------------------------------------------------------
/// What a function of the library takes or gives: a string, an integer, a real number, yes or no, or
/// nothing.
pub enum Kind {
    Str,
    Whole,
    Real,
    Flag,
    Nothing,
}

/// A function of the library: the function of the runtime that does its work, what it takes, in order, and
/// what it gives.
pub struct Entry {
    pub function: Text,
    pub takes: Seq<Kind>,
    pub gives: Kind,
}

/// An entry without parameters.
pub open spec fn entry0(function: Text, gives: Kind) -> Option<Entry> {
    Some(Entry { function, takes: Seq::empty(), gives })
}

/// An entry with one parameter.
pub open spec fn entry1(function: Text, a: Kind, gives: Kind) -> Option<Entry> {
    Some(Entry { function, takes: Seq::empty().push(a), gives })
}

/// An entry with two parameters.
pub open spec fn entry2(function: Text, a: Kind, b: Kind, gives: Kind) -> Option<Entry> {
    Some(Entry { function, takes: Seq::empty().push(a).push(b), gives })
}

/// An entry with three parameters.
pub open spec fn entry3(function: Text, a: Kind, b: Kind, c: Kind, gives: Kind) -> Option<Entry> {
    Some(Entry { function, takes: Seq::empty().push(a).push(b).push(c), gives })
}

/// The functions of `math`.
pub open spec fn math_entry(f: Text) -> Option<Entry> {
    if f == "abs"@ {
        None
    } else if f == "sqrt"@ || f == "sin"@ || f == "cos"@ || f == "floor"@ || f == "ceil"@ || f == "round"@ {
        entry1("yk_math_"@ + f, Kind::Real, Kind::Real)
    } else if f == "pow"@ || f == "max"@ || f == "min"@ {
        entry2("yk_math_"@ + f, Kind::Real, Kind::Real, Kind::Real)
    } else if f == "rand"@ {
        entry1("yk_math_rand"@, Kind::Whole, Kind::Whole)
    } else {
        None
    }
}

/// The functions of `time`.
pub open spec fn time_entry(f: Text) -> Option<Entry> {
    if f == "now"@ {
        entry0("yk_time_now"@, Kind::Str)
    } else if f == "sleep"@ {
        entry1("yk_time_sleep"@, Kind::Whole, Kind::Nothing)
    } else if f == "timestamp"@ {
        entry0("yk_time_timestamp"@, Kind::Whole)
    } else {
        None
    }
}

/// The functions of `sys`.
pub open spec fn sys_entry(f: Text) -> Option<Entry> {
    if f == "pid"@ {
        entry0("yk_sys_pid"@, Kind::Whole)
    } else if f == "exit"@ {
        entry1("yk_sys_exit"@, Kind::Whole, Kind::Nothing)
    } else if f == "cwd"@ {
        entry0("yk_sys_cwd"@, Kind::Str)
    } else if f == "platform"@ {
        entry0("yk_sys_platform"@, Kind::Str)
    } else if f == "env"@ {
        entry1("yk_sys_env"@, Kind::Str, Kind::Str)
    } else {
        None
    }
}

/// The functions of `path`.
pub open spec fn path_entry(f: Text) -> Option<Entry> {
    if f == "join"@ {
        entry2("yk_path_join"@, Kind::Str, Kind::Str, Kind::Str)
    } else if f == "dirname"@ || f == "basename"@ || f == "extension"@ {
        entry1("yk_path_"@ + f, Kind::Str, Kind::Str)
    } else if f == "is_absolute"@ {
        entry1("yk_path_is_absolute"@, Kind::Str, Kind::Flag)
    } else {
        None
    }
}

/// The functions of `fs`: the path comes first, what is written second.
pub open spec fn fs_entry(f: Text) -> Option<Entry> {
    if f == "read"@ {
        entry1("yk_fs_read"@, Kind::Str, Kind::Str)
    } else if f == "write"@ || f == "append"@ {
        entry2("yk_fs_"@ + f, Kind::Str, Kind::Str, Kind::Nothing)
    } else if f == "remove"@ {
        entry1("yk_fs_remove"@, Kind::Str, Kind::Nothing)
    } else if f == "exists"@ || f == "is_dir"@ || f == "is_file"@ {
        entry1("yk_fs_"@ + f, Kind::Str, Kind::Flag)
    } else {
        None
    }
}

/// The functions of `base64`.
pub open spec fn base64_entry(f: Text) -> Option<Entry> {
    if f == "encode"@ || f == "decode"@ {
        entry1("yk_base64_"@ + f, Kind::Str, Kind::Str)
    } else {
        None
    }
}

/// The functions of `re`: the pattern comes first, then the text, then what replaces.
pub open spec fn re_entry(f: Text) -> Option<Entry> {
    if f == "match"@ {
        entry2("yk_re_match"@, Kind::Str, Kind::Str, Kind::Flag)
    } else if f == "replace"@ {
        entry3("yk_re_replace"@, Kind::Str, Kind::Str, Kind::Str, Kind::Str)
    } else {
        None
    }
}

/// The functions of `datetime`.
pub open spec fn datetime_entry(f: Text) -> Option<Entry> {
    if f == "now"@ {
        entry0("yk_datetime_now"@, Kind::Str)
    } else if f == "utc"@ {
        entry0("yk_datetime_utc"@, Kind::Str)
    } else if f == "timestamp"@ {
        entry0("yk_time_timestamp"@, Kind::Whole)
    } else if f == "year"@ || f == "month"@ || f == "day"@ || f == "hour"@ || f == "minute"@ || f == "second"@ {
        entry1("yk_datetime_"@ + f, Kind::Whole, Kind::Whole)
    } else if f == "format"@ {
        entry2("yk_datetime_format"@, Kind::Whole, Kind::Str, Kind::Str)
    } else {
        None
    }
}

/// The entry of a function of a module.
pub open spec fn entry(module: Text, f: Text) -> Option<Entry> {
    if module == "math"@ {
        math_entry(f)
    } else if module == "time"@ {
        time_entry(f)
    } else if module == "sys"@ {
        sys_entry(f)
    } else if module == "path"@ {
        path_entry(f)
    } else if module == "fs"@ || module == "io"@ {
        fs_entry(f)
    } else if module == "base64"@ {
        base64_entry(f)
    } else if module == "json"@ {
        None
    } else if module == "re"@ || module == "regex"@ {
        re_entry(f)
    } else if module == "datetime"@ {
        datetime_entry(f)
    } else {
        None
    }
}

/// What a function that takes these kinds is handed for arguments: a string by its address, anything else
/// itself.
pub open spec fn given_args(w: World, m: Machine, takes: Seq<Kind>, args: Seq<(Text, Text)>) -> Seq<Given> {
    Seq::new(
        takes.len(),
        |i: int|
            match takes[i] {
                Kind::Str => Given::At(value(w, m, args[i].0)),
                _ => Given::Itself(value(w, m, args[i].0)),
            },
    )
}

/// What a function that gives a kind leaves in `r`.
pub open spec fn is_answer(w: World, after: Machine, gives: Kind, r: Text) -> bool {
    match gives {
        Kind::Str => value(w, after, r) == answered_string(w, after),
        Kind::Whole | Kind::Real => value(w, after, r) == answered(w, after),
        Kind::Flag => value(w, after, r) == Value::Int(truth(int_in(answered(w, after)) != 0)),
        Kind::Nothing => true,
    }
}

/// The code does what the entry says: it makes one call, of its function, with the arguments in their order,
/// and leaves the answer in `r`. Registers that are older than `from` are kept.
pub open spec fn does(code: Seq<Instr>, from: nat, e: Entry, args: Seq<(Text, Text)>, r: Text) -> bool {
    forall|w: World, m: Machine|
        {
            let after = #[trigger] run(w, code, m);
            &&& one_call(m, after, e.function, given_args(w, m, e.takes, args))
            &&& is_answer(w, after, e.gives, r)
            &&& regs_kept(m, after, from)
        }
}

/// The arguments are older than `n`.
pub open spec fn args_older(args: Seq<(Text, Text)>, n: nat) -> bool {
    forall|i: int| 0 <= i < args.len() ==> older((#[trigger] args[i]).0, n)
}

/// The instruction of a call, with the register `n` for its value where it has one.
spec fn call_instr(n: nat, e: Entry, ops: Seq<(Text, Text)>) -> Instr {
    match e.gives {
        Kind::Nothing => Instr::CallVoid { function: "@"@ + e.function, args: ops },
        Kind::Str => Instr::Call { to: register(n), ret: "ptr"@, function: "@"@ + e.function, args: ops },
        Kind::Real => Instr::Call { to: register(n), ret: "double"@, function: "@"@ + e.function, args: ops },
        _ => Instr::Call { to: register(n), ret: "i64"@, function: "@"@ + e.function, args: ops },
    }
}

/// What follows the call.
spec fn tail_code(code: Seq<Instr>, n: nat, k: nat, e: Entry) -> Seq<Instr> {
    match e.gives {
        Kind::Str => code.push(Instr::Load { to: register(k), ty: "%yk_string"@, at: register(n) }),
        Kind::Flag => code.push(
            Instr::Binary { to: register(k), op: Opcode::IntNe, ty: "i64"@, a: register(n), b: int_dec(0) },
        ),
        _ => code,
    }
}

/// The register that holds the answer.
spec fn result_reg(n: nat, k: nat, e: Entry) -> Text {
    match e.gives {
        Kind::Str | Kind::Flag => register(k),
        _ => register(n),
    }
}

/// The code puts what a function takes where the operands say: strings on the stack, anything else is an
/// operand itself.
spec fn prepares(
    pre: Seq<Instr>,
    from: nat,
    ops: Seq<(Text, Text)>,
    takes: Seq<Kind>,
    args: Seq<(Text, Text)>,
) -> bool {
    forall|w: World, m: Machine|
        {
            let at = #[trigger] run(w, pre, m);
            &&& regs_kept(m, at, from)
            &&& at.calls == m.calls
            &&& forall|i: int|
                0 <= i < ops.len() ==> match takes[i] {
                    Kind::Str => loaded(at.memory, value(w, at, (#[trigger] ops[i]).0)) == value(w, m, args[i].0),
                    _ => value(w, at, ops[i].0) == value(w, m, args[i].0),
                }
        }
}

/// Strings on the stack, then a call: the call is handed what it should be, whatever the machine was.
///
/// `from` is the first number that may be used, `pre` what was written before the call, `ops` are the
/// operands, `n` and `k` the numbers of the call and of what follows it.
proof fn lemma_does(
    from: nat,
    pre: Seq<Instr>,
    ops: Seq<(Text, Text)>,
    n: nat,
    k: nat,
    e: Entry,
    args: Seq<(Text, Text)>,
)
    requires
        from <= n < k,
        ops.len() == e.takes.len() <= args.len(),
        prepares(pre, from, ops, e.takes, args),
    ensures
        does(tail_code(pre.push(call_instr(n, e, ops)), n, k, e), from, e, args, result_reg(n, k, e)),
{
    broadcast use group_machine;

    let c1 = pre.push(call_instr(n, e, ops));
    let code = tail_code(c1, n, k, e);
    assert forall|w: World, m: Machine|
        {
            let after = #[trigger] run(w, code, m);
            &&& one_call(m, after, e.function, given_args(w, m, e.takes, args))
            &&& is_answer(w, after, e.gives, result_reg(n, k, e))
            &&& regs_kept(m, after, from)
        } by {
        let at = run(w, pre, m);
        let after = run(w, code, m);
        let given = given_args(w, m, e.takes, args);
        assert(after.calls.len() == m.calls.len() + 1);
        let c = after.calls.last();
        assert(after.calls == m.calls.push(c));
        assert(c.memory == at.memory);
        assert forall|i: int| 0 <= i < given.len() implies is_given(c, i, #[trigger] given[i]) by {
            assert(c.args[i] == value(w, at, ops[i].0));
        }
        lemma_number_is_itself(w, run(w, c1, m), 0);
        assert forall|t: Text| older(t, from) implies #[trigger] after.regs[t] == m.regs[t] by {
            assert(at.regs[t] == m.regs[t]);
        }
    }
}

/// An operand that is a string on the stack.
spec fn slot_op(n: nat) -> (Text, Text) {
    (register(n), "ptr"@)
}

/// Code with a string put on the stack behind it.
spec fn with_slot(code: Seq<Instr>, n: nat, val: Text) -> Seq<Instr> {
    code.push(Instr::Alloca { to: register(n), ty: "%yk_string"@ }).push(
        Instr::Store { ty: "%yk_string"@, a: val, at: register(n) },
    )
}

proof fn lemma_prepares_strings(n: nat, from: nat, args: Seq<(Text, Text)>)
    requires
        from <= n,
        args_older(args, from),
    ensures
        args.len() >= 1 ==> prepares(
            with_slot(no_code(), n, args[0].0),
            from,
            no_args().push(slot_op(n)),
            Seq::empty().push(Kind::Str),
            args,
        ),
        args.len() >= 2 ==> prepares(
            with_slot(with_slot(no_code(), n, args[0].0), n + 1, args[1].0),
            from,
            no_args().push(slot_op(n)).push(slot_op(n + 1)),
            Seq::empty().push(Kind::Str).push(Kind::Str),
            args,
        ),
        args.len() >= 3 ==> prepares(
            with_slot(with_slot(with_slot(no_code(), n, args[0].0), n + 1, args[1].0), n + 2, args[2].0),
            from,
            no_args().push(slot_op(n)).push(slot_op(n + 1)).push(slot_op(n + 2)),
            Seq::empty().push(Kind::Str).push(Kind::Str).push(Kind::Str),
            args,
        ),
        args.len() >= 2 ==> prepares(
            with_slot(no_code(), n, args[1].0),
            from,
            no_args().push((args[0].0, "i64"@)).push(slot_op(n)),
            Seq::empty().push(Kind::Whole).push(Kind::Str),
            args,
        ),
{
    broadcast use group_machine;

    if args.len() >= 1 {
        assert(older(args[0].0, from));
    }
    if args.len() >= 2 {
        assert(older(args[1].0, from));
    }
    if args.len() >= 3 {
        assert(older(args[2].0, from));
    }
}

/// The operands are the arguments, and none of them is a string.
spec fn are_values(ops: Seq<(Text, Text)>, takes: Seq<Kind>, args: Seq<(Text, Text)>) -> bool {
    forall|i: int| 0 <= i < ops.len() ==> (#[trigger] ops[i]).0 == args[i].0 && !(takes[i] is Str)
}

proof fn lemma_prepares_values(from: nat, ops: Seq<(Text, Text)>, takes: Seq<Kind>, args: Seq<(Text, Text)>)
    requires
        ops.len() == takes.len() <= args.len(),
        are_values(ops, takes, args),
    ensures
        prepares(no_code(), from, ops, takes, args),
{
}

/// The code for a call of the library is what its entry says.
pub open spec fn is_done(g: Gen, h: Gen, r: (Text, Text), e: Entry, args: Seq<(Text, Text)>) -> bool {
    exists|code: Seq<Instr>| #[trigger] wrote(g, h, code) && does(code, g.label_counter, e, args, r.0)
}

proof fn lemma_one_string_texts(f: Text, p: Text)
    ensures
        f + "(ptr "@ + p + ")"@ == call_text(f, no_args().push((p, "ptr"@))),
{
    lemma_arguments((p, "ptr"@), (p, "ptr"@), (p, "ptr"@));
    reveal_strlit("(ptr ");
    reveal_strlit("(");
    reveal_strlit("ptr");
    reveal_strlit(" ");
    assert("(ptr "@ == "("@ + "ptr"@ + " "@);
    assert(f + "(ptr "@ + p + ")"@ == f + "("@ + ("ptr"@ + " "@ + p) + ")"@);
}

/// A function from a string to a string.
proof fn lemma_string_function(g: Gen, f: Text, args: Seq<(Text, Text)>)
    requires
        args.len() >= 1,
        g.label_counter + 4 <= usize::MAX,
        args_older(args, g.label_counter),
    ensures
        is_done(
            g,
            g.string_function(f, args).0,
            g.string_function(f, args).1,
            entry1(f, Kind::Str, Kind::Str)->0,
            args,
        ),
{
    let n = g.label_counter;
    let e = entry1(f, Kind::Str, Kind::Str)->0;
    lemma_wrote_nothing(g);
    lemma_string_to_ptr(g, g, no_code(), args[0].0);
    let g1 = g.string_to_ptr(args[0].0).0;
    let ops = no_args().push(slot_op(n));
    lemma_one_string_texts(f, register(n));
    let pre = with_slot(no_code(), n, args[0].0);
    lemma_call_string(g, g1, pre, f, ops, f + "(ptr "@ + register(n) + ")"@);
    lemma_prepares_strings(n, n, args);
    lemma_does(n, pre, ops, n + 1, n + 2, e, args);
}

/// A question about a string.
proof fn lemma_string_question(g: Gen, f: Text, args: Seq<(Text, Text)>)
    requires
        args.len() >= 1,
        g.label_counter + 4 <= usize::MAX,
        args_older(args, g.label_counter),
    ensures
        is_done(
            g,
            g.string_question(f, args).0,
            g.string_question(f, args).1,
            entry1(f, Kind::Str, Kind::Flag)->0,
            args,
        ),
{
    let n = g.label_counter;
    let e = entry1(f, Kind::Str, Kind::Flag)->0;
    lemma_wrote_nothing(g);
    lemma_string_to_ptr(g, g, no_code(), args[0].0);
    let g1 = g.string_to_ptr(args[0].0).0;
    let ops = no_args().push(slot_op(n));
    lemma_one_string_texts(f, register(n));
    let pre = with_slot(no_code(), n, args[0].0);
    lemma_call_flag(g, g1, pre, f, ops, f + "(ptr "@ + register(n) + ")"@);
    lemma_prepares_strings(n, n, args);
    lemma_does(n, pre, ops, n + 1, n + 2, e, args);
}

proof fn lemma_more_texts(f: Text, a: Text, b: Text, c: Text)
    ensures
        f + "()"@ == call_text(f, no_args()),
        f + "(ptr "@ + a + ", ptr "@ + b + ")"@ == call_text(f, no_args().push((a, "ptr"@)).push((b, "ptr"@))),
        f + "(ptr "@ + a + ", ptr "@ + b + ", ptr "@ + c + ")"@ == call_text(
            f,
            no_args().push((a, "ptr"@)).push((b, "ptr"@)).push((c, "ptr"@)),
        ),
        f + "(i64 "@ + a + ")"@ == call_text(f, no_args().push((a, "i64"@))),
        f + "(i64 "@ + a + ", ptr "@ + b + ")"@ == call_text(f, no_args().push((a, "i64"@)).push((b, "ptr"@))),
        f + "(double "@ + a + ")"@ == call_text(f, no_args().push((a, "double"@))),
        f + "(double "@ + a + ", double "@ + b + ")"@ == call_text(
            f,
            no_args().push((a, "double"@)).push((b, "double"@)),
        ),
{
    lemma_arguments((a, "ptr"@), (b, "ptr"@), (c, "ptr"@));
    lemma_arguments((a, "i64"@), (b, "ptr"@), (c, "ptr"@));
    lemma_arguments((a, "double"@), (b, "double"@), (c, "ptr"@));
    reveal_strlit("()");
    reveal_strlit("(");
    reveal_strlit(")");
    reveal_strlit("");
    reveal_strlit("(ptr ");
    reveal_strlit("ptr");
    reveal_strlit(" ");
    reveal_strlit(", ptr ");
    reveal_strlit(", ");
    reveal_strlit("(i64 ");
    reveal_strlit("i64");
    reveal_strlit("(double ");
    reveal_strlit("double");
    reveal_strlit(", double ");
    assert("()"@ == "("@ + ""@ + ")"@);
    assert("(ptr "@ == "("@ + "ptr"@ + " "@);
    assert(", ptr "@ == ", "@ + "ptr"@ + " "@);
    assert("(i64 "@ == "("@ + "i64"@ + " "@);
    assert("(double "@ == "("@ + "double"@ + " "@);
    assert(", double "@ == ", "@ + "double"@ + " "@);
    let pa = "ptr"@ + " "@ + a;
    let pb = "ptr"@ + " "@ + b;
    let pc = "ptr"@ + " "@ + c;
    assert(f + "()"@ == f + "("@ + ""@ + ")"@);
    assert(f + "(ptr "@ + a + ", ptr "@ + b + ")"@ == f + "("@ + (pa + ", "@ + pb) + ")"@);
    assert(f + "(ptr "@ + a + ", ptr "@ + b + ", ptr "@ + c + ")"@ == f + "("@ + (pa + ", "@ + pb + ", "@ + pc)
        + ")"@);
    assert(f + "(i64 "@ + a + ")"@ == f + "("@ + ("i64"@ + " "@ + a) + ")"@);
    assert(f + "(i64 "@ + a + ", ptr "@ + b + ")"@ == f + "("@ + ("i64"@ + " "@ + a + ", "@ + pb) + ")"@);
    assert(f + "(double "@ + a + ")"@ == f + "("@ + ("double"@ + " "@ + a) + ")"@);
    assert(f + "(double "@ + a + ", double "@ + b + ")"@ == f + "("@ + ("double"@ + " "@ + a + ", "@ + ("double"@
        + " "@ + b)) + ")"@);
}

/// A call without arguments that gives a string or an integer.
proof fn lemma_no_arguments(g: Gen, f: Text, call: Text, args: Seq<(Text, Text)>)
    requires
        call == f + "()"@,
        g.label_counter + 2 <= usize::MAX,
    ensures
        is_done(g, g.call_string(call).0, g.call_string(call).1, entry0(f, Kind::Str)->0, args),
        is_done(g, g.call_int(call).0, g.call_int(call).1, entry0(f, Kind::Whole)->0, args),
{
    let n = g.label_counter;
    lemma_wrote_nothing(g);
    lemma_more_texts(f, f, f, f);
    lemma_call_string(g, g, no_code(), f, no_args(), call);
    lemma_call_int(g, g, no_code(), f, no_args(), call);
    let e = entry0(f, Kind::Str)->0;
    lemma_prepares_values(n, no_args(), e.takes, args);
    lemma_does(n, no_code(), no_args(), n, n + 1, e, args);
    let e = entry0(f, Kind::Whole)->0;
    lemma_prepares_values(n, no_args(), e.takes, args);
    lemma_does(n, no_code(), no_args(), n, n + 1, e, args);
}

/// A call with an integer, of which nothing is kept.
proof fn lemma_void_with_integer(g: Gen, f: Text, line: Text, args: Seq<(Text, Text)>)
    requires
        args.len() >= 1,
        line == "call void @"@ + (f + "(i64 "@ + args[0].0 + ")"@),
    ensures
        is_done(g, g.e(line), ("0"@, "void"@), entry1(f, Kind::Whole, Kind::Nothing)->0, args),
{
    let n = g.label_counter;
    lemma_wrote_nothing(g);
    lemma_more_texts(f, args[0].0, f, f);
    let ops = no_args().push((args[0].0, "i64"@));
    lemma_call_void(g, g, no_code(), f, ops, line);
    let e = entry1(f, Kind::Whole, Kind::Nothing)->0;
    lemma_prepares_values(n, ops, e.takes, args);
    lemma_does(n, no_code(), ops, n, n + 1, e, args);
    lemma_result_is_free(tail_code(no_code().push(call_instr(n, e, ops)), n, n + 1, e), n, e, args, register(n), "0"@);
}

/// Where nothing is given, the value does not matter.
proof fn lemma_result_is_free(code: Seq<Instr>, from: nat, e: Entry, args: Seq<(Text, Text)>, r: Text, s: Text)
    requires
        does(code, from, e, args, r),
        e.gives is Nothing,
    ensures
        does(code, from, e, args, s),
{
}

/// A call with a value that gives a number: `ret` is its type, `ty` that of the value.
proof fn lemma_number_call(
    g: Gen,
    tmp: Gen,
    e: Entry,
    ret: Text,
    ops: Seq<(Text, Text)>,
    line: Text,
    args: Seq<(Text, Text)>,
)
    requires
        g.label_counter < usize::MAX,
        tmp == g.fresh_label().0,
        (e.gives is Real && ret == "double"@) || (e.gives is Whole && ret == "i64"@),
        ops.len() == e.takes.len() <= args.len(),
        are_values(ops, e.takes, args),
        line == "%"@ + g.fresh_label().1 + " = call "@ + ret + " @"@ + call_text(e.function, ops),
    ensures
        is_done(g, tmp.e(line), ("%"@ + g.fresh_label().1, ret), e, args),
{
    let n = g.label_counter;
    lemma_prepares_values(n, ops, e.takes, args);
    reveal_strlit(" @");
    reveal_strlit(" ");
    reveal_strlit("@");
    lemma_wrote_nothing(g);
    lemma_then_label(g, g, no_code());
    let i = Instr::Call { to: register(n), ret, function: "@"@ + e.function, args: ops };
    assert(" @"@ == " "@ + "@"@);
    assert(line == instr_text(i));
    lemma_then(g, tmp, no_code(), i, line);
    lemma_does(n, no_code(), ops, n, n + 1, e, args);
}

/// The result that a value is part of does not depend on the type.
proof fn lemma_type_is_free(g: Gen, h: Gen, r: Text, a: Text, b: Text, e: Entry, args: Seq<(Text, Text)>)
    requires
        is_done(g, h, (r, a), e, args),
    ensures
        is_done(g, h, (r, b), e, args),
{
}

/// Calls of `math`.
proof fn lemma_math(g: Gen, f: Text, args: Seq<(Text, Text)>)
    requires
        math_entry(f) is Some,
        args.len() >= math_entry(f)->0.takes.len(),
        g.label_counter + 4 <= usize::MAX,
    ensures
        is_done(g, g.call_math(f, args).0, g.call_math(f, args).1, math_entry(f)->0, args),
{
    reveal_strlit(" = call double @yk_math_");
    reveal_strlit(" = call ");
    reveal_strlit("double");
    reveal_strlit(" @");
    reveal_strlit("yk_math_");
    reveal_strlit(" = call i64 @yk_math_rand(i64 ");
    reveal_strlit("i64");
    reveal_strlit("yk_math_rand");
    reveal_strlit("(i64 ");
    let e = math_entry(f)->0;
    let (g1, tmp) = g.fresh_label();
    assert(" = call double @yk_math_"@ == " = call "@ + "double"@ + " @"@ + "yk_math_"@);
    assert(" = call i64 @yk_math_rand(i64 "@ == " = call "@ + "i64"@ + " @"@ + "yk_math_rand"@ + "(i64 "@);
    if f == "sqrt"@ || f == "sin"@ || f == "cos"@ || f == "floor"@ || f == "ceil"@ || f == "round"@ {
        let a = args[0].0;
        let ops = no_args().push((a, "double"@));
        lemma_more_texts(e.function, a, a, a);
        let line = "%"@ + tmp + " = call double @yk_math_"@ + f + "(double "@ + a + ")"@;
        assert(line == "%"@ + tmp + " = call "@ + "double"@ + " @"@ + (e.function + "(double "@ + a + ")"@));
        lemma_number_call(g, g1, e, "double"@, ops, line, args);
    } else if f == "pow"@ || f == "max"@ || f == "min"@ {
        let a = args[0].0;
        let b = args[1].0;
        let ops = no_args().push((a, "double"@)).push((b, "double"@));
        lemma_more_texts(e.function, a, b, a);
        let line = "%"@ + tmp + " = call double @yk_math_"@ + f + "(double "@ + a + ", double "@ + b + ")"@;
        assert(line == "%"@ + tmp + " = call "@ + "double"@ + " @"@ + (e.function + "(double "@ + a + ", double "@
            + b + ")"@));
        lemma_number_call(g, g1, e, "double"@, ops, line, args);
    } else {
        let a = args[0].0;
        let ops = no_args().push((a, "i64"@));
        lemma_more_texts(e.function, a, a, a);
        let line = "%"@ + tmp + " = call i64 @yk_math_rand(i64 "@ + a + ")"@;
        assert(line == "%"@ + tmp + " = call "@ + "i64"@ + " @"@ + ("yk_math_rand"@ + "(i64 "@ + a + ")"@));
        lemma_number_call(g, g1, e, "i64"@, ops, line, args);
    }
}

/// Calls of `time`.
proof fn lemma_time(g: Gen, f: Text, args: Seq<(Text, Text)>)
    requires
        time_entry(f) is Some,
        args.len() >= time_entry(f)->0.takes.len(),
        g.label_counter + 4 <= usize::MAX,
    ensures
        is_done(g, g.call_time(f, args).0, g.call_time(f, args).1, time_entry(f)->0, args),
{
    reveal_strlit("()");
    reveal_strlit("yk_time_now()");
    reveal_strlit("yk_time_now");
    reveal_strlit("yk_time_timestamp()");
    reveal_strlit("yk_time_timestamp");
    reveal_strlit("call void @yk_time_sleep(i64 ");
    reveal_strlit("call void @");
    reveal_strlit("yk_time_sleep");
    reveal_strlit("(i64 ");
    if f == "now"@ {
        assert("yk_time_now()"@ == "yk_time_now"@ + "()"@);
        lemma_no_arguments(g, "yk_time_now"@, "yk_time_now()"@, args);
    } else if f == "sleep"@ {
        let a = args[0].0;
        let line = "call void @yk_time_sleep(i64 "@ + a + ")"@;
        assert("call void @yk_time_sleep(i64 "@ == "call void @"@ + "yk_time_sleep"@ + "(i64 "@);
        assert(line == "call void @"@ + ("yk_time_sleep"@ + "(i64 "@ + a + ")"@));
        lemma_void_with_integer(g, "yk_time_sleep"@, line, args);
    } else {
        assert("yk_time_timestamp()"@ == "yk_time_timestamp"@ + "()"@);
        lemma_no_arguments(g, "yk_time_timestamp"@, "yk_time_timestamp()"@, args);
    }
}

/// Calls of `sys`.
proof fn lemma_sys(g: Gen, f: Text, args: Seq<(Text, Text)>)
    requires
        sys_entry(f) is Some,
        args.len() >= sys_entry(f)->0.takes.len(),
        g.label_counter + 4 <= usize::MAX,
        args_older(args, g.label_counter),
    ensures
        is_done(g, g.call_sys(f, args).0, g.call_sys(f, args).1, sys_entry(f)->0, args),
{
    reveal_strlit("()");
    reveal_strlit("yk_sys_pid()");
    reveal_strlit("yk_sys_pid");
    reveal_strlit("yk_sys_cwd()");
    reveal_strlit("yk_sys_cwd");
    reveal_strlit("yk_sys_platform()");
    reveal_strlit("yk_sys_platform");
    reveal_strlit("call void @yk_sys_exit(i64 ");
    reveal_strlit("call void @");
    reveal_strlit("yk_sys_exit");
    reveal_strlit("(i64 ");
    reveal_strlit(" = call ptr @yk_sys_env(ptr ");
    reveal_strlit(" = call ");
    reveal_strlit("ptr");
    reveal_strlit(" @");
    reveal_strlit(" ");
    reveal_strlit("@");
    reveal_strlit("yk_sys_env");
    reveal_strlit("(ptr ");
    if f == "pid"@ {
        assert("yk_sys_pid()"@ == "yk_sys_pid"@ + "()"@);
        lemma_no_arguments(g, "yk_sys_pid"@, "yk_sys_pid()"@, args);
    } else if f == "exit"@ {
        let a = args[0].0;
        let line = "call void @yk_sys_exit(i64 "@ + a + ")"@;
        assert("call void @yk_sys_exit(i64 "@ == "call void @"@ + "yk_sys_exit"@ + "(i64 "@);
        assert(line == "call void @"@ + ("yk_sys_exit"@ + "(i64 "@ + a + ")"@));
        lemma_void_with_integer(g, "yk_sys_exit"@, line, args);
    } else if f == "cwd"@ {
        assert("yk_sys_cwd()"@ == "yk_sys_cwd"@ + "()"@);
        lemma_no_arguments(g, "yk_sys_cwd"@, "yk_sys_cwd()"@, args);
    } else if f == "platform"@ {
        assert("yk_sys_platform()"@ == "yk_sys_platform"@ + "()"@);
        lemma_no_arguments(g, "yk_sys_platform"@, "yk_sys_platform()"@, args);
    } else {
        let n = g.label_counter;
        let a = args[0].0;
        let e = sys_entry(f)->0;
        lemma_wrote_nothing(g);
        lemma_then_label(g, g, no_code());
        let (g1, t) = g.fresh_label();
        lemma_string_to_ptr(g, g1, no_code(), a);
        let g2 = g1.string_to_ptr(a).0;
        let pre = with_slot(no_code(), n + 1, a);
        let ops = no_args().push(slot_op(n + 1));
        lemma_one_string_texts("yk_sys_env"@, register(n + 1));
        let i = Instr::Call { to: register(n), ret: "ptr"@, function: "@"@ + "yk_sys_env"@, args: ops };
        let line = "%"@ + t + " = call ptr @yk_sys_env(ptr "@ + register(n + 1) + ")"@;
        assert(" = call ptr @yk_sys_env(ptr "@ == " = call "@ + "ptr"@ + " "@ + "@"@ + "yk_sys_env"@ + "(ptr "@);
        assert(line == "%"@ + t + " = call "@ + "ptr"@ + " "@ + ("@"@ + "yk_sys_env"@) + "(ptr "@ + register(n + 1)
            + ")"@);
        assert(call_text("yk_sys_env"@, ops) == "yk_sys_env"@ + ("(ptr "@ + register(n + 1) + ")"@));
        assert(instr_text(i) == "%"@ + t + " = call "@ + "ptr"@ + " "@ + "@"@ + call_text("yk_sys_env"@, ops));
        assert(line == instr_text(i));
        lemma_then(g, g2, pre, i, line);
        lemma_load_string(g, g2.e(line), pre.push(i), register(n));
        lemma_prepares_strings(n + 1, n, args);
        lemma_does(n, pre, ops, n, n + 2, e, args);
    }
}

/// Calls of `path`.
proof fn lemma_path(g: Gen, f: Text, args: Seq<(Text, Text)>)
    requires
        path_entry(f) is Some,
        args.len() >= path_entry(f)->0.takes.len(),
        g.label_counter + 4 <= usize::MAX,
        args_older(args, g.label_counter),
    ensures
        is_done(g, g.call_path(f, args).0, g.call_path(f, args).1, path_entry(f)->0, args),
{
    reveal_strlit("yk_path_join(ptr ");
    reveal_strlit("yk_path_join");
    reveal_strlit("(ptr ");
    if f == "join"@ {
        let n = g.label_counter;
        let e = path_entry(f)->0;
        lemma_wrote_nothing(g);
        lemma_string_to_ptr(g, g, no_code(), args[0].0);
        let g1 = g.string_to_ptr(args[0].0).0;
        let c1 = with_slot(no_code(), n, args[0].0);
        lemma_string_to_ptr(g, g1, c1, args[1].0);
        let g2 = g1.string_to_ptr(args[1].0).0;
        let pre = with_slot(c1, n + 1, args[1].0);
        let ops = no_args().push(slot_op(n)).push(slot_op(n + 1));
        lemma_more_texts("yk_path_join"@, register(n), register(n + 1), f);
        let call = "yk_path_join(ptr "@ + register(n) + ", ptr "@ + register(n + 1) + ")"@;
        assert("yk_path_join(ptr "@ == "yk_path_join"@ + "(ptr "@);
        lemma_call_string(g, g2, pre, "yk_path_join"@, ops, call);
        lemma_prepares_strings(n, n, args);
        lemma_does(n, pre, ops, n + 2, n + 3, e, args);
    } else if f == "dirname"@ || f == "basename"@ || f == "extension"@ {
        lemma_string_function(g, "yk_path_"@ + f, args);
    } else {
        lemma_string_question(g, "yk_path_is_absolute"@, args);
    }
}

/// Calls of `fs`.
proof fn lemma_fs(g: Gen, f: Text, args: Seq<(Text, Text)>)
    requires
        fs_entry(f) is Some,
        args.len() >= fs_entry(f)->0.takes.len(),
        g.label_counter + 4 <= usize::MAX,
        args_older(args, g.label_counter),
    ensures
        is_done(g, g.call_fs(f, args).0, g.call_fs(f, args).1, fs_entry(f)->0, args),
{
    reveal_strlit("call void @yk_fs_");
    reveal_strlit("call void @");
    reveal_strlit("yk_fs_");
    reveal_strlit("call void @yk_fs_remove(ptr ");
    reveal_strlit("yk_fs_remove");
    reveal_strlit("(ptr ");
    let n = g.label_counter;
    let e = fs_entry(f)->0;
    assert("call void @yk_fs_"@ == "call void @"@ + "yk_fs_"@);
    assert("call void @yk_fs_remove(ptr "@ == "call void @"@ + "yk_fs_remove"@ + "(ptr "@);
    lemma_wrote_nothing(g);
    if f == "read"@ {
        lemma_string_function(g, "yk_fs_read"@, args);
    } else if f == "write"@ || f == "append"@ {
        lemma_string_to_ptr(g, g, no_code(), args[0].0);
        let g1 = g.string_to_ptr(args[0].0).0;
        let c1 = with_slot(no_code(), n, args[0].0);
        lemma_string_to_ptr(g, g1, c1, args[1].0);
        let g2 = g1.string_to_ptr(args[1].0).0;
        let pre = with_slot(c1, n + 1, args[1].0);
        let ops = no_args().push(slot_op(n)).push(slot_op(n + 1));
        lemma_more_texts("yk_fs_"@ + f, register(n), register(n + 1), f);
        let line = "call void @yk_fs_"@ + f + "(ptr "@ + register(n) + ", ptr "@ + register(n + 1) + ")"@;
        assert(line == "call void @"@ + (("yk_fs_"@ + f) + "(ptr "@ + register(n) + ", ptr "@ + register(n + 1)
            + ")"@));
        lemma_call_void(g, g2, pre, "yk_fs_"@ + f, ops, line);
        lemma_prepares_strings(n, n, args);
        lemma_does(n, pre, ops, n + 2, n + 3, e, args);
        lemma_result_is_free(
            tail_code(pre.push(call_instr(n + 2, e, ops)), n + 2, n + 3, e),
            n,
            e,
            args,
            register(n + 2),
            "0"@,
        );
    } else if f == "remove"@ {
        lemma_string_to_ptr(g, g, no_code(), args[0].0);
        let g1 = g.string_to_ptr(args[0].0).0;
        let pre = with_slot(no_code(), n, args[0].0);
        let ops = no_args().push(slot_op(n));
        lemma_one_string_texts("yk_fs_remove"@, register(n));
        let line = "call void @yk_fs_remove(ptr "@ + register(n) + ")"@;
        assert(line == "call void @"@ + ("yk_fs_remove"@ + "(ptr "@ + register(n) + ")"@));
        lemma_call_void(g, g1, pre, "yk_fs_remove"@, ops, line);
        lemma_prepares_strings(n, n, args);
        lemma_does(n, pre, ops, n + 1, n + 2, e, args);
        lemma_result_is_free(
            tail_code(pre.push(call_instr(n + 1, e, ops)), n + 1, n + 2, e),
            n,
            e,
            args,
            register(n + 1),
            "0"@,
        );
    } else {
        lemma_string_question(g, "yk_fs_"@ + f, args);
    }
}

/// Calls of `re`.
proof fn lemma_re(g: Gen, f: Text, args: Seq<(Text, Text)>)
    requires
        re_entry(f) is Some,
        args.len() >= re_entry(f)->0.takes.len(),
        g.label_counter + 8 <= usize::MAX,
        args_older(args, g.label_counter),
    ensures
        is_done(g, g.call_re(f, args).0, g.call_re(f, args).1, re_entry(f)->0, args),
{
    reveal_strlit("yk_re_match(ptr ");
    reveal_strlit("yk_re_match");
    reveal_strlit("(ptr ");
    reveal_strlit("yk_re_replace(ptr ");
    reveal_strlit("yk_re_replace");
    let n = g.label_counter;
    let e = re_entry(f)->0;
    lemma_wrote_nothing(g);
    lemma_string_to_ptr(g, g, no_code(), args[0].0);
    let g1 = g.string_to_ptr(args[0].0).0;
    let c1 = with_slot(no_code(), n, args[0].0);
    lemma_string_to_ptr(g, g1, c1, args[1].0);
    let g2 = g1.string_to_ptr(args[1].0).0;
    let c2 = with_slot(c1, n + 1, args[1].0);
    lemma_prepares_strings(n, n, args);
    if f == "match"@ {
        let ops = no_args().push(slot_op(n)).push(slot_op(n + 1));
        lemma_more_texts("yk_re_match"@, register(n), register(n + 1), f);
        let call = "yk_re_match(ptr "@ + register(n) + ", ptr "@ + register(n + 1) + ")"@;
        assert("yk_re_match(ptr "@ == "yk_re_match"@ + "(ptr "@);
        lemma_call_flag(g, g2, c2, "yk_re_match"@, ops, call);
        lemma_does(n, c2, ops, n + 2, n + 3, e, args);
    } else {
        lemma_string_to_ptr(g, g2, c2, args[2].0);
        let g3 = g2.string_to_ptr(args[2].0).0;
        let c3 = with_slot(c2, n + 2, args[2].0);
        let ops = no_args().push(slot_op(n)).push(slot_op(n + 1)).push(slot_op(n + 2));
        lemma_more_texts("yk_re_replace"@, register(n), register(n + 1), register(n + 2));
        let call = "yk_re_replace(ptr "@ + register(n) + ", ptr "@ + register(n + 1) + ", ptr "@ + register(n + 2)
            + ")"@;
        assert("yk_re_replace(ptr "@ == "yk_re_replace"@ + "(ptr "@);
        lemma_call_string(g, g3, c3, "yk_re_replace"@, ops, call);
        lemma_does(n, c3, ops, n + 3, n + 4, e, args);
    }
}

/// Calls of `datetime`.
proof fn lemma_datetime(g: Gen, f: Text, args: Seq<(Text, Text)>)
    requires
        datetime_entry(f) is Some,
        args.len() >= datetime_entry(f)->0.takes.len(),
        g.label_counter + 4 <= usize::MAX,
        args_older(args, g.label_counter),
    ensures
        is_done(g, g.call_datetime(f, args).0, g.call_datetime(f, args).1, datetime_entry(f)->0, args),
{
    reveal_strlit("()");
    reveal_strlit("yk_datetime_now()");
    reveal_strlit("yk_datetime_now");
    reveal_strlit("yk_datetime_utc()");
    reveal_strlit("yk_datetime_utc");
    reveal_strlit("yk_time_timestamp()");
    reveal_strlit("yk_time_timestamp");
    reveal_strlit(" = call i64 @yk_datetime_");
    reveal_strlit(" = call ");
    reveal_strlit("i64");
    reveal_strlit(" @");
    reveal_strlit("yk_datetime_");
    reveal_strlit("yk_datetime_format(i64 ");
    reveal_strlit("yk_datetime_format");
    reveal_strlit("(i64 ");
    let n = g.label_counter;
    let e = datetime_entry(f)->0;
    if f == "now"@ {
        assert("yk_datetime_now()"@ == "yk_datetime_now"@ + "()"@);
        lemma_no_arguments(g, "yk_datetime_now"@, "yk_datetime_now()"@, args);
    } else if f == "utc"@ {
        assert("yk_datetime_utc()"@ == "yk_datetime_utc"@ + "()"@);
        lemma_no_arguments(g, "yk_datetime_utc"@, "yk_datetime_utc()"@, args);
    } else if f == "timestamp"@ {
        assert("yk_time_timestamp()"@ == "yk_time_timestamp"@ + "()"@);
        lemma_no_arguments(g, "yk_time_timestamp"@, "yk_time_timestamp()"@, args);
    } else if f == "year"@ || f == "month"@ || f == "day"@ || f == "hour"@ || f == "minute"@ || f == "second"@ {
        let a = args[0].0;
        let (g1, tmp) = g.fresh_label();
        let ops = no_args().push((a, "i64"@));
        lemma_more_texts(e.function, a, a, a);
        assert(" = call i64 @yk_datetime_"@ == " = call "@ + "i64"@ + " @"@ + "yk_datetime_"@);
        let line = "%"@ + tmp + " = call i64 @yk_datetime_"@ + f + "(i64 "@ + a + ")"@;
        assert(line == "%"@ + tmp + " = call "@ + "i64"@ + " @"@ + (e.function + "(i64 "@ + a + ")"@));
        lemma_number_call(g, g1, e, "i64"@, ops, line, args);
    } else {
        let a = args[0].0;
        lemma_wrote_nothing(g);
        lemma_string_to_ptr(g, g, no_code(), args[1].0);
        let g1 = g.string_to_ptr(args[1].0).0;
        let pre = with_slot(no_code(), n, args[1].0);
        let ops = no_args().push((a, "i64"@)).push(slot_op(n));
        lemma_more_texts("yk_datetime_format"@, a, register(n), f);
        let call = "yk_datetime_format(i64 "@ + a + ", ptr "@ + register(n) + ")"@;
        assert("yk_datetime_format(i64 "@ == "yk_datetime_format"@ + "(i64 "@);
        lemma_call_string(g, g1, pre, "yk_datetime_format"@, ops, call);
        lemma_prepares_strings(n, n, args);
        lemma_does(n, pre, ops, n + 1, n + 2, e, args);
    }
}

/// A call of a function of the library calls the function of the runtime that does its work, hands it the
/// arguments in their order, strings by their address, and has its answer for a value. So `fs.write(p, c)`
/// writes `c` to the file `p`.
pub proof fn lemma_library_call(g: Gen, module: Text, f: Text, args: Seq<(Text, Text)>)
    requires
        entry(module, f) is Some,
        args.len() >= entry(module, f)->0.takes.len(),
        g.label_counter + 8 <= usize::MAX,
        args_older(args, g.label_counter),
    ensures
        is_done(
            g,
            g.call_runtime_module(module, f, args).0,
            g.call_runtime_module(module, f, args).1,
            entry(module, f)->0,
            args,
        ),
{
    if module == "math"@ {
        lemma_math(g, f, args);
    } else if module == "time"@ {
        lemma_time(g, f, args);
    } else if module == "sys"@ {
        lemma_sys(g, f, args);
    } else if module == "path"@ {
        lemma_path(g, f, args);
    } else if module == "fs"@ || module == "io"@ {
        lemma_fs(g, f, args);
    } else if module == "base64"@ {
        lemma_string_function(g, "yk_base64_"@ + f, args);
    } else if module == "re"@ || module == "regex"@ {
        lemma_re(g, f, args);
    } else {
        lemma_datetime(g, f, args);
    }
}

// ---------------------------------------------------------------------------------------------
// What else the runtime does
// ---------------------------------------------------------------------------------------------
/// A call with values, of which nothing is kept.
proof fn lemma_void_values(g: Gen, e: Entry, ops: Seq<(Text, Text)>, line: Text, args: Seq<(Text, Text)>, r: (Text, Text))
    requires
        e.gives is Nothing,
        ops.len() == e.takes.len() <= args.len(),
        are_values(ops, e.takes, args),
        line == "call void @"@ + call_text(e.function, ops),
    ensures
        is_done(g, g.e(line), r, e, args),
{
    let n = g.label_counter;
    lemma_wrote_nothing(g);
    lemma_call_void(g, g, no_code(), e.function, ops, line);
    lemma_prepares_values(n, ops, e.takes, args);
    lemma_does(n, no_code(), ops, n, n + 1, e, args);
    let code = tail_code(no_code().push(call_instr(n, e, ops)), n, n + 1, e);
    lemma_result_is_free(code, n, e, args, register(n), r.0);
    assert(wrote(g, g.e(line), code));
}

/// A call with values that gives an integer, through the usual step.
proof fn lemma_int_values(g: Gen, e: Entry, ops: Seq<(Text, Text)>, call: Text, args: Seq<(Text, Text)>)
    requires
        e.gives is Whole,
        g.label_counter < usize::MAX,
        ops.len() == e.takes.len() <= args.len(),
        are_values(ops, e.takes, args),
        call == call_text(e.function, ops),
    ensures
        is_done(g, g.call_int(call).0, g.call_int(call).1, e, args),
{
    let n = g.label_counter;
    lemma_wrote_nothing(g);
    lemma_call_int(g, g, no_code(), e.function, ops, call);
    lemma_prepares_values(n, ops, e.takes, args);
    lemma_does(n, no_code(), ops, n, n + 1, e, args);
}

proof fn lemma_list_texts(f: Text, o: Text, a: Text, b: Text)
    ensures
        f + "(ptr "@ + o + ", i64 "@ + a + ")"@ == call_text(f, no_args().push((o, "ptr"@)).push((a, "i64"@))),
        f + "(ptr "@ + o + ", i64 "@ + a + ", i64 "@ + b + ")"@ == call_text(
            f,
            no_args().push((o, "ptr"@)).push((a, "i64"@)).push((b, "i64"@)),
        ),
        f + "(i64 "@ + a + ", i64 "@ + b + ")"@ == call_text(f, no_args().push((a, "i64"@)).push((b, "i64"@))),
{
    lemma_arguments((o, "ptr"@), (a, "i64"@), (b, "i64"@));
    lemma_arguments((a, "i64"@), (b, "i64"@), (b, "i64"@));
    reveal_strlit("(");
    reveal_strlit("(ptr ");
    reveal_strlit("(i64 ");
    reveal_strlit("ptr");
    reveal_strlit(" ");
    reveal_strlit(", i64 ");
    reveal_strlit(", ");
    reveal_strlit("i64");
    assert("(ptr "@ == "("@ + "ptr"@ + " "@);
    assert("(i64 "@ == "("@ + "i64"@ + " "@);
    assert(", i64 "@ == ", "@ + "i64"@ + " "@);
    let po = "ptr"@ + " "@ + o;
    let ia = "i64"@ + " "@ + a;
    let ib = "i64"@ + " "@ + b;
    assert(f + "(ptr "@ + o + ", i64 "@ + a + ")"@ == f + "("@ + (po + ", "@ + ia) + ")"@);
    assert(f + "(ptr "@ + o + ", i64 "@ + a + ", i64 "@ + b + ")"@ == f + "("@ + (po + ", "@ + ia + ", "@ + ib) + ")"@);
    assert(f + "(i64 "@ + a + ", i64 "@ + b + ")"@ == f + "("@ + (ia + ", "@ + ib) + ")"@);
}

/// The methods of lists: the function of the runtime takes the list first, then the arguments.
pub open spec fn list_entry(f: Text) -> Option<Entry> {
    if f == "push"@ {
        entry2("yk_list_push"@, Kind::Whole, Kind::Whole, Kind::Nothing)
    } else if f == "pop"@ {
        entry1("yk_list_pop"@, Kind::Whole, Kind::Whole)
    } else if f == "len"@ {
        entry1("yk_list_len"@, Kind::Whole, Kind::Whole)
    } else if f == "sort"@ {
        entry1("yk_list_sort"@, Kind::Whole, Kind::Nothing)
    } else if f == "reverse"@ {
        entry1("yk_list_reverse"@, Kind::Whole, Kind::Nothing)
    } else if f == "insert"@ {
        entry3("yk_list_insert"@, Kind::Whole, Kind::Whole, Kind::Whole, Kind::Nothing)
    } else if f == "remove"@ {
        entry2("yk_list_remove"@, Kind::Whole, Kind::Whole, Kind::Nothing)
    } else if f == "clear"@ {
        entry1("yk_list_clear"@, Kind::Whole, Kind::Nothing)
    } else {
        None
    }
}

/// The list, and the integers that a method of it is called with.
pub open spec fn list_args(o_val: Text, args: Seq<(Text, Text)>) -> Seq<(Text, Text)> {
    seq![(o_val, "ptr"@)] + args
}

proof fn lemma_integers_are_themselves(g: Gen, v: Text)
    ensures
        g.pushed_value(v, "i64"@) == (g, v),
        g.to_i64(v, "i64"@) == (g, v),
{
    reveal_strlit("i64");
    reveal_strlit("double");
    reveal_strlit("i1");
    reveal_strlit("%yk_string");
    reveal_strlit("%yk_complex");
    assert("i64"@[0] == 'i' && "i64"@.len() == 3);
    assert("double"@[0] == 'd');
    assert("i1"@.len() == 2);
    assert("%yk_string"@[0] == '%');
    assert("%yk_complex"@[0] == '%');
}

/// A method of a list of integers calls the function of the runtime that does its work, and hands it the list and
/// the arguments in their order.
pub proof fn lemma_list_method(g: Gen, o_val: Text, f: Text, args: Seq<(Text, Text)>)
    requires
        list_entry(f) is Some,
        args.len() + 1 >= list_entry(f)->0.takes.len(),
        forall|i: int| 0 <= i < args.len() ==> (#[trigger] args[i]).1 == "i64"@,
        g.label_counter < usize::MAX,
    ensures
        is_done(
            g,
            g.list_method(o_val, f, args).0,
            g.list_method(o_val, f, args).1,
            list_entry(f)->0,
            list_args(o_val, args),
        ),
{
    reveal_strlit("call void @yk_list_push(ptr ");
    reveal_strlit("call void @");
    reveal_strlit("yk_list_push");
    reveal_strlit("(ptr ");
    reveal_strlit("yk_list_pop(ptr ");
    reveal_strlit("yk_list_pop");
    reveal_strlit("yk_list_len(ptr ");
    reveal_strlit("yk_list_len");
    reveal_strlit("call void @yk_list_sort(ptr ");
    reveal_strlit("yk_list_sort");
    reveal_strlit("call void @yk_list_reverse(ptr ");
    reveal_strlit("yk_list_reverse");
    reveal_strlit("call void @yk_list_insert(ptr ");
    reveal_strlit("yk_list_insert");
    reveal_strlit("call void @yk_list_remove(ptr ");
    reveal_strlit("yk_list_remove");
    reveal_strlit("call void @yk_list_clear(ptr ");
    reveal_strlit("yk_list_clear");
    let e = list_entry(f)->0;
    let all = list_args(o_val, args);
    assert(all[0] == (o_val, "ptr"@));
    let ops1 = no_args().push((o_val, "ptr"@));
    lemma_one_string_texts(e.function, o_val);
    let r = g.list_method(o_val, f, args).1;
    if f == "push"@ {
        let a = args[0].0;
        assert(all[1] == args[0]);
        lemma_integers_are_themselves(g, a);
        lemma_list_texts(e.function, o_val, a, a);
        let line = "call void @yk_list_push(ptr "@ + o_val + ", i64 "@ + a + ")"@;
        assert("call void @yk_list_push(ptr "@ == "call void @"@ + ("yk_list_push"@ + "(ptr "@));
        assert(line == "call void @"@ + ("yk_list_push"@ + "(ptr "@ + o_val + ", i64 "@ + a + ")"@));
        lemma_void_values(g, e, ops1.push((a, "i64"@)), line, all, r);
    } else if f == "pop"@ {
        assert("yk_list_pop(ptr "@ == "yk_list_pop"@ + "(ptr "@);
        lemma_int_values(g, e, ops1, "yk_list_pop(ptr "@ + o_val + ")"@, all);
    } else if f == "len"@ {
        assert("yk_list_len(ptr "@ == "yk_list_len"@ + "(ptr "@);
        lemma_int_values(g, e, ops1, "yk_list_len(ptr "@ + o_val + ")"@, all);
    } else if f == "sort"@ {
        let line = "call void @yk_list_sort(ptr "@ + o_val + ")"@;
        assert("call void @yk_list_sort(ptr "@ == "call void @"@ + ("yk_list_sort"@ + "(ptr "@));
        assert(line == "call void @"@ + ("yk_list_sort"@ + "(ptr "@ + o_val + ")"@));
        lemma_void_values(g, e, ops1, line, all, r);
    } else if f == "reverse"@ {
        let line = "call void @yk_list_reverse(ptr "@ + o_val + ")"@;
        assert("call void @yk_list_reverse(ptr "@ == "call void @"@ + ("yk_list_reverse"@ + "(ptr "@));
        assert(line == "call void @"@ + ("yk_list_reverse"@ + "(ptr "@ + o_val + ")"@));
        lemma_void_values(g, e, ops1, line, all, r);
    } else if f == "insert"@ {
        let a = args[0].0;
        let b = args[1].0;
        assert(args[0].1 == "i64"@ && args[1].1 == "i64"@);
        assert(all[1] == args[0] && all[2] == args[1]);
        lemma_integers_are_themselves(g, b);
        lemma_list_texts(e.function, o_val, a, b);
        let line = "call void @yk_list_insert(ptr "@ + o_val + ", i64 "@ + a + ", i64 "@ + b + ")"@;
        assert("call void @yk_list_insert(ptr "@ == "call void @"@ + ("yk_list_insert"@ + "(ptr "@));
        assert(line == "call void @"@ + ("yk_list_insert"@ + "(ptr "@ + o_val + ", i64 "@ + a + ", i64 "@ + b + ")"@));
        lemma_void_values(g, e, ops1.push((a, "i64"@)).push((b, "i64"@)), line, all, r);
    } else if f == "remove"@ {
        let a = args[0].0;
        assert(args[0].1 == "i64"@);
        assert(all[1] == args[0]);
        lemma_list_texts(e.function, o_val, a, a);
        let line = "call void @yk_list_remove(ptr "@ + o_val + ", i64 "@ + a + ")"@;
        assert("call void @yk_list_remove(ptr "@ == "call void @"@ + ("yk_list_remove"@ + "(ptr "@));
        assert(line == "call void @"@ + ("yk_list_remove"@ + "(ptr "@ + o_val + ", i64 "@ + a + ")"@));
        lemma_void_values(g, e, ops1.push((a, "i64"@)), line, all, r);
    } else {
        let line = "call void @yk_list_clear(ptr "@ + o_val + ")"@;
        assert("call void @yk_list_clear(ptr "@ == "call void @"@ + ("yk_list_clear"@ + "(ptr "@));
        assert(line == "call void @"@ + ("yk_list_clear"@ + "(ptr "@ + o_val + ")"@));
        lemma_void_values(g, e, ops1, line, all, r);
    }
}

/// The operands of an operator, as arguments.
pub open spec fn operands(lc: Text, lt: Text, rc: Text, rt: Text) -> Seq<(Text, Text)> {
    seq![(lc, lt), (rc, rt)]
}

/// Adding two strings joins them: the runtime gets the left one first, and its answer is the value.
pub proof fn lemma_strings_are_joined(g: Gen, lc: Text, rc: Text, target: Text)
    requires
        g.label_counter + 8 <= usize::MAX,
        older(lc, g.label_counter),
        older(rc, g.label_counter),
    ensures
        ({
            let ty = "%yk_string"@;
            let (h, r) = g.emit_binop(BinOp::Add, lc, ty, rc, ty, target);
            is_done(
                g,
                h,
                r,
                entry2("yk_string_concat_ptr"@, Kind::Str, Kind::Str, Kind::Str)->0,
                operands(lc, ty, rc, ty),
            )
        }),
{
    reveal_strlit("%yk_string");
    reveal_strlit("%yk_complex");
    reveal_strlit("double");
    reveal_strlit("float");
    reveal_strlit("%");
    reveal_strlit(" = call ptr @yk_string_concat_ptr(ptr ");
    reveal_strlit(" = call ");
    reveal_strlit("ptr");
    reveal_strlit(" ");
    reveal_strlit("@");
    reveal_strlit("yk_string_concat_ptr");
    reveal_strlit("(ptr ");
    let ty = "%yk_string"@;
    assert(ty[4] == 's');
    assert("%yk_complex"@[4] == 'c');
    assert("double"@[0] == 'd');
    assert("float"@[0] == 'f');
    assert(ty.take(1) == "%"@);
    let n = g.label_counter;
    let args = operands(lc, ty, rc, ty);
    let e = entry2("yk_string_concat_ptr"@, Kind::Str, Kind::Str, Kind::Str)->0;
    lemma_wrote_nothing(g);
    lemma_then_label(g, g, no_code());
    let (g1, tmp) = g.fresh_label();
    lemma_string_to_ptr(g, g1, no_code(), lc);
    let g2 = g1.string_to_ptr(lc).0;
    let c1 = with_slot(no_code(), n + 1, lc);
    lemma_string_to_ptr(g, g2, c1, rc);
    let g3 = g2.string_to_ptr(rc).0;
    let pre = with_slot(c1, n + 2, rc);
    let ops = no_args().push(slot_op(n + 1)).push(slot_op(n + 2));
    lemma_more_texts("yk_string_concat_ptr"@, register(n + 1), register(n + 2), lc);
    let i = Instr::Call { to: register(n), ret: "ptr"@, function: "@"@ + "yk_string_concat_ptr"@, args: ops };
    let line = "%"@ + tmp + " = call ptr @yk_string_concat_ptr(ptr "@ + register(n + 1) + ", ptr "@ + register(n + 2)
        + ")"@;
    assert(" = call ptr @yk_string_concat_ptr(ptr "@ == " = call "@ + "ptr"@ + " "@ + "@"@ + ("yk_string_concat_ptr"@
        + "(ptr "@));
    assert(line == "%"@ + tmp + " = call "@ + "ptr"@ + " "@ + "@"@ + call_text("yk_string_concat_ptr"@, ops));
    assert(line == instr_text(i));
    lemma_then(g, g3, pre, i, line);
    lemma_load_string(g, g3.e(line), pre.push(i), register(n));
    assert(args_older(args, n));
    lemma_prepares_strings(n + 1, n, args);
    lemma_does(n, pre, ops, n, n + 3, e, args);
}

/// A power is computed by the runtime, which gets the base first.
pub proof fn lemma_powers(g: Gen, lc: Text, rc: Text, target: Text)
    requires
        g.label_counter + 4 <= usize::MAX,
    ensures
        ({
            let (h, r) = g.emit_binop(BinOp::Pow, lc, "i64"@, rc, "i64"@, target);
            is_done(
                g,
                h,
                r,
                entry2("yk_pow_int"@, Kind::Whole, Kind::Whole, Kind::Whole)->0,
                operands(lc, "i64"@, rc, "i64"@),
            )
        }),
        ({
            let (h, r) = g.emit_binop(BinOp::Pow, lc, "double"@, rc, "double"@, target);
            is_done(
                g,
                h,
                r,
                entry2("yk_pow_real"@, Kind::Real, Kind::Real, Kind::Real)->0,
                operands(lc, "double"@, rc, "double"@),
            )
        }),
{
    reveal_strlit("%yk_complex");
    reveal_strlit("double");
    reveal_strlit("float");
    reveal_strlit("i64");
    reveal_strlit("%");
    reveal_strlit(" = call double @yk_pow_real(double ");
    reveal_strlit(" = call ");
    reveal_strlit(" @");
    reveal_strlit("yk_pow_real");
    reveal_strlit("(double ");
    reveal_strlit(" = call i64 @yk_pow_int(i64 ");
    reveal_strlit("yk_pow_int");
    reveal_strlit("(i64 ");
    assert("%yk_complex"@[0] == '%');
    assert("double"@[0] == 'd');
    assert("float"@[0] == 'f');
    assert("i64"@[0] == 'i');
    let (g1, tmp) = g.fresh_label();
    let ints = operands(lc, "i64"@, rc, "i64"@);
    let e = entry2("yk_pow_int"@, Kind::Whole, Kind::Whole, Kind::Whole)->0;
    let ops = no_args().push((lc, "i64"@)).push((rc, "i64"@));
    lemma_list_texts("yk_pow_int"@, lc, lc, rc);
    let line = "%"@ + tmp + " = call i64 @yk_pow_int(i64 "@ + lc + ", i64 "@ + rc + ")"@;
    assert(" = call i64 @yk_pow_int(i64 "@ == " = call "@ + "i64"@ + " @"@ + ("yk_pow_int"@ + "(i64 "@));
    assert(line == "%"@ + tmp + " = call "@ + "i64"@ + " @"@ + ("yk_pow_int"@ + "(i64 "@ + lc + ", i64 "@ + rc + ")"@));
    lemma_number_call(g, g1, e, "i64"@, ops, line, ints);
    assert(g.emit_binop(BinOp::Pow, lc, "i64"@, rc, "i64"@, target) == (g1.e(line), ("%"@ + tmp, "i64"@)));
    let reals = operands(lc, "double"@, rc, "double"@);
    let e2 = entry2("yk_pow_real"@, Kind::Real, Kind::Real, Kind::Real)->0;
    let ops2 = no_args().push((lc, "double"@)).push((rc, "double"@));
    lemma_more_texts("yk_pow_real"@, lc, rc, lc);
    let line2 = "%"@ + tmp + " = call double @yk_pow_real(double "@ + lc + ", double "@ + rc + ")"@;
    assert(" = call double @yk_pow_real(double "@ == " = call "@ + "double"@ + " @"@ + ("yk_pow_real"@ + "(double "@));
    assert(line2 == "%"@ + tmp + " = call "@ + "double"@ + " @"@ + ("yk_pow_real"@ + "(double "@ + lc + ", double "@
        + rc + ")"@));
    lemma_number_call(g, g1, e2, "double"@, ops2, line2, reals);
    assert(g.emit_binop(BinOp::Pow, lc, "double"@, rc, "double"@, target) == (g1.e(line2), ("%"@ + tmp, "double"@)));
}

/// The length of a string or of a list is what the runtime counts.
pub proof fn lemma_lengths(g: Gen, args: Seq<(Text, Text)>)
    requires
        args.len() >= 1,
        g.label_counter + 4 <= usize::MAX,
        args_older(args, g.label_counter),
    ensures
        args[0].1 == "%yk_string"@ ==> is_done(
            g,
            g.builtin_len(args).0,
            g.builtin_len(args).1,
            entry1("yk_string_len_ptr"@, Kind::Str, Kind::Whole)->0,
            args,
        ),
        args[0].1 == "ptr"@ ==> is_done(
            g,
            g.builtin_len(args).0,
            g.builtin_len(args).1,
            entry1("yk_list_len"@, Kind::Whole, Kind::Whole)->0,
            args,
        ),
{
    reveal_strlit("yk_string_len_ptr(ptr ");
    reveal_strlit("yk_string_len_ptr");
    reveal_strlit("(ptr ");
    reveal_strlit("yk_list_len(ptr ");
    reveal_strlit("yk_list_len");
    reveal_strlit("%yk_string");
    reveal_strlit("ptr");
    let n = g.label_counter;
    let a = args[0].0;
    assert("%yk_string"@[0] == '%');
    assert("ptr"@[0] == 'p');
    if args[0].1 == "%yk_string"@ {
        let e = entry1("yk_string_len_ptr"@, Kind::Str, Kind::Whole)->0;
        lemma_wrote_nothing(g);
        lemma_string_to_ptr(g, g, no_code(), a);
        let g1 = g.string_to_ptr(a).0;
        let pre = with_slot(no_code(), n, a);
        let ops = no_args().push(slot_op(n));
        lemma_one_string_texts("yk_string_len_ptr"@, register(n));
        assert("yk_string_len_ptr(ptr "@ == "yk_string_len_ptr"@ + "(ptr "@);
        lemma_call_int(g, g1, pre, "yk_string_len_ptr"@, ops, "yk_string_len_ptr(ptr "@ + register(n) + ")"@);
        lemma_prepares_strings(n, n, args);
        lemma_does(n, pre, ops, n + 1, n + 2, e, args);
    }
    if args[0].1 == "ptr"@ {
        let e = entry1("yk_list_len"@, Kind::Whole, Kind::Whole)->0;
        let ops = no_args().push((a, "ptr"@));
        lemma_one_string_texts("yk_list_len"@, a);
        assert("yk_list_len(ptr "@ == "yk_list_len"@ + "(ptr "@);
        lemma_int_values(g, e, ops, "yk_list_len(ptr "@ + a + ")"@, args);
    }
}

/// An absolute value is what the runtime computes for an integer or a real number.
pub proof fn lemma_absolute_values(g: Gen, args: Seq<(Text, Text)>)
    requires
        args.len() >= 1,
        g.label_counter < usize::MAX,
    ensures
        args[0].1 == "i64"@ ==> is_done(
            g,
            g.builtin_abs(args).0,
            g.builtin_abs(args).1,
            entry1("yk_math_abs_i64"@, Kind::Whole, Kind::Whole)->0,
            args,
        ) && is_done(
            g,
            g.call_math("abs"@, args).0,
            g.call_math("abs"@, args).1,
            entry1("yk_math_abs_i64"@, Kind::Whole, Kind::Whole)->0,
            args,
        ),
        args[0].1 != "i64"@ ==> is_done(
            g,
            g.builtin_abs(args).0,
            g.builtin_abs(args).1,
            entry1("yk_math_abs_real"@, Kind::Real, Kind::Real)->0,
            args,
        ) && is_done(
            g,
            g.call_math("abs"@, args).0,
            g.call_math("abs"@, args).1,
            entry1("yk_math_abs_real"@, Kind::Real, Kind::Real)->0,
            args,
        ),
{
    reveal_strlit(" = call i64 @yk_math_abs_i64(i64 ");
    reveal_strlit(" = call ");
    reveal_strlit("i64");
    reveal_strlit(" @");
    reveal_strlit("yk_math_abs_i64");
    reveal_strlit("(i64 ");
    reveal_strlit(" = call double @yk_math_abs_real(double ");
    reveal_strlit("double");
    reveal_strlit("yk_math_abs_real");
    reveal_strlit("(double ");
    let a = args[0].0;
    let (g1, tmp) = g.fresh_label();
    if args[0].1 == "i64"@ {
        let e = entry1("yk_math_abs_i64"@, Kind::Whole, Kind::Whole)->0;
        let ops = no_args().push((a, "i64"@));
        lemma_more_texts("yk_math_abs_i64"@, a, a, a);
        let line = "%"@ + tmp + " = call i64 @yk_math_abs_i64(i64 "@ + a + ")"@;
        assert(" = call i64 @yk_math_abs_i64(i64 "@ == " = call "@ + "i64"@ + " @"@ + ("yk_math_abs_i64"@ + "(i64 "@));
        assert(line == "%"@ + tmp + " = call "@ + "i64"@ + " @"@ + ("yk_math_abs_i64"@ + "(i64 "@ + a + ")"@));
        lemma_number_call(g, g1, e, "i64"@, ops, line, args);
        lemma_type_is_free(g, g1.e(line), "%"@ + tmp, "i64"@, "double"@, e, args);
    } else {
        let e = entry1("yk_math_abs_real"@, Kind::Real, Kind::Real)->0;
        let ops = no_args().push((a, "double"@));
        lemma_more_texts("yk_math_abs_real"@, a, a, a);
        let line = "%"@ + tmp + " = call double @yk_math_abs_real(double "@ + a + ")"@;
        assert(" = call double @yk_math_abs_real(double "@ == " = call "@ + "double"@ + " @"@ + ("yk_math_abs_real"@
            + "(double "@));
        assert(line == "%"@ + tmp + " = call "@ + "double"@ + " @"@ + ("yk_math_abs_real"@ + "(double "@ + a + ")"@));
        lemma_number_call(g, g1, e, "double"@, ops, line, args);
    }
}

/// The function of the runtime that prints a value of a type, and how it takes the value.
pub open spec fn print_entry(ty: Text) -> Option<Entry> {
    if ty == "i64"@ {
        entry1("yk_print_int"@, Kind::Whole, Kind::Nothing)
    } else if ty == "double"@ {
        entry1("yk_print_real"@, Kind::Real, Kind::Nothing)
    } else if ty == "i1"@ {
        entry1("yk_print_bool"@, Kind::Whole, Kind::Nothing)
    } else if ty == "%yk_string"@ {
        entry1("yk_print_str_ptr"@, Kind::Str, Kind::Nothing)
    } else {
        None
    }
}

proof fn lemma_print_texts(a: Text)
    ensures
        "call void @yk_print_int(i64 "@ + a + ")"@ == "call void @"@ + call_text(
            "yk_print_int"@,
            no_args().push((a, "i64"@)),
        ),
        "call void @yk_print_real(double "@ + a + ")"@ == "call void @"@ + call_text(
            "yk_print_real"@,
            no_args().push((a, "double"@)),
        ),
        "call void @yk_print_bool(i1 "@ + a + ")"@ == "call void @"@ + call_text(
            "yk_print_bool"@,
            no_args().push((a, "i1"@)),
        ),
        "call void @yk_print_str_ptr(ptr "@ + a + ")"@ == "call void @"@ + call_text(
            "yk_print_str_ptr"@,
            no_args().push((a, "ptr"@)),
        ),
{
    lemma_arguments((a, "i64"@), (a, "ptr"@), (a, "ptr"@));
    lemma_arguments((a, "double"@), (a, "ptr"@), (a, "ptr"@));
    lemma_arguments((a, "i1"@), (a, "ptr"@), (a, "ptr"@));
    lemma_arguments((a, "ptr"@), (a, "ptr"@), (a, "ptr"@));
    reveal_strlit("call void @");
    reveal_strlit("call void @yk_print_int(i64 ");
    reveal_strlit("yk_print_int");
    reveal_strlit("call void @yk_print_real(double ");
    reveal_strlit("yk_print_real");
    reveal_strlit("call void @yk_print_bool(i1 ");
    reveal_strlit("yk_print_bool");
    reveal_strlit("call void @yk_print_str_ptr(ptr ");
    reveal_strlit("yk_print_str_ptr");
    reveal_strlit("(");
    reveal_strlit("i64");
    reveal_strlit("double");
    reveal_strlit("i1");
    reveal_strlit("ptr");
    reveal_strlit(" ");
    assert("call void @yk_print_int(i64 "@ == "call void @"@ + ("yk_print_int"@ + "("@ + ("i64"@ + " "@)));
    assert("call void @yk_print_real(double "@ == "call void @"@ + ("yk_print_real"@ + "("@ + ("double"@ + " "@)));
    assert("call void @yk_print_bool(i1 "@ == "call void @"@ + ("yk_print_bool"@ + "("@ + ("i1"@ + " "@)));
    assert("call void @yk_print_str_ptr(ptr "@ == "call void @"@ + ("yk_print_str_ptr"@ + "("@ + ("ptr"@ + " "@)));
    assert("call void @yk_print_int(i64 "@ + a + ")"@ == "call void @"@ + ("yk_print_int"@ + "("@ + ("i64"@ + " "@ + a)
        + ")"@));
    assert("call void @yk_print_real(double "@ + a + ")"@ == "call void @"@ + ("yk_print_real"@ + "("@ + ("double"@
        + " "@ + a) + ")"@));
    assert("call void @yk_print_bool(i1 "@ + a + ")"@ == "call void @"@ + ("yk_print_bool"@ + "("@ + ("i1"@ + " "@ + a)
        + ")"@));
    assert("call void @yk_print_str_ptr(ptr "@ + a + ")"@ == "call void @"@ + ("yk_print_str_ptr"@ + "("@ + ("ptr"@
        + " "@ + a) + ")"@));
}

/// Printing a value calls the function of the runtime that prints values of its type, with the value.
pub proof fn lemma_printed_values(g: Gen, av: Text, at: Text)
    requires
        print_entry(at) is Some,
        g.label_counter < usize::MAX,
        older(av, g.label_counter),
    ensures
        is_done(g, g.print_value(av, at), ("0"@, "void"@), print_entry(at)->0, seq![(av, at)]),
{
    reveal_strlit("i64");
    reveal_strlit("double");
    reveal_strlit("i1");
    reveal_strlit("%yk_string");
    reveal_strlit("%__nullable_");
    assert("i64"@[0] == 'i' && "i64"@.len() == 3 && "i1"@.len() == 2 && "i1"@[0] == 'i' && "double"@[0] == 'd'
        && "%yk_string"@[1] == 'y' && "%__nullable_"@[0] == '%' && "%__nullable_"@[1] == '_');
    if begins(at, "%__nullable_"@) {
        assert(at.take(12)[0] == '%' && at.take(12)[1] == '_');
    }
    let n = g.label_counter;
    let e = print_entry(at)->0;
    let args = seq![(av, at)];
    lemma_print_texts(av);
    if at == "i64"@ {
        lemma_void_values(g, e, no_args().push((av, "i64"@)), "call void @yk_print_int(i64 "@ + av + ")"@, args, ("0"@, "void"@));
    } else if at == "double"@ {
        lemma_void_values(g, e, no_args().push((av, "double"@)), "call void @yk_print_real(double "@ + av + ")"@, args, ("0"@, "void"@));
    } else if at == "i1"@ {
        lemma_void_values(g, e, no_args().push((av, "i1"@)), "call void @yk_print_bool(i1 "@ + av + ")"@, args, ("0"@, "void"@));
    } else {
        lemma_wrote_nothing(g);
        lemma_string_to_ptr(g, g, no_code(), av);
        let g1 = g.string_to_ptr(av).0;
        let pre = with_slot(no_code(), n, av);
        let ops = no_args().push(slot_op(n));
        lemma_print_texts(register(n));
        let line = "call void @yk_print_str_ptr(ptr "@ + register(n) + ")"@;
        lemma_call_void(g, g1, pre, "yk_print_str_ptr"@, ops, line);
        assert(args_older(args, n));
        lemma_prepares_strings(n, n, args);
        lemma_does(n, pre, ops, n + 1, n + 2, e, args);
        let code = tail_code(pre.push(call_instr(n + 1, e, ops)), n + 1, n + 2, e);
        lemma_result_is_free(code, n, e, args, register(n + 1), "0"@);
        assert(wrote(g, g.print_value(av, at), code));
    }
}

// ---------------------------------------------------------------------------------------------
// Calls of the source
// ---------------------------------------------------------------------------------------------
/// The arguments of a call are compiled in their order: the i-th value is that of the i-th argument.
pub proof fn lemma_arguments_in_order(g: Gen, args: Seq<ExprNode>, is_srv: bool)
    ensures
        g.compile_args(args, is_srv).1.len() == args.len(),
        forall|i: int|
            0 <= i < args.len() && !(is_srv && is_function(args[i])) ==> #[trigger] g.compile_args(args, is_srv).1[i]
                == g.compile_args(args.take(i), is_srv).0.compile_expr(args[i]).1,
    decreases args.len(),
{
    if args.len() > 0 {
        let before = args.drop_last();
        lemma_arguments_in_order(g, before, is_srv);
        assert forall|i: int| 0 <= i < args.len() && !(is_srv && is_function(args[i])) implies #[trigger] g.compile_args(
            args,
            is_srv,
        ).1[i] == g.compile_args(args.take(i), is_srv).0.compile_expr(args[i]).1 by {
            if i < before.len() {
                assert(before.take(i) == args.take(i));
                assert(before[i] == args[i]);
            } else {
                assert(args.take(i) == before);
            }
        }
    }
}

/// A call of a function of the library in the source, such as `fs.write(p, c)`, compiles its arguments in their order
/// and then does what its entry says with their values.
pub proof fn lemma_library_call_in_source(g: Gen, expr: ExprNode, module: Text, f: Text)
    requires
        expr.value is Call,
        expr.value->Call_0.value is Field,
        expr.value->Call_0.value->Field_0.value is Ident,
        expr.value->Call_0.value->Field_0.value->Ident_0@ == module,
        expr.value->Call_0.value->Field_1@ == f,
        entry(module, f) is Some,
        expr.value->Call_1@.len() >= entry(module, f)->0.takes.len(),
        ({
            let (h, vals) = g.compile_args(expr.value->Call_1@, is_server_call(*expr.value->Call_0));
            h.label_counter + 8 <= usize::MAX && args_older(vals, h.label_counter)
        }),
    ensures
        ({
            let (h, vals) = g.compile_args(expr.value->Call_1@, is_server_call(*expr.value->Call_0));
            let (k, r) = g.compile_expr(expr);
            &&& vals.len() == expr.value->Call_1@.len()
            &&& is_done(h, k, r, entry(module, f)->0, vals)
        }),
{
    let args = expr.value->Call_1@;
    let is_srv = is_server_call(*expr.value->Call_0);
    let (h, vals) = g.compile_args(args, is_srv);
    lemma_arguments_in_order(g, args, is_srv);
    lemma_library_call(h, module, f, vals);
    assert(runtime_module(module));
    assert(g.compile_expr(expr) == g.compile_call(expr));
    reveal_with_fuel(Gen::compile_call, 2);
    assert(h.module_call(*expr.value->Call_0.value->Field_0, f, vals) == Some(h.call_runtime_module(module, f, vals)));
    assert(g.compile_call(expr) == h.call_runtime_module(module, f, vals));
}

/// A function of the program is called by its linker name, with the arguments in their order, each handed over as it
/// is; that holds where no parameter is an interface or a union.
pub proof fn lemma_function_call(g: Gen, name: Text, args: Seq<(Text, Text)>)
    requires
        g.label_counter < usize::MAX,
        g.fn_param_types_of(g.mangle_name(name)) matches Some(types) ==> forall|i: int|
            0 <= i < types.len() ==> !begins(#[trigger] types[i], "%iface."@) && types[i] != "%yk_variant"@,
    ensures
        ({
            let (h, r) = g.call_function(name, args);
            exists|code: Seq<Instr>| #[trigger]
                wrote(g, h, code) && forall|w: World, m: Machine|
                    {
                        let after = #[trigger] run(w, code, m);
                        let c = after.calls.last();
                        &&& after.calls == m.calls.push(c)
                        &&& c.function == Value::Global("@"@ + g.mangle_name(name))
                        &&& c.args == arg_values(w, m, args)
                        &&& r.1 != "void"@ ==> value(w, after, r.0) == (w.answer)(c)
                    }
        }),
{
    broadcast use group_machine;

    let n = g.label_counter;
    let mangled = g.mangle_name(name);
    lemma_wrote_nothing(g);
    lemma_then_label(g, g, no_code());
    let (g1, tmp) = g.fresh_label();
    assert(g1.mangle_name(name) == mangled);
    assert(g1.fn_param_types_of(mangled) == g.fn_param_types_of(mangled));
    match g1.fn_param_types_of(mangled) {
        Some(types) => {
            lemma_passed_as_they_are(g1, mangled, types, args);
        },
        None => {},
    }
    let list = arguments(args);
    let ret = g1.fn_ret_type(mangled);
    let (h, r) = g.call_function(name, args);
    assert((h, r) == g1.finish_call(tmp, mangled, ret, list));
    if ret == "void"@ {
        let i = Instr::CallVoid { function: "@"@ + mangled, args };
        let line = "call void @"@ + mangled + "("@ + list + ")"@;
        assert(line == "call void @"@ + call_text(mangled, args));
        lemma_call_void(g, g1, no_code(), mangled, args, line);
        assert(wrote(g, h, no_code().push(i)));
    } else {
        reveal_strlit(" @");
        reveal_strlit(" ");
        reveal_strlit("@");
        assert(" @"@ == " "@ + "@"@);
        let i = Instr::Call { to: register(n), ret, function: "@"@ + mangled, args };
        let line = "%"@ + tmp + " = call "@ + ret + " @"@ + mangled + "("@ + list + ")"@;
        assert(line == instr_text(i));
        lemma_then(g, g1, no_code(), i, line);
        assert(wrote(g, h, no_code().push(i)));
    }
}

proof fn lemma_passed_as_they_are(g: Gen, mangled: Text, types: Seq<Text>, args: Seq<(Text, Text)>)
    requires
        forall|i: int|
            0 <= i < types.len() ==> !begins(#[trigger] types[i], "%iface."@) && types[i] != "%yk_variant"@,
    ensures
        g.pass_args(mangled, types, args) == (g, typed(args)),
    decreases args.len(),
{
    if args.len() == 0 {
        assert(typed(args) == Seq::<Text>::empty());
    } else {
        lemma_passed_as_they_are(g, mangled, types, args.drop_last());
        let i = args.len() - 1;
        if i < types.len() {
            assert(!begins(types[i], "%iface."@));
        }
        assert(typed(args) == typed(args.drop_last()).push(args.last().1 + " "@ + args.last().0));
    }
}

/// A function of `math` or of `time` that is called by its bare name is the function of the module.
pub proof fn lemma_bare_names(g: Gen, name: Text, args: Seq<(Text, Text)>)
    ensures
        math_entry(name) is Some ==> g.call_builtin(name, args) == g.call_math(name, args),
        time_entry(name) is Some ==> g.call_builtin(name, args) == g.call_time(name, args),
{
    reveal_strlit("len");
    reveal_strlit("str");
    reveal_strlit("abs");
    reveal_strlit("sqrt");
    reveal_strlit("sin");
    reveal_strlit("cos");
    reveal_strlit("floor");
    reveal_strlit("ceil");
    reveal_strlit("round");
    reveal_strlit("pow");
    reveal_strlit("max");
    reveal_strlit("min");
    reveal_strlit("rand");
    reveal_strlit("now");
    reveal_strlit("sleep");
    reveal_strlit("timestamp");
    assert("len"@[0] == 'l' && "str"@[1] == 't' && "abs"@[0] == 'a' && "sin"@[1] == 'i' && "cos"@[0] == 'c' && "pow"@[0]
        == 'p' && "max"@[1] == 'a' && "min"@[1] == 'i' && "now"@[0] == 'n' && "str"@[0] == 's' && "sin"@[0] == 's'
        && "max"@[0] == 'm' && "min"@[0] == 'm');
    assert("len"@.len() == 3 && "str"@.len() == 3 && "abs"@.len() == 3 && "sqrt"@.len() == 4 && "sin"@.len() == 3
        && "cos"@.len() == 3 && "floor"@.len() == 5 && "ceil"@.len() == 4 && "round"@.len() == 5 && "pow"@.len() == 3
        && "max"@.len() == 3 && "min"@.len() == 3 && "rand"@.len() == 4 && "now"@.len() == 3 && "sleep"@.len() == 5
        && "timestamp"@.len() == 9);
    assert("sqrt"@[0] == 's' && "ceil"@[0] == 'c' && "rand"@[0] == 'r' && "floor"@[0] == 'f' && "round"@[0] == 'r'
        && "sleep"@[0] == 's' && "timestamp"@[0] == 't');
}

/// The entry of a conversion of a value of a type to JSON.
pub open spec fn json_entry(ty: Text) -> Entry {
    if ty == "double"@ {
        entry1("yk_string_from_real"@, Kind::Real, Kind::Str)->0
    } else if ty == "i1"@ {
        entry1("yk_string_from_bool"@, Kind::Whole, Kind::Str)->0
    } else if ty == "%yk_string"@ {
        entry1("yk_json_string"@, Kind::Str, Kind::Str)->0
    } else {
        entry1("yk_string_from_int"@, Kind::Whole, Kind::Str)->0
    }
}

/// A call with values that gives a string.
proof fn lemma_string_values(g: Gen, e: Entry, ops: Seq<(Text, Text)>, call: Text, args: Seq<(Text, Text)>)
    requires
        e.gives is Str,
        g.label_counter + 2 <= usize::MAX,
        ops.len() == e.takes.len() <= args.len(),
        are_values(ops, e.takes, args),
        call == call_text(e.function, ops),
    ensures
        is_done(g, g.call_string(call).0, g.call_string(call).1, e, args),
{
    let n = g.label_counter;
    lemma_wrote_nothing(g);
    lemma_call_string(g, g, no_code(), e.function, ops, call);
    lemma_prepares_values(n, ops, e.takes, args);
    lemma_does(n, no_code(), ops, n, n + 1, e, args);
}

/// `json.stringify` hands its argument to the function of the runtime for the type of the argument.
pub proof fn lemma_stringify(g: Gen, args: Seq<(Text, Text)>)
    requires
        args.len() >= 1,
        g.label_counter + 4 <= usize::MAX,
        args_older(args, g.label_counter),
    ensures
        is_done(
            g,
            g.call_json("stringify"@, args).0,
            g.call_json("stringify"@, args).1,
            json_entry(args[0].1),
            args,
        ),
{
    reveal_strlit("yk_string_from_real(double ");
    reveal_strlit("yk_string_from_real");
    reveal_strlit("(double ");
    reveal_strlit("yk_string_from_bool(i1 ");
    reveal_strlit("yk_string_from_bool");
    reveal_strlit("(");
    reveal_strlit("i1");
    reveal_strlit(" ");
    reveal_strlit("yk_string_from_int(i64 ");
    reveal_strlit("yk_string_from_int");
    reveal_strlit("(i64 ");
    let a = args[0].0;
    let ty = args[0].1;
    let e = json_entry(ty);
    lemma_more_texts(e.function, a, a, a);
    lemma_arguments((a, "i1"@), (a, "i1"@), (a, "i1"@));
    if ty == "double"@ {
        let call = "yk_string_from_real(double "@ + a + ")"@;
        assert("yk_string_from_real(double "@ == "yk_string_from_real"@ + "(double "@);
        lemma_string_values(g, e, no_args().push((a, "double"@)), call, args);
    } else if ty == "i1"@ {
        let call = "yk_string_from_bool(i1 "@ + a + ")"@;
        assert("yk_string_from_bool(i1 "@ == "yk_string_from_bool"@ + "("@ + ("i1"@ + " "@));
        assert(call == "yk_string_from_bool"@ + "("@ + ("i1"@ + " "@ + a) + ")"@);
        lemma_string_values(g, e, no_args().push((a, "i1"@)), call, args);
    } else if ty == "%yk_string"@ {
        lemma_string_function(g, "yk_json_string"@, args);
    } else {
        let call = "yk_string_from_int(i64 "@ + a + ")"@;
        assert("yk_string_from_int(i64 "@ == "yk_string_from_int"@ + "(i64 "@);
        lemma_string_values(g, e, no_args().push((a, "i64"@)), call, args);
    }
}

/// A request in one call hands over the address, the method and the body, in that order.
pub proof fn lemma_fetch(g: Gen, args: Seq<(Text, Text)>)
    requires
        args.len() >= 3,
        args[0].0 != "0"@,
        g.label_counter + 8 <= usize::MAX,
        args_older(args, g.label_counter),
    ensures
        is_done(
            g,
            g.builtin_fetch(args).0,
            g.builtin_fetch(args).1,
            entry3("yk_fetch"@, Kind::Str, Kind::Str, Kind::Str, Kind::Str)->0,
            args,
        ),
{
    reveal_strlit("yk_fetch(ptr ");
    reveal_strlit("yk_fetch");
    reveal_strlit("(ptr ");
    let n = g.label_counter;
    let e = entry3("yk_fetch"@, Kind::Str, Kind::Str, Kind::Str, Kind::Str)->0;
    lemma_wrote_nothing(g);
    lemma_string_to_ptr(g, g, no_code(), args[0].0);
    let g1 = g.string_to_ptr(args[0].0).0;
    let c1 = with_slot(no_code(), n, args[0].0);
    lemma_string_to_ptr(g, g1, c1, args[1].0);
    let g2 = g1.string_to_ptr(args[1].0).0;
    let c2 = with_slot(c1, n + 1, args[1].0);
    lemma_string_to_ptr(g, g2, c2, args[2].0);
    let g3 = g2.string_to_ptr(args[2].0).0;
    let c3 = with_slot(c2, n + 2, args[2].0);
    let ops = no_args().push(slot_op(n)).push(slot_op(n + 1)).push(slot_op(n + 2));
    lemma_more_texts("yk_fetch"@, register(n), register(n + 1), register(n + 2));
    let call = "yk_fetch(ptr "@ + register(n) + ", ptr "@ + register(n + 1) + ", ptr "@ + register(n + 2) + ")"@;
    assert("yk_fetch(ptr "@ == "yk_fetch"@ + "(ptr "@);
    lemma_call_string(g, g3, c3, "yk_fetch"@, ops, call);
    lemma_prepares_strings(n, n, args);
    lemma_does(n, c3, ops, n + 3, n + 4, e, args);
}

/// A connection, a socket or a listener is opened at the address that is given, and a host name that is given is looked
/// up.
pub proof fn lemma_addresses(g: Gen, f: Text, args: Seq<(Text, Text)>)
    requires
        args.len() >= 1,
        args[0].1 == "%yk_string"@,
        g.label_counter + 4 <= usize::MAX,
        args_older(args, g.label_counter),
    ensures
        is_done(g, g.open_at(f, args).0, g.open_at(f, args).1, entry1(f, Kind::Str, Kind::Whole)->0, args),
        is_done(
            g,
            g.builtin_lookup(args).0,
            g.builtin_lookup(args).1,
            entry1("yk_dns_lookup"@, Kind::Str, Kind::Str)->0,
            args,
        ),
{
    reveal_strlit("yk_dns_lookup(ptr ");
    reveal_strlit("yk_dns_lookup");
    reveal_strlit("(ptr ");
    let n = g.label_counter;
    let a = args[0].0;
    lemma_wrote_nothing(g);
    lemma_string_to_ptr(g, g, no_code(), a);
    let g1 = g.string_to_ptr(a).0;
    let pre = with_slot(no_code(), n, a);
    let ops = no_args().push(slot_op(n));
    lemma_prepares_strings(n, n, args);
    lemma_one_string_texts(f, register(n));
    lemma_call_int(g, g1, pre, f, ops, f + "(ptr "@ + register(n) + ")"@);
    lemma_does(n, pre, ops, n + 1, n + 2, entry1(f, Kind::Str, Kind::Whole)->0, args);
    lemma_one_string_texts("yk_dns_lookup"@, register(n));
    assert("yk_dns_lookup(ptr "@ == "yk_dns_lookup"@ + "(ptr "@);
    lemma_call_string(g, g1, pre, "yk_dns_lookup"@, ops, "yk_dns_lookup(ptr "@ + register(n) + ")"@);
    lemma_does(n, pre, ops, n + 1, n + 2, entry1("yk_dns_lookup"@, Kind::Str, Kind::Str)->0, args);
}

} // verus!
