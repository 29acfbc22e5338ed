//! What LLVM instructions do: how each is written, and how it changes a machine.
//!
//! The meanings are those of the LLVM language, not of this generator. What is said of the generator
//! in terms of them is said of the programs that it writes.

use vstd::prelude::*;

use crate::codegen::llvm::names::typed;
use crate::codegen::llvm::state::Gen;
use crate::scan::{ends, is_digit, joined, lemma_dec_reads_back};
use crate::syntax::ast::BinOp;
use crate::text::{dec, int_dec, repeated, Text};

verus! {

// ---------------------------------------------------------------------------------------------
// Machines
// ---------------------------------------------------------------------------------------------
/// A value. A truth value is the integer one or zero, a real number is known by a number of its own.
pub enum Value {
    Int(int),
    Real(int),
    /// The address of what has a name in the module.
    Global(Text),
    /// The address of a place on the stack, which a register of that name was given.
    Slot(Text),
    /// The address of a part of what lies at an address.
    Inside(Box<Value>, int),
    Parts(Seq<Value>),
    Null,
    Undefined,
}

/// A call that a program makes: the function, what it is handed, and what memory holds then.
pub struct Called {
    pub function: Value,
    pub args: Seq<Value>,
    pub memory: Map<Value, Value>,
}

/// What a program has computed so far: its registers, its memory and the calls it made.
pub struct Machine {
    pub regs: Map<Text, Value>,
    pub memory: Map<Value, Value>,
    pub calls: Seq<Called>,
}

/// What a program does not decide itself: arithmetic on real numbers, and what functions that it calls
/// answer and leave in memory.
pub struct World {
    pub real: spec_fn(BinOp, int, int) -> int,
    pub test: spec_fn(BinOp, int, int) -> bool,
    pub real_of: spec_fn(int) -> int,
    pub int_of: spec_fn(int) -> int,
    pub literal: spec_fn(Text) -> int,
    pub answer: spec_fn(Called) -> Value,
    pub after: spec_fn(Called) -> Map<Value, Value>,
}

/// A truth value.
pub open spec fn truth(b: bool) -> int {
    if b {
        1
    } else {
        0
    }
}

/// The integer that a value is.
pub open spec fn int_in(v: Value) -> int {
    match v {
        Value::Int(n) => n,
        _ => 0,
    }
}

/// The real number that a value is.
pub open spec fn real_in(v: Value) -> int {
    match v {
        Value::Real(n) => n,
        _ => 0,
    }
}

/// The parts that a value is made of.
pub open spec fn parts_in(v: Value) -> Seq<Value> {
    match v {
        Value::Parts(s) => s,
        _ => seq![],
    }
}

/// What an operand stands for: a register, a name of the module, or a literal.
pub open spec fn value(w: World, m: Machine, t: Text) -> Value {
    if t.len() > 0 && t[0] == '%' {
        m.regs[t]
    } else if t.len() > 0 && t[0] == '@' {
        Value::Global(t)
    } else if t == "true"@ {
        Value::Int(1)
    } else if t == "false"@ {
        Value::Int(0)
    } else if t == "null"@ {
        Value::Null
    } else if t == "undef"@ || t == "zeroinitializer"@ {
        Value::Undefined
    } else if exists|n: int| int_dec(n) == t {
        Value::Int(choose|n: int| int_dec(n) == t)
    } else {
        Value::Real((w.literal)(t))
    }
}

/// What lies at an address.
pub open spec fn loaded(memory: Map<Value, Value>, at: Value) -> Value {
    match at {
        Value::Inside(base, i) => parts_in(memory[*base])[i],
        _ => memory[at],
    }
}

/// Memory with a value at an address; at the address of a part, the part is set.
pub open spec fn stored(memory: Map<Value, Value>, at: Value, v: Value) -> Map<Value, Value> {
    match at {
        Value::Inside(base, i) => memory.insert(*base, Value::Parts(put_part(parts_in(memory[*base]), i as nat, v))),
        _ => memory.insert(at, v),
    }
}

// ---------------------------------------------------------------------------------------------
// Arithmetic
// ---------------------------------------------------------------------------------------------
/// `x` is an integer of `n` bits; of one bit, a truth value.
pub open spec fn fits(n: nat, x: int) -> bool {
    if n <= 1 {
        0 <= x <= 1
    } else {
        -two_to((n - 1) as nat) <= x < two_to((n - 1) as nat)
    }
}

/// The quotient of two integers, rounded towards zero.
pub open spec fn quotient(a: int, b: int) -> int {
    if a >= 0 && b > 0 {
        a / b
    } else if a < 0 && b > 0 {
        -((-a) / b)
    } else if a >= 0 {
        -(a / (-b))
    } else {
        (-a) / (-b)
    }
}

/// What a quotient leaves over; it has the sign of the dividend.
pub open spec fn remainder(a: int, b: int) -> int {
    a - b * quotient(a, b)
}

/// Two to the power of `n`.
pub open spec fn two_to(n: nat) -> int
    decreases n,
{
    if n == 0 {
        1
    } else {
        2 * two_to((n - 1) as nat)
    }
}

/// An instruction of two operands: an operation or a comparison.
pub enum Opcode {
    Add,
    AddNsw,
    Sub,
    SubNsw,
    MulNsw,
    Sdiv,
    Srem,
    And,
    Or,
    Xor,
    Shl,
    Ashr,
    Fadd,
    Fsub,
    Fmul,
    Fdiv,
    Frem,
    IntEq,
    IntNe,
    IntOeq,
    IntOne,
    IntSlt,
    IntSgt,
    IntSle,
    IntSge,
    RealOeq,
    RealOne,
    RealOlt,
    RealOgt,
    RealOle,
    RealOge,
}

/// How an instruction of two operands is written.
pub open spec fn opcode_text(op: Opcode) -> Text {
    match op {
        Opcode::Add => "add"@,
        Opcode::AddNsw => "add nsw"@,
        Opcode::Sub => "sub"@,
        Opcode::SubNsw => "sub nsw"@,
        Opcode::MulNsw => "mul nsw"@,
        Opcode::Sdiv => "sdiv"@,
        Opcode::Srem => "srem"@,
        Opcode::And => "and"@,
        Opcode::Or => "or"@,
        Opcode::Xor => "xor"@,
        Opcode::Shl => "shl"@,
        Opcode::Ashr => "ashr"@,
        Opcode::Fadd => "fadd"@,
        Opcode::Fsub => "fsub"@,
        Opcode::Fmul => "fmul"@,
        Opcode::Fdiv => "fdiv"@,
        Opcode::Frem => "frem"@,
        Opcode::IntEq => "icmp eq"@,
        Opcode::IntNe => "icmp ne"@,
        Opcode::IntOeq => "icmp oeq"@,
        Opcode::IntOne => "icmp one"@,
        Opcode::IntSlt => "icmp slt"@,
        Opcode::IntSgt => "icmp sgt"@,
        Opcode::IntSle => "icmp sle"@,
        Opcode::IntSge => "icmp sge"@,
        Opcode::RealOeq => "fcmp oeq"@,
        Opcode::RealOne => "fcmp one"@,
        Opcode::RealOlt => "fcmp olt"@,
        Opcode::RealOgt => "fcmp ogt"@,
        Opcode::RealOle => "fcmp ole"@,
        Opcode::RealOge => "fcmp oge"@,
    }
}

/// What an instruction of two operands of `n` bits computes; nothing is known of the value of an operation that
/// has none, such as a division by zero. `oeq` and `one` ask for operands that can be compared, which
/// integers always can.
pub open spec fn computed(w: World, op: Opcode, n: nat, a: Value, b: Value) -> Value {
    let x = int_in(a);
    let y = int_in(b);
    let r = real_in(a);
    let s = real_in(b);
    match op {
        Opcode::Add | Opcode::AddNsw => if fits(n, x + y) {
            Value::Int(x + y)
        } else {
            Value::Undefined
        },
        Opcode::Sub | Opcode::SubNsw => if fits(n, x - y) {
            Value::Int(x - y)
        } else {
            Value::Undefined
        },
        Opcode::MulNsw => if fits(n, x * y) {
            Value::Int(x * y)
        } else {
            Value::Undefined
        },
        Opcode::Sdiv => if y != 0 && fits(n, quotient(x, y)) {
            Value::Int(quotient(x, y))
        } else {
            Value::Undefined
        },
        Opcode::Srem => if y != 0 && fits(n, quotient(x, y)) {
            Value::Int(remainder(x, y))
        } else {
            Value::Undefined
        },
        Opcode::And => Value::Int(((x as i64) & (y as i64)) as int),
        Opcode::Or => Value::Int(((x as i64) | (y as i64)) as int),
        Opcode::Xor => Value::Int(((x as i64) ^ (y as i64)) as int),
        Opcode::Shl => if 0 <= y < n && fits(n, x * two_to(y as nat)) {
            Value::Int(x * two_to(y as nat))
        } else {
            Value::Undefined
        },
        Opcode::Ashr => if 0 <= y < n {
            Value::Int(x / two_to(y as nat))
        } else {
            Value::Undefined
        },
        Opcode::Fadd => Value::Real((w.real)(BinOp::Add, r, s)),
        Opcode::Fsub => Value::Real((w.real)(BinOp::Sub, r, s)),
        Opcode::Fmul => Value::Real((w.real)(BinOp::Mul, r, s)),
        Opcode::Fdiv => Value::Real((w.real)(BinOp::Div, r, s)),
        Opcode::Frem => Value::Real((w.real)(BinOp::Mod, r, s)),
        Opcode::IntEq | Opcode::IntOeq => Value::Int(truth(x == y)),
        Opcode::IntNe | Opcode::IntOne => Value::Int(truth(x != y)),
        Opcode::IntSlt => Value::Int(truth(x < y)),
        Opcode::IntSgt => Value::Int(truth(x > y)),
        Opcode::IntSle => Value::Int(truth(x <= y)),
        Opcode::IntSge => Value::Int(truth(x >= y)),
        Opcode::RealOeq => Value::Int(truth((w.test)(BinOp::Eq, r, s))),
        Opcode::RealOne => Value::Int(truth((w.test)(BinOp::Ne, r, s))),
        Opcode::RealOlt => Value::Int(truth((w.test)(BinOp::Lt, r, s))),
        Opcode::RealOgt => Value::Int(truth((w.test)(BinOp::Gt, r, s))),
        Opcode::RealOle => Value::Int(truth((w.test)(BinOp::Le, r, s))),
        Opcode::RealOge => Value::Int(truth((w.test)(BinOp::Ge, r, s))),
    }
}

/// An instruction that turns a value of one type into one of another.
pub enum Cast {
    Sext,
    Zext,
    Trunc,
    Sitofp,
    Fptosi,
    Bitcast,
    Ptrtoint,
    Inttoptr,
}

/// How a conversion is written.
pub open spec fn cast_text(op: Cast) -> Text {
    match op {
        Cast::Sext => "sext"@,
        Cast::Zext => "zext"@,
        Cast::Trunc => "trunc"@,
        Cast::Sitofp => "sitofp"@,
        Cast::Fptosi => "fptosi"@,
        Cast::Bitcast => "bitcast"@,
        Cast::Ptrtoint => "ptrtoint"@,
        Cast::Inttoptr => "inttoptr"@,
    }
}

/// How many bits an integer type has.
pub open spec fn bits(ty: Text) -> nat {
    if ty == "i1"@ {
        1
    } else if ty == "i8"@ {
        8
    } else if ty == "i16"@ {
        16
    } else if ty == "i32"@ {
        32
    } else {
        64
    }
}

/// The integer of `n` bits that has the last bits of `x`.
pub open spec fn cut(x: int, n: nat) -> int {
    let low = x % two_to(n);
    if n > 0 && low >= two_to((n - 1) as nat) {
        low - two_to(n)
    } else {
        low
    }
}

/// What a conversion gives. A truth value is one, and widened with its sign it is minus one. The bits of
/// a value and an address stay what they are.
pub open spec fn converted(w: World, op: Cast, from: Text, a: Value, into: Text) -> Value {
    match op {
        Cast::Sext => if bits(from) == 1 {
            Value::Int(-int_in(a))
        } else {
            Value::Int(int_in(a))
        },
        Cast::Zext => Value::Int(if int_in(a) < 0 {
            int_in(a) + two_to(bits(from))
        } else {
            int_in(a)
        }),
        Cast::Trunc => Value::Int(cut(int_in(a), bits(into))),
        Cast::Sitofp => Value::Real((w.real_of)(int_in(a))),
        Cast::Fptosi => Value::Int((w.int_of)(real_in(a))),
        Cast::Bitcast | Cast::Ptrtoint | Cast::Inttoptr => a,
    }
}

// ---------------------------------------------------------------------------------------------
// Instructions
// ---------------------------------------------------------------------------------------------
/// An instruction. `to` is the register that gets its value; operands are texts.
pub enum Instr {
    Binary { to: Text, op: Opcode, ty: Text, a: Text, b: Text },
    Convert { to: Text, op: Cast, from: Text, a: Text, into: Text },
    Alloca { to: Text, ty: Text },
    Store { ty: Text, a: Text, at: Text },
    Load { to: Text, ty: Text, at: Text },
    Extract { to: Text, ty: Text, a: Text, index: nat },
    Insert { to: Text, ty: Text, into: Text, part_ty: Text, a: Text, index: nat },
    /// The address of a part of what lies at an address.
    Field { to: Text, ty: Text, at: Text, index: nat },
    /// The address of an element of a table of addresses.
    Element { to: Text, at: Text, index: nat },
    /// The address of the bytes of a string constant.
    Bytes { to: Text, size: Text, name: Text },
    /// A call of a function of the module. The arguments are operands with their types.
    Call { to: Text, ret: Text, function: Text, args: Seq<(Text, Text)> },
    /// A call whose value is not kept.
    CallVoid { function: Text, args: Seq<(Text, Text)> },
    /// A call that names the types of its parameters, of a function of the module or at an address.
    CallTyped { to: Text, ret: Text, types: Text, function: Text, args: Seq<(Text, Text)> },
    CallTypedVoid { types: Text, function: Text, args: Seq<(Text, Text)> },
}

/// The arguments of a call, as they are written.
pub open spec fn arguments(args: Seq<(Text, Text)>) -> Text {
    joined(typed(args), ", "@)
}

/// How an instruction is written.
pub open spec fn instr_text(i: Instr) -> Text {
    match i {
        Instr::Binary { to, op, ty, a, b } => to + " = "@ + opcode_text(op) + " "@ + ty + " "@ + a + ", "@ + b,
        Instr::Convert { to, op, from, a, into } => to + " = "@ + cast_text(op) + " "@ + from + " "@ + a + " to "@
            + into,
        Instr::Alloca { to, ty } => to + " = alloca "@ + ty + ", align 8"@,
        Instr::Store { ty, a, at } => "store "@ + ty + " "@ + a + ", ptr "@ + at,
        Instr::Load { to, ty, at } => to + " = load "@ + ty + ", ptr "@ + at,
        Instr::Extract { to, ty, a, index } => to + " = extractvalue "@ + ty + " "@ + a + ", "@ + dec(index),
        Instr::Insert { to, ty, into, part_ty, a, index } => to + " = insertvalue "@ + ty + " "@ + into + ", "@
            + part_ty + " "@ + a + ", "@ + dec(index),
        Instr::Field { to, ty, at, index } => to + " = getelementptr inbounds "@ + ty + ", ptr "@ + at
            + ", i32 0, i32 "@ + dec(index),
        Instr::Element { to, at, index } => to + " = getelementptr inbounds ptr, ptr "@ + at + ", i64 "@ + dec(
            index,
        ),
        Instr::Bytes { to, size, name } => to + " = getelementptr inbounds ["@ + size + " x i8], ptr "@ + name
            + ", i64 0, i64 0"@,
        Instr::Call { to, ret, function, args } => to + " = call "@ + ret + " "@ + function + "("@ + arguments(args)
            + ")"@,
        Instr::CallVoid { function, args } => "call void "@ + function + "("@ + arguments(args) + ")"@,
        Instr::CallTyped { to, ret, types, function, args } => to + " = call "@ + ret + " ("@ + types + ") "@
            + function + "("@ + arguments(args) + ")"@,
        Instr::CallTypedVoid { types, function, args } => "call void ("@ + types + ") "@ + function + "("@
            + arguments(args) + ")"@,
    }
}

/// The machine with a value in a register.
pub open spec fn with_reg(m: Machine, to: Text, v: Value) -> Machine {
    Machine { regs: m.regs.insert(to, v), ..m }
}

/// The values that the arguments of a call have.
pub open spec fn arg_values(w: World, m: Machine, args: Seq<(Text, Text)>) -> Seq<Value> {
    Seq::new(args.len(), |i: int| value(w, m, args[i].0))
}

/// The call that a machine makes.
pub open spec fn call_of(w: World, m: Machine, function: Text, args: Seq<(Text, Text)>) -> Called {
    Called { function: value(w, m, function), args: arg_values(w, m, args), memory: m.memory }
}

/// The machine after a call.
pub open spec fn after_call(w: World, m: Machine, c: Called) -> Machine {
    Machine { memory: (w.after)(c), calls: m.calls.push(c), ..m }
}

/// What an instruction does.
pub open spec fn exec(w: World, i: Instr, m: Machine) -> Machine {
    match i {
        Instr::Binary { to, op, ty, a, b } => with_reg(
            m,
            to,
            computed(w, op, bits(ty), value(w, m, a), value(w, m, b)),
        ),
        Instr::Convert { to, op, from, a, into } => with_reg(m, to, converted(w, op, from, value(w, m, a), into)),
        Instr::Alloca { to, .. } => with_reg(m, to, Value::Slot(to)),
        Instr::Store { a, at, .. } => Machine {
            memory: stored(m.memory, value(w, m, at), value(w, m, a)),
            ..m
        },
        Instr::Load { to, at, .. } => with_reg(m, to, loaded(m.memory, value(w, m, at))),
        Instr::Extract { to, a, index, .. } => with_reg(m, to, parts_in(value(w, m, a))[index as int]),
        Instr::Insert { to, into, a, index, .. } => with_reg(
            m,
            to,
            Value::Parts(put_part(parts_in(value(w, m, into)), index, value(w, m, a))),
        ),
        Instr::Field { to, at, index, .. } => with_reg(m, to, Value::Inside(Box::new(value(w, m, at)), index as int)),
        Instr::Element { to, at, index } => with_reg(m, to, Value::Inside(Box::new(value(w, m, at)), index as int)),
        Instr::Bytes { to, name, .. } => with_reg(m, to, value(w, m, name)),
        Instr::Call { to, function, args, .. } => with_reg(
            after_call(w, m, call_of(w, m, function, args)),
            to,
            (w.answer)(call_of(w, m, function, args)),
        ),
        Instr::CallVoid { function, args } => after_call(w, m, call_of(w, m, function, args)),
        Instr::CallTyped { to, function, args, .. } => with_reg(
            after_call(w, m, call_of(w, m, function, args)),
            to,
            (w.answer)(call_of(w, m, function, args)),
        ),
        Instr::CallTypedVoid { function, args, .. } => after_call(w, m, call_of(w, m, function, args)),
    }
}

/// Parts with one of them set; parts that are not there yet are not known.
pub open spec fn put_part(parts: Seq<Value>, index: nat, v: Value) -> Seq<Value> {
    Seq::new(
        if parts.len() > index {
            parts.len()
        } else {
            index + 1
        },
        |i: int|
            if i == index {
                v
            } else if i < parts.len() {
                parts[i]
            } else {
                Value::Undefined
            },
    )
}

/// No instructions.
pub open spec fn no_code() -> Seq<Instr> {
    Seq::empty()
}

/// What instructions do, one after the other.
pub open spec fn run(w: World, code: Seq<Instr>, m: Machine) -> Machine
    decreases code.len(),
{
    if code.len() == 0 {
        m
    } else {
        exec(w, code.last(), run(w, code.drop_last(), m))
    }
}

// ---------------------------------------------------------------------------------------------
// What the generator wrote
// ---------------------------------------------------------------------------------------------
/// Instructions as they are written, one to a line.
pub open spec fn code_text(code: Seq<Instr>, indent: nat) -> Text
    decreases code.len(),
{
    if code.len() == 0 {
        Seq::empty()
    } else {
        code_text(code.drop_last(), indent) + (repeated("  "@, indent) + instr_text(code.last()) + "\n"@)
    }
}

/// From `g` to `h` these instructions were written, and nothing else.
#[verifier::opaque]
pub open spec fn wrote(g: Gen, h: Gen, code: Seq<Instr>) -> bool {
    h.output == g.output + code_text(code, g.indent) && h.indent == g.indent
}

/// Nothing is written where nothing is done.
pub proof fn lemma_wrote_nothing(g: Gen)
    ensures
        wrote(g, g, no_code()),
{
    reveal(wrote);
    assert(g.output + Seq::<char>::empty() == g.output);
}

/// A line that is an instruction writes it.
pub proof fn lemma_wrote_line(g: Gen, h: Gen, code: Seq<Instr>, i: Instr, line: Text)
    requires
        wrote(g, h, code),
        line == instr_text(i),
    ensures
        wrote(g, h.e(line), code.push(i)),
{
    reveal(wrote);
    reveal(Gen::e);
    assert(code.push(i).drop_last() == code);
    let more = repeated("  "@, g.indent) + line + "\n"@;
    assert(g.output + (code_text(code, g.indent) + more) == (g.output + code_text(code, g.indent)) + more);
}

/// Taking a label writes nothing.
pub proof fn lemma_wrote_label(g: Gen, h: Gen, code: Seq<Instr>)
    requires
        wrote(g, h, code),
    ensures
        wrote(g, h.fresh_label().0, code),
        wrote(g, h.next_number().0, code),
{
    reveal(wrote);
    reveal(Gen::fresh_label);
    reveal(Gen::next_number);
}

/// Instructions that were written one after the other.
pub proof fn lemma_wrote_on(g: Gen, h: Gen, k: Gen, c: Seq<Instr>, d: Seq<Instr>)
    requires
        wrote(g, h, c),
        wrote(h, k, d),
    ensures
        wrote(g, k, c + d),
{
    reveal(wrote);
    lemma_code_text_on(c, d, g.indent);
    assert(g.output + (code_text(c, g.indent) + code_text(d, g.indent)) == (g.output + code_text(c, g.indent))
        + code_text(d, g.indent));
}

proof fn lemma_code_text_on(c: Seq<Instr>, d: Seq<Instr>, indent: nat)
    ensures
        code_text(c + d, indent) == code_text(c, indent) + code_text(d, indent),
    decreases d.len(),
{
    if d.len() == 0 {
        assert(c + d == c);
        assert(code_text(c, indent) + Seq::<char>::empty() == code_text(c, indent));
    } else {
        lemma_code_text_on(c, d.drop_last(), indent);
        assert((c + d).drop_last() == c + d.drop_last());
        let last = repeated("  "@, indent) + instr_text(d.last()) + "\n"@;
        assert(code_text(c, indent) + (code_text(d.drop_last(), indent) + last) == (code_text(c, indent)
            + code_text(d.drop_last(), indent)) + last);
    }
}

/// One more instruction is run behind the others.
pub broadcast proof fn lemma_run_push(w: World, code: Seq<Instr>, i: Instr, m: Machine)
    ensures
        #[trigger] run(w, code.push(i), m) == exec(w, i, run(w, code, m)),
{
    assert(code.push(i).drop_last() == code);
}

/// Instructions behind others are run after them.
pub proof fn lemma_run_on(w: World, c: Seq<Instr>, d: Seq<Instr>, m: Machine)
    ensures
        run(w, c + d, m) == run(w, d, run(w, c, m)),
    decreases d.len(),
{
    if d.len() == 0 {
        assert(c + d == c);
    } else {
        lemma_run_on(w, c, d.drop_last(), m);
        assert((c + d).drop_last() == c + d.drop_last());
    }
}

// ---------------------------------------------------------------------------------------------
// Literals and names
// ---------------------------------------------------------------------------------------------
proof fn lemma_int_dec_reads_back(a: int, b: int)
    requires
        int_dec(a) == int_dec(b),
    ensures
        a == b,
{
    reveal_strlit("-");
    let x = (if a < 0 { -a } else { a }) as nat;
    let y = (if b < 0 { -b } else { b }) as nat;
    lemma_dec_reads_back(x);
    lemma_dec_reads_back(y);
    if a < 0 && b >= 0 {
        assert(int_dec(a)[0] == '-');
        assert(is_digit(dec(y)[0]));
    } else if a >= 0 && b < 0 {
        assert(int_dec(b)[0] == '-');
        assert(is_digit(dec(x)[0]));
    } else if a < 0 {
        assert(int_dec(a).skip(1) == dec(x));
        assert(int_dec(b).skip(1) == dec(y));
    }
}

/// A number that is written in decimal stands for itself.
pub proof fn lemma_number_is_itself(w: World, m: Machine, n: int)
    ensures
        value(w, m, int_dec(n)) == Value::Int(n),
{
    reveal_strlit("-");
    reveal_strlit("true");
    reveal_strlit("false");
    reveal_strlit("null");
    reveal_strlit("undef");
    reveal_strlit("zeroinitializer");
    let x = (if n < 0 { -n } else { n }) as nat;
    lemma_dec_reads_back(x);
    assert(is_digit(dec(x)[0]));
    assert(int_dec(n)[0] == '-' || is_digit(int_dec(n)[0]));
    let k = choose|k: int| int_dec(k) == int_dec(n);
    lemma_int_dec_reads_back(k, n);
}

/// The register with a label.
pub open spec fn register(n: nat) -> Text {
    "%"@ + ("yk_"@ + dec(n))
}

/// An operand that is not named with a number from `n` on.
pub open spec fn older(t: Text, n: nat) -> bool {
    forall|k: nat| k >= n ==> !ends(t, #[trigger] numbering(k))
}

/// How a name with a number ends.
pub open spec fn numbering(n: nat) -> Text {
    "_"@ + dec(n)
}

/// A name ends with one number only.
pub proof fn lemma_one_number(t: Text, a: nat, b: nat)
    requires
        ends(t, numbering(a)),
        ends(t, numbering(b)),
    ensures
        a == b,
{
    reveal_strlit("_");
    lemma_dec_reads_back(a);
    lemma_dec_reads_back(b);
    let x = numbering(a);
    let y = numbering(b);
    assert(x.skip(1) == dec(a));
    assert(y.skip(1) == dec(b));
    assert(t.skip(t.len() - x.len())[0] == '_');
    assert(t.skip(t.len() - y.len())[0] == '_');
    if x.len() < y.len() {
        let at = y.len() - x.len();
        assert(y[at] == t[t.len() - x.len()]);
        assert(y[at] == dec(b)[at - 1]);
        assert(is_digit(dec(b)[at - 1]));
    } else if y.len() < x.len() {
        let at = x.len() - y.len();
        assert(x[at] == t[t.len() - y.len()]);
        assert(x[at] == dec(a)[at - 1]);
        assert(is_digit(dec(a)[at - 1]));
    } else {
        assert(x == y);
    }
}

/// A register ends with its number, so an older operand is another one.
pub proof fn lemma_register_ends(n: nat)
    ensures
        ends(register(n), numbering(n)),
        forall|t: Text, k: nat| #[trigger] older(t, k) && k <= n ==> t != register(n),
        older(register(n), n + 1),
{
    reveal_strlit("yk_");
    reveal_strlit("_");
    let r = register(n);
    assert(r.skip(r.len() - numbering(n).len()) == numbering(n));
    assert forall|k: nat| k >= n + 1 implies !ends(r, #[trigger] numbering(k)) by {
        if ends(r, numbering(k)) {
            lemma_one_number(r, n, k);
        }
    }
}

/// What is older than a number is older than a higher one.
pub proof fn lemma_older_on(t: Text, a: nat, b: nat)
    requires
        older(t, a),
        a <= b,
    ensures
        older(t, b),
{
}

/// A number that is written in decimal is older than everything.
pub proof fn lemma_number_is_older(n: int)
    ensures
        older(int_dec(n), 0),
{
    reveal_strlit("-");
    reveal_strlit("_");
    let x = (if n < 0 { -n } else { n }) as nat;
    lemma_dec_reads_back(x);
    let t = int_dec(n);
    assert forall|i: int| 0 <= i < t.len() implies #[trigger] t[i] != '_' by {
        if n < 0 {
            if i > 0 {
                assert(t[i] == dec(x)[i - 1]);
            }
        } else {
            assert(t[i] == dec(x)[i]);
        }
    }
    assert forall|k: nat| k >= 0 implies !ends(t, #[trigger] numbering(k)) by {
        if ends(t, numbering(k)) {
            assert(t.skip(t.len() - numbering(k).len())[0] == '_');
            assert(t[t.len() - numbering(k).len()] == '_');
        }
    }
}

/// A register is read from the registers.
pub proof fn lemma_register_value(w: World, m: Machine, n: nat)
    ensures
        value(w, m, register(n)) == m.regs[register(n)],
{
    reveal_strlit("%");
    assert(register(n)[0] == '%');
}

/// The machine kept what is older than `n`: the registers, and all of its memory; it called nothing.
pub open spec fn kept(m: Machine, after: Machine, n: nat) -> bool {
    &&& forall|t: Text| older(t, n) ==> #[trigger] after.regs[t] == m.regs[t]
    &&& after.memory == m.memory
    &&& after.calls == m.calls
}

/// The registers that are older than `n` are kept.
pub open spec fn regs_kept(m: Machine, after: Machine, n: nat) -> bool {
    forall|t: Text| older(t, n) ==> #[trigger] after.regs[t] == m.regs[t]
}

/// What an operand stands for where the registers that are older are kept.
pub proof fn lemma_value_kept(w: World, m: Machine, after: Machine, n: nat, t: Text)
    requires
        regs_kept(m, after, n),
        older(t, n),
    ensures
        value(w, after, t) == value(w, m, t),
{
    assert(after.regs[t] == m.regs[t]);
}

/// Taking a label gives the next number.
pub proof fn lemma_label(g: Gen)
    requires
        g.label_counter < usize::MAX,
    ensures
        g.fresh_label().1 == "yk_"@ + dec(g.label_counter),
        "%"@ + g.fresh_label().1 == register(g.label_counter),
        g.fresh_label().0 == (Gen { label_counter: g.label_counter + 1, ..g }),
{
    reveal(Gen::fresh_label);
}

/// A line changes the text only.
pub proof fn lemma_line(g: Gen, s: Text)
    ensures
        g.e(s) == (Gen { output: g.e(s).output, ..g }),
{
    reveal(Gen::e);
}

/// Setting a register that is not older keeps what is older.
pub proof fn lemma_set_keeps(m: Machine, n: nat, k: nat, v: Value)
    requires
        n <= k,
    ensures
        kept(m, with_reg(m, register(k), v), n),
        with_reg(m, register(k), v).regs[register(k)] == v,
{
    lemma_register_ends(k);
    let after = with_reg(m, register(k), v);
    assert forall|t: Text| older(t, n) implies #[trigger] after.regs[t] == m.regs[t] by {
        assert(t != register(k));
    }
}

/// Registers with different numbers are different.
pub broadcast proof fn lemma_registers_are_apart(a: nat, b: nat)
    ensures
        a != b ==> #[trigger] register(a) != #[trigger] register(b),
{
    lemma_register_ends(a);
    lemma_register_ends(b);
    if a != b && register(a) == register(b) {
        lemma_one_number(register(a), a, b);
    }
}

/// An older operand is no register with a higher number.
pub broadcast proof fn lemma_older_is_apart(t: Text, k: nat, n: nat)
    requires
        #[trigger] older(t, k),
        k <= n,
    ensures
        t != #[trigger] register(n),
{
    lemma_register_ends(n);
}

/// What an operand stands for after a register was set.
pub broadcast proof fn lemma_value_after(w: World, m: Machine, to: Text, v: Value, t: Text)
    ensures
        t != to ==> #[trigger] value(w, with_reg(m, to, v), t) == value(w, m, t),
        t == to && t.len() > 0 && t[0] == '%' ==> value(w, with_reg(m, to, v), t) == v,
{
}

/// A register begins as registers do.
pub broadcast proof fn lemma_register_begins(n: nat)
    ensures
        (#[trigger] register(n)).len() > 0,
        register(n)[0] == '%',
{
    reveal_strlit("%");
}

/// A name of the module stands for the address of what it names.
pub broadcast proof fn lemma_global(w: World, m: Machine, name: Text)
    ensures
        #[trigger] value(w, m, "@"@ + name) == Value::Global("@"@ + name),
{
    reveal_strlit("@");
    assert(("@"@ + name)[0] == '@');
}

/// What running a few instructions comes to.
pub broadcast group group_machine {
    lemma_run_push,
    lemma_registers_are_apart,
    lemma_older_is_apart,
    lemma_value_after,
    lemma_register_begins,
    lemma_global,
}

/// No arguments.
pub open spec fn no_args() -> Seq<(Text, Text)> {
    Seq::empty()
}

/// How the arguments of a call are written: each with its type, in their order.
pub proof fn lemma_arguments(a: (Text, Text), b: (Text, Text), c: (Text, Text))
    ensures
        arguments(no_args()) == ""@,
        arguments(no_args().push(a)) == a.1 + " "@ + a.0,
        arguments(no_args().push(a).push(b)) == a.1 + " "@ + a.0 + ", "@ + (b.1 + " "@ + b.0),
        arguments(no_args().push(a).push(b).push(c)) == a.1 + " "@ + a.0 + ", "@ + (b.1 + " "@ + b.0) + ", "@ + (c.1
            + " "@ + c.0),
{
    let one = typed(no_args().push(a));
    let two = typed(no_args().push(a).push(b));
    let three = typed(no_args().push(a).push(b).push(c));
    assert(one.len() == 1 && one[0] == a.1 + " "@ + a.0);
    assert(two.drop_last() == one && two.last() == b.1 + " "@ + b.0);
    assert(three.drop_last() == two && three.last() == c.1 + " "@ + c.0);
    assert(joined(one, ", "@) == one[0]);
    assert(joined(two, ", "@) == joined(one, ", "@) + ", "@ + two.last());
    assert(joined(three, ", "@) == joined(two, ", "@) + ", "@ + three.last());
}

/// A value that is not known is written in a word of its own.
pub proof fn lemma_undefined(w: World, m: Machine)
    ensures
        value(w, m, "undef"@) == Value::Undefined,
{
    reveal_strlit("true");
    reveal_strlit("false");
    reveal_strlit("null");
    reveal_strlit("undef");
    assert("undef"@[0] == 'u');
    assert("true"@[0] == 't');
    assert("false"@[0] == 'f');
    assert("null"@[0] == 'n');
}

} // verus!
