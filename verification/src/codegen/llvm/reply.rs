//! What a request handler does: instructions that put its answer into the buffer of the caller, and
//! what they leave there.

use vstd::prelude::*;
use vstd::utf8::{char_is_scalar, encode_scalar, encode_utf8};

use crate::codegen::llvm::handler::{bool_text, handler_text, int_value, is_req, lit_texts, pair_texts};
use crate::codegen::llvm::names::array_size;
use crate::scan::joined;
use crate::syntax::ast::{BinOp, Expr, ExprNode, Stmt, StmtNode};
use crate::text::{bumped, byte_len, dec, int_dec, utf8_width, Text};

verus! {

// ---------------------------------------------------------------------------------------------
// Instructions
// ---------------------------------------------------------------------------------------------
/// A number that an instruction takes: that of a register, a literal, or the size of the buffer.
pub enum Operand {
    Reg(nat),
    Num(nat),
    BufLen,
}

/// A truth value that an instruction takes.
pub enum Guard {
    Flag(bool),
    Reg(nat),
}

/// An instruction of a handler.
pub enum Step {
    /// The address of a constant.
    Constant { to: nat, index: nat, text: Text },
    /// A remark on the field of the request that is read next.
    Note { field: Text },
    /// A place in the request.
    FieldPlace { to: nat, offset: nat },
    /// Reads the address of a field.
    LoadAddress { to: nat, from: nat },
    /// Reads the length of a field.
    LoadLength { to: nat, from: nat },
    /// Whether two integers are equal, or differ.
    Compare { to: nat, equal: bool, a: int, b: int },
    /// One of two numbers.
    Choose { to: nat, test: Guard, yes: Operand, no: Operand },
    /// Whether a number is above another.
    Above { to: nat, a: Operand, b: Operand },
    Minus { to: nat, a: Operand, b: Operand },
    Plus { to: nat, a: Operand, b: Operand },
    /// A place in the buffer.
    Place { to: nat, at: Operand },
    /// Copies bytes to a place in the buffer.
    Copy { to: nat, from: nat, len: Operand },
    /// The answer begins where the buffer begins.
    StoreBuffer,
    LengthPlace,
    StoreLength { len: Operand },
    StatusPlace,
    StoreStatus,
    Return,
}

/// The name of a register.
pub open spec fn reg_text(n: nat) -> Text {
    "%l"@ + dec(n)
}

/// An operand as it is written.
pub open spec fn operand_text(o: Operand) -> Text {
    match o {
        Operand::Reg(n) => reg_text(n),
        Operand::Num(n) => dec(n),
        Operand::BufLen => "%buf_len"@,
    }
}

/// A truth value as it is written.
pub open spec fn guard_text(g: Guard) -> Text {
    match g {
        Guard::Flag(b) => bool_text(b),
        Guard::Reg(n) => reg_text(n),
    }
}

/// The name of a constant.
pub open spec fn constant_name(prefix: Text, index: nat) -> Text {
    "@__yk_cstr_"@ + prefix + "_"@ + dec(index)
}

/// The declaration of what handlers copy with.
pub const COPY_DECLARATION: &'static str = "declare void @llvm.memcpy.p0.p0.i64(ptr, ptr, i64, i1)";

/// An instruction as it is written; `prefix` is that of the constants.
pub open spec fn step_text(s: Step, prefix: Text) -> Text {
    match s {
        Step::Constant { to, index, text } => reg_text(to) + " = getelementptr inbounds ["@ + array_size(text)
            + " x i8], ptr "@ + constant_name(prefix, index) + ", i64 0, i64 0"@,
        Step::Note { field } => "; Load req."@ + field,
        Step::FieldPlace { to, offset } => reg_text(to) + " = getelementptr i8, ptr %req, i32 "@ + dec(offset),
        Step::LoadAddress { to, from } => reg_text(to) + " = load ptr, ptr "@ + reg_text(from),
        Step::LoadLength { to, from } => reg_text(to) + " = load i64, ptr "@ + reg_text(from),
        Step::Compare { to, equal, a, b } => reg_text(to) + (if equal {
            " = icmp eq i64 "@
        } else {
            " = icmp ne i64 "@
        }) + int_dec(a) + ", "@ + int_dec(b),
        Step::Choose { to, test, yes, no } => reg_text(to) + " = select i1 "@ + guard_text(test) + ", i64 "@
            + operand_text(yes) + ", i64 "@ + operand_text(no),
        Step::Above { to, a, b } => reg_text(to) + " = icmp ugt i64 "@ + operand_text(a) + ", "@
            + operand_text(b),
        Step::Minus { to, a, b } => reg_text(to) + " = sub i64 "@ + operand_text(a) + ", "@ + operand_text(b),
        Step::Plus { to, a, b } => reg_text(to) + " = add i64 "@ + operand_text(a) + ", "@ + operand_text(b),
        Step::Place { to, at } => reg_text(to) + " = getelementptr i8, ptr %buf, i64 "@ + operand_text(at),
        Step::Copy { to, from, len } => "call void @llvm.memcpy.p0.p0.i64(ptr "@ + reg_text(to) + ", ptr "@
            + reg_text(from) + ", i64 "@ + operand_text(len) + ", i1 false)"@,
        Step::StoreBuffer => "store ptr %buf, ptr %resp"@,
        Step::LengthPlace => "%lp = getelementptr i8, ptr %resp, i32 8"@,
        Step::StoreLength { len } => "store i64 "@ + operand_text(len) + ", ptr %lp"@,
        Step::StatusPlace => "%sp = getelementptr i8, ptr %resp, i32 16"@,
        Step::StoreStatus => "store i32 200, ptr %sp"@,
        Step::Return => "ret void"@,
    }
}

/// Instructions as they are written, one to a line.
pub open spec fn steps_text(steps: Seq<Step>, prefix: Text) -> Text
    decreases steps.len(),
{
    if steps.len() == 0 {
        ""@
    } else {
        steps_text(steps.drop_last(), prefix) + ("  "@ + step_text(steps.last(), prefix) + "\n"@)
    }
}

/// The constants that instructions speak of, as they are written.
pub open spec fn constants_text(steps: Seq<Step>, prefix: Text) -> Text
    decreases steps.len(),
{
    if steps.len() == 0 {
        ""@
    } else {
        let before = constants_text(steps.drop_last(), prefix);
        match steps.last() {
            Step::Constant { index, text, .. } => before + (constant_name(prefix, index)
                + " = private unnamed_addr constant ["@ + array_size(text) + " x i8] c\""@ + handler_text(text)
                + "\\00\""@ + "\n"@),
            _ => before,
        }
    }
}

// ---------------------------------------------------------------------------------------------
// The instructions of an answer
// ---------------------------------------------------------------------------------------------
/// Instructions, the number behind the registers that they use, and where they leave off in the
/// buffer.
pub struct Emitted {
    pub next: nat,
    pub steps: Seq<Step>,
    pub end: Operand,
}

/// Instructions behind others.
pub open spec fn behind(steps: Seq<Step>, e: Emitted) -> Emitted {
    Emitted { steps: steps + e.steps, ..e }
}

/// Copies bytes into the buffer from `at` on, as far as `limit` allows.
pub open spec fn copy_steps(n: nat, from: nat, len: Operand, at: Operand, limit: Operand) -> Emitted {
    let room = n;
    let over = bumped(room);
    let actual = bumped(over);
    let place = bumped(actual);
    let end = bumped(place);
    Emitted {
        next: bumped(end),
        steps: seq![
            Step::Minus { to: room, a: limit, b: at },
            Step::Above { to: over, a: len, b: Operand::Reg(room) },
            Step::Choose { to: actual, test: Guard::Reg(over), yes: Operand::Reg(room), no: len },
            Step::Place { to: place, at },
            Step::Copy { to: place, from, len: Operand::Reg(actual) },
            Step::Plus { to: end, a: at, b: Operand::Reg(actual) },
        ],
        end: Operand::Reg(end),
    }
}

/// Copies a constant into the buffer.
pub open spec fn constant_steps(text: Text, n: nat, at: Operand, limit: Operand) -> Emitted {
    let to = bumped(n);
    behind(
        seq![Step::Constant { to, index: n, text }],
        copy_steps(bumped(to), to, Operand::Num(byte_len(text)), at, limit),
    )
}

/// Where the address of a field lies in the request; its length lies eight bytes behind it.
pub open spec fn field_offset(field: Text) -> nat {
    if field == "method"@ {
        0
    } else if field == "path"@ {
        16
    } else {
        32
    }
}

/// Copies a field of the request into the buffer.
pub open spec fn field_steps(field: Text, n: nat, at: Operand, limit: Operand) -> Emitted {
    let place = n;
    let len_place = bumped(place);
    let address = bumped(len_place);
    let len = bumped(address);
    let offset = field_offset(field);
    behind(
        seq![
            Step::Note { field },
            Step::FieldPlace { to: place, offset },
            Step::LoadAddress { to: address, from: place },
            Step::FieldPlace { to: len_place, offset: offset + 8 },
            Step::LoadLength { to: len, from: len_place },
        ],
        copy_steps(bumped(len), address, Operand::Reg(len), at, limit),
    )
}

/// No instructions.
pub open spec fn no_steps(n: nat, at: Operand) -> Emitted {
    Emitted { next: n, steps: seq![], end: at }
}

/// A condition: its instructions, the number behind the registers that they use, and its truth value.
/// A literal and a comparison of integer literals are evaluated; any other condition counts as true.
pub open spec fn condition_steps(expr: ExprNode, n: nat) -> (nat, Seq<Step>, Guard) {
    match expr.value {
        Expr::LitBool(b) => (n, seq![], Guard::Flag(b)),
        Expr::BinOp(l, op, r) => if op == BinOp::Eq || op == BinOp::Ne {
            (
                bumped(n),
                seq![
                    Step::Compare { to: n, equal: op == BinOp::Eq, a: int_value(*l), b: int_value(*r) },
                ],
                Guard::Reg(n),
            )
        } else {
            (n, seq![], Guard::Flag(true))
        },
        _ => (n, seq![], Guard::Flag(true)),
    }
}

/// Puts the value of an expression into the buffer, from `at` on and as far as `limit` allows. Only
/// literals, fields of `req`, concatenations, conditions and blocks of these have a value; any other
/// expression is empty. Of a condition both branches are written out, and the limit of the one that is
/// not taken leaves it no room.
pub open spec fn expr_steps(expr: ExprNode, n: nat, at: Operand, limit: Operand) -> Emitted
    decreases expr, 0nat,
{
    match expr.value {
        Expr::LitStr(s) => constant_steps(s@, n, at, limit),
        Expr::LitInt(v) => constant_steps(int_dec(v as int), n, at, limit),
        Expr::LitBool(b) => constant_steps(bool_text(b), n, at, limit),
        Expr::LitChar(c) => constant_steps(seq![c], n, at, limit),
        Expr::LitReal(v) => constant_steps(v.shown@, n, at, limit),
        Expr::LitHex(v) => constant_steps(int_dec(v as int), n, at, limit),
        Expr::If(cond, then_expr, else_expr) => {
            let (n1, test_steps, test) = condition_steps(*cond, n);
            let first = test_steps.push(Step::Choose { to: n1, test, yes: limit, no: at });
            let yes = expr_steps(*then_expr, bumped(n1), at, Operand::Reg(n1));
            match else_expr {
                Some(ee) => {
                    let second = Step::Choose { to: yes.next, test, yes: yes.end, no: limit };
                    let no = expr_steps(*ee, bumped(yes.next), yes.end, Operand::Reg(yes.next));
                    behind((first + yes.steps).push(second), no)
                },
                None => behind(first, yes),
            }
        },
        Expr::Field(obj, field) => if is_req(*obj) {
            field_steps(field@, n, at, limit)
        } else {
            no_steps(n, at)
        },
        Expr::Ident(name) => if name@ == "req"@ {
            field_steps("body"@, n, at, limit)
        } else {
            no_steps(n, at)
        },
        Expr::BinOp(l, op, r) => if op == BinOp::Add {
            let left = expr_steps(*l, n, at, limit);
            let right = expr_steps(*r, left.next, left.end, limit);
            behind(left.steps, right)
        } else {
            no_steps(n, at)
        },
        Expr::Block(stmts) => block_steps(stmts@, n, at, limit),
        Expr::ListLit(items) => constant_steps("["@ + joined(lit_texts(items@), ", "@) + "]"@, n, at, limit),
        Expr::SetLit(items) => constant_steps("{"@ + joined(lit_texts(items@), ", "@) + "}"@, n, at, limit),
        Expr::MapLit(pairs) => constant_steps("{"@ + joined(pair_texts(pairs@), ", "@) + "}"@, n, at, limit),
        Expr::TupleLit(items) => constant_steps("("@ + joined(lit_texts(items@), ", "@) + ")"@, n, at, limit),
        _ => no_steps(n, at),
    }
}

/// Puts the value of a block into the buffer: that of its last statement that gives one.
pub open spec fn block_steps(stmts: Seq<StmtNode>, n: nat, at: Operand, limit: Operand) -> Emitted
    decreases stmts, 1nat,
{
    if stmts.len() == 0 {
        no_steps(n, at)
    } else {
        match stmts.last().value {
            Stmt::Return(Some(e)) => expr_steps(e, n, at, limit),
            Stmt::Return(None) => no_steps(n, at),
            Stmt::Expr(e) => expr_steps(e, n, at, limit),
            _ => block_steps(stmts.drop_last(), n, at, limit),
        }
    }
}

/// The instructions that fill the response in: the answer is what the buffer holds up to `end`.
pub open spec fn response_steps(end: Operand) -> Seq<Step> {
    seq![
        Step::StoreBuffer,
        Step::LengthPlace,
        Step::StoreLength { len: end },
        Step::StatusPlace,
        Step::StoreStatus,
        Step::Return,
    ]
}

/// The instructions of a handler that answers with the value of an expression.
pub open spec fn reply_steps(expr: ExprNode) -> Seq<Step> {
    let e = expr_steps(expr, 0, Operand::Num(0), Operand::BufLen);
    e.steps + response_steps(e.end)
}

// ---------------------------------------------------------------------------------------------
// What an answer is
// ---------------------------------------------------------------------------------------------
/// A request: its method, its path and its body.
pub struct Request {
    pub method: Seq<u8>,
    pub path: Seq<u8>,
    pub body: Seq<u8>,
}

/// A field of a request; any but the method and the path is the body.
pub open spec fn field_of(req: Request, field: Text) -> Seq<u8> {
    if field == "method"@ {
        req.method
    } else if field == "path"@ {
        req.path
    } else {
        req.body
    }
}

/// Whether a condition holds.
pub open spec fn condition_holds(expr: ExprNode) -> bool {
    match expr.value {
        Expr::LitBool(b) => b,
        Expr::BinOp(l, op, r) => if op == BinOp::Eq {
            int_value(*l) == int_value(*r)
        } else if op == BinOp::Ne {
            int_value(*l) != int_value(*r)
        } else {
            true
        },
        _ => true,
    }
}

/// The value of an expression for a request: literals are their text, a concatenation is its operands
/// one behind the other, and a condition is the branch that is taken.
pub open spec fn value_of(expr: ExprNode, req: Request) -> Seq<u8>
    decreases expr, 0nat,
{
    match expr.value {
        Expr::LitStr(s) => encode_utf8(s@),
        Expr::LitInt(v) => encode_utf8(int_dec(v as int)),
        Expr::LitBool(b) => encode_utf8(bool_text(b)),
        Expr::LitChar(c) => encode_utf8(seq![c]),
        Expr::LitReal(v) => encode_utf8(v.shown@),
        Expr::LitHex(v) => encode_utf8(int_dec(v as int)),
        Expr::If(cond, then_expr, else_expr) => if condition_holds(*cond) {
            value_of(*then_expr, req)
        } else {
            match else_expr {
                Some(ee) => value_of(*ee, req),
                None => seq![],
            }
        },
        Expr::Field(obj, field) => if is_req(*obj) {
            field_of(req, field@)
        } else {
            seq![]
        },
        Expr::Ident(name) => if name@ == "req"@ {
            req.body
        } else {
            seq![]
        },
        Expr::BinOp(l, op, r) => if op == BinOp::Add {
            value_of(*l, req) + value_of(*r, req)
        } else {
            seq![]
        },
        Expr::Block(stmts) => value_of_block(stmts@, req),
        Expr::ListLit(items) => encode_utf8("["@ + joined(lit_texts(items@), ", "@) + "]"@),
        Expr::SetLit(items) => encode_utf8("{"@ + joined(lit_texts(items@), ", "@) + "}"@),
        Expr::MapLit(pairs) => encode_utf8("{"@ + joined(pair_texts(pairs@), ", "@) + "}"@),
        Expr::TupleLit(items) => encode_utf8("("@ + joined(lit_texts(items@), ", "@) + ")"@),
        _ => seq![],
    }
}

/// The value of a block: that of its last statement that gives one.
pub open spec fn value_of_block(stmts: Seq<StmtNode>, req: Request) -> Seq<u8>
    decreases stmts, 1nat,
{
    if stmts.len() == 0 {
        seq![]
    } else {
        match stmts.last().value {
            Stmt::Return(Some(e)) => value_of(e, req),
            Stmt::Return(None) => seq![],
            Stmt::Expr(e) => value_of(e, req),
            _ => value_of_block(stmts.drop_last(), req),
        }
    }
}

// ---------------------------------------------------------------------------------------------
// What instructions do
// ---------------------------------------------------------------------------------------------
/// What a register holds: a number, a truth value, the address of bytes that can be read, of a place
/// in the request, or of a place in the buffer.
pub enum Cell {
    Int(nat),
    Flag(bool),
    Bytes(Seq<u8>),
    Slot(nat),
    Spot(nat),
}

/// The response: whether its address is that of the buffer, its length, its status, and whether the
/// handler has returned.
pub struct Response {
    pub in_buffer: bool,
    pub len: Option<nat>,
    pub status: Option<int>,
    pub returned: bool,
}

/// A handler that runs: its registers, the buffer of the caller, the request and the response, which
/// lie apart from each other. It is no longer `ok` once an instruction had no meaning, such as a copy
/// beyond the end of the buffer.
pub struct Machine {
    pub regs: Map<nat, Cell>,
    pub buf: Seq<u8>,
    pub req: Request,
    pub resp: Response,
    pub ok: bool,
}

/// Numbers have 64 bits.
pub open spec fn wrapped(n: int) -> nat {
    (n % 0x1_0000_0000_0000_0000) as nat
}

impl Machine {
    /// A handler at its first instruction.
    pub open spec fn start(req: Request, buf: Seq<u8>) -> Machine {
        Machine {
            regs: Map::empty(),
            buf,
            req,
            resp: Response { in_buffer: false, len: None, status: None, returned: false },
            ok: true,
        }
    }

    /// What a register holds.
    pub open spec fn cell(self, r: nat) -> Option<Cell> {
        if self.regs.dom().contains(r) {
            Some(self.regs[r])
        } else {
            None
        }
    }

    /// The number that an operand stands for.
    pub open spec fn num(self, o: Operand) -> Option<nat> {
        match o {
            Operand::Reg(r) => match self.cell(r) {
                Some(Cell::Int(n)) => Some(n),
                _ => None,
            },
            Operand::Num(n) => Some(n),
            Operand::BufLen => Some(self.buf.len()),
        }
    }

    /// The truth value that a guard stands for.
    pub open spec fn flag(self, g: Guard) -> Option<bool> {
        match g {
            Guard::Flag(b) => Some(b),
            Guard::Reg(r) => match self.cell(r) {
                Some(Cell::Flag(b)) => Some(b),
                _ => None,
            },
        }
    }

    /// Sets a register.
    pub open spec fn set(self, r: nat, c: Cell) -> Machine {
        Machine { regs: self.regs.insert(r, c), ..self }
    }

    /// An instruction had no meaning.
    pub open spec fn stuck(self) -> Machine {
        Machine { ok: false, ..self }
    }

    /// The field whose address lies at a place in the request.
    pub open spec fn field_at(self, offset: nat) -> Option<Seq<u8>> {
        if offset == 0 {
            Some(self.req.method)
        } else if offset == 16 {
            Some(self.req.path)
        } else if offset == 32 {
            Some(self.req.body)
        } else {
            None
        }
    }

    /// Carries an instruction out.
    pub open spec fn after(self, s: Step) -> Machine {
        match s {
            Step::Constant { to, text, .. } => self.set(to, Cell::Bytes(encode_utf8(text))),
            Step::Note { .. } => self,
            Step::FieldPlace { to, offset } => self.set(to, Cell::Slot(offset)),
            Step::LoadAddress { to, from } => match self.cell(from) {
                Some(Cell::Slot(o)) => match self.field_at(o) {
                    Some(b) => self.set(to, Cell::Bytes(b)),
                    None => self.stuck(),
                },
                _ => self.stuck(),
            },
            Step::LoadLength { to, from } => match self.cell(from) {
                Some(Cell::Slot(o)) => if o >= 8 {
                    match self.field_at((o - 8) as nat) {
                        Some(b) => self.set(to, Cell::Int(b.len())),
                        None => self.stuck(),
                    }
                } else {
                    self.stuck()
                },
                _ => self.stuck(),
            },
            Step::Compare { to, equal, a, b } => self.set(to, Cell::Flag((a == b) == equal)),
            Step::Choose { to, test, yes, no } => match (self.flag(test), self.num(yes), self.num(no)) {
                (Some(t), Some(y), Some(n)) => self.set(
                    to,
                    Cell::Int(
                        if t {
                            y
                        } else {
                            n
                        },
                    ),
                ),
                _ => self.stuck(),
            },
            Step::Above { to, a, b } => match (self.num(a), self.num(b)) {
                (Some(x), Some(y)) => self.set(to, Cell::Flag(x > y)),
                _ => self.stuck(),
            },
            Step::Minus { to, a, b } => match (self.num(a), self.num(b)) {
                (Some(x), Some(y)) => self.set(to, Cell::Int(wrapped(x - y))),
                _ => self.stuck(),
            },
            Step::Plus { to, a, b } => match (self.num(a), self.num(b)) {
                (Some(x), Some(y)) => self.set(to, Cell::Int(wrapped((x + y) as int))),
                _ => self.stuck(),
            },
            Step::Place { to, at } => match self.num(at) {
                Some(x) => self.set(to, Cell::Spot(x)),
                None => self.stuck(),
            },
            Step::Copy { to, from, len } => match (self.cell(to), self.cell(from), self.num(len)) {
                (Some(Cell::Spot(x)), Some(Cell::Bytes(b)), Some(k)) => if k <= b.len() && x + k
                    <= self.buf.len() {
                    Machine { buf: overwritten(self.buf, x, b.take(k as int)), ..self }
                } else {
                    self.stuck()
                },
                _ => self.stuck(),
            },
            Step::StoreBuffer => Machine { resp: Response { in_buffer: true, ..self.resp }, ..self },
            Step::LengthPlace => self,
            Step::StoreLength { len } => match self.num(len) {
                Some(k) => Machine { resp: Response { len: Some(k), ..self.resp }, ..self },
                None => self.stuck(),
            },
            Step::StatusPlace => self,
            Step::StoreStatus => Machine { resp: Response { status: Some(200), ..self.resp }, ..self },
            Step::Return => Machine { resp: Response { returned: true, ..self.resp }, ..self },
        }
    }
}

/// `buf` with `bytes` in place of what stood from `at` on.
pub open spec fn overwritten(buf: Seq<u8>, at: nat, bytes: Seq<u8>) -> Seq<u8> {
    buf.take(at as int) + bytes + buf.skip((at + bytes.len()) as int)
}

/// Carries instructions out, one after the other.
pub open spec fn run(m: Machine, steps: Seq<Step>) -> Machine
    decreases steps.len(),
{
    if steps.len() == 0 {
        m
    } else {
        run(m, steps.drop_last()).after(steps.last())
    }
}

broadcast proof fn lemma_run_push(m: Machine, steps: Seq<Step>, s: Step)
    ensures
        #[trigger] run(m, steps.push(s)) == run(m, steps).after(s),
{
    assert(steps.push(s).drop_last() == steps);
}

proof fn lemma_run_five(m: Machine, a: Step, b: Step, c: Step, d: Step, e: Step)
    ensures
        run(m, seq![a, b, c, d, e]) == m.after(a).after(b).after(c).after(d).after(e),
{
    let s0 = Seq::<Step>::empty();
    let s1 = s0.push(a);
    let s2 = s1.push(b);
    let s3 = s2.push(c);
    let s4 = s3.push(d);
    let s5 = s4.push(e);
    assert(seq![a, b, c, d, e] == s5);
    assert(run(m, s0) == m);
    lemma_run_push(m, s0, a);
    lemma_run_push(m, s1, b);
    lemma_run_push(m, s2, c);
    lemma_run_push(m, s3, d);
    lemma_run_push(m, s4, e);
}

proof fn lemma_run_six(m: Machine, a: Step, b: Step, c: Step, d: Step, e: Step, f: Step)
    ensures
        run(m, seq![a, b, c, d, e, f]) == m.after(a).after(b).after(c).after(d).after(e).after(f),
{
    let s0 = Seq::<Step>::empty();
    let s1 = s0.push(a);
    let s2 = s1.push(b);
    let s3 = s2.push(c);
    let s4 = s3.push(d);
    let s5 = s4.push(e);
    let s6 = s5.push(f);
    assert(seq![a, b, c, d, e, f] == s6);
    assert(run(m, s0) == m);
    lemma_run_push(m, s0, a);
    lemma_run_push(m, s1, b);
    lemma_run_push(m, s2, c);
    lemma_run_push(m, s3, d);
    lemma_run_push(m, s4, e);
    lemma_run_push(m, s5, f);
}

proof fn lemma_run_behind(m: Machine, a: Seq<Step>, b: Seq<Step>)
    ensures
        run(m, a + b) == run(run(m, a), b),
    decreases b.len(),
{
    if b.len() == 0 {
        assert(a + b == a);
    } else {
        assert((a + b).drop_last() == a + b.drop_last());
        lemma_run_behind(m, a, b.drop_last());
    }
}

// ---------------------------------------------------------------------------------------------
// Sizes
// ---------------------------------------------------------------------------------------------
proof fn lemma_byte_len_front(c: char, rest: Text)
    ensures
        byte_len(seq![c] + rest) == utf8_width(c) + byte_len(rest),
    decreases rest.len(),
{
    let all = seq![c] + rest;
    if rest.len() == 0 {
        assert(all.drop_last() == Seq::<char>::empty());
        assert(all.last() == c);
        assert(byte_len(Seq::<char>::empty()) == 0);
    } else {
        assert(all.last() == rest.last());
        assert(all.drop_last() == seq![c] + rest.drop_last());
        lemma_byte_len_front(c, rest.drop_last());
    }
}

/// A text takes as many bytes as its encoding has.
pub proof fn lemma_byte_len_is_encoded(s: Text)
    ensures
        byte_len(s) == encode_utf8(s).len(),
    decreases s.len(),
{
    if s.len() > 0 {
        let rest = s.drop_first();
        lemma_byte_len_is_encoded(rest);
        lemma_byte_len_front(s[0], rest);
        assert(s == seq![s[0]] + rest);
        char_is_scalar(s[0]);
        assert(encode_scalar(s[0] as u32).len() == utf8_width(s[0]));
    }
}

// ---------------------------------------------------------------------------------------------
// What an answer leaves in the buffer
// ---------------------------------------------------------------------------------------------
/// How many registers the instructions of an expression use.
pub open spec fn registers_of(expr: ExprNode) -> nat
    decreases expr, 0nat,
{
    match expr.value {
        Expr::LitStr(_) => 7,
        Expr::LitInt(_) => 7,
        Expr::LitBool(_) => 7,
        Expr::LitChar(_) => 7,
        Expr::LitReal(_) => 7,
        Expr::LitHex(_) => 7,
        Expr::If(cond, then_expr, else_expr) => condition_registers(*cond) + 1 + registers_of(*then_expr) + (
        match else_expr {
            Some(ee) => 1 + registers_of(*ee),
            None => 0,
        }),
        Expr::Field(obj, _) => if is_req(*obj) {
            9
        } else {
            0
        },
        Expr::Ident(name) => if name@ == "req"@ {
            9
        } else {
            0
        },
        Expr::BinOp(l, op, r) => if op == BinOp::Add {
            registers_of(*l) + registers_of(*r)
        } else {
            0
        },
        Expr::Block(stmts) => registers_of_block(stmts@),
        Expr::ListLit(_) => 7,
        Expr::SetLit(_) => 7,
        Expr::MapLit(_) => 7,
        Expr::TupleLit(_) => 7,
        _ => 0,
    }
}

/// How many registers the instructions of a block use.
pub open spec fn registers_of_block(stmts: Seq<StmtNode>) -> nat
    decreases stmts, 1nat,
{
    if stmts.len() == 0 {
        0
    } else {
        match stmts.last().value {
            Stmt::Return(Some(e)) => registers_of(e),
            Stmt::Return(None) => 0,
            Stmt::Expr(e) => registers_of(e),
            _ => registers_of_block(stmts.drop_last()),
        }
    }
}

/// How many registers the instructions of a condition use.
pub open spec fn condition_registers(expr: ExprNode) -> nat {
    match expr.value {
        Expr::BinOp(_, op, _) => if op == BinOp::Eq || op == BinOp::Ne {
            1
        } else {
            0
        },
        _ => 0,
    }
}

/// An operand that no register from `n` on is part of.
spec fn older(o: Operand, n: nat) -> bool {
    match o {
        Operand::Reg(r) => r < n,
        _ => true,
    }
}

/// A truth value that no register from `n` on is part of.
spec fn older_guard(g: Guard, n: nat) -> bool {
    match g {
        Guard::Reg(r) => r < n,
        _ => true,
    }
}

/// The registers below `n` hold what they held.
spec fn kept_below(m: Machine, k: Machine, n: nat) -> bool {
    forall|r: nat| r < n ==> #[trigger] k.cell(r) == m.cell(r)
}

/// How much of a value has room.
pub open spec fn room_for(value: Seq<u8>, room: int) -> int {
    if value.len() <= room {
        value.len() as int
    } else {
        room
    }
}

/// From `m` to `k` the value was put into the buffer from `at` on, as far as `limit` allows.
spec fn was_put(m: Machine, k: Machine, n: nat, e: Emitted, at: nat, limit: nat, value: Seq<u8>) -> bool {
    let fits = room_for(value, limit - at);
    &&& k.ok
    &&& k.req == m.req
    &&& k.resp == m.resp
    &&& k.buf == overwritten(m.buf, at, value.take(fits))
    &&& k.num(e.end) == Some((at + fits) as nat)
    &&& kept_below(m, k, n)
    &&& older(e.end, e.next)
}

/// An emission can begin: its operands are known, and there is a buffer.
spec fn ready(m: Machine, n: nat, at: Operand, limit: Operand, a: nat, l: nat) -> bool {
    &&& m.ok
    &&& m.num(at) == Some(a)
    &&& m.num(limit) == Some(l)
    &&& older(at, n)
    &&& older(limit, n)
    &&& a <= l <= m.buf.len()
    &&& m.buf.len() < 0x1_0000_0000_0000_0000
}

proof fn lemma_overwritten_len(buf: Seq<u8>, at: nat, bytes: Seq<u8>)
    requires
        at + bytes.len() <= buf.len(),
    ensures
        overwritten(buf, at, bytes).len() == buf.len(),
{
}

proof fn lemma_overwritten_nothing(buf: Seq<u8>, at: nat)
    requires
        at <= buf.len(),
    ensures
        overwritten(buf, at, Seq::<u8>::empty()) == buf,
{
    assert(overwritten(buf, at, Seq::<u8>::empty()) == buf);
}

proof fn lemma_overwritten_twice(buf: Seq<u8>, at: nat, a: Seq<u8>, b: Seq<u8>)
    requires
        at + a.len() + b.len() <= buf.len(),
    ensures
        overwritten(overwritten(buf, at, a), at + a.len(), b) == overwritten(buf, at, a + b),
{
    let once = overwritten(buf, at, a);
    assert(once.take((at + a.len()) as int) == buf.take(at as int) + a);
    assert(once.skip((at + a.len() + b.len()) as int) == buf.skip((at + a.len() + b.len()) as int));
    assert(overwritten(once, at + a.len(), b) == overwritten(buf, at, a + b));
}

proof fn lemma_num_kept(m: Machine, k: Machine, n: nat, o: Operand)
    requires
        kept_below(m, k, n),
        older(o, n),
        k.buf.len() == m.buf.len(),
    ensures
        k.num(o) == m.num(o),
{
    match o {
        Operand::Reg(r) => {
            assert(k.cell(r) == m.cell(r));
        },
        _ => {},
    }
}

proof fn lemma_set_keeps(m: Machine, r: nat, c: Cell, n: nat, o: Operand)
    requires
        older(o, n),
        n <= r,
    ensures
        m.set(r, c).num(o) == m.num(o),
{
}

proof fn lemma_copy_shape(n: nat, from: nat, len: Operand, at: Operand, limit: Operand)
    requires
        n + 5 <= usize::MAX,
    ensures
        copy_steps(n, from, len, at, limit) == (Emitted {
            next: n + 5,
            steps: seq![
                Step::Minus { to: n, a: limit, b: at },
                Step::Above { to: n + 1, a: len, b: Operand::Reg(n) },
                Step::Choose { to: n + 2, test: Guard::Reg(n + 1), yes: Operand::Reg(n), no: len },
                Step::Place { to: n + 3, at },
                Step::Copy { to: n + 3, from, len: Operand::Reg(n + 2) },
                Step::Plus { to: n + 4, a: at, b: Operand::Reg(n + 2) },
            ],
            end: Operand::Reg(n + 4),
        }),
{
}

/// How much has room is found out.
proof fn lemma_copy_measures(m: Machine, n: nat, len: Operand, at: Operand, limit: Operand, size: nat, a: nat, l: nat)
    requires
        m.num(at) == Some(a),
        m.num(limit) == Some(l),
        m.num(len) == Some(size),
        older(len, n),
        a <= l < 0x1_0000_0000_0000_0000,
    ensures
        ({
            let room = (l - a) as nat;
            let fits = if size <= room {
                size
            } else {
                room
            };
            m.after(Step::Minus { to: n, a: limit, b: at }).after(
                Step::Above { to: n + 1, a: len, b: Operand::Reg(n) },
            ).after(
                Step::Choose { to: n + 2, test: Guard::Reg(n + 1), yes: Operand::Reg(n), no: len },
            ) == m.set(n, Cell::Int(room)).set(n + 1, Cell::Flag(size > room)).set(
                n + 2,
                Cell::Int(fits),
            )
        }),
{
    let room = (l - a) as nat;
    let m1 = m.set(n, Cell::Int(room));
    let m2 = m1.set(n + 1, Cell::Flag(size > room));
    assert(wrapped(l - a) == room);
    assert(m.after(Step::Minus { to: n, a: limit, b: at }) == m1);
    lemma_set_keeps(m, n, Cell::Int(room), n, len);
    assert(m1.num(Operand::Reg(n)) == Some(room));
    assert(m1.after(Step::Above { to: n + 1, a: len, b: Operand::Reg(n) }) == m2);
    lemma_set_keeps(m1, n + 1, Cell::Flag(size > room), n, len);
    assert(m2.num(Operand::Reg(n)) == Some(room));
    assert(m2.flag(Guard::Reg(n + 1)) == Some(size > room));
}

/// What has room is copied.
proof fn lemma_copy_writes(m: Machine, n: nat, from: nat, bytes: Seq<u8>, at: Operand, a: nat, fits: nat)
    requires
        m.num(at) == Some(a),
        older(at, n),
        from < n,
        m.cell(from) == Some(Cell::Bytes(bytes)),
        m.cell(n + 2) == Some(Cell::Int(fits)),
        fits <= bytes.len(),
        a + fits <= m.buf.len() < 0x1_0000_0000_0000_0000,
    ensures
        m.after(Step::Place { to: n + 3, at }).after(
            Step::Copy { to: n + 3, from, len: Operand::Reg(n + 2) },
        ).after(Step::Plus { to: n + 4, a: at, b: Operand::Reg(n + 2) }) == (Machine {
            buf: overwritten(m.buf, a, bytes.take(fits as int)),
            ..m.set(n + 3, Cell::Spot(a))
        }).set(n + 4, Cell::Int(a + fits)),
{
    let m4 = m.set(n + 3, Cell::Spot(a));
    let m5 = Machine { buf: overwritten(m.buf, a, bytes.take(fits as int)), ..m4 };
    assert(m4.cell(n + 3) == Some(Cell::Spot(a)));
    assert(m4.cell(from) == Some(Cell::Bytes(bytes)));
    assert(m4.num(Operand::Reg(n + 2)) == Some(fits));
    assert(m4.after(Step::Copy { to: n + 3, from, len: Operand::Reg(n + 2) }) == m5);
    lemma_overwritten_len(m.buf, a, bytes.take(fits as int));
    lemma_set_keeps(m, n + 3, Cell::Spot(a), n, at);
    assert(m5.num(at) == Some(a));
    assert(m5.num(Operand::Reg(n + 2)) == Some(fits));
    assert(wrapped((a + fits) as int) == a + fits);
}

proof fn lemma_copy(
    m: Machine,
    n: nat,
    from: nat,
    bytes: Seq<u8>,
    len: Operand,
    at: Operand,
    limit: Operand,
    a: nat,
    l: nat,
)
    requires
        ready(m, n, at, limit, a, l),
        from < n,
        m.cell(from) == Some(Cell::Bytes(bytes)),
        m.num(len) == Some(bytes.len()),
        older(len, n),
        n + 5 <= usize::MAX,
    ensures
        ({
            let e = copy_steps(n, from, len, at, limit);
            was_put(m, run(m, e.steps), n, e, a, l, bytes) && e.next == n + 5
        }),
{
    let e = copy_steps(n, from, len, at, limit);
    lemma_copy_shape(n, from, len, at, limit);
    let room = (l - a) as nat;
    let fits = room_for(bytes, l - a) as nat;
    let m1 = m.set(n, Cell::Int(room));
    let m2 = m1.set(n + 1, Cell::Flag(bytes.len() > room));
    let m3 = m2.set(n + 2, Cell::Int(fits));
    lemma_copy_measures(m, n, len, at, limit, bytes.len(), a, l);
    lemma_set_keeps(m, n, Cell::Int(room), n, at);
    lemma_set_keeps(m1, n + 1, Cell::Flag(bytes.len() > room), n, at);
    lemma_set_keeps(m2, n + 2, Cell::Int(fits), n, at);
    assert(m3.cell(from) == Some(Cell::Bytes(bytes)));
    assert(m3.cell(n + 2) == Some(Cell::Int(fits)));
    lemma_copy_writes(m3, n, from, bytes, at, a, fits);
    lemma_run_six(
        m,
        Step::Minus { to: n, a: limit, b: at },
        Step::Above { to: n + 1, a: len, b: Operand::Reg(n) },
        Step::Choose { to: n + 2, test: Guard::Reg(n + 1), yes: Operand::Reg(n), no: len },
        Step::Place { to: n + 3, at },
        Step::Copy { to: n + 3, from, len: Operand::Reg(n + 2) },
        Step::Plus { to: n + 4, a: at, b: Operand::Reg(n + 2) },
    );
    let k = run(m, e.steps);
    assert(k.cell(n + 4) == Some(Cell::Int(a + fits)));
    assert(kept_below(m, k, n)) by {
        assert forall|r: nat| r < n implies #[trigger] k.cell(r) == m.cell(r) by {}
    }
}

proof fn lemma_constant_is_put(text: Text, m: Machine, n: nat, at: Operand, limit: Operand, a: nat, l: nat)
    requires
        ready(m, n, at, limit, a, l),
        n + 7 <= usize::MAX,
    ensures
        ({
            let e = constant_steps(text, n, at, limit);
            was_put(m, run(m, e.steps), n, e, a, l, encode_utf8(text)) && e.next == n + 7
        }),
{
    broadcast use lemma_run_push;

    let first = seq![Step::Constant { to: n + 1, index: n, text }];
    let c = copy_steps(n + 2, n + 1, Operand::Num(byte_len(text)), at, limit);
    let m1 = m.after(first[0]);
    assert(run(m, first) == m1);
    lemma_run_behind(m, first, c.steps);
    assert(kept_below(m, m1, n));
    lemma_num_kept(m, m1, n, at);
    lemma_num_kept(m, m1, n, limit);
    lemma_byte_len_is_encoded(text);
    lemma_copy(m1, n + 2, n + 1, encode_utf8(text), Operand::Num(byte_len(text)), at, limit, a, l);
    let k = run(m1, c.steps);
    assert(kept_below(m, k, n)) by {
        assert forall|r: nat| r < n implies #[trigger] k.cell(r) == m.cell(r) by {
            assert(m1.cell(r) == m.cell(r));
        }
    }
}

proof fn lemma_field_is_put(field: Text, m: Machine, n: nat, at: Operand, limit: Operand, a: nat, l: nat)
    requires
        ready(m, n, at, limit, a, l),
        n + 9 <= usize::MAX,
    ensures
        ({
            let e = field_steps(field, n, at, limit);
            was_put(m, run(m, e.steps), n, e, a, l, field_of(m.req, field)) && e.next == n + 9
        }),
{
    broadcast use lemma_run_push;

    let offset = field_offset(field);
    let bytes = field_of(m.req, field);
    let first = seq![
        Step::Note { field },
        Step::FieldPlace { to: n, offset },
        Step::LoadAddress { to: n + 2, from: n },
        Step::FieldPlace { to: n + 1, offset: offset + 8 },
        Step::LoadLength { to: n + 3, from: n + 1 },
    ];
    let c = copy_steps(n + 4, n + 2, Operand::Reg(n + 3), at, limit);
    let m1 = m.after(Step::FieldPlace { to: n, offset });
    let m2 = m1.after(Step::LoadAddress { to: n + 2, from: n });
    assert(m2.cell(n + 2) == Some(Cell::Bytes(bytes)));
    let m3 = m2.after(Step::FieldPlace { to: n + 1, offset: offset + 8 });
    let m4 = m3.after(Step::LoadLength { to: n + 3, from: n + 1 });
    assert(m4.cell(n + 3) == Some(Cell::Int(bytes.len())));
    lemma_run_five(m, first[0], first[1], first[2], first[3], first[4]);
    assert(run(m, first) == m4);
    lemma_run_behind(m, first, c.steps);
    assert(kept_below(m, m4, n));
    lemma_num_kept(m, m4, n, at);
    lemma_num_kept(m, m4, n, limit);
    lemma_copy(m4, n + 4, n + 2, bytes, Operand::Reg(n + 3), at, limit, a, l);
    let k = run(m4, c.steps);
    assert(kept_below(m, k, n)) by {
        assert forall|r: nat| r < n implies #[trigger] k.cell(r) == m.cell(r) by {
            assert(m4.cell(r) == m.cell(r));
        }
    }
}

proof fn lemma_nothing_is_put(m: Machine, n: nat, at: Operand, limit: Operand, a: nat, l: nat)
    requires
        ready(m, n, at, limit, a, l),
    ensures
        was_put(m, run(m, no_steps(n, at).steps), n, no_steps(n, at), a, l, Seq::<u8>::empty()),
{
    lemma_overwritten_nothing(m.buf, a);
    assert(Seq::<u8>::empty().take(0) == Seq::<u8>::empty());
}

proof fn lemma_put_behind(
    m: Machine,
    k: Machine,
    h: Machine,
    n: nat,
    left: Emitted,
    right: Emitted,
    a: nat,
    l: nat,
    v: Seq<u8>,
    w: Seq<u8>,
)
    requires
        a <= l <= m.buf.len(),
        n <= left.next,
        was_put(m, k, n, left, a, l, v),
        was_put(k, h, left.next, right, (a + room_for(v, l - a)) as nat, l, w),
    ensures
        was_put(m, h, n, right, a, l, v + w),
{
    let i = room_for(v, l - a);
    let j = room_for(w, l - a - i);
    let both = room_for(v + w, l - a);
    assert(both == i + j);
    assert((v + w).take(both) == v.take(i) + w.take(j)) by {
        if i < v.len() {
            assert(j == 0);
        }
    }
    lemma_overwritten_twice(m.buf, a, v.take(i), w.take(j));
    assert(kept_below(m, h, n)) by {
        assert forall|r: nat| r < n implies #[trigger] h.cell(r) == m.cell(r) by {
            assert(k.cell(r) == m.cell(r));
        }
    }
}

proof fn lemma_condition(expr: ExprNode, m: Machine, n: nat)
    requires
        m.ok,
        n + condition_registers(expr) <= usize::MAX,
    ensures
        ({
            let (n1, steps, test) = condition_steps(expr, n);
            let k = run(m, steps);
            &&& n1 == n + condition_registers(expr)
            &&& k == (Machine { regs: k.regs, ..m })
            &&& k.flag(test) == Some(condition_holds(expr))
            &&& older_guard(test, n1)
            &&& kept_below(m, k, n)
        }),
{
    broadcast use lemma_run_push;

}

/// The value of an expression is put into the buffer, however it is nested.
proof fn lemma_value_is_put(expr: ExprNode, m: Machine, n: nat, at: Operand, limit: Operand, a: nat, l: nat)
    requires
        ready(m, n, at, limit, a, l),
        n + registers_of(expr) <= usize::MAX,
    ensures
        ({
            let e = expr_steps(expr, n, at, limit);
            was_put(m, run(m, e.steps), n, e, a, l, value_of(expr, m.req)) && e.next == n + registers_of(expr)
        }),
    decreases expr, 1nat,
{
    match expr.value {
        Expr::LitStr(s) => lemma_constant_is_put(s@, m, n, at, limit, a, l),
        Expr::LitInt(v) => lemma_constant_is_put(int_dec(v as int), m, n, at, limit, a, l),
        Expr::LitBool(b) => lemma_constant_is_put(bool_text(b), m, n, at, limit, a, l),
        Expr::LitChar(c) => lemma_constant_is_put(seq![c], m, n, at, limit, a, l),
        Expr::LitReal(v) => lemma_constant_is_put(v.shown@, m, n, at, limit, a, l),
        Expr::LitHex(v) => lemma_constant_is_put(int_dec(v as int), m, n, at, limit, a, l),
        Expr::If(_, _, _) => lemma_branch_is_put(expr, m, n, at, limit, a, l),
        Expr::Field(obj, field) => if is_req(*obj) {
            lemma_field_is_put(field@, m, n, at, limit, a, l);
        } else {
            lemma_nothing_is_put(m, n, at, limit, a, l);
        },
        Expr::Ident(name) => if name@ == "req"@ {
            assert("body"@ != "method"@ && "body"@ != "path"@) by {
                reveal_strlit("body");
                reveal_strlit("method");
                reveal_strlit("path");
                assert("body"@[0] != "path"@[0]);
                assert("body"@.len() != "method"@.len());
            }
            lemma_field_is_put("body"@, m, n, at, limit, a, l);
        } else {
            lemma_nothing_is_put(m, n, at, limit, a, l);
        },
        Expr::BinOp(left_expr, op, right_expr) => if op == BinOp::Add {
            let left = expr_steps(*left_expr, n, at, limit);
            let right = expr_steps(*right_expr, left.next, left.end, limit);
            let v = value_of(*left_expr, m.req);
            let mid = (a + room_for(v, l - a)) as nat;
            lemma_value_is_put(*left_expr, m, n, at, limit, a, l);
            let k = run(m, left.steps);
            lemma_overwritten_len(m.buf, a, v.take(room_for(v, l - a)));
            lemma_num_kept(m, k, n, limit);
            lemma_value_is_put(*right_expr, k, left.next, left.end, limit, mid, l);
            let h = run(k, right.steps);
            lemma_run_behind(m, left.steps, right.steps);
            lemma_put_behind(m, k, h, n, left, right, a, l, v, value_of(*right_expr, m.req));
        } else {
            lemma_nothing_is_put(m, n, at, limit, a, l);
        },
        Expr::Block(stmts) => lemma_block_is_put(stmts@, m, n, at, limit, a, l),
        Expr::ListLit(items) => lemma_constant_is_put(
            "["@ + joined(lit_texts(items@), ", "@) + "]"@,
            m,
            n,
            at,
            limit,
            a,
            l,
        ),
        Expr::SetLit(items) => lemma_constant_is_put(
            "{"@ + joined(lit_texts(items@), ", "@) + "}"@,
            m,
            n,
            at,
            limit,
            a,
            l,
        ),
        Expr::MapLit(pairs) => lemma_constant_is_put(
            "{"@ + joined(pair_texts(pairs@), ", "@) + "}"@,
            m,
            n,
            at,
            limit,
            a,
            l,
        ),
        Expr::TupleLit(items) => lemma_constant_is_put(
            "("@ + joined(lit_texts(items@), ", "@) + ")"@,
            m,
            n,
            at,
            limit,
            a,
            l,
        ),
        _ => lemma_nothing_is_put(m, n, at, limit, a, l),
    }
}

proof fn lemma_block_is_put(
    stmts: Seq<StmtNode>,
    m: Machine,
    n: nat,
    at: Operand,
    limit: Operand,
    a: nat,
    l: nat,
)
    requires
        ready(m, n, at, limit, a, l),
        n + registers_of_block(stmts) <= usize::MAX,
    ensures
        ({
            let e = block_steps(stmts, n, at, limit);
            was_put(m, run(m, e.steps), n, e, a, l, value_of_block(stmts, m.req)) && e.next == n
                + registers_of_block(stmts)
        }),
    decreases stmts, 2nat,
{
    if stmts.len() == 0 {
        lemma_nothing_is_put(m, n, at, limit, a, l);
    } else {
        match stmts.last().value {
            Stmt::Return(Some(e)) => lemma_value_is_put(e, m, n, at, limit, a, l),
            Stmt::Return(None) => lemma_nothing_is_put(m, n, at, limit, a, l),
            Stmt::Expr(e) => lemma_value_is_put(e, m, n, at, limit, a, l),
            _ => lemma_block_is_put(stmts.drop_last(), m, n, at, limit, a, l),
        }
    }
}

/// A value that has no room leaves everything as it is.
proof fn lemma_no_room(m: Machine, k: Machine, n: nat, e: Emitted, at: nat, value: Seq<u8>)
    requires
        at <= m.buf.len(),
        was_put(m, k, n, e, at, at, value),
    ensures
        k.buf == m.buf,
        k.num(e.end) == Some(at),
{
    assert(value.take(0) == Seq::<u8>::empty());
    lemma_overwritten_nothing(m.buf, at);
}

proof fn lemma_branch_is_put(expr: ExprNode, m: Machine, n: nat, at: Operand, limit: Operand, a: nat, l: nat)
    requires
        expr.value is If,
        ready(m, n, at, limit, a, l),
        n + registers_of(expr) <= usize::MAX,
    ensures
        ({
            let e = expr_steps(expr, n, at, limit);
            was_put(m, run(m, e.steps), n, e, a, l, value_of(expr, m.req)) && e.next == n + registers_of(expr)
        }),
    decreases expr, 0nat,
{
    broadcast use lemma_run_push;

    match expr.value {
        Expr::If(cond, then_expr, else_expr) => {
            let (n1, test_steps, test) = condition_steps(*cond, n);
            let holds = condition_holds(*cond);
            lemma_condition(*cond, m, n);
            let k0 = run(m, test_steps);
            let choose_first = Step::Choose { to: n1, test, yes: limit, no: at };
            let first = test_steps.push(choose_first);
            lemma_num_kept(m, k0, n, at);
            lemma_num_kept(m, k0, n, limit);
            let l1 = if holds {
                l
            } else {
                a
            };
            let k1 = run(m, first);
            assert(k1 == k0.set(n1, Cell::Int(l1)));
            assert(kept_below(m, k1, n)) by {
                assert forall|r: nat| r < n implies #[trigger] k1.cell(r) == m.cell(r) by {
                    assert(k0.cell(r) == m.cell(r));
                }
            }
            lemma_num_kept(m, k1, n, at);
            lemma_num_kept(m, k1, n, limit);
            let yes = expr_steps(*then_expr, n1 + 1, at, Operand::Reg(n1));
            let v = value_of(*then_expr, m.req);
            lemma_value_is_put(*then_expr, k1, n1 + 1, at, Operand::Reg(n1), a, l1);
            let k2 = run(k1, yes.steps);
            lemma_run_behind(m, first, yes.steps);
            assert(kept_below(m, k2, n)) by {
                assert forall|r: nat| r < n implies #[trigger] k2.cell(r) == m.cell(r) by {
                    assert(k1.cell(r) == m.cell(r));
                }
            }
            lemma_overwritten_len(k1.buf, a, v.take(room_for(v, l1 - a)));
            if !holds {
                lemma_no_room(k1, k2, n1 + 1, yes, a, v);
            }
            match else_expr {
                Some(ee) => {
                    let mid = k2.num(yes.end)->0;
                    let second = Step::Choose { to: yes.next, test, yes: yes.end, no: limit };
                    let front = (first + yes.steps).push(second);
                    match test {
                        Guard::Reg(r) => {
                            assert(k2.cell(r) == k1.cell(r));
                            assert(k1.cell(r) == k0.cell(r));
                        },
                        _ => {},
                    }
                    assert(k2.flag(test) == Some(holds));
                    lemma_num_kept(m, k2, n, limit);
                    let l2 = if holds {
                        mid
                    } else {
                        l
                    };
                    let k3 = run(m, front);
                    assert(k3 == k2.set(yes.next, Cell::Int(l2)));
                    assert(k3.num(yes.end) == Some(mid)) by {
                        match yes.end {
                            Operand::Reg(r) => {
                                assert(k3.cell(r) == k2.cell(r));
                            },
                            _ => {},
                        }
                    }
                    let no = expr_steps(*ee, yes.next + 1, yes.end, Operand::Reg(yes.next));
                    let w = value_of(*ee, m.req);
                    lemma_value_is_put(*ee, k3, yes.next + 1, yes.end, Operand::Reg(yes.next), mid, l2);
                    let k4 = run(k3, no.steps);
                    lemma_run_behind(m, front, no.steps);
                    assert(kept_below(m, k4, n)) by {
                        assert forall|r: nat| r < n implies #[trigger] k4.cell(r) == m.cell(r) by {
                            assert(k3.cell(r) == k2.cell(r));
                            assert(k2.cell(r) == m.cell(r));
                        }
                    }
                    if holds {
                        lemma_no_room(k3, k4, yes.next + 1, no, mid, w);
                    }
                },
                None => {
                    if !holds {
                        lemma_overwritten_nothing(m.buf, a);
                        assert(Seq::<u8>::empty().take(0) == Seq::<u8>::empty());
                    }
                },
            }
        },
        _ => {},
    }
}

/// A handler answers with the value of its expression, as far as the buffer of the caller reaches: it
/// lies in the buffer from its beginning on, the response has its address, its length and the status
/// 200, and what stood behind it in the buffer is left as it was. No instruction reads or writes
/// beyond what is there. Each of the registers has a name of its own as long as their number fits in
/// the counter.
pub proof fn lemma_handler_answers(expr: ExprNode, req: Request, buf: Seq<u8>)
    requires
        registers_of(expr) <= usize::MAX,
        buf.len() < 0x1_0000_0000_0000_0000,
    ensures
        ({
            let k = run(Machine::start(req, buf), reply_steps(expr));
            let value = value_of(expr, req);
            let len = room_for(value, buf.len() as int);
            &&& k.ok
            &&& k.resp == (Response {
                in_buffer: true,
                len: Some(len as nat),
                status: Some(200int),
                returned: true,
            })
            &&& k.buf == value.take(len) + buf.skip(len)
        }),
{
    broadcast use lemma_run_push;

    let m = Machine::start(req, buf);
    let e = expr_steps(expr, 0, Operand::Num(0), Operand::BufLen);
    lemma_value_is_put(expr, m, 0, Operand::Num(0), Operand::BufLen, 0, buf.len());
    let k = run(m, e.steps);
    lemma_run_behind(m, e.steps, response_steps(e.end));
    let value = value_of(expr, req);
    let len = room_for(value, buf.len() as int);
    assert(overwritten(buf, 0, value.take(len)) == value.take(len) + buf.skip(len));
    assert(k.num(e.end) == Some(len as nat));
    let k1 = k.after(Step::StoreBuffer);
    assert(k1.num(e.end) == k.num(e.end));
    lemma_run_six(
        k,
        Step::StoreBuffer,
        Step::LengthPlace,
        Step::StoreLength { len: e.end },
        Step::StatusPlace,
        Step::StoreStatus,
        Step::Return,
    );
}

/// An expression is the concatenation of two others.
pub open spec fn is_sum(x: ExprNode, left: ExprNode, right: ExprNode) -> bool {
    match x.value {
        Expr::BinOp(l, op, r) => op == BinOp::Add && *l == left && *r == right,
        _ => false,
    }
}

/// The value of a concatenation is the values of its operands, one behind the other, however the
/// operands are grouped: `a + (b + c)` and `(a + b) + c` have the same.
pub proof fn lemma_grouping_makes_no_difference(
    x: ExprNode,
    y: ExprNode,
    ab: ExprNode,
    bc: ExprNode,
    a: ExprNode,
    b: ExprNode,
    c: ExprNode,
    req: Request,
)
    requires
        is_sum(x, a, bc),
        is_sum(bc, b, c),
        is_sum(y, ab, c),
        is_sum(ab, a, b),
    ensures
        value_of(x, req) == value_of(a, req) + value_of(b, req) + value_of(c, req),
        value_of(y, req) == value_of(x, req),
{
    reveal_with_fuel(value_of, 3);
    assert(value_of(a, req) + (value_of(b, req) + value_of(c, req)) == value_of(a, req) + value_of(b, req)
        + value_of(c, req));
}

} // verus!
