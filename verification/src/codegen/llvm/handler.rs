//! Request handlers: functions that a server calls for each request.

use vstd::prelude::*;

use crate::codegen::llvm::names::{array_size, array_size_string, size_string, size_text};
use crate::codegen::llvm::reply::{
    block_steps, condition_steps, constant_name, constant_steps, constants_text, copy_steps, expr_steps, field_steps,
    guard_text, no_steps, operand_text, reg_text, reply_steps, step_text, steps_text, Emitted, Guard, Operand, Step,
    COPY_DECLARATION,
};
use crate::interpret::FnDef;
use crate::scan::{
    begins, join, joined, lines, lines_of, opt_text, replace_char, replaced, starts_with, texts,
};
use crate::syntax::ast::{BinOp, Expr, ExprNode, Stmt, StmtNode};
use crate::text::{
    bump, bumped, byte_count, cat2, cat3, cat4, cat5, cat6, cat7, cat9, dec_text, int_dec, int_text, owned,
    same, Text,
};

verus! {

// ---------------------------------------------------------------------------------------------
// A handler with a fixed answer
// ---------------------------------------------------------------------------------------------
/// The contents of a constant of a handler with a fixed answer.
pub open spec fn static_text(s: Text) -> Text {
    replaced(handler_text(s), '\t', "\\09"@)
}

fn static_string(s: &str) -> (r: String)
    ensures
        r@ == static_text(s@),
{
    replace_char(&handler_string(s), '\t', "\\09")
}

/// A handler that answers every request with the same text and status.
pub open spec fn static_handler(name: Text, body: Text, status: int) -> Text {
    let constant = "@__yk_cstr_"@ + name;
    "; JIT-compiled handler for '"@ + name
        + "'\ntarget triple = \"x86_64-pc-windows-msvc\"\n\n"@ + constant
        + " = private unnamed_addr constant ["@ + array_size(body) + " x i8] c\""@ + static_text(body)
        + "\\00\"\n\ndefine void @"@ + name
        + "(ptr %resp) {\nentry:\n  ; Write body pointer at byte offset 0\n  %bp = getelementptr i8, ptr %resp, i32 0\n  store ptr "@
        + constant
        + ", ptr %bp\n  ; Write body_len at byte offset 8\n  %lp = getelementptr i8, ptr %resp, i32 8\n  store i64 "@
        + size_text(body)
        + ", ptr %lp\n  ; Write status_code at byte offset 16\n  %sp = getelementptr i8, ptr %resp, i32 16\n  store i32 "@
        + int_dec(status) + ", ptr %sp\n  ret void\n}\n"@
}

/// The text of a handler that answers every request with the same body and status code.
///
/// The handler has the C signature `void handler_name(struct YkResponse* resp)`.
pub fn generate_static_handler_ir(handler_name: &str, response_body: &str, status_code: i32) -> (r: String)
    ensures
        r@ == static_handler(handler_name@, response_body@, status_code as int),
{
    let constant = cat2("@__yk_cstr_", handler_name);
    let head = cat9(
        "; JIT-compiled handler for '",
        handler_name,
        "'\ntarget triple = \"x86_64-pc-windows-msvc\"\n\n",
        &constant,
        " = private unnamed_addr constant [",
        &array_size_string(response_body),
        " x i8] c\"",
        &static_string(response_body),
        "\\00\"\n\ndefine void @",
    );
    cat9(
        &head,
        handler_name,
        "(ptr %resp) {\nentry:\n  ; Write body pointer at byte offset 0\n  %bp = getelementptr i8, ptr %resp, i32 0\n  store ptr ",
        &constant,
        ", ptr %bp\n  ; Write body_len at byte offset 8\n  %lp = getelementptr i8, ptr %resp, i32 8\n  store i64 ",
        &size_string(response_body),
        ", ptr %lp\n  ; Write status_code at byte offset 16\n  %sp = getelementptr i8, ptr %resp, i32 16\n  store i32 ",
        &int_text(status_code as i64),
        ", ptr %sp\n  ret void\n}\n",
    )
}

// ---------------------------------------------------------------------------------------------
// Constants
// ---------------------------------------------------------------------------------------------
/// The contents of a constant of a handler.
pub open spec fn handler_text(s: Text) -> Text {
    replaced(replaced(replaced(replaced(s, '\\', "\\\\"@), '"', "\\22"@), '\n', "\\0A"@), '\r', "\\0D"@)
}

fn handler_string(s: &str) -> (r: String)
    ensures
        r@ == handler_text(s@),
{
    replace_char(
        &replace_char(&replace_char(&replace_char(s, '\\', "\\\\"), '"', "\\22"), '\n', "\\0A"),
        '\r',
        "\\0D",
    )
}

// ---------------------------------------------------------------------------------------------
// What a handler looks at
// ---------------------------------------------------------------------------------------------
/// The text of a truth value.
pub open spec fn bool_text(b: bool) -> Text {
    if b {
        "true"@
    } else {
        "false"@
    }
}

pub(crate) fn bool_string(b: bool) -> (r: String)
    ensures
        r@ == bool_text(b),
{
    if b {
        owned("true")
    } else {
        owned("false")
    }
}

/// The value of an integer literal; any other expression counts as zero.
pub open spec fn int_value(expr: ExprNode) -> int {
    match expr.value {
        Expr::LitInt(n) => n as int,
        _ => 0,
    }
}

/// The name of the request parameter.
pub open spec fn is_req(expr: ExprNode) -> bool {
    match expr.value {
        Expr::Ident(name) => name@ == "req"@,
        _ => false,
    }
}

/// A literal as text; any other expression is a question mark.
pub open spec fn lit_text(expr: ExprNode) -> Text {
    match expr.value {
        Expr::LitStr(s) => s@,
        Expr::LitInt(n) => int_dec(n as int),
        Expr::LitBool(b) => bool_text(b),
        Expr::LitChar(c) => seq![c],
        Expr::LitReal(v) => v.shown@,
        Expr::LitHex(n) => int_dec(n as int),
        _ => "?"@,
    }
}

/// The literals of a list as texts.
pub open spec fn lit_texts(items: Seq<ExprNode>) -> Seq<Text> {
    items.map_values(|e: ExprNode| lit_text(e))
}

/// The literals of a map as texts.
pub open spec fn pair_texts(items: Seq<(ExprNode, ExprNode)>) -> Seq<Text> {
    items.map_values(|p: (ExprNode, ExprNode)| lit_text(p.0) + ": "@ + lit_text(p.1))
}

/// The expression that a body gives back: that of its last return or expression statement.
pub open spec fn return_expr(body: Seq<StmtNode>) -> Option<ExprNode>
    decreases body.len(),
{
    if body.len() == 0 {
        None
    } else {
        match body.last().value {
            Stmt::Return(Some(e)) => Some(e),
            Stmt::Return(None) => None,
            Stmt::Expr(e) => Some(e),
            _ => return_expr(body.drop_last()),
        }
    }
}

/// An optional reference as an optional value.
pub open spec fn opt_expr(o: Option<&ExprNode>) -> Option<ExprNode> {
    match o {
        Some(e) => Some(*e),
        None => None,
    }
}

fn char_string(c: char) -> (r: String)
    ensures
        r@ == seq![c],
{
    let mut s = String::new();
    s.push(c);
    assert(s@ == seq![c]);
    s
}

fn gen_int64(expr: &ExprNode) -> (r: i64)
    ensures
        r as int == int_value(*expr),
{
    match &expr.value {
        Expr::LitInt(n) => *n,
        _ => 0,
    }
}

fn lit_to_str(expr: &ExprNode) -> (r: String)
    ensures
        r@ == lit_text(*expr),
{
    match &expr.value {
        Expr::LitStr(s) => s.clone(),
        Expr::LitInt(n) => int_text(*n),
        Expr::LitBool(b) => bool_string(*b),
        Expr::LitChar(c) => char_string(*c),
        Expr::LitReal(v) => v.shown.clone(),
        Expr::LitHex(n) => int_text(*n),
        _ => owned("?"),
    }
}

fn lit_list(items: &Vec<ExprNode>) -> (r: Vec<String>)
    ensures
        texts(r@) == lit_texts(items@),
{
    let mut r: Vec<String> = Vec::new();
    let mut i: usize = 0;
    while i < items.len()
        invariant
            i <= items@.len(),
            texts(r@) == lit_texts(items@).take(i as int),
        decreases items.len() - i,
    {
        let t = lit_to_str(&items[i]);
        let ghost before = r@;
        let ghost text = t@;
        r.push(t);
        assert(texts(r@) == texts(before).push(text));
        assert(lit_texts(items@).take(i + 1) == lit_texts(items@).take(i as int).push(text));
        i += 1;
    }
    assert(lit_texts(items@).take(i as int) == lit_texts(items@));
    r
}

fn pair_list(items: &Vec<(ExprNode, ExprNode)>) -> (r: Vec<String>)
    ensures
        texts(r@) == pair_texts(items@),
{
    let mut r: Vec<String> = Vec::new();
    let mut i: usize = 0;
    while i < items.len()
        invariant
            i <= items@.len(),
            texts(r@) == pair_texts(items@).take(i as int),
        decreases items.len() - i,
    {
        let t = cat3(&lit_to_str(&items[i].0), ": ", &lit_to_str(&items[i].1));
        let ghost before = r@;
        let ghost text = t@;
        r.push(t);
        assert(texts(r@) == texts(before).push(text));
        assert(pair_texts(items@).take(i + 1) == pair_texts(items@).take(i as int).push(text));
        i += 1;
    }
    assert(pair_texts(items@).take(i as int) == pair_texts(items@));
    r
}

pub(crate) fn find_return_expr<'b>(body: &'b Vec<StmtNode>) -> (r: Option<&'b ExprNode>)
    ensures
        opt_expr(r) == return_expr(body@),
{
    let mut i: usize = body.len();
    assert(body@.take(i as int) == body@);
    while i > 0
        invariant
            i <= body@.len(),
            return_expr(body@) == return_expr(body@.take(i as int)),
        decreases i,
    {
        match &body[i - 1].value {
            Stmt::Return(Some(e)) => {
                return Some(e);
            },
            Stmt::Return(None) => {
                return None;
            },
            Stmt::Expr(e) => {
                return Some(e);
            },
            _ => {},
        }
        assert(body@.take(i as int).drop_last() == body@.take(i - 1));
        i -= 1;
    }
    None
}

// ---------------------------------------------------------------------------------------------
// The generator
// ---------------------------------------------------------------------------------------------
/// A number that an instruction takes.
#[derive(Clone, Copy)]
enum Arg {
    Reg(usize),
    Num(u128),
    BufLen,
}

impl View for Arg {
    type V = Operand;

    closed spec fn view(&self) -> Operand {
        match self {
            Arg::Reg(n) => Operand::Reg(*n as nat),
            Arg::Num(n) => Operand::Num(*n as nat),
            Arg::BufLen => Operand::BufLen,
        }
    }
}

/// A truth value that an instruction takes.
#[derive(Clone, Copy)]
enum Test {
    Flag(bool),
    Reg(usize),
}

impl View for Test {
    type V = Guard;

    closed spec fn view(&self) -> Guard {
        match self {
            Test::Flag(b) => Guard::Flag(*b),
            Test::Reg(n) => Guard::Reg(*n as nat),
        }
    }
}

/// An instruction.
enum Line {
    Constant { to: usize, index: usize, text: String },
    Note { field: String },
    FieldPlace { to: usize, offset: u128 },
    LoadAddress { to: usize, from: usize },
    LoadLength { to: usize, from: usize },
    Compare { to: usize, equal: bool, a: i64, b: i64 },
    Choose { to: usize, test: Test, yes: Arg, no: Arg },
    Above { to: usize, a: Arg, b: Arg },
    Minus { to: usize, a: Arg, b: Arg },
    Plus { to: usize, a: Arg, b: Arg },
    Place { to: usize, at: Arg },
    Copy { to: usize, from: usize, len: Arg },
    StoreBuffer,
    LengthPlace,
    StoreLength { len: Arg },
    StatusPlace,
    StoreStatus,
    Return,
}

impl View for Line {
    type V = Step;

    closed spec fn view(&self) -> Step {
        match self {
            Line::Constant { to, index, text } => Step::Constant {
                to: *to as nat,
                index: *index as nat,
                text: text@,
            },
            Line::Note { field } => Step::Note { field: field@ },
            Line::FieldPlace { to, offset } => Step::FieldPlace { to: *to as nat, offset: *offset as nat },
            Line::LoadAddress { to, from } => Step::LoadAddress { to: *to as nat, from: *from as nat },
            Line::LoadLength { to, from } => Step::LoadLength { to: *to as nat, from: *from as nat },
            Line::Compare { to, equal, a, b } => Step::Compare {
                to: *to as nat,
                equal: *equal,
                a: *a as int,
                b: *b as int,
            },
            Line::Choose { to, test, yes, no } => Step::Choose {
                to: *to as nat,
                test: test@,
                yes: yes@,
                no: no@,
            },
            Line::Above { to, a, b } => Step::Above { to: *to as nat, a: a@, b: b@ },
            Line::Minus { to, a, b } => Step::Minus { to: *to as nat, a: a@, b: b@ },
            Line::Plus { to, a, b } => Step::Plus { to: *to as nat, a: a@, b: b@ },
            Line::Place { to, at } => Step::Place { to: *to as nat, at: at@ },
            Line::Copy { to, from, len } => Step::Copy { to: *to as nat, from: *from as nat, len: len@ },
            Line::StoreBuffer => Step::StoreBuffer,
            Line::LengthPlace => Step::LengthPlace,
            Line::StoreLength { len } => Step::StoreLength { len: len@ },
            Line::StatusPlace => Step::StatusPlace,
            Line::StoreStatus => Step::StoreStatus,
            Line::Return => Step::Return,
        }
    }
}

spec fn steps_of(lines: Seq<Line>) -> Seq<Step> {
    lines.map_values(|l: Line| l@)
}

fn reg_string(n: usize) -> (r: String)
    ensures
        r@ == reg_text(n as nat),
{
    cat2("%l", &dec_text(n as u128))
}

fn arg_string(a: Arg) -> (r: String)
    ensures
        r@ == operand_text(a@),
{
    match a {
        Arg::Reg(n) => reg_string(n),
        Arg::Num(n) => dec_text(n),
        Arg::BufLen => owned("%buf_len"),
    }
}

fn test_string(t: Test) -> (r: String)
    ensures
        r@ == guard_text(t@),
{
    match t {
        Test::Flag(b) => bool_string(b),
        Test::Reg(n) => reg_string(n),
    }
}

fn constant_name_string(prefix: &str, index: usize) -> (r: String)
    ensures
        r@ == constant_name(prefix@, index as nat),
{
    cat4("@__yk_cstr_", prefix, "_", &dec_text(index as u128))
}

fn line_string(line: &Line, prefix: &str) -> (r: String)
    ensures
        r@ == step_text(line@, prefix@),
{
    match line {
        Line::Constant { to, index, text } => cat6(
            &reg_string(*to),
            " = getelementptr inbounds [",
            &array_size_string(text),
            " x i8], ptr ",
            &constant_name_string(prefix, *index),
            ", i64 0, i64 0",
        ),
        Line::Note { field } => cat2("; Load req.", field),
        Line::FieldPlace { to, offset } => cat3(
            &reg_string(*to),
            " = getelementptr i8, ptr %req, i32 ",
            &dec_text(*offset),
        ),
        Line::LoadAddress { to, from } => cat3(&reg_string(*to), " = load ptr, ptr ", &reg_string(*from)),
        Line::LoadLength { to, from } => cat3(&reg_string(*to), " = load i64, ptr ", &reg_string(*from)),
        Line::Compare { to, equal, a, b } => {
            let words = if *equal {
                " = icmp eq i64 "
            } else {
                " = icmp ne i64 "
            };
            cat5(&reg_string(*to), words, &int_text(*a), ", ", &int_text(*b))
        },
        Line::Choose { to, test, yes, no } => cat7(
            &reg_string(*to),
            " = select i1 ",
            &test_string(*test),
            ", i64 ",
            &arg_string(*yes),
            ", i64 ",
            &arg_string(*no),
        ),
        Line::Above { to, a, b } => cat5(
            &reg_string(*to),
            " = icmp ugt i64 ",
            &arg_string(*a),
            ", ",
            &arg_string(*b),
        ),
        Line::Minus { to, a, b } => cat5(
            &reg_string(*to),
            " = sub i64 ",
            &arg_string(*a),
            ", ",
            &arg_string(*b),
        ),
        Line::Plus { to, a, b } => cat5(
            &reg_string(*to),
            " = add i64 ",
            &arg_string(*a),
            ", ",
            &arg_string(*b),
        ),
        Line::Place { to, at } => cat3(
            &reg_string(*to),
            " = getelementptr i8, ptr %buf, i64 ",
            &arg_string(*at),
        ),
        Line::Copy { to, from, len } => cat7(
            "call void @llvm.memcpy.p0.p0.i64(ptr ",
            &reg_string(*to),
            ", ptr ",
            &reg_string(*from),
            ", i64 ",
            &arg_string(*len),
            ", i1 false)",
        ),
        Line::StoreBuffer => owned("store ptr %buf, ptr %resp"),
        Line::LengthPlace => owned("%lp = getelementptr i8, ptr %resp, i32 8"),
        Line::StoreLength { len } => cat3("store i64 ", &arg_string(*len), ", ptr %lp"),
        Line::StatusPlace => owned("%sp = getelementptr i8, ptr %resp, i32 16"),
        Line::StoreStatus => owned("store i32 200, ptr %sp"),
        Line::Return => owned("ret void"),
    }
}

/// A handler while it is written: the number of the next register, and its instructions.
pub struct HandlerGen {
    pub label: nat,
    pub steps: Seq<Step>,
}

impl HandlerGen {
    /// The handler with further instructions.
    pub open spec fn with(self, e: Emitted) -> HandlerGen {
        HandlerGen { label: e.next, steps: self.steps + e.steps }
    }
}

/// Writes a handler that computes its answer.
struct FnIrGen {
    label: usize,
    lines: Vec<Line>,
}

impl View for FnIrGen {
    type V = HandlerGen;

    closed spec fn view(&self) -> HandlerGen {
        HandlerGen { label: self.label as nat, steps: steps_of(self.lines@) }
    }
}

impl FnIrGen {
    fn new() -> (r: FnIrGen)
        ensures
            r@ == (HandlerGen { label: 0, steps: seq![] }),
    {
        let r = FnIrGen { label: 0, lines: Vec::new() };
        assert(steps_of(r.lines@) == Seq::<Step>::empty());
        r
    }

    fn e(&mut self, line: Line)
        ensures
            final(self)@ == (HandlerGen { steps: old(self)@.steps.push(line@), ..old(self)@ }),
    {
        self.lines.push(line);
        assert(steps_of(self.lines@) == steps_of(old(self).lines@).push(line@));
    }

    fn fresh(&mut self) -> (r: usize)
        ensures
            r as nat == old(self)@.label,
            final(self)@ == (HandlerGen { label: bumped(old(self)@.label), ..old(self)@ }),
    {
        let n = self.label;
        self.label = bump(n);
        n
    }

    fn gen_copy(&mut self, from: usize, len: Arg, at: Arg, limit: Arg) -> (r: Arg)
        ensures
            final(self)@ == old(self)@.with(copy_steps(old(self)@.label, from as nat, len@, at@, limit@)),
            r@ == copy_steps(old(self)@.label, from as nat, len@, at@, limit@).end,
    {
        let room = self.fresh();
        self.e(Line::Minus { to: room, a: limit, b: at });
        let over = self.fresh();
        self.e(Line::Above { to: over, a: len, b: Arg::Reg(room) });
        let actual = self.fresh();
        self.e(Line::Choose { to: actual, test: Test::Reg(over), yes: Arg::Reg(room), no: len });
        let place = self.fresh();
        self.e(Line::Place { to: place, at });
        self.e(Line::Copy { to: place, from, len: Arg::Reg(actual) });
        let end = self.fresh();
        self.e(Line::Plus { to: end, a: at, b: Arg::Reg(actual) });
        assert(self@.steps == old(self)@.steps + copy_steps(
            old(self)@.label,
            from as nat,
            len@,
            at@,
            limit@,
        ).steps);
        Arg::Reg(end)
    }

    fn gen_str_constant(&mut self, s: &str, at: Arg, limit: Arg) -> (r: Arg)
        ensures
            final(self)@ == old(self)@.with(constant_steps(s@, old(self)@.label, at@, limit@)),
            r@ == constant_steps(s@, old(self)@.label, at@, limit@).end,
    {
        let index = self.fresh();
        let to = self.fresh();
        self.e(Line::Constant { to, index, text: owned(s) });
        let r = self.gen_copy(to, Arg::Num(byte_count(s)), at, limit);
        assert(self@.steps == old(self)@.steps + constant_steps(s@, old(self)@.label, at@, limit@).steps);
        r
    }

    fn gen_request_field(&mut self, field: &str, at: Arg, limit: Arg) -> (r: Arg)
        ensures
            final(self)@ == old(self)@.with(field_steps(field@, old(self)@.label, at@, limit@)),
            r@ == field_steps(field@, old(self)@.label, at@, limit@).end,
    {
        let offset: u128 = if same(field, "method") {
            0
        } else if same(field, "path") {
            16
        } else {
            32
        };
        let place = self.fresh();
        let len_place = self.fresh();
        self.e(Line::Note { field: owned(field) });
        self.e(Line::FieldPlace { to: place, offset });
        let address = self.fresh();
        self.e(Line::LoadAddress { to: address, from: place });
        self.e(Line::FieldPlace { to: len_place, offset: offset + 8 });
        let len = self.fresh();
        self.e(Line::LoadLength { to: len, from: len_place });
        let r = self.gen_copy(address, Arg::Reg(len), at, limit);
        assert(self@.steps == old(self)@.steps + field_steps(field@, old(self)@.label, at@, limit@).steps);
        r
    }

    fn gen_nothing(&mut self, at: Arg) -> (r: Arg)
        ensures
            final(self)@ == old(self)@.with(no_steps(old(self)@.label, at@)),
            r@ == no_steps(old(self)@.label, at@).end,
    {
        assert(self@.steps == self@.steps + Seq::<Step>::empty());
        at
    }

    fn gen_condition(&mut self, expr: &ExprNode) -> (r: Test)
        ensures
            final(self)@ == (HandlerGen {
                label: condition_steps(*expr, old(self)@.label).0,
                steps: old(self)@.steps + condition_steps(*expr, old(self)@.label).1,
            }),
            r@ == condition_steps(*expr, old(self)@.label).2,
    {
        assert(self@.steps == self@.steps + Seq::<Step>::empty());
        match &expr.value {
            Expr::LitBool(b) => Test::Flag(*b),
            Expr::BinOp(l, op, r) => {
                if *op == BinOp::Eq || *op == BinOp::Ne {
                    let to = self.fresh();
                    self.e(Line::Compare { to, equal: *op == BinOp::Eq, a: gen_int64(l), b: gen_int64(r) });
                    assert(self@.steps == old(self)@.steps + condition_steps(*expr, old(self)@.label).1);
                    Test::Reg(to)
                } else {
                    Test::Flag(true)
                }
            },
            _ => Test::Flag(true),
        }
    }

    fn gen_if(&mut self, expr: &ExprNode, at: Arg, limit: Arg) -> (r: Arg)
        requires
            expr.value is If,
        ensures
            final(self)@ == old(self)@.with(expr_steps(*expr, old(self)@.label, at@, limit@)),
            r@ == expr_steps(*expr, old(self)@.label, at@, limit@).end,
        decreases expr, 0nat,
    {
        let ghost n = self@.label;
        let ghost before = self@.steps;
        match &expr.value {
            Expr::If(cond, then_expr, else_expr) => {
                let test = self.gen_condition(cond);
                let ghost (n1, test_steps, guard) = condition_steps(**cond, n);
                let room = self.fresh();
                self.e(Line::Choose { to: room, test, yes: limit, no: at });
                let ghost first = test_steps.push(
                    Step::Choose { to: n1, test: guard, yes: limit@, no: at@ },
                );
                assert(self@.steps == before + first);
                let end = self.gen_expr(then_expr, at, Arg::Reg(room));
                let ghost yes = expr_steps(**then_expr, bumped(n1), at@, Operand::Reg(n1));
                assert(self@.steps == before + (first + yes.steps));
                match else_expr {
                    Some(ee) => {
                        let rest = self.fresh();
                        self.e(Line::Choose { to: rest, test, yes: end, no: limit });
                        let ghost second = Step::Choose {
                            to: yes.next,
                            test: guard,
                            yes: yes.end,
                            no: limit@,
                        };
                        assert(self@.steps == before + (first + yes.steps).push(second));
                        let r = self.gen_expr(ee, end, Arg::Reg(rest));
                        assert(self@.steps == before + expr_steps(*expr, n, at@, limit@).steps);
                        r
                    },
                    None => end,
                }
            },
            _ => at,
        }
    }

    fn gen_expr(&mut self, expr: &ExprNode, at: Arg, limit: Arg) -> (r: Arg)
        ensures
            final(self)@ == old(self)@.with(expr_steps(*expr, old(self)@.label, at@, limit@)),
            r@ == expr_steps(*expr, old(self)@.label, at@, limit@).end,
        decreases expr, 1nat,
    {
        match &expr.value {
            Expr::LitStr(s) => self.gen_str_constant(s, at, limit),
            Expr::LitInt(n) => self.gen_str_constant(&int_text(*n), at, limit),
            Expr::LitBool(b) => self.gen_str_constant(&bool_string(*b), at, limit),
            Expr::LitChar(c) => self.gen_str_constant(&char_string(*c), at, limit),
            Expr::LitReal(v) => self.gen_str_constant(&v.shown, at, limit),
            Expr::LitHex(n) => self.gen_str_constant(&int_text(*n), at, limit),
            Expr::If(_, _, _) => self.gen_if(expr, at, limit),
            Expr::Field(obj, field) => {
                let on_req = match &obj.value {
                    Expr::Ident(name) => same(name, "req"),
                    _ => false,
                };
                if on_req {
                    self.gen_request_field(field, at, limit)
                } else {
                    self.gen_nothing(at)
                }
            },
            Expr::Ident(name) => {
                if same(name, "req") {
                    self.gen_request_field("body", at, limit)
                } else {
                    self.gen_nothing(at)
                }
            },
            Expr::BinOp(l, op, r) => {
                if *op == BinOp::Add {
                    let ghost n = self@.label;
                    let mid = self.gen_expr(l, at, limit);
                    let end = self.gen_expr(r, mid, limit);
                    assert(self@.steps == old(self)@.steps + expr_steps(*expr, n, at@, limit@).steps);
                    end
                } else {
                    self.gen_nothing(at)
                }
            },
            Expr::Block(stmts) => self.gen_block(stmts, at, limit),
            Expr::ListLit(items) => {
                let text = cat3("[", &join(&lit_list(items), ", "), "]");
                self.gen_str_constant(&text, at, limit)
            },
            Expr::SetLit(items) => {
                let text = cat3("{", &join(&lit_list(items), ", "), "}");
                self.gen_str_constant(&text, at, limit)
            },
            Expr::MapLit(pairs) => {
                let text = cat3("{", &join(&pair_list(pairs), ", "), "}");
                self.gen_str_constant(&text, at, limit)
            },
            Expr::TupleLit(items) => {
                let text = cat3("(", &join(&lit_list(items), ", "), ")");
                self.gen_str_constant(&text, at, limit)
            },
            _ => self.gen_nothing(at),
        }
    }

    fn gen_block(&mut self, stmts: &Vec<StmtNode>, at: Arg, limit: Arg) -> (r: Arg)
        ensures
            final(self)@ == old(self)@.with(block_steps(stmts@, old(self)@.label, at@, limit@)),
            r@ == block_steps(stmts@, old(self)@.label, at@, limit@).end,
        decreases stmts@, 2nat,
    {
        let ghost g = self@;
        let mut i: usize = stmts.len();
        assert(stmts@.take(i as int) == stmts@);
        while i > 0
            invariant
                i <= stmts@.len(),
                self@ == g,
                g == old(self)@,
                block_steps(stmts@, g.label, at@, limit@) == block_steps(
                    stmts@.take(i as int),
                    g.label,
                    at@,
                    limit@,
                ),
            decreases i,
        {
            match &stmts[i - 1].value {
                Stmt::Return(Some(e)) => {
                    return self.gen_expr(e, at, limit);
                },
                Stmt::Return(None) => {
                    return self.gen_nothing(at);
                },
                Stmt::Expr(e) => {
                    return self.gen_expr(e, at, limit);
                },
                _ => {},
            }
            assert(stmts@.take(i as int).drop_last() == stmts@.take(i - 1));
            i -= 1;
        }
        self.gen_nothing(at)
    }

    fn gen_reply(&mut self, ret_expr: &ExprNode)
        requires
            old(self)@ == (HandlerGen { label: 0, steps: seq![] }),
        ensures
            final(self)@.steps == reply_steps(*ret_expr),
    {
        let end = self.gen_expr(ret_expr, Arg::Num(0), Arg::BufLen);
        let ghost e = expr_steps(*ret_expr, 0, Operand::Num(0), Operand::BufLen);
        assert(self@.steps == e.steps);
        self.e(Line::StoreBuffer);
        self.e(Line::LengthPlace);
        self.e(Line::StoreLength { len: end });
        self.e(Line::StatusPlace);
        self.e(Line::StoreStatus);
        self.e(Line::Return);
        assert(self@.steps == reply_steps(*ret_expr));
    }

    fn instructions(&self, prefix: &str) -> (r: String)
        ensures
            r@ == steps_text(self@.steps, prefix@),
    {
        let ghost all = self@.steps;
        let mut r = owned("");
        let mut i: usize = 0;
        while i < self.lines.len()
            invariant
                all == steps_of(self.lines@),
                i <= self.lines@.len(),
                r@ == steps_text(all.take(i as int), prefix@),
            decreases self.lines.len() - i,
        {
            assert(all.take(i + 1).drop_last() == all.take(i as int));
            assert(all[i as int] == self.lines@[i as int]@);
            r.append(&cat3("  ", &line_string(&self.lines[i], prefix), "\n"));
            i += 1;
        }
        assert(all.take(i as int) == all);
        r
    }

    fn constants(&self, prefix: &str) -> (r: String)
        ensures
            r@ == constants_text(self@.steps, prefix@),
    {
        let ghost all = self@.steps;
        let mut r = owned("");
        let mut i: usize = 0;
        while i < self.lines.len()
            invariant
                all == steps_of(self.lines@),
                i <= self.lines@.len(),
                r@ == constants_text(all.take(i as int), prefix@),
            decreases self.lines.len() - i,
        {
            assert(all.take(i + 1).drop_last() == all.take(i as int));
            assert(all[i as int] == self.lines@[i as int]@);
            match &self.lines[i] {
                Line::Constant { index, text, .. } => {
                    r.append(
                        &cat7(
                            &constant_name_string(prefix, *index),
                            " = private unnamed_addr constant [",
                            &array_size_string(text),
                            " x i8] c\"",
                            &handler_string(text),
                            "\\00\"",
                            "\n",
                        ),
                    );
                },
                _ => {},
            }
            i += 1;
        }
        assert(all.take(i as int) == all);
        r
    }

    fn gen_fn(&mut self, handler_name: &str, ret_expr: &ExprNode) -> (r: String)
        requires
            old(self)@ == (HandlerGen { label: 0, steps: seq![] }),
        ensures
            r@ == handler_module(handler_name@, reply_steps(*ret_expr)),
    {
        self.gen_reply(ret_expr);
        let head = cat3(
            "; JIT-compiled FnDef handler for '",
            handler_name,
            "'\ntarget triple = \"x86_64-pc-windows-msvc\"\n\n%YkResponse = type { ptr, i64, i32 }\n\n",
        );
        let head = cat3(&head, COPY_DECLARATION, "\n\n");
        let function = cat5(
            "define void @",
            handler_name,
            "(ptr %resp, ptr %req, ptr %buf, i64 %buf_len) {\nentry:\n",
            &self.instructions(handler_name),
            "}\n",
        );
        cat4(&head, &self.constants(handler_name), "\n", &function)
    }
}

/// The module text of a handler: a head, the declaration of what it copies with, its constants, its
/// function.
pub open spec fn handler_module(name: Text, steps: Seq<Step>) -> Text {
    "; JIT-compiled FnDef handler for '"@ + name
        + "'\ntarget triple = \"x86_64-pc-windows-msvc\"\n\n%YkResponse = type { ptr, i64, i32 }\n\n"@
        + COPY_DECLARATION@ + "\n\n"@ + constants_text(steps, name) + "\n"@ + ("define void @"@ + name
        + "(ptr %resp, ptr %req, ptr %buf, i64 %buf_len) {\nentry:\n"@ + steps_text(steps, name) + "}\n"@)
}

/// The module text of the handler that answers with the value of `expr`.
pub open spec fn expr_handler(name: Text, expr: ExprNode) -> Text {
    handler_module(name, reply_steps(expr))
}

/// The module text of the handler that answers with what a body gives back; none where the body
/// gives nothing back.
pub open spec fn body_handler(name: Text, body: Seq<StmtNode>) -> Option<Text> {
    match return_expr(body) {
        Some(e) => Some(expr_handler(name, e)),
        None => None,
    }
}

pub(crate) fn generate_expr_handler(handler_name: &str, expr: &ExprNode) -> (r: String)
    ensures
        r@ == expr_handler(handler_name@, *expr),
{
    let mut gen = FnIrGen::new();
    gen.gen_fn(handler_name, expr)
}

pub(crate) fn generate_body_handler(handler_name: &str, body: &Vec<StmtNode>) -> (r: Option<String>)
    ensures
        opt_text(r) == body_handler(handler_name@, body@),
{
    match find_return_expr(body) {
        Some(e) => Some(generate_expr_handler(handler_name, e)),
        None => None,
    }
}

/// The text of a handler that computes its answer from the request, for a function that gives
/// something back.
///
/// The handler has the C signature
/// `void handler_name(void* resp, void* req, char* buf, int64_t buf_len)`. It evaluates what the
/// body gives back (literals, fields of the request and concatenations of these) into `buf`, as far as
/// it reaches, and writes the address, the length and the status 200 into `resp`. In `req` lie addresses and
/// lengths: of the method at 0 and 8, of the path at 16 and 24, of the body at 32 and 40.
pub fn generate_fn_handler_ir(handler_name: &str, fndef: &FnDef) -> (r: Option<String>)
    ensures
        opt_text(r) == body_handler(handler_name@, fndef.body@),
{
    generate_body_handler(handler_name, &fndef.body)
}

// ---------------------------------------------------------------------------------------------
// A handler inside another module
// ---------------------------------------------------------------------------------------------
/// A line that only a module of its own may have.
pub open spec fn is_module_line(line: Text) -> bool {
    begins(line, "target triple"@) || begins(line, "; JIT"@) || begins(line, "%YkResponse"@) || begins(
        line,
        "declare "@,
    )
}

/// The lines that may stand in any module.
pub open spec fn handler_lines(lines: Seq<Text>) -> Seq<Text>
    decreases lines.len(),
{
    if lines.len() == 0 {
        seq![]
    } else if is_module_line(lines.last()) {
        handler_lines(lines.drop_last())
    } else {
        handler_lines(lines.drop_last()).push(lines.last())
    }
}

/// A handler without the lines that only a module of its own may have.
pub open spec fn embedded(ir: Text) -> Text {
    joined(handler_lines(lines_of(ir)), "\n"@)
}

pub(crate) fn embed_handler(ir: &str) -> (r: String)
    ensures
        r@ == embedded(ir@),
{
    let all = lines(ir);
    let ghost model = texts(all@);
    let mut kept: Vec<String> = Vec::new();
    let mut i: usize = 0;
    assert(texts(kept@) == handler_lines(model.take(0)));
    while i < all.len()
        invariant
            model == texts(all@),
            i <= all@.len(),
            texts(kept@) == handler_lines(model.take(i as int)),
        decreases all.len() - i,
    {
        let line = &all[i];
        let ghost before = kept@;
        if !(starts_with(line, "target triple") || starts_with(line, "; JIT") || starts_with(
            line,
            "%YkResponse",
        ) || starts_with(line, "declare ")) {
            kept.push(line.clone());
            assert(texts(kept@) == texts(before).push(line@));
        }
        assert(model.take(i + 1).drop_last() == model.take(i as int));
        assert(model.take(i + 1).last() == line@);
        i += 1;
    }
    assert(model.take(i as int) == model);
    join(&kept, "\n")
}

} // verus!
