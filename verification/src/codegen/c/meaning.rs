//! What C means, as far as the compiler writes it, and what the compiled program computes: what the source says.

use vstd::prelude::*;

use crate::codegen::c::{c_operator, c_string, CGen};
use crate::codegen::llvm::meaning::{fits, quotient, truth};
use crate::codegen::llvm::operators::int_result;
use crate::scan::joined;
use crate::syntax::ast::{BinOp, Expr, ExprNode, UnOp};
use crate::table::lookup_or;
use crate::text::{int_dec, Text};

verus! {

// ---------------------------------------------------------------------------------------------
// Expressions of C
// ---------------------------------------------------------------------------------------------
/// The operators of C.
pub enum COp {
    Plus,
    Minus,
    Times,
    Over,
    Equal,
    Unequal,
    Below,
    Above,
    AtMost,
    AtLeast,
    Both,
    Either,
}

/// How an operator is written.
pub open spec fn op_text(op: COp) -> Text {
    match op {
        COp::Plus => "+"@,
        COp::Minus => "-"@,
        COp::Times => "*"@,
        COp::Over => "/"@,
        COp::Equal => "=="@,
        COp::Unequal => "!="@,
        COp::Below => "<"@,
        COp::Above => ">"@,
        COp::AtMost => "<="@,
        COp::AtLeast => ">="@,
        COp::Both => "&&"@,
        COp::Either => "||"@,
    }
}

/// What an operator gives on integers of 64 bits; none where C does not say.
pub open spec fn op_value(op: COp, a: int, b: int) -> Option<int> {
    match op {
        COp::Plus => if fits(64, a + b) {
            Some(a + b)
        } else {
            None
        },
        COp::Minus => if fits(64, a - b) {
            Some(a - b)
        } else {
            None
        },
        COp::Times => if fits(64, a * b) {
            Some(a * b)
        } else {
            None
        },
        COp::Over => if b != 0 && fits(64, quotient(a, b)) {
            Some(quotient(a, b))
        } else {
            None
        },
        COp::Equal => Some(truth(a == b)),
        COp::Unequal => Some(truth(a != b)),
        COp::Below => Some(truth(a < b)),
        COp::Above => Some(truth(a > b)),
        COp::AtMost => Some(truth(a <= b)),
        COp::AtLeast => Some(truth(a >= b)),
        COp::Both => Some(truth(a != 0 && b != 0)),
        COp::Either => Some(truth(a != 0 || b != 0)),
    }
}

/// An expression of C.
pub enum CExpr {
    Num(int),
    Char(int),
    Truth(bool),
    Var(Text),
    Bin(COp, Box<CExpr>, Box<CExpr>),
    Neg(Box<CExpr>),
    Not(Box<CExpr>),
    Choice(Box<CExpr>, Box<CExpr>, Box<CExpr>),
    Call(Text, Seq<CExpr>),
}

/// How an expression is written.
pub open spec fn c_text(e: CExpr) -> Text
    decreases e, 0nat,
{
    match e {
        CExpr::Num(n) => int_dec(n),
        CExpr::Char(n) => "(int64_t)"@ + int_dec(n),
        CExpr::Truth(b) => if b {
            "true"@
        } else {
            "false"@
        },
        CExpr::Var(x) => x,
        CExpr::Bin(op, a, b) => "("@ + c_text(*a) + " "@ + op_text(op) + " "@ + c_text(*b) + ")"@,
        CExpr::Neg(a) => "(-"@ + c_text(*a) + ")"@,
        CExpr::Not(a) => "(!"@ + c_text(*a) + ")"@,
        CExpr::Choice(c, a, b) => "("@ + c_text(*c) + " ? "@ + c_text(*a) + " : "@ + c_text(*b) + ")"@,
        CExpr::Call(f, args) => f + "("@ + joined(c_texts(args), ", "@) + ")"@,
    }
}

/// How expressions are written.
pub open spec fn c_texts(list: Seq<CExpr>) -> Seq<Text>
    decreases list, 1nat,
{
    if list.len() == 0 {
        seq![]
    } else {
        c_texts(list.drop_last()).push(c_text(list.last()))
    }
}

/// What an expression gives, the variables having the values `vars` and the functions those of `fns`; none where C
/// does not say.
pub open spec fn c_value(e: CExpr, vars: Map<Text, int>, fns: spec_fn(Text, Seq<int>) -> int) -> Option<int>
    decreases e, 0nat,
{
    match e {
        CExpr::Num(n) => Some(n),
        CExpr::Char(n) => Some(n),
        CExpr::Truth(b) => Some(truth(b)),
        CExpr::Var(x) => if vars.dom().contains(x) {
            Some(vars[x])
        } else {
            None
        },
        CExpr::Bin(op, a, b) => match (c_value(*a, vars, fns), c_value(*b, vars, fns)) {
            (Some(x), Some(y)) => op_value(op, x, y),
            _ => None,
        },
        CExpr::Neg(a) => match c_value(*a, vars, fns) {
            Some(x) => if fits(64, -x) {
                Some(-x)
            } else {
                None
            },
            None => None,
        },
        CExpr::Not(a) => match c_value(*a, vars, fns) {
            Some(x) => Some(truth(x == 0)),
            None => None,
        },
        CExpr::Choice(c, a, b) => match c_value(*c, vars, fns) {
            Some(x) => if x != 0 {
                c_value(*a, vars, fns)
            } else {
                c_value(*b, vars, fns)
            },
            None => None,
        },
        CExpr::Call(f, args) => match c_values(args, vars, fns) {
            Some(list) => Some(fns(f, list)),
            None => None,
        },
    }
}

/// What expressions give, in their order.
pub open spec fn c_values(list: Seq<CExpr>, vars: Map<Text, int>, fns: spec_fn(Text, Seq<int>) -> int) -> Option<
    Seq<int>,
>
    decreases list, 1nat,
{
    if list.len() == 0 {
        Some(Seq::empty())
    } else {
        match (c_values(list.drop_last(), vars, fns), c_value(list.last(), vars, fns)) {
            (Some(l), Some(x)) => Some(l.push(x)),
            _ => None,
        }
    }
}

// ---------------------------------------------------------------------------------------------
// Expressions of the source
// ---------------------------------------------------------------------------------------------
/// A name that the compiler does not take for something of its own.
pub open spec fn plain_function(name: Text) -> bool {
    name != "print"@ && name != "println"@ && name != "len"@
}

/// An expression of integers and truth values: literals, variables, operators, choices and calls.
pub open spec fn whole(e: ExprNode) -> bool
    decreases e, 0nat,
{
    match e.value {
        Expr::LitInt(n) => n >= 0,
        Expr::LitChar(_) => true,
        Expr::LitBool(_) => true,
        Expr::Ident(_) => true,
        Expr::BinOp(l, op, r) => whole(*l) && whole(*r) && c_operator(op) is Some && !(op is Assign),
        Expr::UnOp(op, a) => whole(*a) && !(op is BitNot),
        Expr::If(c, a, Some(b)) => whole(*c) && whole(*a) && whole(*b),
        Expr::AsConst(a) => whole(*a),
        Expr::Call(f, args) => match f.value {
            Expr::Ident(name) => plain_function(name@) && all_whole(args@),
            _ => false,
        },
        _ => false,
    }
}

/// Expressions of integers and truth values.
pub open spec fn all_whole(list: Seq<ExprNode>) -> bool
    decreases list, 1nat,
{
    list.len() == 0 || (all_whole(list.drop_last()) && whole(list.last()))
}

/// The value of an expression of the source; none where an operator has none.
pub open spec fn source_value(e: ExprNode, vars: Map<Text, int>, fns: spec_fn(Text, Seq<int>) -> int) -> Option<int>
    decreases e, 0nat,
{
    match e.value {
        Expr::LitInt(n) => Some(n as int),
        Expr::LitChar(c) => Some(c as int),
        Expr::LitBool(b) => Some(truth(b)),
        Expr::Ident(name) => if vars.dom().contains(name@) {
            Some(vars[name@])
        } else {
            None
        },
        Expr::BinOp(l, op, r) => match (source_value(*l, vars, fns), source_value(*r, vars, fns)) {
            (Some(a), Some(b)) => int_result(64, op, a, b),
            _ => None,
        },
        Expr::UnOp(op, a) => match source_value(*a, vars, fns) {
            Some(x) => unary_result(op, x),
            None => None,
        },
        Expr::If(c, a, Some(b)) => match source_value(*c, vars, fns) {
            Some(x) => if x != 0 {
                source_value(*a, vars, fns)
            } else {
                source_value(*b, vars, fns)
            },
            None => None,
        },
        Expr::AsConst(a) => source_value(*a, vars, fns),
        Expr::Call(f, args) => match (f.value, source_values(args@, vars, fns)) {
            (Expr::Ident(name), Some(list)) => Some(fns(name@, list)),
            _ => None,
        },
        _ => None,
    }
}

/// The values of expressions of the source, in their order.
pub open spec fn source_values(
    list: Seq<ExprNode>,
    vars: Map<Text, int>,
    fns: spec_fn(Text, Seq<int>) -> int,
) -> Option<Seq<int>>
    decreases list, 1nat,
{
    if list.len() == 0 {
        Some(Seq::empty())
    } else {
        match (source_values(list.drop_last(), vars, fns), source_value(list.last(), vars, fns)) {
            (Some(l), Some(x)) => Some(l.push(x)),
            _ => None,
        }
    }
}

/// The value of a unary operator on an integer of 64 bits.
pub open spec fn unary_result(op: UnOp, x: int) -> Option<int> {
    match op {
        UnOp::Neg => if fits(64, -x) {
            Some(-x)
        } else {
            None
        },
        UnOp::Not => Some(truth(x == 0)),
        UnOp::BitNot => Some(-x - 1),
    }
}

// ---------------------------------------------------------------------------------------------
// What is compiled
// ---------------------------------------------------------------------------------------------
/// `c` is written as `text`, and gives what the expression of the source gives, wherever that has a value.
pub open spec fn stands_for(c: CExpr, text: Text, e: ExprNode) -> bool {
    &&& text == c_text(c)
    &&& forall|vars: Map<Text, int>, fns: spec_fn(Text, Seq<int>) -> int|
        source_value(e, vars, fns) is Some ==> #[trigger] c_value(c, vars, fns) == source_value(e, vars, fns)
}

/// The same of expressions in a list.
pub open spec fn all_stand_for(cs: Seq<CExpr>, texts: Seq<Text>, list: Seq<ExprNode>) -> bool {
    &&& texts == c_texts(cs)
    &&& forall|vars: Map<Text, int>, fns: spec_fn(Text, Seq<int>) -> int|
        source_values(list, vars, fns) is Some ==> #[trigger] c_values(cs, vars, fns) == source_values(list, vars, fns)
}

spec fn c_op(op: BinOp) -> COp {
    match op {
        BinOp::Add => COp::Plus,
        BinOp::Sub => COp::Minus,
        BinOp::Mul => COp::Times,
        BinOp::Div => COp::Over,
        BinOp::Eq => COp::Equal,
        BinOp::Ne => COp::Unequal,
        BinOp::Lt => COp::Below,
        BinOp::Gt => COp::Above,
        BinOp::Le => COp::AtMost,
        BinOp::Ge => COp::AtLeast,
        BinOp::And => COp::Both,
        _ => COp::Either,
    }
}

proof fn lemma_operator(op: BinOp)
    requires
        c_operator(op) is Some,
        !(op is Assign),
    ensures
        c_operator(op) == Some(op_text(c_op(op))),
        forall|a: int, b: int| #[trigger] op_value(c_op(op), a, b) == int_result(64, op, a, b),
{
}

/// No variable is a string.
pub open spec fn no_strings(g: CGen) -> bool {
    forall|x: Text| lookup_or(g.var_types, x, "int64_t"@) != "yk_string"@
}

/// The C expression that is written for an expression of integers gives the value of the expression: each operator
/// of C is that of the source, on the values of the operands in their order; a choice gives the value of the right
/// branch, a call hands over the arguments in their order.
pub proof fn lemma_c_expression(g: CGen, e: ExprNode)
    requires
        whole(e),
        no_strings(g),
    ensures
        g.compile_expr(e).0 == g,
        exists|c: CExpr| #[trigger] stands_for(c, g.compile_expr(e).1, e),
    decreases e, 0nat,
{
    match e.value {
        Expr::LitInt(n) => {
            assert(stands_for(CExpr::Num(n as int), g.compile_expr(e).1, e));
        },
        Expr::LitChar(n) => {
            assert(stands_for(CExpr::Char(n as int), g.compile_expr(e).1, e));
        },
        Expr::LitBool(b) => {
            assert(stands_for(CExpr::Truth(b), g.compile_expr(e).1, e));
        },
        Expr::Ident(name) => {
            assert(stands_for(CExpr::Var(name@), g.compile_expr(e).1, e));
        },
        Expr::BinOp(l, op, r) => {
            lemma_c_expression(g, *l);
            lemma_c_expression(g, *r);
            lemma_no_string(g, *l);
            lemma_operator(op);
            let a = choose|c: CExpr| #[trigger] stands_for(c, g.compile_expr(*l).1, *l);
            let b = choose|c: CExpr| #[trigger] stands_for(c, g.compile_expr(*r).1, *r);
            let c = CExpr::Bin(c_op(op), Box::new(a), Box::new(b));
            assert(g.compile_expr(e).1 == c_text(c));
            assert forall|vars: Map<Text, int>, fns: spec_fn(Text, Seq<int>) -> int| source_value(
                e,
                vars,
                fns,
            ) is Some implies #[trigger] c_value(c, vars, fns) == source_value(e, vars, fns) by {
                assert(c_value(a, vars, fns) == source_value(*l, vars, fns));
                assert(c_value(b, vars, fns) == source_value(*r, vars, fns));
            }
            assert(stands_for(c, g.compile_expr(e).1, e));
        },
        Expr::UnOp(op, inner) => {
            lemma_c_expression(g, *inner);
            let a = choose|c: CExpr| #[trigger] stands_for(c, g.compile_expr(*inner).1, *inner);
            let c = if op is Neg {
                CExpr::Neg(Box::new(a))
            } else {
                CExpr::Not(Box::new(a))
            };
            assert(g.compile_expr(e).1 == c_text(c));
            assert forall|vars: Map<Text, int>, fns: spec_fn(Text, Seq<int>) -> int| source_value(
                e,
                vars,
                fns,
            ) is Some implies #[trigger] c_value(c, vars, fns) == source_value(e, vars, fns) by {
                assert(c_value(a, vars, fns) == source_value(*inner, vars, fns));
            }
            assert(stands_for(c, g.compile_expr(e).1, e));
        },
        Expr::If(cond, yes, Some(no)) => {
            assert(g.compile_expr(e) == g.compile_if_expr(e));
            reveal_with_fuel(CGen::compile_if_expr, 2);
            lemma_c_expression(g, *cond);
            lemma_c_expression(g, *yes);
            lemma_c_expression(g, *no);
            let x = choose|c: CExpr| #[trigger] stands_for(c, g.compile_expr(*cond).1, *cond);
            let a = choose|c: CExpr| #[trigger] stands_for(c, g.compile_expr(*yes).1, *yes);
            let b = choose|c: CExpr| #[trigger] stands_for(c, g.compile_expr(*no).1, *no);
            let c = CExpr::Choice(Box::new(x), Box::new(a), Box::new(b));
            assert(g.compile_expr(e).1 == c_text(c));
            assert forall|vars: Map<Text, int>, fns: spec_fn(Text, Seq<int>) -> int| source_value(
                e,
                vars,
                fns,
            ) is Some implies #[trigger] c_value(c, vars, fns) == source_value(e, vars, fns) by {
                assert(c_value(x, vars, fns) == source_value(*cond, vars, fns));
                if source_value(*cond, vars, fns)->0 != 0 {
                    assert(c_value(a, vars, fns) == source_value(*yes, vars, fns));
                } else {
                    assert(c_value(b, vars, fns) == source_value(*no, vars, fns));
                }
            }
            assert(stands_for(c, g.compile_expr(e).1, e));
        },
        Expr::AsConst(inner) => {
            lemma_c_expression(g, *inner);
            let a = choose|c: CExpr| #[trigger] stands_for(c, g.compile_expr(*inner).1, *inner);
            assert forall|vars: Map<Text, int>, fns: spec_fn(Text, Seq<int>) -> int| source_value(
                e,
                vars,
                fns,
            ) is Some implies #[trigger] c_value(a, vars, fns) == source_value(e, vars, fns) by {
                assert(c_value(a, vars, fns) == source_value(*inner, vars, fns));
            }
            assert(stands_for(a, g.compile_expr(e).1, e));
        },
        Expr::Call(f, args) => {
            assert(g.compile_expr(e) == g.compile_call(e));
            reveal_with_fuel(CGen::compile_call, 2);
            lemma_c_expressions(g, args@);
            let cs = choose|cs: Seq<CExpr>| #[trigger] all_stand_for(cs, g.compile_exprs(args@).1, args@);
            match f.value {
                Expr::Ident(name) => {
                    let c = CExpr::Call(name@, cs);
                    assert(g.compile_expr(e).1 == c_text(c));
                    assert forall|vars: Map<Text, int>, fns: spec_fn(Text, Seq<int>) -> int| source_value(
                        e,
                        vars,
                        fns,
                    ) is Some implies #[trigger] c_value(c, vars, fns) == source_value(e, vars, fns) by {
                        assert(c_values(cs, vars, fns) == source_values(args@, vars, fns));
                    }
                    assert(stands_for(c, g.compile_expr(e).1, e));
                },
                _ => {},
            }
        },
        _ => {},
    }
}

proof fn lemma_c_expressions(g: CGen, list: Seq<ExprNode>)
    requires
        all_whole(list),
        no_strings(g),
    ensures
        g.compile_exprs(list).0 == g,
        exists|cs: Seq<CExpr>| #[trigger] all_stand_for(cs, g.compile_exprs(list).1, list),
    decreases list, 1nat,
{
    if list.len() == 0 {
        let cs = Seq::<CExpr>::empty();
        assert(all_stand_for(cs, g.compile_exprs(list).1, list));
    } else {
        lemma_c_expressions(g, list.drop_last());
        lemma_c_expression(g, list.last());
        let before = choose|cs: Seq<CExpr>| #[trigger]
            all_stand_for(cs, g.compile_exprs(list.drop_last()).1, list.drop_last());
        let last = choose|c: CExpr| #[trigger] stands_for(c, g.compile_expr(list.last()).1, list.last());
        let cs = before.push(last);
        assert(cs.drop_last() == before);
        assert forall|vars: Map<Text, int>, fns: spec_fn(Text, Seq<int>) -> int| source_values(
            list,
            vars,
            fns,
        ) is Some implies #[trigger] c_values(cs, vars, fns) == source_values(list, vars, fns) by {
            assert(c_values(before, vars, fns) == source_values(list.drop_last(), vars, fns));
            assert(c_value(last, vars, fns) == source_value(list.last(), vars, fns));
        }
        assert(all_stand_for(cs, g.compile_exprs(list).1, list));
    }
}

/// An expression of integers is no string.
pub proof fn lemma_no_string(g: CGen, e: ExprNode)
    requires
        whole(e),
        no_strings(g),
    ensures
        g.expr_type(e).0 == g,
        g.expr_type(e).1 != "yk_string"@,
{
    reveal_strlit("int64_t");
    reveal_strlit("yk_string");
    reveal_strlit("bool");
    assert("int64_t"@[0] == 'i');
    assert("yk_string"@[0] == 'y');
    assert("bool"@[0] == 'b');
}

// ---------------------------------------------------------------------------------------------
// Strings
// ---------------------------------------------------------------------------------------------
/// An expression of C for a string.
pub enum CString {
    Lit(Text),
    Var(Text),
    Join(Box<CString>, Box<CString>),
}

/// How an expression for a string is written.
pub open spec fn string_text(e: CString) -> Text
    decreases e,
{
    match e {
        CString::Lit(s) => "yk_string_make(\""@ + c_string(s) + "\")"@,
        CString::Var(x) => x,
        CString::Join(a, b) => "yk_string_concat("@ + string_text(*a) + ", "@ + string_text(*b) + ")"@,
    }
}

/// The string that an expression of C gives.
pub open spec fn string_value(e: CString, vars: Map<Text, Text>) -> Option<Text>
    decreases e,
{
    match e {
        CString::Lit(s) => Some(s),
        CString::Var(x) => if vars.dom().contains(x) {
            Some(vars[x])
        } else {
            None
        },
        CString::Join(a, b) => match (string_value(*a, vars), string_value(*b, vars)) {
            (Some(x), Some(y)) => Some(x + y),
            _ => None,
        },
    }
}

/// An expression of the source for a string: literals, variables, and sums that begin with one of these.
pub open spec fn is_string(g: CGen, e: ExprNode) -> bool
    decreases e,
{
    match e.value {
        Expr::LitStr(_) => true,
        Expr::Ident(name) => lookup_or(g.var_types, name@, "int64_t"@) == "yk_string"@,
        Expr::BinOp(l, op, r) => op is Add && !(l.value is BinOp) && is_string(g, *l) && is_string(g, *r),
        _ => false,
    }
}

/// The string that an expression of the source gives: a sum is the left string with the right one behind it.
pub open spec fn source_string(e: ExprNode, vars: Map<Text, Text>) -> Option<Text>
    decreases e,
{
    match e.value {
        Expr::LitStr(s) => Some(s@),
        Expr::Ident(name) => if vars.dom().contains(name@) {
            Some(vars[name@])
        } else {
            None
        },
        Expr::BinOp(l, _, r) => match (source_string(*l, vars), source_string(*r, vars)) {
            (Some(a), Some(b)) => Some(a + b),
            _ => None,
        },
        _ => None,
    }
}

/// `c` is written as `text`, and gives the string of the source.
pub open spec fn same_string(c: CString, text: Text, e: ExprNode) -> bool {
    &&& text == string_text(c)
    &&& forall|vars: Map<Text, Text>| #[trigger] string_value(c, vars) == source_string(e, vars)
}

/// The C expression that is written for strings gives the string of the source: the sum of two strings is the left one
/// with the right one behind it.
pub proof fn lemma_c_string(g: CGen, e: ExprNode)
    requires
        is_string(g, e),
    ensures
        g.compile_expr(e).0 == g,
        exists|c: CString| #[trigger] same_string(c, g.compile_expr(e).1, e),
    decreases e,
{
    match e.value {
        Expr::LitStr(s) => {
            assert(same_string(CString::Lit(s@), g.compile_expr(e).1, e));
        },
        Expr::Ident(name) => {
            assert(same_string(CString::Var(name@), g.compile_expr(e).1, e));
        },
        Expr::BinOp(l, op, r) => {
            lemma_c_string(g, *l);
            lemma_c_string(g, *r);
            let a = choose|c: CString| #[trigger] same_string(c, g.compile_expr(*l).1, *l);
            let b = choose|c: CString| #[trigger] same_string(c, g.compile_expr(*r).1, *r);
            let c = CString::Join(Box::new(a), Box::new(b));
            reveal_with_fuel(is_string, 2);
            assert(l.value is LitStr || l.value is Ident);
            assert(g.expr_type(*l) == (g, "yk_string"@));
            assert(g.compile_expr(e).1 == string_text(c));
            assert forall|vars: Map<Text, Text>| #[trigger] string_value(c, vars) == source_string(e, vars) by {
                assert(string_value(a, vars) == source_string(*l, vars));
                assert(string_value(b, vars) == source_string(*r, vars));
            }
            assert(same_string(c, g.compile_expr(e).1, e));
        },
        _ => {},
    }
}

} // verus!
