//! What the C back end keeps: text that is written stays, the depth is restored, and structs stay as
//! they were defined.

use vstd::prelude::*;

use crate::codegen::c::{fresh_c_gen, main_body, CGen, RUNTIME_C};
use crate::scan::{begins, joined, lemma_begins_appended, lemma_begins_longer, lemma_begins_same};
use crate::syntax::ast::{Expr, ExprNode, ItemKind, ItemNode, Module, Param, Stmt, StmtNode, TypeNode};
use crate::table::{distinct, lemma_put};
use crate::text::{repeated, Text};

verus! {

/// `h` carries `g` on: what is written stays.
#[verifier::opaque]
pub open spec fn lengthens(g: CGen, h: CGen) -> bool {
    begins(h.output, g.output)
}

/// `h` carries `g` on at the same depth, and structs stay as they were defined.
pub open spec fn carries(g: CGen, h: CGen) -> bool {
    lengthens(g, h) && h.indent == g.indent && h.struct_defs == g.struct_defs
}

/// What is carried on twice is carried on.
pub broadcast proof fn lemma_lengthens_on(a: CGen, b: CGen, c: CGen)
    requires
        #[trigger] lengthens(a, b),
        #[trigger] lengthens(b, c),
    ensures
        lengthens(a, c),
{
    reveal(lengthens);
    lemma_begins_longer(a.output, b.output, c.output);
}

/// What is left as it is is carried on.
pub broadcast proof fn lemma_lengthens_same(a: CGen, b: CGen)
    requires
        a.output == b.output,
    ensures
        #[trigger] lengthens(a, b),
{
    reveal(lengthens);
    lemma_begins_same(a.output);
}

// ---------------------------------------------------------------------------------------------
// The primitive steps
// ---------------------------------------------------------------------------------------------
broadcast proof fn keeps_emit(g: CGen, s: Text)
    ensures
        carries(g, #[trigger] g.emit(s)),
{
    reveal(lengthens);
    reveal(CGen::emit);
    lemma_begins_appended(g.output, repeated("    "@, g.indent) + s + "\n"@);
}

broadcast proof fn keeps_emit_raw(g: CGen, s: Text)
    ensures
        carries(g, #[trigger] g.emit_raw(s)),
{
    reveal(lengthens);
    reveal(CGen::emit_raw);
    lemma_begins_appended(g.output, s + "\n"@);
}

broadcast proof fn keeps_set_indent(g: CGen, n: nat)
    ensures
        lengthens(g, #[trigger] g.set_indent(n)),
        g.set_indent(n).struct_defs == g.struct_defs,
        g.set_indent(n).indent == n,
{
    reveal(CGen::set_indent);
    lemma_lengthens_same(g, g.set_indent(n));
}

broadcast proof fn keeps_define_struct(g: CGen, name: Text, fields: Seq<(Text, Text)>)
    ensures
        lengthens(g, #[trigger] g.define_struct(name, fields)),
        g.define_struct(name, fields).indent == g.indent,
{
    reveal(CGen::define_struct);
    lemma_lengthens_same(g, g.define_struct(name, fields));
}

broadcast proof fn keeps_set_output(g: CGen, s: Text)
    ensures
        (#[trigger] g.set_output(s)).output == s,
        g.set_output(s).struct_defs == g.struct_defs,
        g.set_output(s).indent == g.indent,
{
    reveal(CGen::set_output);
}

broadcast proof fn keeps_set_var_type(g: CGen, name: Text, ty: Text)
    ensures
        carries(g, #[trigger] g.set_var_type(name, ty)),
{
    reveal(lengthens);
    reveal(CGen::set_var_type);
    lemma_begins_same(g.output);
}

broadcast proof fn keeps_fresh_label(g: CGen)
    ensures
        carries(g, (#[trigger] g.fresh_label()).0),
{
    reveal(lengthens);
    reveal(CGen::fresh_label);
    lemma_begins_same(g.output);
}

broadcast proof fn keeps_tuple_type(g: CGen, types: Seq<Text>)
    ensures
        carries(g, (#[trigger] g.get_or_create_tuple_type(types)).0),
{
    broadcast use {lemma_lengthens_on, lemma_lengthens_same, keeps_emit_raw};

    reveal(CGen::new_tuple);
    lemma_lengthens_same(g, g.new_tuple(joined(types, "_"@)).0);
}

broadcast group group_steps {
    lemma_lengthens_on,
    lemma_lengthens_same,
    keeps_emit,
    keeps_emit_raw,
    keeps_set_indent,
    keeps_define_struct,
    keeps_set_output,
    keeps_set_var_type,
    keeps_fresh_label,
    keeps_tuple_type,
}

// ---------------------------------------------------------------------------------------------
// Expressions and statements
// ---------------------------------------------------------------------------------------------
/// Finding the type of an expression only adds text: the tuple types that are new.
pub proof fn keeps_expr_type(g: CGen, expr: ExprNode)
    ensures
        carries(g, g.expr_type(expr).0),
    decreases expr, 0nat,
{
    broadcast use group_steps;

    match expr.value {
        Expr::TupleLit(items) => keeps_expr_types(g, items@),
        _ => {},
    }
}

proof fn keeps_expr_types(g: CGen, items: Seq<ExprNode>)
    ensures
        carries(g, g.expr_types(items).0),
    decreases items, 1nat,
{
    broadcast use group_steps;

    if items.len() > 0 {
        let g1 = g.expr_types(items.drop_last()).0;
        keeps_expr_types(g, items.drop_last());
        keeps_expr_type(g1, items.last());
    }
}

/// Compiling an expression keeps what is written, the depth and the structs.
#[verifier::rlimit(30)]
pub proof fn keeps_compile_expr(g: CGen, expr: ExprNode)
    ensures
        carries(g, g.compile_expr(expr).0),
    decreases expr, 1nat,
{
    broadcast use group_steps;

    match expr.value {
        Expr::BinOp(l, _, r) => {
            let g1 = g.expr_type(*l).0;
            let g2 = g1.compile_expr(*l).0;
            keeps_expr_type(g, *l);
            keeps_compile_expr(g1, *l);
            keeps_compile_expr(g2, *r);
        },
        Expr::UnOp(_, inner) => keeps_compile_expr(g, *inner),
        Expr::Call(_, _) => keeps_compile_call(g, expr),
        Expr::Field(obj, _) => keeps_compile_expr(g, *obj),
        Expr::Index(obj, index) => {
            keeps_compile_expr(g, *obj);
            keeps_compile_expr(g.compile_expr(*obj).0, *index);
        },
        Expr::Range(_, r) => keeps_compile_expr(g, *r),
        Expr::Block(stmts) => {
            let (g1, lbl) = g.fresh_label();
            let start = "({\nint64_t yk_block_"@ + lbl + "_ret = 0;\n"@;
            keeps_compile_block(g1.set_indent(0), stmts@, lbl, start);
        },
        Expr::AsConst(inner) => keeps_compile_expr(g, *inner),
        Expr::If(_, _, _) => keeps_compile_if_expr(g, expr),
        Expr::ListLit(items) => keeps_compile_exprs(g, items@),
        Expr::StructLit(_, fields) => keeps_compile_fields(g, fields@),
        Expr::TupleLit(items) => {
            let (g1, types) = g.expr_types(items@);
            keeps_expr_types(g, items@);
            keeps_compile_exprs(g1.get_or_create_tuple_type(types).0, items@);
        },
        Expr::MapLit(items) => keeps_compile_pairs(g, items@),
        Expr::SetLit(items) => keeps_compile_exprs(g, items@),
        Expr::FnLit(_, _, inner) => keeps_compile_expr(g, *inner),
        Expr::Await(inner) => keeps_compile_expr(g, *inner),
        Expr::Spawn(inner) => keeps_compile_expr(g, *inner),
        Expr::ResultOk(inner) => keeps_compile_expr(g, *inner),
        Expr::ResultErr(inner) => keeps_compile_expr(g, *inner),
        _ => {},
    }
}

proof fn keeps_compile_if_expr(g: CGen, expr: ExprNode)
    ensures
        carries(g, g.compile_if_expr(expr).0),
    decreases expr, 0nat,
{
    broadcast use group_steps;

    match expr.value {
        Expr::If(cond, then_e, else_e) => {
            let g1 = g.compile_expr(*cond).0;
            let g2 = g1.compile_expr(*then_e).0;
            keeps_compile_expr(g, *cond);
            keeps_compile_expr(g1, *then_e);
            match else_e {
                Some(ex) => keeps_compile_expr(g2, *ex),
                None => {},
            }
        },
        _ => {},
    }
}

proof fn keeps_compile_exprs(g: CGen, items: Seq<ExprNode>)
    ensures
        carries(g, g.compile_exprs(items).0),
    decreases items, 2nat,
{
    broadcast use group_steps;

    if items.len() > 0 {
        keeps_compile_exprs(g, items.drop_last());
        keeps_compile_expr(g.compile_exprs(items.drop_last()).0, items.last());
    }
}

proof fn keeps_compile_pairs(g: CGen, items: Seq<(ExprNode, ExprNode)>)
    ensures
        carries(g, g.compile_pairs(items).0),
    decreases items, 2nat,
{
    broadcast use group_steps;

    if items.len() > 0 {
        let g1 = g.compile_pairs(items.drop_last()).0;
        keeps_compile_pairs(g, items.drop_last());
        keeps_compile_expr(g1, items.last().0);
        keeps_compile_expr(g1.compile_expr(items.last().0).0, items.last().1);
    }
}

proof fn keeps_compile_fields(g: CGen, fields: Seq<(String, ExprNode)>)
    ensures
        carries(g, g.compile_fields(fields).0),
    decreases fields, 2nat,
{
    broadcast use group_steps;

    if fields.len() > 0 {
        keeps_compile_fields(g, fields.drop_last());
        keeps_compile_expr(g.compile_fields(fields.drop_last()).0, fields.last().1);
    }
}

proof fn keeps_compile_block(g: CGen, stmts: Seq<StmtNode>, lbl: Text, start: Text)
    ensures
        carries(g, g.compile_block(stmts, lbl, start).0),
    decreases stmts, 2nat,
{
    broadcast use group_steps;

    if stmts.len() > 0 {
        let g1 = g.compile_block(stmts.drop_last(), lbl, start).0;
        keeps_compile_block(g, stmts.drop_last(), lbl, start);
        match stmts.last().value {
            Stmt::Return(Some(ex)) => keeps_compile_expr(g1, ex),
            Stmt::Return(None) => {},
            _ => {
                let g2 = g1.set_output(""@).compile_stmt(stmts.last());
                keeps_compile_stmt(g1.set_output(""@), stmts.last());
                lemma_lengthens_same(g1, g2.set_output(g1.output));
            },
        }
    }
}

proof fn keeps_compile_call(g: CGen, expr: ExprNode)
    ensures
        carries(g, g.compile_call(expr).0),
    decreases expr, 0nat,
{
    broadcast use group_steps;

    match expr.value {
        Expr::Call(callee, args) => {
            let g1 = g.compile_exprs(args@).0;
            keeps_compile_exprs(g, args@);
            match callee.value {
                Expr::Ident(_) => if args@.len() > 0 {
                    keeps_expr_type(g1, args@[0]);
                },
                Expr::Field(obj, _) => keeps_compile_expr(g1, *obj),
                _ => {},
            }
        },
        _ => {},
    }
}

proof fn keeps_compile_bounds(g: CGen, iter: ExprNode)
    ensures
        carries(g, g.compile_bounds(iter).0),
    decreases iter, 2nat,
{
    broadcast use group_steps;

    match iter.value {
        Expr::Range(l, r) => {
            keeps_compile_expr(g, *l);
            keeps_compile_expr(g.compile_expr(*l).0, *r);
        },
        _ => keeps_compile_expr(g, iter),
    }
}

/// Compiling statements keeps what is written, the depth and the structs.
pub proof fn keeps_compile_stmts(g: CGen, stmts: Seq<StmtNode>)
    ensures
        carries(g, g.compile_stmts(stmts)),
    decreases stmts, 2nat,
{
    broadcast use group_steps;

    if stmts.len() > 0 {
        keeps_compile_stmts(g, stmts.drop_last());
        keeps_compile_stmt(g.compile_stmts(stmts.drop_last()), stmts.last());
    }
}

/// Compiling a statement keeps what is written, the depth and the structs.
pub proof fn keeps_compile_stmt(g: CGen, stmt: StmtNode)
    ensures
        carries(g, g.compile_stmt(stmt)),
    decreases stmt, 1nat,
{
    broadcast use group_steps;

    match stmt.value {
        Stmt::Decl { name, type_expr, value, .. } => {
            let (g1, ty) = match type_expr {
                Some(te) => (g, g.type_to_c(te.value)),
                None => g.expr_type(value),
            };
            keeps_expr_type(g, value);
            keeps_compile_expr(g1.set_var_type(name@, ty), value);
        },
        Stmt::Assign(_, expr) => keeps_compile_expr(g, expr),
        Stmt::Expr(e) => keeps_compile_expr(g, e),
        Stmt::Return(Some(ex)) => keeps_compile_expr(g, ex),
        Stmt::Return(None) => {},
        Stmt::If(cond, then_body, else_body) => {
            let (g1, c) = g.compile_expr(cond);
            let g2 = g1.emit("if ("@ + c + ") {"@);
            let depth = g2.indent;
            let g3 = g2.set_indent(g2.deeper()).compile_stmts(then_body@);
            keeps_compile_expr(g, cond);
            keeps_compile_stmts(g2.set_indent(g2.deeper()), then_body@);
            match else_body {
                Some(eb) => {
                    let g4 = g3.set_indent(depth).emit("} else {"@);
                    keeps_compile_stmts(g4.set_indent(g4.deeper()), eb@);
                },
                None => {},
            }
        },
        Stmt::While(cond, body) => {
            let (g1, c) = g.compile_expr(cond);
            let g2 = g1.emit("while ("@ + c + ") {"@);
            keeps_compile_expr(g, cond);
            keeps_compile_stmts(g2.set_indent(g2.deeper()), body@);
        },
        Stmt::For(var, iter, body, _) => {
            let (g1, lbl) = g.fresh_label();
            let g2 = g1.set_var_type(var@, "int64_t"@);
            let (g3, (from, to)) = g2.compile_bounds(iter);
            let g4 = g3.emit("{"@);
            let g5 = g4.set_indent(g4.deeper());
            let g6 = g5.emit("int64_t yk_start_"@ + lbl + " = "@ + from + ";"@);
            let g7 = g6.emit("int64_t yk_end_"@ + lbl + " = "@ + to + ";"@);
            let g8 = g7.emit(
                "for (int64_t "@ + var@ + " = yk_start_"@ + lbl + "; "@ + var@ + " < yk_end_"@ + lbl
                    + "; "@ + var@ + "++) {"@,
            );
            keeps_compile_bounds(g2, iter);
            keeps_compile_stmts(g8.set_indent(g8.deeper()), body@);
        },
        Stmt::Loop(body) => {
            let g1 = g.emit("for (;;) {"@);
            keeps_compile_stmts(g1.set_indent(g1.deeper()), body@);
        },
        Stmt::Destruct(_, expr) => keeps_compile_expr(g, expr),
    }
}

// ---------------------------------------------------------------------------------------------
// Programs
// ---------------------------------------------------------------------------------------------
proof fn keeps_bind_params(g: CGen, params: Seq<Param>)
    ensures
        carries(g, g.bind_params(params)),
    decreases params.len(),
{
    broadcast use group_steps;

    if params.len() > 0 {
        keeps_bind_params(g, params.drop_last());
    }
}

/// Compiling a function keeps what is written, the depth and the structs.
pub proof fn keeps_compile_fn(
    g: CGen,
    name: Text,
    params: Seq<Param>,
    ret_type: Option<TypeNode>,
    body: Seq<StmtNode>,
)
    ensures
        carries(g, g.compile_fn(name, params, ret_type, body)),
{
    broadcast use group_steps;

    let ret = match ret_type {
        Some(t) => g.type_to_c(t.value),
        None => "void"@,
    };
    let g1 = g.emit_raw(
        ret + " "@ + name + "("@ + joined(g.param_decls(params), ", "@) + ") {"@,
    );
    let g2 = g1.set_indent(g1.deeper());
    keeps_bind_params(g2, params);
    keeps_compile_stmts(g2.bind_params(params), body);
}

proof fn keeps_compile_item(g: CGen, item: ItemNode)
    ensures
        lengthens(g, g.compile_item(item)),
        g.compile_item(item).indent == g.indent,
{
    broadcast use group_steps;

    match item.value {
        ItemKind::Fn { name, params, ret_type, body, .. } => {
            keeps_compile_fn(g, name@, params@, ret_type, body@);
        },
        _ => {},
    }
}

/// Compiling items keeps what is written and the depth.
pub proof fn keeps_compile_items(g: CGen, items: Seq<ItemNode>)
    ensures
        lengthens(g, g.compile_items(items)),
        g.compile_items(items).indent == g.indent,
    decreases items.len(),
{
    broadcast use group_steps;

    if items.len() > 0 {
        keeps_compile_items(g, items.drop_last());
        keeps_compile_item(g.compile_items(items.drop_last()), items.last());
    }
}

/// The text of every module begins with the runtime.
pub proof fn lemma_program_begins_with_the_runtime(module: Module)
    ensures
        begins(fresh_c_gen().compile_module(module).1, RUNTIME_C@),
{
    broadcast use group_steps;

    let g0 = fresh_c_gen();
    let g1 = g0.emit_raw(RUNTIME_C@);
    let g2 = g1.emit_raw(""@);
    let g3 = g2.compile_items(module.items@);
    keeps_compile_items(g2, module.items@);
    let g4 = match main_body(module.items@) {
        Some(body) => {
            let h = g3.emit_raw("int main(int argc, char** argv) {"@);
            let h1 = h.set_indent(h.deeper()).emit("(void)argc; (void)argv;"@);
            keeps_compile_stmts(h1, body);
            g3.compile_main(body)
        },
        None => g3,
    };
    assert(lengthens(g1, g4));
    assert(begins(g4.output, RUNTIME_C@)) by {
        reveal(lengthens);
        reveal(CGen::emit_raw);
        reveal_strlit("");
        assert(g1.output == RUNTIME_C@ + "\n"@);
        lemma_begins_appended(RUNTIME_C@, "\n"@);
        lemma_begins_longer(RUNTIME_C@, g1.output, g4.output);
    }
}

/// A tuple type is defined once: asking for it again gives the same name and changes nothing.
pub proof fn lemma_tuple_type_is_defined_once(g: CGen, types: Seq<Text>)
    requires
        distinct(g.tuple_type_names),
    ensures
        ({
            let (h, name) = g.get_or_create_tuple_type(types);
            h.get_or_create_tuple_type(types) == (h, name)
        }),
{
    reveal(CGen::new_tuple);
    reveal(CGen::emit_raw);
    let sig = joined(types, "_"@);
    lemma_put(g.tuple_type_names, sig, g.new_tuple(sig).1);
}

} // verus!
