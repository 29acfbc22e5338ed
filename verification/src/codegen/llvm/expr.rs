//! Expressions.

use vstd::prelude::*;

use crate::codegen::llvm::builtins::{is_runtime_module, runtime_module};
use crate::codegen::llvm::handler::{bool_string, bool_text};
use crate::codegen::llvm::methods::{http_has, is_http_method, is_server_method, server_has};
use crate::codegen::llvm::names::{copies, copies_text, dec_next_text};
use crate::codegen::llvm::state::{Gen, LlvmCodegen};
use crate::scan::{contains_char, texts};
use crate::syntax::ast::{BinOp, Expr, ExprNode, MatchArm, Stmt, StmtNode, UnOp};
use crate::table::{Pairs, pairs};
use crate::text::{cat2, cat3, cat5, dec, dec_text, int_dec, int_text, owned, same, Text};

verus! {

/// A real number as LLVM reads it: it has a point or an exponent.
pub open spec fn real_text(shown: Text) -> Text {
    if shown.contains('.') || shown.contains('e') || shown.contains('E') {
        shown
    } else {
        shown + ".0"@
    }
}

pub(crate) fn real_string(shown: &str) -> (r: String)
    ensures
        r@ == real_text(shown@),
{
    if contains_char(shown, '.') || contains_char(shown, 'e') || contains_char(shown, 'E') {
        owned(shown)
    } else {
        cat2(shown, ".0")
    }
}

/// Whether an expression is the literal of nothing.
pub open spec fn is_null_literal(expr: ExprNode) -> bool {
    expr.value is LitNull || expr.value is LitNone
}

pub(crate) fn null_literal(expr: &ExprNode) -> (r: bool)
    ensures
        r == is_null_literal(*expr),
{
    match &expr.value {
        Expr::LitNull => true,
        Expr::LitNone => true,
        _ => false,
    }
}

/// Whether a callee is a method of a variable that could be a server.
pub open spec fn is_server_call(callee: ExprNode) -> bool {
    match callee.value {
        Expr::Field(obj, field) => obj.value is Ident && server_has(field@),
        _ => false,
    }
}

fn server_call(callee: &ExprNode) -> (r: bool)
    ensures
        r == is_server_call(*callee),
{
    match &callee.value {
        Expr::Field(obj, field) => match &obj.value {
            Expr::Ident(_) => is_server_method(field),
            _ => false,
        },
        _ => false,
    }
}

/// Whether an expression is an anonymous function.
pub open spec fn is_function(expr: ExprNode) -> bool {
    expr.value is FnLit || expr.value is Closure
}

fn function_literal(expr: &ExprNode) -> (r: bool)
    ensures
        r == is_function(*expr),
{
    match &expr.value {
        Expr::FnLit(_, _, _) => true,
        Expr::Closure(_, _) => true,
        _ => false,
    }
}

/// The first position of a field in a struct literal, or -1.
pub open spec fn literal_place(fields: Seq<(String, ExprNode)>, name: Text) -> int
    decreases fields.len(),
{
    if fields.len() == 0 {
        -1
    } else if literal_place(fields.drop_last(), name) >= 0 {
        literal_place(fields.drop_last(), name)
    } else if fields.last().0@ == name {
        fields.len() - 1
    } else {
        -1
    }
}

fn find_literal(fields: &Vec<(String, ExprNode)>, name: &str) -> (r: Option<usize>)
    ensures
        match r {
            Some(i) => literal_place(fields@, name@) == i && i < fields@.len(),
            None => literal_place(fields@, name@) == -1,
        },
{
    let mut found: Option<usize> = None;
    let mut i: usize = 0;
    while i < fields.len()
        invariant
            i <= fields@.len(),
            match found {
                Some(k) => literal_place(fields@.take(i as int), name@) == k && k < i,
                None => literal_place(fields@.take(i as int), name@) == -1,
            },
        decreases fields.len() - i,
    {
        assert(fields@.take(i + 1).drop_last() == fields@.take(i as int));
        if found.is_none() && same(&fields[i].0, name) {
            found = Some(i);
        }
        i += 1;
    }
    assert(fields@.take(i as int) == fields@);
    found
}

impl Gen {
    /// Takes `n` labels.
    pub open spec fn fresh_labels(self, n: nat) -> (Gen, Seq<Text>)
        decreases n,
    {
        if n == 0 {
            (self, seq![])
        } else {
            let (g, list) = self.fresh_labels((n - 1) as nat);
            let (g, l) = g.fresh_label();
            (g, list.push(l))
        }
    }

    /// Compiles an expression: what it writes, and the value and the type that it leaves.
    pub open spec fn compile_expr(self, expr: ExprNode) -> (Gen, (Text, Text))
        decreases expr, 2nat,
    {
        let g = self;
        match expr.value {
            Expr::LitInt(n) => (g, (int_dec(n as int), "i64"@)),
            Expr::LitHex(n) => (g, (int_dec(n as int), "i64"@)),
            Expr::LitReal(n) => (g, (real_text(n.shown@), "double"@)),
            Expr::LitBool(b) => (g, (bool_text(b), "i1"@)),
            Expr::LitStr(s) => {
                let (g, v) = g.make_string_slot(s@);
                (g, (v, "%yk_string"@))
            },
            Expr::LitChar(c) => (g, (int_dec(c as int), "i64"@)),
            Expr::LitNull => (g, ("0"@, "i64"@)),
            Expr::LitNone => (g, ("0"@, "i64"@)),
            Expr::LitSymbol(s) => {
                let (g, v) = g.make_string_slot(":"@ + s@);
                (g, (v, "%yk_string"@))
            },
            Expr::Ident(name) => g.load_name(name@),
            Expr::BinOp(l, op, r) => {
                let (g, lt) = g.expr_type_str(*l);
                let (g, (lc, _)) = g.compile_expr(*l);
                let (g, rt) = g.expr_type_str(*r);
                let (g, (rc, _)) = g.compile_expr(*r);
                g.emit_binop(op, lc, lt, rc, rt, g.find_alloca_for_expr(*l))
            },
            Expr::UnOp(op, inner) => {
                let (g, (i, ty)) = g.compile_expr(*inner);
                g.emit_unop(op, i, ty)
            },
            Expr::Call(_, _) => g.compile_call(expr),
            Expr::Field(obj, field) => {
                let (g, (o, obj_ty)) = g.compile_expr(*obj);
                g.emit_field(o, obj_ty, field@, g.is_http_var(*obj))
            },
            Expr::Index(obj, index) => {
                let (g, (o, ot)) = g.compile_expr(*obj);
                let (g, (i, _)) = g.compile_expr(*index);
                g.emit_index(o, ot, i)
            },
            Expr::Range(l, r) => {
                let (g, _) = g.compile_expr(*l);
                let (g, (rv, _)) = g.compile_expr(*r);
                (g, (rv, "i64"@))
            },
            Expr::AsConst(inner) => g.compile_expr(*inner),
            Expr::Await(inner) => {
                let (g, (hv, _)) = g.compile_expr(*inner);
                g.call_int("yk_join_thread(i64 "@ + hv + ")"@)
            },
            Expr::ResultOk(inner) => {
                let (g, (iv, it)) = g.compile_expr(*inner);
                g.make_result(iv, it, "1"@)
            },
            Expr::ResultErr(inner) => {
                let (g, (iv, it)) = g.compile_expr(*inner);
                g.make_result(iv, it, "0"@)
            },
            Expr::PostInc(i) => {
                let (g, (_, ty)) = g.compile_expr(*i);
                g.step_var(ty, g.find_alloca_for_expr(*i), "fadd"@, "add"@)
            },
            Expr::PostDec(i) => {
                let (g, (_, ty)) = g.compile_expr(*i);
                g.step_var(ty, g.find_alloca_for_expr(*i), "fsub"@, "sub"@)
            },
            Expr::SafeCall(obj, field) => {
                let (g, (obj_val, obj_ty)) = g.compile_expr(*obj);
                g.emit_safe_call(obj_val, obj_ty, field@)
            },
            Expr::Try(inner) => {
                let (g, (rv, rt)) = g.compile_expr(*inner);
                g.emit_try(rv, rt)
            },
            Expr::As(inner, target) => {
                let (g, (val, ty)) = g.compile_expr(*inner);
                let (g, target_ty) = g.type_to_llvm(target.value);
                g.emit_cast(val, ty, target_ty)
            },
            _ => g.compile_composite(expr),
        }
    }

    /// Compiles an expression that is made of parts: a literal of several values, a function, a block,
    /// or a choice. A loop as an expression is zero.
    pub open spec fn compile_composite(self, expr: ExprNode) -> (Gen, (Text, Text))
        decreases expr, 1nat,
    {
        let g = self;
        match expr.value {
            Expr::Block(stmts) => {
                let (g, ret_ptr) = g.begin_value();
                let g = g.compile_block_stmts(stmts@, ret_ptr);
                g.block_value(ret_ptr)
            },
            Expr::If(_, _, _) => g.compile_if_expr(expr),
            Expr::ListLit(items) => {
                let (g, list_ptr) = g.new_list();
                let g = g.push_items(items@, list_ptr);
                (g, ("%"@ + list_ptr, "ptr"@))
            },
            Expr::SetLit(items) => {
                let (g, list_ptr) = g.new_list();
                let g = g.push_items(items@, list_ptr);
                (g, ("%"@ + list_ptr, "ptr"@))
            },
            Expr::MapLit(pairs) => {
                let (g, list_ptr) = g.new_list();
                let g = g.push_pairs(pairs@, list_ptr);
                (g, ("%"@ + list_ptr, "ptr"@))
            },
            Expr::StructLit(_, _) => g.compile_struct(expr),
            Expr::TupleLit(items) => {
                let (g, types) = g.expr_types(items@);
                let (g, ty) = g.get_or_create_tuple_type(types);
                let (g, agg) = g.insert_items(items@, ty);
                (g, (agg, ty))
            },
            Expr::VectorLit(items) => g.compile_vector(items@),
            Expr::MatrixLit(rows) => g.compile_matrix(rows@),
            Expr::FnLit(params, ret_type, body) => {
                let (g, name) = g.next_closure();
                let g = g.defer(name, params@, ret_type, *body);
                g.closure_address(name, copies("i64"@, params@.len()))
            },
            Expr::Closure(params, body) => {
                let (g, name) = g.next_closure();
                let g = g.defer(name, params@, None, *body);
                g.closure_address(name, copies("i64"@, params@.len()))
            },
            Expr::Spawn(inner) => {
                let (g, name) = g.next_spawn();
                let (g, v) = g.start_thread(name);
                (g.defer_spawn(name, *inner), v)
            },
            Expr::Match(_, _) => g.compile_match(expr),
            Expr::LitComplex(re, im) => {
                let (g, cptr) = g.complex_slot();
                let (g, (rv, rt)) = g.compile_expr(*re);
                let (g, (iv, it)) = g.compile_expr(*im);
                g.fill_complex(cptr, rv, rt, iv, it)
            },
            Expr::Elvis(_, _) => g.compile_elvis(expr),
            Expr::Variant(_, name, args) => {
                let (g, tag) = g.get_variant_tag(name@);
                let (g, (val, ty)) = g.variant_args(args@);
                let (g, payload) = g.variant_payload(val, ty);
                let (g, v) = g.make_variant(tag, payload);
                (g, (v, "%yk_variant"@))
            },
            Expr::TryCatch(try_body, catch_var, catch_body) => {
                let g = g.compile_stmts(try_body@);
                let g = g.bind_catch(catch_var@);
                let g = g.compile_stmts(catch_body@);
                (g, ("0"@, "i64"@))
            },
            _ => (g, ("0"@, "i64"@)),
        }
    }

    /// Compiles a condition with two values.
    pub open spec fn compile_if_expr(self, expr: ExprNode) -> (Gen, (Text, Text))
        decreases expr, 0nat,
    {
        match expr.value {
            Expr::If(cond, then_e, else_e) => {
                let (g, then_label) = self.fresh_label();
                let (g, else_label) = g.fresh_label();
                let (g, merge_label) = g.fresh_label();
                let (g, (cond_val, _)) = g.compile_expr(*cond);
                let g = g.test_arm(cond_val, then_label, else_label);
                let depth = g.depth();
                let g = g.begin_block(then_label);
                let (g, (t_val, t_ty)) = g.compile_expr(*then_e);
                let g = g.end_block(merge_label, depth);
                let g = g.begin_block(else_label);
                let (g, (e_val, _)) = match else_e {
                    Some(ex) => g.compile_expr(*ex),
                    None => (g, ("0"@, "i64"@)),
                };
                let g = g.end_block(merge_label, depth);
                let g = g.e_raw(merge_label + ":"@);
                g.merge_values(t_ty, t_val, then_label, e_val, else_label)
            },
            _ => (self, ("0"@, "i64"@)),
        }
    }

    /// Compiles the value of an expression or, where it is null, of another one.
    pub open spec fn compile_elvis(self, expr: ExprNode) -> (Gen, (Text, Text))
        decreases expr, 0nat,
    {
        match expr.value {
            Expr::Elvis(a, b) => {
                let (g, (a_val, a_ty)) = self.compile_expr(*a);
                let (g, is_null) = g.null_test(a_val, a_ty);
                let (g, null_bb) = g.fresh_label();
                let (g, nonnull_bb) = g.fresh_label();
                let (g, merge_bb) = g.fresh_label();
                let g = g.test_arm("%"@ + is_null, null_bb, nonnull_bb);
                let g = g.e(null_bb + ":"@);
                let (g, (b_val, b_ty)) = g.compile_expr(*b);
                let (g, inner) = g.elvis_value(a_val, a_ty, nonnull_bb, merge_bb);
                g.merge_values(b_ty, b_val, null_bb, inner, nonnull_bb)
            },
            _ => (self, ("0"@, "i64"@)),
        }
    }

    /// Compiles a match: the arms are tried in order.
    pub open spec fn compile_match(self, expr: ExprNode) -> (Gen, (Text, Text))
        decreases expr, 0nat,
    {
        match expr.value {
            Expr::Match(scrutinee, arms) => {
                let (g, (sv, st)) = self.compile_expr(*scrutinee);
                let (g, result_ty) = g.arms_type(arms@);
                let (g, result_ptr) = g.begin_match(result_ty);
                let (g, merge_label) = g.fresh_label();
                let (g, labels) = g.fresh_labels(arms@.len());
                let g = g.compile_arms(arms@, arms@.len(), labels, merge_label, sv, st, result_ptr);
                g.end_match(result_ty, result_ptr, merge_label)
            },
            _ => (self, ("0"@, "i64"@)),
        }
    }

    /// Compiles the first `n` arms of a match. Where an arm does not match, control goes on to the
    /// next one, and behind the last one to the end.
    pub open spec fn compile_arms(
        self,
        arms: Seq<MatchArm>,
        n: nat,
        labels: Seq<Text>,
        merge_label: Text,
        sv: Text,
        st: Text,
        result_ptr: Text,
    ) -> Gen
        decreases arms, n + 1,
    {
        if n == 0 || n > arms.len() {
            self
        } else {
            let g = self.compile_arms(arms, (n - 1) as nat, labels, merge_label, sv, st, result_ptr);
            let arm = arms[n - 1];
            let label = labels[n - 1];
            let (g, cond) = g.compile_pattern_match(arm.pattern, sv, st);
            let g = match cond {
                Some(c) => g.test_arm(
                    c,
                    label,
                    if n < labels.len() {
                        labels[n as int]
                    } else {
                        merge_label
                    },
                ),
                None => g.e("br label %"@ + label),
            };
            let g = g.e_raw(label + ":"@);
            let g = g.compile_pattern_bind(arm.pattern, sv, st);
            let (g, (val, ty)) = g.compile_expr(arm.body);
            g.end_arm(val, ty, result_ptr, merge_label)
        }
    }

    /// Compiles the statements of a block expression; a return sets its value.
    pub open spec fn compile_block_stmts(self, stmts: Seq<StmtNode>, ret_ptr: Text) -> Gen
        decreases stmts, 2nat,
    {
        if stmts.len() == 0 {
            self
        } else {
            let g = self.compile_block_stmts(stmts.drop_last(), ret_ptr);
            match stmts.last().value {
                Stmt::Return(Some(ex)) => {
                    let (g, (val, ty)) = g.compile_expr(ex);
                    g.set_value(val, ty, ret_ptr)
                },
                Stmt::Return(None) => g.set_value("0"@, "i64"@, ret_ptr),
                _ => g.compile_stmt(stmts.last()),
            }
        }
    }

    /// Appends the items to a list.
    pub open spec fn push_items(self, items: Seq<ExprNode>, list_ptr: Text) -> Gen
        decreases items, 2nat,
    {
        if items.len() == 0 {
            self
        } else {
            let g = self.push_items(items.drop_last(), list_ptr);
            let (g, (val, ty)) = g.compile_expr(items.last());
            g.push_value(list_ptr, val, ty)
        }
    }

    /// Appends keys and values to a list, in turn.
    pub open spec fn push_pairs(self, items: Seq<(ExprNode, ExprNode)>, list_ptr: Text) -> Gen
        decreases items, 2nat,
    {
        if items.len() == 0 {
            self
        } else {
            let g = self.push_pairs(items.drop_last(), list_ptr);
            let (g, (kv, kt)) = g.compile_expr(items.last().0);
            let g = g.push_value(list_ptr, kv, kt);
            let (g, (vv, vt)) = g.compile_expr(items.last().1);
            g.push_value(list_ptr, vv, vt)
        }
    }

    /// Builds a tuple.
    pub open spec fn insert_items(self, items: Seq<ExprNode>, ty: Text) -> (Gen, Text)
        decreases items, 2nat,
    {
        if items.len() == 0 {
            (self, "undef"@)
        } else {
            let (g, agg) = self.insert_items(items.drop_last(), ty);
            let (g, (fval, fty)) = g.compile_expr(items.last());
            g.insert_value(ty, agg, fty, fval, dec((items.len() - 1) as nat))
        }
    }

    /// Builds a struct or an instance of a class from its literal.
    pub open spec fn compile_struct(self, expr: ExprNode) -> (Gen, (Text, Text))
        decreases expr, 0nat,
    {
        match expr.value {
            Expr::StructLit(name, fields) => if self.has_class(name@) {
                let class_ty = "%class."@ + name@;
                let (g, agg) = match self.class_vtable(name@) {
                    Some(methods) => if methods.len() > 0 {
                        self.with_vtable(name@)
                    } else {
                        (self, "undef"@)
                    },
                    None => (self, "undef"@),
                };
                let defs = match g.class_def(name@) {
                    Some(list) => list,
                    None => seq![],
                };
                let (g, agg) = g.insert_fields(fields@, defs.len(), defs, class_ty, agg, 1);
                (g, (agg, class_ty))
            } else {
                let struct_ty = "%struct."@ + name@;
                let defs = match self.struct_def(name@) {
                    Some(list) => list,
                    None => seq![],
                };
                let (g, agg) = self.insert_fields(fields@, defs.len(), defs, struct_ty, "undef"@, 0);
                (g, (agg, struct_ty))
            },
            _ => (self, ("0"@, "i64"@)),
        }
    }

    /// Puts the first `n` declared fields that a literal gives into an aggregate.
    pub open spec fn insert_fields(
        self,
        fields: Seq<(String, ExprNode)>,
        n: nat,
        defs: Seq<(Text, Text)>,
        ty: Text,
        agg: Text,
        offset: nat,
    ) -> (Gen, Text)
        decreases fields, n + 1,
    {
        if n == 0 || n > defs.len() {
            (self, agg)
        } else {
            let (g, agg) = self.insert_fields(fields, (n - 1) as nat, defs, ty, agg, offset);
            let at = literal_place(fields, defs[n - 1].0);
            if 0 <= at < fields.len() {
                let (g, (fval, fty)) = g.compile_expr(fields[at].1);
                g.insert_value(ty, agg, fty, fval, dec((n - 1 + offset) as nat))
            } else {
                (g, agg)
            }
        }
    }

    /// Builds a vector; its element type is that of its first element.
    pub open spec fn compile_vector(self, items: Seq<ExprNode>) -> (Gen, (Text, Text))
        decreases items, 3nat,
    {
        if items.len() == 0 {
            (self, ("zeroinitializer"@, "<2 x double>"@))
        } else {
            let (g, (_, ty)) = self.compile_expr(items[0]);
            let vty = "<"@ + dec(items.len()) + " x "@ + ty + ">"@;
            let (g, vec) = g.insert_elements(items, vty);
            (g, ("%"@ + vec, vty))
        }
    }

    /// Puts the elements into a vector.
    pub open spec fn insert_elements(self, items: Seq<ExprNode>, vty: Text) -> (Gen, Text)
        decreases items, 2nat,
    {
        if items.len() == 0 {
            (self, vty + " undef"@)
        } else {
            let (g, vec) = self.insert_elements(items.drop_last(), vty);
            let (g, (val, _)) = g.compile_expr(items.last());
            g.insert_element(vty, vec, val, dec((items.len() - 1) as nat))
        }
    }

    /// Builds a matrix; its element type is that of its first element.
    pub open spec fn compile_matrix(self, rows: Seq<Vec<ExprNode>>) -> (Gen, (Text, Text))
        decreases rows, 5nat,
    {
        if rows.len() == 0 || rows[0]@.len() == 0 {
            (self, ("zeroinitializer"@, "[<2 x double> x 0]"@))
        } else {
            let (g, (_, ty)) = self.compile_expr(rows[0]@[0]);
            let vty = "<"@ + dec(rows[0]@.len()) + " x "@ + ty + ">"@;
            let mty = "["@ + vty + " x "@ + dec(rows.len()) + "]"@;
            let (g, mat) = g.insert_rows(rows, vty, mty);
            (g, ("%"@ + mat, mty))
        }
    }

    /// Puts the rows into a matrix.
    pub open spec fn insert_rows(self, rows: Seq<Vec<ExprNode>>, vty: Text, mty: Text) -> (Gen, Text)
        decreases rows, 4nat,
    {
        if rows.len() == 0 {
            (self, mty + " undef"@)
        } else {
            let (g, mat) = self.insert_rows(rows.drop_last(), vty, mty);
            let (g, row) = g.insert_elements(rows.last()@, vty);
            g.insert_row(mty, mat, row, dec((rows.len() - 1) as nat))
        }
    }

    /// What a variant is made of: its only argument; else the arguments are compiled and forgotten.
    pub open spec fn variant_args(self, args: Seq<ExprNode>) -> (Gen, (Text, Text))
        decreases args, 3nat,
    {
        if args.len() == 1 {
            self.compile_expr(args[0])
        } else {
            (self.compile_all(args), ("0"@, "i64"@))
        }
    }

    /// Compiles expressions for what they do.
    pub open spec fn compile_all(self, args: Seq<ExprNode>) -> Gen
        decreases args, 2nat,
    {
        if args.len() == 0 {
            self
        } else {
            self.compile_all(args.drop_last()).compile_expr(args.last()).0
        }
    }

    /// Compiles the arguments of a call. The anonymous functions among the arguments of a server
    /// method are not compiled here: they become request handlers.
    pub open spec fn compile_args(self, args: Seq<ExprNode>, is_srv: bool) -> (Gen, Seq<(Text, Text)>)
        decreases args, 2nat,
    {
        if args.len() == 0 {
            (self, seq![])
        } else {
            let (g, list) = self.compile_args(args.drop_last(), is_srv);
            if is_srv && is_function(args.last()) {
                (g, list.push(("0"@, "i64"@)))
            } else {
                let (g, v) = g.compile_expr(args.last());
                (g, list.push(v))
            }
        }
    }

    /// Compiles a call.
    pub open spec fn compile_call(self, expr: ExprNode) -> (Gen, (Text, Text))
        decreases expr, 0nat,
    {
        match expr.value {
            Expr::Call(callee, args) => {
                let (g, vals) = self.compile_args(args@, is_server_call(*callee));
                match callee.value {
                    Expr::Ident(name) => g.call_named(name@, vals),
                    Expr::Closure(params, body) => g.call_closure(params@, None, *body, vals),
                    Expr::FnLit(params, ret_type, body) => g.call_closure(
                        params@,
                        ret_type,
                        *body,
                        vals,
                    ),
                    Expr::Field(obj, field) => match g.module_call(*obj, field@, vals) {
                        Some(r) => r,
                        None => {
                            let (g, (o_val, o_ty)) = g.compile_expr(*obj);
                            if o_ty == "i64"@ && g.is_http_var(*obj) && http_has(field@) {
                                g.http_request(o_val, field@, vals)
                            } else if o_ty == "i64"@ && server_has(field@) {
                                g.compile_server_method(o_val, field@, vals, args@)
                            } else {
                                g.method_call(o_val, o_ty, field@, vals)
                            }
                        },
                    },
                    _ => (g, ("0"@, "i64"@)),
                }
            },
            _ => (self, ("0"@, "i64"@)),
        }
    }

    /// A call of a function of a module, which the runtime or another language implements; none
    /// where the receiver is no such module.
    pub open spec fn module_call(self, obj: ExprNode, func: Text, args: Seq<(Text, Text)>) -> Option<
        (Gen, (Text, Text)),
    > {
        match obj.value {
            Expr::Ident(name) => if runtime_module(name@) {
                Some(self.call_runtime_module(name@, func, args))
            } else if self.has_ffi_module(name@) {
                Some(self.call_ffi(name@, func, args))
            } else {
                None
            },
            _ => None,
        }
    }
}

impl<'a> LlvmCodegen<'a> {
    fn fresh_labels(&mut self, n: usize) -> (r: Vec<String>)
        ensures
            (final(self)@, texts(r@)) == old(self)@.fresh_labels(n as nat),
    {
        let ghost g = self@;
        let mut r: Vec<String> = Vec::new();
        let mut i: usize = 0;
        assert(texts(r@) == Seq::<Text>::empty());
        while i < n
            invariant
                i <= n,
                (self@, texts(r@)) == g.fresh_labels(i as nat),
            decreases n - i,
        {
            let l = self.fresh_label();
            let ghost before = r@;
            let ghost text = l@;
            r.push(l);
            assert(texts(r@) == texts(before).push(text));
            i += 1;
        }
        r
    }

    #[verifier::rlimit(30)]
    pub(crate) fn compile_expr(&mut self, expr: &'a ExprNode) -> (r: (String, String))
        ensures
            (final(self)@, (r.0@, r.1@)) == old(self)@.compile_expr(*expr),
        decreases expr, 2nat,
    {
        match &expr.value {
            Expr::LitInt(n) => (int_text(*n), owned("i64")),
            Expr::LitHex(n) => (int_text(*n), owned("i64")),
            Expr::LitReal(n) => (real_string(&n.shown), owned("double")),
            Expr::LitBool(b) => (bool_string(*b), owned("i1")),
            Expr::LitStr(s) => (self.make_string_slot(s), owned("%yk_string")),
            Expr::LitChar(c) => (int_text((*c as u32) as i64), owned("i64")),
            Expr::LitNull => (owned("0"), owned("i64")),
            Expr::LitNone => (owned("0"), owned("i64")),
            Expr::LitSymbol(s) => (self.make_string_slot(&cat2(":", s)), owned("%yk_string")),
            Expr::Ident(name) => self.load_name(name),
            Expr::BinOp(l, op, r) => {
                let lt = self.expr_type_str(l);
                let (lc, _) = self.compile_expr(l);
                let rt = self.expr_type_str(r);
                let (rc, _) = self.compile_expr(r);
                let target = self.find_alloca_for_expr(l);
                self.emit_binop(*op, &lc, &lt, &rc, &rt, &target)
            },
            Expr::UnOp(op, inner) => {
                let (i, ty) = self.compile_expr(inner);
                self.emit_unop(*op, &i, &ty)
            },
            Expr::Call(_, _) => self.compile_call(expr),
            Expr::Field(obj, field) => {
                let (o, obj_ty) = self.compile_expr(obj);
                let is_http = self.is_http_var(obj);
                self.emit_field(&o, &obj_ty, field, is_http)
            },
            Expr::Index(obj, index) => {
                let (o, ot) = self.compile_expr(obj);
                let (i, _) = self.compile_expr(index);
                self.emit_index(&o, &ot, &i)
            },
            Expr::Range(l, r) => {
                self.compile_expr(l);
                let (rv, _) = self.compile_expr(r);
                (rv, owned("i64"))
            },
            Expr::AsConst(inner) => self.compile_expr(inner),
            Expr::Await(inner) => {
                let (hv, _) = self.compile_expr(inner);
                self.call_int(&cat3("yk_join_thread(i64 ", &hv, ")"))
            },
            Expr::ResultOk(inner) => {
                let (iv, it) = self.compile_expr(inner);
                self.make_result(&iv, &it, "1")
            },
            Expr::ResultErr(inner) => {
                let (iv, it) = self.compile_expr(inner);
                self.make_result(&iv, &it, "0")
            },
            Expr::PostInc(i) => {
                let (_, ty) = self.compile_expr(i);
                let target = self.find_alloca_for_expr(i);
                self.step_var(&ty, &target, "fadd", "add")
            },
            Expr::PostDec(i) => {
                let (_, ty) = self.compile_expr(i);
                let target = self.find_alloca_for_expr(i);
                self.step_var(&ty, &target, "fsub", "sub")
            },
            Expr::SafeCall(obj, field) => {
                let (obj_val, obj_ty) = self.compile_expr(obj);
                self.emit_safe_call(&obj_val, &obj_ty, field)
            },
            Expr::Try(inner) => {
                let (rv, rt) = self.compile_expr(inner);
                self.emit_try(&rv, &rt)
            },
            Expr::As(inner, target) => {
                let (val, ty) = self.compile_expr(inner);
                let target_ty = self.type_to_llvm(&target.value);
                self.emit_cast(&val, &ty, &target_ty)
            },
            _ => self.compile_composite(expr),
        }
    }

    #[verifier::rlimit(30)]
    fn compile_composite(&mut self, expr: &'a ExprNode) -> (r: (String, String))
        ensures
            (final(self)@, (r.0@, r.1@)) == old(self)@.compile_composite(*expr),
        decreases expr, 1nat,
    {
        match &expr.value {
            Expr::Block(stmts) => {
                let ret_ptr = self.begin_value();
                self.compile_block_stmts(stmts, &ret_ptr);
                self.block_value(&ret_ptr)
            },
            Expr::If(_, _, _) => self.compile_if_expr(expr),
            Expr::ListLit(items) => {
                let list_ptr = self.new_list();
                self.push_items(items, &list_ptr);
                (cat2("%", &list_ptr), owned("ptr"))
            },
            Expr::SetLit(items) => {
                let list_ptr = self.new_list();
                self.push_items(items, &list_ptr);
                (cat2("%", &list_ptr), owned("ptr"))
            },
            Expr::MapLit(pairs) => {
                let list_ptr = self.new_list();
                self.push_pairs(pairs, &list_ptr);
                (cat2("%", &list_ptr), owned("ptr"))
            },
            Expr::StructLit(_, _) => self.compile_struct(expr),
            Expr::TupleLit(items) => {
                let types = self.expr_types(items);
                let ty = self.get_or_create_tuple_type(&types);
                let agg = self.insert_items(items, &ty);
                (agg, ty)
            },
            Expr::VectorLit(items) => self.compile_vector(items),
            Expr::MatrixLit(rows) => self.compile_matrix(rows),
            Expr::FnLit(params, ret_type, body) => {
                let name = self.next_closure();
                self.defer(&name, params, ret_type.as_ref(), body);
                self.closure_address(&name, &copies_text("i64", params.len()))
            },
            Expr::Closure(params, body) => {
                let name = self.next_closure();
                self.defer(&name, params, None, body);
                self.closure_address(&name, &copies_text("i64", params.len()))
            },
            Expr::Spawn(inner) => {
                let name = self.next_spawn();
                let v = self.start_thread(&name);
                self.defer_spawn(&name, inner);
                v
            },
            Expr::Match(_, _) => self.compile_match(expr),
            Expr::LitComplex(re, im) => {
                let cptr = self.complex_slot();
                let (rv, rt) = self.compile_expr(re);
                let (iv, it) = self.compile_expr(im);
                self.fill_complex(&cptr, &rv, &rt, &iv, &it)
            },
            Expr::Elvis(_, _) => self.compile_elvis(expr),
            Expr::Variant(_, name, args) => {
                let tag = self.get_variant_tag(name);
                let (val, ty) = self.variant_args(args);
                let payload = self.variant_payload(&val, &ty);
                let v = self.make_variant(tag, &payload);
                (v, owned("%yk_variant"))
            },
            Expr::TryCatch(try_body, catch_var, catch_body) => {
                self.compile_stmts(try_body);
                self.bind_catch(catch_var);
                self.compile_stmts(catch_body);
                (owned("0"), owned("i64"))
            },
            _ => (owned("0"), owned("i64")),
        }
    }

    fn compile_if_expr(&mut self, expr: &'a ExprNode) -> (r: (String, String))
        ensures
            (final(self)@, (r.0@, r.1@)) == old(self)@.compile_if_expr(*expr),
        decreases expr, 0nat,
    {
        match &expr.value {
            Expr::If(cond, then_e, else_e) => {
                let then_label = self.fresh_label();
                let else_label = self.fresh_label();
                let merge_label = self.fresh_label();
                let (cond_val, _) = self.compile_expr(cond);
                self.test_arm(&cond_val, &then_label, &else_label);
                let depth = self.depth();
                self.begin_block(&then_label);
                let (t_val, t_ty) = self.compile_expr(then_e);
                self.end_block(&merge_label, depth);
                self.begin_block(&else_label);
                let (e_val, _) = match else_e {
                    Some(ex) => self.compile_expr(ex),
                    None => (owned("0"), owned("i64")),
                };
                self.end_block(&merge_label, depth);
                self.e_raw(&cat2(&merge_label, ":"));
                self.merge_values(&t_ty, &t_val, &then_label, &e_val, &else_label)
            },
            _ => (owned("0"), owned("i64")),
        }
    }

    fn compile_elvis(&mut self, expr: &'a ExprNode) -> (r: (String, String))
        ensures
            (final(self)@, (r.0@, r.1@)) == old(self)@.compile_elvis(*expr),
        decreases expr, 0nat,
    {
        match &expr.value {
            Expr::Elvis(a, b) => {
                let (a_val, a_ty) = self.compile_expr(a);
                let is_null = self.null_test(&a_val, &a_ty);
                let null_bb = self.fresh_label();
                let nonnull_bb = self.fresh_label();
                let merge_bb = self.fresh_label();
                self.test_arm(&cat2("%", &is_null), &null_bb, &nonnull_bb);
                self.e(&cat2(&null_bb, ":"));
                let (b_val, b_ty) = self.compile_expr(b);
                let inner = self.elvis_value(&a_val, &a_ty, &nonnull_bb, &merge_bb);
                self.merge_values(&b_ty, &b_val, &null_bb, &inner, &nonnull_bb)
            },
            _ => (owned("0"), owned("i64")),
        }
    }

    fn compile_match(&mut self, expr: &'a ExprNode) -> (r: (String, String))
        ensures
            (final(self)@, (r.0@, r.1@)) == old(self)@.compile_match(*expr),
        decreases expr, 0nat,
    {
        match &expr.value {
            Expr::Match(scrutinee, arms) => {
                let (sv, st) = self.compile_expr(scrutinee);
                let result_ty = self.arms_type(arms);
                let result_ptr = self.begin_match(&result_ty);
                let merge_label = self.fresh_label();
                let ghost before = self@;
                let labels = self.fresh_labels(arms.len());
                proof {
                    lemma_fresh_labels_len(before, arms@.len());
                }
                self.compile_arms(arms, &labels, &merge_label, &sv, &st, &result_ptr);
                self.end_match(&result_ty, &result_ptr, &merge_label)
            },
            _ => (owned("0"), owned("i64")),
        }
    }

    fn compile_arms(
        &mut self,
        arms: &'a Vec<MatchArm>,
        labels: &Vec<String>,
        merge_label: &str,
        sv: &str,
        st: &str,
        result_ptr: &str,
    )
        requires
            labels@.len() == arms@.len(),
        ensures
            final(self)@ == old(self)@.compile_arms(
                arms@,
                arms@.len(),
                texts(labels@),
                merge_label@,
                sv@,
                st@,
                result_ptr@,
            ),
        decreases arms@, 1nat,
    {
        let ghost g = self@;
        let mut i: usize = 0;
        while i < arms.len()
            invariant
                i <= arms@.len(),
                labels@.len() == arms@.len(),
                self@ == g.compile_arms(
                    arms@,
                    i as nat,
                    texts(labels@),
                    merge_label@,
                    sv@,
                    st@,
                    result_ptr@,
                ),
            decreases arms.len() - i,
        {
            assert(texts(labels@)[i as int] == labels@[i as int]@);
            match self.compile_pattern_match(&arms[i].pattern, sv, st) {
                Some(c) => {
                    if i + 1 < labels.len() {
                        assert(texts(labels@)[i + 1] == labels@[i + 1]@);
                        self.test_arm(&c, &labels[i], &labels[i + 1]);
                    } else {
                        self.test_arm(&c, &labels[i], merge_label);
                    }
                },
                None => self.e(&cat2("br label %", &labels[i])),
            }
            self.e_raw(&cat2(&labels[i], ":"));
            self.compile_pattern_bind(&arms[i].pattern, sv, st);
            let (val, ty) = self.compile_expr(&arms[i].body);
            self.end_arm(&val, &ty, result_ptr, merge_label);
            i += 1;
        }
    }

    fn compile_block_stmts(&mut self, stmts: &'a Vec<StmtNode>, ret_ptr: &str)
        ensures
            final(self)@ == old(self)@.compile_block_stmts(stmts@, ret_ptr@),
        decreases stmts@, 2nat,
    {
        let ghost g = self@;
        let mut i: usize = 0;
        while i < stmts.len()
            invariant
                i <= stmts@.len(),
                self@ == g.compile_block_stmts(stmts@.take(i as int), ret_ptr@),
            decreases stmts.len() - i,
        {
            match &stmts[i].value {
                Stmt::Return(Some(ex)) => {
                    let (val, ty) = self.compile_expr(ex);
                    self.set_value(&val, &ty, ret_ptr);
                },
                Stmt::Return(None) => {
                    self.set_value("0", "i64", ret_ptr);
                },
                _ => {
                    self.compile_stmt(&stmts[i]);
                },
            }
            assert(stmts@.take(i + 1).drop_last() == stmts@.take(i as int));
            i += 1;
        }
        assert(stmts@.take(i as int) == stmts@);
    }

    fn push_items(&mut self, items: &'a Vec<ExprNode>, list_ptr: &str)
        ensures
            final(self)@ == old(self)@.push_items(items@, list_ptr@),
        decreases items@, 2nat,
    {
        let ghost g = self@;
        let mut i: usize = 0;
        while i < items.len()
            invariant
                i <= items@.len(),
                self@ == g.push_items(items@.take(i as int), list_ptr@),
            decreases items.len() - i,
        {
            let (val, ty) = self.compile_expr(&items[i]);
            self.push_value(list_ptr, &val, &ty);
            assert(items@.take(i + 1).drop_last() == items@.take(i as int));
            i += 1;
        }
        assert(items@.take(i as int) == items@);
    }

    fn push_pairs(&mut self, items: &'a Vec<(ExprNode, ExprNode)>, list_ptr: &str)
        ensures
            final(self)@ == old(self)@.push_pairs(items@, list_ptr@),
        decreases items@, 2nat,
    {
        let ghost g = self@;
        let mut i: usize = 0;
        while i < items.len()
            invariant
                i <= items@.len(),
                self@ == g.push_pairs(items@.take(i as int), list_ptr@),
            decreases items.len() - i,
        {
            let (kv, kt) = self.compile_expr(&items[i].0);
            self.push_value(list_ptr, &kv, &kt);
            let (vv, vt) = self.compile_expr(&items[i].1);
            self.push_value(list_ptr, &vv, &vt);
            assert(items@.take(i + 1).drop_last() == items@.take(i as int));
            i += 1;
        }
        assert(items@.take(i as int) == items@);
    }

    fn insert_items(&mut self, items: &'a Vec<ExprNode>, ty: &str) -> (r: String)
        ensures
            (final(self)@, r@) == old(self)@.insert_items(items@, ty@),
        decreases items@, 2nat,
    {
        let ghost g = self@;
        let mut agg = owned("undef");
        let mut i: usize = 0;
        while i < items.len()
            invariant
                i <= items@.len(),
                (self@, agg@) == g.insert_items(items@.take(i as int), ty@),
            decreases items.len() - i,
        {
            let (fval, fty) = self.compile_expr(&items[i]);
            agg = self.insert_value(ty, &agg, &fty, &fval, &dec_text(i as u128));
            assert(items@.take(i + 1).drop_last() == items@.take(i as int));
            i += 1;
        }
        assert(items@.take(i as int) == items@);
        agg
    }

    fn compile_struct(&mut self, expr: &'a ExprNode) -> (r: (String, String))
        ensures
            (final(self)@, (r.0@, r.1@)) == old(self)@.compile_struct(*expr),
        decreases expr, 0nat,
    {
        match &expr.value {
            Expr::StructLit(name, fields) => {
                if self.has_class(name) {
                    let class_ty = cat2("%class.", name);
                    let agg = match self.class_vtable(name) {
                        Some(methods) => {
                            if methods.list.len() > 0 {
                                self.with_vtable(name)
                            } else {
                                owned("undef")
                            }
                        },
                        None => owned("undef"),
                    };
                    let defs = match self.class_def(name) {
                        Some(list) => list,
                        None => Pairs::new(),
                    };
                    let agg = self.insert_fields(fields, &defs, &class_ty, &agg, true);
                    (agg, class_ty)
                } else {
                    let struct_ty = cat2("%struct.", name);
                    let defs = match self.struct_def(name) {
                        Some(list) => list,
                        None => Pairs::new(),
                    };
                    let agg = self.insert_fields(fields, &defs, &struct_ty, "undef", false);
                    (agg, struct_ty)
                }
            },
            _ => (owned("0"), owned("i64")),
        }
    }

    fn insert_fields(
        &mut self,
        fields: &'a Vec<(String, ExprNode)>,
        defs: &Pairs,
        ty: &str,
        agg: &str,
        behind_vtable: bool,
    ) -> (r: String)
        ensures
            (final(self)@, r@) == old(self)@.insert_fields(
                fields@,
                defs@.len(),
                defs@,
                ty@,
                agg@,
                if behind_vtable {
                    1
                } else {
                    0
                },
            ),
        decreases fields@, 1nat,
    {
        let ghost g = self@;
        let ghost offset: nat = if behind_vtable {
            1
        } else {
            0
        };
        let ghost start = agg@;
        let mut agg = owned(agg);
        let mut i: usize = 0;
        while i < defs.list.len()
            invariant
                i <= defs.list@.len(),
                offset == (if behind_vtable {
                    1nat
                } else {
                    0nat
                }),
                (self@, agg@) == g.insert_fields(fields@, i as nat, defs@, ty@, start, offset),
            decreases defs.list.len() - i,
        {
            assert(defs@[i as int] == (defs.list@[i as int].0@, defs.list@[i as int].1@));
            match find_literal(fields, &defs.list[i].0) {
                Some(at) => {
                    let (fval, fty) = self.compile_expr(&fields[at].1);
                    let idx = if behind_vtable {
                        dec_next_text(i)
                    } else {
                        dec_text(i as u128)
                    };
                    agg = self.insert_value(ty, &agg, &fty, &fval, &idx);
                },
                None => {},
            }
            i += 1;
        }
        agg
    }

    fn compile_vector(&mut self, items: &'a Vec<ExprNode>) -> (r: (String, String))
        ensures
            (final(self)@, (r.0@, r.1@)) == old(self)@.compile_vector(items@),
        decreases items@, 3nat,
    {
        if items.len() == 0 {
            (owned("zeroinitializer"), owned("<2 x double>"))
        } else {
            let (_, ty) = self.compile_expr(&items[0]);
            let vty = cat5("<", &dec_text(items.len() as u128), " x ", &ty, ">");
            let vec = self.insert_elements(items, &vty);
            (cat2("%", &vec), vty)
        }
    }

    fn insert_elements(&mut self, items: &'a Vec<ExprNode>, vty: &str) -> (r: String)
        ensures
            (final(self)@, r@) == old(self)@.insert_elements(items@, vty@),
        decreases items@, 2nat,
    {
        let ghost g = self@;
        let mut vec = cat2(vty, " undef");
        let mut i: usize = 0;
        while i < items.len()
            invariant
                i <= items@.len(),
                (self@, vec@) == g.insert_elements(items@.take(i as int), vty@),
            decreases items.len() - i,
        {
            let (val, _) = self.compile_expr(&items[i]);
            vec = self.insert_element(vty, &vec, &val, &dec_text(i as u128));
            assert(items@.take(i + 1).drop_last() == items@.take(i as int));
            i += 1;
        }
        assert(items@.take(i as int) == items@);
        vec
    }

    fn compile_matrix(&mut self, rows: &'a Vec<Vec<ExprNode>>) -> (r: (String, String))
        ensures
            (final(self)@, (r.0@, r.1@)) == old(self)@.compile_matrix(rows@),
        decreases rows@, 5nat,
    {
        if rows.len() == 0 || rows[0].len() == 0 {
            (owned("zeroinitializer"), owned("[<2 x double> x 0]"))
        } else {
            proof {
                assert(decreases_to!(rows@ => rows@[0]@));
            }
            let (_, ty) = self.compile_expr(&rows[0][0]);
            let vty = cat5("<", &dec_text(rows[0].len() as u128), " x ", &ty, ">");
            let mty = cat5("[", &vty, " x ", &dec_text(rows.len() as u128), "]");
            let mat = self.insert_rows(rows, &vty, &mty);
            (cat2("%", &mat), mty)
        }
    }

    fn insert_rows(&mut self, rows: &'a Vec<Vec<ExprNode>>, vty: &str, mty: &str) -> (r: String)
        ensures
            (final(self)@, r@) == old(self)@.insert_rows(rows@, vty@, mty@),
        decreases rows@, 4nat,
    {
        let ghost g = self@;
        let mut mat = cat2(mty, " undef");
        let mut i: usize = 0;
        while i < rows.len()
            invariant
                i <= rows@.len(),
                (self@, mat@) == g.insert_rows(rows@.take(i as int), vty@, mty@),
            decreases rows.len() - i,
        {
            proof {
                assert(decreases_to!(rows@ => rows@[i as int]@));
            }
            let row = self.insert_elements(&rows[i], vty);
            mat = self.insert_row(mty, &mat, &row, &dec_text(i as u128));
            assert(rows@.take(i + 1).drop_last() == rows@.take(i as int));
            i += 1;
        }
        assert(rows@.take(i as int) == rows@);
        mat
    }

    fn variant_args(&mut self, args: &'a Vec<ExprNode>) -> (r: (String, String))
        ensures
            (final(self)@, (r.0@, r.1@)) == old(self)@.variant_args(args@),
        decreases args@, 3nat,
    {
        if args.len() == 1 {
            self.compile_expr(&args[0])
        } else {
            self.compile_all(args);
            (owned("0"), owned("i64"))
        }
    }

    fn compile_all(&mut self, args: &'a Vec<ExprNode>)
        ensures
            final(self)@ == old(self)@.compile_all(args@),
        decreases args@, 2nat,
    {
        let ghost g = self@;
        let mut i: usize = 0;
        while i < args.len()
            invariant
                i <= args@.len(),
                self@ == g.compile_all(args@.take(i as int)),
            decreases args.len() - i,
        {
            self.compile_expr(&args[i]);
            assert(args@.take(i + 1).drop_last() == args@.take(i as int));
            i += 1;
        }
        assert(args@.take(i as int) == args@);
    }

    fn compile_args(&mut self, args: &'a Vec<ExprNode>, is_srv: bool) -> (r: Vec<(String, String)>)
        ensures
            (final(self)@, pairs(r@)) == old(self)@.compile_args(args@, is_srv),
        decreases args@, 2nat,
    {
        let ghost g = self@;
        let mut r: Vec<(String, String)> = Vec::new();
        let mut i: usize = 0;
        assert(pairs(r@) == Seq::<(Text, Text)>::empty());
        while i < args.len()
            invariant
                i <= args@.len(),
                (self@, pairs(r@)) == g.compile_args(args@.take(i as int), is_srv),
            decreases args.len() - i,
        {
            let ghost before = r@;
            let v = if is_srv && function_literal(&args[i]) {
                (owned("0"), owned("i64"))
            } else {
                self.compile_expr(&args[i])
            };
            let ghost one = (v.0@, v.1@);
            r.push(v);
            assert(pairs(r@) == pairs(before).push(one));
            assert(args@.take(i + 1).drop_last() == args@.take(i as int));
            i += 1;
        }
        assert(args@.take(i as int) == args@);
        r
    }

    fn compile_call(&mut self, expr: &'a ExprNode) -> (r: (String, String))
        ensures
            (final(self)@, (r.0@, r.1@)) == old(self)@.compile_call(*expr),
        decreases expr, 0nat,
    {
        match &expr.value {
            Expr::Call(callee, args) => {
                let vals = self.compile_args(args, server_call(callee));
                match &callee.value {
                    Expr::Ident(name) => self.call_named(name, &vals),
                    Expr::Closure(params, body) => self.call_closure(params, None, body, &vals),
                    Expr::FnLit(params, ret_type, body) => self.call_closure(
                        params,
                        ret_type.as_ref(),
                        body,
                        &vals,
                    ),
                    Expr::Field(obj, field) => match self.module_call(obj, field, &vals) {
                        Some(v) => v,
                        None => {
                            let (o_val, o_ty) = self.compile_expr(obj);
                            if same(&o_ty, "i64") && self.is_http_var(obj) && is_http_method(field) {
                                self.http_request(&o_val, field, &vals)
                            } else if same(&o_ty, "i64") && is_server_method(field) {
                                self.compile_server_method(&o_val, field, &vals, args)
                            } else {
                                self.method_call(&o_val, &o_ty, field, &vals)
                            }
                        },
                    },
                    _ => (owned("0"), owned("i64")),
                }
            },
            _ => (owned("0"), owned("i64")),
        }
    }

    fn module_call(&mut self, obj: &ExprNode, func: &str, args: &Vec<(String, String)>) -> (r: Option<
        (String, String),
    >)
        ensures
            match r {
                Some(v) => old(self)@.module_call(*obj, func@, pairs(args@)) == Some(
                    (final(self)@, (v.0@, v.1@)),
                ),
                None => old(self)@.module_call(*obj, func@, pairs(args@)) is None && final(self)@
                    == old(self)@,
            },
    {
        match &obj.value {
            Expr::Ident(name) => {
                if is_runtime_module(name) {
                    Some(self.call_runtime_module(name, func, args))
                } else if self.has_ffi_module(name) {
                    Some(self.call_ffi(name, func, args))
                } else {
                    None
                }
            },
            _ => None,
        }
    }
}

/// Taking labels gives as many as are asked for.
proof fn lemma_fresh_labels_len(g: Gen, n: nat)
    ensures
        g.fresh_labels(n).1.len() == n,
    decreases n,
{
    if n > 0 {
        lemma_fresh_labels_len(g, (n - 1) as nat);
    }
}

} // verus!
