//! Statements.

use vstd::prelude::*;

use crate::codegen::llvm::expr::{is_null_literal, null_literal};
use crate::codegen::llvm::names::{is_nullable_ty, is_union_ty, nullable, union_type};
use crate::codegen::llvm::state::{Gen, LlvmCodegen};
use crate::syntax::ast::{Expr, ExprNode, Stmt, StmtNode, TypeExpr, TypeNode};
use crate::text::{cat2, cat4, cat6, owned, same, Text};

verus! {

/// Whether an expression makes an HTTP client.
pub open spec fn is_http_constructor(expr: ExprNode) -> bool {
    match expr.value {
        Expr::Call(callee, _) => match callee.value {
            Expr::Ident(name) => name@ == "HTTP"@,
            _ => false,
        },
        _ => false,
    }
}

fn http_constructor(expr: &ExprNode) -> (r: bool)
    ensures
        r == is_http_constructor(*expr),
{
    match &expr.value {
        Expr::Call(callee, _) => match &callee.value {
            Expr::Ident(name) => same(name, "HTTP"),
            _ => false,
        },
        _ => false,
    }
}

/// The variants of a declared union type; none where the type is no union.
pub open spec fn declared_union(te: Option<TypeNode>) -> Option<Seq<TypeExpr>> {
    match te {
        Some(t) => match t.value {
            TypeExpr::Union(variants) => Some(variants@),
            _ => None,
        },
        None => None,
    }
}

/// An optional list of variants, as the model gives it.
pub open spec fn opt_union(o: Option<&Vec<TypeExpr>>) -> Option<Seq<TypeExpr>> {
    match o {
        Some(list) => Some(list@),
        None => None,
    }
}

fn union_type_of<'b>(te: &'b Option<TypeNode>) -> (r: Option<&'b Vec<TypeExpr>>)
    ensures
        opt_union(r) == declared_union(*te),
{
    match te {
        Some(t) => match &t.value {
            TypeExpr::Union(variants) => Some(variants),
            _ => None,
        },
        None => None,
    }
}

impl Gen {
    /// Stores a value into a variable of a union type, as the first variant that has its type.
    pub open spec fn store_union(
        self,
        variants: Option<Seq<TypeExpr>>,
        ty: Text,
        val: Text,
        val_ty: Text,
        ptr: Text,
    ) -> Gen {
        match variants {
            Some(list) => {
                let (g, w) = self.wrap_as_union(list, val, val_ty);
                match w {
                    Some(v) => g.e("store "@ + ty + " "@ + v + ", ptr "@ + ptr),
                    None => g,
                }
            },
            None => self,
        }
    }

    /// Declares a variable: `ty` is its declared or expected type, and an integer type gives way to
    /// the type of the value.
    pub open spec fn declare(
        self,
        name: Text,
        ty: Text,
        variants: Option<Seq<TypeExpr>>,
        val: Text,
        val_ty: Text,
        is_null: bool,
    ) -> Gen {
        let effective = if ty == "i64"@ && val_ty != "i64"@ {
            val_ty
        } else {
            ty
        };
        let (g, ptr) = self.bind_var(name, effective);
        let g = g.e(ptr + " = alloca "@ + effective + ", align 8"@);
        let g = match variants {
            Some(list) => if effective == "%yk_variant"@ {
                g.set_union(name, list)
            } else {
                g
            },
            None => g,
        };
        if nullable(effective) && !nullable(val_ty) {
            g.store_nullable(effective, val, val_ty, is_null, ptr)
        } else if union_type(effective) && !union_type(val_ty) {
            g.store_union(variants, effective, val, val_ty, ptr)
        } else {
            g.store_declared(ty, val, val_ty, ptr)
        }
    }

    /// Assigns a value to a variable, which is declared where it is new.
    pub open spec fn assign(
        self,
        name: Text,
        val: Text,
        val_ty: Text,
        is_http: bool,
        is_null: bool,
    ) -> Gen {
        let (g, ptr) = self.assigned_slot(name, val_ty);
        let g = if is_http {
            g.add_http_var(name)
        } else {
            g
        };
        let ty = g.val_ty(name);
        if nullable(ty) && !nullable(val_ty) {
            g.store_nullable(ty, val, val_ty, is_null, ptr)
        } else if union_type(ty) && !union_type(val_ty) {
            match g.union_of(name) {
                Some(variants) => g.store_union(Some(variants), ty, val, val_ty, ptr),
                None => g.e("store "@ + val_ty + " "@ + val + ", ptr "@ + ptr),
            }
        } else {
            g.store_assigned(ty, val, val_ty, ptr)
        }
    }

    /// Compiles statements, one after the other.
    pub open spec fn compile_stmts(self, stmts: Seq<StmtNode>) -> Gen
        decreases stmts, 2nat,
    {
        if stmts.len() == 0 {
            self
        } else {
            self.compile_stmts(stmts.drop_last()).compile_stmt(stmts.last())
        }
    }

    /// Compiles a return of an expression.
    pub open spec fn compile_return(self, expr: ExprNode) -> Gen
        decreases expr, 3nat,
    {
        let (g, (val, val_ty)) = self.compile_expr(expr);
        g.return_value(val, val_ty, is_null_literal(expr))
    }

    /// Compiles a statement.
    pub open spec fn compile_stmt(self, stmt: StmtNode) -> Gen
        decreases stmt, 1nat,
    {
        let g = self;
        match stmt.value {
            Stmt::Decl { name, type_expr, value, is_const } => {
                let (g, ty) = match type_expr {
                    Some(te) => g.type_to_llvm(te.value),
                    None => g.expr_type_str(value),
                };
                let (g, (val, val_ty)) = g.compile_expr(value);
                g.declare(name@, ty, declared_union(type_expr), val, val_ty, is_null_literal(value))
            },
            Stmt::Assign(name, expr) => {
                let (g, (val, val_ty)) = g.compile_expr(expr);
                g.assign(name@, val, val_ty, is_http_constructor(expr), is_null_literal(expr))
            },
            Stmt::Expr(e) => g.compile_expr(e).0,
            Stmt::Return(Some(ex)) => g.compile_return(ex),
            Stmt::Return(None) => g.e("ret void"@),
            Stmt::If(_, _, _) => g.compile_if_stmt(stmt),
            Stmt::While(_, _) => g.compile_while(stmt),
            Stmt::For(_, _, _, _) => g.compile_for(stmt),
            Stmt::Loop(body) => {
                let (g, loop_label) = g.fresh_label();
                let g = g.e("br label %"@ + loop_label);
                let depth = g.depth();
                let g = g.begin_block(loop_label);
                let g = g.compile_stmts(body@);
                g.end_block(loop_label, depth)
            },
            Stmt::Destruct(_, expr) => g.compile_expr(expr).0,
        }
    }

    /// Compiles a condition.
    pub open spec fn compile_if_stmt(self, stmt: StmtNode) -> Gen
        decreases stmt, 0nat,
    {
        match stmt.value {
            Stmt::If(cond, then_body, else_body) => {
                let (g, then_label) = self.fresh_label();
                let (g, else_label) = g.fresh_label();
                let (g, merge_label) = g.fresh_label();
                let (g, (cond_val, _)) = g.compile_expr(cond);
                let g = g.test_arm(cond_val, then_label, else_label);
                let depth = g.depth();
                let g = g.begin_block(then_label);
                let g = g.compile_stmts(then_body@);
                let g = g.end_block(merge_label, depth);
                let g = g.begin_block(else_label);
                let g = match else_body {
                    Some(eb) => g.compile_stmts(eb@),
                    None => g,
                };
                let g = g.end_block(merge_label, depth);
                g.e_raw(merge_label + ":"@)
            },
            _ => self,
        }
    }

    /// Compiles a loop with a condition.
    pub open spec fn compile_while(self, stmt: StmtNode) -> Gen
        decreases stmt, 0nat,
    {
        match stmt.value {
            Stmt::While(cond, body) => {
                let (g, head_label) = self.fresh_label();
                let (g, body_label) = g.fresh_label();
                let (g, exit_label) = g.fresh_label();
                let g = g.e("br label %"@ + head_label);
                let g = g.e_raw(head_label + ":"@);
                let (g, (cond_val, _)) = g.compile_expr(cond);
                let g = g.test_arm(cond_val, body_label, exit_label);
                let depth = g.depth();
                let g = g.begin_block(body_label);
                let g = g.compile_stmts(body@);
                let g = g.end_block(head_label, depth);
                g.e_raw(exit_label + ":"@)
            },
            _ => self,
        }
    }

    /// Compiles a loop over the bytes of a string, or over a range of integers.
    pub open spec fn compile_for(self, stmt: StmtNode) -> Gen
        decreases stmt, 0nat,
    {
        match stmt.value {
            Stmt::For(var, iter, body, _) => {
                let (g, iter_ty) = self.expr_type_str(iter);
                if iter_ty == "%yk_string"@ {
                    let (g, (str_val, _)) = g.compile_expr(iter);
                    let (g, head_label) = g.fresh_label();
                    let (g, body_label) = g.fresh_label();
                    let (g, exit_label) = g.fresh_label();
                    let idx_name = var@ + "_idx"@;
                    let (g, idx_ptr) = g.declare_index(idx_name);
                    let (g, idx_val) = g.string_loop_head(
                        str_val,
                        idx_name,
                        idx_ptr,
                        head_label,
                        body_label,
                        exit_label,
                    );
                    let depth = g.depth();
                    let g = g.begin_block(body_label);
                    let g = g.bind_byte(var@, str_val, idx_val);
                    let g = g.compile_stmts(body@);
                    let g = g.step_index(idx_val, idx_ptr);
                    let g = g.end_block(head_label, depth);
                    g.e_raw(exit_label + ":"@)
                } else {
                    let (g, init_label) = g.fresh_label();
                    let (g, cond_label) = g.fresh_label();
                    let (g, body_label) = g.fresh_label();
                    let (g, exit_label) = g.fresh_label();
                    let (g, (end_val, _)) = g.compile_expr(iter);
                    let g = g.e("br label %"@ + init_label);
                    let g = g.e_raw(init_label + ":"@);
                    let (g, ptr) = g.declare_index(var@);
                    let (g, v) = g.range_loop_head(
                        var@,
                        ptr,
                        end_val,
                        cond_label,
                        body_label,
                        exit_label,
                    );
                    let depth = g.depth();
                    let g = g.begin_block(body_label);
                    let g = g.compile_stmts(body@);
                    let g = g.step_index(v, ptr);
                    let g = g.end_block(cond_label, depth);
                    g.e_raw(exit_label + ":"@)
                }
            },
            _ => self,
        }
    }
}

impl<'a> LlvmCodegen<'a> {
    fn store_union(
        &mut self,
        variants: Option<&'a Vec<TypeExpr>>,
        ty: &str,
        val: &str,
        val_ty: &str,
        ptr: &str,
    )
        ensures
            final(self)@ == old(self)@.store_union(opt_union(variants), ty@, val@, val_ty@, ptr@),
    {
        match variants {
            Some(list) => match self.wrap_as_union(list, val, val_ty) {
                Some(v) => self.e(&cat6("store ", ty, " ", &v, ", ptr ", ptr)),
                None => {},
            },
            None => {},
        }
    }

    fn declare(
        &mut self,
        name: &str,
        ty: &str,
        variants: Option<&'a Vec<TypeExpr>>,
        val: &str,
        val_ty: &str,
        is_null: bool,
    )
        ensures
            final(self)@ == old(self)@.declare(
                name@,
                ty@,
                opt_union(variants),
                val@,
                val_ty@,
                is_null,
            ),
    {
        let effective = if same(ty, "i64") && !same(val_ty, "i64") {
            owned(val_ty)
        } else {
            owned(ty)
        };
        let ptr = self.bind_var(name, &effective);
        self.e(&cat4(&ptr, " = alloca ", &effective, ", align 8"));
        match variants {
            Some(list) => {
                if same(&effective, "%yk_variant") {
                    self.set_union(name, list);
                }
            },
            None => {},
        }
        if is_nullable_ty(&effective) && !is_nullable_ty(val_ty) {
            self.store_nullable(&effective, val, val_ty, is_null, &ptr);
        } else if is_union_ty(&effective) && !is_union_ty(val_ty) {
            self.store_union(variants, &effective, val, val_ty, &ptr);
        } else {
            self.store_declared(ty, val, val_ty, &ptr);
        }
    }

    fn assign(&mut self, name: &str, val: &str, val_ty: &str, is_http: bool, is_null: bool)
        ensures
            final(self)@ == old(self)@.assign(name@, val@, val_ty@, is_http, is_null),
    {
        let ptr = self.assigned_slot(name, val_ty);
        if is_http {
            self.add_http_var(name);
        }
        let ty = self.val_ty(name);
        if is_nullable_ty(&ty) && !is_nullable_ty(val_ty) {
            self.store_nullable(&ty, val, val_ty, is_null, &ptr);
        } else if is_union_ty(&ty) && !is_union_ty(val_ty) {
            match self.union_of(name) {
                Some(variants) => self.store_union(Some(variants), &ty, val, val_ty, &ptr),
                None => self.e(&cat6("store ", val_ty, " ", val, ", ptr ", &ptr)),
            }
        } else {
            self.store_assigned(&ty, val, val_ty, &ptr);
        }
    }

    pub(crate) fn compile_stmts(&mut self, stmts: &'a Vec<StmtNode>)
        ensures
            final(self)@ == old(self)@.compile_stmts(stmts@),
        decreases stmts@, 2nat,
    {
        let ghost g = self@;
        let mut i: usize = 0;
        while i < stmts.len()
            invariant
                i <= stmts@.len(),
                self@ == g.compile_stmts(stmts@.take(i as int)),
            decreases stmts.len() - i,
        {
            self.compile_stmt(&stmts[i]);
            assert(stmts@.take(i + 1).drop_last() == stmts@.take(i as int));
            i += 1;
        }
        assert(stmts@.take(i as int) == stmts@);
    }

    pub(crate) fn compile_return(&mut self, expr: &'a ExprNode)
        ensures
            final(self)@ == old(self)@.compile_return(*expr),
        decreases expr, 3nat,
    {
        let (val, val_ty) = self.compile_expr(expr);
        let is_null = null_literal(expr);
        self.return_value(&val, &val_ty, is_null);
    }

    pub(crate) fn compile_stmt(&mut self, stmt: &'a StmtNode)
        ensures
            final(self)@ == old(self)@.compile_stmt(*stmt),
        decreases stmt, 1nat,
    {
        match &stmt.value {
            Stmt::Decl { name, type_expr, value, is_const: _ } => {
                let ty = match type_expr {
                    Some(te) => self.type_to_llvm(&te.value),
                    None => self.expr_type_str(value),
                };
                let (val, val_ty) = self.compile_expr(value);
                let variants = union_type_of(type_expr);
                let is_null = null_literal(value);
                self.declare(name, &ty, variants, &val, &val_ty, is_null);
            },
            Stmt::Assign(name, expr) => {
                let (val, val_ty) = self.compile_expr(expr);
                let is_http = http_constructor(expr);
                let is_null = null_literal(expr);
                self.assign(name, &val, &val_ty, is_http, is_null);
            },
            Stmt::Expr(e) => {
                self.compile_expr(e);
            },
            Stmt::Return(Some(ex)) => self.compile_return(ex),
            Stmt::Return(None) => self.e("ret void"),
            Stmt::If(_, _, _) => self.compile_if_stmt(stmt),
            Stmt::While(_, _) => self.compile_while(stmt),
            Stmt::For(_, _, _, _) => self.compile_for(stmt),
            Stmt::Loop(body) => {
                let loop_label = self.fresh_label();
                self.e(&cat2("br label %", &loop_label));
                let depth = self.depth();
                self.begin_block(&loop_label);
                self.compile_stmts(body);
                self.end_block(&loop_label, depth);
            },
            Stmt::Destruct(_, expr) => {
                self.compile_expr(expr);
            },
        }
    }

    fn compile_if_stmt(&mut self, stmt: &'a StmtNode)
        ensures
            final(self)@ == old(self)@.compile_if_stmt(*stmt),
        decreases stmt, 0nat,
    {
        match &stmt.value {
            Stmt::If(cond, then_body, else_body) => {
                let then_label = self.fresh_label();
                let else_label = self.fresh_label();
                let merge_label = self.fresh_label();
                let (cond_val, _) = self.compile_expr(cond);
                self.test_arm(&cond_val, &then_label, &else_label);
                let depth = self.depth();
                self.begin_block(&then_label);
                self.compile_stmts(then_body);
                self.end_block(&merge_label, depth);
                self.begin_block(&else_label);
                match else_body {
                    Some(eb) => self.compile_stmts(eb),
                    None => {},
                }
                self.end_block(&merge_label, depth);
                self.e_raw(&cat2(&merge_label, ":"));
            },
            _ => {},
        }
    }

    fn compile_while(&mut self, stmt: &'a StmtNode)
        ensures
            final(self)@ == old(self)@.compile_while(*stmt),
        decreases stmt, 0nat,
    {
        match &stmt.value {
            Stmt::While(cond, body) => {
                let head_label = self.fresh_label();
                let body_label = self.fresh_label();
                let exit_label = self.fresh_label();
                self.e(&cat2("br label %", &head_label));
                self.e_raw(&cat2(&head_label, ":"));
                let (cond_val, _) = self.compile_expr(cond);
                self.test_arm(&cond_val, &body_label, &exit_label);
                let depth = self.depth();
                self.begin_block(&body_label);
                self.compile_stmts(body);
                self.end_block(&head_label, depth);
                self.e_raw(&cat2(&exit_label, ":"));
            },
            _ => {},
        }
    }

    fn compile_for(&mut self, stmt: &'a StmtNode)
        ensures
            final(self)@ == old(self)@.compile_for(*stmt),
        decreases stmt, 0nat,
    {
        match &stmt.value {
            Stmt::For(var, iter, body, _) => {
                let iter_ty = self.expr_type_str(iter);
                if same(&iter_ty, "%yk_string") {
                    let (str_val, _) = self.compile_expr(iter);
                    let head_label = self.fresh_label();
                    let body_label = self.fresh_label();
                    let exit_label = self.fresh_label();
                    let idx_name = cat2(var, "_idx");
                    let idx_ptr = self.declare_index(&idx_name);
                    let idx_val = self.string_loop_head(
                        &str_val,
                        &idx_name,
                        &idx_ptr,
                        &head_label,
                        &body_label,
                        &exit_label,
                    );
                    let depth = self.depth();
                    self.begin_block(&body_label);
                    self.bind_byte(var, &str_val, &idx_val);
                    self.compile_stmts(body);
                    self.step_index(&idx_val, &idx_ptr);
                    self.end_block(&head_label, depth);
                    self.e_raw(&cat2(&exit_label, ":"));
                } else {
                    let init_label = self.fresh_label();
                    let cond_label = self.fresh_label();
                    let body_label = self.fresh_label();
                    let exit_label = self.fresh_label();
                    let (end_val, _) = self.compile_expr(iter);
                    self.e(&cat2("br label %", &init_label));
                    self.e_raw(&cat2(&init_label, ":"));
                    let ptr = self.declare_index(var);
                    let v = self.range_loop_head(
                        var,
                        &ptr,
                        &end_val,
                        &cond_label,
                        &body_label,
                        &exit_label,
                    );
                    let depth = self.depth();
                    self.begin_block(&body_label);
                    self.compile_stmts(body);
                    self.step_index(&v, &ptr);
                    self.end_block(&cond_label, depth);
                    self.e_raw(&cat2(&exit_label, ":"));
                }
            },
            _ => {},
        }
    }
}

} // verus!
