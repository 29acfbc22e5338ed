//! The C back end: a module becomes the text of a C program.

use vstd::prelude::*;

use crate::codegen::llvm::expr::{real_string, real_text};
use crate::codegen::llvm::handler::{bool_string, bool_text};
use crate::scan::{join, joined, opt_text, replace_char, replaced, texts};
use crate::syntax::ast::{
    BinOp, Expr, ExprNode, ItemKind, ItemNode, Module, Param, Stmt, StmtNode, TypeExpr, TypeNode,
    UnOp,
};
use crate::table::{has, lookup, lookup_or, Pairs, put, Table};
use crate::text::{
    bump, bumped, cat11, cat2, cat3, cat4, cat5, cat6, cat7, dec, dec_text, int_dec, int_text,
    owned, repeat_text, repeated, same, Text,
};

pub mod laws;
pub mod meaning;
pub mod running;

verus! {

/// What every program begins with: the headers, strings, and printing.
pub const RUNTIME_C: &'static str = r##"
#include <stdint.h>
#include <stdbool.h>
#include <stddef.h>
#include <stdlib.h>
#include <stdio.h>
#include <string.h>

typedef struct { char* data; int64_t len; } yk_string;

yk_string yk_string_make(const char* s) {
    int64_t len = (int64_t)strlen(s);
    char* data = (char*)malloc(len + 1);
    memcpy(data, s, len + 1);
    return (yk_string){data, len};
}

yk_string yk_string_from_int(int64_t v) {
    char buf[64];
    int n = snprintf(buf, sizeof(buf), "%lld", (long long)v);
    char* data = (char*)malloc(n + 1);
    memcpy(data, buf, n + 1);
    return (yk_string){data, n};
}

yk_string yk_string_concat(yk_string a, yk_string b) {
    char* data = (char*)malloc(a.len + b.len + 1);
    memcpy(data, a.data, a.len);
    memcpy(data + a.len, b.data, b.len);
    data[a.len + b.len] = '\0';
    return (yk_string){data, a.len + b.len};
}

int64_t yk_string_len(yk_string s) { return s.len; }

void yk_print_int(int64_t v) { printf("%lld\n", (long long)v); }
void yk_print_real(double v) { printf("%g\n", v); }
void yk_print_bool(bool v) { printf("%s\n", v ? "true" : "false"); }
void yk_print_str(yk_string s) { printf("%.*s\n", (int)s.len, s.data); }

#define yk_print_val(v) _Generic((v), \
    int64_t: yk_print_int, \
    double: yk_print_real, \
    bool: yk_print_bool, \
    yk_string: yk_print_str \
)(v)
"##;

// ---------------------------------------------------------------------------------------------
// The model
// ---------------------------------------------------------------------------------------------
/// The state of the generator.
pub struct CGen {
    /// The program text written so far.
    pub output: Text,
    /// How deep the next line is indented.
    pub indent: nat,
    /// The C type of each variable.
    pub var_types: Seq<(Text, Text)>,
    /// The fields of each struct, with their types.
    pub struct_defs: Seq<(Text, Seq<(Text, Text)>)>,
    /// The name of the tuple type for each list of element types.
    pub tuple_type_names: Seq<(Text, Text)>,
    /// The number of the next tuple type.
    pub tuple_counter: nat,
    /// The number of the next label.
    pub next_label: nat,
}

/// The state before anything is generated.
pub open spec fn fresh_c_gen() -> CGen {
    CGen {
        output: ""@,
        indent: 0,
        var_types: seq![],
        struct_defs: seq![],
        tuple_type_names: seq![],
        tuple_counter: 0,
        next_label: 0,
    }
}

/// The contents of a string literal.
pub open spec fn c_string(s: Text) -> Text {
    let s = replaced(s, '\\', "\\\\"@);
    let s = replaced(s, '"', "\\\""@);
    let s = replaced(s, '\n', "\\n"@);
    let s = replaced(s, '\r', "\\r"@);
    replaced(s, '\t', "\\t"@)
}

/// The members of a struct: each type with its name.
pub open spec fn c_members(fields: Seq<(Text, Text)>) -> Seq<Text> {
    fields.map_values(|f: (Text, Text)| f.1 + " "@ + f.0 + ";"@)
}

/// The members of a tuple.
pub open spec fn tuple_members(types: Seq<Text>) -> Seq<Text> {
    Seq::new(types.len(), |i: int| types[i] + " f"@ + dec(i as nat) + ";"@)
}

/// A call of the printing function for each of the arguments.
pub open spec fn print_calls(codes: Seq<Text>) -> Text
    decreases codes.len(),
{
    if codes.len() == 0 {
        ""@
    } else {
        print_calls(codes.drop_last()) + ("yk_print_val("@ + codes.last() + ")"@)
    }
}

/// The operator of C for a binary operator; none where C has none for it.
pub open spec fn c_operator(op: BinOp) -> Option<Text> {
    match op {
        BinOp::Add => Some("+"@),
        BinOp::Sub => Some("-"@),
        BinOp::Mul => Some("*"@),
        BinOp::Div => Some("/"@),
        BinOp::Eq => Some("=="@),
        BinOp::Ne => Some("!="@),
        BinOp::Lt => Some("<"@),
        BinOp::Gt => Some(">"@),
        BinOp::Le => Some("<="@),
        BinOp::Ge => Some(">="@),
        BinOp::And => Some("&&"@),
        BinOp::Or => Some("||"@),
        BinOp::Assign => Some("="@),
        _ => None,
    }
}

impl CGen {
    /// Writes a line at the current depth.
    #[verifier::opaque]
    pub open spec fn emit(self, s: Text) -> CGen {
        CGen { output: self.output + (repeated("    "@, self.indent) + s + "\n"@), ..self }
    }

    /// Writes a line at the left margin.
    #[verifier::opaque]
    pub open spec fn emit_raw(self, s: Text) -> CGen {
        CGen { output: self.output + (s + "\n"@), ..self }
    }

    /// Goes to the depth `n`.
    #[verifier::opaque]
    pub open spec fn set_indent(self, n: nat) -> CGen {
        CGen { indent: n, ..self }
    }

    /// One level deeper than the current depth.
    pub open spec fn deeper(self) -> nat {
        bumped(self.indent)
    }

    /// Puts other text in place of what is written.
    #[verifier::opaque]
    pub open spec fn set_output(self, s: Text) -> CGen {
        CGen { output: s, ..self }
    }

    /// Gives a variable its type.
    #[verifier::opaque]
    pub open spec fn set_var_type(self, name: Text, ty: Text) -> CGen {
        CGen { var_types: put(self.var_types, name, ty), ..self }
    }

    /// Defines a struct.
    #[verifier::opaque]
    pub open spec fn define_struct(self, name: Text, fields: Seq<(Text, Text)>) -> CGen {
        CGen { struct_defs: put(self.struct_defs, name, fields), ..self }
    }

    /// Takes the next label.
    #[verifier::opaque]
    pub open spec fn fresh_label(self) -> (CGen, Text) {
        (CGen { next_label: bumped(self.next_label), ..self }, dec(self.next_label))
    }

    /// Names the tuple type of a list of element types.
    #[verifier::opaque]
    pub open spec fn new_tuple(self, sig: Text) -> (CGen, Text) {
        let name = "__yk_t"@ + dec(self.tuple_counter);
        (
            CGen {
                tuple_counter: bumped(self.tuple_counter),
                tuple_type_names: put(self.tuple_type_names, sig, name),
                ..self
            },
            name,
        )
    }

    /// The C type of a type.
    pub open spec fn type_to_c(self, te: TypeExpr) -> Text {
        match te {
            TypeExpr::Int(_) => "int64_t"@,
            TypeExpr::Rint(_) => "int64_t"@,
            TypeExpr::Real(_) => "double"@,
            TypeExpr::Bool => "bool"@,
            TypeExpr::Str => "yk_string"@,
            TypeExpr::Named(name) => if has(self.struct_defs, name@) {
                name@
            } else {
                "int64_t"@
            },
            _ => "int64_t"@,
        }
    }

    /// The tuple type of a list of element types, which is defined where it is new.
    pub open spec fn get_or_create_tuple_type(self, types: Seq<Text>) -> (CGen, Text) {
        let sig = joined(types, "_"@);
        match lookup(self.tuple_type_names, sig) {
            Some(name) => (self, name),
            None => {
                let (g, name) = self.new_tuple(sig);
                let g = g.emit_raw(
                    "typedef struct { "@ + joined(tuple_members(types), " "@) + " } "@ + name + ";"@,
                );
                (g, name)
            },
        }
    }

    /// The C type of an expression.
    pub open spec fn expr_type(self, expr: ExprNode) -> (CGen, Text)
        decreases expr, 0nat,
    {
        match expr.value {
            Expr::LitInt(_) => (self, "int64_t"@),
            Expr::LitHex(_) => (self, "int64_t"@),
            Expr::LitReal(_) => (self, "double"@),
            Expr::LitBool(_) => (self, "bool"@),
            Expr::LitStr(_) => (self, "yk_string"@),
            Expr::LitSymbol(_) => (self, "yk_string"@),
            Expr::Ident(name) => (self, lookup_or(self.var_types, name@, "int64_t"@)),
            Expr::StructLit(name, _) => (self, name@),
            Expr::TupleLit(items) => {
                let (g, types) = self.expr_types(items@);
                g.get_or_create_tuple_type(types)
            },
            _ => (self, "int64_t"@),
        }
    }

    /// The C types of expressions.
    pub open spec fn expr_types(self, items: Seq<ExprNode>) -> (CGen, Seq<Text>)
        decreases items, 1nat,
    {
        if items.len() == 0 {
            (self, seq![])
        } else {
            let (g, list) = self.expr_types(items.drop_last());
            let (g, t) = g.expr_type(items.last());
            (g, list.push(t))
        }
    }

    /// Compiles an expression; definitions that it needs are written.
    pub open spec fn compile_expr(self, expr: ExprNode) -> (CGen, Text)
        decreases expr, 1nat,
    {
        let g = self;
        match expr.value {
            Expr::LitInt(n) => (g, int_dec(n as int)),
            Expr::LitHex(n) => (g, "(int64_t)0x"@ + int_dec(n as int)),
            Expr::LitReal(n) => (g, real_text(n.shown@)),
            Expr::LitBool(b) => (g, bool_text(b)),
            Expr::LitStr(s) => (g, "yk_string_make(\""@ + c_string(s@) + "\")"@),
            Expr::LitChar(c) => (g, "(int64_t)"@ + int_dec(c as int)),
            Expr::LitSymbol(s) => (g, "yk_string_make(\":"@ + c_string(s@) + "\")"@),
            Expr::Ident(name) => (g, name@),
            Expr::BinOp(l, op, r) => {
                let (g, lt) = g.expr_type(*l);
                let (g, lc) = g.compile_expr(*l);
                let (g, rc) = g.compile_expr(*r);
                (g, binop_code(op, lt, lc, rc))
            },
            Expr::UnOp(op, inner) => {
                let (g, i) = g.compile_expr(*inner);
                (g, unop_code(op, i))
            },
            Expr::Call(_, _) => g.compile_call(expr),
            Expr::Field(obj, field) => {
                let (g, o) = g.compile_expr(*obj);
                (g, "("@ + o + "."@ + field@ + ")"@)
            },
            Expr::Index(obj, index) => {
                let (g, o) = g.compile_expr(*obj);
                let (g, i) = g.compile_expr(*index);
                (g, "("@ + o + "["@ + i + "])"@)
            },
            Expr::Range(_, r) => {
                let (g, rc) = g.compile_expr(*r);
                (g, "("@ + rc + ")"@)
            },
            Expr::Block(stmts) => {
                let (g, lbl) = g.fresh_label();
                let depth = g.indent;
                let g = g.set_indent(0);
                let start = "({\nint64_t yk_block_"@ + lbl + "_ret = 0;\n"@;
                let (g, code) = g.compile_block(stmts@, lbl, start);
                let g = g.set_indent(depth);
                (g, code + "yk_block_"@ + lbl + "_end:;\nyk_block_"@ + lbl + "_ret;\n})"@)
            },
            Expr::AsConst(inner) => g.compile_expr(*inner),
            Expr::If(_, _, _) => g.compile_if_expr(expr),
            Expr::ListLit(items) => {
                let (g, codes) = g.compile_exprs(items@);
                if items@.len() == 0 {
                    (g, "0"@)
                } else if items@.len() == 1 {
                    (g, codes[0])
                } else {
                    (g, "("@ + joined(codes, ", "@) + ")"@)
                }
            },
            Expr::StructLit(name, fields) => {
                let (g, codes) = g.compile_fields(fields@);
                (g, "("@ + name@ + "){ "@ + joined(codes, ", "@) + " }"@)
            },
            Expr::TupleLit(items) => {
                let (g, types) = g.expr_types(items@);
                let (g, ty) = g.get_or_create_tuple_type(types);
                let (g, codes) = g.compile_exprs(items@);
                (g, "("@ + ty + "){ "@ + joined(codes, ", "@) + " }"@)
            },
            Expr::MapLit(items) => {
                let (g, codes) = g.compile_pairs(items@);
                if items@.len() == 0 {
                    (g, "0"@)
                } else {
                    (g, "("@ + joined(codes, ", "@) + ")"@)
                }
            },
            Expr::SetLit(items) => {
                let (g, codes) = g.compile_exprs(items@);
                if items@.len() == 0 {
                    (g, "0"@)
                } else {
                    (g, "("@ + joined(codes, ", "@) + ")"@)
                }
            },
            Expr::FnLit(_, _, inner) => g.compile_expr(*inner),
            Expr::Await(inner) => g.compile_expr(*inner),
            Expr::Spawn(inner) => g.compile_expr(*inner),
            Expr::ResultOk(inner) => g.compile_expr(*inner),
            Expr::ResultErr(inner) => g.compile_expr(*inner),
            _ => (g, "0"@),
        }
    }

    /// Compiles a condition with two values.
    pub open spec fn compile_if_expr(self, expr: ExprNode) -> (CGen, Text)
        decreases expr, 0nat,
    {
        match expr.value {
            Expr::If(cond, then_e, else_e) => {
                let (g, c) = self.compile_expr(*cond);
                let (g, t) = g.compile_expr(*then_e);
                let (g, e) = match else_e {
                    Some(ex) => g.compile_expr(*ex),
                    None => (g, "0"@),
                };
                (g, "("@ + c + " ? "@ + t + " : "@ + e + ")"@)
            },
            _ => (self, "0"@),
        }
    }

    /// Compiles expressions.
    pub open spec fn compile_exprs(self, items: Seq<ExprNode>) -> (CGen, Seq<Text>)
        decreases items, 2nat,
    {
        if items.len() == 0 {
            (self, seq![])
        } else {
            let (g, list) = self.compile_exprs(items.drop_last());
            let (g, c) = g.compile_expr(items.last());
            (g, list.push(c))
        }
    }

    /// Compiles the keys and the values of a map, in turn.
    pub open spec fn compile_pairs(self, items: Seq<(ExprNode, ExprNode)>) -> (CGen, Seq<Text>)
        decreases items, 2nat,
    {
        if items.len() == 0 {
            (self, seq![])
        } else {
            let (g, list) = self.compile_pairs(items.drop_last());
            let (g, k) = g.compile_expr(items.last().0);
            let (g, v) = g.compile_expr(items.last().1);
            (g, list.push(k).push(v))
        }
    }

    /// Compiles the fields of a struct literal.
    pub open spec fn compile_fields(self, fields: Seq<(String, ExprNode)>) -> (CGen, Seq<Text>)
        decreases fields, 2nat,
    {
        if fields.len() == 0 {
            (self, seq![])
        } else {
            let (g, list) = self.compile_fields(fields.drop_last());
            let (g, c) = g.compile_expr(fields.last().1);
            (g, list.push("."@ + fields.last().0@ + " = "@ + c))
        }
    }

    /// Compiles the statements of a block expression behind the code `start`.
    pub open spec fn compile_block(self, stmts: Seq<StmtNode>, lbl: Text, start: Text) -> (CGen, Text)
        decreases stmts, 2nat,
    {
        if stmts.len() == 0 {
            (self, start)
        } else {
            let (g, code) = self.compile_block(stmts.drop_last(), lbl, start);
            match stmts.last().value {
                Stmt::Return(Some(ex)) => {
                    let (g, c) = g.compile_expr(ex);
                    (g, code + block_return(lbl, c))
                },
                Stmt::Return(None) => (g, code + block_return(lbl, "0"@)),
                _ => {
                    let written = g.output;
                    let g = g.set_output(""@).compile_stmt(stmts.last());
                    (g.set_output(written), code + g.output)
                },
            }
        }
    }

    /// Compiles a call.
    pub open spec fn compile_call(self, expr: ExprNode) -> (CGen, Text)
        decreases expr, 0nat,
    {
        match expr.value {
            Expr::Call(callee, args) => {
                let (g, codes) = self.compile_exprs(args@);
                match callee.value {
                    Expr::Ident(name) => if name@ == "print"@ || name@ == "println"@ {
                        if args@.len() == 0 {
                            (g, "printf(\"\\n\")"@)
                        } else {
                            (g, print_calls(codes))
                        }
                    } else if name@ == "len"@ {
                        if args@.len() == 0 {
                            (g, "0"@)
                        } else {
                            let (g, t) = g.expr_type(args@[0]);
                            if t == "yk_string"@ {
                                (g, "yk_string_len("@ + codes[0] + ")"@)
                            } else {
                                (g, "(int64_t)"@ + codes[0])
                            }
                        }
                    } else {
                        (g, name@ + "("@ + joined(codes, ", "@) + ")"@)
                    },
                    Expr::Field(obj, field) => {
                        let (g, o) = g.compile_expr(*obj);
                        (g, "("@ + o + "."@ + field@ + ")"@)
                    },
                    _ => (g, "0"@),
                }
            },
            _ => (self, "0"@),
        }
    }

    /// Compiles statements, one after the other.
    pub open spec fn compile_stmts(self, stmts: Seq<StmtNode>) -> CGen
        decreases stmts, 2nat,
    {
        if stmts.len() == 0 {
            self
        } else {
            self.compile_stmts(stmts.drop_last()).compile_stmt(stmts.last())
        }
    }

    /// Compiles a statement.
    pub open spec fn compile_stmt(self, stmt: StmtNode) -> CGen
        decreases stmt, 1nat,
    {
        let g = self;
        match stmt.value {
            Stmt::Decl { name, type_expr, value, is_const } => {
                let (g, ty) = match type_expr {
                    Some(te) => (g, g.type_to_c(te.value)),
                    None => g.expr_type(value),
                };
                let g = g.set_var_type(name@, ty);
                let (g, val) = g.compile_expr(value);
                g.emit(ty + " "@ + name@ + " = "@ + val + ";"@)
            },
            Stmt::Assign(name, expr) => {
                let (g, val) = g.compile_expr(expr);
                g.emit(name@ + " = "@ + val + ";"@)
            },
            Stmt::Expr(e) => {
                let (g, code) = g.compile_expr(e);
                if code != ""@ && code != "0"@ {
                    g.emit(code + ";"@)
                } else {
                    g
                }
            },
            Stmt::Return(Some(ex)) => {
                let (g, val) = g.compile_expr(ex);
                g.emit("return "@ + val + ";"@)
            },
            Stmt::Return(None) => g.emit("return;"@),
            Stmt::If(_, _, _) => g.compile_if_stmt(stmt),
            Stmt::While(_, _) => g.compile_while(stmt),
            Stmt::For(_, _, _, _) => g.compile_for(stmt),
            Stmt::Loop(body) => {
                let g = g.emit("for (;;) {"@);
                let depth = g.indent;
                let g = g.set_indent(g.deeper());
                let g = g.compile_stmts(body@);
                let g = g.set_indent(depth);
                g.emit("}"@)
            },
            Stmt::Destruct(_, expr) => {
                let (g, val) = g.compile_expr(expr);
                g.emit("(void)"@ + val + ";"@)
            },
        }
    }

    /// Compiles a condition.
    pub open spec fn compile_if_stmt(self, stmt: StmtNode) -> CGen
        decreases stmt, 0nat,
    {
        match stmt.value {
            Stmt::If(cond, then_body, else_body) => {
                let (g, c) = self.compile_expr(cond);
                let g = g.emit("if ("@ + c + ") {"@);
                let depth = g.indent;
                let g = g.set_indent(g.deeper());
                let g = g.compile_stmts(then_body@);
                let g = g.set_indent(depth);
                match else_body {
                    Some(eb) => if eb@.len() == 0 {
                        g.emit("}"@)
                    } else {
                        let g = g.emit("} else {"@);
                        let g = g.set_indent(g.deeper());
                        let g = g.compile_stmts(eb@);
                        let g = g.set_indent(depth);
                        g.emit("}"@)
                    },
                    None => g.emit("}"@),
                }
            },
            _ => self,
        }
    }

    /// Compiles a loop with a condition.
    pub open spec fn compile_while(self, stmt: StmtNode) -> CGen
        decreases stmt, 0nat,
    {
        match stmt.value {
            Stmt::While(cond, body) => {
                let (g, c) = self.compile_expr(cond);
                let g = g.emit("while ("@ + c + ") {"@);
                let depth = g.indent;
                let g = g.set_indent(g.deeper());
                let g = g.compile_stmts(body@);
                let g = g.set_indent(depth);
                g.emit("}"@)
            },
            _ => self,
        }
    }

    /// The bounds of a loop: those of a range; anything else is both, and the loop is empty.
    pub open spec fn compile_bounds(self, iter: ExprNode) -> (CGen, (Text, Text))
        decreases iter, 2nat,
    {
        match iter.value {
            Expr::Range(l, r) => {
                let (g, from) = self.compile_expr(*l);
                let (g, to) = g.compile_expr(*r);
                (g, (from, to))
            },
            _ => {
                let (g, c) = self.compile_expr(iter);
                (g, (c, c))
            },
        }
    }

    /// Compiles a loop over a range: its variable goes from the lower bound to below the upper one.
    pub open spec fn compile_for(self, stmt: StmtNode) -> CGen
        decreases stmt, 0nat,
    {
        match stmt.value {
            Stmt::For(var, iter, body, _) => {
                let (g, lbl) = self.fresh_label();
                let g = g.set_var_type(var@, "int64_t"@);
                let (g, (from, to)) = g.compile_bounds(iter);
                let g = g.emit("{"@);
                let outer = g.indent;
                let g = g.set_indent(g.deeper());
                let g = g.emit("int64_t yk_start_"@ + lbl + " = "@ + from + ";"@);
                let g = g.emit("int64_t yk_end_"@ + lbl + " = "@ + to + ";"@);
                let g = g.emit(
                    "for (int64_t "@ + var@ + " = yk_start_"@ + lbl + "; "@ + var@ + " < yk_end_"@ + lbl
                        + "; "@ + var@ + "++) {"@,
                );
                let inner = g.indent;
                let g = g.set_indent(g.deeper());
                let g = g.compile_stmts(body@);
                let g = g.set_indent(inner);
                let g = g.emit("}"@);
                let g = g.set_indent(outer);
                g.emit("}"@)
            },
            _ => self,
        }
    }

    /// The fields of a struct with their C types.
    pub open spec fn field_types(self, fields: Seq<Param>) -> Seq<(Text, Text)> {
        fields.map_values(|p: Param| (p.name@, self.type_to_c(p.type_expr.value)))
    }

    /// The parameters of a function, each type with its name.
    pub open spec fn param_decls(self, params: Seq<Param>) -> Seq<Text> {
        params.map_values(|p: Param| self.type_to_c(p.type_expr.value) + " "@ + p.name@)
    }

    /// Gives the parameters their types.
    pub open spec fn bind_params(self, params: Seq<Param>) -> CGen
        decreases params.len(),
    {
        if params.len() == 0 {
            self
        } else {
            let g = self.bind_params(params.drop_last());
            g.set_var_type(params.last().name@, g.type_to_c(params.last().type_expr.value))
        }
    }

    /// Compiles a function.
    pub open spec fn compile_fn(
        self,
        name: Text,
        params: Seq<Param>,
        ret_type: Option<TypeNode>,
        body: Seq<StmtNode>,
    ) -> CGen {
        let ret = match ret_type {
            Some(t) => self.type_to_c(t.value),
            None => "void"@,
        };
        let g = self.emit_raw(
            ret + " "@ + name + "("@ + joined(self.param_decls(params), ", "@) + ") {"@,
        );
        let depth = g.indent;
        let g = g.set_indent(g.deeper());
        let g = g.bind_params(params);
        let g = g.compile_stmts(body);
        let g = g.set_indent(depth);
        let g = g.emit_raw("}"@);
        g.emit_raw(""@)
    }

    /// Compiles an item, other than `main`.
    pub open spec fn compile_item(self, item: ItemNode) -> CGen {
        match item.value {
            ItemKind::Struct { name, fields, .. } => {
                let types = self.field_types(fields@);
                let g = self.define_struct(name@, types);
                g.emit_raw(
                    "typedef struct { "@ + joined(c_members(types), " "@) + " } "@ + name@ + ";"@,
                )
            },
            ItemKind::Fn { name, params, ret_type, body, .. } => if name@ != "main"@ {
                self.compile_fn(name@, params@, ret_type, body@)
            } else {
                self
            },
            ItemKind::Const { name, .. } => self.set_var_type(name@, "int64_t"@),
            _ => self,
        }
    }

    /// Compiles items, other than `main`.
    pub open spec fn compile_items(self, items: Seq<ItemNode>) -> CGen
        decreases items.len(),
    {
        if items.len() == 0 {
            self
        } else {
            self.compile_items(items.drop_last()).compile_item(items.last())
        }
    }

    /// Compiles `main`.
    pub open spec fn compile_main(self, body: Seq<StmtNode>) -> CGen {
        let g = self.emit_raw("int main(int argc, char** argv) {"@);
        let depth = g.indent;
        let g = g.set_indent(g.deeper());
        let g = g.emit("(void)argc; (void)argv;"@);
        let g = g.compile_stmts(body);
        let g = g.emit("return 0;"@);
        let g = g.set_indent(depth);
        g.emit_raw("}"@)
    }

    /// Compiles a module: the runtime, its items in order, `main` last.
    pub open spec fn compile_module(self, module: Module) -> (CGen, Text) {
        let g = self.emit_raw(RUNTIME_C@);
        let g = g.emit_raw(""@);
        let g = g.compile_items(module.items@);
        let g = match main_body(module.items@) {
            Some(body) => g.compile_main(body),
            None => g,
        };
        (g.set_output(""@), g.output)
    }
}

/// A return of a block expression.
pub open spec fn block_return(lbl: Text, code: Text) -> Text {
    "yk_block_"@ + lbl + "_ret = "@ + code + "; goto yk_block_"@ + lbl + "_end;\n"@
}

/// A binary operation; the addition of strings is a call, and what C has no operator for is zero.
pub open spec fn binop_code(op: BinOp, lt: Text, lc: Text, rc: Text) -> Text {
    if op == BinOp::Add && lt == "yk_string"@ {
        "yk_string_concat("@ + lc + ", "@ + rc + ")"@
    } else {
        match c_operator(op) {
            Some(o) => "("@ + lc + " "@ + o + " "@ + rc + ")"@,
            None => "0"@,
        }
    }
}

/// A unary operation; a bit-wise complement is zero.
pub open spec fn unop_code(op: UnOp, code: Text) -> Text {
    match op {
        UnOp::Neg => "(-"@ + code + ")"@,
        UnOp::Not => "(!"@ + code + ")"@,
        UnOp::BitNot => "0"@,
    }
}

/// The body of the first `main` among the items.
pub open spec fn main_body(items: Seq<ItemNode>) -> Option<Seq<StmtNode>>
    decreases items.len(),
{
    if items.len() == 0 {
        None
    } else if main_body(items.drop_last()) is Some {
        main_body(items.drop_last())
    } else {
        match items.last().value {
            ItemKind::Fn { name, body, .. } => if name@ == "main"@ {
                Some(body@)
            } else {
                None
            },
            _ => None,
        }
    }
}

// ---------------------------------------------------------------------------------------------
// Pieces of code
// ---------------------------------------------------------------------------------------------
fn esc_str(s: &str) -> (r: String)
    ensures
        r@ == c_string(s@),
{
    let s = replace_char(s, '\\', "\\\\");
    let s = replace_char(&s, '"', "\\\"");
    let s = replace_char(&s, '\n', "\\n");
    let s = replace_char(&s, '\r', "\\r");
    replace_char(&s, '\t', "\\t")
}

fn member_list(fields: &Pairs) -> (r: Vec<String>)
    ensures
        texts(r@) == c_members(fields@),
{
    let mut r: Vec<String> = Vec::new();
    let mut i: usize = 0;
    while i < fields.list.len()
        invariant
            i <= fields.list@.len(),
            texts(r@) == c_members(fields@).take(i as int),
        decreases fields.list.len() - i,
    {
        let t = cat4(&fields.list[i].1, " ", &fields.list[i].0, ";");
        let ghost before = r@;
        let ghost text = t@;
        r.push(t);
        assert(texts(r@) == texts(before).push(text));
        assert(c_members(fields@).take(i + 1) == c_members(fields@).take(i as int).push(text));
        i += 1;
    }
    assert(c_members(fields@).take(i as int) == c_members(fields@));
    r
}

fn tuple_member_list(types: &Vec<String>) -> (r: Vec<String>)
    ensures
        texts(r@) == tuple_members(texts(types@)),
{
    let ghost all = tuple_members(texts(types@));
    let mut r: Vec<String> = Vec::new();
    let mut i: usize = 0;
    while i < types.len()
        invariant
            all == tuple_members(texts(types@)),
            i <= types@.len(),
            texts(r@) == all.take(i as int),
        decreases types.len() - i,
    {
        let t = cat4(&types[i], " f", &dec_text(i as u128), ";");
        let ghost before = r@;
        let ghost text = t@;
        r.push(t);
        assert(texts(r@) == texts(before).push(text));
        assert(all.take(i + 1) == all.take(i as int).push(text));
        i += 1;
    }
    assert(all.take(i as int) == all);
    r
}

fn print_call_text(codes: &Vec<String>) -> (r: String)
    ensures
        r@ == print_calls(texts(codes@)),
{
    let mut r = owned("");
    let mut i: usize = 0;
    while i < codes.len()
        invariant
            i <= codes@.len(),
            r@ == print_calls(texts(codes@).take(i as int)),
        decreases codes.len() - i,
    {
        r.append(&cat3("yk_print_val(", &codes[i], ")"));
        assert(texts(codes@).take(i + 1).drop_last() == texts(codes@).take(i as int));
        i += 1;
    }
    assert(texts(codes@).take(i as int) == texts(codes@));
    r
}

fn operator_text(op: BinOp) -> (r: Option<String>)
    ensures
        opt_text(r) == c_operator(op),
{
    match op {
        BinOp::Add => Some(owned("+")),
        BinOp::Sub => Some(owned("-")),
        BinOp::Mul => Some(owned("*")),
        BinOp::Div => Some(owned("/")),
        BinOp::Eq => Some(owned("==")),
        BinOp::Ne => Some(owned("!=")),
        BinOp::Lt => Some(owned("<")),
        BinOp::Gt => Some(owned(">")),
        BinOp::Le => Some(owned("<=")),
        BinOp::Ge => Some(owned(">=")),
        BinOp::And => Some(owned("&&")),
        BinOp::Or => Some(owned("||")),
        BinOp::Assign => Some(owned("=")),
        _ => None,
    }
}

fn binop_text(op: BinOp, lt: &str, lc: &str, rc: &str) -> (r: String)
    ensures
        r@ == binop_code(op, lt@, lc@, rc@),
{
    if op == BinOp::Add && same(lt, "yk_string") {
        cat5("yk_string_concat(", lc, ", ", rc, ")")
    } else {
        match operator_text(op) {
            Some(o) => cat7("(", lc, " ", &o, " ", rc, ")"),
            None => owned("0"),
        }
    }
}

fn unop_text(op: UnOp, code: &str) -> (r: String)
    ensures
        r@ == unop_code(op, code@),
{
    match op {
        UnOp::Neg => cat3("(-", code, ")"),
        UnOp::Not => cat3("(!", code, ")"),
        UnOp::BitNot => owned("0"),
    }
}

fn block_return_text(lbl: &str, code: &str) -> (r: String)
    ensures
        r@ == block_return(lbl@, code@),
{
    cat7("yk_block_", lbl, "_ret = ", code, "; goto yk_block_", lbl, "_end;\n")
}

/// An optional body, as the model gives it.
pub open spec fn opt_body(o: Option<&Vec<StmtNode>>) -> Option<Seq<StmtNode>> {
    match o {
        Some(b) => Some(b@),
        None => None,
    }
}

fn find_main<'b>(items: &'b Vec<ItemNode>) -> (r: Option<&'b Vec<StmtNode>>)
    ensures
        opt_body(r) == main_body(items@),
{
    let mut found: Option<&'b Vec<StmtNode>> = None;
    let mut i: usize = 0;
    while i < items.len()
        invariant
            i <= items@.len(),
            opt_body(found) == main_body(items@.take(i as int)),
        decreases items.len() - i,
    {
        assert(items@.take(i + 1).drop_last() == items@.take(i as int));
        if found.is_none() {
            match &items[i].value {
                ItemKind::Fn { name, body, .. } => {
                    if same(name, "main") {
                        found = Some(body);
                    }
                },
                _ => {},
            }
        }
        i += 1;
    }
    assert(items@.take(i as int) == items@);
    found
}

// ---------------------------------------------------------------------------------------------
// The generator
// ---------------------------------------------------------------------------------------------
/// Turns a module into the text of a C program.
pub struct Codegen {
    output: String,
    indent: usize,
    var_types: Table<String>,
    struct_defs: Table<Pairs>,
    tuple_type_names: Table<String>,
    tuple_counter: usize,
    next_label: usize,
}

impl View for Codegen {
    type V = CGen;

    closed spec fn view(&self) -> CGen {
        CGen {
            output: self.output@,
            indent: self.indent as nat,
            var_types: self.var_types@,
            struct_defs: self.struct_defs@,
            tuple_type_names: self.tuple_type_names@,
            tuple_counter: self.tuple_counter as nat,
            next_label: self.next_label as nat,
        }
    }
}

impl Codegen {
    /// A code generator that has written nothing yet.
    pub fn new() -> (r: Self)
        ensures
            r@ == fresh_c_gen(),
    {
        Codegen {
            output: owned(""),
            indent: 0,
            var_types: Table::new(),
            struct_defs: Table::new(),
            tuple_type_names: Table::new(),
            tuple_counter: 0,
            next_label: 0,
        }
    }

    fn emit(&mut self, s: &str)
        ensures
            final(self)@ == old(self)@.emit(s@),
    {
        proof {
            reveal(CGen::emit);
        }
        let line = cat3(&repeat_text("    ", self.indent), s, "\n");
        self.output.append(&line);
    }

    fn emit_raw(&mut self, s: &str)
        ensures
            final(self)@ == old(self)@.emit_raw(s@),
    {
        proof {
            reveal(CGen::emit_raw);
        }
        self.output.append(&cat2(s, "\n"));
    }

    fn set_indent(&mut self, n: usize)
        ensures
            final(self)@ == old(self)@.set_indent(n as nat),
    {
        proof {
            reveal(CGen::set_indent);
        }
        self.indent = n;
    }

    fn depth(&self) -> (r: usize)
        ensures
            r as nat == self@.indent,
    {
        self.indent
    }

    fn deeper(&self) -> (r: usize)
        ensures
            r as nat == self@.deeper(),
    {
        bump(self.indent)
    }

    fn swap_output(&mut self, s: &str) -> (r: String)
        ensures
            final(self)@ == old(self)@.set_output(s@),
            r@ == old(self)@.output,
    {
        proof {
            reveal(CGen::set_output);
        }
        let r = self.output.clone();
        self.output = owned(s);
        r
    }

    fn set_var_type(&mut self, name: &str, ty: &str)
        ensures
            final(self)@ == old(self)@.set_var_type(name@, ty@),
    {
        proof {
            reveal(CGen::set_var_type);
        }
        self.var_types.insert(name, owned(ty));
    }

    fn define_struct(&mut self, name: &str, fields: Pairs)
        ensures
            final(self)@ == old(self)@.define_struct(name@, fields@),
    {
        proof {
            reveal(CGen::define_struct);
        }
        self.struct_defs.insert(name, fields);
    }

    fn fresh_label(&mut self) -> (r: String)
        ensures
            (final(self)@, r@) == old(self)@.fresh_label(),
    {
        proof {
            reveal(CGen::fresh_label);
        }
        let n = self.next_label;
        self.next_label = bump(n);
        dec_text(n as u128)
    }

    fn new_tuple(&mut self, sig: &str) -> (r: String)
        ensures
            (final(self)@, r@) == old(self)@.new_tuple(sig@),
    {
        proof {
            reveal(CGen::new_tuple);
        }
        let n = self.tuple_counter;
        self.tuple_counter = bump(n);
        let name = cat2("__yk_t", &dec_text(n as u128));
        self.tuple_type_names.insert(sig, name.clone());
        name
    }

    fn type_to_c(&self, te: &TypeExpr) -> (r: String)
        ensures
            r@ == self@.type_to_c(*te),
    {
        match te {
            TypeExpr::Int(_) => owned("int64_t"),
            TypeExpr::Rint(_) => owned("int64_t"),
            TypeExpr::Real(_) => owned("double"),
            TypeExpr::Bool => owned("bool"),
            TypeExpr::Str => owned("yk_string"),
            TypeExpr::Named(name) => {
                if self.struct_defs.contains(name) {
                    name.clone()
                } else {
                    owned("int64_t")
                }
            },
            _ => owned("int64_t"),
        }
    }

    fn get_or_create_tuple_type(&mut self, types: &Vec<String>) -> (r: String)
        ensures
            (final(self)@, r@) == old(self)@.get_or_create_tuple_type(texts(types@)),
    {
        let sig = join(types, "_");
        let known = match self.tuple_type_names.get(&sig) {
            Some(name) => Some(name.clone()),
            None => None,
        };
        match known {
            Some(name) => name,
            None => {
                let name = self.new_tuple(&sig);
                let members = join(&tuple_member_list(types), " ");
                self.emit_raw(&cat5("typedef struct { ", &members, " } ", &name, ";"));
                name
            },
        }
    }

    fn expr_type(&mut self, expr: &ExprNode) -> (r: String)
        ensures
            (final(self)@, r@) == old(self)@.expr_type(*expr),
        decreases expr, 0nat,
    {
        match &expr.value {
            Expr::LitInt(_) => owned("int64_t"),
            Expr::LitHex(_) => owned("int64_t"),
            Expr::LitReal(_) => owned("double"),
            Expr::LitBool(_) => owned("bool"),
            Expr::LitStr(_) => owned("yk_string"),
            Expr::LitSymbol(_) => owned("yk_string"),
            Expr::Ident(name) => match self.var_types.get(name) {
                Some(t) => t.clone(),
                None => owned("int64_t"),
            },
            Expr::StructLit(name, _) => name.clone(),
            Expr::TupleLit(items) => {
                let types = self.expr_types(items);
                self.get_or_create_tuple_type(&types)
            },
            _ => owned("int64_t"),
        }
    }

    fn expr_types(&mut self, items: &Vec<ExprNode>) -> (r: Vec<String>)
        ensures
            (final(self)@, texts(r@)) == old(self)@.expr_types(items@),
        decreases items@, 1nat,
    {
        let ghost g = self@;
        let mut r: Vec<String> = Vec::new();
        let mut i: usize = 0;
        assert(texts(r@) == Seq::<Text>::empty());
        while i < items.len()
            invariant
                i <= items@.len(),
                (self@, texts(r@)) == g.expr_types(items@.take(i as int)),
            decreases items.len() - i,
        {
            let t = self.expr_type(&items[i]);
            let ghost before = r@;
            let ghost text = t@;
            r.push(t);
            assert(texts(r@) == texts(before).push(text));
            assert(items@.take(i + 1).drop_last() == items@.take(i as int));
            i += 1;
        }
        assert(items@.take(i as int) == items@);
        r
    }

    #[verifier::rlimit(30)]
    fn compile_expr(&mut self, expr: &ExprNode) -> (r: String)
        ensures
            (final(self)@, r@) == old(self)@.compile_expr(*expr),
        decreases expr, 1nat,
    {
        match &expr.value {
            Expr::LitInt(n) => int_text(*n),
            Expr::LitHex(n) => cat2("(int64_t)0x", &int_text(*n)),
            Expr::LitReal(n) => real_string(&n.shown),
            Expr::LitBool(b) => bool_string(*b),
            Expr::LitStr(s) => cat3("yk_string_make(\"", &esc_str(s), "\")"),
            Expr::LitChar(c) => cat2("(int64_t)", &int_text((*c as u32) as i64)),
            Expr::LitSymbol(s) => cat3("yk_string_make(\":", &esc_str(s), "\")"),
            Expr::Ident(name) => name.clone(),
            Expr::BinOp(l, op, r) => {
                let lt = self.expr_type(l);
                let lc = self.compile_expr(l);
                let rc = self.compile_expr(r);
                binop_text(*op, &lt, &lc, &rc)
            },
            Expr::UnOp(op, inner) => {
                let i = self.compile_expr(inner);
                unop_text(*op, &i)
            },
            Expr::Call(_, _) => self.compile_call(expr),
            Expr::Field(obj, field) => {
                let o = self.compile_expr(obj);
                cat5("(", &o, ".", field, ")")
            },
            Expr::Index(obj, index) => {
                let o = self.compile_expr(obj);
                let i = self.compile_expr(index);
                cat5("(", &o, "[", &i, "])")
            },
            Expr::Range(_, r) => {
                let rc = self.compile_expr(r);
                cat3("(", &rc, ")")
            },
            Expr::Block(stmts) => {
                let lbl = self.fresh_label();
                let depth = self.depth();
                self.set_indent(0);
                let start = cat3("({\nint64_t yk_block_", &lbl, "_ret = 0;\n");
                let code = self.compile_block(stmts, &lbl, &start);
                self.set_indent(depth);
                cat6(&code, "yk_block_", &lbl, "_end:;\nyk_block_", &lbl, "_ret;\n})")
            },
            Expr::AsConst(inner) => self.compile_expr(inner),
            Expr::If(_, _, _) => self.compile_if_expr(expr),
            Expr::ListLit(items) => {
                let ghost g = self@;
                let codes = self.compile_exprs(items);
                proof {
                    lemma_exprs_len(g, items@);
                }
                if items.len() == 0 {
                    owned("0")
                } else if items.len() == 1 {
                    assert(texts(codes@)[0] == codes@[0]@);
                    codes[0].clone()
                } else {
                    cat3("(", &join(&codes, ", "), ")")
                }
            },
            Expr::StructLit(name, fields) => {
                let codes = self.compile_fields(fields);
                cat5("(", name, "){ ", &join(&codes, ", "), " }")
            },
            Expr::TupleLit(items) => {
                let types = self.expr_types(items);
                let ty = self.get_or_create_tuple_type(&types);
                let codes = self.compile_exprs(items);
                cat5("(", &ty, "){ ", &join(&codes, ", "), " }")
            },
            Expr::MapLit(items) => {
                let codes = self.compile_pairs(items);
                if items.len() == 0 {
                    owned("0")
                } else {
                    cat3("(", &join(&codes, ", "), ")")
                }
            },
            Expr::SetLit(items) => {
                let codes = self.compile_exprs(items);
                if items.len() == 0 {
                    owned("0")
                } else {
                    cat3("(", &join(&codes, ", "), ")")
                }
            },
            Expr::FnLit(_, _, inner) => self.compile_expr(inner),
            Expr::Await(inner) => self.compile_expr(inner),
            Expr::Spawn(inner) => self.compile_expr(inner),
            Expr::ResultOk(inner) => self.compile_expr(inner),
            Expr::ResultErr(inner) => self.compile_expr(inner),
            _ => owned("0"),
        }
    }

    fn compile_if_expr(&mut self, expr: &ExprNode) -> (r: String)
        ensures
            (final(self)@, r@) == old(self)@.compile_if_expr(*expr),
        decreases expr, 0nat,
    {
        match &expr.value {
            Expr::If(cond, then_e, else_e) => {
                let c = self.compile_expr(cond);
                let t = self.compile_expr(then_e);
                let e = match else_e {
                    Some(ex) => self.compile_expr(ex),
                    None => owned("0"),
                };
                cat7("(", &c, " ? ", &t, " : ", &e, ")")
            },
            _ => owned("0"),
        }
    }

    fn compile_exprs(&mut self, items: &Vec<ExprNode>) -> (r: Vec<String>)
        ensures
            (final(self)@, texts(r@)) == old(self)@.compile_exprs(items@),
        decreases items@, 2nat,
    {
        let ghost g = self@;
        let mut r: Vec<String> = Vec::new();
        let mut i: usize = 0;
        assert(texts(r@) == Seq::<Text>::empty());
        while i < items.len()
            invariant
                i <= items@.len(),
                (self@, texts(r@)) == g.compile_exprs(items@.take(i as int)),
            decreases items.len() - i,
        {
            let c = self.compile_expr(&items[i]);
            let ghost before = r@;
            let ghost text = c@;
            r.push(c);
            assert(texts(r@) == texts(before).push(text));
            assert(items@.take(i + 1).drop_last() == items@.take(i as int));
            i += 1;
        }
        assert(items@.take(i as int) == items@);
        r
    }

    fn compile_pairs(&mut self, items: &Vec<(ExprNode, ExprNode)>) -> (r: Vec<String>)
        ensures
            (final(self)@, texts(r@)) == old(self)@.compile_pairs(items@),
        decreases items@, 2nat,
    {
        let ghost g = self@;
        let mut r: Vec<String> = Vec::new();
        let mut i: usize = 0;
        assert(texts(r@) == Seq::<Text>::empty());
        while i < items.len()
            invariant
                i <= items@.len(),
                (self@, texts(r@)) == g.compile_pairs(items@.take(i as int)),
            decreases items.len() - i,
        {
            let k = self.compile_expr(&items[i].0);
            let v = self.compile_expr(&items[i].1);
            let ghost before = r@;
            let ghost one = k@;
            let ghost two = v@;
            r.push(k);
            r.push(v);
            assert(texts(r@) == texts(before).push(one).push(two));
            assert(items@.take(i + 1).drop_last() == items@.take(i as int));
            i += 1;
        }
        assert(items@.take(i as int) == items@);
        r
    }

    fn compile_fields(&mut self, fields: &Vec<(String, ExprNode)>) -> (r: Vec<String>)
        ensures
            (final(self)@, texts(r@)) == old(self)@.compile_fields(fields@),
        decreases fields@, 2nat,
    {
        let ghost g = self@;
        let mut r: Vec<String> = Vec::new();
        let mut i: usize = 0;
        assert(texts(r@) == Seq::<Text>::empty());
        while i < fields.len()
            invariant
                i <= fields@.len(),
                (self@, texts(r@)) == g.compile_fields(fields@.take(i as int)),
            decreases fields.len() - i,
        {
            let c = self.compile_expr(&fields[i].1);
            let t = cat4(".", &fields[i].0, " = ", &c);
            let ghost before = r@;
            let ghost text = t@;
            r.push(t);
            assert(texts(r@) == texts(before).push(text));
            assert(fields@.take(i + 1).drop_last() == fields@.take(i as int));
            i += 1;
        }
        assert(fields@.take(i as int) == fields@);
        r
    }

    fn compile_block(&mut self, stmts: &Vec<StmtNode>, lbl: &str, start: &str) -> (r: String)
        ensures
            (final(self)@, r@) == old(self)@.compile_block(stmts@, lbl@, start@),
        decreases stmts@, 2nat,
    {
        let ghost g = self@;
        let mut code = owned(start);
        let mut i: usize = 0;
        while i < stmts.len()
            invariant
                i <= stmts@.len(),
                (self@, code@) == g.compile_block(stmts@.take(i as int), lbl@, start@),
            decreases stmts.len() - i,
        {
            match &stmts[i].value {
                Stmt::Return(Some(ex)) => {
                    let c = self.compile_expr(ex);
                    code.append(&block_return_text(lbl, &c));
                },
                Stmt::Return(None) => {
                    code.append(&block_return_text(lbl, "0"));
                },
                _ => {
                    let written = self.swap_output("");
                    self.compile_stmt(&stmts[i]);
                    let more = self.swap_output(&written);
                    code.append(&more);
                },
            }
            assert(stmts@.take(i + 1).drop_last() == stmts@.take(i as int));
            i += 1;
        }
        assert(stmts@.take(i as int) == stmts@);
        code
    }

    fn compile_call(&mut self, expr: &ExprNode) -> (r: String)
        ensures
            (final(self)@, r@) == old(self)@.compile_call(*expr),
        decreases expr, 0nat,
    {
        match &expr.value {
            Expr::Call(callee, args) => {
                let ghost g = self@;
                let codes = self.compile_exprs(args);
                proof {
                    lemma_exprs_len(g, args@);
                }
                match &callee.value {
                    Expr::Ident(name) => {
                        if same(name, "print") || same(name, "println") {
                            if args.len() == 0 {
                                owned("printf(\"\\n\")")
                            } else {
                                print_call_text(&codes)
                            }
                        } else if same(name, "len") {
                            if args.len() == 0 {
                                owned("0")
                            } else {
                                let t = self.expr_type(&args[0]);
                                assert(texts(codes@)[0] == codes@[0]@);
                                if same(&t, "yk_string") {
                                    cat3("yk_string_len(", &codes[0], ")")
                                } else {
                                    cat2("(int64_t)", &codes[0])
                                }
                            }
                        } else {
                            cat4(name, "(", &join(&codes, ", "), ")")
                        }
                    },
                    Expr::Field(obj, field) => {
                        let o = self.compile_expr(obj);
                        cat5("(", &o, ".", field, ")")
                    },
                    _ => owned("0"),
                }
            },
            _ => owned("0"),
        }
    }

    fn compile_stmts(&mut self, stmts: &Vec<StmtNode>)
        ensures
            final(self)@ == old(self)@.compile_stmts(stmts@),
        decreases stmts@, 2nat,
    {
        let ghost g = self@;
        let mut i: usize = 0;
        while i < stmts.len()
            invariant
                i <= stmts@.len(),
                self@ == g.compile_stmts(stmts@.take(i as int)),
            decreases stmts.len() - i,
        {
            self.compile_stmt(&stmts[i]);
            assert(stmts@.take(i + 1).drop_last() == stmts@.take(i as int));
            i += 1;
        }
        assert(stmts@.take(i as int) == stmts@);
    }

    fn compile_stmt(&mut self, stmt: &StmtNode)
        ensures
            final(self)@ == old(self)@.compile_stmt(*stmt),
        decreases stmt, 1nat,
    {
        match &stmt.value {
            Stmt::Decl { name, type_expr, value, is_const: _ } => {
                let ty = match type_expr {
                    Some(te) => self.type_to_c(&te.value),
                    None => self.expr_type(value),
                };
                self.set_var_type(name, &ty);
                let val = self.compile_expr(value);
                self.emit(&cat6(&ty, " ", name, " = ", &val, ";"));
            },
            Stmt::Assign(name, expr) => {
                let val = self.compile_expr(expr);
                self.emit(&cat4(name, " = ", &val, ";"));
            },
            Stmt::Expr(e) => {
                let code = self.compile_expr(e);
                if !same(&code, "") && !same(&code, "0") {
                    self.emit(&cat2(&code, ";"));
                }
            },
            Stmt::Return(Some(ex)) => {
                let val = self.compile_expr(ex);
                self.emit(&cat3("return ", &val, ";"));
            },
            Stmt::Return(None) => self.emit("return;"),
            Stmt::If(_, _, _) => self.compile_if_stmt(stmt),
            Stmt::While(_, _) => self.compile_while(stmt),
            Stmt::For(_, _, _, _) => self.compile_for(stmt),
            Stmt::Loop(body) => {
                self.emit("for (;;) {");
                let depth = self.depth();
                let inner = self.deeper();
                self.set_indent(inner);
                self.compile_stmts(body);
                self.set_indent(depth);
                self.emit("}");
            },
            Stmt::Destruct(_, expr) => {
                let val = self.compile_expr(expr);
                self.emit(&cat3("(void)", &val, ";"));
            },
        }
    }

    fn compile_if_stmt(&mut self, stmt: &StmtNode)
        ensures
            final(self)@ == old(self)@.compile_if_stmt(*stmt),
        decreases stmt, 0nat,
    {
        match &stmt.value {
            Stmt::If(cond, then_body, else_body) => {
                let c = self.compile_expr(cond);
                self.emit(&cat3("if (", &c, ") {"));
                let depth = self.depth();
                let inner = self.deeper();
                self.set_indent(inner);
                self.compile_stmts(then_body);
                self.set_indent(depth);
                match else_body {
                    Some(eb) => {
                        if eb.len() == 0 {
                            self.emit("}");
                        } else {
                            self.emit("} else {");
                            let inner = self.deeper();
                            self.set_indent(inner);
                            self.compile_stmts(eb);
                            self.set_indent(depth);
                            self.emit("}");
                        }
                    },
                    None => self.emit("}"),
                }
            },
            _ => {},
        }
    }

    fn compile_while(&mut self, stmt: &StmtNode)
        ensures
            final(self)@ == old(self)@.compile_while(*stmt),
        decreases stmt, 0nat,
    {
        match &stmt.value {
            Stmt::While(cond, body) => {
                let c = self.compile_expr(cond);
                self.emit(&cat3("while (", &c, ") {"));
                let depth = self.depth();
                let inner = self.deeper();
                self.set_indent(inner);
                self.compile_stmts(body);
                self.set_indent(depth);
                self.emit("}");
            },
            _ => {},
        }
    }

    fn compile_bounds(&mut self, iter: &ExprNode) -> (r: (String, String))
        ensures
            (final(self)@, (r.0@, r.1@)) == old(self)@.compile_bounds(*iter),
        decreases iter, 2nat,
    {
        match &iter.value {
            Expr::Range(l, r) => {
                let from = self.compile_expr(l);
                let to = self.compile_expr(r);
                (from, to)
            },
            _ => {
                let c = self.compile_expr(iter);
                let again = c.clone();
                (c, again)
            },
        }
    }

    fn compile_for(&mut self, stmt: &StmtNode)
        ensures
            final(self)@ == old(self)@.compile_for(*stmt),
        decreases stmt, 0nat,
    {
        match &stmt.value {
            Stmt::For(var, iter, body, _) => {
                let lbl = self.fresh_label();
                self.set_var_type(var, "int64_t");
                let (from, to) = self.compile_bounds(iter);
                self.emit("{");
                let outer = self.depth();
                let n = self.deeper();
                self.set_indent(n);
                self.emit(&cat5("int64_t yk_start_", &lbl, " = ", &from, ";"));
                self.emit(&cat5("int64_t yk_end_", &lbl, " = ", &to, ";"));
                self.emit(
                    &cat11(
                        "for (int64_t ",
                        var,
                        " = yk_start_",
                        &lbl,
                        "; ",
                        var,
                        " < yk_end_",
                        &lbl,
                        "; ",
                        var,
                        "++) {",
                    ),
                );
                let inner = self.depth();
                let n = self.deeper();
                self.set_indent(n);
                self.compile_stmts(body);
                self.set_indent(inner);
                self.emit("}");
                self.set_indent(outer);
                self.emit("}");
            },
            _ => {},
        }
    }

    fn field_types(&self, fields: &Vec<Param>) -> (r: Pairs)
        ensures
            r@ == self@.field_types(fields@),
    {
        let ghost all = self@.field_types(fields@);
        let mut r = Pairs::new();
        let mut i: usize = 0;
        while i < fields.len()
            invariant
                all == self@.field_types(fields@),
                i <= fields@.len(),
                r@ == all.take(i as int),
            decreases fields.len() - i,
        {
            let t = self.type_to_c(&fields[i].type_expr.value);
            let ghost one = (fields@[i as int].name@, t@);
            r.push(&fields[i].name, &t);
            assert(all.take(i + 1) == all.take(i as int).push(one));
            i += 1;
        }
        assert(all.take(i as int) == all);
        r
    }

    fn param_decls(&self, params: &Vec<Param>) -> (r: Vec<String>)
        ensures
            texts(r@) == self@.param_decls(params@),
    {
        let ghost all = self@.param_decls(params@);
        let mut r: Vec<String> = Vec::new();
        let mut i: usize = 0;
        while i < params.len()
            invariant
                all == self@.param_decls(params@),
                i <= params@.len(),
                texts(r@) == all.take(i as int),
            decreases params.len() - i,
        {
            let t = cat3(&self.type_to_c(&params[i].type_expr.value), " ", &params[i].name);
            let ghost before = r@;
            let ghost text = t@;
            r.push(t);
            assert(texts(r@) == texts(before).push(text));
            assert(all.take(i + 1) == all.take(i as int).push(text));
            i += 1;
        }
        assert(all.take(i as int) == all);
        r
    }

    fn bind_params(&mut self, params: &Vec<Param>)
        ensures
            final(self)@ == old(self)@.bind_params(params@),
    {
        let ghost g = self@;
        let mut i: usize = 0;
        while i < params.len()
            invariant
                i <= params@.len(),
                self@ == g.bind_params(params@.take(i as int)),
            decreases params.len() - i,
        {
            let t = self.type_to_c(&params[i].type_expr.value);
            self.set_var_type(&params[i].name, &t);
            assert(params@.take(i + 1).drop_last() == params@.take(i as int));
            i += 1;
        }
        assert(params@.take(i as int) == params@);
    }

    fn compile_fn(
        &mut self,
        name: &str,
        params: &Vec<Param>,
        ret_type: &Option<TypeNode>,
        body: &Vec<StmtNode>,
    )
        ensures
            final(self)@ == old(self)@.compile_fn(name@, params@, *ret_type, body@),
    {
        let ret = match ret_type {
            Some(t) => self.type_to_c(&t.value),
            None => owned("void"),
        };
        let list = join(&self.param_decls(params), ", ");
        self.emit_raw(&cat6(&ret, " ", name, "(", &list, ") {"));
        let depth = self.depth();
        let inner = self.deeper();
        self.set_indent(inner);
        self.bind_params(params);
        self.compile_stmts(body);
        self.set_indent(depth);
        self.emit_raw("}");
        self.emit_raw("");
    }

    fn compile_item(&mut self, item: &ItemNode)
        ensures
            final(self)@ == old(self)@.compile_item(*item),
    {
        match &item.value {
            ItemKind::Struct { name, fields, .. } => {
                let types = self.field_types(fields);
                let members = join(&member_list(&types), " ");
                self.define_struct(name, types);
                self.emit_raw(&cat5("typedef struct { ", &members, " } ", name, ";"));
            },
            ItemKind::Fn { name, params, ret_type, body, .. } => {
                if !same(name, "main") {
                    self.compile_fn(name, params, ret_type, body);
                }
            },
            ItemKind::Const { name, .. } => self.set_var_type(name, "int64_t"),
            _ => {},
        }
    }

    fn compile_items(&mut self, items: &Vec<ItemNode>)
        ensures
            final(self)@ == old(self)@.compile_items(items@),
    {
        let ghost g = self@;
        let mut i: usize = 0;
        while i < items.len()
            invariant
                i <= items@.len(),
                self@ == g.compile_items(items@.take(i as int)),
            decreases items.len() - i,
        {
            self.compile_item(&items[i]);
            assert(items@.take(i + 1).drop_last() == items@.take(i as int));
            i += 1;
        }
        assert(items@.take(i as int) == items@);
    }

    fn compile_main(&mut self, body: &Vec<StmtNode>)
        ensures
            final(self)@ == old(self)@.compile_main(body@),
    {
        self.emit_raw("int main(int argc, char** argv) {");
        let depth = self.depth();
        let inner = self.deeper();
        self.set_indent(inner);
        self.emit("(void)argc; (void)argv;");
        self.compile_stmts(body);
        self.emit("return 0;");
        self.set_indent(depth);
        self.emit_raw("}");
    }

    /// Compiles a module into the text of a C program.
    pub fn compile_module(&mut self, module: &Module) -> (r: String)
        ensures
            (final(self)@, r@) == old(self)@.compile_module(*module),
    {
        self.emit_raw(RUNTIME_C);
        self.emit_raw("");
        self.compile_items(&module.items);
        match find_main(&module.items) {
            Some(body) => self.compile_main(body),
            None => {},
        }
        self.swap_output("")
    }
}

/// Compiling expressions gives as many pieces of code as there are expressions.
proof fn lemma_exprs_len(g: CGen, items: Seq<ExprNode>)
    ensures
        g.compile_exprs(items).1.len() == items.len(),
    decreases items.len(),
{
    if items.len() > 0 {
        lemma_exprs_len(g, items.drop_last());
    }
}

/// Compiles a module into the text of a C program.
pub fn compile_to_c(module: &Module) -> (r: String)
    ensures
        r@ == fresh_c_gen().compile_module(*module).1,
{
    let mut codegen = Codegen::new();
    codegen.compile_module(module)
}

} // verus!
