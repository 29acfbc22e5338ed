//! Programs: source text is read, compiled, and the LLVM text is run.

use std::collections::HashMap;

use yidika::cli::{check_step, report, CheckStep, LoadedFile};
use yidika::codegen::backend::{Artifact, CodegenBackend, LlvmBackend, MockBackend};
use yidika::codegen::c::RUNTIME_C;
use yidika::codegen::compile_to_c;
use yidika::codegen::llvm::{
    compile_to_llvm, compile_to_llvm_modules, generate_fn_handler_ir, generate_static_handler_ir,
};
use yidika::codegen::toolchain::{ffi_lib_names, validate_modules};
use yidika::diagnostics::error::{err, ErrorKind, YkError};
use yidika::diagnostics::span::Span;
use yidika::hardware::cpu::{CpuProbe, Registers};
use yidika::hardware::{detect, HardwareInfo, Probe};
use yidika::interpret::FnDef;
use yidika::syntax::ast::{
    BinOp, Expr, ExprNode, Import, ItemKind, MatchArm, MethodSig, Module, Node, Param, Pattern, RealLit, Stmt,
    StmtNode, TypeExpr, TypeNode, UnOp,
};

// ---------------------------------------------------------------------------------------------
// A reader for source text
// ---------------------------------------------------------------------------------------------

#[derive(Clone, Debug, PartialEq)]
enum Tok {
    Id(String),
    Int(i64),
    Hex(i64),
    Real(f64),
    Str(String),
    Op(String),
    End,
}

fn lex(src: &str) -> Vec<Tok> {
    let c: Vec<char> = src.chars().collect();
    let mut out = Vec::new();
    let mut i = 0;
    while i < c.len() {
        let ch = c[i];
        if ch.is_whitespace() {
            i += 1;
        } else if ch.is_alphabetic() || ch == '_' {
            let s = i;
            while i < c.len() && (c[i].is_alphanumeric() || c[i] == '_') {
                i += 1;
            }
            out.push(Tok::Id(c[s..i].iter().collect()));
        } else if ch == '0' && i + 1 < c.len() && c[i + 1] == 'x' {
            let s = i + 2;
            i += 2;
            while i < c.len() && c[i].is_ascii_hexdigit() {
                i += 1;
            }
            let t: String = c[s..i].iter().collect();
            out.push(Tok::Hex(i64::from_str_radix(&t, 16).unwrap()));
        } else if ch.is_ascii_digit() {
            let s = i;
            while i < c.len() && c[i].is_ascii_digit() {
                i += 1;
            }
            let after_dot = matches!(out.last(), Some(Tok::Op(o)) if o == ".");
            if !after_dot && i + 1 < c.len() && c[i] == '.' && c[i + 1].is_ascii_digit() {
                i += 1;
                while i < c.len() && c[i].is_ascii_digit() {
                    i += 1;
                }
                let t: String = c[s..i].iter().collect();
                out.push(Tok::Real(t.parse().unwrap()));
            } else {
                let t: String = c[s..i].iter().collect();
                out.push(Tok::Int(t.parse().unwrap()));
            }
        } else if ch == '"' {
            let mut t = String::new();
            i += 1;
            while c[i] != '"' {
                if c[i] == '\\' {
                    i += 1;
                    t.push(match c[i] {
                        'n' => '\n',
                        't' => '\t',
                        'r' => '\r',
                        other => other,
                    });
                } else {
                    t.push(c[i]);
                }
                i += 1;
            }
            i += 1;
            out.push(Tok::Str(t));
        } else {
            let two: String = c[i..(i + 2).min(c.len())].iter().collect();
            let ops = [
                "->", "=>", "==", "!=", "<=", ">=", "&&", "||", "<<", ">>", "**", "++", "--", "+=", "-=", "*=",
                "/=", "?.", "?:", "::", "..",
            ];
            if ops.contains(&two.as_str()) {
                out.push(Tok::Op(two));
                i += 2;
            } else {
                out.push(Tok::Op(ch.to_string()));
                i += 1;
            }
        }
    }
    out.push(Tok::End);
    out
}

struct Reader {
    t: Vec<Tok>,
    i: usize,
}

fn span() -> Span {
    Span::new(0, 0)
}

fn expr(e: Expr) -> ExprNode {
    Node::new(0, span(), e)
}

fn real_lit(v: f64) -> RealLit {
    RealLit { shown: format!("{}", v), fixed: format!("{:.10}", v) }
}

fn bx(e: ExprNode) -> Box<ExprNode> {
    Box::new(e)
}

impl Reader {
    fn is(&self, s: &str) -> bool {
        match &self.t[self.i] {
            Tok::Op(o) => o == s,
            Tok::Id(o) => o == s,
            _ => false,
        }
    }

    fn is_at(&self, k: usize, s: &str) -> bool {
        match self.t.get(self.i + k) {
            Some(Tok::Op(o)) => o == s,
            Some(Tok::Id(o)) => o == s,
            _ => false,
        }
    }

    fn eat(&mut self, s: &str) -> bool {
        if self.is(s) {
            self.i += 1;
            true
        } else {
            false
        }
    }

    fn want(&mut self, s: &str) {
        assert!(self.eat(s), "expected {} at {:?}", s, &self.t[self.i..(self.i + 4).min(self.t.len())]);
    }

    fn name(&mut self) -> String {
        match self.t[self.i].clone() {
            Tok::Id(s) => {
                self.i += 1;
                s
            }
            other => panic!("expected a name, found {:?}", other),
        }
    }

    fn module(&mut self) -> Module {
        let mut m = Module {
            name: String::new(),
            span: span(),
            imports: vec![],
            exports: vec![],
            items: vec![],
        };
        while self.t[self.i] != Tok::End {
            if self.eat("use") {
                self.want("{");
                let mut names = vec![];
                while !self.eat("}") {
                    names.push((self.name(), None));
                    self.eat(",");
                }
                self.want("from");
                let source = match self.t[self.i].clone() {
                    Tok::Str(s) => s,
                    other => panic!("expected a source, found {:?}", other),
                };
                self.i += 1;
                self.eat(";");
                m.imports.push(Import { lang: None, source, names });
            } else if self.eat("enum") {
                self.name();
                self.want("{");
                while !self.eat("}") {
                    self.i += 1;
                }
            } else {
                let kind = self.item();
                m.items.push(Node::new(0, span(), kind));
            }
        }
        m
    }

    fn item(&mut self) -> ItemKind {
        if self.is("fn") {
            self.function()
        } else if self.eat("struct") {
            let name = self.name();
            self.generics();
            self.want("{");
            let mut fields = vec![];
            while !self.eat("}") {
                fields.push(self.field());
            }
            ItemKind::Struct { name, fields, generics: vec![] }
        } else if self.eat("class") {
            let name = self.name();
            self.generics();
            let mut constructor = vec![];
            if self.eat("(") {
                while !self.eat(")") {
                    constructor.push(self.field());
                }
            }
            let extends = if self.eat("extends") { Some(self.name()) } else { None };
            let mut implements = vec![];
            if self.eat("implements") {
                implements.push(self.name());
                while self.eat(",") {
                    implements.push(self.name());
                }
            }
            let mut fields = vec![];
            let mut methods = vec![];
            let mut init_body = vec![];
            self.want("{");
            while !self.eat("}") {
                if self.is("fn") {
                    methods.push(self.function());
                } else if self.eat("init") {
                    init_body = self.block();
                } else {
                    fields.push(self.field());
                }
            }
            ItemKind::Class { name, fields, constructor, methods, extends, implements, init_body }
        } else if self.eat("interface") {
            let name = self.name();
            let mut methods = vec![];
            self.want("{");
            while !self.eat("}") {
                self.want("fn");
                let name = self.name();
                let params = self.params();
                let ret_type = if self.eat("->") { Some(self.type_node()) } else { None };
                self.eat(";");
                methods.push(MethodSig { name, params, ret_type });
            }
            ItemKind::Interface { name, methods }
        } else {
            self.want("object");
            let name = self.name();
            let mut fields = vec![];
            let mut methods = vec![];
            self.want("{");
            while !self.eat("}") {
                if self.is("fn") {
                    methods.push(self.function());
                } else {
                    fields.push(self.field());
                }
            }
            ItemKind::Object { name, methods, fields }
        }
    }

    fn generics(&mut self) {
        if self.eat("<") {
            while !self.eat(">") {
                self.i += 1;
            }
        }
    }

    fn field(&mut self) -> Param {
        let name = self.name();
        self.want(":");
        let type_expr = self.type_node();
        if !self.eat(",") {
            self.eat(";");
        }
        Param { name, type_expr, is_ref: false }
    }

    fn params(&mut self) -> Vec<Param> {
        self.want("(");
        let mut out = vec![];
        while !self.eat(")") {
            let is_ref = self.eat("&");
            let name = self.name();
            let type_expr = if self.eat(":") {
                self.type_node()
            } else {
                Node::new(0, span(), TypeExpr::Infer)
            };
            self.eat(",");
            out.push(Param { name, type_expr, is_ref });
        }
        out
    }

    fn function(&mut self) -> ItemKind {
        self.want("fn");
        let name = self.name();
        self.generics();
        let params = self.params();
        let ret_type = if self.eat("->") { Some(self.type_node()) } else { None };
        let body = self.block();
        ItemKind::Fn {
            name,
            params,
            ret_type,
            body,
            is_async: false,
            generics: vec![],
            is_open: false,
            is_override: false,
            is_final: false,
            is_abstract_method: false,
        }
    }

    fn type_node(&mut self) -> TypeNode {
        let t = self.type_expr();
        Node::new(0, span(), t)
    }

    fn type_expr(&mut self) -> TypeExpr {
        let first = self.type_atom();
        if self.is("|") {
            let mut list = vec![first];
            while self.eat("|") {
                list.push(self.type_atom());
            }
            TypeExpr::Union(list)
        } else {
            first
        }
    }

    fn type_atom(&mut self) -> TypeExpr {
        let name = self.name();
        let t = match name.as_str() {
            "int" => TypeExpr::Int(0),
            "int8" => TypeExpr::Int(8),
            "int16" => TypeExpr::Int(16),
            "int32" => TypeExpr::Int(32),
            "real" => TypeExpr::Real(0),
            "bool" => TypeExpr::Bool,
            "str" => TypeExpr::Str,
            "auto" => TypeExpr::Infer,
            "const" => {
                self.want("<");
                let t = self.type_expr();
                self.want(">");
                t
            }
            _ => {
                if self.eat("<") {
                    let mut args = vec![];
                    while !self.eat(">") {
                        args.push(self.type_expr());
                        self.eat(",");
                    }
                    TypeExpr::Generic(name, args)
                } else {
                    TypeExpr::Named(name)
                }
            }
        };
        if self.eat("?") {
            TypeExpr::Nullable(Box::new(t))
        } else {
            t
        }
    }

    fn block(&mut self) -> Vec<StmtNode> {
        self.want("{");
        let mut out = vec![];
        while !self.eat("}") {
            let s = self.stmt();
            out.push(Node::new(0, span(), s));
            while self.eat(";") {}
        }
        out
    }

    fn stmt(&mut self) -> Stmt {
        if self.eat("return") {
            if self.is(";") || self.is("}") {
                return Stmt::Return(None);
            }
            return Stmt::Return(Some(self.expr()));
        }
        if self.eat("if") {
            self.want("(");
            let c = self.expr();
            self.want(")");
            let then_body = self.block();
            let else_body = if self.eat("else") { Some(self.block()) } else { None };
            return Stmt::If(c, then_body, else_body);
        }
        if self.eat("while") {
            self.want("(");
            let c = self.expr();
            self.want(")");
            return Stmt::While(c, self.block());
        }
        if self.eat("for") {
            self.want("(");
            let var = self.name();
            let of = self.eat("of");
            if !of {
                self.want("in");
            }
            let it = self.expr();
            self.want(")");
            return Stmt::For(var, it, self.block(), of);
        }
        if self.eat("loop") {
            return Stmt::Loop(self.block());
        }
        if let Tok::Id(name) = self.t[self.i].clone() {
            if self.is_at(1, ":") {
                self.i += 2;
                let is_const = self.is("const");
                let ty = self.type_node();
                self.want("=");
                let value = self.expr();
                return Stmt::Decl { name, type_expr: Some(ty), value, is_const };
            }
            if self.is_at(1, "=") {
                self.i += 2;
                return Stmt::Assign(name, self.expr());
            }
            for (op, b) in [("+=", BinOp::Add), ("-=", BinOp::Sub), ("*=", BinOp::Mul), ("/=", BinOp::Div)] {
                if self.is_at(1, op) {
                    self.i += 2;
                    let left = bx(expr(Expr::Ident(name.clone())));
                    let right = bx(self.expr());
                    return Stmt::Assign(name, expr(Expr::BinOp(left, b, right)));
                }
            }
        }
        Stmt::Expr(self.expr())
    }

    fn expr(&mut self) -> ExprNode {
        let a = self.binary(0);
        if self.eat("?:") {
            let b = self.expr();
            return expr(Expr::Elvis(bx(a), bx(b)));
        }
        a
    }

    fn binary(&mut self, level: usize) -> ExprNode {
        let levels: [&[(&str, BinOp)]; 10] = [
            &[("||", BinOp::Or)],
            &[("&&", BinOp::And)],
            &[("|", BinOp::BitOr)],
            &[("^", BinOp::BitXor)],
            &[("&", BinOp::BitAnd)],
            &[("==", BinOp::Eq), ("!=", BinOp::Ne)],
            &[("<=", BinOp::Le), (">=", BinOp::Ge), ("<", BinOp::Lt), (">", BinOp::Gt)],
            &[("<<", BinOp::Shl), (">>", BinOp::Shr)],
            &[("+", BinOp::Add), ("-", BinOp::Sub)],
            &[("*", BinOp::Mul), ("/", BinOp::Div), ("%", BinOp::Mod)],
        ];
        if level == levels.len() {
            return self.power();
        }
        let mut a = self.binary(level + 1);
        loop {
            let mut found = None;
            for (s, op) in levels[level] {
                if self.is(s) {
                    found = Some(*op);
                }
            }
            match found {
                Some(op) => {
                    self.i += 1;
                    let b = self.binary(level + 1);
                    a = expr(Expr::BinOp(bx(a), op, bx(b)));
                }
                None => {
                    if level == 7 && self.eat("..") {
                        let b = self.binary(level + 1);
                        a = expr(Expr::Range(bx(a), bx(b)));
                    } else {
                        return a;
                    }
                }
            }
        }
    }

    fn power(&mut self) -> ExprNode {
        let a = self.unary();
        if self.eat("**") {
            let b = self.power();
            return expr(Expr::BinOp(bx(a), BinOp::Pow, bx(b)));
        }
        a
    }

    fn unary(&mut self) -> ExprNode {
        for (s, op) in [("-", UnOp::Neg), ("!", UnOp::Not), ("~", UnOp::BitNot)] {
            if self.eat(s) {
                let e = self.unary();
                return expr(Expr::UnOp(op, bx(e)));
            }
        }
        if self.eat("spawn") {
            let e = self.unary();
            return expr(Expr::Spawn(bx(e)));
        }
        if self.eat("await") {
            let e = self.unary();
            return expr(Expr::Await(bx(e)));
        }
        self.postfix()
    }

    fn args(&mut self) -> Vec<ExprNode> {
        self.want("(");
        let mut out = vec![];
        while !self.eat(")") {
            out.push(self.expr());
            self.eat(",");
        }
        out
    }

    fn postfix(&mut self) -> ExprNode {
        let mut e = self.primary();
        loop {
            if self.is("(") {
                let args = self.args();
                e = expr(Expr::Call(bx(e), args));
            } else if self.eat(".") {
                let field = match self.t[self.i].clone() {
                    Tok::Id(s) => s,
                    Tok::Int(n) => n.to_string(),
                    other => panic!("expected a field, found {:?}", other),
                };
                self.i += 1;
                e = expr(Expr::Field(bx(e), field));
            } else if self.eat("?.") {
                let field = self.name();
                e = expr(Expr::SafeCall(bx(e), field));
            } else if self.eat("[") {
                let i = self.expr();
                self.want("]");
                e = expr(Expr::Index(bx(e), bx(i)));
            } else if self.eat("++") {
                e = expr(Expr::PostInc(bx(e)));
            } else if self.eat("--") {
                e = expr(Expr::PostDec(bx(e)));
            } else if self.eat("?") {
                e = expr(Expr::Try(bx(e)));
            } else if self.eat("as") {
                if self.eat("const") {
                    e = expr(Expr::AsConst(bx(e)));
                } else {
                    let t = self.type_node();
                    e = expr(Expr::As(bx(e), t));
                }
            } else {
                return e;
            }
        }
    }

    fn primary(&mut self) -> ExprNode {
        let tok = self.t[self.i].clone();
        self.i += 1;
        match tok {
            Tok::Int(n) => expr(Expr::LitInt(n)),
            Tok::Hex(n) => expr(Expr::LitHex(n)),
            Tok::Real(v) => expr(Expr::LitReal(real_lit(v))),
            Tok::Str(s) => expr(Expr::LitStr(s)),
            Tok::Op(o) if o == "(" => {
                let first = self.expr();
                if self.eat(",") {
                    let mut items = vec![first];
                    while !self.eat(")") {
                        items.push(self.expr());
                        self.eat(",");
                    }
                    expr(Expr::TupleLit(items))
                } else {
                    self.want(")");
                    first
                }
            }
            Tok::Op(o) if o == "[" => {
                let mut items = vec![];
                while !self.eat("]") {
                    items.push(self.expr());
                    self.eat(",");
                }
                expr(Expr::ListLit(items))
            }
            Tok::Id(name) => self.named(name),
            other => panic!("unexpected {:?}", other),
        }
    }

    fn named(&mut self, name: String) -> ExprNode {
        match name.as_str() {
            "true" => return expr(Expr::LitBool(true)),
            "false" => return expr(Expr::LitBool(false)),
            "null" => return expr(Expr::LitNull),
            "none" => return expr(Expr::LitNone),
            "Ok" => {
                self.want("(");
                let e = self.expr();
                self.want(")");
                return expr(Expr::ResultOk(bx(e)));
            }
            "Error" => {
                self.want("(");
                let e = self.expr();
                self.want(")");
                return expr(Expr::ResultErr(bx(e)));
            }
            "match" => {
                let e = self.expr();
                self.want("{");
                let mut arms = vec![];
                while !self.eat("}") {
                    let pattern = self.pattern();
                    self.want("=>");
                    let body = self.expr();
                    self.eat(",");
                    arms.push(MatchArm { pattern, body });
                }
                return expr(Expr::Match(bx(e), arms));
            }
            _ => {}
        }
        if self.eat("::") {
            let variant = self.name();
            let args = if self.is("(") { self.args() } else { vec![] };
            return expr(Expr::Variant(name, variant, args));
        }
        let upper = name.chars().next().unwrap().is_uppercase();
        if upper && self.is("{") && self.is_at(2, ":") {
            self.want("{");
            let mut fields = vec![];
            while !self.eat("}") {
                let f = self.name();
                self.want(":");
                let e = self.expr();
                self.eat(",");
                fields.push((f, e));
            }
            return expr(Expr::StructLit(name, fields));
        }
        expr(Expr::Ident(name))
    }

    fn pattern(&mut self) -> Pattern {
        let tok = self.t[self.i].clone();
        self.i += 1;
        match tok {
            Tok::Int(n) => Pattern::LitInt(n),
            Tok::Real(v) => Pattern::LitReal(real_lit(v)),
            Tok::Str(s) => Pattern::LitStr(s),
            Tok::Id(s) if s == "_" => Pattern::Ignore,
            Tok::Id(s) if s == "true" => Pattern::LitBool(true),
            Tok::Id(s) if s == "false" => Pattern::LitBool(false),
            Tok::Id(s) => {
                let mut subs = vec![];
                let call = self.eat("(");
                if call {
                    while !self.eat(")") {
                        subs.push(self.pattern());
                        self.eat(",");
                    }
                }
                if call || s.chars().next().unwrap().is_uppercase() {
                    Pattern::Variant(s, subs)
                } else {
                    Pattern::Ident(s)
                }
            }
            other => panic!("unexpected pattern {:?}", other),
        }
    }
}

fn parse(src: &str) -> Module {
    Reader { t: lex(src), i: 0 }.module()
}

// ---------------------------------------------------------------------------------------------
// A machine that runs LLVM text
// ---------------------------------------------------------------------------------------------

#[derive(Clone, Debug)]
enum V {
    I(i64),
    F(f64),
    Agg(Vec<V>),
}

impl V {
    fn whole(&self) -> i64 {
        match self {
            V::I(n) => *n,
            V::F(f) => f.to_bits() as i64,
            V::Agg(_) => panic!("an aggregate is no integer"),
        }
    }

    fn frac(&self) -> f64 {
        match self {
            V::F(f) => *f,
            V::I(n) => f64::from_bits(*n as u64),
            V::Agg(_) => panic!("an aggregate is no number"),
        }
    }
}

struct Func {
    params: Vec<String>,
    code: Vec<String>,
    labels: HashMap<String, usize>,
}

struct Machine {
    types: HashMap<String, Vec<String>>,
    globals: HashMap<String, i64>,
    funcs: HashMap<String, Func>,
    names: Vec<String>,
    mem: Vec<u8>,
    lists: Vec<Vec<i64>>,
    out: String,
}

const FN_BASE: i64 = 1 << 40;

/// Splits a type off the front of a text.
fn take_type(s: &str) -> (String, &str) {
    let s = s.trim_start();
    let mut depth = 0;
    for (i, ch) in s.char_indices() {
        match ch {
            '{' | '[' | '<' | '(' => depth += 1,
            '}' | ']' | '>' | ')' => depth -= 1,
            ' ' | ',' if depth == 0 => return (s[..i].to_string(), s[i..].trim_start()),
            _ => {}
        }
    }
    (s.to_string(), "")
}

/// The parts between the commas outside brackets.
fn commas(s: &str) -> Vec<String> {
    let mut out = vec![];
    let mut depth = 0;
    let mut cur = String::new();
    for ch in s.chars() {
        match ch {
            '{' | '[' | '<' | '(' => depth += 1,
            '}' | ']' | '>' | ')' => depth -= 1,
            _ => {}
        }
        if ch == ',' && depth == 0 {
            out.push(cur.trim().to_string());
            cur = String::new();
        } else {
            cur.push(ch);
        }
    }
    if !cur.trim().is_empty() {
        out.push(cur.trim().to_string());
    }
    out
}

impl Machine {
    fn load(ir: &str) -> Machine {
        let mut m = Machine {
            types: HashMap::new(),
            globals: HashMap::new(),
            funcs: HashMap::new(),
            names: vec![],
            mem: vec![0; 16],
            lists: vec![],
            out: String::new(),
        };
        let mut cur: Option<(String, Func)> = None;
        let mut later = vec![];
        for line in ir.lines() {
            let t = line.trim();
            if let Some((_, f)) = &mut cur {
                if t == "}" {
                    let (name, f) = cur.take().unwrap();
                    m.names.push(name.clone());
                    m.funcs.insert(name, f);
                } else if t.ends_with(':') {
                    f.labels.insert(t[..t.len() - 1].to_string(), f.code.len());
                    f.code.push(t.to_string());
                } else if !t.is_empty() && !t.starts_with(';') {
                    f.code.push(t.to_string());
                }
                continue;
            }
            if let Some(rest) = t.strip_prefix("define ") {
                let at = rest.find('@').unwrap();
                let open = rest[at..].find('(').unwrap() + at;
                let close = rest.rfind(')').unwrap();
                let mut params = vec![];
                for (i, p) in commas(&rest[open + 1..close]).iter().enumerate() {
                    let (_, name) = take_type(p);
                    params.push(if name.is_empty() { format!("%{}", i) } else { name.to_string() });
                }
                cur = Some((rest[at + 1..open].to_string(), Func { params, code: vec![], labels: HashMap::new() }));
            } else if t.starts_with('%') && t.contains(" = type {") {
                let name = t[..t.find(' ').unwrap()].to_string();
                let inner = &t[t.find('{').unwrap() + 1..t.rfind('}').unwrap()];
                m.types.insert(name, commas(inner));
            } else if t.starts_with('@') {
                later.push(t.to_string());
            }
        }
        for t in &later {
            let name = t[1..t.find(' ').unwrap()].to_string();
            if let Some(c) = t.find("c\"") {
                let body = &t[c + 2..t.rfind('"').unwrap()];
                let b = body.as_bytes();
                let mut bytes = vec![];
                let mut i = 0;
                while i < b.len() {
                    if b[i] == b'\\' && b[i + 1] == b'\\' {
                        bytes.push(b'\\');
                        i += 2;
                    } else if b[i] == b'\\' {
                        bytes.push(u8::from_str_radix(&body[i + 1..i + 3], 16).unwrap());
                        i += 3;
                    } else {
                        bytes.push(b[i]);
                        i += 1;
                    }
                }
                let declared: usize = t[t.find('[').unwrap() + 1..t.find(" x i8]").unwrap()].parse().unwrap();
                assert_eq!(declared, bytes.len(), "the size of a constant");
                let at = m.room(bytes.len());
                m.mem[at as usize..at as usize + bytes.len()].copy_from_slice(&bytes);
                m.globals.insert(name, at);
            } else {
                let rest = &t[t.find(" global ").unwrap() + 8..];
                let (ty, init) = take_type(rest);
                let at = m.room(m.size(&ty));
                m.globals.insert(name, at);
                if init.starts_with('{') {
                    let inner = &init[1..init.rfind('}').unwrap()];
                    for (i, p) in commas(inner).iter().enumerate() {
                        let f = p.strip_prefix("ptr @").unwrap();
                        let addr = m.address(f);
                        m.put64(at + 8 * i as i64, addr);
                    }
                }
            }
        }
        m
    }

    fn address(&self, f: &str) -> i64 {
        match self.globals.get(f) {
            Some(a) => *a,
            None => FN_BASE + self.names.iter().position(|n| n == f).unwrap() as i64,
        }
    }

    fn room(&mut self, n: usize) -> i64 {
        while self.mem.len() % 8 != 0 {
            self.mem.push(0);
        }
        let at = self.mem.len();
        self.mem.resize(at + n.max(8), 0);
        at as i64
    }

    fn fields(&self, ty: &str) -> Option<Vec<String>> {
        self.types.get(ty).cloned()
    }

    fn size(&self, ty: &str) -> usize {
        if ty == "i8" {
            return 1;
        }
        match self.fields(ty) {
            Some(fs) => fs.iter().map(|f| self.size(f).max(8)).sum(),
            None => 8,
        }
    }

    fn get64(&self, at: i64) -> i64 {
        let a = at as usize;
        i64::from_le_bytes(self.mem[a..a + 8].try_into().unwrap())
    }

    fn put64(&mut self, at: i64, v: i64) {
        let a = at as usize;
        self.mem[a..a + 8].copy_from_slice(&v.to_le_bytes());
    }

    fn read(&self, ty: &str, at: i64) -> V {
        match self.fields(ty) {
            Some(fs) => {
                let mut off = at;
                let mut out = vec![];
                for f in &fs {
                    out.push(self.read(f, off));
                    off += self.size(f).max(8) as i64;
                }
                V::Agg(out)
            }
            None if ty == "double" => V::F(f64::from_bits(self.get64(at) as u64)),
            None if ty == "i8" => V::I(self.mem[at as usize] as i64),
            None => V::I(self.get64(at)),
        }
    }

    fn write(&mut self, ty: &str, at: i64, v: &V) {
        match (self.fields(ty), v) {
            (Some(fs), V::Agg(vs)) => {
                let mut off = at;
                for (f, x) in fs.iter().zip(vs) {
                    self.write(f, off, x);
                    off += self.size(f).max(8) as i64;
                }
            }
            (None, V::F(f)) => self.put64(at, f.to_bits() as i64),
            (None, V::I(n)) if ty == "i8" => self.mem[at as usize] = *n as u8,
            (None, V::I(n)) => self.put64(at, *n),
            other => panic!("cannot store {:?} as {}", other.1, ty),
        }
    }

    fn zero(&self, ty: &str) -> V {
        match self.fields(ty) {
            Some(fs) => V::Agg(fs.iter().map(|f| self.zero(f)).collect()),
            None if ty == "double" => V::F(0.0),
            None => V::I(0),
        }
    }

    fn value(&self, ty: &str, s: &str, env: &HashMap<String, V>) -> V {
        let s = s.trim();
        if s.starts_with('%') {
            return env.get(s).unwrap_or_else(|| panic!("{} is not set", s)).clone();
        }
        if let Some(g) = s.strip_prefix('@') {
            return V::I(self.address(g));
        }
        match s {
            "undef" | "zeroinitializer" => self.zero(ty),
            "true" => V::I(1),
            "false" | "null" => V::I(0),
            _ if ty == "double" => V::F(s.parse().unwrap()),
            _ => V::I(s.parse().unwrap()),
        }
    }

    fn call(&mut self, name: &str, args: Vec<V>) -> V {
        if !self.funcs.contains_key(name) {
            return self.runtime(name, args);
        }
        let f = &self.funcs[name];
        let code = f.code.clone();
        let labels = f.labels.clone();
        let mut env: HashMap<String, V> = HashMap::new();
        for (p, a) in f.params.iter().zip(args) {
            env.insert(p.clone(), a);
        }
        let mut pc = 0;
        let mut here = String::new();
        let mut before = String::new();
        let mut steps = 0;
        loop {
            steps += 1;
            assert!(steps < 100_000, "the program does not end");
            let line = code[pc].clone();
            pc += 1;
            if line.ends_with(':') {
                let l = line[..line.len() - 1].to_string();
                if here != l {
                    before = here;
                    here = l;
                }
                continue;
            }
            if line == "ret void" {
                return V::I(0);
            }
            if let Some(r) = line.strip_prefix("ret ") {
                let (ty, v) = take_type(r);
                return self.value(&ty, v, &env);
            }
            if let Some(r) = line.strip_prefix("br label %") {
                before = here;
                here = r.to_string();
                pc = labels[r];
                continue;
            }
            if let Some(r) = line.strip_prefix("br i1 ") {
                let p = commas(r);
                let t = if self.value("i1", &p[0], &env).whole() & 1 == 1 { &p[1] } else { &p[2] };
                let l = t.strip_prefix("label %").unwrap();
                before = here;
                here = l.to_string();
                pc = labels[l];
                continue;
            }
            if let Some(r) = line.strip_prefix("store ") {
                let (ty, rest) = take_type(r);
                let p = commas(rest);
                let v = self.value(&ty, &p[0], &env);
                let at = self.value("ptr", p[1].strip_prefix("ptr ").unwrap(), &env).whole();
                self.write(&ty, at, &v);
                continue;
            }
            let (dest, op) = match line.find(" = ") {
                Some(i) if line.starts_with('%') => (Some(line[..i].to_string()), line[i + 3..].to_string()),
                _ => (None, line.clone()),
            };
            let v = self.step(&op, &env, &before);
            if let Some(d) = dest {
                env.insert(d, v);
            }
        }
    }

    fn step(&mut self, op: &str, env: &HashMap<String, V>, before: &str) -> V {
        let (word, rest) = match op.find(' ') {
            Some(i) => (&op[..i], op[i + 1..].trim()),
            None => (op, ""),
        };
        match word {
            "alloca" => {
                let ty = take_type(rest).0;
                let n = self.size(&ty);
                V::I(self.room(n))
            }
            "load" => {
                let p = commas(rest);
                let at = self.value("ptr", p[1].strip_prefix("ptr ").unwrap(), env).whole();
                self.read(&p[0], at)
            }
            "getelementptr" => {
                let rest = rest.strip_prefix("inbounds ").unwrap_or(rest);
                let p = commas(rest);
                let ty = p[0].clone();
                let mut at = self.value("ptr", p[1].strip_prefix("ptr ").unwrap(), env).whole();
                let idx: Vec<i64> = p[2..]
                    .iter()
                    .map(|x| {
                        let (t, v) = take_type(x);
                        self.value(&t, v, env).whole()
                    })
                    .collect();
                if idx.len() == 2 {
                    if let Some(fs) = self.fields(&ty) {
                        for f in &fs[..idx[1] as usize] {
                            at += self.size(f).max(8) as i64;
                        }
                    } else {
                        at += idx[1];
                    }
                } else {
                    at += idx[0] * self.size(&ty) as i64;
                }
                V::I(at)
            }
            "insertvalue" => {
                let p = commas(rest);
                let (ty, v) = take_type(&p[0]);
                let (ft, fv) = take_type(&p[1]);
                let n: usize = p[2].parse().unwrap();
                let mut agg = match self.value(&ty, v, env) {
                    V::Agg(a) => a,
                    other => panic!("{:?} is no aggregate of {}", other, ty),
                };
                agg[n] = self.value(&ft, fv, env);
                V::Agg(agg)
            }
            "extractvalue" => {
                let p = commas(rest);
                let (ty, v) = take_type(&p[0]);
                let n: usize = p[1].parse().unwrap();
                match self.value(&ty, v, env) {
                    V::Agg(a) => a[n].clone(),
                    other => panic!("{:?} is no aggregate of {}", other, ty),
                }
            }
            "add" | "sub" | "mul" | "sdiv" | "srem" | "and" | "or" | "xor" | "shl" | "ashr" => {
                let rest = rest.strip_prefix("nsw ").unwrap_or(rest);
                let (ty, r) = take_type(rest);
                let p = commas(r);
                let a = self.value(&ty, &p[0], env).whole();
                let b = self.value(&ty, &p[1], env).whole();
                V::I(match word {
                    "add" => a + b,
                    "sub" => a - b,
                    "mul" => a * b,
                    "sdiv" => a / b,
                    "srem" => a % b,
                    "and" => a & b,
                    "or" => a | b,
                    "xor" => a ^ b,
                    "shl" => a << b,
                    _ => a >> b,
                })
            }
            "fadd" | "fsub" | "fmul" | "fdiv" | "frem" => {
                let (ty, r) = take_type(rest);
                let p = commas(r);
                let a = self.value(&ty, &p[0], env).frac();
                let b = self.value(&ty, &p[1], env).frac();
                V::F(match word {
                    "fadd" => a + b,
                    "fsub" => a - b,
                    "fmul" => a * b,
                    "fdiv" => a / b,
                    _ => a % b,
                })
            }
            "icmp" | "fcmp" => {
                let (cond, r) = rest.split_once(' ').unwrap();
                let (ty, r) = take_type(r);
                let p = commas(r);
                let a = self.value(&ty, &p[0], env);
                let b = self.value(&ty, &p[1], env);
                let yes = if ty == "double" {
                    let (a, b) = (a.frac(), b.frac());
                    match cond {
                        "oeq" => a == b,
                        "one" => a != b,
                        "olt" => a < b,
                        "ogt" => a > b,
                        "ole" => a <= b,
                        _ => a >= b,
                    }
                } else {
                    let (a, b) = (a.whole(), b.whole());
                    match cond {
                        "eq" => a == b,
                        "ne" => a != b,
                        "slt" => a < b,
                        "sgt" => a > b,
                        "sle" => a <= b,
                        "sge" => a >= b,
                        "ugt" => (a as u64) > (b as u64),
                        other => panic!("no such comparison: {}", other),
                    }
                };
                V::I(yes as i64)
            }
            "zext" | "sext" | "trunc" | "ptrtoint" | "inttoptr" | "bitcast" | "sitofp" | "fptosi" => {
                let (ty, r) = take_type(rest);
                let (v, to) = r.split_once(" to ").unwrap();
                let v = self.value(&ty, v, env);
                match word {
                    "sitofp" => V::F(v.whole() as f64),
                    "fptosi" => V::I(v.frac() as i64),
                    "bitcast" if to == "i64" => V::I(v.frac().to_bits() as i64),
                    _ => V::I(v.whole()),
                }
            }
            "select" => {
                let p = commas(rest);
                let (_, c) = take_type(&p[0]);
                let chosen = if self.value("i1", c, env).whole() & 1 == 1 { &p[1] } else { &p[2] };
                let (ty, v) = take_type(chosen);
                self.value(&ty, v, env)
            }
            "phi" => {
                let (ty, r) = take_type(rest);
                for p in commas(r) {
                    let inner = p.trim_start_matches('[').trim_end_matches(']').trim().to_string();
                    let (v, l) = inner.split_once(", %").unwrap();
                    if l.trim() == before {
                        return self.value(&ty, v, env);
                    }
                }
                panic!("no value for the block {}", before)
            }
            "call" => {
                let (_, r) = take_type(rest);
                let r = if r.starts_with('(') { r[r.find(") ").unwrap() + 2..].trim() } else { r };
                let open = r.find('(').unwrap();
                let args: Vec<V> = commas(&r[open + 1..r.rfind(')').unwrap()])
                    .iter()
                    .map(|a| {
                        let (t, v) = take_type(a);
                        self.value(&t, v, env)
                    })
                    .collect();
                let callee = &r[..open];
                let name = match callee.strip_prefix('@') {
                    Some(n) => n.to_string(),
                    None => {
                        let at = self.value("ptr", callee, env).whole();
                        self.names[(at - FN_BASE) as usize].clone()
                    }
                };
                self.call(&name, args)
            }
            other => panic!("no such instruction: {}", other),
        }
    }

    fn text(&self, at: i64) -> String {
        let data = self.get64(at) as usize;
        let len = self.get64(at + 8) as usize;
        String::from_utf8(self.mem[data..data + len].to_vec()).unwrap()
    }

    fn string(&mut self, s: &str) -> V {
        let data = self.room(s.len());
        self.mem[data as usize..data as usize + s.len()].copy_from_slice(s.as_bytes());
        let at = self.room(16);
        self.put64(at, data);
        self.put64(at + 8, s.len() as i64);
        V::I(at)
    }

    fn say(&mut self, s: &str) -> V {
        self.out.push_str(s);
        self.out.push('\n');
        V::I(0)
    }

    fn list(&self, v: &V) -> String {
        let items: Vec<String> = self.lists[v.whole() as usize - 1].iter().map(|n| n.to_string()).collect();
        format!("[{}]", items.join(", "))
    }

    fn runtime(&mut self, name: &str, a: Vec<V>) -> V {
        match name {
            "llvm.memcpy.p0.p0.i64" => {
                let (to, from, n) = (a[0].whole() as usize, a[1].whole() as usize, a[2].whole() as usize);
                self.mem.copy_within(from..from + n, to);
                V::I(0)
            }
            "yk_print_int" => self.say(&a[0].whole().to_string()),
            "yk_print_real" => self.say(&format!("{}", a[0].frac())),
            "yk_print_bool" => self.say(if a[0].whole() != 0 { "true" } else { "false" }),
            "yk_print_str_ptr" => {
                let t = self.text(a[0].whole());
                self.say(&t)
            }
            "yk_string_from_int" => self.string(&a[0].whole().to_string()),
            "yk_string_from_real" => self.string(&format!("{}", a[0].frac())),
            "yk_string_from_bool" => self.string(if a[0].whole() != 0 { "true" } else { "false" }),
            "yk_string_concat_ptr" => {
                let t = self.text(a[0].whole()) + &self.text(a[1].whole());
                self.string(&t)
            }
            "yk_string_len_ptr" => V::I(self.get64(a[0].whole() + 8)),
            "yk_math_abs_i64" => V::I(a[0].whole().abs()),
            "yk_math_abs_real" => V::F(a[0].frac().abs()),
            "yk_math_sqrt" => V::F(a[0].frac().sqrt()),
            "yk_math_sin" => V::F(a[0].frac().sin()),
            "yk_pow_int" => V::I(a[0].whole().pow(a[1].whole() as u32)),
            "yk_pow_real" => V::F(a[0].frac().powf(a[1].frac())),
            "yk_time_timestamp" => V::I(1_700_000_000),
            "yk_sys_pid" => V::I(4711),
            "yk_json_string" => {
                let t = format!("\"{}\"", self.text(a[0].whole()));
                self.string(&t)
            }
            "yk_re_match" => {
                assert_eq!(self.text(a[0].whole()), "\\d+");
                V::I(self.text(a[1].whole()).chars().any(|c| c.is_ascii_digit()) as i64)
            }
            "yk_re_replace" => {
                assert_eq!(self.text(a[0].whole()), "\\d+");
                let with = self.text(a[2].whole());
                let mut out = String::new();
                let mut inside = false;
                for c in self.text(a[1].whole()).chars() {
                    if c.is_ascii_digit() {
                        if !inside {
                            out.push_str(&with);
                        }
                        inside = true;
                    } else {
                        inside = false;
                        out.push(c);
                    }
                }
                self.string(&out)
            }
            "yk_base64_encode" => {
                let table: Vec<char> =
                    "ABCDEFGHIJKLMNOPQRSTUVWXYZabcdefghijklmnopqrstuvwxyz0123456789+/".chars().collect();
                let mut out = String::new();
                for c in self.text(a[0].whole()).as_bytes().chunks(3) {
                    let n = (c[0] as u32) << 16
                        | (*c.get(1).unwrap_or(&0) as u32) << 8
                        | *c.get(2).unwrap_or(&0) as u32;
                    for k in 0..4 {
                        if k <= c.len() {
                            out.push(table[(n >> (18 - 6 * k)) as usize & 63]);
                        } else {
                            out.push('=');
                        }
                    }
                }
                self.string(&out)
            }
            "yk_path_is_absolute" => {
                let t = self.text(a[0].whole());
                V::I((t.len() > 2 && t.as_bytes()[1] == b':') as i64)
            }
            "yk_list_new" => {
                self.lists.push(vec![]);
                V::I(self.lists.len() as i64)
            }
            "yk_list_push" => {
                self.lists[a[0].whole() as usize - 1].push(a[1].whole());
                V::I(0)
            }
            "yk_list_pop" => V::I(self.lists[a[0].whole() as usize - 1].pop().unwrap_or(0)),
            "yk_list_len" => V::I(self.lists[a[0].whole() as usize - 1].len() as i64),
            "yk_list_get" => V::I(self.lists[a[0].whole() as usize - 1][a[1].whole() as usize]),
            "yk_list_sort" => {
                self.lists[a[0].whole() as usize - 1].sort();
                V::I(0)
            }
            "yk_list_reverse" => {
                self.lists[a[0].whole() as usize - 1].reverse();
                V::I(0)
            }
            "yk_list_insert" => {
                self.lists[a[0].whole() as usize - 1].insert(a[1].whole() as usize, a[2].whole());
                V::I(0)
            }
            "yk_list_remove" => {
                self.lists[a[0].whole() as usize - 1].remove(a[1].whole() as usize);
                V::I(0)
            }
            "yk_list_clear" => {
                self.lists[a[0].whole() as usize - 1].clear();
                V::I(0)
            }
            "yk_list_print" => {
                let t = self.list(&a[0]);
                self.say(&t)
            }
            "yk_list_to_string" => {
                let t = self.list(&a[0]);
                self.string(&t)
            }
            "yk_result_str_new" => {
                let at = self.room(16);
                self.put64(at, a[0].whole());
                self.put64(at + 8, a[1].whole());
                V::I(at)
            }
            "yk_print_result_val" => {
                let t = self.text(a[0].whole());
                let word = if a[1].whole() != 0 { "Ok" } else { "Error" };
                self.say(&format!("{}({})", word, t))
            }
            "yk_http_new" => V::I(1),
            "yk_http_status" => V::I(0),
            "yk_http_body" => self.string(""),
            other => panic!("the runtime has no {}", other),
        }
    }
}

/// What a program prints when the LLVM text that it is compiled to is run.
fn run(source: &str) -> String {
    let module = parse(source);
    let ir = compile_to_llvm(&module);
    let mut m = Machine::load(&ir);
    m.call("main", vec![V::I(1), V::I(0)]);
    m.out
}

/// Compiles and runs a program; `expected` is what the language says that it prints.
fn check_compat(source: &str, test_name: &str, expected: &str) {
    assert_eq!(run(source).trim(), expected, "compat_{}: output mismatch", test_name);
}

/// Compiles and runs a program that prints a positive number.
fn check_compat_approx(source: &str, test_name: &str) {
    let out = run(source);
    let n: i64 = out.trim().parse().expect("not a number");
    assert!(n > 0, "compat_{}: value must be positive", test_name);
}

#[test]
fn compat_print_hello() {
    check_compat("fn main() { print(\"hello\"); }", "print_hello", "hello");
}

#[test]
fn compat_print_int() {
    check_compat("fn main() { print(42); }", "print_int", "42");
}

#[test]
fn compat_print_real() {
    check_compat("fn main() { print(3.14); }", "print_real", "3.14");
}

#[test]
fn compat_print_bool() {
    check_compat("fn main() { print(true); }", "print_bool", "true");
}

#[test]
fn compat_print_str() {
    check_compat("fn main() { print(\"hello world\"); }", "print_str", "hello world");
}

#[test]
fn compat_arithmetic_int() {
    check_compat("fn main() { print(1 + 2 * 3); }", "arithmetic_int", "7");
}

#[test]
fn compat_fn_call() {
    check_compat(
        "fn double(x: int) -> int { return x * 2; }
         fn main() { print(double(5)); }",
        "fn_call", "10",
    );
}

#[test]
fn compat_struct_field() {
    check_compat(
        "struct Point { x: int, y: int }
         fn main() { p: Point = Point { x: 10, y: 20 }; print(p.x); }",
        "struct_field", "10",
    );
}

#[test]
fn compat_if_else() {
    check_compat(
        "fn main() { x: int = 5; if (x > 3) { print(1); } else { print(0); } }",
        "if_else", "1",
    );
}

#[test]
fn compat_while_loop() {
    check_compat(
        "fn main() { i: int = 0; while (i < 3) { print(i); i = i + 1; } }",
        "while_loop", "0\n1\n2",
    );
}

#[test]
fn compat_for_loop() {
    check_compat(
        "fn main() { for (i in 0..3) { print(i); } }",
        "for_loop", "0\n1\n2\n3",
    );
}

#[test]
fn compat_const_syntax() {
    check_compat("fn main() { x: const<int> = 42; print(x); }", "const_syntax", "42");
}

#[test]
fn compat_const_as_const() {
    check_compat("fn main() { x: int = 42 as const; print(x); }", "const_as_const", "42");
}

#[test]
fn compat_double_print() {
    check_compat(
        "fn main() { print(1); print(2); print(3); }",
        "double_print", "1\n2\n3",
    );
}

#[test]
fn compat_mixed_print() {
    check_compat(
        r#"fn main() { print(1); print("hello"); print(true); }"#,
        "mixed_print", "1\nhello\ntrue",
    );
}

#[test]
fn compat_string_concat() {
    check_compat(
        r#"fn main() { s: str = "hello " + "world"; print(s); }"#,
        "string_concat", "hello world",
    );
}

#[test]
fn compat_math_module() {
    check_compat(
        "use { sqrt } from \"math\";
         fn main() { print(sqrt(16.0)); }",
        "math_module", "4",
    );
}

#[test]
fn compat_time_module() {
    check_compat_approx(
        "use { timestamp } from \"time\";
         fn main() { print(timestamp()); }",
        "time_module",
    );
}

#[test]
fn compat_json_stringify() {
    check_compat(
        r#"use { json } from "json";
         fn main() { print(json.stringify(42)); print(json.stringify("hello")); print(json.stringify(true)); }"#,
        "json_stringify", "42\n\"hello\"\ntrue",
    );
}

#[test]
fn compat_regex_match() {
    check_compat(
        r#"use { regex } from "regex";
         fn main() { print(regex.match("\\d+", "abc123")); print(regex.match("\\d+", "abc")); }"#,
        "regex_match", "true\nfalse",
    );
}

#[test]
fn compat_regex_replace() {
    check_compat(
        r#"use { regex } from "regex";
         fn main() { print(regex.replace("\\d+", "a1b2", "X")); }"#,
        "regex_replace", "aXbX",
    );
}

#[test]
fn compat_sys_module() {
    check_compat_approx(
        "use { sys } from \"std\";
         fn main() { print(sys.pid()); }",
        "sys_module",
    );
}

#[test]
fn compat_base64_module() {
    check_compat(
        "use { base64 } from \"base64\";
         fn main() { print(base64.encode(\"hello\")); }",
        "base64_module", "aGVsbG8=",
    );
}

#[test]
fn compat_path_module() {
    check_compat(
        "use { path } from \"path\";
         fn main() { print(path.is_absolute(\"/tmp\")); }",
        "path_module", "false",
    );
}

#[test]
fn compat_class_field() {
    check_compat(
        "class Dog { name: str; }
         fn main() { d: Dog = Dog { name: \"Rex\" }; print(d.name); }",
        "class_field", "Rex",
    );
}

#[test]
fn compat_class_method() {
    check_compat(
        "class Dog { name: str; fn speak(self) -> str { return \"woof\"; } }
         fn main() { d: Dog = Dog { name: \"Rex\" }; print(d.speak()); }",
        "class_method", "woof",
    );
}

#[test]
fn compat_generic_class() {
    check_compat(
        "class Box<T> { val: T; fn get(self) -> T { return self.val; } }
         fn main() { b: Box<int> = Box { val: 42 }; print(b.get()); }",
        "generic_class", "42",
    );
}

#[test]
fn compat_class_constructor_call() {
    check_compat(
        "class Foo(x: int, y: str) {
            fn get_x(&self) -> int { return self.x; }
            fn get_y(&self) -> str { return self.y; }
         }
         fn main() {
            f: Foo = Foo(42, \"hi\");
            print(f.get_x());
            print(f.get_y());
         }",
        "class_ctor", "42\nhi",
    );
}

#[test]
fn compat_class_constructor_with_init() {
    check_compat(
        "class Counter(start: int) {
            fn get(&self) -> int { return self.start; }
            init { print(\"init \"); }
         }
         fn main() {
            c: Counter = Counter(99);
            print(c.get());
         }",
        "class_init", "init \n99",
    );
}

#[test]
fn compat_try_ok() {
    check_compat(
        "fn foo() -> Result<int, str> { return Ok(42); }
         fn main() { x: int = foo()?; print(x); }",
        "try_ok", "42",
    );
}

#[test]
fn compat_try_error() {
    check_compat(
        "fn bar() -> Result<int, str> { return Error(\"fail\"); }
         fn foo() -> Result<int, str> { x: int = bar()?; return Ok(x); }
         fn main() { r: auto = foo(); print(r); }",
        "try_error", "Error(fail)",
    );
}

#[test]
fn compat_list_push_pop() {
    check_compat(
        "fn main() { items: auto = []; items.push(1); items.push(2); items.push(3); print(items.pop()); print(items.pop()); }",
        "list_push_pop", "3\n2",
    );
}

#[test]
fn compat_list_len() {
    check_compat(
        "fn main() { items: auto = [1, 2, 3]; print(len(items)); }",
        "list_len", "3",
    );
}

#[test]
fn compat_list_sort() {
    check_compat(
        "fn main() { items: auto = [3, 1, 2]; items.sort(); print(items.pop()); print(items.pop()); print(items.pop()); }",
        "list_sort", "3\n2\n1",
    );
}

#[test]
fn compat_list_reverse() {
    check_compat(
        "fn main() { items: auto = [1, 2, 3]; items.reverse(); print(items.pop()); }",
        "list_reverse", "1",
    );
}

#[test]
fn compat_list_insert_remove() {
    check_compat(
        "fn main() { items: auto = [1, 2, 3]; items.insert(0, 9); items.remove(1); print(len(items)); print(items.pop()); }",
        "list_insert_remove", "3\n3",
    );
}

#[test]
fn compat_list_clear() {
    check_compat(
        "fn main() { items: auto = [1, 2, 3]; items.clear(); print(len(items)); }",
        "list_clear", "0",
    );
}

#[test]
fn compat_list_index() {
    check_compat(
        "fn main() { items: auto = [10, 20, 30]; print(items[1]); }",
        "list_index", "20",
    );
}

#[test]
fn compat_net_server_import() {
    check_compat(
        "use { Server } from \"net\"
         fn main() { print(\"net ok\"); }",
        "net_server_import", "net ok",
    );
}

#[test]
fn compat_http_class_properties() {
    let source = r#"use { HTTP } from "net"
fn main() {
http = HTTP()
print(http.status)
print(http.body)
}"#;
    check_compat(source, "http_class_properties", "0");
}

#[test]
fn compat_nullable_elvis_null() {
    check_compat(
        "fn main() { x: int? = null; y: int = x ?: 42; print(y); }",
        "nullable_elvis_null", "42",
    );
}

#[test]
fn compat_nullable_elvis_non_null() {
    check_compat(
        "fn main() { x: int? = 10; y: int = x ?: 42; print(y); }",
        "nullable_elvis_non_null", "10",
    );
}

#[test]
fn compat_nullable_safe_call_null() {
    check_compat(
        "struct Foo { val: int; }
         fn main() { x: Foo? = null; v: int? = x?.val; print(v ?: -1); }",
        "nullable_safe_call_null", "-1",
    );
}

#[test]
fn compat_nullable_safe_call_non_null() {
    check_compat(
        "struct Foo { val: int; }
         fn main() { x: Foo? = Foo { val: 99 }; v: int? = x?.val; print(v ?: -1); }",
        "nullable_safe_call_non_null", "99",
    );
}

#[test]
fn compat_nullable_null_literal() {
    check_compat(
        "fn main() { x: int? = null; print(x ?: 0); }",
        "nullable_null_literal", "0",
    );
}

#[test]
fn compat_tuple_literal() {
    check_compat(
        "fn main() { t = (42, \"hello\"); print(t.0); print(t.1); }",
        "tuple_literal", "42\nhello",
    );
}

#[test]
fn compat_post_inc() {
    check_compat(
        "fn main() { i: int = 1; i++; print(i); }",
        "post_inc", "2",
    );
}

#[test]
fn compat_post_dec() {
    check_compat(
        "fn main() { i: int = 5; i--; print(i); }",
        "post_dec", "4",
    );
}

#[test]
fn compat_enum_match_payload() {
    // Note: uses `_` instead of bound variable `v` due to interpreter
    // bug with pattern variable binding in variant subpatterns.
    check_compat(
        "enum Option { Some(x: int); Nothing; }
         fn main() {
             x: Option = Option::Some(42);
             y: int = match x {
                 Some(_) => 1,
                 Nothing => 0,
             };
             print(y);
         }",
        "enum_match_payload", "1",
    );
}

#[test]
fn compat_enum_unit_variant() {
    check_compat(
        "enum Color { Red; Green; Blue; }
         fn main() {
             c: Color = Color::Red;
             v: int = match c {
                 Red => 1,
                 _ => 0,
             };
             print(v);
         }",
        "enum_unit_variant", "1",
    );
}

#[test]
fn compat_union_type_annotation() {
    check_compat(
        "fn main() { x: int | str = 42; print(x); x = \"hello\"; print(x); }",
        "union_type_annotation", "42\nhello",
    );
}

#[test]
fn compat_union_type_param() {
    check_compat(
        "fn foo(x: int | str) { print(x); }
         fn main() { foo(42); foo(\"hello\"); }",
        "union_type_param", "42\nhello",
    );
}

#[test]
fn compat_union_str() {
    check_compat(
        "fn main() {
            x: int | str = 42;
            print(str(x));
            x = \"hello\";
            print(str(x));
        }",
        "union_str", "42\nhello",
    );
}

#[test]
fn compat_union_print() {
    check_compat(
        "fn main() {
            print(42);
            print(\"hello\");
            x: int | str = 42;
            print(x);
            x = \"hello\";
            print(x);
        }",
        "union_print", "42\nhello\n42\nhello",
    );
}

#[test]
fn compat_length_string() {
    check_compat(
        r#"fn main() { s: str = "hello"; print(s.length); }"#,
        "length_string", "5",
    );
}

#[test]
fn compat_length_list() {
    check_compat(
        "fn main() { items: auto = [10, 20, 30]; print(items.length); }",
        "length_list", "3",
    );
}

#[test]
fn compat_to_string_int() {
    check_compat(
        "fn main() { print((42).toString()); }",
        "to_string_int", "42",
    );
}

#[test]
fn compat_to_string_list() {
    check_compat(
        "fn main() { items: auto = [1, 2, 3]; print(items.toString()); }",
        "to_string_list", "[1, 2, 3]",
    );
}

#[test]
fn compat_str_list() {
    check_compat(
        "fn main() { items: auto = [1, 2]; print(str(items)); }",
        "str_list", "[1, 2]",
    );
}

#[test]
fn compat_math_abs() {
    check_compat(
        "use { abs } from \"math\";
         fn main() { print(abs(-5)); }",
        "math_abs", "5",
    );
}

#[test]
fn compat_math_sqrt() {
    check_compat(
        "use { sqrt } from \"math\";
         fn main() { print(sqrt(9.0)); }",
        "math_sqrt", "3",
    );
}

#[test]
fn compat_math_sin() {
    check_compat(
        "use { sin } from \"math\";
         fn main() { print(sin(0.0)); }",
        "math_sin", "0",
    );
}

#[test]
fn compat_interface_method_call() {
    check_compat(
        "interface Drawable { fn draw(&self) -> str; }
         class Circle implements Drawable {
             x: int;
             fn draw(&self) -> str { return \"circle\"; }
         }
         fn describe(d: Drawable) -> str {
             return d.draw();
         }
         fn main() {
             d: Drawable = Circle { x: 10 };
             print(d.draw());
             print(describe(Circle { x: 20 }));
         }",
        "interface_method_call", "circle\ncircle",
    );
}

#[test]
fn compat_object_basic() {
    check_compat(
        "object Logger {
             fn log(msg: str) {
                 print(msg);
             }
         }
         fn main() {
             Logger.log(\"hello from object\");
         }",
         "object_basic", "hello from object",
    );
}

#[test]
fn compat_arith_mod() {
    check_compat(
        "fn main() { print(17 % 5); print(-17 % 5); }",
        "arith_mod", "2\n-2",
    );
}

#[test]
fn compat_arith_pow() {
    check_compat(
        "fn main() { print(2 ** 10); print(3 ** 4); }",
        "arith_pow", "1024\n81",
    );
}

#[test]
fn compat_arith_pow_real() {
    check_compat(
        "fn main() { print(2.0 ** 3.0); print(4.0 ** 0.5); }",
        "arith_pow_real", "8\n2",
    );
}

#[test]
fn compat_bitwise_and() {
    check_compat(
        "fn main() { print(6 & 3); print(0xFF & 0x0F); }",
        "bitwise_and", "2\n15",
    );
}

#[test]
fn compat_bitwise_or() {
    check_compat(
        "fn main() { print(6 | 3); print(0xF0 | 0x0F); }",
        "bitwise_or", "7\n255",
    );
}

#[test]
fn compat_bitwise_xor() {
    check_compat(
        "fn main() { print(6 ^ 3); print(0xFF ^ 0xF0); }",
        "bitwise_xor", "5\n15",
    );
}

#[test]
fn compat_mixed_int_real() {
    check_compat(
        "fn main() { print(3.2 + 3); print(3.5 - 2); print(2.5 * 4); print(10.0 / 2); }",
        "mixed_int_real", "6.2\n1.5\n10\n5",
    );
}

#[test]
fn compat_shift() {
    check_compat(
        "fn main() { print(1 << 8); print(256 >> 4); }",
        "shift", "256\n16",
    );
}

#[test]
fn compat_bitnot() {
    check_compat(
        "fn main() { print(~0); print(~255); }",
        "bitnot", "-1\n-256",
    );
}

#[test]
fn compat_compound_add() {
    check_compat(
        "fn main() { x: int = 5; x += 3; print(x); }",
        "compound_add", "8",
    );
}

#[test]
fn compat_compound_mul() {
    check_compat(
        "fn main() { x: int = 4; x *= 3; print(x); }",
        "compound_mul", "12",
    );
}

#[test]
fn compat_arith_precedence() {
    check_compat(
        "fn main() { print(2 + 3 * 4); print(10 - 2 * 3); print(16 / 4 + 2); print(2 + 6 % 4); }",
        "arith_precedence", "14\n4\n6\n4",
    );
}

#[test]
fn compat_pow_right_assoc() {
    check_compat(
        "fn main() { print(2 ** 1 ** 3); }",
        "pow_right_assoc", "2",
    );
}

// ---------------------------------------------------------------------------------------------
// The C back end
// ---------------------------------------------------------------------------------------------

#[test]
fn test_simple_addition() {
    let module = parse("fn main() { x: int = 5; print(x); }");
    let c = compile_to_c(&module);
    assert!(c.contains("int64_t x = 5;"));
    assert!(c.contains("yk_print_val(x)"));
    assert!(c.contains("main"));
}

#[test]
fn test_if_else() {
    let module = parse("fn main() { x: int = 5; if (x > 3) { print(1); } else { print(0); } }");
    let c = compile_to_c(&module);
    assert!(c.contains("if ("));
    assert!(c.contains("else"));
}

#[test]
fn test_while_loop() {
    let module = parse("fn main() { x: int = 3; while (x > 0) { x = x - 1; } }");
    let c = compile_to_c(&module);
    assert!(c.contains("while ("));
    assert!(c.contains("x = (x - 1)"));
}

#[test]
fn test_for_loop() {
    let module = parse("fn main() { sum: int = 0; for (i in 0..5) { sum = sum + i; } print(sum); }");
    let c = compile_to_c(&module);
    assert!(c.contains("for (int64_t i ="));
}

#[test]
fn a_c_loop_goes_from_the_lower_to_the_upper_bound() {
    let c = compile_to_c(&parse("fn main() { for (i in 0..5) { print(i); } for (j in 2..n) { print(j); } }"));
    assert!(c.contains("int64_t yk_start_0 = 0;"));
    assert!(c.contains("int64_t yk_end_0 = 5;"));
    assert!(c.contains("for (int64_t i = yk_start_0; i < yk_end_0; i++) {"));
    assert!(c.contains("int64_t yk_start_1 = 2;"));
    assert!(c.contains("int64_t yk_end_1 = n;"));
}

#[test]
fn a_type_keeps_its_name() {
    let ir = compile_to_llvm(&parse(
        "fn f(a: int?) -> int? { return a; } fn main() { x: int? = 1; y: int? = f(x); print(y ?: 0); }",
    ));
    assert_eq!(ir.matches("%__nullable_i64 = type { i64, i1 }").count(), 1);
}

#[test]
fn test_fn_call() {
    let module = parse("fn add(x: int) -> int { return x * 2; } fn main() { print(add(5)); }");
    let c = compile_to_c(&module);
    assert!(c.contains("int64_t add(int64_t x)"));
    assert!(c.contains("return (x * 2)"));
    assert!(c.contains("add(5)"));
}

#[test]
fn mod_test_struct_lit_and_field() {
    let module = parse(
        "struct Point { x: int, y: int } fn main() { p: Point = Point { x: 1, y: 2 }; print(p.x); }",
    );
    let c = compile_to_c(&module);
    assert!(c.contains("typedef struct { int64_t x; int64_t y; } Point;"));
    assert!(c.contains("Point p = (Point){ .x = 1, .y = 2 };"));
    assert!(c.contains("(p.x)"));
}

#[test]
fn mod_test_tuple_lit() {
    let module = parse("fn main() { print((10, 20, 30).0); }");
    let c = compile_to_c(&module);
    assert!(c.contains("__yk_t0"));
    assert!(c.contains("10, 20, 30"));
}

#[test]
fn c_text_is_the_same_for_the_same_module() {
    let source = "struct P { x: int } fn f(a: int) -> int { return a + 1; } fn main() { print(f(2)); }";
    assert_eq!(compile_to_c(&parse(source)), compile_to_c(&parse(source)));
    assert!(compile_to_c(&parse(source)).contains("return (a + 1)"));
}

// ---------------------------------------------------------------------------------------------
// The LLVM back end
// ---------------------------------------------------------------------------------------------

#[test]
fn llvm_test_struct_lit_and_field() {
    let module = parse(
        "struct Point { x: int, y: int } fn main() { p: Point = Point { x: 1, y: 2 }; print(p.x); }",
    );
    let llvm = compile_to_llvm(&module);
    assert!(llvm.contains("%struct.Point = type { i64, i64 }"));
    assert!(llvm.contains("insertvalue %struct.Point undef, i64 1, 0"));
    assert!(llvm.contains("insertvalue %struct.Point %"));
    assert!(llvm.contains("extractvalue %struct.Point"));
}

#[test]
fn llvm_test_tuple_lit() {
    let module = parse("fn main() { print((10, 20, 30).0); }");
    let llvm = compile_to_llvm(&module);
    assert!(llvm.contains("i64, i64, i64"));
    assert!(llvm.contains("insertvalue"));
}

fn handler_param() -> Param {
    Param { name: "req".to_string(), type_expr: Node::new(0, span(), TypeExpr::Infer), is_ref: false }
}

fn handler(value: ExprNode) -> FnDef {
    FnDef::new(vec![handler_param()], vec![Node::new(0, span(), Stmt::Return(Some(value)))])
}

fn request_field(field: &str) -> ExprNode {
    expr(Expr::Field(bx(expr(Expr::Ident("req".to_string()))), field.to_string()))
}

#[test]
fn test_generate_fn_handler_ir_literal() {
    let fndef = handler(expr(Expr::LitStr("Hello World".to_string())));
    let ir = generate_fn_handler_ir("test_fn_handler", &fndef).expect("Should generate IR");
    assert!(ir.contains("define void @test_fn_handler"));
    assert!(ir.contains("target triple = \"x86_64-pc-windows-msvc\""));
    assert!(ir.contains("%YkResponse = type { ptr, i64, i32 }"));
    assert!(ir.contains("store i32 200"));
    assert!(ir.contains("Hello World"));
}

#[test]
fn test_generate_fn_handler_ir_req_body() {
    let fndef = handler(request_field("body"));
    let ir = generate_fn_handler_ir("test_req_body", &fndef).expect("Should generate IR");
    assert!(ir.contains("define void @test_req_body"));
    assert!(ir.contains("Load req.body"));
    assert!(ir.contains("getelementptr i8, ptr %req, i32 32"));
    assert!(ir.contains("getelementptr i8, ptr %req, i32 40"));
}

#[test]
fn test_generate_fn_handler_ir_concat() {
    let prefix = expr(Expr::LitStr("Prefix: ".to_string()));
    let fndef = handler(expr(Expr::BinOp(bx(prefix), BinOp::Add, bx(request_field("body")))));
    let ir = generate_fn_handler_ir("test_concat", &fndef).expect("Should generate IR");
    assert!(ir.contains("define void @test_concat"));
    assert!(ir.contains("call void @llvm.memcpy.p0.p0.i64"));
    assert!(ir.contains("Prefix:"));
}

const COPY: &str = "declare void @llvm.memcpy.p0.p0.i64(ptr, ptr, i64, i1)\n";

#[test]
fn what_handlers_copy_with_is_declared_once() {
    let ir = generate_fn_handler_ir("h", &handler(request_field("body"))).unwrap();
    assert_eq!(ir.matches(COPY).count(), 1);
    assert!(!compile_to_llvm(&parse("fn main() { print(1); }")).contains("llvm.memcpy"));
    let two = compile_to_llvm(&parse(
        "fn a() { return \"x\"; } fn b() { return \"y\"; }
         fn main() { s: int = 1; s.get(\"/a\", a); s.post(\"/b\", b); }",
    ));
    assert_eq!(two.matches("define void @__yk_handler_").count(), 2);
    assert_eq!(two.matches(COPY).count(), 1);
    assert!(two.find(COPY).unwrap() < two.find("define void @__yk_handler_").unwrap());
}

#[test]
fn a_handler_without_a_simple_answer_has_no_text() {
    let fndef = FnDef::new(vec![handler_param()], vec![]);
    assert!(generate_fn_handler_ir("empty", &fndef).is_none());
}

/// What a handler answers to a request with a path and a body, in a buffer of `room` bytes.
fn answer(value: ExprNode, room: usize) -> (String, i64) {
    let ir = generate_fn_handler_ir("h", &handler(value)).unwrap();
    let mut m = Machine::load(&ir);
    let resp = m.room(24);
    let req = m.room(48);
    for (i, field) in ["GET", "/p", "Body"].iter().enumerate() {
        let at = m.room(field.len());
        m.mem[at as usize..at as usize + field.len()].copy_from_slice(field.as_bytes());
        m.put64(req + 16 * i as i64, at);
        m.put64(req + 16 * i as i64 + 8, field.len() as i64);
    }
    let buf = m.room(room + 8);
    m.mem[buf as usize..buf as usize + room + 8].fill(b'#');
    m.call("h", vec![V::I(resp), V::I(req), V::I(buf), V::I(room as i64)]);
    assert_eq!(m.get64(resp), buf, "the answer lies in the buffer of the caller");
    let len = m.get64(resp + 8) as usize;
    assert!(m.mem[buf as usize + len..buf as usize + room + 8].iter().all(|b| *b == b'#'));
    (String::from_utf8(m.mem[buf as usize..buf as usize + len].to_vec()).unwrap(), m.get64(resp + 16))
}

fn lit(s: &str) -> ExprNode {
    expr(Expr::LitStr(s.to_string()))
}

fn sum(a: ExprNode, b: ExprNode) -> ExprNode {
    expr(Expr::BinOp(bx(a), BinOp::Add, bx(b)))
}

#[test]
fn a_lone_literal_or_field_is_written_into_the_buffer() {
    assert_eq!(answer(lit("Hello"), 64), ("Hello".to_string(), 200));
    assert_eq!(answer(lit("Hello"), 3), ("Hel".to_string(), 200));
    assert_eq!(answer(lit("h\u{e9}"), 64), ("h\u{e9}".to_string(), 200));
    assert_eq!(answer(request_field("method"), 64).0, "GET");
    assert_eq!(answer(request_field("path"), 64).0, "/p");
    assert_eq!(answer(request_field("body"), 2).0, "Bo");
    assert_eq!(answer(expr(Expr::Ident("req".to_string())), 64).0, "Body");
    assert_eq!(answer(expr(Expr::LitInt(-7)), 64).0, "-7");
    assert_eq!(answer(expr(Expr::LitNull), 64).0, "");
}

#[test]
fn concatenations_are_written_in_order_however_they_are_nested() {
    assert_eq!(answer(sum(lit("a"), sum(lit("b"), lit("c"))), 3), ("abc".to_string(), 200));
    assert_eq!(answer(sum(sum(lit("a"), lit("b")), lit("c")), 64).0, "abc");
    let nested = || sum(sum(lit("<"), request_field("path")), sum(lit("|"), sum(request_field("body"), lit(">"))));
    assert_eq!(answer(nested(), 64).0, "</p|Body>");
    assert_eq!(answer(nested(), 5).0, "</p|B");
    assert_eq!(answer(nested(), 0).0, "");
}

#[test]
fn only_the_branch_that_is_taken_is_written() {
    let choice = |b: bool| {
        let yes = sum(lit("y"), lit("es"));
        let no = sum(lit("n"), sum(lit("o"), request_field("body")));
        expr(Expr::If(bx(expr(Expr::LitBool(b))), bx(yes), Some(bx(no))))
    };
    assert_eq!(answer(sum(lit("["), sum(choice(true), lit("]"))), 64).0, "[yes]");
    assert_eq!(answer(sum(lit("["), sum(choice(false), lit("]"))), 64).0, "[noBody]");
    let equal = |n: i64| {
        let test = expr(Expr::BinOp(bx(expr(Expr::LitInt(1))), BinOp::Eq, bx(expr(Expr::LitInt(n)))));
        expr(Expr::If(bx(test), bx(lit("same")), None))
    };
    assert_eq!(answer(equal(1), 64).0, "same");
    assert_eq!(answer(equal(2), 64).0, "");
}

#[test]
fn a_static_handler_answers_with_its_body_and_status() {
    let ir = generate_static_handler_ir("fixed", "not \"here\"", 404);
    assert!(ir.contains("define void @fixed"));
    assert!(ir.contains("store i32 404"));
    assert!(ir.contains("not \\22here\\22"));
}

#[test]
fn test_closure_codegen() {
    let closure_param =
        Param { name: "x".to_string(), type_expr: Node::new(0, span(), TypeExpr::Infer), is_ref: false };
    let closure = expr(Expr::Closure(vec![closure_param], bx(expr(Expr::LitInt(42)))));
    let print_call = expr(Expr::Call(bx(expr(Expr::Ident("print".to_string()))), vec![closure]));
    let main_fn = Node::new(
        0,
        span(),
        ItemKind::Fn {
            name: "main".to_string(),
            params: vec![],
            ret_type: None,
            body: vec![Node::new(0, span(), Stmt::Expr(print_call))],
            is_async: false,
            generics: vec![],
            is_open: false,
            is_override: false,
            is_final: false,
            is_abstract_method: false,
        },
    );
    let module =
        Module { name: String::new(), span: span(), imports: vec![], exports: vec![], items: vec![main_fn] };
    let llvm = compile_to_llvm(&module);
    assert!(llvm.contains("__closure_0"));
    assert!(llvm.contains("ptrtoint"));
}

#[test]
fn factorial_and_loop_of_the_introduction() {
    let out = run(
        "fn factorial(n: int) -> int { if (n <= 1) { return 1; } return n * factorial(n - 1); }
         fn main() { result: int = factorial(5); print(result); }",
    );
    assert_eq!(out.trim(), "120");
}

#[test]
fn struct_of_the_introduction() {
    let out = run(
        "struct Person { name: str; age: int; }
         fn main() { p: auto = Person { name: \"Alice\", age: 30 }; print(p.name); }",
    );
    assert_eq!(out.trim(), "Alice");
}

#[test]
fn constants_are_closed_and_keep_their_text() {
    assert_eq!(run("fn main() { print(\"a\\\"b\\\\c\\nd\"); }"), "a\"b\\c\nd\n");
}

#[test]
fn labels_and_tags_differ_within_a_program() {
    let ir = compile_to_llvm(&parse(
        "fn main() { x: int = 1; if (x > 0) { print(1); } else { print(2); }
         if (x > 1) { print(3); } else { print(4); } while (x > 5) { x = x - 1; } }",
    ));
    let mut labels: Vec<&str> = ir.lines().map(|l| l.trim()).filter(|l| l.ends_with(':')).collect();
    let n = labels.len();
    labels.sort();
    labels.dedup();
    assert!(n > 6);
    assert!(labels.len() + 3 > n, "only the entry label may come again");
}

#[test]
fn nullable_types_are_defined_once() {
    let ir = compile_to_llvm(&parse(
        "fn main() { a: int? = null; b: int? = 3; c: int? = null; print(a ?: 1); print(b ?: 2); }",
    ));
    let definitions = ir.lines().filter(|l| l.contains("nullable") && l.contains("= type")).count();
    assert_eq!(definitions, 1);
}

#[test]
fn tuple_types_are_defined_once() {
    let ir = compile_to_llvm(&parse("fn main() { print((1, 2, 3).0); print((3, 4, 5).1); print((5, 6, 7).0); }"));
    let definitions = ir.lines().filter(|l| l.contains("= type { i64, i64, i64 }")).count();
    assert_eq!(definitions, 1);
}

#[test]
fn modules_are_compiled_into_one_text() {
    let a = parse("fn twice(x: int) -> int { return x * 2; }");
    let b = parse("fn main() { print(twice(21)); }");
    let ir = compile_to_llvm_modules(&[&a, &b]);
    let mut m = Machine::load(&ir);
    m.call("main", vec![V::I(1), V::I(0)]);
    assert_eq!(m.out.trim(), "42");
    assert_eq!(compile_to_llvm_modules(&[&b]), compile_to_llvm(&b));
}

// ---------------------------------------------------------------------------------------------
// Back ends
// ---------------------------------------------------------------------------------------------

fn probe() -> Probe {
    Probe {
        cpu: CpuProbe {
            arch: "x86_64".to_string(),
            parallelism: Some(4),
            llvm_name: None,
            registers: Registers::Other,
        },
        os: "linux".to_string(),
        family: "unix".to_string(),
        wmic: None,
        lspci: None,
    }
}

#[test]
fn mock_backend_records_compile() {
    let mut backend = MockBackend::new();
    let module = parse("fn main() {}");
    backend.compile(&[&module], "test.exe", &probe()).unwrap();
    assert_eq!(backend.modules.len(), 1);
    assert_eq!(backend.output_paths[0], "test.exe");
}

#[test]
fn llvm_backend_implements_trait() {
    let backend = LlvmBackend;
    assert_eq!(backend.name(), "LLVM AOT (adaptive)");
}

#[test]
fn compile_with_info_passes() {
    let mut backend = MockBackend::new();
    let module = parse("fn main() {}");
    let hw = detect(&probe());
    backend.compile_with_info(&[&module], "test.exe", &hw).unwrap();
    assert_eq!(backend.modules.len(), 1);
}

#[test]
fn mock_backend_keeps_the_order() {
    let mut backend = MockBackend::new();
    assert_eq!(backend.name(), "mock");
    let hw = detect(&probe());
    backend.compile_with_info(&[], "a.exe", &hw).unwrap();
    backend.compile_with_paths(&[], &vec!["b.yk".to_string()], "b.exe", &hw).unwrap();
    assert_eq!(backend.modules, vec!["compiled", "compiled"]);
    assert_eq!(backend.output_paths, vec!["a.exe", "b.exe"]);
}

/// A back end that keeps the last path and refuses everything.
struct Refusing {
    last: String,
}

impl CodegenBackend for Refusing {
    fn compile_with_info(&mut self, modules: &[&Module], output_path: &str, hw: &HardwareInfo) -> Result<Artifact, YkError> {
        self.last = format!("{} {} {}", modules.len(), output_path, hw.os.name);
        Err(err(ErrorKind::Internal, Span::new(0, 0), "refused"))
    }

    fn name(&self) -> &'static str {
        "refusing"
    }
}

#[test]
fn a_back_end_needs_one_way_to_compile() {
    let module = parse("fn main() {}");
    let mut refusing = Refusing { last: String::new() };
    let backend: &mut dyn CodegenBackend = &mut refusing;
    assert_eq!(backend.compile(&[&module], "a.exe", &probe()).err().unwrap().msg, "refused");
    let hw = detect(&probe());
    assert!(backend.compile_with_paths(&[], &vec!["b.yk".to_string()], "b.exe", &hw).is_err());
    assert_eq!(backend.name(), "refusing");
    assert_eq!(refusing.last, "0 b.exe linux");
    assert!(refusing.compile(&[&module], "c.exe", &probe()).is_err());
    assert_eq!(refusing.last, "1 c.exe linux");
}

#[test]
fn llvm_backend_hands_out_text_and_libraries() {
    let mut module = parse("fn main() { print(1); }");
    module.imports.push(Import { lang: Some("rust".to_string()), source: "./lib/x.rs".to_string(), names: vec![] });
    module.imports.push(Import { lang: None, source: "std/json".to_string(), names: vec![] });
    let mut backend = LlvmBackend;
    let artifact = backend.compile(&[&module], "out.exe", &probe()).unwrap();
    assert_eq!(artifact.llvm_ir, compile_to_llvm_modules(&[&module]));
    assert_eq!(artifact.ffi_libs, vec!["yk_ffi__lib_xrs.lib"]);
    assert_eq!(ffi_lib_names(&[&module, &module]).len(), 2);
    assert!(validate_modules(&[&module], &vec![]).is_empty());
}

#[test]
fn every_llvm_module_begins_with_its_head() {
    for source in ["", "fn main() { print((1, 2, 3).0); }", "struct P { x: int } class C { y: int; }"] {
        let ir = compile_to_llvm(&parse(source));
        assert!(ir.starts_with("; LLVM IR generated by yidi\ntarget datalayout = "));
        let head: Vec<&str> = ir.lines().take(5).collect();
        assert_eq!(head[4], "%yk_string = type { ptr, i64 }");
    }
}

#[test]
fn every_c_program_begins_with_the_runtime() {
    for source in ["", "fn main() { print(1); }"] {
        assert!(compile_to_c(&parse(source)).starts_with(RUNTIME_C));
    }
}

#[test]
fn literals_of_c_are_escaped() {
    let c = compile_to_c(&parse("fn main() { print(\"a\\\"b\\\\c\\nd\\te\"); }"));
    assert!(c.contains("yk_string_make(\"a\\\"b\\\\c\\nd\\te\")"));
}

#[test]
fn variables_of_a_function_are_not_seen_behind_it() {
    let out = run(
        "fn f() -> str { x: str = \"inner\"; return x; }
         fn main() { x: int = 7; print(f()); print(x); }",
    );
    assert_eq!(out, "inner\n7\n");
}

// ---------------------------------------------------------------------------------------------
// Checking files
// ---------------------------------------------------------------------------------------------

/// Finds a declaration of an integer that is given a string.
fn check_module(module: &Module) -> Result<(), YkError> {
    for item in &module.items {
        if let ItemKind::Fn { body, .. } = &item.value {
            for stmt in body {
                if let Stmt::Decl { type_expr: Some(t), value, .. } = &stmt.value {
                    if matches!((&t.value, &value.value), (TypeExpr::Int(_), Expr::LitStr(_))) {
                        return Err(err(ErrorKind::TypeError, stmt.span, "expected int, found str"));
                    }
                }
            }
        }
    }
    Ok(())
}

fn typecheck_all(files: &[LoadedFile]) -> Result<(), String> {
    let mut checked = 0;
    let mut error = None;
    loop {
        match check_step(files.len(), checked, error.take()) {
            CheckStep::Check(i) => {
                error = check_module(&files[i].module).err().map(|e| report(e, &files[i]));
                checked += 1;
            }
            CheckStep::Refuse(text) => return Err(text),
            CheckStep::GoOn => return Ok(()),
        }
    }
}

fn loaded(path: &str, source: &str) -> LoadedFile {
    LoadedFile { path: path.to_string(), source: source.to_string(), module: parse(source) }
}

#[test]
fn typecheck_all_accumulates_errors() {
    let files = vec![loaded("test.yk", "fn main() { x: int = \"wrong_type\"; }")];
    let result = typecheck_all(&files);
    assert!(result.is_err());
}

#[test]
fn the_first_error_that_is_met_is_reported() {
    let bad = "fn main() { x: int = \"wrong_type\"; }";
    let files = vec![loaded("a.yk", bad), loaded("b.yk", "fn f() {}"), loaded("c.yk", bad)];
    let text = typecheck_all(&files).unwrap_err();
    assert!(text.starts_with("\x1b[1;31merror[E0101]\x1b[0m: expected int, found str\n"));
    assert!(text.contains("c.yk:1:1") && !text.contains("a.yk"));
    assert!(typecheck_all(&files[1..2]).is_ok());
}
