//! Expressions, statements, patterns, types and items.

use vstd::prelude::*;

use crate::diagnostics::span::Span;
use crate::scan::{joined, join, texts};
use crate::text::{cat2, cat3, cat4, cat5, dec, dec_text, owned, Text};

verus! {

/// A piece of syntax with its place in the source and the decorators in front of it.
pub struct Node<T> {
    pub id: u64,
    pub span: Span,
    pub decorators: Vec<String>,
    pub value: T,
}

impl<T> Node<T> {
    /// A node without decorators.
    pub fn new(id: u64, span: Span, value: T) -> (r: Node<T>)
        ensures
            r.id == id,
            r.span == span,
            r.decorators@.len() == 0,
            r.value == value,
    {
        Node { id, span, decorators: Vec::new(), value }
    }
}

/// An expression with its place.
pub type ExprNode = Node<Expr>;

/// A statement with its place.
pub type StmtNode = Node<Stmt>;

/// A type with its place.
pub type TypeNode = Node<TypeExpr>;

/// An item with its place.
pub type ItemNode = Node<ItemKind>;

/// A real number as it is written out: `shown` is its shortest decimal form that reads back as the
/// same number, without an exponent; `fixed` is the same number with ten digits behind the point.
pub struct RealLit {
    pub shown: String,
    pub fixed: String,
}

/// The operators between two operands.
#[derive(Clone, Copy, Debug, PartialEq, Eq, Structural)]
pub enum BinOp {
    Add,
    Sub,
    Mul,
    Div,
    Mod,
    Pow,
    BitAnd,
    BitOr,
    BitXor,
    Shl,
    Shr,
    Eq,
    Ne,
    Lt,
    Gt,
    Le,
    Ge,
    And,
    Or,
    Assign,
}

/// The operators in front of an operand.
#[derive(Clone, Copy, Debug, PartialEq, Eq, Structural)]
pub enum UnOp {
    Neg,
    Not,
    BitNot,
}

/// A type as it is written in the source. A width of zero stands for the default width.
pub enum TypeExpr {
    Int(u32),
    Rint(u32),
    Real(u32),
    Complex(u32, u32),
    Bool,
    Str,
    Symbol,
    Vector(Box<TypeExpr>),
    Matrix(Box<TypeExpr>),
    Named(String),
    Nullable(Box<TypeExpr>),
    Union(Vec<TypeExpr>),
    Generic(String, Vec<TypeExpr>),
    ListOf(Box<TypeExpr>),
    SetOf(Box<TypeExpr>),
    MapOf(Box<TypeExpr>, Box<TypeExpr>),
    Infer,
}

/// A parameter or a field: its name and its type, and whether it is passed by reference.
pub struct Param {
    pub name: String,
    pub type_expr: TypeNode,
    pub is_ref: bool,
}

/// What the arm of a `match` or a destructuring declaration matches.
pub enum Pattern {
    Ignore,
    Ident(String),
    Rest(String),
    LitInt(i64),
    LitReal(RealLit),
    LitBool(bool),
    LitStr(String),
    Variant(String, Vec<Pattern>),
    Destruct(Vec<(String, Pattern)>),
    ListDestruct(Vec<Pattern>),
}

/// An arm of a `match`.
pub struct MatchArm {
    pub pattern: Pattern,
    pub body: ExprNode,
}

/// An expression.
pub enum Expr {
    LitInt(i64),
    LitHex(i64),
    LitReal(RealLit),
    LitBool(bool),
    LitStr(String),
    LitChar(char),
    LitNull,
    LitNone,
    LitSymbol(String),
    LitComplex(Box<ExprNode>, Box<ExprNode>),
    Ident(String),
    BinOp(Box<ExprNode>, BinOp, Box<ExprNode>),
    UnOp(UnOp, Box<ExprNode>),
    Call(Box<ExprNode>, Vec<ExprNode>),
    Field(Box<ExprNode>, String),
    Index(Box<ExprNode>, Box<ExprNode>),
    Range(Box<ExprNode>, Box<ExprNode>),
    Block(Vec<StmtNode>),
    AsConst(Box<ExprNode>),
    If(Box<ExprNode>, Box<ExprNode>, Option<Box<ExprNode>>),
    ListLit(Vec<ExprNode>),
    StructLit(String, Vec<(String, ExprNode)>),
    TupleLit(Vec<ExprNode>),
    MapLit(Vec<(ExprNode, ExprNode)>),
    SetLit(Vec<ExprNode>),
    VectorLit(Vec<ExprNode>),
    MatrixLit(Vec<Vec<ExprNode>>),
    FnLit(Vec<Param>, Option<TypeNode>, Box<ExprNode>),
    Closure(Vec<Param>, Box<ExprNode>),
    Spawn(Box<ExprNode>),
    Await(Box<ExprNode>),
    ResultOk(Box<ExprNode>),
    ResultErr(Box<ExprNode>),
    Match(Box<ExprNode>, Vec<MatchArm>),
    ForIn(String, Box<ExprNode>, Box<ExprNode>),
    While(Box<ExprNode>, Box<ExprNode>),
    Loop(Box<ExprNode>),
    PostInc(Box<ExprNode>),
    PostDec(Box<ExprNode>),
    SafeCall(Box<ExprNode>, String),
    Elvis(Box<ExprNode>, Box<ExprNode>),
    Variant(String, String, Vec<ExprNode>),
    Try(Box<ExprNode>),
    TryCatch(Vec<StmtNode>, String, Vec<StmtNode>),
    As(Box<ExprNode>, TypeNode),
}

/// A statement.
pub enum Stmt {
    Decl { name: String, type_expr: Option<TypeNode>, value: ExprNode, is_const: bool },
    Assign(String, ExprNode),
    Expr(ExprNode),
    Return(Option<ExprNode>),
    If(ExprNode, Vec<StmtNode>, Option<Vec<StmtNode>>),
    While(ExprNode, Vec<StmtNode>),
    /// The loop variable, what is walked, the body, and whether the loop was written with `of`.
    For(String, ExprNode, Vec<StmtNode>, bool),
    Loop(Vec<StmtNode>),
    Destruct(Pattern, ExprNode),
}

/// A method that an interface asks for.
pub struct MethodSig {
    pub name: String,
    pub params: Vec<Param>,
    pub ret_type: Option<TypeNode>,
}

/// What stands at the top level of a module.
pub enum ItemKind {
    Fn {
        name: String,
        params: Vec<Param>,
        ret_type: Option<TypeNode>,
        body: Vec<StmtNode>,
        is_async: bool,
        generics: Vec<String>,
        is_open: bool,
        is_override: bool,
        is_final: bool,
        is_abstract_method: bool,
    },
    Struct { name: String, fields: Vec<Param>, generics: Vec<String> },
    Class {
        name: String,
        fields: Vec<Param>,
        constructor: Vec<Param>,
        methods: Vec<ItemKind>,
        extends: Option<String>,
        implements: Vec<String>,
        init_body: Vec<StmtNode>,
    },
    Interface { name: String, methods: Vec<MethodSig> },
    Object { name: String, methods: Vec<ItemKind>, fields: Vec<Param> },
    Const { name: String, value: ExprNode },
}

/// An import: the foreign language, where there is one, the place it comes from, and the imported
/// names with their local names.
pub struct Import {
    pub lang: Option<String>,
    pub source: String,
    pub names: Vec<(String, Option<String>)>,
}

/// A module: its imports, what it exports and its items.
pub struct Module {
    pub name: String,
    pub span: Span,
    pub imports: Vec<Import>,
    pub exports: Vec<String>,
    pub items: Vec<ItemNode>,
}

// ---------------------------------------------------------------------------------------------
// How a type is written
// ---------------------------------------------------------------------------------------------
/// The text of a type; it names the variants of a union.
pub open spec fn type_text(t: TypeExpr) -> Text
    decreases t,
{
    match t {
        TypeExpr::Int(w) => "int("@ + dec(w as nat) + ")"@,
        TypeExpr::Rint(w) => "rint("@ + dec(w as nat) + ")"@,
        TypeExpr::Real(w) => "real("@ + dec(w as nat) + ")"@,
        TypeExpr::Complex(a, b) => "complex("@ + dec(a as nat) + ", "@ + dec(b as nat) + ")"@,
        TypeExpr::Bool => "bool"@,
        TypeExpr::Str => "str"@,
        TypeExpr::Symbol => "symbol"@,
        TypeExpr::Vector(inner) => "vector<"@ + type_text(*inner) + ">"@,
        TypeExpr::Matrix(inner) => "matrix<"@ + type_text(*inner) + ">"@,
        TypeExpr::Named(name) => name@,
        TypeExpr::Nullable(inner) => type_text(*inner) + "?"@,
        TypeExpr::Union(ts) => joined(type_texts(ts@), " | "@),
        TypeExpr::Generic(name, ts) => name@ + "<"@ + joined(type_texts(ts@), ", "@) + ">"@,
        TypeExpr::ListOf(inner) => "list<"@ + type_text(*inner) + ">"@,
        TypeExpr::SetOf(inner) => "set<"@ + type_text(*inner) + ">"@,
        TypeExpr::MapOf(k, v) => "map<"@ + type_text(*k) + ", "@ + type_text(*v) + ">"@,
        TypeExpr::Infer => "_"@,
    }
}

/// The texts of a list of types.
pub open spec fn type_texts(ts: Seq<TypeExpr>) -> Seq<Text>
    decreases ts,
{
    if ts.len() == 0 {
        seq![]
    } else {
        type_texts(ts.drop_last()).push(type_text(ts.last()))
    }
}

impl TypeExpr {
    /// The type as it is written.
    pub fn to_text(&self) -> (r: String)
        ensures
            r@ == type_text(*self),
        decreases self,
    {
        match self {
            TypeExpr::Int(w) => cat3("int(", &dec_text(*w as u128), ")"),
            TypeExpr::Rint(w) => cat3("rint(", &dec_text(*w as u128), ")"),
            TypeExpr::Real(w) => cat3("real(", &dec_text(*w as u128), ")"),
            TypeExpr::Complex(a, b) => cat5(
                "complex(",
                &dec_text(*a as u128),
                ", ",
                &dec_text(*b as u128),
                ")",
            ),
            TypeExpr::Bool => owned("bool"),
            TypeExpr::Str => owned("str"),
            TypeExpr::Symbol => owned("symbol"),
            TypeExpr::Vector(inner) => cat3("vector<", &inner.to_text(), ">"),
            TypeExpr::Matrix(inner) => cat3("matrix<", &inner.to_text(), ">"),
            TypeExpr::Named(name) => name.clone(),
            TypeExpr::Nullable(inner) => cat2(&inner.to_text(), "?"),
            TypeExpr::Union(ts) => join(&type_text_list(ts), " | "),
            TypeExpr::Generic(name, ts) => cat4(name, "<", &join(&type_text_list(ts), ", "), ">"),
            TypeExpr::ListOf(inner) => cat3("list<", &inner.to_text(), ">"),
            TypeExpr::SetOf(inner) => cat3("set<", &inner.to_text(), ">"),
            TypeExpr::MapOf(k, v) => cat5("map<", &k.to_text(), ", ", &v.to_text(), ">"),
            TypeExpr::Infer => owned("_"),
        }
    }
}

fn type_text_list(ts: &Vec<TypeExpr>) -> (r: Vec<String>)
    ensures
        texts(r@) == type_texts(ts@),
    decreases ts@,
{
    let mut r: Vec<String> = Vec::new();
    let mut i: usize = 0;
    assert(texts(r@) == type_texts(ts@.take(0)));
    while i < ts.len()
        invariant
            i <= ts@.len(),
            texts(r@) == type_texts(ts@.take(i as int)),
        decreases ts.len() - i,
    {
        let t = ts[i].to_text();
        let ghost before = r@;
        let ghost text = t@;
        r.push(t);
        assert(texts(r@) == texts(before).push(text));
        assert(ts@.take(i + 1).drop_last() == ts@.take(i as int));
        i += 1;
    }
    assert(ts@.take(i as int) == ts@);
    r
}

} // verus!
