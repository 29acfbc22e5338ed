//! The LLVM types of types and of expressions, and the names of functions.

use vstd::prelude::*;

use crate::codegen::llvm::names::{alloca_name, alloca_of};
use crate::codegen::llvm::state::{Gen, LlvmCodegen, opt_node};
use crate::scan::{is_word, opt_text, same_word, texts};
use crate::syntax::ast::{
    BinOp, Expr, ExprNode, MatchArm, Param, type_text, TypeExpr, TypeNode, UnOp,
};
use crate::table::Pairs;
use crate::text::{cat2, cat3, owned, same, Text};

verus! {

/// The LLVM type of an integer of a given width.
pub open spec fn int_type(w: u32) -> Text {
    if w == 8 {
        "i8"@
    } else if w == 16 {
        "i16"@
    } else if w == 32 {
        "i32"@
    } else {
        "i64"@
    }
}

fn int_type_name(w: u32) -> (r: String)
    ensures
        r@ == int_type(w),
{
    if w == 8 {
        owned("i8")
    } else if w == 16 {
        owned("i16")
    } else if w == 32 {
        owned("i32")
    } else {
        owned("i64")
    }
}

/// The LLVM type of a real number of a given width.
pub open spec fn real_type(w: u32) -> Text {
    if w == 32 {
        "float"@
    } else {
        "double"@
    }
}

fn real_type_name(w: u32) -> (r: String)
    ensures
        r@ == real_type(w),
{
    if w == 32 {
        owned("float")
    } else {
        owned("double")
    }
}

/// The LLVM type of a name that is a keyword, whatever its case.
pub open spec fn keyword_type(name: Text) -> Option<Text> {
    if is_word(name, "str"@) || is_word(name, "string"@) {
        Some("%yk_string"@)
    } else if is_word(name, "int"@) || is_word(name, "int64"@) || is_word(name, "integer"@) {
        Some("i64"@)
    } else if is_word(name, "int8"@) {
        Some("i8"@)
    } else if is_word(name, "int16"@) {
        Some("i16"@)
    } else if is_word(name, "int32"@) {
        Some("i32"@)
    } else if is_word(name, "real"@) || is_word(name, "float"@) || is_word(name, "double"@) {
        Some("double"@)
    } else if is_word(name, "bool"@) || is_word(name, "boolean"@) {
        Some("i1"@)
    } else if is_word(name, "symbol"@) {
        Some("%yk_string"@)
    } else if is_word(name, "complex"@) {
        Some("%yk_complex"@)
    } else {
        None
    }
}

fn keyword_type_name(name: &str) -> (r: Option<String>)
    ensures
        opt_text(r) == keyword_type(name@),
{
    if same_word(name, "str") || same_word(name, "string") {
        Some(owned("%yk_string"))
    } else if same_word(name, "int") || same_word(name, "int64") || same_word(name, "integer") {
        Some(owned("i64"))
    } else if same_word(name, "int8") {
        Some(owned("i8"))
    } else if same_word(name, "int16") {
        Some(owned("i16"))
    } else if same_word(name, "int32") {
        Some(owned("i32"))
    } else if same_word(name, "real") || same_word(name, "float") || same_word(name, "double") {
        Some(owned("double"))
    } else if same_word(name, "bool") || same_word(name, "boolean") {
        Some(owned("i1"))
    } else if same_word(name, "symbol") {
        Some(owned("%yk_string"))
    } else if same_word(name, "complex") {
        Some(owned("%yk_complex"))
    } else {
        None
    }
}

impl Gen {
    /// The LLVM type of a type. A nullable type is defined, and the variants of a union get tags,
    /// where they are new.
    pub open spec fn type_to_llvm(self, te: TypeExpr) -> (Gen, Text)
        decreases te,
    {
        match te {
            TypeExpr::Int(w) => (self, int_type(w)),
            TypeExpr::Rint(w) => (self, int_type(w)),
            TypeExpr::Real(w) => (self, real_type(w)),
            TypeExpr::Complex(_, _) => (self, "%yk_complex"@),
            TypeExpr::Bool => (self, "i1"@),
            TypeExpr::Str => (self, "%yk_string"@),
            TypeExpr::Symbol => (self, "%yk_string"@),
            TypeExpr::Vector(inner) => {
                let (g, t) = self.type_to_llvm(*inner);
                (g, "<2 x "@ + t + ">"@)
            },
            TypeExpr::Matrix(inner) => {
                let (g, t) = self.type_to_llvm(*inner);
                (g, "[<2 x "@ + t + "> x 2]"@)
            },
            TypeExpr::Named(name) => match keyword_type(name@) {
                Some(t) => (self, t),
                None => (self, self.named_type(name@)),
            },
            TypeExpr::Nullable(inner) => {
                let (g, t) = self.type_to_llvm(*inner);
                g.define_nullable(t)
            },
            TypeExpr::Union(variants) => (self.tag_variants(variants@), "%yk_variant"@),
            TypeExpr::Generic(name, _) => (self, self.generic_type(name@)),
            TypeExpr::ListOf(_) => (self, "ptr"@),
            TypeExpr::SetOf(_) => (self, "ptr"@),
            TypeExpr::MapOf(_, _) => (self, "ptr"@),
            TypeExpr::Infer => (self, "i64"@),
        }
    }

    /// Gives every variant a tag, in order.
    pub open spec fn tag_variants(self, variants: Seq<TypeExpr>) -> Gen
        decreases variants.len(),
    {
        if variants.len() == 0 {
            self
        } else {
            self.tag_variants(variants.drop_last()).get_variant_tag(type_text(variants.last())).0
        }
    }

    /// The LLVM type of a type, or `other` where there is none.
    pub open spec fn type_or(self, te: Option<TypeNode>, other: Text) -> (Gen, Text) {
        match te {
            Some(t) => self.type_to_llvm(t.value),
            None => (self, other),
        }
    }

    /// The LLVM types of parameters.
    pub open spec fn param_types(self, params: Seq<Param>) -> (Gen, Seq<Text>)
        decreases params.len(),
    {
        if params.len() == 0 {
            (self, seq![])
        } else {
            let (g, list) = self.param_types(params.drop_last());
            let (g, t) = g.type_to_llvm(params.last().type_expr.value);
            (g, list.push(t))
        }
    }

    /// The names of fields with their LLVM types.
    pub open spec fn field_types(self, fields: Seq<Param>) -> (Gen, Seq<(Text, Text)>)
        decreases fields.len(),
    {
        if fields.len() == 0 {
            (self, seq![])
        } else {
            let (g, list) = self.field_types(fields.drop_last());
            let (g, t) = g.type_to_llvm(fields.last().type_expr.value);
            (g, list.push((fields.last().name@, t)))
        }
    }

    /// Wraps a value into the first of the variants that has its type; none where none has.
    pub open spec fn wrap_as_union(
        self,
        variants: Seq<TypeExpr>,
        val: Text,
        val_ty: Text,
    ) -> (Gen, Option<Text>)
        decreases variants.len(),
    {
        if variants.len() == 0 {
            (self, None)
        } else {
            let (g, t) = self.type_to_llvm(variants[0]);
            if t == val_ty {
                let (g, w) = g.wrap_in_variant(type_text(variants[0]), val, val_ty);
                (g, Some(w))
            } else {
                g.wrap_as_union(variants.skip(1), val, val_ty)
            }
        }
    }

    /// The LLVM type that an expression is taken to have before it is compiled.
    pub open spec fn expr_type_str(self, expr: ExprNode) -> (Gen, Text)
        decreases expr, 0nat,
    {
        let g = self;
        match expr.value {
            Expr::LitInt(_) => (g, "i64"@),
            Expr::LitHex(_) => (g, "i64"@),
            Expr::LitReal(_) => (g, "double"@),
            Expr::LitBool(_) => (g, "i1"@),
            Expr::LitStr(_) => (g, "%yk_string"@),
            Expr::LitSymbol(_) => (g, "%yk_string"@),
            Expr::Ident(name) => (g, g.val_ty(name@)),
            Expr::BinOp(l, _, r) => {
                let (g, lt) = g.expr_type_str(*l);
                if lt == "%yk_string"@ {
                    (g, "%yk_string"@)
                } else {
                    let (g, rt) = g.expr_type_str(*r);
                    if lt == "%yk_complex"@ || rt == "%yk_complex"@ {
                        (g, "%yk_complex"@)
                    } else if lt == "double"@ || rt == "double"@ {
                        (g, "double"@)
                    } else {
                        (g, lt)
                    }
                }
            },
            Expr::UnOp(_, inner) => g.expr_type_str(*inner),
            Expr::StructLit(name, _) => if g.has_class(name@) {
                (g, "%class."@ + name@)
            } else {
                (g, "%struct."@ + name@)
            },
            Expr::TupleLit(items) => {
                let (g, types) = g.expr_types(items@);
                g.get_or_create_tuple_type(types)
            },
            Expr::LitComplex(_, _) => (g, "%yk_complex"@),
            Expr::Field(obj, field) => {
                let (g, ot) = g.expr_type_str(*obj);
                if ot == "%yk_complex"@ {
                    if field@ == "conj"@ {
                        (g, "%yk_complex"@)
                    } else {
                        (g, "double"@)
                    }
                } else {
                    (g, "i64"@)
                }
            },
            Expr::PostInc(i) => g.expr_type_str(*i),
            Expr::PostDec(i) => g.expr_type_str(*i),
            Expr::ResultOk(_) => (g, "%yk_result"@),
            Expr::ResultErr(_) => (g, "%yk_result"@),
            Expr::Await(inner) => g.expr_type_str(*inner),
            Expr::As(_, target) => g.type_to_llvm(target.value),
            Expr::Match(_, arms) => g.arms_type(arms@),
            _ => (g, "i64"@),
        }
    }

    /// The types that expressions are taken to have.
    pub open spec fn expr_types(self, items: Seq<ExprNode>) -> (Gen, Seq<Text>)
        decreases items, 1nat,
    {
        if items.len() == 0 {
            (self, seq![])
        } else {
            let (g, list) = self.expr_types(items.drop_last());
            let (g, t) = g.expr_type_str(items.last());
            (g, list.push(t))
        }
    }

    /// The type that a match is taken to have: that of its first arm.
    pub open spec fn arms_type(self, arms: Seq<MatchArm>) -> (Gen, Text)
        decreases arms, 1nat,
    {
        if arms.len() == 0 {
            (self, "i64"@)
        } else {
            self.expr_type_str(arms[0].body)
        }
    }

    /// Whether an expression is a variable that holds an HTTP client.
    pub open spec fn is_http_var(self, obj: ExprNode) -> bool {
        match obj.value {
            Expr::Ident(name) => self.has_http_var(name@),
            _ => false,
        }
    }

    /// The place of an expression that can be assigned to.
    pub open spec fn find_alloca_for_expr(self, expr: ExprNode) -> Text
        decreases expr,
    {
        match expr.value {
            Expr::Ident(name) => match self.var_slot(name@) {
                Some(p) => p,
                None => alloca_name(name@),
            },
            Expr::Field(obj, field) => self.find_alloca_for_expr(*obj) + "."@ + field@,
            _ => "%0"@,
        }
    }

    /// The linker name of a function.
    pub open spec fn mangle_name(self, name: Text) -> Text {
        if name == "main"@ {
            name
        } else {
            match self.fn_name(name) {
                Some(mangled) => mangled,
                None => name,
            }
        }
    }
}

impl<'a> LlvmCodegen<'a> {
    pub(crate) fn type_to_llvm(&mut self, te: &TypeExpr) -> (r: String)
        ensures
            (final(self)@, r@) == old(self)@.type_to_llvm(*te),
        decreases te,
    {
        match te {
            TypeExpr::Int(w) => int_type_name(*w),
            TypeExpr::Rint(w) => int_type_name(*w),
            TypeExpr::Real(w) => real_type_name(*w),
            TypeExpr::Complex(_, _) => owned("%yk_complex"),
            TypeExpr::Bool => owned("i1"),
            TypeExpr::Str => owned("%yk_string"),
            TypeExpr::Symbol => owned("%yk_string"),
            TypeExpr::Vector(inner) => {
                let t = self.type_to_llvm(inner);
                cat3("<2 x ", &t, ">")
            },
            TypeExpr::Matrix(inner) => {
                let t = self.type_to_llvm(inner);
                cat3("[<2 x ", &t, "> x 2]")
            },
            TypeExpr::Named(name) => match keyword_type_name(name) {
                Some(t) => t,
                None => self.named_type(name),
            },
            TypeExpr::Nullable(inner) => {
                let t = self.type_to_llvm(inner);
                self.define_nullable(&t)
            },
            TypeExpr::Union(variants) => {
                self.tag_variants(variants);
                owned("%yk_variant")
            },
            TypeExpr::Generic(name, _) => self.generic_type(name),
            TypeExpr::ListOf(_) => owned("ptr"),
            TypeExpr::SetOf(_) => owned("ptr"),
            TypeExpr::MapOf(_, _) => owned("ptr"),
            TypeExpr::Infer => owned("i64"),
        }
    }

    fn tag_variants(&mut self, variants: &Vec<TypeExpr>)
        ensures
            final(self)@ == old(self)@.tag_variants(variants@),
    {
        let ghost g = self@;
        let mut i: usize = 0;
        while i < variants.len()
            invariant
                i <= variants@.len(),
                self@ == g.tag_variants(variants@.take(i as int)),
            decreases variants.len() - i,
        {
            let name = variants[i].to_text();
            self.get_variant_tag(&name);
            assert(variants@.take(i + 1).drop_last() == variants@.take(i as int));
            i += 1;
        }
        assert(variants@.take(i as int) == variants@);
    }

    pub(crate) fn type_or(&mut self, te: Option<&TypeNode>, other: &str) -> (r: String)
        ensures
            (final(self)@, r@) == old(self)@.type_or(opt_node(te), other@),
    {
        match te {
            Some(t) => self.type_to_llvm(&t.value),
            None => owned(other),
        }
    }

    pub(crate) fn param_types(&mut self, params: &Vec<Param>) -> (r: Vec<String>)
        ensures
            (final(self)@, texts(r@)) == old(self)@.param_types(params@),
    {
        let ghost g = self@;
        let mut r: Vec<String> = Vec::new();
        let mut i: usize = 0;
        assert(texts(r@) == Seq::<Text>::empty());
        while i < params.len()
            invariant
                i <= params@.len(),
                (self@, texts(r@)) == g.param_types(params@.take(i as int)),
            decreases params.len() - i,
        {
            let t = self.type_to_llvm(&params[i].type_expr.value);
            let ghost before = r@;
            let ghost text = t@;
            r.push(t);
            assert(texts(r@) == texts(before).push(text));
            assert(params@.take(i + 1).drop_last() == params@.take(i as int));
            i += 1;
        }
        assert(params@.take(i as int) == params@);
        r
    }

    pub(crate) fn field_types(&mut self, fields: &Vec<Param>) -> (r: Pairs)
        ensures
            (final(self)@, r@) == old(self)@.field_types(fields@),
    {
        let ghost g = self@;
        let mut r = Pairs::new();
        let mut i: usize = 0;
        while i < fields.len()
            invariant
                i <= fields@.len(),
                (self@, r@) == g.field_types(fields@.take(i as int)),
            decreases fields.len() - i,
        {
            let t = self.type_to_llvm(&fields[i].type_expr.value);
            r.push(&fields[i].name, &t);
            assert(fields@.take(i + 1).drop_last() == fields@.take(i as int));
            i += 1;
        }
        assert(fields@.take(i as int) == fields@);
        r
    }

    pub(crate) fn wrap_as_union(&mut self, variants: &Vec<TypeExpr>, val: &str, val_ty: &str) -> (r: Option<
        String,
    >)
        ensures
            (final(self)@, opt_text(r)) == old(self)@.wrap_as_union(variants@, val@, val_ty@),
    {
        let ghost g = self@;
        let mut i: usize = 0;
        assert(variants@.skip(0) == variants@);
        while i < variants.len()
            invariant
                i <= variants@.len(),
                g == old(self)@,
                self@.wrap_as_union(variants@.skip(i as int), val@, val_ty@) == g.wrap_as_union(
                    variants@,
                    val@,
                    val_ty@,
                ),
            decreases variants.len() - i,
        {
            let t = self.type_to_llvm(&variants[i]);
            assert(variants@.skip(i as int)[0] == variants@[i as int]);
            assert(variants@.skip(i as int).skip(1) == variants@.skip(i + 1));
            if same(&t, val_ty) {
                let name = variants[i].to_text();
                let w = self.wrap_in_variant(&name, val, val_ty);
                return Some(w);
            }
            i += 1;
        }
        None
    }

    pub(crate) fn expr_type_str(&mut self, expr: &ExprNode) -> (r: String)
        ensures
            (final(self)@, r@) == old(self)@.expr_type_str(*expr),
        decreases expr, 0nat,
    {
        match &expr.value {
            Expr::LitInt(_) => owned("i64"),
            Expr::LitHex(_) => owned("i64"),
            Expr::LitReal(_) => owned("double"),
            Expr::LitBool(_) => owned("i1"),
            Expr::LitStr(_) => owned("%yk_string"),
            Expr::LitSymbol(_) => owned("%yk_string"),
            Expr::Ident(name) => self.val_ty(name),
            Expr::BinOp(l, _, r) => {
                let lt = self.expr_type_str(l);
                if same(&lt, "%yk_string") {
                    owned("%yk_string")
                } else {
                    let rt = self.expr_type_str(r);
                    if same(&lt, "%yk_complex") || same(&rt, "%yk_complex") {
                        owned("%yk_complex")
                    } else if same(&lt, "double") || same(&rt, "double") {
                        owned("double")
                    } else {
                        lt
                    }
                }
            },
            Expr::UnOp(_, inner) => self.expr_type_str(inner),
            Expr::StructLit(name, _) => {
                if self.has_class(name) {
                    cat2("%class.", name)
                } else {
                    cat2("%struct.", name)
                }
            },
            Expr::TupleLit(items) => {
                let types = self.expr_types(items);
                self.get_or_create_tuple_type(&types)
            },
            Expr::LitComplex(_, _) => owned("%yk_complex"),
            Expr::Field(obj, field) => {
                let ot = self.expr_type_str(obj);
                if same(&ot, "%yk_complex") {
                    if same(field, "conj") {
                        owned("%yk_complex")
                    } else {
                        owned("double")
                    }
                } else {
                    owned("i64")
                }
            },
            Expr::PostInc(i) => self.expr_type_str(i),
            Expr::PostDec(i) => self.expr_type_str(i),
            Expr::ResultOk(_) => owned("%yk_result"),
            Expr::ResultErr(_) => owned("%yk_result"),
            Expr::Await(inner) => self.expr_type_str(inner),
            Expr::As(_, target) => self.type_to_llvm(&target.value),
            Expr::Match(_, arms) => self.arms_type(arms),
            _ => owned("i64"),
        }
    }

    pub(crate) fn expr_types(&mut self, items: &Vec<ExprNode>) -> (r: Vec<String>)
        ensures
            (final(self)@, texts(r@)) == old(self)@.expr_types(items@),
        decreases items@, 1nat,
    {
        let ghost g = self@;
        let mut r: Vec<String> = Vec::new();
        let mut i: usize = 0;
        assert(texts(r@) == Seq::<Text>::empty());
        while i < items.len()
            invariant
                i <= items@.len(),
                (self@, texts(r@)) == g.expr_types(items@.take(i as int)),
            decreases items.len() - i,
        {
            let t = self.expr_type_str(&items[i]);
            let ghost before = r@;
            let ghost text = t@;
            r.push(t);
            assert(texts(r@) == texts(before).push(text));
            assert(items@.take(i + 1).drop_last() == items@.take(i as int));
            i += 1;
        }
        assert(items@.take(i as int) == items@);
        r
    }

    pub(crate) fn arms_type(&mut self, arms: &Vec<MatchArm>) -> (r: String)
        ensures
            (final(self)@, r@) == old(self)@.arms_type(arms@),
        decreases arms@, 1nat,
    {
        if arms.len() == 0 {
            owned("i64")
        } else {
            self.expr_type_str(&arms[0].body)
        }
    }

    pub(crate) fn is_http_var(&self, obj: &ExprNode) -> (r: bool)
        ensures
            r == self@.is_http_var(*obj),
    {
        match &obj.value {
            Expr::Ident(name) => self.has_http_var(name),
            _ => false,
        }
    }

    pub(crate) fn find_alloca_for_expr(&self, expr: &ExprNode) -> (r: String)
        ensures
            r@ == self@.find_alloca_for_expr(*expr),
        decreases expr,
    {
        match &expr.value {
            Expr::Ident(name) => match self.var_slot(name) {
                Some(p) => p,
                None => alloca_of(name),
            },
            Expr::Field(obj, field) => {
                let inner = self.find_alloca_for_expr(obj);
                cat3(&inner, ".", field)
            },
            _ => owned("%0"),
        }
    }

    pub(crate) fn mangle_name(&self, name: &str) -> (r: String)
        ensures
            r@ == self@.mangle_name(name@),
    {
        if same(name, "main") {
            owned(name)
        } else {
            match self.fn_name(name) {
                Some(mangled) => mangled,
                None => owned(name),
            }
        }
    }
}

} // verus!
