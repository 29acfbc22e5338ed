//! Patterns: when a value matches, and what its names are bound to.

use vstd::prelude::*;

use crate::codegen::llvm::handler::{bool_string, bool_text};
use crate::codegen::llvm::names::{size_string, size_text};
use crate::codegen::llvm::state::{Gen, LlvmCodegen};
use crate::scan::{begins, behind, opt_text, starts_with, strip_prefix};
use crate::syntax::ast::Pattern;
use crate::table::{Pairs, slot};
use crate::text::{
    cat2, cat3, cat4, cat5, cat6, cat8, cat9, dec, dec_text, int_dec, int_text, owned, same, Text,
};

verus! {

impl Gen {
    /// Compares a string with a literal: the length and the bytes.
    pub open spec fn match_string(self, val: Text, s: Text) -> (Gen, Text) {
        let g = self;
        let size = size_text(s);
        let (g, len_check) = g.fresh_label();
        let g = g.e("%"@ + len_check + " = extractvalue %yk_string "@ + val + ", 1"@);
        let (g, len_match) = g.fresh_label();
        let g = g.e("%"@ + len_match + " = icmp eq i64 %"@ + len_check + ", "@ + size);
        let (g, memcmp_result) = g.fresh_label();
        let (g, data_ptr) = g.fresh_label();
        let g = g.e("%"@ + data_ptr + " = extractvalue %yk_string "@ + val + ", 0"@);
        let (g, str_val) = g.make_string_slot(s);
        let (g, str_slot) = g.fresh_label();
        let g = g.e("%"@ + str_slot + " = alloca %yk_string, align 8"@);
        let g = g.e("store %yk_string "@ + str_val + ", ptr %"@ + str_slot);
        let (g, str_data) = g.fresh_label();
        let g = g.e(
            "%"@ + str_data + " = getelementptr inbounds %yk_string, ptr %"@ + str_slot
                + ", i32 0, i32 0"@
        );
        let (g, str_data_ptr) = g.fresh_label();
        let g = g.e("%"@ + str_data_ptr + " = load ptr, ptr %"@ + str_data);
        let g = g.e(
            "%"@ + memcmp_result + " = call i32 @memcmp(ptr %"@ + data_ptr + ", ptr %"@
                + str_data_ptr + ", i64 "@ + size + ")"@
        );
        let (g, eq_result) = g.fresh_label();
        let g = g.e("%"@ + eq_result + " = icmp eq i32 %"@ + memcmp_result + ", 0"@);
        let (g, final_result) = g.fresh_label();
        let g = g.e("%"@ + final_result + " = and i1 %"@ + len_match + ", %"@ + eq_result);
        (g, "%"@ + final_result)
    }

    /// Compares a value with a literal.
    pub open spec fn match_literal(self, instr: Text, val: Text, literal: Text) -> (Gen, Text) {
        let g = self;
        let (g, tmp) = g.fresh_label();
        let g = g.e("%"@ + tmp + " = "@ + instr + " "@ + val + ", "@ + literal);
        (g, "%"@ + tmp)
    }

    /// Compares the tag of a variant.
    pub open spec fn match_tag(self, val: Text, variant: Text) -> (Gen, Text) {
        let g = self;
        let expected = g.variant_name_tag(variant);
        let (g, tag_val) = g.fresh_label();
        let g = g.e("%"@ + tag_val + " = extractvalue %yk_variant "@ + val + ", 0"@);
        let (g, tag_match) = g.fresh_label();
        let g = g.e(
            "%"@ + tag_match + " = icmp eq i64 %"@ + tag_val + ", "@ + int_dec(expected as int)
        );
        (g, "%"@ + tag_match)
    }

    /// Binds a name to a value.
    pub open spec fn bind_value(self, name: Text, val: Text, ty: Text) -> Gen {
        let g = self;
        let (g, ptr) = g.bind_var(name, ty);
        let g = g.e(ptr + " = alloca "@ + ty + ", align 8"@);
        let g = g.e("store "@ + ty + " "@ + val + ", ptr "@ + ptr);
        g
    }

    /// Binds a name to an element of a list pattern; only the elements of a tuple are taken apart.
    pub open spec fn bind_element(self, name: Text, val: Text, ty: Text, idx: nat) -> Gen {
        let g = self;
        let (g, ptr) = g.bind_var(name, "i64"@);
        let g = g.e(ptr + " = alloca i64, align 8"@);
        let g = if begins(ty, "%tuple."@) {
            let (g, field) = g.fresh_label();
            let g = g.e("%"@ + field + " = extractvalue "@ + ty + " "@ + val + ", "@ + dec(idx));
            let g = g.e("store i64 %"@ + field + ", ptr "@ + ptr);
            g
        } else {
            let g = g.e("store i64 0, ptr "@ + ptr);
            g
        };
        g
    }

    /// Binds a name to what a list pattern leaves over.
    pub open spec fn bind_rest(self, name: Text) -> Gen {
        let g = self;
        let (g, ptr) = g.bind_var(name, "i64"@);
        let g = g.e(ptr + " = alloca i64, align 8"@);
        let g = g.e("store i64 0, ptr "@ + ptr);
        g
    }

    /// What a variant carries.
    pub open spec fn variant_value(self, val: Text) -> (Gen, Text) {
        let g = self;
        let (g, payload) = g.fresh_label();
        let g = g.e("%"@ + payload + " = extractvalue %yk_variant "@ + val + ", 1"@);
        (g, "%"@ + payload)
    }

    /// A field of a struct that a pattern takes apart.
    pub open spec fn pattern_field(self, val: Text, ty: Text, idx: nat) -> (Gen, Text) {
        let g = self;
        let (g, field_val) = g.fresh_label();
        let g = g.e("%"@ + field_val + " = extractvalue "@ + ty + " "@ + val + ", "@ + dec(idx));
        (g, "%"@ + field_val)
    }

    /// The condition under which a value matches a pattern; none where it always does.
    pub open spec fn compile_pattern_match(self, pattern: Pattern, val: Text, ty: Text) -> (Gen, Option<Text>) {
        let g = self;
        match pattern {
            Pattern::Ignore => (g, None),
            Pattern::Ident(_) => (g, None),
            Pattern::Rest(_) => (g, None),
            Pattern::LitInt(n) => if ty == "i64"@ {
                let (g, c) = g.match_literal("icmp eq i64"@, val, int_dec(n as int));
                (g, Some(c))
            } else {
                (g, Some("true"@))
            },
            Pattern::LitReal(n) => if ty == "double"@ {
                let (g, c) = g.match_literal("fcmp oeq double"@, val, n.fixed@);
                (g, Some(c))
            } else {
                (g, Some("true"@))
            },
            Pattern::LitBool(b) => if ty == "i1"@ {
                let (g, c) = g.match_literal("icmp eq i1"@, val, bool_text(b));
                (g, Some(c))
            } else {
                (g, Some(bool_text(b)))
            },
            Pattern::LitStr(s) => if ty == "%yk_string"@ {
                let (g, c) = g.match_string(val, s@);
                (g, Some(c))
            } else {
                (g, Some("true"@))
            },
            Pattern::Variant(name, _) => if ty == "%yk_variant"@ {
                let (g, c) = g.match_tag(val, name@);
                (g, Some(c))
            } else {
                (g, Some("true"@))
            },
            Pattern::Destruct(_) => (g, Some("true"@)),
            Pattern::ListDestruct(_) => (g, Some("true"@)),
        }
    }

    /// Binds the names of a pattern to the parts of a value that matches it.
    pub open spec fn compile_pattern_bind(self, pattern: Pattern, val: Text, ty: Text) -> Gen
        decreases pattern, 0nat,
    {
        match pattern {
            Pattern::Ident(name) => self.bind_value(name@, val, ty),
            Pattern::Rest(name) => self.bind_value(name@, val, ty),
            Pattern::ListDestruct(patterns) => self.bind_elements(patterns@, val, ty),
            Pattern::Destruct(fields) => {
                let defs = self.destructured(ty);
                if names_any_field(fields@, defs) {
                    self.bind_fields(fields@, fields@.len(), defs, val, ty)
                } else {
                    self.bind_all_fields(fields@, val, ty)
                }
            },
            Pattern::Variant(_, patterns) => if ty == "%yk_variant"@ {
                let (g, payload) = self.variant_value(val);
                g.bind_all(patterns@, payload, "i64"@)
            } else {
                self.bind_all(patterns@, val, ty)
            },
            _ => self,
        }
    }

    /// Binds each of the patterns to the same value.
    pub open spec fn bind_all(self, patterns: Seq<Pattern>, val: Text, ty: Text) -> Gen
        decreases patterns, 1nat,
    {
        if patterns.len() == 0 {
            self
        } else {
            self.bind_all(patterns.drop_last(), val, ty).compile_pattern_bind(patterns.last(), val, ty)
        }
    }

    /// Binds the elements of a list pattern.
    pub open spec fn bind_elements(self, patterns: Seq<Pattern>, val: Text, ty: Text) -> Gen
        decreases patterns, 1nat,
    {
        if patterns.len() == 0 {
            self
        } else {
            let g = self.bind_elements(patterns.drop_last(), val, ty);
            match patterns.last() {
                Pattern::Ident(name) => g.bind_element(name@, val, ty, (patterns.len() - 1) as nat),
                Pattern::Rest(name) => g.bind_rest(name@),
                _ => g.compile_pattern_bind(patterns.last(), val, ty),
            }
        }
    }

    /// Binds the patterns of all fields to the same value.
    pub open spec fn bind_all_fields(self, fields: Seq<(String, Pattern)>, val: Text, ty: Text) -> Gen
        decreases fields, 1nat,
    {
        if fields.len() == 0 {
            self
        } else {
            self.bind_all_fields(fields.drop_last(), val, ty).compile_pattern_bind(
                fields.last().1,
                val,
                ty,
            )
        }
    }

    /// Binds the first `n` fields of a struct pattern, each to its field of the struct; a field that
    /// the struct does not have is passed over. The pattern is the first one for the field.
    pub open spec fn bind_fields(
        self,
        fields: Seq<(String, Pattern)>,
        n: nat,
        defs: Seq<(Text, Text)>,
        val: Text,
        ty: Text,
    ) -> Gen
        decreases fields, n + 1,
    {
        if n == 0 || n > fields.len() {
            self
        } else {
            let g = self.bind_fields(fields, (n - 1) as nat, defs, val, ty);
            let name = fields[n - 1].0@;
            let at = slot(defs, name);
            let first = field_place(fields, name);
            if at >= 0 && 0 <= first < fields.len() {
                let (g, v) = g.pattern_field(val, ty, at as nat);
                g.compile_pattern_bind(fields[first].1, v, defs[at].1)
            } else {
                g
            }
        }
    }

    /// The fields of the struct type `ty`; none where it is no known struct.
    pub open spec fn destructured(self, ty: Text) -> Seq<(Text, Text)> {
        match behind(ty, "%struct."@) {
            Some(name) => if name == ""@ {
                seq![]
            } else {
                match self.struct_def(name) {
                    Some(defs) => defs,
                    None => seq![],
                }
            },
            None => seq![],
        }
    }
}

/// The first position of a field in a struct pattern, or -1.
pub open spec fn field_place(fields: Seq<(String, Pattern)>, name: Text) -> int
    decreases fields.len(),
{
    if fields.len() == 0 {
        -1
    } else if field_place(fields.drop_last(), name) >= 0 {
        field_place(fields.drop_last(), name)
    } else if fields.last().0@ == name {
        fields.len() - 1
    } else {
        -1
    }
}

/// Whether one of the fields of a struct pattern is among `defs`.
pub open spec fn names_any_field(fields: Seq<(String, Pattern)>, defs: Seq<(Text, Text)>) -> bool
    decreases fields.len(),
{
    fields.len() > 0 && (slot(defs, fields.last().0@) >= 0 || names_any_field(fields.drop_last(), defs))
}

fn find_field(fields: &Vec<(String, Pattern)>, name: &str) -> (r: Option<usize>)
    ensures
        match r {
            Some(i) => field_place(fields@, name@) == i && i < fields@.len(),
            None => field_place(fields@, name@) == -1,
        },
{
    let mut found: Option<usize> = None;
    let mut i: usize = 0;
    while i < fields.len()
        invariant
            i <= fields@.len(),
            match found {
                Some(k) => field_place(fields@.take(i as int), name@) == k && k < i,
                None => field_place(fields@.take(i as int), name@) == -1,
            },
        decreases fields.len() - i,
    {
        assert(fields@.take(i + 1).drop_last() == fields@.take(i as int));
        if found.is_none() && same(&fields[i].0, name) {
            found = Some(i);
        }
        i += 1;
    }
    assert(fields@.take(i as int) == fields@);
    found
}

fn any_field(fields: &Vec<(String, Pattern)>, defs: &Pairs) -> (r: bool)
    ensures
        r == names_any_field(fields@, defs@),
{
    let mut any = false;
    let mut i: usize = 0;
    while i < fields.len()
        invariant
            i <= fields@.len(),
            any == names_any_field(fields@.take(i as int), defs@),
        decreases fields.len() - i,
    {
        assert(fields@.take(i + 1).drop_last() == fields@.take(i as int));
        if defs.position(&fields[i].0).is_some() {
            any = true;
        }
        i += 1;
    }
    assert(fields@.take(i as int) == fields@);
    any
}

impl<'a> LlvmCodegen<'a> {
    pub(crate) fn match_string(&mut self, val: &str, s: &str) -> (r: String)
        ensures
            (final(self)@, r@) == old(self)@.match_string(val@, s@),
    {
        let size = size_string(s);
        let len_check = self.fresh_label();
        self.e(&cat5("%", &len_check, " = extractvalue %yk_string ", val, ", 1"));
        let len_match = self.fresh_label();
        self.e(&cat6("%", &len_match, " = icmp eq i64 %", &len_check, ", ", &size));
        let memcmp_result = self.fresh_label();
        let data_ptr = self.fresh_label();
        self.e(&cat5("%", &data_ptr, " = extractvalue %yk_string ", val, ", 0"));
        let str_val = self.make_string_slot(s);
        let str_slot = self.fresh_label();
        self.e(&cat3("%", &str_slot, " = alloca %yk_string, align 8"));
        self.e(&cat4("store %yk_string ", &str_val, ", ptr %", &str_slot));
        let str_data = self.fresh_label();
        self.e(
            &cat5("%", &str_data, " = getelementptr inbounds %yk_string, ptr %", &str_slot,
                ", i32 0, i32 0")
        );
        let str_data_ptr = self.fresh_label();
        self.e(&cat4("%", &str_data_ptr, " = load ptr, ptr %", &str_data));
        self.e(
            &cat9("%", &memcmp_result, " = call i32 @memcmp(ptr %", &data_ptr, ", ptr %",
                &str_data_ptr, ", i64 ", &size, ")")
        );
        let eq_result = self.fresh_label();
        self.e(&cat5("%", &eq_result, " = icmp eq i32 %", &memcmp_result, ", 0"));
        let final_result = self.fresh_label();
        self.e(&cat6("%", &final_result, " = and i1 %", &len_match, ", %", &eq_result));
        cat2("%", &final_result)
    }

    pub(crate) fn match_literal(&mut self, instr: &str, val: &str, literal: &str) -> (r: String)
        ensures
            (final(self)@, r@) == old(self)@.match_literal(instr@, val@, literal@),
    {
        let tmp = self.fresh_label();
        self.e(&cat8("%", &tmp, " = ", instr, " ", val, ", ", literal));
        cat2("%", &tmp)
    }

    pub(crate) fn match_tag(&mut self, val: &str, variant: &str) -> (r: String)
        ensures
            (final(self)@, r@) == old(self)@.match_tag(val@, variant@),
    {
        let expected: i64 = self.variant_name_tag(variant);
        let tag_val = self.fresh_label();
        self.e(&cat5("%", &tag_val, " = extractvalue %yk_variant ", val, ", 0"));
        let tag_match = self.fresh_label();
        self.e(&cat6("%", &tag_match, " = icmp eq i64 %", &tag_val, ", ", &int_text(expected)));
        cat2("%", &tag_match)
    }

    pub(crate) fn bind_value(&mut self, name: &str, val: &str, ty: &str)
        ensures
            final(self)@ == old(self)@.bind_value(name@, val@, ty@),
    {
        let ptr = self.bind_var(name, ty);
        self.e(&cat4(&ptr, " = alloca ", ty, ", align 8"));
        self.e(&cat6("store ", ty, " ", val, ", ptr ", &ptr));
    }

    pub(crate) fn bind_element(&mut self, name: &str, val: &str, ty: &str, idx: usize)
        ensures
            final(self)@ == old(self)@.bind_element(name@, val@, ty@, idx as nat),
    {
        let ptr = self.bind_var(name, "i64");
        self.e(&cat2(&ptr, " = alloca i64, align 8"));
        if starts_with(ty, "%tuple.") {
            let field = self.fresh_label();
            self.e(
                &cat8("%", &field, " = extractvalue ", ty, " ", val, ", ", &dec_text(idx as u128))
            );
            self.e(&cat4("store i64 %", &field, ", ptr ", &ptr));
        } else {
            self.e(&cat2("store i64 0, ptr ", &ptr));
        }
    }

    pub(crate) fn bind_rest(&mut self, name: &str)
        ensures
            final(self)@ == old(self)@.bind_rest(name@),
    {
        let ptr = self.bind_var(name, "i64");
        self.e(&cat2(&ptr, " = alloca i64, align 8"));
        self.e(&cat2("store i64 0, ptr ", &ptr));
    }

    pub(crate) fn variant_value(&mut self, val: &str) -> (r: String)
        ensures
            (final(self)@, r@) == old(self)@.variant_value(val@),
    {
        let payload = self.fresh_label();
        self.e(&cat5("%", &payload, " = extractvalue %yk_variant ", val, ", 1"));
        cat2("%", &payload)
    }

    pub(crate) fn pattern_field(&mut self, val: &str, ty: &str, idx: usize) -> (r: String)
        ensures
            (final(self)@, r@) == old(self)@.pattern_field(val@, ty@, idx as nat),
    {
        let field_val = self.fresh_label();
        self.e(
            &cat8("%", &field_val, " = extractvalue ", ty, " ", val, ", ", &dec_text(idx as u128))
        );
        cat2("%", &field_val)
    }

    pub(crate) fn compile_pattern_match(&mut self, pattern: &Pattern, val: &str, ty: &str) -> (r: Option<
        String,
    >)
        ensures
            (final(self)@, opt_text(r)) == old(self)@.compile_pattern_match(*pattern, val@, ty@),
    {
        match pattern {
            Pattern::Ignore => None,
            Pattern::Ident(_) => None,
            Pattern::Rest(_) => None,
            Pattern::LitInt(n) => {
                if same(ty, "i64") {
                    Some(self.match_literal("icmp eq i64", val, &int_text(*n)))
                } else {
                    Some(owned("true"))
                }
            },
            Pattern::LitReal(n) => {
                if same(ty, "double") {
                    Some(self.match_literal("fcmp oeq double", val, &n.fixed))
                } else {
                    Some(owned("true"))
                }
            },
            Pattern::LitBool(b) => {
                let v = bool_string(*b);
                if same(ty, "i1") {
                    Some(self.match_literal("icmp eq i1", val, &v))
                } else {
                    Some(v)
                }
            },
            Pattern::LitStr(s) => {
                if same(ty, "%yk_string") {
                    Some(self.match_string(val, s))
                } else {
                    Some(owned("true"))
                }
            },
            Pattern::Variant(name, _) => {
                if same(ty, "%yk_variant") {
                    Some(self.match_tag(val, name))
                } else {
                    Some(owned("true"))
                }
            },
            Pattern::Destruct(_) => Some(owned("true")),
            Pattern::ListDestruct(_) => Some(owned("true")),
        }
    }

    fn destructured(&self, ty: &str) -> (r: Pairs)
        ensures
            r@ == self@.destructured(ty@),
    {
        match strip_prefix(ty, "%struct.") {
            Some(name) => {
                if same(&name, "") {
                    Pairs::new()
                } else {
                    match self.struct_def(&name) {
                        Some(defs) => defs,
                        None => Pairs::new(),
                    }
                }
            },
            None => Pairs::new(),
        }
    }

    pub(crate) fn compile_pattern_bind(&mut self, pattern: &Pattern, val: &str, ty: &str)
        ensures
            final(self)@ == old(self)@.compile_pattern_bind(*pattern, val@, ty@),
        decreases pattern, 0nat,
    {
        match pattern {
            Pattern::Ident(name) => self.bind_value(name, val, ty),
            Pattern::Rest(name) => self.bind_value(name, val, ty),
            Pattern::ListDestruct(patterns) => self.bind_elements(patterns, val, ty),
            Pattern::Destruct(fields) => {
                let defs = self.destructured(ty);
                if any_field(fields, &defs) {
                    self.bind_fields(fields, &defs, val, ty);
                } else {
                    self.bind_all_fields(fields, val, ty);
                }
            },
            Pattern::Variant(_, patterns) => {
                if same(ty, "%yk_variant") {
                    let payload = self.variant_value(val);
                    self.bind_all(patterns, &payload, "i64");
                } else {
                    self.bind_all(patterns, val, ty);
                }
            },
            _ => {},
        }
    }

    fn bind_all(&mut self, patterns: &Vec<Pattern>, val: &str, ty: &str)
        ensures
            final(self)@ == old(self)@.bind_all(patterns@, val@, ty@),
        decreases patterns@, 1nat,
    {
        let ghost g = self@;
        let mut i: usize = 0;
        while i < patterns.len()
            invariant
                i <= patterns@.len(),
                self@ == g.bind_all(patterns@.take(i as int), val@, ty@),
            decreases patterns.len() - i,
        {
            self.compile_pattern_bind(&patterns[i], val, ty);
            assert(patterns@.take(i + 1).drop_last() == patterns@.take(i as int));
            i += 1;
        }
        assert(patterns@.take(i as int) == patterns@);
    }

    fn bind_elements(&mut self, patterns: &Vec<Pattern>, val: &str, ty: &str)
        ensures
            final(self)@ == old(self)@.bind_elements(patterns@, val@, ty@),
        decreases patterns@, 1nat,
    {
        let ghost g = self@;
        let mut i: usize = 0;
        while i < patterns.len()
            invariant
                i <= patterns@.len(),
                self@ == g.bind_elements(patterns@.take(i as int), val@, ty@),
            decreases patterns.len() - i,
        {
            match &patterns[i] {
                Pattern::Ident(name) => self.bind_element(name, val, ty, i),
                Pattern::Rest(name) => self.bind_rest(name),
                _ => self.compile_pattern_bind(&patterns[i], val, ty),
            }
            assert(patterns@.take(i + 1).drop_last() == patterns@.take(i as int));
            i += 1;
        }
        assert(patterns@.take(i as int) == patterns@);
    }

    fn bind_all_fields(&mut self, fields: &Vec<(String, Pattern)>, val: &str, ty: &str)
        ensures
            final(self)@ == old(self)@.bind_all_fields(fields@, val@, ty@),
        decreases fields@, 1nat,
    {
        let ghost g = self@;
        let mut i: usize = 0;
        while i < fields.len()
            invariant
                i <= fields@.len(),
                self@ == g.bind_all_fields(fields@.take(i as int), val@, ty@),
            decreases fields.len() - i,
        {
            self.compile_pattern_bind(&fields[i].1, val, ty);
            assert(fields@.take(i + 1).drop_last() == fields@.take(i as int));
            i += 1;
        }
        assert(fields@.take(i as int) == fields@);
    }

    fn bind_fields(&mut self, fields: &Vec<(String, Pattern)>, defs: &Pairs, val: &str, ty: &str)
        ensures
            final(self)@ == old(self)@.bind_fields(fields@, fields@.len(), defs@, val@, ty@),
        decreases fields@, 1nat,
    {
        let ghost g = self@;
        let mut i: usize = 0;
        while i < fields.len()
            invariant
                i <= fields@.len(),
                self@ == g.bind_fields(fields@, i as nat, defs@, val@, ty@),
            decreases fields.len() - i,
        {
            match defs.position(&fields[i].0) {
                Some(at) => match find_field(fields, &fields[i].0) {
                    Some(first) => {
                        let v = self.pattern_field(val, ty, at);
                        assert(defs@[at as int] == (defs.list@[at as int].0@, defs.list@[at as int].1@));
                        self.compile_pattern_bind(&fields[first].1, &v, &defs.list[at].1);
                    },
                    None => {},
                },
                None => {},
            }
            i += 1;
        }
    }
}

} // verus!
