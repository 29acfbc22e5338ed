//! Values: constants, packing, wrapping, variables and types.

use vstd::prelude::*;

use crate::codegen::llvm::names::{
    alloca_name, alloca_of, arg, arg_at, array_size, array_size_string, constant_string,
    constant_text, nullable_name, nullable_of, size_string, size_text, undot, undotted,
};
use crate::codegen::llvm::state::{Gen, LlvmCodegen};
use crate::scan::{join, joined, texts};
use crate::table::pairs;
use crate::text::{
    cat2, cat3, cat4, cat5, cat6, cat7, cat9, dec, dec_text, int_dec, int_text, owned, same, Text,
};

verus! {

impl Gen {
    /// A name for the value that is about to be read from a variable.
    pub open spec fn value_name(self, var: Text) -> (Gen, Text) {
        let g = self;
        let (g, n) = g.next_number();
        (g, "%"@ + undotted(var) + ".val_"@ + n)
    }

    /// Makes a string constant and a string value that points to it.
    pub open spec fn make_string_slot(self, s: Text) -> (Gen, Text) {
        let g = self;
        let (g, lbl) = g.fresh_label();
        let g = g.add_string(
            "@"@ + lbl + " = private unnamed_addr constant ["@ + array_size(s) + " x i8] c\""@
                + constant_text(s) + "\\00\", align 1"@
        );
        let (g, ptr) = g.fresh_label();
        let g = g.e(
            "%"@ + ptr + " = getelementptr inbounds ["@ + array_size(s) + " x i8], ptr @"@ + lbl
                + ", i64 0, i64 0"@
        );
        let (g, tmp) = g.fresh_label();
        let g = g.e("%"@ + tmp + " = insertvalue %yk_string undef, ptr %"@ + ptr + ", 0"@);
        let (g, tmp2) = g.fresh_label();
        let g = g.e(
            "%"@ + tmp2 + " = insertvalue %yk_string %"@ + tmp + ", i64 "@ + size_text(s) + ", 1"@
        );
        (g, "%"@ + tmp2)
    }

    /// Puts a string value on the stack.
    pub open spec fn string_to_ptr(self, val: Text) -> (Gen, Text) {
        let g = self;
        let (g, slot) = g.fresh_label();
        let g = g.e("%"@ + slot + " = alloca %yk_string, align 8"@);
        let g = g.e("store %yk_string "@ + val + ", ptr %"@ + slot);
        (g, "%"@ + slot)
    }

    /// Puts a complex value on the stack; the result is the bare label.
    pub open spec fn complex_to_slot(self, val: Text) -> (Gen, Text) {
        let g = self;
        let (g, slot) = g.fresh_label();
        let g = g.e("%"@ + slot + " = alloca %yk_complex, align 8"@);
        let g = g.e("store %yk_complex "@ + val + ", ptr %"@ + slot);
        (g, slot)
    }

    /// Packs a value into 64 bits: by its bits, or as the address of its place on the stack.
    pub open spec fn to_i64(self, val: Text, typ: Text) -> (Gen, Text) {
        let g = self;
        if typ == "double"@ {
            let (g, b) = g.fresh_label();
            let g = g.e("%"@ + b + " = bitcast double "@ + val + " to i64"@);
            (g, "%"@ + b)
        } else if typ == "i1"@ {
            let (g, b) = g.fresh_label();
            let g = g.e("%"@ + b + " = zext i1 "@ + val + " to i64"@);
            (g, "%"@ + b)
        } else if typ == "%yk_string"@ {
            let (g, p) = g.string_to_ptr(val);
            let (g, b) = g.fresh_label();
            let g = g.e("%"@ + b + " = ptrtoint ptr "@ + p + " to i64"@);
            (g, "%"@ + b)
        } else if typ == "%yk_complex"@ {
            let (g, slot) = g.complex_to_slot(val);
            let (g, b) = g.fresh_label();
            let g = g.e("%"@ + b + " = ptrtoint ptr %"@ + slot + " to i64"@);
            (g, "%"@ + b)
        } else {
            (g, val)
        }
    }

    /// Wraps a value into a nullable type, or makes its null.
    pub open spec fn wrap_in_nullable(
        self,
        nullable_ty: Text,
        val: Text,
        val_ty: Text,
        is_null: bool,
    ) -> (Gen, Text) {
        let g = self;
        if is_null {
            let (g, r1) = g.fresh_label();
            let g = g.e(
                "%"@ + r1 + " = insertvalue "@ + nullable_ty + " zeroinitializer, i1 0, 1"@
            );
            (g, "%"@ + r1)
        } else {
            let (g, r1) = g.fresh_label();
            let g = g.e(
                "%"@ + r1 + " = insertvalue "@ + nullable_ty + " undef, "@ + val_ty + " "@ + val
                    + ", 0"@
            );
            let (g, r2) = g.fresh_label();
            let g = g.e("%"@ + r2 + " = insertvalue "@ + nullable_ty + " %"@ + r1 + ", i1 1, 1"@);
            (g, "%"@ + r2)
        }
    }

    /// The 64 bits that a variant carries for a value.
    pub open spec fn variant_payload(self, val: Text, val_ty: Text) -> (Gen, Text) {
        let g = self;
        if val_ty == "%yk_string"@ || val_ty == "ptr"@ {
            let (g, a) = g.fresh_label();
            let g = g.e("%"@ + a + " = alloca "@ + val_ty + ", align 8"@);
            let g = g.e("store "@ + val_ty + " "@ + val + ", ptr %"@ + a);
            let (g, p) = g.fresh_label();
            let g = g.e("%"@ + p + " = ptrtoint ptr %"@ + a + " to i64"@);
            (g, "%"@ + p)
        } else if val_ty == "i1"@ {
            let (g, p) = g.fresh_label();
            let g = g.e("%"@ + p + " = zext i1 "@ + val + " to i64"@);
            (g, "%"@ + p)
        } else {
            (g, val)
        }
    }

    /// A variant value: its tag and what it carries.
    pub open spec fn make_variant(self, tag: i64, payload: Text) -> (Gen, Text) {
        let g = self;
        let (g, r1) = g.fresh_label();
        let g = g.e(
            "%"@ + r1 + " = insertvalue %yk_variant undef, i64 "@ + int_dec(tag as int) + ", 0"@
        );
        let (g, r2) = g.fresh_label();
        let g = g.e(
            "%"@ + r2 + " = insertvalue %yk_variant %"@ + r1 + ", i64 "@ + payload + ", 1"@
        );
        (g, "%"@ + r2)
    }

    /// Wraps a value into the variant of a union that is named by its type.
    pub open spec fn wrap_in_variant(self, variant: Text, val: Text, val_ty: Text) -> (Gen, Text) {
        let g = self;
        let tag = g.variant_name_tag(variant);
        let (g, payload) = g.variant_payload(val, val_ty);
        let (g, r) = g.make_variant(tag, payload);
        (g, r)
    }

    /// Loads a string from where a runtime function left it.
    pub open spec fn load_string(self, ptr: Text) -> (Gen, (Text, Text)) {
        let g = self;
        let (g, loaded) = g.fresh_label();
        let g = g.e("%"@ + loaded + " = load %yk_string, ptr "@ + ptr);
        (g, ("%"@ + loaded, "%yk_string"@))
    }

    /// Calls a runtime function that returns the address of a string.
    pub open spec fn call_string(self, call: Text) -> (Gen, (Text, Text)) {
        let g = self;
        let (g, ptr_tmp) = g.fresh_label();
        let g = g.e("%"@ + ptr_tmp + " = call ptr @"@ + call);
        g.load_string("%"@ + ptr_tmp)
    }

    /// Calls a runtime function that returns an integer.
    pub open spec fn call_int(self, call: Text) -> (Gen, (Text, Text)) {
        let g = self;
        let (g, tmp) = g.fresh_label();
        let g = g.e("%"@ + tmp + " = call i64 @"@ + call);
        (g, ("%"@ + tmp, "i64"@))
    }

    /// Calls a runtime function that answers yes or no.
    pub open spec fn call_flag(self, call: Text) -> (Gen, (Text, Text)) {
        let g = self;
        let (g, tmp) = g.fresh_label();
        let g = g.e("%"@ + tmp + " = call i64 @"@ + call);
        let (g, b) = g.fresh_label();
        let g = g.e("%"@ + b + " = icmp ne i64 %"@ + tmp + ", 0"@);
        (g, ("%"@ + b, "i1"@))
    }

    /// Calls a runtime function that returns an address.
    pub open spec fn call_ptr(self, call: Text) -> (Gen, Text) {
        let g = self;
        let (g, t) = g.fresh_label();
        let g = g.e("%"@ + t + " = call ptr @"@ + call);
        (g, "%"@ + t)
    }

    /// The address of an argument that is a string; any other argument counts as null.
    pub open spec fn arg_ptr(self, args: Seq<(Text, Text)>, i: nat) -> (Gen, Text) {
        let g = self;
        if let Some((av, at)) = arg(args, i) {
            if at == "%yk_string"@ {
                let (g, p) = g.string_to_ptr(av);
                (g, p)
            } else {
                (g, "null"@)
            }
        } else {
            (g, "null"@)
        }
    }

    /// Gives a variable a slot on the stack, and a type.
    pub open spec fn bind_var(self, name: Text, ty: Text) -> (Gen, Text) {
        let g = self;
        let ptr = alloca_name(name);
        let g = g.set_var_type(name, ty);
        let g = g.set_var_alloca(name, ptr);
        (g, ptr)
    }

    /// Gives a parameter a slot on the stack, and stores the parameter with that number there.
    pub open spec fn store_param(self, name: Text, ty: Text, i: nat) -> Gen {
        let g = self;
        let (g, ptr) = g.bind_var(name, ty);
        let g = g.e(ptr + " = alloca "@ + ty + ", align 8"@);
        let g = g.e("store "@ + ty + " %"@ + dec(i) + ", ptr "@ + ptr);
        g
    }

    /// Reads a variable, or a whole object.
    pub open spec fn load_name(self, name: Text) -> (Gen, (Text, Text)) {
        let g = self;
        if g.has_object(name) {
            let obj_ty = "%object."@ + name;
            let (g, tmp) = g.fresh_label();
            let g = g.e("%"@ + tmp + " = load "@ + obj_ty + ", ptr @object."@ + name);
            (g, ("%"@ + tmp, obj_ty))
        } else {
            let ty = g.val_ty(name);
            if let Some(ptr) = g.var_slot(name) {
                let (g, val_name) = g.value_name(name);
                let g = g.e(val_name + " = load "@ + ty + ", ptr "@ + ptr);
                (g, (val_name, ty))
            } else {
                (g, ("%"@ + name, ty))
            }
        }
    }

    /// The tuple type of a list of element types, which is defined where it is new.
    pub open spec fn get_or_create_tuple_type(self, elem_types: Seq<Text>) -> (Gen, Text) {
        let g = self;
        let sig = joined(elem_types, "||"@);
        if let Some(name) = g.tuple_name(sig) {
            (g, name)
        } else {
            let (g, name) = g.next_tuple();
            let g = g.set_tuple_name(sig, name);
            let fields = joined(elem_types, ", "@);
            let g = g.add_type_line(name + " = type { "@ + fields + " }"@);
            (g, name)
        }
    }

    /// Defines the nullable type of a type, where it is new.
    pub open spec fn define_nullable(self, inner_ty: Text) -> (Gen, Text) {
        let g = self;
        let name = nullable_name(inner_ty);
        let g = if !g.has_nullable(name) {
            let g = g.add_nullable(name);
            let g = g.add_type_line(name + " = type { "@ + inner_ty + ", i1 }"@);
            g
        } else {
            g
        };
        (g, name)
    }

    /// The type of a name that is no keyword: a struct, a class, an interface or an object; else an integer.
    pub open spec fn named_type(self, name: Text) -> Text {
        let g = self;
        if g.has_struct(name) {
            "%struct."@ + name
        } else if g.has_class(name) {
            "%class."@ + name
        } else if g.has_interface(name) {
            "%iface."@ + name
        } else if g.has_object(name) {
            "%object."@ + name
        } else {
            "i64"@
        }
    }

    /// The type of a generic type.
    pub open spec fn generic_type(self, name: Text) -> Text {
        let g = self;
        if g.has_class(name) {
            "%class."@ + name
        } else if g.has_struct(name) {
            "%struct."@ + name
        } else if name == "Result"@ {
            "%yk_result"@
        } else {
            "i64"@
        }
    }

    /// Turns the payload of a string into one that a result can carry.
    pub open spec fn result_payload(self, iv: Text, it: Text) -> (Gen, Text) {
        let g = self;
        if it == "%yk_string"@ {
            let (g, d) = g.fresh_label();
            let (g, l) = g.fresh_label();
            let g = g.e("%"@ + d + " = extractvalue %yk_string "@ + iv + ", 0"@);
            let g = g.e("%"@ + l + " = extractvalue %yk_string "@ + iv + ", 1"@);
            let (g, addr) = g.fresh_label();
            let g = g.e("%"@ + addr + " = ptrtoint ptr %"@ + d + " to i64"@);
            let (g, p) = g.fresh_label();
            let g = g.e(
                "%"@ + p + " = call i64 @yk_result_str_new(i64 %"@ + addr + ", i64 %"@ + l + ")"@
            );
            (g, "%"@ + p)
        } else {
            let (g, p) = g.to_i64(iv, it);
            (g, p)
        }
    }

    /// A result: `flag` is 1 where it is good, else 0.
    pub open spec fn make_result(self, iv: Text, it: Text, flag: Text) -> (Gen, (Text, Text)) {
        let g = self;
        let (g, payload) = g.result_payload(iv, it);
        let (g, tmp) = g.fresh_label();
        let g = g.e("%"@ + tmp + " = insertvalue %yk_result undef, i64 "@ + payload + ", 0"@);
        let (g, tmp2) = g.fresh_label();
        let g = g.e("%"@ + tmp2 + " = insertvalue %yk_result %"@ + tmp + ", i1 "@ + flag + ", 1"@);
        (g, ("%"@ + tmp2, "%yk_result"@))
    }

    /// An interface value: a class value on the stack, and the method table of the class for the interface.
    pub open spec fn make_interface(
        self,
        iface_ty: Text,
        iface_name: Text,
        val: Text,
        val_ty: Text,
        class_name: Text,
    ) -> (Gen, Text) {
        let g = self;
        let (g, obj_alloca) = g.fresh_label();
        let g = g.e("%"@ + obj_alloca + " = alloca "@ + val_ty + ", align 8"@);
        let g = g.e("store "@ + val_ty + " "@ + val + ", ptr %"@ + obj_alloca);
        let (g, obj_ptr) = g.fresh_label();
        let g = g.e("%"@ + obj_ptr + " = ptrtoint ptr %"@ + obj_alloca + " to i64"@);
        let (g, obj_data_ptr) = g.fresh_label();
        let g = g.e("%"@ + obj_data_ptr + " = inttoptr i64 %"@ + obj_ptr + " to ptr"@);
        let (g, vtable_int) = g.fresh_label();
        let g = g.e(
            "%"@ + vtable_int + " = ptrtoint ptr @iface_vtable."@ + iface_name + "."@ + class_name
                + " to i64"@
        );
        let (g, vtable_ptr) = g.fresh_label();
        let g = g.e("%"@ + vtable_ptr + " = inttoptr i64 %"@ + vtable_int + " to ptr"@);
        let (g, iface_val) = g.fresh_label();
        let g = g.e(
            "%"@ + iface_val + " = insertvalue "@ + iface_ty + " undef, ptr %"@ + obj_data_ptr
                + ", 0"@
        );
        let (g, iface_val2) = g.fresh_label();
        let g = g.e(
            "%"@ + iface_val2 + " = insertvalue "@ + iface_ty + " %"@ + iface_val + ", ptr %"@
                + vtable_ptr + ", 1"@
        );
        (g, "%"@ + iface_val2)
    }
}

impl<'a> LlvmCodegen<'a> {
    pub(crate) fn value_name(&mut self, var: &str) -> (r: String)
        ensures
            (final(self)@, r@) == old(self)@.value_name(var@),
    {
        let n = self.next_number();
        cat4("%", &undot(var), ".val_", &n)
    }

    pub(crate) fn make_string_slot(&mut self, s: &str) -> (r: String)
        ensures
            (final(self)@, r@) == old(self)@.make_string_slot(s@),
    {
        let lbl = self.fresh_label();
        self.add_string(
            &cat7("@", &lbl, " = private unnamed_addr constant [", &array_size_string(s),
                " x i8] c\"", &constant_string(s), "\\00\", align 1")
        );
        let ptr = self.fresh_label();
        self.e(
            &cat7("%", &ptr, " = getelementptr inbounds [", &array_size_string(s), " x i8], ptr @",
                &lbl, ", i64 0, i64 0")
        );
        let tmp = self.fresh_label();
        self.e(&cat5("%", &tmp, " = insertvalue %yk_string undef, ptr %", &ptr, ", 0"));
        let tmp2 = self.fresh_label();
        self.e(
            &cat7("%", &tmp2, " = insertvalue %yk_string %", &tmp, ", i64 ", &size_string(s), ", 1")
        );
        cat2("%", &tmp2)
    }

    pub(crate) fn string_to_ptr(&mut self, val: &str) -> (r: String)
        ensures
            (final(self)@, r@) == old(self)@.string_to_ptr(val@),
    {
        let slot = self.fresh_label();
        self.e(&cat3("%", &slot, " = alloca %yk_string, align 8"));
        self.e(&cat4("store %yk_string ", val, ", ptr %", &slot));
        cat2("%", &slot)
    }

    pub(crate) fn complex_to_slot(&mut self, val: &str) -> (r: String)
        ensures
            (final(self)@, r@) == old(self)@.complex_to_slot(val@),
    {
        let slot = self.fresh_label();
        self.e(&cat3("%", &slot, " = alloca %yk_complex, align 8"));
        self.e(&cat4("store %yk_complex ", val, ", ptr %", &slot));
        slot
    }

    pub(crate) fn to_i64(&mut self, val: &str, typ: &str) -> (r: String)
        ensures
            (final(self)@, r@) == old(self)@.to_i64(val@, typ@),
    {
        if same(typ, "double") {
            let b = self.fresh_label();
            self.e(&cat5("%", &b, " = bitcast double ", val, " to i64"));
            cat2("%", &b)
        } else if same(typ, "i1") {
            let b = self.fresh_label();
            self.e(&cat5("%", &b, " = zext i1 ", val, " to i64"));
            cat2("%", &b)
        } else if same(typ, "%yk_string") {
            let p = self.string_to_ptr(val);
            let b = self.fresh_label();
            self.e(&cat5("%", &b, " = ptrtoint ptr ", &p, " to i64"));
            cat2("%", &b)
        } else if same(typ, "%yk_complex") {
            let slot = self.complex_to_slot(val);
            let b = self.fresh_label();
            self.e(&cat5("%", &b, " = ptrtoint ptr %", &slot, " to i64"));
            cat2("%", &b)
        } else {
            owned(val)
        }
    }

    pub(crate) fn wrap_in_nullable(
        &mut self,
        nullable_ty: &str,
        val: &str,
        val_ty: &str,
        is_null: bool,
    ) -> (r: String)
        ensures
            (final(self)@, r@) == old(self)@.wrap_in_nullable(nullable_ty@, val@, val_ty@, is_null),
    {
        if is_null {
            let r1 = self.fresh_label();
            self.e(&cat5("%", &r1, " = insertvalue ", nullable_ty, " zeroinitializer, i1 0, 1"));
            cat2("%", &r1)
        } else {
            let r1 = self.fresh_label();
            self.e(
                &cat9("%", &r1, " = insertvalue ", nullable_ty, " undef, ", val_ty, " ", val, ", 0")
            );
            let r2 = self.fresh_label();
            self.e(&cat7("%", &r2, " = insertvalue ", nullable_ty, " %", &r1, ", i1 1, 1"));
            cat2("%", &r2)
        }
    }

    pub(crate) fn variant_payload(&mut self, val: &str, val_ty: &str) -> (r: String)
        ensures
            (final(self)@, r@) == old(self)@.variant_payload(val@, val_ty@),
    {
        if same(val_ty, "%yk_string") || same(val_ty, "ptr") {
            let a = self.fresh_label();
            self.e(&cat5("%", &a, " = alloca ", val_ty, ", align 8"));
            self.e(&cat6("store ", val_ty, " ", val, ", ptr %", &a));
            let p = self.fresh_label();
            self.e(&cat5("%", &p, " = ptrtoint ptr %", &a, " to i64"));
            cat2("%", &p)
        } else if same(val_ty, "i1") {
            let p = self.fresh_label();
            self.e(&cat5("%", &p, " = zext i1 ", val, " to i64"));
            cat2("%", &p)
        } else {
            owned(val)
        }
    }

    pub(crate) fn make_variant(&mut self, tag: i64, payload: &str) -> (r: String)
        ensures
            (final(self)@, r@) == old(self)@.make_variant(tag, payload@),
    {
        let r1 = self.fresh_label();
        self.e(&cat5("%", &r1, " = insertvalue %yk_variant undef, i64 ", &int_text(tag), ", 0"));
        let r2 = self.fresh_label();
        self.e(&cat7("%", &r2, " = insertvalue %yk_variant %", &r1, ", i64 ", payload, ", 1"));
        cat2("%", &r2)
    }

    pub(crate) fn wrap_in_variant(&mut self, variant: &str, val: &str, val_ty: &str) -> (r: String)
        ensures
            (final(self)@, r@) == old(self)@.wrap_in_variant(variant@, val@, val_ty@),
    {
        let tag: i64 = self.variant_name_tag(variant);
        let payload = self.variant_payload(val, val_ty);
        let r = self.make_variant(tag, &payload);
        r
    }

    pub(crate) fn load_string(&mut self, ptr: &str) -> (r: (String, String))
        ensures
            (final(self)@, (r.0@, r.1@)) == old(self)@.load_string(ptr@),
    {
        let loaded = self.fresh_label();
        self.e(&cat4("%", &loaded, " = load %yk_string, ptr ", ptr));
        (cat2("%", &loaded), owned("%yk_string"))
    }

    pub(crate) fn call_string(&mut self, call: &str) -> (r: (String, String))
        ensures
            (final(self)@, (r.0@, r.1@)) == old(self)@.call_string(call@),
    {
        let ptr_tmp = self.fresh_label();
        self.e(&cat4("%", &ptr_tmp, " = call ptr @", call));
        self.load_string(&cat2("%", &ptr_tmp))
    }

    pub(crate) fn call_int(&mut self, call: &str) -> (r: (String, String))
        ensures
            (final(self)@, (r.0@, r.1@)) == old(self)@.call_int(call@),
    {
        let tmp = self.fresh_label();
        self.e(&cat4("%", &tmp, " = call i64 @", call));
        (cat2("%", &tmp), owned("i64"))
    }

    pub(crate) fn call_flag(&mut self, call: &str) -> (r: (String, String))
        ensures
            (final(self)@, (r.0@, r.1@)) == old(self)@.call_flag(call@),
    {
        let tmp = self.fresh_label();
        self.e(&cat4("%", &tmp, " = call i64 @", call));
        let b = self.fresh_label();
        self.e(&cat5("%", &b, " = icmp ne i64 %", &tmp, ", 0"));
        (cat2("%", &b), owned("i1"))
    }

    pub(crate) fn call_ptr(&mut self, call: &str) -> (r: String)
        ensures
            (final(self)@, r@) == old(self)@.call_ptr(call@),
    {
        let t = self.fresh_label();
        self.e(&cat4("%", &t, " = call ptr @", call));
        cat2("%", &t)
    }

    pub(crate) fn arg_ptr(&mut self, args: &Vec<(String, String)>, i: usize) -> (r: String)
        ensures
            (final(self)@, r@) == old(self)@.arg_ptr(pairs(args@), i as nat),
    {
        if let Some((av, at)) = arg_at(args, i) {
            if same(at, "%yk_string") {
                let p = self.string_to_ptr(av);
                p
            } else {
                owned("null")
            }
        } else {
            owned("null")
        }
    }

    pub(crate) fn bind_var(&mut self, name: &str, ty: &str) -> (r: String)
        ensures
            (final(self)@, r@) == old(self)@.bind_var(name@, ty@),
    {
        let ptr = alloca_of(name);
        self.set_var_type(name, ty);
        self.set_var_alloca(name, &ptr);
        ptr
    }

    pub(crate) fn store_param(&mut self, name: &str, ty: &str, i: usize)
        ensures
            final(self)@ == old(self)@.store_param(name@, ty@, i as nat),
    {
        let ptr = self.bind_var(name, ty);
        self.e(&cat4(&ptr, " = alloca ", ty, ", align 8"));
        self.e(&cat6("store ", ty, " %", &dec_text(i as u128), ", ptr ", &ptr));
    }

    pub(crate) fn load_name(&mut self, name: &str) -> (r: (String, String))
        ensures
            (final(self)@, (r.0@, r.1@)) == old(self)@.load_name(name@),
    {
        if self.has_object(name) {
            let obj_ty = cat2("%object.", name);
            let tmp = self.fresh_label();
            self.e(&cat6("%", &tmp, " = load ", &obj_ty, ", ptr @object.", name));
            (cat2("%", &tmp), obj_ty)
        } else {
            let ty = self.val_ty(name);
            if let Some(ptr) = self.var_slot(name) {
                let val_name = self.value_name(name);
                self.e(&cat5(&val_name, " = load ", &ty, ", ptr ", &ptr));
                (val_name, ty)
            } else {
                (cat2("%", name), ty)
            }
        }
    }

    pub(crate) fn get_or_create_tuple_type(&mut self, elem_types: &Vec<String>) -> (r: String)
        ensures
            (final(self)@, r@) == old(self)@.get_or_create_tuple_type(texts(elem_types@)),
    {
        let sig = join(elem_types, "||");
        if let Some(name) = self.tuple_name(&sig) {
            name
        } else {
            let name = self.next_tuple();
            self.set_tuple_name(&sig, &name);
            let fields = join(elem_types, ", ");
            self.add_type_line(&cat4(&name, " = type { ", &fields, " }"));
            name
        }
    }

    pub(crate) fn define_nullable(&mut self, inner_ty: &str) -> (r: String)
        ensures
            (final(self)@, r@) == old(self)@.define_nullable(inner_ty@),
    {
        let name = nullable_of(inner_ty);
        if !self.has_nullable(&name) {
            self.add_nullable(&name);
            self.add_type_line(&cat4(&name, " = type { ", inner_ty, ", i1 }"));
        }
        name
    }

    pub(crate) fn named_type(&self, name: &str) -> (r: String)
        ensures
            r@ == self@.named_type(name@),
    {
        if self.has_struct(name) {
            cat2("%struct.", name)
        } else if self.has_class(name) {
            cat2("%class.", name)
        } else if self.has_interface(name) {
            cat2("%iface.", name)
        } else if self.has_object(name) {
            cat2("%object.", name)
        } else {
            owned("i64")
        }
    }

    pub(crate) fn generic_type(&self, name: &str) -> (r: String)
        ensures
            r@ == self@.generic_type(name@),
    {
        if self.has_class(name) {
            cat2("%class.", name)
        } else if self.has_struct(name) {
            cat2("%struct.", name)
        } else if same(name, "Result") {
            owned("%yk_result")
        } else {
            owned("i64")
        }
    }

    pub(crate) fn result_payload(&mut self, iv: &str, it: &str) -> (r: String)
        ensures
            (final(self)@, r@) == old(self)@.result_payload(iv@, it@),
    {
        if same(it, "%yk_string") {
            let d = self.fresh_label();
            let l = self.fresh_label();
            self.e(&cat5("%", &d, " = extractvalue %yk_string ", iv, ", 0"));
            self.e(&cat5("%", &l, " = extractvalue %yk_string ", iv, ", 1"));
            let addr = self.fresh_label();
            self.e(&cat5("%", &addr, " = ptrtoint ptr %", &d, " to i64"));
            let p = self.fresh_label();
            self.e(
                &cat7("%", &p, " = call i64 @yk_result_str_new(i64 %", &addr, ", i64 %", &l, ")")
            );
            cat2("%", &p)
        } else {
            let p = self.to_i64(iv, it);
            p
        }
    }

    pub(crate) fn make_result(&mut self, iv: &str, it: &str, flag: &str) -> (r: (String, String))
        ensures
            (final(self)@, (r.0@, r.1@)) == old(self)@.make_result(iv@, it@, flag@),
    {
        let payload = self.result_payload(iv, it);
        let tmp = self.fresh_label();
        self.e(&cat5("%", &tmp, " = insertvalue %yk_result undef, i64 ", &payload, ", 0"));
        let tmp2 = self.fresh_label();
        self.e(&cat7("%", &tmp2, " = insertvalue %yk_result %", &tmp, ", i1 ", flag, ", 1"));
        (cat2("%", &tmp2), owned("%yk_result"))
    }

    pub(crate) fn make_interface(
        &mut self,
        iface_ty: &str,
        iface_name: &str,
        val: &str,
        val_ty: &str,
        class_name: &str,
    ) -> (r: String)
        ensures
            (final(self)@, r@) == old(self)@.make_interface(iface_ty@, iface_name@, val@, val_ty@,
                class_name@),
    {
        let obj_alloca = self.fresh_label();
        self.e(&cat5("%", &obj_alloca, " = alloca ", val_ty, ", align 8"));
        self.e(&cat6("store ", val_ty, " ", val, ", ptr %", &obj_alloca));
        let obj_ptr = self.fresh_label();
        self.e(&cat5("%", &obj_ptr, " = ptrtoint ptr %", &obj_alloca, " to i64"));
        let obj_data_ptr = self.fresh_label();
        self.e(&cat5("%", &obj_data_ptr, " = inttoptr i64 %", &obj_ptr, " to ptr"));
        let vtable_int = self.fresh_label();
        self.e(
            &cat7("%", &vtable_int, " = ptrtoint ptr @iface_vtable.", iface_name, ".", class_name,
                " to i64")
        );
        let vtable_ptr = self.fresh_label();
        self.e(&cat5("%", &vtable_ptr, " = inttoptr i64 %", &vtable_int, " to ptr"));
        let iface_val = self.fresh_label();
        self.e(
            &cat7("%", &iface_val, " = insertvalue ", iface_ty, " undef, ptr %", &obj_data_ptr,
                ", 0")
        );
        let iface_val2 = self.fresh_label();
        self.e(
            &cat9("%", &iface_val2, " = insertvalue ", iface_ty, " %", &iface_val, ", ptr %",
                &vtable_ptr, ", 1")
        );
        cat2("%", &iface_val2)
    }
}

} // verus!
