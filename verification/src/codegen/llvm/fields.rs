//! Fields of structs, tuples, classes, objects and the built-in types.

use vstd::prelude::*;

use crate::codegen::llvm::names::{
    dec_next, dec_next_text, inner_of_nullable, nullable_inner, nullable_name, nullable_of,
    tuple_element, tuple_element_type, tuple_index, tuple_position,
};
use crate::codegen::llvm::state::{Gen, LlvmCodegen};
use crate::scan::{behind, strip_prefix};
use crate::text::{
    cat13, cat2, cat3, cat4, cat5, cat6, cat7, cat8, cat9, dec, dec_text, owned, same, Text,
};

verus! {

impl Gen {
    /// Takes an element out of an aggregate.
    pub open spec fn extract(
        self,
        tmp: Text,
        ty: Text,
        o: Text,
        idx: Text,
        field_ty: Text,
    ) -> (Gen, (Text, Text)) {
        let g = self;
        let g = g.e("%"@ + tmp + " = extractvalue "@ + ty + " "@ + o + ", "@ + idx);
        (g, ("%"@ + tmp, field_ty))
    }

    /// A field of a struct or of a tuple.
    pub open spec fn struct_field_value(
        self,
        tmp: Text,
        o: Text,
        obj_ty: Text,
        struct_name: Text,
        field: Text,
    ) -> (Gen, (Text, Text)) {
        let g = self;
        if let Some(sig) = g.tuple_signature(obj_ty) {
            let idx = tuple_index(field);
            let ft = tuple_element(sig, idx);
            g.extract(tmp, obj_ty, o, dec(idx), ft)
        } else if let Some((idx, ft)) = g.struct_field(struct_name, field) {
            g.extract(tmp, obj_ty, o, dec(idx), ft)
        } else {
            (g, ("%"@ + tmp, "i64"@))
        }
    }

    /// A field of a class; the method table stands in front of the fields.
    pub open spec fn class_field_value(
        self,
        tmp: Text,
        o: Text,
        obj_ty: Text,
        class_name: Text,
        field: Text,
    ) -> (Gen, (Text, Text)) {
        let g = self;
        if let Some((idx, ft)) = g.class_field(class_name, field) {
            g.extract(tmp, obj_ty, o, dec_next(idx), ft)
        } else {
            (g, ("%"@ + tmp, "i64"@))
        }
    }

    /// A field of an object.
    pub open spec fn object_field_value(
        self,
        tmp: Text,
        o: Text,
        obj_ty: Text,
        obj_name: Text,
        field: Text,
    ) -> (Gen, (Text, Text)) {
        let g = self;
        if let Some((idx, ft)) = g.object_field(obj_name, field) {
            g.extract(tmp, obj_ty, o, dec(idx), ft)
        } else {
            (g, ("%"@ + tmp, "i64"@))
        }
    }

    /// A part of a complex number, which the runtime computes.
    pub open spec fn complex_field_value(
        self,
        tmp: Text,
        o: Text,
        field: Text,
    ) -> (Gen, (Text, Text)) {
        let g = self;
        let (g, ca) = g.complex_to_slot(o);
        if field == "conj"@ {
            let (g, r) = g.fresh_label();
            let g = g.e("%"@ + r + " = alloca %yk_complex, align 8"@);
            let g = g.e("call void @yk_complex_conj(ptr %"@ + r + ", ptr %"@ + ca + ")"@);
            let (g, loaded) = g.fresh_label();
            let g = g.e("%"@ + loaded + " = load %yk_complex, ptr %"@ + r);
            (g, ("%"@ + loaded, "%yk_complex"@))
        } else {
            let (g, func) = if field == "img"@ {
                let func = "yk_complex_imag"@;
                (g, func)
            } else if field == "mod"@ || field == "norm"@ {
                let func = "yk_complex_mod"@;
                (g, func)
            } else if field == "arg"@ {
                let func = "yk_complex_arg"@;
                (g, func)
            } else {
                let func = "yk_complex_real"@;
                (g, func)
            };
            let g = g.e("%"@ + tmp + " = call double @"@ + func + "(ptr %"@ + ca + ")"@);
            (g, ("%"@ + tmp, "double"@))
        }
    }

    /// The status of an HTTP client as an integer.
    pub open spec fn http_status(self, o: Text) -> (Gen, (Text, Text)) {
        let g = self;
        let (g, tmp) = g.fresh_label();
        let g = g.e("%"@ + tmp + " = call i32 @yk_http_status(i64 "@ + o + ")"@);
        let (g, extended) = g.fresh_label();
        let g = g.e("%"@ + extended + " = sext i32 %"@ + tmp + " to i64"@);
        (g, ("%"@ + extended, "i64"@))
    }

    /// A field of a request: an address and a length at fixed offsets.
    pub open spec fn request_field(
        self,
        o: Text,
        ptr_offset: Text,
        len_offset: Text,
    ) -> (Gen, (Text, Text)) {
        let g = self;
        let (g, req_ptr) = g.fresh_label();
        let g = g.e("%"@ + req_ptr + " = inttoptr i64 "@ + o + " to ptr"@);
        let (g, ptr_gep) = g.fresh_label();
        let g = g.e(
            "%"@ + ptr_gep + " = getelementptr i8, ptr %"@ + req_ptr + ", i32 "@ + ptr_offset
        );
        let (g, ptr_v) = g.fresh_label();
        let g = g.e("%"@ + ptr_v + " = load ptr, ptr %"@ + ptr_gep);
        let (g, len_gep) = g.fresh_label();
        let g = g.e(
            "%"@ + len_gep + " = getelementptr i8, ptr %"@ + req_ptr + ", i32 "@ + len_offset
        );
        let (g, len_v) = g.fresh_label();
        let g = g.e("%"@ + len_v + " = load i64, ptr %"@ + len_gep);
        let (g, sv1) = g.fresh_label();
        let g = g.e("%"@ + sv1 + " = insertvalue %yk_string undef, ptr %"@ + ptr_v + ", 0"@);
        let (g, sv2) = g.fresh_label();
        let g = g.e(
            "%"@ + sv2 + " = insertvalue %yk_string %"@ + sv1 + ", i64 %"@ + len_v + ", 1"@
        );
        (g, ("%"@ + sv2, "%yk_string"@))
    }

    /// The method name of an HTTP client.
    pub open spec fn http_method_name(self) -> (Gen, (Text, Text)) {
        let g = self;
        let (g, text) = g.make_string_slot("GET"@);
        let (g, ptr) = g.string_to_ptr(text);
        g.load_string(ptr)
    }

    /// A field of a value whose type has no fields of its own: an HTTP client, a request, a list.
    pub open spec fn other_field_value(
        self,
        tmp: Text,
        o: Text,
        obj_ty: Text,
        field: Text,
        is_http: bool,
    ) -> (Gen, (Text, Text)) {
        let g = self;
        if obj_ty == "i64"@ && field == "status"@ && is_http {
            g.http_status(o)
        } else if obj_ty == "i64"@ && field == "body"@ && is_http {
            g.call_string("yk_http_body(i64 "@ + o + ")"@)
        } else if obj_ty == "i64"@ && field == "method"@ && is_http {
            g.http_method_name()
        } else if obj_ty == "i64"@ && field == "method"@ {
            g.request_field(o, "0"@, "8"@)
        } else if obj_ty == "i64"@ && field == "path"@ {
            g.request_field(o, "16"@, "24"@)
        } else if obj_ty == "i64"@ && field == "body"@ {
            g.request_field(o, "32"@, "40"@)
        } else if obj_ty == "ptr"@ && field == "length"@ {
            g.call_int("yk_list_len(ptr "@ + o + ")"@)
        } else {
            let g = g.e("%"@ + tmp + " = add i64 0, 0"@);
            (g, ("%"@ + tmp, "i64"@))
        }
    }

    /// A field of a value, `is_http` telling whether the value is a variable that holds an HTTP client.
    pub open spec fn emit_field(
        self,
        o: Text,
        obj_ty: Text,
        field: Text,
        is_http: bool,
    ) -> (Gen, (Text, Text)) {
        let g = self;
        let (g, tmp) = g.fresh_label();
        if obj_ty == "%yk_string"@ && field == "data"@ {
            g.extract(tmp, obj_ty, o, "0"@, "ptr"@)
        } else if obj_ty == "%yk_string"@ {
            g.extract(tmp, obj_ty, o, "1"@, "i64"@)
        } else if let Some(struct_name) = behind(obj_ty, "%struct."@) {
            g.struct_field_value(tmp, o, obj_ty, struct_name, field)
        } else if let Some(class_name) = behind(obj_ty, "%class."@) {
            g.class_field_value(tmp, o, obj_ty, class_name, field)
        } else if let Some(obj_name) = behind(obj_ty, "%object."@) {
            g.object_field_value(tmp, o, obj_ty, obj_name, field)
        } else if obj_ty == "%yk_complex"@ {
            g.complex_field_value(tmp, o, field)
        } else {
            g.other_field_value(tmp, o, obj_ty, field, is_http)
        }
    }

    /// A field of a struct value, or the value itself where there is no such field.
    pub open spec fn struct_access(
        self,
        name: Text,
        llvm_ty: Text,
        val: Text,
        ty: Text,
        field: Text,
    ) -> (Gen, (Text, Text)) {
        let g = self;
        if name == ""@ {
            (g, (val, ty))
        } else if let Some((idx, fty)) = g.struct_field(name, field) {
            let (g, ext) = g.fresh_label();
            let g = g.e("%"@ + ext + " = extractvalue "@ + llvm_ty + " "@ + val + ", "@ + dec(idx));
            (g, ("%"@ + ext, fty))
        } else {
            (g, (val, ty))
        }
    }

    /// A field of a value whose type may be written as part of a name.
    pub open spec fn compile_field_access(
        self,
        val: Text,
        ty: Text,
        field: Text,
    ) -> (Gen, (Text, Text)) {
        let g = self;
        if let Some(n) = behind(ty, "%struct."@) {
            g.struct_access(n, ty, val, ty, field)
        } else if let Some(n) = behind(ty, "_struct_"@) {
            g.struct_access(n, "%struct."@ + n, val, ty, field)
        } else if let Some(n) = behind(ty, "%class."@) {
            g.struct_access(n, ty, val, ty, field)
        } else if let Some(n) = behind(ty, "_class_"@) {
            g.struct_access(n, "%class."@ + n, val, ty, field)
        } else {
            (g, (val, ty))
        }
    }

    /// The type of a field of a struct, or an integer where there is no such field.
    pub open spec fn struct_field_type(self, name: Text, field: Text) -> Text {
        let g = self;
        if name == ""@ {
            "i64"@
        } else if let Some((idx, fty)) = g.struct_field(name, field) {
            fty
        } else {
            "i64"@
        }
    }

    /// The type of a field of a type that may be written as part of a name.
    pub open spec fn guess_field_type(self, ty: Text, field: Text) -> Text {
        let g = self;
        if let Some(n) = behind(ty, "%struct."@) {
            g.struct_field_type(n, field)
        } else if let Some(n) = behind(ty, "_struct_"@) {
            g.struct_field_type(n, field)
        } else if let Some(n) = behind(ty, "%class."@) {
            g.struct_field_type(n, field)
        } else if let Some(n) = behind(ty, "_class_"@) {
            g.struct_field_type(n, field)
        } else {
            "i64"@
        }
    }

    /// A field of a value that can be null: null where the value is.
    pub open spec fn emit_safe_call(
        self,
        obj_val: Text,
        obj_ty: Text,
        field: Text,
    ) -> (Gen, (Text, Text)) {
        let g = self;
        let (g, null_flag) = g.fresh_label();
        let g = g.e("%"@ + null_flag + " = extractvalue "@ + obj_ty + " "@ + obj_val + ", 1"@);
        let (g, is_valid) = g.fresh_label();
        let g = g.e("%"@ + is_valid + " = icmp eq i1 %"@ + null_flag + ", 1"@);
        let (g, null_bb) = g.fresh_label();
        let (g, valid_bb) = g.fresh_label();
        let (g, merge_bb) = g.fresh_label();
        let g = g.e("br i1 %"@ + is_valid + ", label %"@ + valid_bb + ", label %"@ + null_bb);
        let g = g.e(null_bb + ":"@);
        let (g, null_result) = g.fresh_label();
        let inner_obj_ty = nullable_inner(obj_ty);
        let field_ty = g.guess_field_type(inner_obj_ty, field);
        let nullable_field_ty = nullable_name(field_ty);
        let g = g.e(
            "%"@ + null_result + " = insertvalue "@ + nullable_field_ty + " undef, i1 0, 1"@
        );
        let g = g.e("br label %"@ + merge_bb);
        let g = g.e(valid_bb + ":"@);
        let (g, inner) = g.fresh_label();
        let g = g.e("%"@ + inner + " = extractvalue "@ + obj_ty + " "@ + obj_val + ", 0"@);
        let (g, (field_val, field_val_ty)) = g.compile_field_access(
            "%"@ + inner, inner_obj_ty, field
        );
        let (g, valid_result) = g.fresh_label();
        let g = g.e(
            "%"@ + valid_result + " = insertvalue "@ + nullable_field_ty + " undef, "@ + field_ty
                + " "@ + field_val + ", 0"@
        );
        let (g, valid_result2) = g.fresh_label();
        let g = g.e(
            "%"@ + valid_result2 + " = insertvalue "@ + nullable_field_ty + " %"@ + valid_result
                + ", i1 1, 1"@
        );
        let g = g.e("br label %"@ + merge_bb);
        let g = g.e(merge_bb + ":"@);
        let (g, phi) = g.fresh_label();
        let g = g.e(
            "%"@ + phi + " = phi "@ + nullable_field_ty + " [ %"@ + null_result + ", %"@ + null_bb
                + " ], [ %"@ + valid_result2 + ", %"@ + valid_bb + " ]"@
        );
        (g, ("%"@ + phi, nullable_field_ty))
    }
}

impl<'a> LlvmCodegen<'a> {
    pub(crate) fn extract(
        &mut self,
        tmp: &str,
        ty: &str,
        o: &str,
        idx: &str,
        field_ty: &str,
    ) -> (r: (String, String))
        ensures
            (final(self)@, (r.0@, r.1@)) == old(self)@.extract(tmp@, ty@, o@, idx@, field_ty@),
    {
        self.e(&cat8("%", tmp, " = extractvalue ", ty, " ", o, ", ", idx));
        (cat2("%", tmp), owned(field_ty))
    }

    pub(crate) fn struct_field_value(
        &mut self,
        tmp: &str,
        o: &str,
        obj_ty: &str,
        struct_name: &str,
        field: &str,
    ) -> (r: (String, String))
        ensures
            (final(self)@, (r.0@, r.1@)) == old(self)@.struct_field_value(tmp@, o@, obj_ty@,
                struct_name@, field@),
    {
        if let Some(sig) = self.tuple_signature(obj_ty) {
            let idx: usize = tuple_position(field);
            let ft = tuple_element_type(&sig, idx);
            self.extract(tmp, obj_ty, o, &dec_text(idx as u128), &ft)
        } else if let Some((idx, ft)) = self.struct_field(struct_name, field) {
            self.extract(tmp, obj_ty, o, &dec_text(idx as u128), &ft)
        } else {
            (cat2("%", tmp), owned("i64"))
        }
    }

    pub(crate) fn class_field_value(
        &mut self,
        tmp: &str,
        o: &str,
        obj_ty: &str,
        class_name: &str,
        field: &str,
    ) -> (r: (String, String))
        ensures
            (final(self)@, (r.0@, r.1@)) == old(self)@.class_field_value(tmp@, o@, obj_ty@,
                class_name@, field@),
    {
        if let Some((idx, ft)) = self.class_field(class_name, field) {
            self.extract(tmp, obj_ty, o, &dec_next_text(idx), &ft)
        } else {
            (cat2("%", tmp), owned("i64"))
        }
    }

    pub(crate) fn object_field_value(
        &mut self,
        tmp: &str,
        o: &str,
        obj_ty: &str,
        obj_name: &str,
        field: &str,
    ) -> (r: (String, String))
        ensures
            (final(self)@, (r.0@, r.1@)) == old(self)@.object_field_value(tmp@, o@, obj_ty@,
                obj_name@, field@),
    {
        if let Some((idx, ft)) = self.object_field(obj_name, field) {
            self.extract(tmp, obj_ty, o, &dec_text(idx as u128), &ft)
        } else {
            (cat2("%", tmp), owned("i64"))
        }
    }

    pub(crate) fn complex_field_value(
        &mut self,
        tmp: &str,
        o: &str,
        field: &str,
    ) -> (r: (String, String))
        ensures
            (final(self)@, (r.0@, r.1@)) == old(self)@.complex_field_value(tmp@, o@, field@),
    {
        let ca = self.complex_to_slot(o);
        if same(field, "conj") {
            let r = self.fresh_label();
            self.e(&cat3("%", &r, " = alloca %yk_complex, align 8"));
            self.e(&cat5("call void @yk_complex_conj(ptr %", &r, ", ptr %", &ca, ")"));
            let loaded = self.fresh_label();
            self.e(&cat4("%", &loaded, " = load %yk_complex, ptr %", &r));
            (cat2("%", &loaded), owned("%yk_complex"))
        } else {
            let func = if same(field, "img") {
                let func = owned("yk_complex_imag");
                func
            } else if same(field, "mod") || same(field, "norm") {
                let func = owned("yk_complex_mod");
                func
            } else if same(field, "arg") {
                let func = owned("yk_complex_arg");
                func
            } else {
                let func = owned("yk_complex_real");
                func
            };
            self.e(&cat7("%", tmp, " = call double @", &func, "(ptr %", &ca, ")"));
            (cat2("%", tmp), owned("double"))
        }
    }

    pub(crate) fn http_status(&mut self, o: &str) -> (r: (String, String))
        ensures
            (final(self)@, (r.0@, r.1@)) == old(self)@.http_status(o@),
    {
        let tmp = self.fresh_label();
        self.e(&cat5("%", &tmp, " = call i32 @yk_http_status(i64 ", o, ")"));
        let extended = self.fresh_label();
        self.e(&cat5("%", &extended, " = sext i32 %", &tmp, " to i64"));
        (cat2("%", &extended), owned("i64"))
    }

    pub(crate) fn request_field(
        &mut self,
        o: &str,
        ptr_offset: &str,
        len_offset: &str,
    ) -> (r: (String, String))
        ensures
            (final(self)@, (r.0@, r.1@)) == old(self)@.request_field(o@, ptr_offset@, len_offset@),
    {
        let req_ptr = self.fresh_label();
        self.e(&cat5("%", &req_ptr, " = inttoptr i64 ", o, " to ptr"));
        let ptr_gep = self.fresh_label();
        self.e(&cat6("%", &ptr_gep, " = getelementptr i8, ptr %", &req_ptr, ", i32 ", ptr_offset));
        let ptr_v = self.fresh_label();
        self.e(&cat4("%", &ptr_v, " = load ptr, ptr %", &ptr_gep));
        let len_gep = self.fresh_label();
        self.e(&cat6("%", &len_gep, " = getelementptr i8, ptr %", &req_ptr, ", i32 ", len_offset));
        let len_v = self.fresh_label();
        self.e(&cat4("%", &len_v, " = load i64, ptr %", &len_gep));
        let sv1 = self.fresh_label();
        self.e(&cat5("%", &sv1, " = insertvalue %yk_string undef, ptr %", &ptr_v, ", 0"));
        let sv2 = self.fresh_label();
        self.e(&cat7("%", &sv2, " = insertvalue %yk_string %", &sv1, ", i64 %", &len_v, ", 1"));
        (cat2("%", &sv2), owned("%yk_string"))
    }

    pub(crate) fn http_method_name(&mut self) -> (r: (String, String))
        ensures
            (final(self)@, (r.0@, r.1@)) == old(self)@.http_method_name(),
    {
        let text = self.make_string_slot("GET");
        let ptr = self.string_to_ptr(&text);
        self.load_string(&ptr)
    }

    pub(crate) fn other_field_value(
        &mut self,
        tmp: &str,
        o: &str,
        obj_ty: &str,
        field: &str,
        is_http: bool,
    ) -> (r: (String, String))
        ensures
            (final(self)@, (r.0@, r.1@)) == old(self)@.other_field_value(tmp@, o@, obj_ty@, field@,
                is_http),
    {
        if same(obj_ty, "i64") && same(field, "status") && is_http {
            self.http_status(o)
        } else if same(obj_ty, "i64") && same(field, "body") && is_http {
            self.call_string(&cat3("yk_http_body(i64 ", o, ")"))
        } else if same(obj_ty, "i64") && same(field, "method") && is_http {
            self.http_method_name()
        } else if same(obj_ty, "i64") && same(field, "method") {
            self.request_field(o, "0", "8")
        } else if same(obj_ty, "i64") && same(field, "path") {
            self.request_field(o, "16", "24")
        } else if same(obj_ty, "i64") && same(field, "body") {
            self.request_field(o, "32", "40")
        } else if same(obj_ty, "ptr") && same(field, "length") {
            self.call_int(&cat3("yk_list_len(ptr ", o, ")"))
        } else {
            self.e(&cat3("%", tmp, " = add i64 0, 0"));
            (cat2("%", tmp), owned("i64"))
        }
    }

    pub(crate) fn emit_field(
        &mut self,
        o: &str,
        obj_ty: &str,
        field: &str,
        is_http: bool,
    ) -> (r: (String, String))
        ensures
            (final(self)@, (r.0@, r.1@)) == old(self)@.emit_field(o@, obj_ty@, field@, is_http),
    {
        let tmp = self.fresh_label();
        if same(obj_ty, "%yk_string") && same(field, "data") {
            self.extract(&tmp, obj_ty, o, "0", "ptr")
        } else if same(obj_ty, "%yk_string") {
            self.extract(&tmp, obj_ty, o, "1", "i64")
        } else if let Some(struct_name) = strip_prefix(obj_ty, "%struct.") {
            self.struct_field_value(&tmp, o, obj_ty, &struct_name, field)
        } else if let Some(class_name) = strip_prefix(obj_ty, "%class.") {
            self.class_field_value(&tmp, o, obj_ty, &class_name, field)
        } else if let Some(obj_name) = strip_prefix(obj_ty, "%object.") {
            self.object_field_value(&tmp, o, obj_ty, &obj_name, field)
        } else if same(obj_ty, "%yk_complex") {
            self.complex_field_value(&tmp, o, field)
        } else {
            self.other_field_value(&tmp, o, obj_ty, field, is_http)
        }
    }

    pub(crate) fn struct_access(
        &mut self,
        name: &str,
        llvm_ty: &str,
        val: &str,
        ty: &str,
        field: &str,
    ) -> (r: (String, String))
        ensures
            (final(self)@, (r.0@, r.1@)) == old(self)@.struct_access(name@, llvm_ty@, val@, ty@,
                field@),
    {
        if same(name, "") {
            (owned(val), owned(ty))
        } else if let Some((idx, fty)) = self.struct_field(name, field) {
            let ext = self.fresh_label();
            self.e(
                &cat8("%", &ext, " = extractvalue ", llvm_ty, " ", val, ", ",
                    &dec_text(idx as u128))
            );
            (cat2("%", &ext), fty)
        } else {
            (owned(val), owned(ty))
        }
    }

    pub(crate) fn compile_field_access(
        &mut self,
        val: &str,
        ty: &str,
        field: &str,
    ) -> (r: (String, String))
        ensures
            (final(self)@, (r.0@, r.1@)) == old(self)@.compile_field_access(val@, ty@, field@),
    {
        if let Some(n) = strip_prefix(ty, "%struct.") {
            self.struct_access(&n, ty, val, ty, field)
        } else if let Some(n) = strip_prefix(ty, "_struct_") {
            self.struct_access(&n, &cat2("%struct.", &n), val, ty, field)
        } else if let Some(n) = strip_prefix(ty, "%class.") {
            self.struct_access(&n, ty, val, ty, field)
        } else if let Some(n) = strip_prefix(ty, "_class_") {
            self.struct_access(&n, &cat2("%class.", &n), val, ty, field)
        } else {
            (owned(val), owned(ty))
        }
    }

    pub(crate) fn struct_field_type(&self, name: &str, field: &str) -> (r: String)
        ensures
            r@ == self@.struct_field_type(name@, field@),
    {
        if same(name, "") {
            owned("i64")
        } else if let Some((idx, fty)) = self.struct_field(name, field) {
            fty
        } else {
            owned("i64")
        }
    }

    pub(crate) fn guess_field_type(&self, ty: &str, field: &str) -> (r: String)
        ensures
            r@ == self@.guess_field_type(ty@, field@),
    {
        if let Some(n) = strip_prefix(ty, "%struct.") {
            self.struct_field_type(&n, field)
        } else if let Some(n) = strip_prefix(ty, "_struct_") {
            self.struct_field_type(&n, field)
        } else if let Some(n) = strip_prefix(ty, "%class.") {
            self.struct_field_type(&n, field)
        } else if let Some(n) = strip_prefix(ty, "_class_") {
            self.struct_field_type(&n, field)
        } else {
            owned("i64")
        }
    }

    #[verifier::rlimit(30)]
    pub(crate) fn emit_safe_call(
        &mut self,
        obj_val: &str,
        obj_ty: &str,
        field: &str,
    ) -> (r: (String, String))
        ensures
            (final(self)@, (r.0@, r.1@)) == old(self)@.emit_safe_call(obj_val@, obj_ty@, field@),
    {
        let null_flag = self.fresh_label();
        self.e(&cat7("%", &null_flag, " = extractvalue ", obj_ty, " ", obj_val, ", 1"));
        let is_valid = self.fresh_label();
        self.e(&cat5("%", &is_valid, " = icmp eq i1 %", &null_flag, ", 1"));
        let null_bb = self.fresh_label();
        let valid_bb = self.fresh_label();
        let merge_bb = self.fresh_label();
        self.e(&cat6("br i1 %", &is_valid, ", label %", &valid_bb, ", label %", &null_bb));
        self.e(&cat2(&null_bb, ":"));
        let null_result = self.fresh_label();
        let inner_obj_ty = inner_of_nullable(obj_ty);
        let field_ty = self.guess_field_type(&inner_obj_ty, field);
        let nullable_field_ty = nullable_of(&field_ty);
        self.e(&cat5("%", &null_result, " = insertvalue ", &nullable_field_ty, " undef, i1 0, 1"));
        self.e(&cat2("br label %", &merge_bb));
        self.e(&cat2(&valid_bb, ":"));
        let inner = self.fresh_label();
        self.e(&cat7("%", &inner, " = extractvalue ", obj_ty, " ", obj_val, ", 0"));
        let (field_val, field_val_ty) = self.compile_field_access(
            &cat2("%", &inner), &inner_obj_ty, field
        );
        let valid_result = self.fresh_label();
        self.e(
            &cat9("%", &valid_result, " = insertvalue ", &nullable_field_ty, " undef, ", &field_ty,
                " ", &field_val, ", 0")
        );
        let valid_result2 = self.fresh_label();
        self.e(
            &cat7("%", &valid_result2, " = insertvalue ", &nullable_field_ty, " %", &valid_result,
                ", i1 1, 1")
        );
        self.e(&cat2("br label %", &merge_bb));
        self.e(&cat2(&merge_bb, ":"));
        let phi = self.fresh_label();
        self.e(
            &cat13("%", &phi, " = phi ", &nullable_field_ty, " [ %", &null_result, ", %", &null_bb,
                " ], [ %", &valid_result2, ", %", &valid_bb, " ]")
        );
        (cat2("%", &phi), nullable_field_ty)
    }
}

} // verus!
