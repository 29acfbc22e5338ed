//! Printing values, and turning them into text.

use vstd::prelude::*;

use crate::codegen::llvm::names::{is_nullable_ty, nullable};
use crate::codegen::llvm::state::{Gen, LlvmCodegen};
use crate::text::{cat11, cat2, cat3, cat4, cat5, cat6, cat7, int_dec, int_text, same, Text};

verus! {

impl Gen {
    /// Splits a nullable value into its flag and what it holds, and branches on the flag.
    pub open spec fn print_nullable(self, av: Text, at: Text) -> Gen {
        let g = self;
        let (g, flag) = g.fresh_label();
        let (g, inner) = g.fresh_label();
        let g = g.e("%"@ + flag + " = extractvalue "@ + at + " "@ + av + ", 1"@);
        let g = g.e("%"@ + inner + " = extractvalue "@ + at + " "@ + av + ", 0"@);
        let (g, isnull_bb) = g.fresh_label();
        let (g, nonnull_bb) = g.fresh_label();
        let (g, merge_bb) = g.fresh_label();
        let g = g.e("br i1 %"@ + flag + ", label %"@ + nonnull_bb + ", label %"@ + isnull_bb);
        let g = g.e(isnull_bb + ":"@);
        let (g, null_str) = g.make_string_slot("(null)"@);
        let (g, null_ptr) = g.string_to_ptr(null_str);
        let g = g.e("call void @yk_print_str_ptr(ptr "@ + null_ptr + ")"@);
        let g = g.e("br label %"@ + merge_bb);
        let g = g.e(nonnull_bb + ":"@);
        let g = g.e("call void @yk_print_int(i64 %"@ + inner + ")"@);
        let g = g.e("br label %"@ + merge_bb);
        let g = g.e(merge_bb + ":"@);
        g
    }

    /// Prints what a variant carries as a string.
    pub open spec fn print_payload_string(self, payload: Text) -> Gen {
        let g = self;
        let (g, str_ptr) = g.fresh_label();
        let g = g.e("%"@ + str_ptr + " = inttoptr i64 %"@ + payload + " to ptr"@);
        let g = g.e("call void @yk_print_str_ptr(ptr %"@ + str_ptr + ")"@);
        g
    }

    /// Prints a variant: by its tag where the union has integers and strings.
    pub open spec fn print_variant(self, av: Text) -> Gen {
        let g = self;
        let (g, tag) = g.fresh_label();
        let (g, payload) = g.fresh_label();
        let g = g.e("%"@ + tag + " = extractvalue %yk_variant "@ + av + ", 0"@);
        let g = g.e("%"@ + payload + " = extractvalue %yk_variant "@ + av + ", 1"@);
        let int_tag = g.variant_name_tag("int(0)"@);
        let str_tag = g.variant_name_tag("str"@);
        let g = if int_tag >= 0 && str_tag >= 0 {
            let (g, is_int) = g.fresh_label();
            let g = g.e(
                "%"@ + is_int + " = icmp eq i64 %"@ + tag + ", "@ + int_dec(int_tag as int)
            );
            let (g, int_bb) = g.fresh_label();
            let (g, str_bb) = g.fresh_label();
            let (g, done_bb) = g.fresh_label();
            let g = g.e("br i1 %"@ + is_int + ", label %"@ + int_bb + ", label %"@ + str_bb);
            let g = g.e(int_bb + ":"@);
            let g = g.e("call void @yk_print_int(i64 %"@ + payload + ")"@);
            let g = g.e("br label %"@ + done_bb);
            let g = g.e(str_bb + ":"@);
            let g = g.print_payload_string(payload);
            let g = g.e("br label %"@ + done_bb);
            let g = g.e(done_bb + ":"@);
            g
        } else if int_tag >= 0 {
            let g = g.e("call void @yk_print_int(i64 %"@ + payload + ")"@);
            g
        } else if str_tag >= 0 {
            let g = g.print_payload_string(payload);
            g
        } else {
            let g = g.e("call void @yk_print_int(i64 %"@ + payload + ")"@);
            g
        };
        g
    }

    /// Prints a value by its type.
    pub open spec fn print_value(self, av: Text, at: Text) -> Gen {
        let g = self;
        let g = if nullable(at) {
            let g = g.print_nullable(av, at);
            g
        } else if at == "i64"@ {
            let g = g.e("call void @yk_print_int(i64 "@ + av + ")"@);
            g
        } else if at == "double"@ {
            let g = g.e("call void @yk_print_real(double "@ + av + ")"@);
            g
        } else if at == "i1"@ {
            let g = g.e("call void @yk_print_bool(i1 "@ + av + ")"@);
            g
        } else if at == "%yk_string"@ {
            let (g, p) = g.string_to_ptr(av);
            let g = g.e("call void @yk_print_str_ptr(ptr "@ + p + ")"@);
            g
        } else if at == "%yk_complex"@ {
            let g = g.e("call void @yk_print_complex(ptr "@ + av + ")"@);
            g
        } else if at == "%yk_result"@ {
            let (g, payload) = g.fresh_label();
            let (g, flag) = g.fresh_label();
            let g = g.e("%"@ + payload + " = extractvalue %yk_result "@ + av + ", 0"@);
            let g = g.e("%"@ + flag + " = extractvalue %yk_result "@ + av + ", 1"@);
            let g = g.e(
                "call void @yk_print_result_val(i64 %"@ + payload + ", i1 %"@ + flag + ")"@
            );
            g
        } else if at == "%yk_variant"@ {
            let g = g.print_variant(av);
            g
        } else if at == "ptr"@ {
            let g = g.e("call void @yk_list_print(ptr "@ + av + ")"@);
            g
        } else {
            let g = g.e("call void @yk_print_int(i64 "@ + av + ")"@);
            g
        };
        g
    }

    /// The text of a nullable value; the result is the bare label.
    pub open spec fn nullable_text(self, av: Text, at: Text) -> (Gen, Text) {
        let g = self;
        let (g, flag) = g.fresh_label();
        let (g, inner) = g.fresh_label();
        let g = g.e("%"@ + flag + " = extractvalue "@ + at + " "@ + av + ", 1"@);
        let g = g.e("%"@ + inner + " = extractvalue "@ + at + " "@ + av + ", 0"@);
        let (g, isnull_bb) = g.fresh_label();
        let (g, nonnull_bb) = g.fresh_label();
        let (g, merge_bb) = g.fresh_label();
        let g = g.e("br i1 %"@ + flag + ", label %"@ + nonnull_bb + ", label %"@ + isnull_bb);
        let g = g.e(isnull_bb + ":"@);
        let (g, null_str) = g.make_string_slot("(null)"@);
        let (g, null_alloca) = g.fresh_label();
        let g = g.e("%"@ + null_alloca + " = alloca %yk_string, align 8"@);
        let g = g.e("store %yk_string "@ + null_str + ", ptr %"@ + null_alloca);
        let g = g.e("br label %"@ + merge_bb);
        let g = g.e(nonnull_bb + ":"@);
        let (g, t) = g.fresh_label();
        let g = g.e("%"@ + t + " = call ptr @yk_string_from_int(i64 %"@ + inner + ")"@);
        let g = g.e("br label %"@ + merge_bb);
        let g = g.e(merge_bb + ":"@);
        let (g, phi) = g.fresh_label();
        let g = g.e(
            "%"@ + phi + " = phi ptr [ %"@ + null_alloca + ", %"@ + isnull_bb + " ], [ %"@ + t
                + ", %"@ + nonnull_bb + " ]"@
        );
        (g, phi)
    }

    /// The text of a variant: by its tag where the union has integers and strings.
    pub open spec fn variant_text(self, av: Text) -> (Gen, Text) {
        let g = self;
        let (g, tag) = g.fresh_label();
        let (g, payload) = g.fresh_label();
        let g = g.e("%"@ + tag + " = extractvalue %yk_variant "@ + av + ", 0"@);
        let g = g.e("%"@ + payload + " = extractvalue %yk_variant "@ + av + ", 1"@);
        let int_tag = g.variant_name_tag("int(0)"@);
        let str_tag = g.variant_name_tag("str"@);
        if int_tag >= 0 && str_tag >= 0 {
            let (g, is_int) = g.fresh_label();
            let g = g.e(
                "%"@ + is_int + " = icmp eq i64 %"@ + tag + ", "@ + int_dec(int_tag as int)
            );
            let (g, int_bb) = g.fresh_label();
            let (g, str_bb) = g.fresh_label();
            let (g, done_bb) = g.fresh_label();
            let (g, result) = g.fresh_label();
            let g = g.e("br i1 %"@ + is_int + ", label %"@ + int_bb + ", label %"@ + str_bb);
            let g = g.e(int_bb + ":"@);
            let (g, t1) = g.fresh_label();
            let g = g.e("%"@ + t1 + " = call ptr @yk_string_from_int(i64 %"@ + payload + ")"@);
            let g = g.e("br label %"@ + done_bb);
            let g = g.e(str_bb + ":"@);
            let (g, str_ptr) = g.fresh_label();
            let g = g.e("%"@ + str_ptr + " = inttoptr i64 %"@ + payload + " to ptr"@);
            let g = g.e("br label %"@ + done_bb);
            let g = g.e(done_bb + ":"@);
            let g = g.e(
                "%"@ + result + " = phi ptr [ %"@ + t1 + ", %"@ + int_bb + " ], [ %"@ + str_ptr
                    + ", %"@ + str_bb + " ]"@
            );
            (g, "%"@ + result)
        } else {
            let (g, t) = g.fresh_label();
            let g = g.e("%"@ + t + " = call ptr @yk_string_from_int(i64 %"@ + payload + ")"@);
            (g, "%"@ + t)
        }
    }

    /// The text of a value that is neither nullable nor a variant.
    pub open spec fn plain_text(self, av: Text, at: Text) -> (Gen, Text) {
        let g = self;
        if at == "i64"@ {
            let (g, r) = g.call_ptr("yk_string_from_int(i64 "@ + av + ")"@);
            (g, r)
        } else if at == "double"@ {
            let (g, r) = g.call_ptr("yk_string_from_real(double "@ + av + ")"@);
            (g, r)
        } else if at == "i1"@ {
            let (g, r) = g.call_ptr("yk_string_from_bool(i1 "@ + av + ")"@);
            (g, r)
        } else if at == "%yk_complex"@ {
            let (g, ca) = g.complex_to_slot(av);
            let (g, r) = g.call_ptr("yk_string_from_complex(ptr %"@ + ca + ")"@);
            (g, r)
        } else if at == "%yk_string"@ {
            let (g, r) = g.string_to_ptr(av);
            (g, r)
        } else if at == "ptr"@ {
            let (g, r) = g.call_ptr("yk_list_to_string(ptr "@ + av + ")"@);
            (g, r)
        } else {
            let (g, r) = g.call_ptr("yk_string_from_int(i64 "@ + av + ")"@);
            (g, r)
        }
    }

    /// The text of a value, as a string.
    pub open spec fn value_text(self, av: Text, at: Text) -> (Gen, (Text, Text)) {
        let g = self;
        let (g, ptr) = if nullable(at) {
            let (g, ptr) = g.nullable_text(av, at);
            (g, ptr)
        } else if at == "%yk_variant"@ {
            let (g, ptr) = g.variant_text(av);
            (g, ptr)
        } else {
            let (g, ptr) = g.plain_text(av, at);
            (g, ptr)
        };
        g.load_string(ptr)
    }
}

impl<'a> LlvmCodegen<'a> {
    pub(crate) fn print_nullable(&mut self, av: &str, at: &str)
        ensures
            final(self)@ == old(self)@.print_nullable(av@, at@),
    {
        let flag = self.fresh_label();
        let inner = self.fresh_label();
        self.e(&cat7("%", &flag, " = extractvalue ", at, " ", av, ", 1"));
        self.e(&cat7("%", &inner, " = extractvalue ", at, " ", av, ", 0"));
        let isnull_bb = self.fresh_label();
        let nonnull_bb = self.fresh_label();
        let merge_bb = self.fresh_label();
        self.e(&cat6("br i1 %", &flag, ", label %", &nonnull_bb, ", label %", &isnull_bb));
        self.e(&cat2(&isnull_bb, ":"));
        let null_str = self.make_string_slot("(null)");
        let null_ptr = self.string_to_ptr(&null_str);
        self.e(&cat3("call void @yk_print_str_ptr(ptr ", &null_ptr, ")"));
        self.e(&cat2("br label %", &merge_bb));
        self.e(&cat2(&nonnull_bb, ":"));
        self.e(&cat3("call void @yk_print_int(i64 %", &inner, ")"));
        self.e(&cat2("br label %", &merge_bb));
        self.e(&cat2(&merge_bb, ":"));
    }

    pub(crate) fn print_payload_string(&mut self, payload: &str)
        ensures
            final(self)@ == old(self)@.print_payload_string(payload@),
    {
        let str_ptr = self.fresh_label();
        self.e(&cat5("%", &str_ptr, " = inttoptr i64 %", payload, " to ptr"));
        self.e(&cat3("call void @yk_print_str_ptr(ptr %", &str_ptr, ")"));
    }

    pub(crate) fn print_variant(&mut self, av: &str)
        ensures
            final(self)@ == old(self)@.print_variant(av@),
    {
        let tag = self.fresh_label();
        let payload = self.fresh_label();
        self.e(&cat5("%", &tag, " = extractvalue %yk_variant ", av, ", 0"));
        self.e(&cat5("%", &payload, " = extractvalue %yk_variant ", av, ", 1"));
        let int_tag: i64 = self.variant_name_tag("int(0)");
        let str_tag: i64 = self.variant_name_tag("str");
        if int_tag >= 0 && str_tag >= 0 {
            let is_int = self.fresh_label();
            self.e(&cat6("%", &is_int, " = icmp eq i64 %", &tag, ", ", &int_text(int_tag)));
            let int_bb = self.fresh_label();
            let str_bb = self.fresh_label();
            let done_bb = self.fresh_label();
            self.e(&cat6("br i1 %", &is_int, ", label %", &int_bb, ", label %", &str_bb));
            self.e(&cat2(&int_bb, ":"));
            self.e(&cat3("call void @yk_print_int(i64 %", &payload, ")"));
            self.e(&cat2("br label %", &done_bb));
            self.e(&cat2(&str_bb, ":"));
            self.print_payload_string(&payload);
            self.e(&cat2("br label %", &done_bb));
            self.e(&cat2(&done_bb, ":"));
        } else if int_tag >= 0 {
            self.e(&cat3("call void @yk_print_int(i64 %", &payload, ")"));
        } else if str_tag >= 0 {
            self.print_payload_string(&payload);
        } else {
            self.e(&cat3("call void @yk_print_int(i64 %", &payload, ")"));
        }
    }

    pub(crate) fn print_value(&mut self, av: &str, at: &str)
        ensures
            final(self)@ == old(self)@.print_value(av@, at@),
    {
        if is_nullable_ty(at) {
            self.print_nullable(av, at);
        } else if same(at, "i64") {
            self.e(&cat3("call void @yk_print_int(i64 ", av, ")"));
        } else if same(at, "double") {
            self.e(&cat3("call void @yk_print_real(double ", av, ")"));
        } else if same(at, "i1") {
            self.e(&cat3("call void @yk_print_bool(i1 ", av, ")"));
        } else if same(at, "%yk_string") {
            let p = self.string_to_ptr(av);
            self.e(&cat3("call void @yk_print_str_ptr(ptr ", &p, ")"));
        } else if same(at, "%yk_complex") {
            self.e(&cat3("call void @yk_print_complex(ptr ", av, ")"));
        } else if same(at, "%yk_result") {
            let payload = self.fresh_label();
            let flag = self.fresh_label();
            self.e(&cat5("%", &payload, " = extractvalue %yk_result ", av, ", 0"));
            self.e(&cat5("%", &flag, " = extractvalue %yk_result ", av, ", 1"));
            self.e(&cat5("call void @yk_print_result_val(i64 %", &payload, ", i1 %", &flag, ")"));
        } else if same(at, "%yk_variant") {
            self.print_variant(av);
        } else if same(at, "ptr") {
            self.e(&cat3("call void @yk_list_print(ptr ", av, ")"));
        } else {
            self.e(&cat3("call void @yk_print_int(i64 ", av, ")"));
        }
    }

    pub(crate) fn nullable_text(&mut self, av: &str, at: &str) -> (r: String)
        ensures
            (final(self)@, r@) == old(self)@.nullable_text(av@, at@),
    {
        let flag = self.fresh_label();
        let inner = self.fresh_label();
        self.e(&cat7("%", &flag, " = extractvalue ", at, " ", av, ", 1"));
        self.e(&cat7("%", &inner, " = extractvalue ", at, " ", av, ", 0"));
        let isnull_bb = self.fresh_label();
        let nonnull_bb = self.fresh_label();
        let merge_bb = self.fresh_label();
        self.e(&cat6("br i1 %", &flag, ", label %", &nonnull_bb, ", label %", &isnull_bb));
        self.e(&cat2(&isnull_bb, ":"));
        let null_str = self.make_string_slot("(null)");
        let null_alloca = self.fresh_label();
        self.e(&cat3("%", &null_alloca, " = alloca %yk_string, align 8"));
        self.e(&cat4("store %yk_string ", &null_str, ", ptr %", &null_alloca));
        self.e(&cat2("br label %", &merge_bb));
        self.e(&cat2(&nonnull_bb, ":"));
        let t = self.fresh_label();
        self.e(&cat5("%", &t, " = call ptr @yk_string_from_int(i64 %", &inner, ")"));
        self.e(&cat2("br label %", &merge_bb));
        self.e(&cat2(&merge_bb, ":"));
        let phi = self.fresh_label();
        self.e(
            &cat11("%", &phi, " = phi ptr [ %", &null_alloca, ", %", &isnull_bb, " ], [ %", &t,
                ", %", &nonnull_bb, " ]")
        );
        phi
    }

    pub(crate) fn variant_text(&mut self, av: &str) -> (r: String)
        ensures
            (final(self)@, r@) == old(self)@.variant_text(av@),
    {
        let tag = self.fresh_label();
        let payload = self.fresh_label();
        self.e(&cat5("%", &tag, " = extractvalue %yk_variant ", av, ", 0"));
        self.e(&cat5("%", &payload, " = extractvalue %yk_variant ", av, ", 1"));
        let int_tag: i64 = self.variant_name_tag("int(0)");
        let str_tag: i64 = self.variant_name_tag("str");
        if int_tag >= 0 && str_tag >= 0 {
            let is_int = self.fresh_label();
            self.e(&cat6("%", &is_int, " = icmp eq i64 %", &tag, ", ", &int_text(int_tag)));
            let int_bb = self.fresh_label();
            let str_bb = self.fresh_label();
            let done_bb = self.fresh_label();
            let result = self.fresh_label();
            self.e(&cat6("br i1 %", &is_int, ", label %", &int_bb, ", label %", &str_bb));
            self.e(&cat2(&int_bb, ":"));
            let t1 = self.fresh_label();
            self.e(&cat5("%", &t1, " = call ptr @yk_string_from_int(i64 %", &payload, ")"));
            self.e(&cat2("br label %", &done_bb));
            self.e(&cat2(&str_bb, ":"));
            let str_ptr = self.fresh_label();
            self.e(&cat5("%", &str_ptr, " = inttoptr i64 %", &payload, " to ptr"));
            self.e(&cat2("br label %", &done_bb));
            self.e(&cat2(&done_bb, ":"));
            self.e(
                &cat11("%", &result, " = phi ptr [ %", &t1, ", %", &int_bb, " ], [ %", &str_ptr,
                    ", %", &str_bb, " ]")
            );
            cat2("%", &result)
        } else {
            let t = self.fresh_label();
            self.e(&cat5("%", &t, " = call ptr @yk_string_from_int(i64 %", &payload, ")"));
            cat2("%", &t)
        }
    }

    pub(crate) fn plain_text(&mut self, av: &str, at: &str) -> (r: String)
        ensures
            (final(self)@, r@) == old(self)@.plain_text(av@, at@),
    {
        if same(at, "i64") {
            let r = self.call_ptr(&cat3("yk_string_from_int(i64 ", av, ")"));
            r
        } else if same(at, "double") {
            let r = self.call_ptr(&cat3("yk_string_from_real(double ", av, ")"));
            r
        } else if same(at, "i1") {
            let r = self.call_ptr(&cat3("yk_string_from_bool(i1 ", av, ")"));
            r
        } else if same(at, "%yk_complex") {
            let ca = self.complex_to_slot(av);
            let r = self.call_ptr(&cat3("yk_string_from_complex(ptr %", &ca, ")"));
            r
        } else if same(at, "%yk_string") {
            let r = self.string_to_ptr(av);
            r
        } else if same(at, "ptr") {
            let r = self.call_ptr(&cat3("yk_list_to_string(ptr ", av, ")"));
            r
        } else {
            let r = self.call_ptr(&cat3("yk_string_from_int(i64 ", av, ")"));
            r
        }
    }

    pub(crate) fn value_text(&mut self, av: &str, at: &str) -> (r: (String, String))
        ensures
            (final(self)@, (r.0@, r.1@)) == old(self)@.value_text(av@, at@),
    {
        let ptr = if is_nullable_ty(at) {
            let ptr = self.nullable_text(av, at);
            ptr
        } else if same(at, "%yk_variant") {
            let ptr = self.variant_text(av);
            ptr
        } else {
            let ptr = self.plain_text(av, at);
            ptr
        };
        self.load_string(&ptr)
    }
}

} // verus!
