//! The pieces of blocks, loops, matches and stores.

use vstd::prelude::*;

use crate::codegen::llvm::names::{
    after_prefix, alloca_name, alloca_of, bits_of, int_bits, is_nullable_ty, nullable, text_after,
};
use crate::codegen::llvm::state::{Gen, LlvmCodegen};
use crate::scan::{begins, starts_with};
use crate::text::{cat10, cat12, cat13, cat2, cat3, cat4, cat5, cat6, cat7, cat9, owned, same, Text};

verus! {

impl Gen {
    /// Begins a block: its label at the left margin, then one level deeper.
    pub open spec fn begin_block(self, label: Text) -> Gen {
        let g = self;
        let g = g.e_raw(label + ":"@);
        let n = g.deeper();
        let g = g.set_indent(n);
        g
    }

    /// Ends a block with a jump, and goes back to the depth that it began at.
    pub open spec fn end_block(self, target: Text, depth: nat) -> Gen {
        let g = self;
        let g = g.e("br label %"@ + target);
        let g = g.set_indent(depth);
        g
    }

    /// Starts the value of a block expression: zero, on the stack.
    pub open spec fn begin_value(self) -> (Gen, Text) {
        let g = self;
        let (g, ret_ptr) = g.fresh_label();
        let g = g.e("%"@ + ret_ptr + " = alloca i64, align 8"@);
        let g = g.e("store i64 0, ptr %"@ + ret_ptr);
        (g, ret_ptr)
    }

    /// Sets the value of a block expression.
    pub open spec fn set_value(self, val: Text, ty: Text, ret_ptr: Text) -> Gen {
        let g = self;
        let g = g.e("store "@ + ty + " "@ + val + ", ptr %"@ + ret_ptr);
        let (g, end_lbl) = g.fresh_label();
        let g = g.e("br label %"@ + end_lbl);
        let g = g.e_raw(end_lbl + ":"@);
        g
    }

    /// The value of a block expression.
    pub open spec fn block_value(self, ret_ptr: Text) -> (Gen, (Text, Text)) {
        let g = self;
        let (g, load_lbl) = g.fresh_label();
        let g = g.e("%"@ + load_lbl + " = load i64, ptr %"@ + ret_ptr);
        (g, ("%"@ + load_lbl, "i64"@))
    }

    /// Appends a value to a list.
    pub open spec fn push_value(self, list_ptr: Text, val: Text, ty: Text) -> Gen {
        let g = self;
        let (g, packed) = g.to_i64(val, ty);
        let g = g.e("call void @yk_list_push(ptr %"@ + list_ptr + ", i64 "@ + packed + ")"@);
        g
    }

    /// Starts a list.
    pub open spec fn new_list(self) -> (Gen, Text) {
        let g = self;
        let (g, list_ptr) = g.fresh_label();
        let g = g.e("%"@ + list_ptr + " = call ptr @yk_list_new()"@);
        (g, list_ptr)
    }

    /// Puts a value into an aggregate.
    pub open spec fn insert_value(
        self,
        ty: Text,
        agg: Text,
        fty: Text,
        fval: Text,
        idx: Text,
    ) -> (Gen, Text) {
        let g = self;
        let (g, tmp) = g.fresh_label();
        let g = g.e(
            "%"@ + tmp + " = insertvalue "@ + ty + " "@ + agg + ", "@ + fty + " "@ + fval + ", "@
                + idx
        );
        (g, "%"@ + tmp)
    }

    /// A class value with its method table in place; the class has methods.
    pub open spec fn with_vtable(self, name: Text) -> (Gen, Text) {
        let g = self;
        let class_ty = "%class."@ + name;
        let (g, vt) = g.fresh_label();
        let g = g.e(
            "%"@ + vt + " = ptrtoint %class."@ + name + ".vtable* @vtable."@ + name + " to i64"@
        );
        let (g, tmp) = g.fresh_label();
        let g = g.e("%"@ + tmp + " = insertvalue "@ + class_ty + " undef, i64 %"@ + vt + ", 0"@);
        (g, "%"@ + tmp)
    }

    /// Puts a value into a vector.
    pub open spec fn insert_element(
        self,
        vty: Text,
        vec: Text,
        val: Text,
        idx: Text,
    ) -> (Gen, Text) {
        let g = self;
        let (g, l) = g.fresh_label();
        let g = g.e("%"@ + l + " = insertelement "@ + vty + " %"@ + vec + ", "@ + val + " "@ + idx);
        (g, "%"@ + l)
    }

    /// Puts a row into a matrix.
    pub open spec fn insert_row(self, mty: Text, mat: Text, row: Text, idx: Text) -> (Gen, Text) {
        let g = self;
        let (g, l) = g.fresh_label();
        let g = g.e("%"@ + l + " = insertvalue "@ + mty + " %"@ + mat + ", %"@ + row + " "@ + idx);
        (g, "%"@ + l)
    }

    /// The address of an anonymous function of `n` parameters.
    pub open spec fn closure_address(self, name: Text, params: Text) -> (Gen, (Text, Text)) {
        let g = self;
        let (g, tmp) = g.fresh_label();
        let g = g.e("%"@ + tmp + " = ptrtoint i64 ("@ + params + ")* @"@ + name + " to i64"@);
        (g, ("%"@ + tmp, "i64"@))
    }

    /// Starts a thread; the value is its handle.
    pub open spec fn start_thread(self, wrapper_name: Text) -> (Gen, (Text, Text)) {
        let g = self;
        let (g, result_ptr) = g.begin_value();
        g.call_int("yk_run_thread(ptr @"@ + wrapper_name + ", ptr %"@ + result_ptr + ")"@)
    }

    /// Starts a complex number on the stack.
    pub open spec fn complex_slot(self) -> (Gen, Text) {
        let g = self;
        let (g, cptr) = g.fresh_label();
        let g = g.e("%"@ + cptr + " = alloca %yk_complex, align 8"@);
        (g, cptr)
    }

    /// The value of a condition: that of the branch that was taken.
    pub open spec fn merge_values(
        self,
        ty: Text,
        a_val: Text,
        a_label: Text,
        b_val: Text,
        b_label: Text,
    ) -> (Gen, (Text, Text)) {
        let g = self;
        let (g, result) = g.fresh_label();
        let g = g.e(
            "%"@ + result + " = phi "@ + ty + " [ "@ + a_val + ", %"@ + a_label + " ], [ "@ + b_val
                + ", %"@ + b_label + " ]"@
        );
        (g, ("%"@ + result, ty))
    }

    /// Tests an arm of a match: where the condition fails, control goes on to `next`.
    pub open spec fn test_arm(self, cond: Text, label: Text, next: Text) -> Gen {
        let g = self;
        let g = g.e("br i1 "@ + cond + ", label %"@ + label + ", label %"@ + next);
        g
    }

    /// Ends an arm of a match with its value.
    pub open spec fn end_arm(
        self,
        val: Text,
        ty: Text,
        result_ptr: Text,
        merge_label: Text,
    ) -> Gen {
        let g = self;
        let g = g.e("store "@ + ty + " "@ + val + ", ptr %"@ + result_ptr);
        let g = g.e("br label %"@ + merge_label);
        g
    }

    /// Starts the value of a match.
    pub open spec fn begin_match(self, result_ty: Text) -> (Gen, Text) {
        let g = self;
        let (g, result_ptr) = g.fresh_label();
        let g = g.e("%"@ + result_ptr + " = alloca "@ + result_ty + ", align 8"@);
        (g, result_ptr)
    }

    /// The value of a match.
    pub open spec fn end_match(
        self,
        result_ty: Text,
        result_ptr: Text,
        merge_label: Text,
    ) -> (Gen, (Text, Text)) {
        let g = self;
        let g = g.e_raw(merge_label + ":"@);
        let (g, result_val) = g.fresh_label();
        let g = g.e("%"@ + result_val + " = load "@ + result_ty + ", ptr %"@ + result_ptr);
        (g, ("%"@ + result_val, result_ty))
    }

    /// Binds the variable of a catch clause: no error.
    pub open spec fn bind_catch(self, name: Text) -> Gen {
        let g = self;
        let (g, ptr) = g.begin_value();
        let g = g.set_var_alloca(name, ptr);
        let g = g.set_var_type(name, "i64"@);
        g
    }

    /// Stores a truth value from an integer.
    pub open spec fn store_truth(self, val: Text, ptr: Text) -> Gen {
        let g = self;
        let (g, tmp) = g.fresh_label();
        let g = g.e("%"@ + tmp + " = icmp ne i64 "@ + val + ", 0"@);
        let g = g.e("store i1 %"@ + tmp + ", ptr "@ + ptr);
        g
    }

    /// Stores a narrower integer into a variable.
    pub open spec fn store_widened(self, instr: Text, val: Text, val_ty: Text, ptr: Text) -> Gen {
        let g = self;
        let (g, tmp) = g.fresh_label();
        let g = g.e("%"@ + tmp + " = "@ + instr + " "@ + val_ty + " "@ + val + " to i64"@);
        let g = g.e("store i64 %"@ + tmp + ", ptr "@ + ptr);
        g
    }

    /// Stores the value of a declaration that is neither nullable nor a union.
    pub open spec fn store_declared(self, ty: Text, val: Text, val_ty: Text, ptr: Text) -> Gen {
        let g = self;
        let iface_name = after_prefix(ty, "%iface."@);
        let class_name = after_prefix(val_ty, "%class."@);
        let g = if begins(ty, "%iface."@) && begins(val_ty, "%class."@) {
            let (g, v) = g.make_interface(ty, iface_name, val, val_ty, class_name);
            let g = g.e("store "@ + ty + " "@ + v + ", ptr "@ + ptr);
            g
        } else if ty == "i1"@ && val_ty == "i64"@ {
            let g = g.store_truth(val, ptr);
            g
        } else if ty == "i64"@ && val_ty == "i1"@ {
            let g = g.store_widened("zext"@, val, "i1"@, ptr);
            g
        } else if ty != val_ty && ty == "i64"@ && begins(val_ty, "i"@) {
            let g = if int_bits(val_ty) <= 1 {
                let g = g.store_widened("zext"@, val, val_ty, ptr);
                g
            } else {
                let g = g.store_widened("sext"@, val, val_ty, ptr);
                g
            };
            g
        } else {
            let g = g.e("store "@ + val_ty + " "@ + val + ", ptr "@ + ptr);
            g
        };
        g
    }

    /// Stores an assigned value that is neither nullable nor a union.
    pub open spec fn store_assigned(self, ty: Text, val: Text, val_ty: Text, ptr: Text) -> Gen {
        let g = self;
        let g = if ty == "i1"@ && val_ty == "i64"@ {
            let g = g.store_truth(val, ptr);
            g
        } else {
            let g = g.e("store "@ + val_ty + " "@ + val + ", ptr "@ + ptr);
            g
        };
        g
    }

    /// Stores a value into a nullable variable.
    pub open spec fn store_nullable(
        self,
        ty: Text,
        val: Text,
        val_ty: Text,
        is_null: bool,
        ptr: Text,
    ) -> Gen {
        let g = self;
        let (g, wrapped) = g.wrap_in_nullable(ty, val, val_ty, is_null);
        let g = g.e("store "@ + ty + " "@ + wrapped + ", ptr "@ + ptr);
        g
    }

    /// The slot of a variable that is assigned to; a new variable gets one.
    pub open spec fn assigned_slot(self, name: Text, val_ty: Text) -> (Gen, Text) {
        let g = self;
        if let Some(p) = g.var_slot(name) {
            (g, p)
        } else {
            let p = alloca_name(name);
            let g = g.e(p + " = alloca "@ + val_ty + ", align 8"@);
            let g = g.set_var_alloca(name, p);
            let g = g.set_var_type(name, val_ty);
            (g, p)
        }
    }

    /// Returns a value from a function.
    pub open spec fn return_value(self, val: Text, val_ty: Text, is_null: bool) -> Gen {
        let g = self;
        let ret = g.fn_ret();
        let g = if nullable(ret) && !nullable(val_ty) {
            let (g, wrapped) = g.wrap_in_nullable(ret, val, val_ty, is_null);
            let g = g.e("ret "@ + ret + " "@ + wrapped);
            g
        } else if ret == "i64"@ && val_ty == "ptr"@ {
            let (g, c) = g.fresh_label();
            let g = g.e("%"@ + c + " = ptrtoint ptr "@ + val + " to i64"@);
            let g = g.e("ret i64 %"@ + c);
            g
        } else if ret == "ptr"@ && val_ty == "i64"@ {
            let (g, c) = g.fresh_label();
            let g = g.e("%"@ + c + " = inttoptr i64 "@ + val + " to ptr"@);
            let g = g.e("ret ptr %"@ + c);
            g
        } else {
            let g = g.e("ret "@ + val_ty + " "@ + val);
            g
        };
        g
    }

    /// Declares the index of a loop over a string.
    pub open spec fn declare_index(self, name: Text) -> (Gen, Text) {
        let g = self;
        let (g, idx_ptr) = g.bind_var(name, "i64"@);
        let g = g.e(idx_ptr + " = alloca i64, align 8"@);
        let g = g.e("store i64 0, ptr "@ + idx_ptr);
        (g, idx_ptr)
    }

    /// The head of a loop over a string: it ends at the length of the string. The value is the index.
    pub open spec fn string_loop_head(
        self,
        str_val: Text,
        idx_name: Text,
        idx_ptr: Text,
        head_label: Text,
        body_label: Text,
        exit_label: Text,
    ) -> (Gen, Text) {
        let g = self;
        let (g, len) = g.fresh_label();
        let g = g.e("%"@ + len + " = extractvalue %yk_string "@ + str_val + ", 1"@);
        let g = g.e("br label %"@ + head_label);
        let g = g.e_raw(head_label + ":"@);
        let (g, idx_val) = g.value_name(idx_name);
        let g = g.e(idx_val + " = load i64, ptr "@ + idx_ptr);
        let (g, test) = g.fresh_label();
        let g = g.e("%"@ + test + " = icmp slt i64 "@ + idx_val + ", %"@ + len);
        let g = g.e("br i1 %"@ + test + ", label %"@ + body_label + ", label %"@ + exit_label);
        (g, idx_val)
    }

    /// Binds the variable of a loop over a string to the byte at the index.
    pub open spec fn bind_byte(self, var: Text, str_val: Text, idx_val: Text) -> Gen {
        let g = self;
        let (g, data_ptr) = g.fresh_label();
        let g = g.e("%"@ + data_ptr + " = extractvalue %yk_string "@ + str_val + ", 0"@);
        let (g, ch_ptr) = g.fresh_label();
        let g = g.e(
            "%"@ + ch_ptr + " = getelementptr inbounds i8, ptr %"@ + data_ptr + ", i64 "@ + idx_val
        );
        let (g, ch_val) = g.fresh_label();
        let g = g.e("%"@ + ch_val + " = load i8, ptr %"@ + ch_ptr);
        let (g, ch_ext) = g.fresh_label();
        let g = g.e("%"@ + ch_ext + " = zext i8 %"@ + ch_val + " to i64"@);
        let g = g.bind_value(var, "%"@ + ch_ext, "i64"@);
        g
    }

    /// Adds one to the index of a loop.
    pub open spec fn step_index(self, idx_val: Text, idx_ptr: Text) -> Gen {
        let g = self;
        let (g, next) = g.fresh_label();
        let g = g.e("%"@ + next + " = add i64 "@ + idx_val + ", 1"@);
        let g = g.e("store i64 %"@ + next + ", ptr "@ + idx_ptr);
        g
    }

    /// The head of a loop over the integers from zero to the end, the end included. The value is the
    /// variable's.
    pub open spec fn range_loop_head(
        self,
        var: Text,
        ptr: Text,
        end_val: Text,
        cond_label: Text,
        body_label: Text,
        exit_label: Text,
    ) -> (Gen, Text) {
        let g = self;
        let g = g.e("br label %"@ + cond_label);
        let g = g.e_raw(cond_label + ":"@);
        let (g, v) = g.value_name(var);
        let g = g.e(v + " = load i64, ptr "@ + ptr);
        let g = g.e("%cmp_"@ + var + " = icmp sle i64 "@ + v + ", "@ + end_val);
        let g = g.e("br i1 %cmp_"@ + var + ", label %"@ + body_label + ", label %"@ + exit_label);
        (g, v)
    }

    /// The value of a nullable expression that is not null, and the jump behind it.
    pub open spec fn elvis_value(
        self,
        a_val: Text,
        a_ty: Text,
        nonnull_bb: Text,
        merge_bb: Text,
    ) -> (Gen, Text) {
        let g = self;
        let g = g.e("br label %"@ + merge_bb);
        let g = g.e(nonnull_bb + ":"@);
        let (g, inner) = g.fresh_label();
        let g = g.e("%"@ + inner + " = extractvalue "@ + a_ty + " "@ + a_val + ", 0"@);
        let g = g.e("br label %"@ + merge_bb);
        let g = g.e(merge_bb + ":"@);
        (g, "%"@ + inner)
    }

    /// Tests whether a nullable value is null; the result is the bare label of the answer.
    pub open spec fn null_test(self, a_val: Text, a_ty: Text) -> (Gen, Text) {
        let g = self;
        let (g, null_flag) = g.fresh_label();
        let g = g.e("%"@ + null_flag + " = extractvalue "@ + a_ty + " "@ + a_val + ", 1"@);
        let (g, is_null) = g.fresh_label();
        let g = g.e("%"@ + is_null + " = icmp eq i1 %"@ + null_flag + ", 0"@);
        (g, is_null)
    }
}

impl<'a> LlvmCodegen<'a> {
    pub(crate) fn begin_block(&mut self, label: &str)
        ensures
            final(self)@ == old(self)@.begin_block(label@),
    {
        self.e_raw(&cat2(label, ":"));
        let n: usize = self.deeper();
        self.set_indent(n);
    }

    pub(crate) fn end_block(&mut self, target: &str, depth: usize)
        ensures
            final(self)@ == old(self)@.end_block(target@, depth as nat),
    {
        self.e(&cat2("br label %", target));
        self.set_indent(depth);
    }

    pub(crate) fn begin_value(&mut self) -> (r: String)
        ensures
            (final(self)@, r@) == old(self)@.begin_value(),
    {
        let ret_ptr = self.fresh_label();
        self.e(&cat3("%", &ret_ptr, " = alloca i64, align 8"));
        self.e(&cat2("store i64 0, ptr %", &ret_ptr));
        ret_ptr
    }

    pub(crate) fn set_value(&mut self, val: &str, ty: &str, ret_ptr: &str)
        ensures
            final(self)@ == old(self)@.set_value(val@, ty@, ret_ptr@),
    {
        self.e(&cat6("store ", ty, " ", val, ", ptr %", ret_ptr));
        let end_lbl = self.fresh_label();
        self.e(&cat2("br label %", &end_lbl));
        self.e_raw(&cat2(&end_lbl, ":"));
    }

    pub(crate) fn block_value(&mut self, ret_ptr: &str) -> (r: (String, String))
        ensures
            (final(self)@, (r.0@, r.1@)) == old(self)@.block_value(ret_ptr@),
    {
        let load_lbl = self.fresh_label();
        self.e(&cat4("%", &load_lbl, " = load i64, ptr %", ret_ptr));
        (cat2("%", &load_lbl), owned("i64"))
    }

    pub(crate) fn push_value(&mut self, list_ptr: &str, val: &str, ty: &str)
        ensures
            final(self)@ == old(self)@.push_value(list_ptr@, val@, ty@),
    {
        let packed = self.to_i64(val, ty);
        self.e(&cat5("call void @yk_list_push(ptr %", list_ptr, ", i64 ", &packed, ")"));
    }

    pub(crate) fn new_list(&mut self) -> (r: String)
        ensures
            (final(self)@, r@) == old(self)@.new_list(),
    {
        let list_ptr = self.fresh_label();
        self.e(&cat3("%", &list_ptr, " = call ptr @yk_list_new()"));
        list_ptr
    }

    pub(crate) fn insert_value(
        &mut self,
        ty: &str,
        agg: &str,
        fty: &str,
        fval: &str,
        idx: &str,
    ) -> (r: String)
        ensures
            (final(self)@, r@) == old(self)@.insert_value(ty@, agg@, fty@, fval@, idx@),
    {
        let tmp = self.fresh_label();
        self.e(&cat12("%", &tmp, " = insertvalue ", ty, " ", agg, ", ", fty, " ", fval, ", ", idx));
        cat2("%", &tmp)
    }

    pub(crate) fn with_vtable(&mut self, name: &str) -> (r: String)
        ensures
            (final(self)@, r@) == old(self)@.with_vtable(name@),
    {
        let class_ty = cat2("%class.", name);
        let vt = self.fresh_label();
        self.e(&cat7("%", &vt, " = ptrtoint %class.", name, ".vtable* @vtable.", name, " to i64"));
        let tmp = self.fresh_label();
        self.e(&cat7("%", &tmp, " = insertvalue ", &class_ty, " undef, i64 %", &vt, ", 0"));
        cat2("%", &tmp)
    }

    pub(crate) fn insert_element(
        &mut self,
        vty: &str,
        vec: &str,
        val: &str,
        idx: &str,
    ) -> (r: String)
        ensures
            (final(self)@, r@) == old(self)@.insert_element(vty@, vec@, val@, idx@),
    {
        let l = self.fresh_label();
        self.e(&cat10("%", &l, " = insertelement ", vty, " %", vec, ", ", val, " ", idx));
        cat2("%", &l)
    }

    pub(crate) fn insert_row(&mut self, mty: &str, mat: &str, row: &str, idx: &str) -> (r: String)
        ensures
            (final(self)@, r@) == old(self)@.insert_row(mty@, mat@, row@, idx@),
    {
        let l = self.fresh_label();
        self.e(&cat10("%", &l, " = insertvalue ", mty, " %", mat, ", %", row, " ", idx));
        cat2("%", &l)
    }

    pub(crate) fn closure_address(&mut self, name: &str, params: &str) -> (r: (String, String))
        ensures
            (final(self)@, (r.0@, r.1@)) == old(self)@.closure_address(name@, params@),
    {
        let tmp = self.fresh_label();
        self.e(&cat7("%", &tmp, " = ptrtoint i64 (", params, ")* @", name, " to i64"));
        (cat2("%", &tmp), owned("i64"))
    }

    pub(crate) fn start_thread(&mut self, wrapper_name: &str) -> (r: (String, String))
        ensures
            (final(self)@, (r.0@, r.1@)) == old(self)@.start_thread(wrapper_name@),
    {
        let result_ptr = self.begin_value();
        self.call_int(&cat5("yk_run_thread(ptr @", wrapper_name, ", ptr %", &result_ptr, ")"))
    }

    pub(crate) fn complex_slot(&mut self) -> (r: String)
        ensures
            (final(self)@, r@) == old(self)@.complex_slot(),
    {
        let cptr = self.fresh_label();
        self.e(&cat3("%", &cptr, " = alloca %yk_complex, align 8"));
        cptr
    }

    pub(crate) fn merge_values(
        &mut self,
        ty: &str,
        a_val: &str,
        a_label: &str,
        b_val: &str,
        b_label: &str,
    ) -> (r: (String, String))
        ensures
            (final(self)@, (r.0@, r.1@)) == old(self)@.merge_values(ty@, a_val@, a_label@, b_val@,
                b_label@),
    {
        let result = self.fresh_label();
        self.e(
            &cat13("%", &result, " = phi ", ty, " [ ", a_val, ", %", a_label, " ], [ ", b_val,
                ", %", b_label, " ]")
        );
        (cat2("%", &result), owned(ty))
    }

    pub(crate) fn test_arm(&mut self, cond: &str, label: &str, next: &str)
        ensures
            final(self)@ == old(self)@.test_arm(cond@, label@, next@),
    {
        self.e(&cat6("br i1 ", cond, ", label %", label, ", label %", next));
    }

    pub(crate) fn end_arm(&mut self, val: &str, ty: &str, result_ptr: &str, merge_label: &str)
        ensures
            final(self)@ == old(self)@.end_arm(val@, ty@, result_ptr@, merge_label@),
    {
        self.e(&cat6("store ", ty, " ", val, ", ptr %", result_ptr));
        self.e(&cat2("br label %", merge_label));
    }

    pub(crate) fn begin_match(&mut self, result_ty: &str) -> (r: String)
        ensures
            (final(self)@, r@) == old(self)@.begin_match(result_ty@),
    {
        let result_ptr = self.fresh_label();
        self.e(&cat5("%", &result_ptr, " = alloca ", result_ty, ", align 8"));
        result_ptr
    }

    pub(crate) fn end_match(
        &mut self,
        result_ty: &str,
        result_ptr: &str,
        merge_label: &str,
    ) -> (r: (String, String))
        ensures
            (final(self)@, (r.0@, r.1@)) == old(self)@.end_match(result_ty@, result_ptr@,
                merge_label@),
    {
        self.e_raw(&cat2(merge_label, ":"));
        let result_val = self.fresh_label();
        self.e(&cat6("%", &result_val, " = load ", result_ty, ", ptr %", result_ptr));
        (cat2("%", &result_val), owned(result_ty))
    }

    pub(crate) fn bind_catch(&mut self, name: &str)
        ensures
            final(self)@ == old(self)@.bind_catch(name@),
    {
        let ptr = self.begin_value();
        self.set_var_alloca(name, &ptr);
        self.set_var_type(name, "i64");
    }

    pub(crate) fn store_truth(&mut self, val: &str, ptr: &str)
        ensures
            final(self)@ == old(self)@.store_truth(val@, ptr@),
    {
        let tmp = self.fresh_label();
        self.e(&cat5("%", &tmp, " = icmp ne i64 ", val, ", 0"));
        self.e(&cat4("store i1 %", &tmp, ", ptr ", ptr));
    }

    pub(crate) fn store_widened(&mut self, instr: &str, val: &str, val_ty: &str, ptr: &str)
        ensures
            final(self)@ == old(self)@.store_widened(instr@, val@, val_ty@, ptr@),
    {
        let tmp = self.fresh_label();
        self.e(&cat9("%", &tmp, " = ", instr, " ", val_ty, " ", val, " to i64"));
        self.e(&cat4("store i64 %", &tmp, ", ptr ", ptr));
    }

    pub(crate) fn store_declared(&mut self, ty: &str, val: &str, val_ty: &str, ptr: &str)
        ensures
            final(self)@ == old(self)@.store_declared(ty@, val@, val_ty@, ptr@),
    {
        let iface_name = text_after(ty, "%iface.");
        let class_name = text_after(val_ty, "%class.");
        if starts_with(ty, "%iface.") && starts_with(val_ty, "%class.") {
            let v = self.make_interface(ty, &iface_name, val, val_ty, &class_name);
            self.e(&cat6("store ", ty, " ", &v, ", ptr ", ptr));
        } else if same(ty, "i1") && same(val_ty, "i64") {
            self.store_truth(val, ptr);
        } else if same(ty, "i64") && same(val_ty, "i1") {
            self.store_widened("zext", val, "i1", ptr);
        } else if !same(ty, val_ty) && same(ty, "i64") && starts_with(val_ty, "i") {
            if bits_of(val_ty) <= 1 {
                self.store_widened("zext", val, val_ty, ptr);
            } else {
                self.store_widened("sext", val, val_ty, ptr);
            }
        } else {
            self.e(&cat6("store ", val_ty, " ", val, ", ptr ", ptr));
        }
    }

    pub(crate) fn store_assigned(&mut self, ty: &str, val: &str, val_ty: &str, ptr: &str)
        ensures
            final(self)@ == old(self)@.store_assigned(ty@, val@, val_ty@, ptr@),
    {
        if same(ty, "i1") && same(val_ty, "i64") {
            self.store_truth(val, ptr);
        } else {
            self.e(&cat6("store ", val_ty, " ", val, ", ptr ", ptr));
        }
    }

    pub(crate) fn store_nullable(
        &mut self,
        ty: &str,
        val: &str,
        val_ty: &str,
        is_null: bool,
        ptr: &str,
    )
        ensures
            final(self)@ == old(self)@.store_nullable(ty@, val@, val_ty@, is_null, ptr@),
    {
        let wrapped = self.wrap_in_nullable(ty, val, val_ty, is_null);
        self.e(&cat6("store ", ty, " ", &wrapped, ", ptr ", ptr));
    }

    pub(crate) fn assigned_slot(&mut self, name: &str, val_ty: &str) -> (r: String)
        ensures
            (final(self)@, r@) == old(self)@.assigned_slot(name@, val_ty@),
    {
        if let Some(p) = self.var_slot(name) {
            p
        } else {
            let p = alloca_of(name);
            self.e(&cat4(&p, " = alloca ", val_ty, ", align 8"));
            self.set_var_alloca(name, &p);
            self.set_var_type(name, val_ty);
            p
        }
    }

    pub(crate) fn return_value(&mut self, val: &str, val_ty: &str, is_null: bool)
        ensures
            final(self)@ == old(self)@.return_value(val@, val_ty@, is_null),
    {
        let ret = self.fn_ret();
        if is_nullable_ty(&ret) && !is_nullable_ty(val_ty) {
            let wrapped = self.wrap_in_nullable(&ret, val, val_ty, is_null);
            self.e(&cat4("ret ", &ret, " ", &wrapped));
        } else if same(&ret, "i64") && same(val_ty, "ptr") {
            let c = self.fresh_label();
            self.e(&cat5("%", &c, " = ptrtoint ptr ", val, " to i64"));
            self.e(&cat2("ret i64 %", &c));
        } else if same(&ret, "ptr") && same(val_ty, "i64") {
            let c = self.fresh_label();
            self.e(&cat5("%", &c, " = inttoptr i64 ", val, " to ptr"));
            self.e(&cat2("ret ptr %", &c));
        } else {
            self.e(&cat4("ret ", val_ty, " ", val));
        }
    }

    pub(crate) fn declare_index(&mut self, name: &str) -> (r: String)
        ensures
            (final(self)@, r@) == old(self)@.declare_index(name@),
    {
        let idx_ptr = self.bind_var(name, "i64");
        self.e(&cat2(&idx_ptr, " = alloca i64, align 8"));
        self.e(&cat2("store i64 0, ptr ", &idx_ptr));
        idx_ptr
    }

    pub(crate) fn string_loop_head(
        &mut self,
        str_val: &str,
        idx_name: &str,
        idx_ptr: &str,
        head_label: &str,
        body_label: &str,
        exit_label: &str,
    ) -> (r: String)
        ensures
            (final(self)@, r@) == old(self)@.string_loop_head(str_val@, idx_name@, idx_ptr@,
                head_label@, body_label@, exit_label@),
    {
        let len = self.fresh_label();
        self.e(&cat5("%", &len, " = extractvalue %yk_string ", str_val, ", 1"));
        self.e(&cat2("br label %", head_label));
        self.e_raw(&cat2(head_label, ":"));
        let idx_val = self.value_name(idx_name);
        self.e(&cat3(&idx_val, " = load i64, ptr ", idx_ptr));
        let test = self.fresh_label();
        self.e(&cat6("%", &test, " = icmp slt i64 ", &idx_val, ", %", &len));
        self.e(&cat6("br i1 %", &test, ", label %", body_label, ", label %", exit_label));
        idx_val
    }

    pub(crate) fn bind_byte(&mut self, var: &str, str_val: &str, idx_val: &str)
        ensures
            final(self)@ == old(self)@.bind_byte(var@, str_val@, idx_val@),
    {
        let data_ptr = self.fresh_label();
        self.e(&cat5("%", &data_ptr, " = extractvalue %yk_string ", str_val, ", 0"));
        let ch_ptr = self.fresh_label();
        self.e(
            &cat6("%", &ch_ptr, " = getelementptr inbounds i8, ptr %", &data_ptr, ", i64 ", idx_val)
        );
        let ch_val = self.fresh_label();
        self.e(&cat4("%", &ch_val, " = load i8, ptr %", &ch_ptr));
        let ch_ext = self.fresh_label();
        self.e(&cat5("%", &ch_ext, " = zext i8 %", &ch_val, " to i64"));
        self.bind_value(var, &cat2("%", &ch_ext), "i64");
    }

    pub(crate) fn step_index(&mut self, idx_val: &str, idx_ptr: &str)
        ensures
            final(self)@ == old(self)@.step_index(idx_val@, idx_ptr@),
    {
        let next = self.fresh_label();
        self.e(&cat5("%", &next, " = add i64 ", idx_val, ", 1"));
        self.e(&cat4("store i64 %", &next, ", ptr ", idx_ptr));
    }

    pub(crate) fn range_loop_head(
        &mut self,
        var: &str,
        ptr: &str,
        end_val: &str,
        cond_label: &str,
        body_label: &str,
        exit_label: &str,
    ) -> (r: String)
        ensures
            (final(self)@, r@) == old(self)@.range_loop_head(var@, ptr@, end_val@, cond_label@,
                body_label@, exit_label@),
    {
        self.e(&cat2("br label %", cond_label));
        self.e_raw(&cat2(cond_label, ":"));
        let v = self.value_name(var);
        self.e(&cat3(&v, " = load i64, ptr ", ptr));
        self.e(&cat6("%cmp_", var, " = icmp sle i64 ", &v, ", ", end_val));
        self.e(&cat6("br i1 %cmp_", var, ", label %", body_label, ", label %", exit_label));
        v
    }

    pub(crate) fn elvis_value(
        &mut self,
        a_val: &str,
        a_ty: &str,
        nonnull_bb: &str,
        merge_bb: &str,
    ) -> (r: String)
        ensures
            (final(self)@, r@) == old(self)@.elvis_value(a_val@, a_ty@, nonnull_bb@, merge_bb@),
    {
        self.e(&cat2("br label %", merge_bb));
        self.e(&cat2(nonnull_bb, ":"));
        let inner = self.fresh_label();
        self.e(&cat7("%", &inner, " = extractvalue ", a_ty, " ", a_val, ", 0"));
        self.e(&cat2("br label %", merge_bb));
        self.e(&cat2(merge_bb, ":"));
        cat2("%", &inner)
    }

    pub(crate) fn null_test(&mut self, a_val: &str, a_ty: &str) -> (r: String)
        ensures
            (final(self)@, r@) == old(self)@.null_test(a_val@, a_ty@),
    {
        let null_flag = self.fresh_label();
        self.e(&cat7("%", &null_flag, " = extractvalue ", a_ty, " ", a_val, ", 1"));
        let is_null = self.fresh_label();
        self.e(&cat5("%", &is_null, " = icmp eq i1 %", &null_flag, ", 0"));
        is_null
    }
}

} // verus!
