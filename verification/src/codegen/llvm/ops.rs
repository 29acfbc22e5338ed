//! Operators and conversions.

use vstd::prelude::*;

use crate::codegen::llvm::names::{int_width, width};
use crate::codegen::llvm::state::{Gen, LlvmCodegen};
use crate::scan::{begins, starts_with};
use crate::syntax::ast::{BinOp, UnOp};
use crate::text::{cat10, cat12, cat2, cat3, cat4, cat5, cat6, cat7, cat8, cat9, owned, same, Text};

verus! {

impl Gen {
    /// Applies a unary operator.
    pub open spec fn emit_unop(self, op: UnOp, i: Text, ty: Text) -> (Gen, (Text, Text)) {
        let g = self;
        let (g, tmp) = g.fresh_label();
        match op {
            UnOp::Neg => {
                let g = if ty == "double"@ {
                    let g = g.e("%"@ + tmp + " = fsub double -0.0, "@ + i);
                    g
                } else {
                    let g = g.e("%"@ + tmp + " = sub "@ + ty + " 0, "@ + i);
                    g
                };
                (g, ("%"@ + tmp, ty))
            },
            UnOp::Not => {
                let g = if ty == "i1"@ {
                    let g = g.e("%"@ + tmp + " = xor i1 "@ + i + ", true"@);
                    g
                } else {
                    let g = g.e("%"@ + tmp + " = icmp eq i64 "@ + i + ", 0"@);
                    g
                };
                (g, ("%"@ + tmp, "i1"@))
            },
            UnOp::BitNot => {
                let g = g.e("%"@ + tmp + " = xor "@ + ty + " "@ + i + ", -1"@);
                (g, ("%"@ + tmp, ty))
            },
        }
    }

    /// Turns an integer into a number of another type.
    pub open spec fn int_to_real(self, val: Text, ty: Text, real_ty: Text) -> (Gen, Text) {
        let g = self;
        let (g, ext) = g.fresh_label();
        let g = g.e("%"@ + ext + " = sitofp "@ + ty + " "@ + val + " to "@ + real_ty);
        (g, "%"@ + ext)
    }

    /// Widens an integer.
    pub open spec fn widen(self, val: Text, ty: Text, wide: Text) -> (Gen, Text) {
        let g = self;
        let (g, ext) = g.fresh_label();
        let g = g.e("%"@ + ext + " = sext "@ + ty + " "@ + val + " to "@ + wide);
        (g, "%"@ + ext)
    }

    /// Stores an operand of a complex operation: a complex value as it is, a real one with no imaginary part.
    pub open spec fn store_complex(self, val: Text, ty: Text, place: Text) -> Gen {
        let g = self;
        let g = if ty == "%yk_complex"@ {
            let g = g.e("store %yk_complex "@ + val + ", ptr %"@ + place);
            g
        } else {
            let (g, ca) = g.fresh_label();
            let g = g.e("%"@ + ca + " = sitofp "@ + ty + " "@ + val + " to double"@);
            let g = g.e(
                "call void @yk_complex_set(ptr %"@ + place + ", double %"@ + ca + ", double 0.0)"@
            );
            g
        };
        g
    }

    /// An operation on complex numbers, which the runtime does.
    pub open spec fn complex_op(
        self,
        op: BinOp,
        lc: Text,
        lt: Text,
        rc: Text,
        rt: Text,
        tmp: Text,
    ) -> (Gen, (Text, Text)) {
        let g = self;
        let (g, func) = match op {
            BinOp::Add => {
                let func = "yk_complex_add"@;
                (g, func)
            },
            BinOp::Sub => {
                let func = "yk_complex_sub"@;
                (g, func)
            },
            BinOp::Mul => {
                let func = "yk_complex_mul"@;
                (g, func)
            },
            BinOp::Div => {
                let func = "yk_complex_div"@;
                (g, func)
            },
            _ => {
                let func = "yk_complex_add"@;
                (g, func)
            },
        };
        let (g, la) = g.fresh_label();
        let (g, ra) = g.fresh_label();
        let g = g.e("%"@ + la + " = alloca %yk_complex, align 8"@);
        let g = g.e("%"@ + ra + " = alloca %yk_complex, align 8"@);
        let g = g.store_complex(lc, lt, la);
        let g = g.store_complex(rc, rt, ra);
        let g = g.e("%"@ + tmp + " = alloca %yk_complex, align 8"@);
        let g = g.e(
            "call void @"@ + func + "(ptr %"@ + tmp + ", ptr %"@ + la + ", ptr %"@ + ra + ")"@
        );
        let (g, loaded) = g.fresh_label();
        let g = g.e("%"@ + loaded + " = load %yk_complex, ptr %"@ + tmp);
        (g, ("%"@ + loaded, "%yk_complex"@))
    }

    /// Joins two strings.
    pub open spec fn concat_strings(self, lc: Text, rc: Text, tmp: Text) -> (Gen, (Text, Text)) {
        let g = self;
        let (g, ptr_a) = g.string_to_ptr(lc);
        let (g, ptr_b) = g.string_to_ptr(rc);
        let g = g.e(
            "%"@ + tmp + " = call ptr @yk_string_concat_ptr(ptr "@ + ptr_a + ", ptr "@ + ptr_b
                + ")"@
        );
        g.load_string("%"@ + tmp)
    }

    /// An instruction of two operands that keeps their type.
    pub open spec fn arith(
        self,
        tmp: Text,
        instr: Text,
        ty: Text,
        lc: Text,
        rc: Text,
    ) -> (Gen, (Text, Text)) {
        let g = self;
        let g = g.e("%"@ + tmp + " = "@ + instr + " "@ + ty + " "@ + lc + ", "@ + rc);
        (g, ("%"@ + tmp, ty))
    }

    /// A comparison.
    pub open spec fn compare(
        self,
        tmp: Text,
        instr: Text,
        cond: Text,
        ty: Text,
        lc: Text,
        rc: Text,
    ) -> (Gen, (Text, Text)) {
        let g = self;
        let g = g.e("%"@ + tmp + " = "@ + instr + " "@ + cond + " "@ + ty + " "@ + lc + ", "@ + rc);
        (g, ("%"@ + tmp, "i1"@))
    }

    /// A logical operation on two truth values, each of which is true where it is not zero.
    pub open spec fn logical(
        self,
        tmp: Text,
        instr: Text,
        ty: Text,
        lc: Text,
        rc: Text,
    ) -> (Gen, (Text, Text)) {
        let g = self;
        let (g, z1) = g.fresh_label();
        let (g, z2) = g.fresh_label();
        let g = g.e("%"@ + z1 + " = icmp ne "@ + ty + " "@ + lc + ", 0"@);
        let g = g.e("%"@ + z2 + " = icmp ne "@ + ty + " "@ + rc + ", 0"@);
        let g = g.e("%"@ + tmp + " = "@ + instr + " i1 %"@ + z1 + ", %"@ + z2);
        (g, ("%"@ + tmp, "i1"@))
    }

    /// A power, which the runtime computes.
    pub open spec fn power(
        self,
        tmp: Text,
        is_float: bool,
        ty: Text,
        lc: Text,
        rc: Text,
    ) -> (Gen, (Text, Text)) {
        let g = self;
        let g = if is_float {
            let g = g.e(
                "%"@ + tmp + " = call double @yk_pow_real(double "@ + lc + ", double "@ + rc + ")"@
            );
            g
        } else {
            let g = g.e("%"@ + tmp + " = call i64 @yk_pow_int(i64 "@ + lc + ", i64 "@ + rc + ")"@);
            g
        };
        (g, ("%"@ + tmp, ty))
    }

    /// An operation on two operands that have one type, `target` being the place of the left one.
    pub open spec fn plain_op(
        self,
        op: BinOp,
        lc: Text,
        ty: Text,
        rc: Text,
        tmp: Text,
        target: Text,
    ) -> (Gen, (Text, Text)) {
        let g = self;
        let is_float = ty == "double"@;
        match op {
            BinOp::Add => {
                if ty == "%yk_string"@ {
                    g.concat_strings(lc, rc, tmp)
                } else if is_float {
                    g.arith(tmp, "fadd"@, ty, lc, rc)
                } else {
                    g.arith(tmp, "add nsw"@, ty, lc, rc)
                }
            },
            BinOp::Sub => {
                if is_float {
                    g.arith(tmp, "fsub"@, ty, lc, rc)
                } else {
                    g.arith(tmp, "sub nsw"@, ty, lc, rc)
                }
            },
            BinOp::Mul => {
                if is_float {
                    g.arith(tmp, "fmul"@, ty, lc, rc)
                } else {
                    g.arith(tmp, "mul nsw"@, ty, lc, rc)
                }
            },
            BinOp::Div => {
                if is_float {
                    g.arith(tmp, "fdiv"@, ty, lc, rc)
                } else {
                    g.arith(tmp, "sdiv"@, ty, lc, rc)
                }
            },
            BinOp::Mod => {
                if is_float {
                    g.arith(tmp, "frem"@, ty, lc, rc)
                } else {
                    g.arith(tmp, "srem"@, ty, lc, rc)
                }
            },
            BinOp::Pow => {
                g.power(tmp, is_float, ty, lc, rc)
            },
            BinOp::BitAnd => {
                g.arith(tmp, "and"@, ty, lc, rc)
            },
            BinOp::BitOr => {
                g.arith(tmp, "or"@, ty, lc, rc)
            },
            BinOp::BitXor => {
                g.arith(tmp, "xor"@, ty, lc, rc)
            },
            BinOp::Shl => {
                g.arith(tmp, "shl"@, ty, lc, rc)
            },
            BinOp::Shr => {
                g.arith(tmp, "ashr"@, ty, lc, rc)
            },
            BinOp::Eq => {
                if is_float {
                    g.compare(tmp, "fcmp"@, "oeq"@, ty, lc, rc)
                } else {
                    g.compare(tmp, "icmp"@, "oeq"@, ty, lc, rc)
                }
            },
            BinOp::Ne => {
                if is_float {
                    g.compare(tmp, "fcmp"@, "one"@, ty, lc, rc)
                } else {
                    g.compare(tmp, "icmp"@, "one"@, ty, lc, rc)
                }
            },
            BinOp::Lt => {
                if is_float {
                    g.compare(tmp, "fcmp"@, "olt"@, ty, lc, rc)
                } else {
                    g.compare(tmp, "icmp"@, "slt"@, ty, lc, rc)
                }
            },
            BinOp::Gt => {
                if is_float {
                    g.compare(tmp, "fcmp"@, "ogt"@, ty, lc, rc)
                } else {
                    g.compare(tmp, "icmp"@, "sgt"@, ty, lc, rc)
                }
            },
            BinOp::Le => {
                if is_float {
                    g.compare(tmp, "fcmp"@, "ole"@, ty, lc, rc)
                } else {
                    g.compare(tmp, "icmp"@, "sle"@, ty, lc, rc)
                }
            },
            BinOp::Ge => {
                if is_float {
                    g.compare(tmp, "fcmp"@, "oge"@, ty, lc, rc)
                } else {
                    g.compare(tmp, "icmp"@, "sge"@, ty, lc, rc)
                }
            },
            BinOp::And => {
                g.logical(tmp, "and"@, ty, lc, rc)
            },
            BinOp::Or => {
                g.logical(tmp, "or"@, ty, lc, rc)
            },
            BinOp::Assign => {
                let g = g.e("store "@ + ty + " "@ + rc + ", ptr "@ + target);
                (g, (rc, ty))
            },
        }
    }

    /// Applies a binary operator: the narrower integer is widened, an integer beside a real number becomes one.
    pub open spec fn emit_binop(
        self,
        op: BinOp,
        lc: Text,
        lt: Text,
        rc: Text,
        rt: Text,
        target: Text,
    ) -> (Gen, (Text, Text)) {
        let g = self;
        let plain = !begins(lt, "%"@) && !begins(rt, "%"@);
        let reals = lt == "double"@ || rt == "double"@ || lt == "float"@ || rt == "float"@;
        let (g, lc, lt, rc, rt) = if lt != rt && plain && !reals && width(lt) < width(rt) {
            let (g, lc) = g.widen(lc, lt, rt);
            let lt = rt;
            (g, lc, lt, rc, rt)
        } else if lt != rt && plain && !reals && width(rt) < width(lt) {
            let (g, rc) = g.widen(rc, rt, lt);
            let rt = lt;
            (g, lc, lt, rc, rt)
        } else {
            (g, lc, lt, rc, rt)
        };
        let (g, lc, lt, rc, rt) = if lt == "double"@ && !begins(rt, "%"@) && rt != "double"@ && rt != "float"@ {
            let (g, rc) = g.int_to_real(rc, rt, "double"@);
            let rt = "double"@;
            (g, lc, lt, rc, rt)
        } else if rt == "double"@ && !begins(lt, "%"@) && lt != "double"@ && lt != "float"@ {
            let (g, lc) = g.int_to_real(lc, lt, "double"@);
            let lt = "double"@;
            (g, lc, lt, rc, rt)
        } else if lt == "float"@ && !begins(rt, "%"@) && rt != "double"@ && rt != "float"@ {
            let (g, rc) = g.int_to_real(rc, rt, "float"@);
            let rt = "float"@;
            (g, lc, lt, rc, rt)
        } else if rt == "float"@ && !begins(lt, "%"@) && lt != "double"@ && lt != "float"@ {
            let (g, lc) = g.int_to_real(lc, lt, "float"@);
            let lt = "float"@;
            (g, lc, lt, rc, rt)
        } else {
            (g, lc, lt, rc, rt)
        };
        let (g, tmp) = g.fresh_label();
        if lt == "%yk_complex"@ || rt == "%yk_complex"@ {
            g.complex_op(op, lc, lt, rc, rt, tmp)
        } else {
            g.plain_op(op, lc, lt, rc, tmp, target)
        }
    }

    /// Adds one to a variable, or takes one from it; the value is the one before.
    pub open spec fn step_var(
        self,
        ty: Text,
        target: Text,
        real_instr: Text,
        int_instr: Text,
    ) -> (Gen, (Text, Text)) {
        let g = self;
        let (g, orig) = g.fresh_label();
        let g = g.e("%"@ + orig + " = load "@ + ty + ", ptr "@ + target);
        let (g, new_val) = g.fresh_label();
        let g = if ty == "double"@ {
            let g = g.e("%"@ + new_val + " = "@ + real_instr + " double %"@ + orig + ", 1.0"@);
            g
        } else {
            let g = g.e(
                "%"@ + new_val + " = "@ + int_instr + " nsw "@ + ty + " %"@ + orig + ", 1"@
            );
            g
        };
        let g = g.e("store "@ + ty + " %"@ + new_val + ", ptr "@ + target);
        (g, ("%"@ + orig, ty))
    }

    /// Reads an element of a list, or of plain memory.
    pub open spec fn emit_index(self, o: Text, ot: Text, i: Text) -> (Gen, (Text, Text)) {
        let g = self;
        if ot == "ptr"@ {
            let (g, tmp) = g.fresh_label();
            let g = g.e("%"@ + tmp + " = call i64 @yk_list_get(ptr "@ + o + ", i64 "@ + i + ")"@);
            (g, ("%"@ + tmp, "i64"@))
        } else {
            let (g, tmp) = g.fresh_label();
            let g = g.e("%"@ + tmp + " = getelementptr inbounds i64, ptr "@ + o + ", i64 "@ + i);
            let (g, tmp2) = g.fresh_label();
            let g = g.e("%"@ + tmp2 + " = load i64, ptr %"@ + tmp);
            (g, ("%"@ + tmp2, "i64"@))
        }
    }

    /// A part of a complex number as a real number.
    pub open spec fn complex_part(self, val: Text, ty: Text) -> (Gen, Text) {
        let g = self;
        if ty == "i64"@ {
            let (g, p) = g.int_to_real(val, "i64"@, "double"@);
            (g, p)
        } else {
            (g, val)
        }
    }

    /// Fills a complex number from its two parts.
    pub open spec fn fill_complex(
        self,
        cptr: Text,
        rv: Text,
        rt: Text,
        iv: Text,
        it: Text,
    ) -> (Gen, (Text, Text)) {
        let g = self;
        let (g, re) = g.complex_part(rv, rt);
        let (g, im) = g.complex_part(iv, it);
        let g = g.e(
            "call void @yk_complex_set(ptr %"@ + cptr + ", double "@ + re + ", double "@ + im + ")"@
        );
        let (g, loaded) = g.fresh_label();
        let g = g.e("%"@ + loaded + " = load %yk_complex, ptr %"@ + cptr);
        (g, ("%"@ + loaded, "%yk_complex"@))
    }

    /// Unpacks a result: where it is bad and the function returns a result, the function returns it.
    pub open spec fn emit_try(self, rv: Text, rt: Text) -> (Gen, (Text, Text)) {
        let g = self;
        if rt == "%yk_result"@ {
            let (g, flag) = g.fresh_label();
            let g = g.e("%"@ + flag + " = extractvalue %yk_result "@ + rv + ", 1"@);
            let (g, is_err) = g.fresh_label();
            let g = g.e("%"@ + is_err + " = icmp eq i1 %"@ + flag + ", 0"@);
            let g = if g.fn_ret() == "%yk_result"@ {
                let (g, ret_bb) = g.fresh_label();
                let (g, cont_bb) = g.fresh_label();
                let g = g.e("br i1 %"@ + is_err + ", label %"@ + ret_bb + ", label %"@ + cont_bb);
                let g = g.e(ret_bb + ":"@);
                let g = g.e("ret %yk_result "@ + rv);
                let g = g.e(cont_bb + ":"@);
                g
            } else {
                g
            };
            let (g, val) = g.fresh_label();
            let g = g.e("%"@ + val + " = extractvalue %yk_result "@ + rv + ", 0"@);
            (g, ("%"@ + val, "i64"@))
        } else {
            (g, (rv, rt))
        }
    }

    /// An instruction that turns a value of one type into one of another.
    pub open spec fn convert(
        self,
        instr: Text,
        val: Text,
        ty: Text,
        target: Text,
    ) -> (Gen, (Text, Text)) {
        let g = self;
        let (g, r) = g.fresh_label();
        let g = g.e("%"@ + r + " = "@ + instr + " "@ + ty + " "@ + val + " to "@ + target);
        (g, ("%"@ + r, target))
    }

    /// A comparison of a number with zero.
    pub open spec fn compare_zero(
        self,
        instr: Text,
        ty: Text,
        val: Text,
        zero: Text,
    ) -> (Gen, (Text, Text)) {
        let g = self;
        let (g, r) = g.fresh_label();
        let g = g.e("%"@ + r + " = "@ + instr + " "@ + ty + " "@ + val + ", "@ + zero);
        (g, ("%"@ + r, "i1"@))
    }

    /// Converts a value to a type.
    pub open spec fn emit_cast(self, val: Text, ty: Text, target: Text) -> (Gen, (Text, Text)) {
        let g = self;
        let from_int = ty == "i64"@ || ty == "i32"@ || ty == "i16"@ || ty == "i8"@;
        let to_int = target == "i64"@ || target == "i32"@ || target == "i16"@ || target == "i8"@;
        if from_int && target == "double"@ {
            g.convert("sitofp"@, val, ty, "double"@)
        } else if ty == "double"@ && to_int {
            g.convert("fptosi"@, val, "double"@, target)
        } else if from_int && target == "i1"@ {
            g.compare_zero("icmp ne"@, ty, val, "0"@)
        } else if ty == "i1"@ && to_int {
            g.convert("zext"@, val, "i1"@, target)
        } else if ty == "double"@ && target == "i1"@ {
            g.compare_zero("fcmp one"@, "double"@, val, "0.0"@)
        } else if begins(ty, "i"@) && begins(target, "i"@) {
            if width(ty) < width(target) {
                g.convert("sext"@, val, ty, target)
            } else if width(ty) > width(target) {
                g.convert("trunc"@, val, ty, target)
            } else {
                (g, (val, target))
            }
        } else {
            (g, (val, target))
        }
    }
}

impl<'a> LlvmCodegen<'a> {
    pub(crate) fn emit_unop(&mut self, op: UnOp, i: &str, ty: &str) -> (r: (String, String))
        ensures
            (final(self)@, (r.0@, r.1@)) == old(self)@.emit_unop(op, i@, ty@),
    {
        let tmp = self.fresh_label();
        match op {
            UnOp::Neg => {
                if same(ty, "double") {
                    self.e(&cat4("%", &tmp, " = fsub double -0.0, ", i));
                } else {
                    self.e(&cat6("%", &tmp, " = sub ", ty, " 0, ", i));
                }
                (cat2("%", &tmp), owned(ty))
            },
            UnOp::Not => {
                if same(ty, "i1") {
                    self.e(&cat5("%", &tmp, " = xor i1 ", i, ", true"));
                } else {
                    self.e(&cat5("%", &tmp, " = icmp eq i64 ", i, ", 0"));
                }
                (cat2("%", &tmp), owned("i1"))
            },
            UnOp::BitNot => {
                self.e(&cat7("%", &tmp, " = xor ", ty, " ", i, ", -1"));
                (cat2("%", &tmp), owned(ty))
            },
        }
    }

    pub(crate) fn int_to_real(&mut self, val: &str, ty: &str, real_ty: &str) -> (r: String)
        ensures
            (final(self)@, r@) == old(self)@.int_to_real(val@, ty@, real_ty@),
    {
        let ext = self.fresh_label();
        self.e(&cat8("%", &ext, " = sitofp ", ty, " ", val, " to ", real_ty));
        cat2("%", &ext)
    }

    pub(crate) fn widen(&mut self, val: &str, ty: &str, wide: &str) -> (r: String)
        ensures
            (final(self)@, r@) == old(self)@.widen(val@, ty@, wide@),
    {
        let ext = self.fresh_label();
        self.e(&cat8("%", &ext, " = sext ", ty, " ", val, " to ", wide));
        cat2("%", &ext)
    }

    pub(crate) fn store_complex(&mut self, val: &str, ty: &str, place: &str)
        ensures
            final(self)@ == old(self)@.store_complex(val@, ty@, place@),
    {
        if same(ty, "%yk_complex") {
            self.e(&cat4("store %yk_complex ", val, ", ptr %", place));
        } else {
            let ca = self.fresh_label();
            self.e(&cat7("%", &ca, " = sitofp ", ty, " ", val, " to double"));
            self.e(
                &cat5("call void @yk_complex_set(ptr %", place, ", double %", &ca, ", double 0.0)")
            );
        }
    }

    pub(crate) fn complex_op(
        &mut self,
        op: BinOp,
        lc: &str,
        lt: &str,
        rc: &str,
        rt: &str,
        tmp: &str,
    ) -> (r: (String, String))
        ensures
            (final(self)@, (r.0@, r.1@)) == old(self)@.complex_op(op, lc@, lt@, rc@, rt@, tmp@),
    {
        let func = match op {
            BinOp::Add => {
                let func = owned("yk_complex_add");
                func
            },
            BinOp::Sub => {
                let func = owned("yk_complex_sub");
                func
            },
            BinOp::Mul => {
                let func = owned("yk_complex_mul");
                func
            },
            BinOp::Div => {
                let func = owned("yk_complex_div");
                func
            },
            _ => {
                let func = owned("yk_complex_add");
                func
            },
        };
        let la = self.fresh_label();
        let ra = self.fresh_label();
        self.e(&cat3("%", &la, " = alloca %yk_complex, align 8"));
        self.e(&cat3("%", &ra, " = alloca %yk_complex, align 8"));
        self.store_complex(lc, lt, &la);
        self.store_complex(rc, rt, &ra);
        self.e(&cat3("%", tmp, " = alloca %yk_complex, align 8"));
        self.e(&cat9("call void @", &func, "(ptr %", tmp, ", ptr %", &la, ", ptr %", &ra, ")"));
        let loaded = self.fresh_label();
        self.e(&cat4("%", &loaded, " = load %yk_complex, ptr %", tmp));
        (cat2("%", &loaded), owned("%yk_complex"))
    }

    pub(crate) fn concat_strings(&mut self, lc: &str, rc: &str, tmp: &str) -> (r: (String, String))
        ensures
            (final(self)@, (r.0@, r.1@)) == old(self)@.concat_strings(lc@, rc@, tmp@),
    {
        let ptr_a = self.string_to_ptr(lc);
        let ptr_b = self.string_to_ptr(rc);
        self.e(
            &cat7("%", tmp, " = call ptr @yk_string_concat_ptr(ptr ", &ptr_a, ", ptr ", &ptr_b, ")")
        );
        self.load_string(&cat2("%", tmp))
    }

    pub(crate) fn arith(
        &mut self,
        tmp: &str,
        instr: &str,
        ty: &str,
        lc: &str,
        rc: &str,
    ) -> (r: (String, String))
        ensures
            (final(self)@, (r.0@, r.1@)) == old(self)@.arith(tmp@, instr@, ty@, lc@, rc@),
    {
        self.e(&cat10("%", tmp, " = ", instr, " ", ty, " ", lc, ", ", rc));
        (cat2("%", tmp), owned(ty))
    }

    pub(crate) fn compare(
        &mut self,
        tmp: &str,
        instr: &str,
        cond: &str,
        ty: &str,
        lc: &str,
        rc: &str,
    ) -> (r: (String, String))
        ensures
            (final(self)@, (r.0@, r.1@)) == old(self)@.compare(tmp@, instr@, cond@, ty@, lc@, rc@),
    {
        self.e(&cat12("%", tmp, " = ", instr, " ", cond, " ", ty, " ", lc, ", ", rc));
        (cat2("%", tmp), owned("i1"))
    }

    pub(crate) fn logical(
        &mut self,
        tmp: &str,
        instr: &str,
        ty: &str,
        lc: &str,
        rc: &str,
    ) -> (r: (String, String))
        ensures
            (final(self)@, (r.0@, r.1@)) == old(self)@.logical(tmp@, instr@, ty@, lc@, rc@),
    {
        let z1 = self.fresh_label();
        let z2 = self.fresh_label();
        self.e(&cat7("%", &z1, " = icmp ne ", ty, " ", lc, ", 0"));
        self.e(&cat7("%", &z2, " = icmp ne ", ty, " ", rc, ", 0"));
        self.e(&cat8("%", tmp, " = ", instr, " i1 %", &z1, ", %", &z2));
        (cat2("%", tmp), owned("i1"))
    }

    pub(crate) fn power(
        &mut self,
        tmp: &str,
        is_float: bool,
        ty: &str,
        lc: &str,
        rc: &str,
    ) -> (r: (String, String))
        ensures
            (final(self)@, (r.0@, r.1@)) == old(self)@.power(tmp@, is_float, ty@, lc@, rc@),
    {
        if is_float {
            self.e(
                &cat7("%", tmp, " = call double @yk_pow_real(double ", lc, ", double ", rc, ")")
            );
        } else {
            self.e(&cat7("%", tmp, " = call i64 @yk_pow_int(i64 ", lc, ", i64 ", rc, ")"));
        }
        (cat2("%", tmp), owned(ty))
    }

    pub(crate) fn plain_op(
        &mut self,
        op: BinOp,
        lc: &str,
        ty: &str,
        rc: &str,
        tmp: &str,
        target: &str,
    ) -> (r: (String, String))
        ensures
            (final(self)@, (r.0@, r.1@)) == old(self)@.plain_op(op, lc@, ty@, rc@, tmp@, target@),
    {
        let is_float = same(ty, "double");
        match op {
            BinOp::Add => {
                if same(ty, "%yk_string") {
                    self.concat_strings(lc, rc, tmp)
                } else if is_float {
                    self.arith(tmp, "fadd", ty, lc, rc)
                } else {
                    self.arith(tmp, "add nsw", ty, lc, rc)
                }
            },
            BinOp::Sub => {
                if is_float {
                    self.arith(tmp, "fsub", ty, lc, rc)
                } else {
                    self.arith(tmp, "sub nsw", ty, lc, rc)
                }
            },
            BinOp::Mul => {
                if is_float {
                    self.arith(tmp, "fmul", ty, lc, rc)
                } else {
                    self.arith(tmp, "mul nsw", ty, lc, rc)
                }
            },
            BinOp::Div => {
                if is_float {
                    self.arith(tmp, "fdiv", ty, lc, rc)
                } else {
                    self.arith(tmp, "sdiv", ty, lc, rc)
                }
            },
            BinOp::Mod => {
                if is_float {
                    self.arith(tmp, "frem", ty, lc, rc)
                } else {
                    self.arith(tmp, "srem", ty, lc, rc)
                }
            },
            BinOp::Pow => {
                self.power(tmp, is_float, ty, lc, rc)
            },
            BinOp::BitAnd => {
                self.arith(tmp, "and", ty, lc, rc)
            },
            BinOp::BitOr => {
                self.arith(tmp, "or", ty, lc, rc)
            },
            BinOp::BitXor => {
                self.arith(tmp, "xor", ty, lc, rc)
            },
            BinOp::Shl => {
                self.arith(tmp, "shl", ty, lc, rc)
            },
            BinOp::Shr => {
                self.arith(tmp, "ashr", ty, lc, rc)
            },
            BinOp::Eq => {
                if is_float {
                    self.compare(tmp, "fcmp", "oeq", ty, lc, rc)
                } else {
                    self.compare(tmp, "icmp", "oeq", ty, lc, rc)
                }
            },
            BinOp::Ne => {
                if is_float {
                    self.compare(tmp, "fcmp", "one", ty, lc, rc)
                } else {
                    self.compare(tmp, "icmp", "one", ty, lc, rc)
                }
            },
            BinOp::Lt => {
                if is_float {
                    self.compare(tmp, "fcmp", "olt", ty, lc, rc)
                } else {
                    self.compare(tmp, "icmp", "slt", ty, lc, rc)
                }
            },
            BinOp::Gt => {
                if is_float {
                    self.compare(tmp, "fcmp", "ogt", ty, lc, rc)
                } else {
                    self.compare(tmp, "icmp", "sgt", ty, lc, rc)
                }
            },
            BinOp::Le => {
                if is_float {
                    self.compare(tmp, "fcmp", "ole", ty, lc, rc)
                } else {
                    self.compare(tmp, "icmp", "sle", ty, lc, rc)
                }
            },
            BinOp::Ge => {
                if is_float {
                    self.compare(tmp, "fcmp", "oge", ty, lc, rc)
                } else {
                    self.compare(tmp, "icmp", "sge", ty, lc, rc)
                }
            },
            BinOp::And => {
                self.logical(tmp, "and", ty, lc, rc)
            },
            BinOp::Or => {
                self.logical(tmp, "or", ty, lc, rc)
            },
            BinOp::Assign => {
                self.e(&cat6("store ", ty, " ", rc, ", ptr ", target));
                (owned(rc), owned(ty))
            },
        }
    }

    pub(crate) fn emit_binop(
        &mut self,
        op: BinOp,
        lc: &str,
        lt: &str,
        rc: &str,
        rt: &str,
        target: &str,
    ) -> (r: (String, String))
        ensures
            (final(self)@, (r.0@, r.1@)) == old(self)@.emit_binop(op, lc@, lt@, rc@, rt@, target@),
    {
        let plain = !starts_with(lt, "%") && !starts_with(rt, "%");
        let reals = same(
            lt, "double") || same(rt, "double") || same(lt, "float") || same(rt, "float"
        );
        let (lc, lt, rc, rt) = if !same(lt, rt) && plain && !reals && int_width(lt) < int_width(rt) {
            let lc = self.widen(lc, lt, rt);
            let lt = owned(rt);
            (lc, lt, owned(rc), owned(rt))
        } else if !same(lt, rt) && plain && !reals && int_width(rt) < int_width(lt) {
            let rc = self.widen(rc, rt, lt);
            let rt = owned(lt);
            (owned(lc), owned(lt), rc, rt)
        } else {
            (owned(lc), owned(lt), owned(rc), owned(rt))
        };
        let (lc, lt, rc, rt) = if same(&lt, "double") && !starts_with(&rt, "%") && !same(&rt, "double") && !same(&rt,
            "float") {
            let rc = self.int_to_real(&rc, &rt, "double");
            let rt = owned("double");
            (lc, lt, rc, rt)
        } else if same(&rt, "double") && !starts_with(&lt, "%") && !same(&lt, "double") && !same(&lt,
            "float") {
            let lc = self.int_to_real(&lc, &lt, "double");
            let lt = owned("double");
            (lc, lt, rc, rt)
        } else if same(&lt, "float") && !starts_with(&rt, "%") && !same(&rt, "double") && !same(&rt,
            "float") {
            let rc = self.int_to_real(&rc, &rt, "float");
            let rt = owned("float");
            (lc, lt, rc, rt)
        } else if same(&rt, "float") && !starts_with(&lt, "%") && !same(&lt, "double") && !same(&lt,
            "float") {
            let lc = self.int_to_real(&lc, &lt, "float");
            let lt = owned("float");
            (lc, lt, rc, rt)
        } else {
            (lc, lt, rc, rt)
        };
        let tmp = self.fresh_label();
        if same(&lt, "%yk_complex") || same(&rt, "%yk_complex") {
            self.complex_op(op, &lc, &lt, &rc, &rt, &tmp)
        } else {
            self.plain_op(op, &lc, &lt, &rc, &tmp, target)
        }
    }

    pub(crate) fn step_var(
        &mut self,
        ty: &str,
        target: &str,
        real_instr: &str,
        int_instr: &str,
    ) -> (r: (String, String))
        ensures
            (final(self)@, (r.0@, r.1@)) == old(self)@.step_var(ty@, target@, real_instr@,
                int_instr@),
    {
        let orig = self.fresh_label();
        self.e(&cat6("%", &orig, " = load ", ty, ", ptr ", target));
        let new_val = self.fresh_label();
        if same(ty, "double") {
            self.e(&cat7("%", &new_val, " = ", real_instr, " double %", &orig, ", 1.0"));
        } else {
            self.e(&cat9("%", &new_val, " = ", int_instr, " nsw ", ty, " %", &orig, ", 1"));
        }
        self.e(&cat6("store ", ty, " %", &new_val, ", ptr ", target));
        (cat2("%", &orig), owned(ty))
    }

    pub(crate) fn emit_index(&mut self, o: &str, ot: &str, i: &str) -> (r: (String, String))
        ensures
            (final(self)@, (r.0@, r.1@)) == old(self)@.emit_index(o@, ot@, i@),
    {
        if same(ot, "ptr") {
            let tmp = self.fresh_label();
            self.e(&cat7("%", &tmp, " = call i64 @yk_list_get(ptr ", o, ", i64 ", i, ")"));
            (cat2("%", &tmp), owned("i64"))
        } else {
            let tmp = self.fresh_label();
            self.e(&cat6("%", &tmp, " = getelementptr inbounds i64, ptr ", o, ", i64 ", i));
            let tmp2 = self.fresh_label();
            self.e(&cat4("%", &tmp2, " = load i64, ptr %", &tmp));
            (cat2("%", &tmp2), owned("i64"))
        }
    }

    pub(crate) fn complex_part(&mut self, val: &str, ty: &str) -> (r: String)
        ensures
            (final(self)@, r@) == old(self)@.complex_part(val@, ty@),
    {
        if same(ty, "i64") {
            let p = self.int_to_real(val, "i64", "double");
            p
        } else {
            owned(val)
        }
    }

    pub(crate) fn fill_complex(
        &mut self,
        cptr: &str,
        rv: &str,
        rt: &str,
        iv: &str,
        it: &str,
    ) -> (r: (String, String))
        ensures
            (final(self)@, (r.0@, r.1@)) == old(self)@.fill_complex(cptr@, rv@, rt@, iv@, it@),
    {
        let re = self.complex_part(rv, rt);
        let im = self.complex_part(iv, it);
        self.e(
            &cat7("call void @yk_complex_set(ptr %", cptr, ", double ", &re, ", double ", &im, ")")
        );
        let loaded = self.fresh_label();
        self.e(&cat4("%", &loaded, " = load %yk_complex, ptr %", cptr));
        (cat2("%", &loaded), owned("%yk_complex"))
    }

    pub(crate) fn emit_try(&mut self, rv: &str, rt: &str) -> (r: (String, String))
        ensures
            (final(self)@, (r.0@, r.1@)) == old(self)@.emit_try(rv@, rt@),
    {
        if same(rt, "%yk_result") {
            let flag = self.fresh_label();
            self.e(&cat5("%", &flag, " = extractvalue %yk_result ", rv, ", 1"));
            let is_err = self.fresh_label();
            self.e(&cat5("%", &is_err, " = icmp eq i1 %", &flag, ", 0"));
            if same(&self.fn_ret(), "%yk_result") {
                let ret_bb = self.fresh_label();
                let cont_bb = self.fresh_label();
                self.e(&cat6("br i1 %", &is_err, ", label %", &ret_bb, ", label %", &cont_bb));
                self.e(&cat2(&ret_bb, ":"));
                self.e(&cat2("ret %yk_result ", rv));
                self.e(&cat2(&cont_bb, ":"));
            }
            let val = self.fresh_label();
            self.e(&cat5("%", &val, " = extractvalue %yk_result ", rv, ", 0"));
            (cat2("%", &val), owned("i64"))
        } else {
            (owned(rv), owned(rt))
        }
    }

    pub(crate) fn convert(
        &mut self,
        instr: &str,
        val: &str,
        ty: &str,
        target: &str,
    ) -> (r: (String, String))
        ensures
            (final(self)@, (r.0@, r.1@)) == old(self)@.convert(instr@, val@, ty@, target@),
    {
        let r = self.fresh_label();
        self.e(&cat10("%", &r, " = ", instr, " ", ty, " ", val, " to ", target));
        (cat2("%", &r), owned(target))
    }

    pub(crate) fn compare_zero(
        &mut self,
        instr: &str,
        ty: &str,
        val: &str,
        zero: &str,
    ) -> (r: (String, String))
        ensures
            (final(self)@, (r.0@, r.1@)) == old(self)@.compare_zero(instr@, ty@, val@, zero@),
    {
        let r = self.fresh_label();
        self.e(&cat10("%", &r, " = ", instr, " ", ty, " ", val, ", ", zero));
        (cat2("%", &r), owned("i1"))
    }

    pub(crate) fn emit_cast(&mut self, val: &str, ty: &str, target: &str) -> (r: (String, String))
        ensures
            (final(self)@, (r.0@, r.1@)) == old(self)@.emit_cast(val@, ty@, target@),
    {
        let from_int = same(ty, "i64") || same(ty, "i32") || same(ty, "i16") || same(ty, "i8");
        let to_int = same(
            target, "i64") || same(target, "i32") || same(target, "i16") || same(target, "i8"
        );
        if from_int && same(target, "double") {
            self.convert("sitofp", val, ty, "double")
        } else if same(ty, "double") && to_int {
            self.convert("fptosi", val, "double", target)
        } else if from_int && same(target, "i1") {
            self.compare_zero("icmp ne", ty, val, "0")
        } else if same(ty, "i1") && to_int {
            self.convert("zext", val, "i1", target)
        } else if same(ty, "double") && same(target, "i1") {
            self.compare_zero("fcmp one", "double", val, "0.0")
        } else if starts_with(ty, "i") && starts_with(target, "i") {
            if int_width(ty) < int_width(target) {
                self.convert("sext", val, ty, target)
            } else if int_width(ty) > int_width(target) {
                self.convert("trunc", val, ty, target)
            } else {
                (owned(val), owned(target))
            }
        } else {
            (owned(val), owned(target))
        }
    }
}

} // verus!
