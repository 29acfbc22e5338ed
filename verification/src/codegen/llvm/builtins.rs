//! The functions that the runtime implements.

use vstd::prelude::*;

use crate::codegen::llvm::names::{
    arg, arg_at, arg_value, arg_value_or, call_arg_types, call_args, call_arguments, call_types,
};
use crate::codegen::llvm::state::{Gen, LlvmCodegen};
use crate::table::pairs;
use crate::text::{cat2, cat3, cat4, cat5, cat7, cat9, owned, same, Text};

verus! {

/// The modules that the runtime implements.
pub open spec fn runtime_module(name: Text) -> bool {
    name == "math"@ || name == "time"@ || name == "sys"@ || name == "path"@ || name == "fs"@
        || name == "io"@ || name == "base64"@ || name == "json"@ || name == "re"@
        || name == "regex"@ || name == "datetime"@
}

pub(crate) fn is_runtime_module(name: &str) -> (r: bool)
    ensures
        r == runtime_module(name@),
{
    same(name, "math") || same(name, "time") || same(name, "sys") || same(name, "path")
        || same(name, "fs") || same(name, "io") || same(name, "base64") || same(name, "json")
        || same(name, "re") || same(name, "regex") || same(name, "datetime")
}

impl Gen {
    /// The length of a string or of a list.
    pub open spec fn builtin_len(self, args: Seq<(Text, Text)>) -> (Gen, (Text, Text)) {
        let g = self;
        if let Some((av, at)) = arg(args, 0) {
            if at == "%yk_string"@ {
                let (g, p) = g.string_to_ptr(av);
                g.call_int("yk_string_len_ptr(ptr "@ + p + ")"@)
            } else if at == "ptr"@ {
                g.call_int("yk_list_len(ptr "@ + av + ")"@)
            } else {
                (g, ("0"@, "i64"@))
            }
        } else {
            (g, ("0"@, "i64"@))
        }
    }

    /// The text of the first argument.
    pub open spec fn builtin_str(self, args: Seq<(Text, Text)>) -> (Gen, (Text, Text)) {
        let g = self;
        if let Some((av, at)) = arg(args, 0) {
            g.value_text(av, at)
        } else {
            (g, ("0"@, "%yk_string"@))
        }
    }

    /// The absolute value of an integer or of a real number.
    pub open spec fn builtin_abs(self, args: Seq<(Text, Text)>) -> (Gen, (Text, Text)) {
        let g = self;
        let (g, tmp) = g.fresh_label();
        if let Some((av, at)) = arg(args, 0) {
            if at == "i64"@ {
                let g = g.e("%"@ + tmp + " = call i64 @yk_math_abs_i64(i64 "@ + av + ")"@);
                (g, ("%"@ + tmp, "i64"@))
            } else {
                let g = g.e("%"@ + tmp + " = call double @yk_math_abs_real(double "@ + av + ")"@);
                (g, ("%"@ + tmp, "double"@))
            }
        } else {
            (g, ("0"@, "i64"@))
        }
    }

    /// A function of one real number.
    pub open spec fn real_function(
        self,
        tmp: Text,
        name: Text,
        args: Seq<(Text, Text)>,
    ) -> (Gen, (Text, Text)) {
        let g = self;
        let g = if let Some((av, at)) = arg(args, 0) {
            let g = g.e("%"@ + tmp + " = call double @yk_math_"@ + name + "(double "@ + av + ")"@);
            g
        } else {
            g
        };
        (g, ("%"@ + tmp, "double"@))
    }

    /// A function of two real numbers.
    pub open spec fn real_function2(
        self,
        tmp: Text,
        name: Text,
        args: Seq<(Text, Text)>,
    ) -> (Gen, (Text, Text)) {
        let g = self;
        let av1 = arg_value(args, 0, ""@);
        let av2 = arg_value(args, 1, ""@);
        let g = g.e(
            "%"@ + tmp + " = call double @yk_math_"@ + name + "(double "@ + av1 + ", double "@ + av2
                + ")"@
        );
        (g, ("%"@ + tmp, "double"@))
    }

    /// A random integer.
    pub open spec fn random_int(self, tmp: Text, args: Seq<(Text, Text)>) -> (Gen, (Text, Text)) {
        let g = self;
        let max = arg_value(args, 0, "2147483647"@);
        let g = g.e("%"@ + tmp + " = call i64 @yk_math_rand(i64 "@ + max + ")"@);
        (g, ("%"@ + tmp, "i64"@))
    }

    /// A pause.
    pub open spec fn pause(self, args: Seq<(Text, Text)>) -> (Gen, (Text, Text)) {
        let g = self;
        let g = if let Some((av, at)) = arg(args, 0) {
            let g = g.e("call void @yk_time_sleep(i64 "@ + av + ")"@);
            g
        } else {
            g
        };
        (g, ("0"@, "void"@))
    }

    /// The address of the string at a position; null where there is no argument.
    pub open spec fn string_arg(self, args: Seq<(Text, Text)>, i: nat) -> (Gen, Text) {
        let g = self;
        if let Some((av, at)) = arg(args, i) {
            let (g, p) = g.string_to_ptr(av);
            (g, p)
        } else {
            (g, "null"@)
        }
    }

    /// An HTTP request in one call: address, method, body.
    pub open spec fn builtin_fetch(self, args: Seq<(Text, Text)>) -> (Gen, (Text, Text)) {
        let g = self;
        let url = arg_value(args, 0, "0"@);
        let (g, url_ptr) = if url != "0"@ {
            let (g, url_ptr) = g.string_to_ptr(url);
            (g, url_ptr)
        } else {
            let url_ptr = "null"@;
            (g, url_ptr)
        };
        let (g, method_ptr) = g.string_arg(args, 1);
        let (g, body_ptr) = g.string_arg(args, 2);
        g.call_string("yk_fetch(ptr "@ + url_ptr + ", ptr "@ + method_ptr + ", ptr "@ + body_ptr
            + ")"@)
    }

    /// Looks a host name up.
    pub open spec fn builtin_lookup(self, args: Seq<(Text, Text)>) -> (Gen, (Text, Text)) {
        let g = self;
        let (g, host_ptr) = g.arg_ptr(args, 0);
        g.call_string("yk_dns_lookup(ptr "@ + host_ptr + ")"@)
    }

    /// Opens a connection, a socket or a listener at an address.
    pub open spec fn open_at(self, func: Text, args: Seq<(Text, Text)>) -> (Gen, (Text, Text)) {
        let g = self;
        let (g, addr_ptr) = g.arg_ptr(args, 0);
        g.call_int(func + "(ptr "@ + addr_ptr + ")"@)
    }

    /// `math.f(..)`.
    pub open spec fn call_math(self, func: Text, args: Seq<(Text, Text)>) -> (Gen, (Text, Text)) {
        let g = self;
        let (g, tmp) = g.fresh_label();
        if func == "abs"@ {
            let g = if let Some((av, at)) = arg(args, 0) {
                let g = if at == "i64"@ {
                    let g = g.e("%"@ + tmp + " = call i64 @yk_math_abs_i64(i64 "@ + av + ")"@);
                    g
                } else {
                    let g = g.e(
                        "%"@ + tmp + " = call double @yk_math_abs_real(double "@ + av + ")"@
                    );
                    g
                };
                g
            } else {
                g
            };
            (g, ("%"@ + tmp, "double"@))
        } else if func == "sqrt"@ || func == "sin"@ || func == "cos"@ || func == "floor"@
            || func == "ceil"@ || func == "round"@ {
            g.real_function(tmp, func, args)
        } else if func == "pow"@ || func == "max"@ || func == "min"@ {
            g.real_function2(tmp, func, args)
        } else if func == "rand"@ {
            g.random_int(tmp, args)
        } else {
            (g, ("0"@, "i64"@))
        }
    }

    /// `time.f(..)`.
    pub open spec fn call_time(self, func: Text, args: Seq<(Text, Text)>) -> (Gen, (Text, Text)) {
        let g = self;
        if func == "now"@ {
            g.call_string("yk_time_now()"@)
        } else if func == "sleep"@ {
            g.pause(args)
        } else if func == "timestamp"@ {
            g.call_int("yk_time_timestamp()"@)
        } else {
            (g, ("0"@, "i64"@))
        }
    }

    /// `sys.f(..)`.
    pub open spec fn call_sys(self, func: Text, args: Seq<(Text, Text)>) -> (Gen, (Text, Text)) {
        let g = self;
        if func == "pid"@ {
            g.call_int("yk_sys_pid()"@)
        } else if func == "exit"@ {
            let g = if let Some((av, at)) = arg(args, 0) {
                let g = g.e("call void @yk_sys_exit(i64 "@ + av + ")"@);
                g
            } else {
                g
            };
            (g, ("0"@, "void"@))
        } else if func == "cwd"@ {
            g.call_string("yk_sys_cwd()"@)
        } else if func == "platform"@ {
            g.call_string("yk_sys_platform()"@)
        } else if func == "env"@ {
            if let Some((av, at)) = arg(args, 0) {
                let (g, ptr_tmp) = g.fresh_label();
                let (g, p) = g.string_to_ptr(av);
                let g = g.e("%"@ + ptr_tmp + " = call ptr @yk_sys_env(ptr "@ + p + ")"@);
                g.load_string("%"@ + ptr_tmp)
            } else {
                (g, ("0"@, "%yk_string"@))
            }
        } else {
            (g, ("0"@, "i64"@))
        }
    }

    /// Calls a runtime function from a string to a string.
    pub open spec fn string_function(
        self,
        func: Text,
        args: Seq<(Text, Text)>,
    ) -> (Gen, (Text, Text)) {
        let g = self;
        if let Some((av, at)) = arg(args, 0) {
            let (g, p) = g.string_to_ptr(av);
            g.call_string(func + "(ptr "@ + p + ")"@)
        } else {
            (g, ("0"@, "%yk_string"@))
        }
    }

    /// Calls a runtime function that answers a question about a string.
    pub open spec fn string_question(
        self,
        func: Text,
        args: Seq<(Text, Text)>,
    ) -> (Gen, (Text, Text)) {
        let g = self;
        if let Some((av, at)) = arg(args, 0) {
            let (g, p) = g.string_to_ptr(av);
            g.call_flag(func + "(ptr "@ + p + ")"@)
        } else {
            (g, ("0"@, "i1"@))
        }
    }

    /// `path.f(..)`.
    pub open spec fn call_path(self, func: Text, args: Seq<(Text, Text)>) -> (Gen, (Text, Text)) {
        let g = self;
        if func == "join"@ {
            if let Some((av2, at2)) = arg(args, 1) {
                let (g, p1) = g.string_to_ptr(arg_value(args, 0, ""@));
                let (g, p2) = g.string_to_ptr(av2);
                g.call_string("yk_path_join(ptr "@ + p1 + ", ptr "@ + p2 + ")"@)
            } else {
                (g, ("0"@, "%yk_string"@))
            }
        } else if func == "dirname"@ || func == "basename"@ || func == "extension"@ {
            g.string_function("yk_path_"@ + func, args)
        } else if func == "is_absolute"@ {
            g.string_question("yk_path_is_absolute"@, args)
        } else {
            (g, ("0"@, "i64"@))
        }
    }

    /// `fs.f(..)`.
    pub open spec fn call_fs(self, func: Text, args: Seq<(Text, Text)>) -> (Gen, (Text, Text)) {
        let g = self;
        if func == "read"@ {
            g.string_function("yk_fs_read"@, args)
        } else if func == "write"@ || func == "append"@ {
            let g = if let Some((c, ct)) = arg(args, 1) {
                let (g, pp) = g.string_to_ptr(arg_value(args, 0, ""@));
                let (g, pc) = g.string_to_ptr(c);
                let g = g.e("call void @yk_fs_"@ + func + "(ptr "@ + pp + ", ptr "@ + pc + ")"@);
                g
            } else {
                g
            };
            (g, ("0"@, "void"@))
        } else if func == "remove"@ {
            let g = if let Some((av, at)) = arg(args, 0) {
                let (g, p) = g.string_to_ptr(av);
                let g = g.e("call void @yk_fs_remove(ptr "@ + p + ")"@);
                g
            } else {
                g
            };
            (g, ("0"@, "void"@))
        } else if func == "exists"@ || func == "is_dir"@ || func == "is_file"@ {
            g.string_question("yk_fs_"@ + func, args)
        } else {
            (g, ("0"@, "i64"@))
        }
    }

    /// `base64.f(..)`.
    pub open spec fn call_base64(self, func: Text, args: Seq<(Text, Text)>) -> (Gen, (Text, Text)) {
        let g = self;
        if func == "encode"@ || func == "decode"@ {
            g.string_function("yk_base64_"@ + func, args)
        } else {
            (g, ("0"@, "i64"@))
        }
    }

    /// `json.f(..)`.
    pub open spec fn call_json(self, func: Text, args: Seq<(Text, Text)>) -> (Gen, (Text, Text)) {
        let g = self;
        if func == "stringify"@ {
            if let Some((av, at)) = arg(args, 0) {
                if at == "double"@ {
                    g.call_string("yk_string_from_real(double "@ + av + ")"@)
                } else if at == "i1"@ {
                    g.call_string("yk_string_from_bool(i1 "@ + av + ")"@)
                } else if at == "%yk_string"@ {
                    g.string_function("yk_json_string"@, args)
                } else {
                    g.call_string("yk_string_from_int(i64 "@ + av + ")"@)
                }
            } else {
                (g, ("0"@, "%yk_string"@))
            }
        } else {
            (g, ("0"@, "i64"@))
        }
    }

    /// `re.f(..)`.
    pub open spec fn call_re(self, func: Text, args: Seq<(Text, Text)>) -> (Gen, (Text, Text)) {
        let g = self;
        if func == "match"@ {
            if let Some((t, tt)) = arg(args, 1) {
                let (g, pp) = g.string_to_ptr(arg_value(args, 0, ""@));
                let (g, pt) = g.string_to_ptr(t);
                g.call_flag("yk_re_match(ptr "@ + pp + ", ptr "@ + pt + ")"@)
            } else {
                (g, ("0"@, "i1"@))
            }
        } else if func == "replace"@ {
            if let Some((r, rt)) = arg(args, 2) {
                let (g, pp) = g.string_to_ptr(arg_value(args, 0, ""@));
                let (g, pt) = g.string_to_ptr(arg_value(args, 1, ""@));
                let (g, pr) = g.string_to_ptr(r);
                g.call_string("yk_re_replace(ptr "@ + pp + ", ptr "@ + pt + ", ptr "@ + pr + ")"@)
            } else {
                (g, ("0"@, "%yk_string"@))
            }
        } else {
            (g, ("0"@, "i64"@))
        }
    }

    /// `datetime.f(..)`.
    pub open spec fn call_datetime(
        self,
        func: Text,
        args: Seq<(Text, Text)>,
    ) -> (Gen, (Text, Text)) {
        let g = self;
        if func == "now"@ {
            g.call_string("yk_datetime_now()"@)
        } else if func == "utc"@ {
            g.call_string("yk_datetime_utc()"@)
        } else if func == "timestamp"@ {
            g.call_int("yk_time_timestamp()"@)
        } else if func == "year"@ || func == "month"@ || func == "day"@ || func == "hour"@
            || func == "minute"@ || func == "second"@ {
            let (g, tmp) = g.fresh_label();
            let g = if let Some((av, at)) = arg(args, 0) {
                let g = g.e(
                    "%"@ + tmp + " = call i64 @yk_datetime_"@ + func + "(i64 "@ + av + ")"@
                );
                g
            } else {
                g
            };
            (g, ("%"@ + tmp, "i64"@))
        } else if func == "format"@ {
            if let Some((fmt, ft)) = arg(args, 1) {
                let (g, fmt_p) = g.string_to_ptr(fmt);
                let ts = arg_value(args, 0, ""@);
                g.call_string("yk_datetime_format(i64 "@ + ts + ", ptr "@ + fmt_p + ")"@)
            } else {
                (g, ("0"@, "%yk_string"@))
            }
        } else {
            (g, ("0"@, "i64"@))
        }
    }

    /// A call of a foreign function, which is declared where it is called first.
    pub open spec fn call_ffi(
        self,
        mod_name: Text,
        func: Text,
        args: Seq<(Text, Text)>,
    ) -> (Gen, (Text, Text)) {
        let g = self;
        let mangled = "yk_"@ + mod_name + "_"@ + func;
        let types = call_types(args);
        let g = if !g.has_ffi_decl(mangled) {
            let g = g.add_ffi_decl(mangled);
            let g = g.e_raw("declare i64 @"@ + mangled + "("@ + types + ")"@);
            g
        } else {
            g
        };
        let list = call_args(args);
        g.call_int(mangled + "("@ + list + ")"@)
    }

    /// A call of a function of a module that the runtime implements.
    pub open spec fn call_runtime_module(
        self,
        mod_name: Text,
        func: Text,
        args: Seq<(Text, Text)>,
    ) -> (Gen, (Text, Text)) {
        let g = self;
        if mod_name == "math"@ {
            g.call_math(func, args)
        } else if mod_name == "time"@ {
            g.call_time(func, args)
        } else if mod_name == "sys"@ {
            g.call_sys(func, args)
        } else if mod_name == "path"@ {
            g.call_path(func, args)
        } else if mod_name == "fs"@ || mod_name == "io"@ {
            g.call_fs(func, args)
        } else if mod_name == "base64"@ {
            g.call_base64(func, args)
        } else if mod_name == "json"@ {
            g.call_json(func, args)
        } else if mod_name == "re"@ || mod_name == "regex"@ {
            g.call_re(func, args)
        } else {
            g.call_datetime(func, args)
        }
    }
}

impl<'a> LlvmCodegen<'a> {
    pub(crate) fn builtin_len(&mut self, args: &Vec<(String, String)>) -> (r: (String, String))
        ensures
            (final(self)@, (r.0@, r.1@)) == old(self)@.builtin_len(pairs(args@)),
    {
        if let Some((av, at)) = arg_at(args, 0) {
            if same(at, "%yk_string") {
                let p = self.string_to_ptr(av);
                self.call_int(&cat3("yk_string_len_ptr(ptr ", &p, ")"))
            } else if same(at, "ptr") {
                self.call_int(&cat3("yk_list_len(ptr ", av, ")"))
            } else {
                (owned("0"), owned("i64"))
            }
        } else {
            (owned("0"), owned("i64"))
        }
    }

    pub(crate) fn builtin_str(&mut self, args: &Vec<(String, String)>) -> (r: (String, String))
        ensures
            (final(self)@, (r.0@, r.1@)) == old(self)@.builtin_str(pairs(args@)),
    {
        if let Some((av, at)) = arg_at(args, 0) {
            self.value_text(av, at)
        } else {
            (owned("0"), owned("%yk_string"))
        }
    }

    pub(crate) fn builtin_abs(&mut self, args: &Vec<(String, String)>) -> (r: (String, String))
        ensures
            (final(self)@, (r.0@, r.1@)) == old(self)@.builtin_abs(pairs(args@)),
    {
        let tmp = self.fresh_label();
        if let Some((av, at)) = arg_at(args, 0) {
            if same(at, "i64") {
                self.e(&cat5("%", &tmp, " = call i64 @yk_math_abs_i64(i64 ", av, ")"));
                (cat2("%", &tmp), owned("i64"))
            } else {
                self.e(&cat5("%", &tmp, " = call double @yk_math_abs_real(double ", av, ")"));
                (cat2("%", &tmp), owned("double"))
            }
        } else {
            (owned("0"), owned("i64"))
        }
    }

    pub(crate) fn real_function(
        &mut self,
        tmp: &str,
        name: &str,
        args: &Vec<(String, String)>,
    ) -> (r: (String, String))
        ensures
            (final(self)@, (r.0@, r.1@)) == old(self)@.real_function(tmp@, name@, pairs(args@)),
    {
        if let Some((av, at)) = arg_at(args, 0) {
            self.e(&cat7("%", tmp, " = call double @yk_math_", name, "(double ", av, ")"));
        }
        (cat2("%", tmp), owned("double"))
    }

    pub(crate) fn real_function2(
        &mut self,
        tmp: &str,
        name: &str,
        args: &Vec<(String, String)>,
    ) -> (r: (String, String))
        ensures
            (final(self)@, (r.0@, r.1@)) == old(self)@.real_function2(tmp@, name@, pairs(args@)),
    {
        let av1 = arg_value_or(args, 0, "");
        let av2 = arg_value_or(args, 1, "");
        self.e(
            &cat9("%", tmp, " = call double @yk_math_", name, "(double ", &av1, ", double ", &av2,
                ")")
        );
        (cat2("%", tmp), owned("double"))
    }

    pub(crate) fn random_int(
        &mut self,
        tmp: &str,
        args: &Vec<(String, String)>,
    ) -> (r: (String, String))
        ensures
            (final(self)@, (r.0@, r.1@)) == old(self)@.random_int(tmp@, pairs(args@)),
    {
        let max = arg_value_or(args, 0, "2147483647");
        self.e(&cat5("%", tmp, " = call i64 @yk_math_rand(i64 ", &max, ")"));
        (cat2("%", tmp), owned("i64"))
    }

    pub(crate) fn pause(&mut self, args: &Vec<(String, String)>) -> (r: (String, String))
        ensures
            (final(self)@, (r.0@, r.1@)) == old(self)@.pause(pairs(args@)),
    {
        if let Some((av, at)) = arg_at(args, 0) {
            self.e(&cat3("call void @yk_time_sleep(i64 ", av, ")"));
        }
        (owned("0"), owned("void"))
    }

    pub(crate) fn string_arg(&mut self, args: &Vec<(String, String)>, i: usize) -> (r: String)
        ensures
            (final(self)@, r@) == old(self)@.string_arg(pairs(args@), i as nat),
    {
        if let Some((av, at)) = arg_at(args, i) {
            let p = self.string_to_ptr(av);
            p
        } else {
            owned("null")
        }
    }

    pub(crate) fn builtin_fetch(&mut self, args: &Vec<(String, String)>) -> (r: (String, String))
        ensures
            (final(self)@, (r.0@, r.1@)) == old(self)@.builtin_fetch(pairs(args@)),
    {
        let url = arg_value_or(args, 0, "0");
        let url_ptr = if !same(&url, "0") {
            let url_ptr = self.string_to_ptr(&url);
            url_ptr
        } else {
            let url_ptr = owned("null");
            url_ptr
        };
        let method_ptr = self.string_arg(args, 1);
        let body_ptr = self.string_arg(args, 2);
        self.call_string(&cat7("yk_fetch(ptr ", &url_ptr, ", ptr ", &method_ptr, ", ptr ",
            &body_ptr, ")"))
    }

    pub(crate) fn builtin_lookup(&mut self, args: &Vec<(String, String)>) -> (r: (String, String))
        ensures
            (final(self)@, (r.0@, r.1@)) == old(self)@.builtin_lookup(pairs(args@)),
    {
        let host_ptr = self.arg_ptr(args, 0);
        self.call_string(&cat3("yk_dns_lookup(ptr ", &host_ptr, ")"))
    }

    pub(crate) fn open_at(
        &mut self,
        func: &str,
        args: &Vec<(String, String)>,
    ) -> (r: (String, String))
        ensures
            (final(self)@, (r.0@, r.1@)) == old(self)@.open_at(func@, pairs(args@)),
    {
        let addr_ptr = self.arg_ptr(args, 0);
        self.call_int(&cat4(func, "(ptr ", &addr_ptr, ")"))
    }

    pub(crate) fn call_math(
        &mut self,
        func: &str,
        args: &Vec<(String, String)>,
    ) -> (r: (String, String))
        ensures
            (final(self)@, (r.0@, r.1@)) == old(self)@.call_math(func@, pairs(args@)),
    {
        let tmp = self.fresh_label();
        if same(func, "abs") {
            if let Some((av, at)) = arg_at(args, 0) {
                if same(at, "i64") {
                    self.e(&cat5("%", &tmp, " = call i64 @yk_math_abs_i64(i64 ", av, ")"));
                } else {
                    self.e(&cat5("%", &tmp, " = call double @yk_math_abs_real(double ", av, ")"));
                }
            }
            (cat2("%", &tmp), owned("double"))
        } else if same(func, "sqrt") || same(func, "sin") || same(func, "cos") || same(func, "floor")
            || same(func, "ceil") || same(func, "round") {
            self.real_function(&tmp, func, args)
        } else if same(func, "pow") || same(func, "max") || same(func, "min") {
            self.real_function2(&tmp, func, args)
        } else if same(func, "rand") {
            self.random_int(&tmp, args)
        } else {
            (owned("0"), owned("i64"))
        }
    }

    pub(crate) fn call_time(
        &mut self,
        func: &str,
        args: &Vec<(String, String)>,
    ) -> (r: (String, String))
        ensures
            (final(self)@, (r.0@, r.1@)) == old(self)@.call_time(func@, pairs(args@)),
    {
        if same(func, "now") {
            self.call_string("yk_time_now()")
        } else if same(func, "sleep") {
            self.pause(args)
        } else if same(func, "timestamp") {
            self.call_int("yk_time_timestamp()")
        } else {
            (owned("0"), owned("i64"))
        }
    }

    pub(crate) fn call_sys(
        &mut self,
        func: &str,
        args: &Vec<(String, String)>,
    ) -> (r: (String, String))
        ensures
            (final(self)@, (r.0@, r.1@)) == old(self)@.call_sys(func@, pairs(args@)),
    {
        if same(func, "pid") {
            self.call_int("yk_sys_pid()")
        } else if same(func, "exit") {
            if let Some((av, at)) = arg_at(args, 0) {
                self.e(&cat3("call void @yk_sys_exit(i64 ", av, ")"));
            }
            (owned("0"), owned("void"))
        } else if same(func, "cwd") {
            self.call_string("yk_sys_cwd()")
        } else if same(func, "platform") {
            self.call_string("yk_sys_platform()")
        } else if same(func, "env") {
            if let Some((av, at)) = arg_at(args, 0) {
                let ptr_tmp = self.fresh_label();
                let p = self.string_to_ptr(av);
                self.e(&cat5("%", &ptr_tmp, " = call ptr @yk_sys_env(ptr ", &p, ")"));
                self.load_string(&cat2("%", &ptr_tmp))
            } else {
                (owned("0"), owned("%yk_string"))
            }
        } else {
            (owned("0"), owned("i64"))
        }
    }

    pub(crate) fn string_function(
        &mut self,
        func: &str,
        args: &Vec<(String, String)>,
    ) -> (r: (String, String))
        ensures
            (final(self)@, (r.0@, r.1@)) == old(self)@.string_function(func@, pairs(args@)),
    {
        if let Some((av, at)) = arg_at(args, 0) {
            let p = self.string_to_ptr(av);
            self.call_string(&cat4(func, "(ptr ", &p, ")"))
        } else {
            (owned("0"), owned("%yk_string"))
        }
    }

    pub(crate) fn string_question(
        &mut self,
        func: &str,
        args: &Vec<(String, String)>,
    ) -> (r: (String, String))
        ensures
            (final(self)@, (r.0@, r.1@)) == old(self)@.string_question(func@, pairs(args@)),
    {
        if let Some((av, at)) = arg_at(args, 0) {
            let p = self.string_to_ptr(av);
            self.call_flag(&cat4(func, "(ptr ", &p, ")"))
        } else {
            (owned("0"), owned("i1"))
        }
    }

    pub(crate) fn call_path(
        &mut self,
        func: &str,
        args: &Vec<(String, String)>,
    ) -> (r: (String, String))
        ensures
            (final(self)@, (r.0@, r.1@)) == old(self)@.call_path(func@, pairs(args@)),
    {
        if same(func, "join") {
            if let Some((av2, at2)) = arg_at(args, 1) {
                let p1 = self.string_to_ptr(&arg_value_or(args, 0, ""));
                let p2 = self.string_to_ptr(av2);
                self.call_string(&cat5("yk_path_join(ptr ", &p1, ", ptr ", &p2, ")"))
            } else {
                (owned("0"), owned("%yk_string"))
            }
        } else if same(func, "dirname") || same(func, "basename") || same(func, "extension") {
            self.string_function(&cat2("yk_path_", func), args)
        } else if same(func, "is_absolute") {
            self.string_question("yk_path_is_absolute", args)
        } else {
            (owned("0"), owned("i64"))
        }
    }

    pub(crate) fn call_fs(
        &mut self,
        func: &str,
        args: &Vec<(String, String)>,
    ) -> (r: (String, String))
        ensures
            (final(self)@, (r.0@, r.1@)) == old(self)@.call_fs(func@, pairs(args@)),
    {
        if same(func, "read") {
            self.string_function("yk_fs_read", args)
        } else if same(func, "write") || same(func, "append") {
            if let Some((c, ct)) = arg_at(args, 1) {
                let pp = self.string_to_ptr(&arg_value_or(args, 0, ""));
                let pc = self.string_to_ptr(c);
                self.e(&cat7("call void @yk_fs_", func, "(ptr ", &pp, ", ptr ", &pc, ")"));
            }
            (owned("0"), owned("void"))
        } else if same(func, "remove") {
            if let Some((av, at)) = arg_at(args, 0) {
                let p = self.string_to_ptr(av);
                self.e(&cat3("call void @yk_fs_remove(ptr ", &p, ")"));
            }
            (owned("0"), owned("void"))
        } else if same(func, "exists") || same(func, "is_dir") || same(func, "is_file") {
            self.string_question(&cat2("yk_fs_", func), args)
        } else {
            (owned("0"), owned("i64"))
        }
    }

    pub(crate) fn call_base64(
        &mut self,
        func: &str,
        args: &Vec<(String, String)>,
    ) -> (r: (String, String))
        ensures
            (final(self)@, (r.0@, r.1@)) == old(self)@.call_base64(func@, pairs(args@)),
    {
        if same(func, "encode") || same(func, "decode") {
            self.string_function(&cat2("yk_base64_", func), args)
        } else {
            (owned("0"), owned("i64"))
        }
    }

    pub(crate) fn call_json(
        &mut self,
        func: &str,
        args: &Vec<(String, String)>,
    ) -> (r: (String, String))
        ensures
            (final(self)@, (r.0@, r.1@)) == old(self)@.call_json(func@, pairs(args@)),
    {
        if same(func, "stringify") {
            if let Some((av, at)) = arg_at(args, 0) {
                if same(at, "double") {
                    self.call_string(&cat3("yk_string_from_real(double ", av, ")"))
                } else if same(at, "i1") {
                    self.call_string(&cat3("yk_string_from_bool(i1 ", av, ")"))
                } else if same(at, "%yk_string") {
                    self.string_function("yk_json_string", args)
                } else {
                    self.call_string(&cat3("yk_string_from_int(i64 ", av, ")"))
                }
            } else {
                (owned("0"), owned("%yk_string"))
            }
        } else {
            (owned("0"), owned("i64"))
        }
    }

    pub(crate) fn call_re(
        &mut self,
        func: &str,
        args: &Vec<(String, String)>,
    ) -> (r: (String, String))
        ensures
            (final(self)@, (r.0@, r.1@)) == old(self)@.call_re(func@, pairs(args@)),
    {
        if same(func, "match") {
            if let Some((t, tt)) = arg_at(args, 1) {
                let pp = self.string_to_ptr(&arg_value_or(args, 0, ""));
                let pt = self.string_to_ptr(t);
                self.call_flag(&cat5("yk_re_match(ptr ", &pp, ", ptr ", &pt, ")"))
            } else {
                (owned("0"), owned("i1"))
            }
        } else if same(func, "replace") {
            if let Some((r, rt)) = arg_at(args, 2) {
                let pp = self.string_to_ptr(&arg_value_or(args, 0, ""));
                let pt = self.string_to_ptr(&arg_value_or(args, 1, ""));
                let pr = self.string_to_ptr(r);
                self.call_string(&cat7("yk_re_replace(ptr ", &pp, ", ptr ", &pt, ", ptr ", &pr,
                    ")"))
            } else {
                (owned("0"), owned("%yk_string"))
            }
        } else {
            (owned("0"), owned("i64"))
        }
    }

    pub(crate) fn call_datetime(
        &mut self,
        func: &str,
        args: &Vec<(String, String)>,
    ) -> (r: (String, String))
        ensures
            (final(self)@, (r.0@, r.1@)) == old(self)@.call_datetime(func@, pairs(args@)),
    {
        if same(func, "now") {
            self.call_string("yk_datetime_now()")
        } else if same(func, "utc") {
            self.call_string("yk_datetime_utc()")
        } else if same(func, "timestamp") {
            self.call_int("yk_time_timestamp()")
        } else if same(func, "year") || same(func, "month") || same(func, "day") || same(func, "hour")
            || same(func, "minute") || same(func, "second") {
            let tmp = self.fresh_label();
            if let Some((av, at)) = arg_at(args, 0) {
                self.e(&cat7("%", &tmp, " = call i64 @yk_datetime_", func, "(i64 ", av, ")"));
            }
            (cat2("%", &tmp), owned("i64"))
        } else if same(func, "format") {
            if let Some((fmt, ft)) = arg_at(args, 1) {
                let fmt_p = self.string_to_ptr(fmt);
                let ts = arg_value_or(args, 0, "");
                self.call_string(&cat5("yk_datetime_format(i64 ", &ts, ", ptr ", &fmt_p, ")"))
            } else {
                (owned("0"), owned("%yk_string"))
            }
        } else {
            (owned("0"), owned("i64"))
        }
    }

    pub(crate) fn call_ffi(
        &mut self,
        mod_name: &str,
        func: &str,
        args: &Vec<(String, String)>,
    ) -> (r: (String, String))
        ensures
            (final(self)@, (r.0@, r.1@)) == old(self)@.call_ffi(mod_name@, func@, pairs(args@)),
    {
        let mangled = cat4("yk_", mod_name, "_", func);
        let types = call_arg_types(args);
        if !self.has_ffi_decl(&mangled) {
            self.add_ffi_decl(&mangled);
            self.e_raw(&cat5("declare i64 @", &mangled, "(", &types, ")"));
        }
        let list = call_arguments(args);
        self.call_int(&cat4(&mangled, "(", &list, ")"))
    }

    pub(crate) fn call_runtime_module(
        &mut self,
        mod_name: &str,
        func: &str,
        args: &Vec<(String, String)>,
    ) -> (r: (String, String))
        ensures
            (final(self)@, (r.0@, r.1@)) == old(self)@.call_runtime_module(mod_name@, func@,
                pairs(args@)),
    {
        if same(mod_name, "math") {
            self.call_math(func, args)
        } else if same(mod_name, "time") {
            self.call_time(func, args)
        } else if same(mod_name, "sys") {
            self.call_sys(func, args)
        } else if same(mod_name, "path") {
            self.call_path(func, args)
        } else if same(mod_name, "fs") || same(mod_name, "io") {
            self.call_fs(func, args)
        } else if same(mod_name, "base64") {
            self.call_base64(func, args)
        } else if same(mod_name, "json") {
            self.call_json(func, args)
        } else if same(mod_name, "re") || same(mod_name, "regex") {
            self.call_re(func, args)
        } else {
            self.call_datetime(func, args)
        }
    }
}

} // verus!
