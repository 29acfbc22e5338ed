//! Methods of values: clients, sockets, lists, classes, interfaces and objects.

use vstd::prelude::*;

use crate::codegen::llvm::names::{
    arg, arg_at, arg_value, arg_value_or, call_arg_types, call_args, call_arguments, call_types,
    method_arg_types, method_arguments, method_call_args, method_types, scope_name, scoped_name,
};
use crate::codegen::llvm::state::{Gen, LlvmCodegen};
use crate::scan::{behind, strip_prefix};
use crate::table::pairs;
use crate::text::{
    cat11, cat2, cat3, cat4, cat5, cat6, cat7, cat8, cat9, dec, dec_text, owned, same, Text,
};

verus! {

/// The upper-case name of an HTTP method.
pub open spec fn verb_of(field: Text) -> Text {
    if field == "get"@ {
        "GET"@
    } else if field == "post"@ {
        "POST"@
    } else if field == "put"@ {
        "PUT"@
    } else if field == "delete"@ {
        "DELETE"@
    } else if field == "head"@ {
        "HEAD"@
    } else if field == "options"@ {
        "OPTIONS"@
    } else if field == "patch"@ {
        "PATCH"@
    } else {
        "WS"@
    }
}

pub(crate) fn http_verb(field: &str) -> (r: String)
    ensures
        r@ == verb_of(field@),
{
    if same(field, "get") {
        owned("GET")
    } else if same(field, "post") {
        owned("POST")
    } else if same(field, "put") {
        owned("PUT")
    } else if same(field, "delete") {
        owned("DELETE")
    } else if same(field, "head") {
        owned("HEAD")
    } else if same(field, "options") {
        owned("OPTIONS")
    } else if same(field, "patch") {
        owned("PATCH")
    } else {
        owned("WS")
    }
}

/// The integer at a position of the arguments; anything else counts as zero.
pub open spec fn index_or_zero(iv: Text, it: Text) -> Text {
    if it == "i64"@ {
        iv
    } else {
        "0"@
    }
}

pub(crate) fn index_arg(iv: &str, it: &str) -> (r: String)
    ensures
        r@ == index_or_zero(iv@, it@),
{
    if same(it, "i64") {
        owned(iv)
    } else {
        owned("0")
    }
}

/// Whether lists have a method of that name.
pub open spec fn list_has(field: Text) -> bool {
    field == "push"@ || field == "pop"@ || field == "len"@ || field == "sort"@
        || field == "reverse"@ || field == "insert"@ || field == "remove"@ || field == "clear"@
}

pub(crate) fn is_list_method(field: &str) -> (r: bool)
    ensures
        r == list_has(field@),
{
    same(field, "push") || same(field, "pop") || same(field, "len") || same(field, "sort")
        || same(field, "reverse") || same(field, "insert") || same(field, "remove") || same(field,
        "clear")
}

/// Whether requests are made through a method of that name.
pub open spec fn http_has(field: Text) -> bool {
    field == "get"@ || field == "post"@ || field == "put"@ || field == "delete"@ || field == "head"@
        || field == "options"@ || field == "patch"@
}

pub(crate) fn is_http_method(field: &str) -> (r: bool)
    ensures
        r == http_has(field@),
{
    same(field, "get") || same(field, "post") || same(field, "put") || same(field, "delete")
        || same(field, "head") || same(field, "options") || same(field, "patch")
}

/// Whether servers have a method of that name.
pub open spec fn server_has(field: Text) -> bool {
    field == "get"@ || field == "post"@ || field == "put"@ || field == "delete"@
        || field == "patch"@ || field == "ws"@ || field == "serve"@
}

pub(crate) fn is_server_method(field: &str) -> (r: bool)
    ensures
        r == server_has(field@),
{
    same(field, "get") || same(field, "post") || same(field, "put") || same(field, "delete")
        || same(field, "patch") || same(field, "ws") || same(field, "serve")
}

/// Whether connections, sockets or listeners have a method of that name.
pub open spec fn socket_has(field: Text) -> bool {
    field == "send"@ || field == "recv"@ || field == "close"@ || field == "send_to"@
        || field == "recv_from"@ || field == "accept"@
}

pub(crate) fn is_socket_method(field: &str) -> (r: bool)
    ensures
        r == socket_has(field@),
{
    same(field, "send") || same(field, "recv") || same(field, "close") || same(field, "send_to")
        || same(field, "recv_from") || same(field, "accept")
}

impl Gen {
    /// A request through an HTTP client; the value is the status.
    pub open spec fn http_request(
        self,
        o_val: Text,
        field: Text,
        args: Seq<(Text, Text)>,
    ) -> (Gen, (Text, Text)) {
        let g = self;
        let verb = verb_of(field);
        let (g, method_slot) = g.make_string_slot(verb);
        let (g, method_ptr) = g.string_to_ptr(method_slot);
        let (g, url_ptr) = g.arg_ptr(args, 0);
        let (g, body_ptr) = if field == "post"@ || field == "put"@ || field == "patch"@ {
            let (g, body_ptr) = g.arg_ptr(args, 1);
            (g, body_ptr)
        } else {
            let body_ptr = "null"@;
            (g, body_ptr)
        };
        let g = g.e(
            "call void @yk_http_request(i64 "@ + o_val + ", ptr "@ + url_ptr + ", ptr "@
                + method_ptr + ", ptr "@ + body_ptr + ")"@
        );
        g.http_status(o_val)
    }

    /// A method of a connection, a socket or a listener.
    pub open spec fn socket_method(
        self,
        o_val: Text,
        field: Text,
        args: Seq<(Text, Text)>,
    ) -> (Gen, (Text, Text)) {
        let g = self;
        if field == "send"@ {
            if let Some((av, at)) = arg(args, 0) {
                let (g, data_ptr) = g.arg_ptr(args, 0);
                g.call_int("yk_tcp_send(i64 "@ + o_val + ", ptr "@ + data_ptr + ")"@)
            } else {
                (g, ("0"@, "i64"@))
            }
        } else if field == "recv"@ {
            let n = arg_value(args, 0, "4096"@);
            g.call_string("yk_tcp_recv(i64 "@ + o_val + ", i64 "@ + n + ")"@)
        } else if field == "close"@ {
            let g = g.e("call void @yk_tcp_close(i64 "@ + o_val + ")"@);
            (g, ("0"@, "void"@))
        } else if field == "send_to"@ {
            let (g, data_ptr) = g.arg_ptr(args, 0);
            let (g, addr_ptr) = g.arg_ptr(args, 1);
            g.call_int("yk_udp_send_to(i64 "@ + o_val + ", ptr "@ + data_ptr + ", ptr "@ + addr_ptr
                + ")"@)
        } else if field == "recv_from"@ {
            let n = arg_value(args, 0, "4096"@);
            g.call_string("yk_udp_recv_from(i64 "@ + o_val + ", i64 "@ + n + ")"@)
        } else {
            g.call_int("yk_tcp_accept(i64 "@ + o_val + ")"@)
        }
    }

    /// What a list stores for a value that is pushed.
    pub open spec fn pushed_value(self, pv: Text, pt: Text) -> (Gen, Text) {
        let g = self;
        if pt == "double"@ {
            let (g, t) = g.fresh_label();
            let g = g.e("%"@ + t + " = bitcast double "@ + pv + " to i64"@);
            (g, "%"@ + t)
        } else if pt == "i1"@ {
            let (g, t) = g.fresh_label();
            let g = g.e("%"@ + t + " = zext i1 "@ + pv + " to i64"@);
            (g, "%"@ + t)
        } else if pt == "%yk_string"@ {
            let (g, t) = g.fresh_label();
            let g = g.e("%"@ + t + " = ptrtoint ptr "@ + pv + " to i64"@);
            (g, "%"@ + t)
        } else {
            (g, pv)
        }
    }

    /// The argument at a position, packed into 64 bits; zero where there is none.
    pub open spec fn packed_arg(self, args: Seq<(Text, Text)>, i: nat) -> (Gen, Text) {
        let g = self;
        if let Some((vv, vt)) = arg(args, i) {
            let (g, p) = g.to_i64(vv, vt);
            (g, p)
        } else {
            (g, "0"@)
        }
    }

    /// A method of a list.
    pub open spec fn list_method(
        self,
        o_val: Text,
        field: Text,
        args: Seq<(Text, Text)>,
    ) -> (Gen, (Text, Text)) {
        let g = self;
        if field == "push"@ {
            let g = if let Some((pv, pt)) = arg(args, 0) {
                let (g, push_val) = g.pushed_value(pv, pt);
                let g = g.e("call void @yk_list_push(ptr "@ + o_val + ", i64 "@ + push_val + ")"@);
                g
            } else {
                g
            };
            (g, ("0"@, "i64"@))
        } else if field == "pop"@ {
            g.call_int("yk_list_pop(ptr "@ + o_val + ")"@)
        } else if field == "len"@ {
            g.call_int("yk_list_len(ptr "@ + o_val + ")"@)
        } else if field == "sort"@ {
            let g = g.e("call void @yk_list_sort(ptr "@ + o_val + ")"@);
            (g, ("0"@, "i64"@))
        } else if field == "reverse"@ {
            let g = g.e("call void @yk_list_reverse(ptr "@ + o_val + ")"@);
            (g, ("0"@, "i64"@))
        } else if field == "insert"@ {
            let g = if let Some((iv, it)) = arg(args, 0) {
                let idx = index_or_zero(iv, it);
                let (g, val) = g.packed_arg(args, 1);
                let g = g.e(
                    "call void @yk_list_insert(ptr "@ + o_val + ", i64 "@ + idx + ", i64 "@ + val
                        + ")"@
                );
                g
            } else {
                g
            };
            (g, ("0"@, "i64"@))
        } else if field == "remove"@ {
            let g = if let Some((iv, it)) = arg(args, 0) {
                let idx = index_or_zero(iv, it);
                let g = g.e("call void @yk_list_remove(ptr "@ + o_val + ", i64 "@ + idx + ")"@);
                g
            } else {
                g
            };
            (g, ("0"@, "i64"@))
        } else {
            let g = g.e("call void @yk_list_clear(ptr "@ + o_val + ")"@);
            (g, ("0"@, "i64"@))
        }
    }

    /// A call through a value that is no known receiver.
    pub open spec fn call_value(self, o_val: Text, args: Seq<(Text, Text)>) -> (Gen, (Text, Text)) {
        let g = self;
        let (g, tmp) = g.fresh_label();
        let list = call_args(args);
        let g = g.e("%"@ + tmp + " = call i64 @"@ + o_val + "("@ + list + ")"@);
        (g, ("%"@ + tmp, "i64"@))
    }

    /// A call through the method table of a class.
    pub open spec fn class_method_call(
        self,
        o_val: Text,
        o_ty: Text,
        cls_name: Text,
        field: Text,
        args: Seq<(Text, Text)>,
    ) -> (Gen, (Text, Text)) {
        let g = self;
        if let Some((method_idx, mfn)) = g.class_method(cls_name, field) {
            let (g, alloca_ptr) = g.fresh_label();
            let g = g.e("%"@ + alloca_ptr + " = alloca "@ + o_ty + ", align 8"@);
            let g = g.e("store "@ + o_ty + " "@ + o_val + ", ptr %"@ + alloca_ptr);
            let (g, vp) = g.fresh_label();
            let g = g.e(
                "%"@ + vp + " = getelementptr inbounds "@ + o_ty + ", ptr %"@ + alloca_ptr
                    + ", i32 0, i32 0"@
            );
            let (g, vt) = g.fresh_label();
            let g = g.e("%"@ + vt + " = load i64, ptr %"@ + vp);
            let (g, vtable_ptr) = g.fresh_label();
            let g = g.e("%"@ + vtable_ptr + " = inttoptr i64 %"@ + vt + " to ptr"@);
            let (g, method_ptr) = g.fresh_label();
            let g = g.e(
                "%"@ + method_ptr + " = getelementptr inbounds %class."@ + cls_name
                    + ".vtable, ptr %"@ + vtable_ptr + ", i32 0, i32 "@ + dec(method_idx)
            );
            let (g, fn_ptr) = g.fresh_label();
            let g = g.e("%"@ + fn_ptr + " = load ptr, ptr %"@ + method_ptr);
            let (g, self_int) = g.fresh_label();
            let g = g.e("%"@ + self_int + " = ptrtoint ptr %"@ + alloca_ptr + " to i64"@);
            let call_ret = g.class_method_ret(cls_name, field);
            let list = method_call_args("%"@ + self_int, args);
            let types = method_types("%"@ + self_int, args);
            if call_ret == "void"@ {
                let g = g.e("call void ("@ + types + ") %"@ + fn_ptr + "("@ + list + ")"@);
                (g, ("0"@, "void"@))
            } else {
                let (g, result_tmp) = g.fresh_label();
                let g = g.e(
                    "%"@ + result_tmp + " = call "@ + call_ret + " ("@ + types + ") %"@ + fn_ptr
                        + "("@ + list + ")"@
                );
                (g, ("%"@ + result_tmp, call_ret))
            }
        } else {
            g.call_value(o_val, args)
        }
    }

    /// A call through the method table of an interface value.
    pub open spec fn interface_method_call(
        self,
        o_val: Text,
        o_ty: Text,
        iface_name: Text,
        field: Text,
    ) -> (Gen, (Text, Text)) {
        let g = self;
        let (g, vtable_ptr) = g.fresh_label();
        let g = g.e("%"@ + vtable_ptr + " = extractvalue "@ + o_ty + " "@ + o_val + ", 1"@);
        let (g, data_val) = g.fresh_label();
        let g = g.e("%"@ + data_val + " = extractvalue "@ + o_ty + " "@ + o_val + ", 0"@);
        let (g, self_int) = g.fresh_label();
        let g = g.e("%"@ + self_int + " = ptrtoint ptr %"@ + data_val + " to i64"@);
        if let Some(method_idx) = g.interface_method(iface_name, field) {
            let (g, method_ptr) = g.fresh_label();
            let g = g.e(
                "%"@ + method_ptr + " = getelementptr inbounds ptr, ptr %"@ + vtable_ptr + ", i64 "@
                    + dec(method_idx)
            );
            let (g, fn_ptr) = g.fresh_label();
            let g = g.e("%"@ + fn_ptr + " = load ptr, ptr %"@ + method_ptr);
            let call_ret = g.interface_method_ret(iface_name, field);
            if call_ret == "void"@ {
                let g = g.e("call void (i64) %"@ + fn_ptr + "(i64 %"@ + self_int + ")"@);
                (g, ("0"@, "void"@))
            } else {
                let (g, result_tmp) = g.fresh_label();
                let g = g.e(
                    "%"@ + result_tmp + " = call "@ + call_ret + " (i64) %"@ + fn_ptr + "(i64 %"@
                        + self_int + ")"@
                );
                (g, ("%"@ + result_tmp, call_ret))
            }
        } else {
            (g, ("0"@, "i64"@))
        }
    }

    /// A call of a method of an object.
    pub open spec fn object_method_call(
        self,
        o_val: Text,
        o_ty: Text,
        obj_name: Text,
        field: Text,
        args: Seq<(Text, Text)>,
    ) -> (Gen, (Text, Text)) {
        let g = self;
        let (g, alloca_ptr) = g.fresh_label();
        let g = g.e("%"@ + alloca_ptr + " = alloca "@ + o_ty + ", align 8"@);
        let g = g.e("store "@ + o_ty + " "@ + o_val + ", ptr %"@ + alloca_ptr);
        let (g, self_int) = g.fresh_label();
        let g = g.e("%"@ + self_int + " = ptrtoint ptr %"@ + alloca_ptr + " to i64"@);
        let omod = g.object_module(obj_name);
        let mangled = scoped_name("__obj_method"@, omod, obj_name + "_"@ + field);
        let call_ret = g.object_method_ret(obj_name, field);
        let (g, list, types) = if g.object_method_self(obj_name, field) {
            let list = method_call_args("%"@ + self_int, args);
            let types = method_types("%"@ + self_int, args);
            (g, list, types)
        } else {
            let list = call_args(args);
            let types = call_types(args);
            (g, list, types)
        };
        if call_ret == "void"@ {
            let g = g.e("call void ("@ + types + ") @"@ + mangled + "("@ + list + ")"@);
            (g, ("0"@, "void"@))
        } else {
            let (g, result_tmp) = g.fresh_label();
            let g = g.e(
                "%"@ + result_tmp + " = call "@ + call_ret + " ("@ + types + ") @"@ + mangled + "("@
                    + list + ")"@
            );
            (g, ("%"@ + result_tmp, call_ret))
        }
    }

    /// A call of a method, other than one of a server.
    pub open spec fn method_call(
        self,
        o_val: Text,
        o_ty: Text,
        field: Text,
        args: Seq<(Text, Text)>,
    ) -> (Gen, (Text, Text)) {
        let g = self;
        if o_ty == "i64"@ && socket_has(field) {
            g.socket_method(o_val, field, args)
        } else if o_ty == "ptr"@ && list_has(field) {
            g.list_method(o_val, field, args)
        } else if field == "toString"@ {
            let (g, ptr) = g.plain_text(o_val, o_ty);
            g.load_string(ptr)
        } else if let Some(cls_name) = behind(o_ty, "%class."@) {
            g.class_method_call(o_val, o_ty, cls_name, field, args)
        } else if let Some(iface_name) = behind(o_ty, "%iface."@) {
            g.interface_method_call(o_val, o_ty, iface_name, field)
        } else if let Some(obj_name) = behind(o_ty, "%object."@) {
            g.object_method_call(o_val, o_ty, obj_name, field, args)
        } else {
            g.call_value(o_val, args)
        }
    }
}

impl<'a> LlvmCodegen<'a> {
    pub(crate) fn http_request(
        &mut self,
        o_val: &str,
        field: &str,
        args: &Vec<(String, String)>,
    ) -> (r: (String, String))
        ensures
            (final(self)@, (r.0@, r.1@)) == old(self)@.http_request(o_val@, field@, pairs(args@)),
    {
        let verb = http_verb(field);
        let method_slot = self.make_string_slot(&verb);
        let method_ptr = self.string_to_ptr(&method_slot);
        let url_ptr = self.arg_ptr(args, 0);
        let body_ptr = if same(field, "post") || same(field, "put") || same(field, "patch") {
            let body_ptr = self.arg_ptr(args, 1);
            body_ptr
        } else {
            let body_ptr = owned("null");
            body_ptr
        };
        self.e(
            &cat9("call void @yk_http_request(i64 ", o_val, ", ptr ", &url_ptr, ", ptr ",
                &method_ptr, ", ptr ", &body_ptr, ")")
        );
        self.http_status(o_val)
    }

    pub(crate) fn socket_method(
        &mut self,
        o_val: &str,
        field: &str,
        args: &Vec<(String, String)>,
    ) -> (r: (String, String))
        ensures
            (final(self)@, (r.0@, r.1@)) == old(self)@.socket_method(o_val@, field@, pairs(args@)),
    {
        if same(field, "send") {
            if let Some((av, at)) = arg_at(args, 0) {
                let data_ptr = self.arg_ptr(args, 0);
                self.call_int(&cat5("yk_tcp_send(i64 ", o_val, ", ptr ", &data_ptr, ")"))
            } else {
                (owned("0"), owned("i64"))
            }
        } else if same(field, "recv") {
            let n = arg_value_or(args, 0, "4096");
            self.call_string(&cat5("yk_tcp_recv(i64 ", o_val, ", i64 ", &n, ")"))
        } else if same(field, "close") {
            self.e(&cat3("call void @yk_tcp_close(i64 ", o_val, ")"));
            (owned("0"), owned("void"))
        } else if same(field, "send_to") {
            let data_ptr = self.arg_ptr(args, 0);
            let addr_ptr = self.arg_ptr(args, 1);
            self.call_int(&cat7("yk_udp_send_to(i64 ", o_val, ", ptr ", &data_ptr, ", ptr ",
                &addr_ptr, ")"))
        } else if same(field, "recv_from") {
            let n = arg_value_or(args, 0, "4096");
            self.call_string(&cat5("yk_udp_recv_from(i64 ", o_val, ", i64 ", &n, ")"))
        } else {
            self.call_int(&cat3("yk_tcp_accept(i64 ", o_val, ")"))
        }
    }

    pub(crate) fn pushed_value(&mut self, pv: &str, pt: &str) -> (r: String)
        ensures
            (final(self)@, r@) == old(self)@.pushed_value(pv@, pt@),
    {
        if same(pt, "double") {
            let t = self.fresh_label();
            self.e(&cat5("%", &t, " = bitcast double ", pv, " to i64"));
            cat2("%", &t)
        } else if same(pt, "i1") {
            let t = self.fresh_label();
            self.e(&cat5("%", &t, " = zext i1 ", pv, " to i64"));
            cat2("%", &t)
        } else if same(pt, "%yk_string") {
            let t = self.fresh_label();
            self.e(&cat5("%", &t, " = ptrtoint ptr ", pv, " to i64"));
            cat2("%", &t)
        } else {
            owned(pv)
        }
    }

    pub(crate) fn packed_arg(&mut self, args: &Vec<(String, String)>, i: usize) -> (r: String)
        ensures
            (final(self)@, r@) == old(self)@.packed_arg(pairs(args@), i as nat),
    {
        if let Some((vv, vt)) = arg_at(args, i) {
            let p = self.to_i64(vv, vt);
            p
        } else {
            owned("0")
        }
    }

    pub(crate) fn list_method(
        &mut self,
        o_val: &str,
        field: &str,
        args: &Vec<(String, String)>,
    ) -> (r: (String, String))
        ensures
            (final(self)@, (r.0@, r.1@)) == old(self)@.list_method(o_val@, field@, pairs(args@)),
    {
        if same(field, "push") {
            if let Some((pv, pt)) = arg_at(args, 0) {
                let push_val = self.pushed_value(pv, pt);
                self.e(&cat5("call void @yk_list_push(ptr ", o_val, ", i64 ", &push_val, ")"));
            }
            (owned("0"), owned("i64"))
        } else if same(field, "pop") {
            self.call_int(&cat3("yk_list_pop(ptr ", o_val, ")"))
        } else if same(field, "len") {
            self.call_int(&cat3("yk_list_len(ptr ", o_val, ")"))
        } else if same(field, "sort") {
            self.e(&cat3("call void @yk_list_sort(ptr ", o_val, ")"));
            (owned("0"), owned("i64"))
        } else if same(field, "reverse") {
            self.e(&cat3("call void @yk_list_reverse(ptr ", o_val, ")"));
            (owned("0"), owned("i64"))
        } else if same(field, "insert") {
            if let Some((iv, it)) = arg_at(args, 0) {
                let idx = index_arg(iv, it);
                let val = self.packed_arg(args, 1);
                self.e(
                    &cat7("call void @yk_list_insert(ptr ", o_val, ", i64 ", &idx, ", i64 ", &val,
                        ")")
                );
            }
            (owned("0"), owned("i64"))
        } else if same(field, "remove") {
            if let Some((iv, it)) = arg_at(args, 0) {
                let idx = index_arg(iv, it);
                self.e(&cat5("call void @yk_list_remove(ptr ", o_val, ", i64 ", &idx, ")"));
            }
            (owned("0"), owned("i64"))
        } else {
            self.e(&cat3("call void @yk_list_clear(ptr ", o_val, ")"));
            (owned("0"), owned("i64"))
        }
    }

    pub(crate) fn call_value(
        &mut self,
        o_val: &str,
        args: &Vec<(String, String)>,
    ) -> (r: (String, String))
        ensures
            (final(self)@, (r.0@, r.1@)) == old(self)@.call_value(o_val@, pairs(args@)),
    {
        let tmp = self.fresh_label();
        let list = call_arguments(args);
        self.e(&cat7("%", &tmp, " = call i64 @", o_val, "(", &list, ")"));
        (cat2("%", &tmp), owned("i64"))
    }

    pub(crate) fn class_method_call(
        &mut self,
        o_val: &str,
        o_ty: &str,
        cls_name: &str,
        field: &str,
        args: &Vec<(String, String)>,
    ) -> (r: (String, String))
        ensures
            (final(self)@, (r.0@, r.1@)) == old(self)@.class_method_call(o_val@, o_ty@, cls_name@,
                field@, pairs(args@)),
    {
        if let Some((method_idx, mfn)) = self.class_method(cls_name, field) {
            let alloca_ptr = self.fresh_label();
            self.e(&cat5("%", &alloca_ptr, " = alloca ", o_ty, ", align 8"));
            self.e(&cat6("store ", o_ty, " ", o_val, ", ptr %", &alloca_ptr));
            let vp = self.fresh_label();
            self.e(
                &cat7("%", &vp, " = getelementptr inbounds ", o_ty, ", ptr %", &alloca_ptr,
                    ", i32 0, i32 0")
            );
            let vt = self.fresh_label();
            self.e(&cat4("%", &vt, " = load i64, ptr %", &vp));
            let vtable_ptr = self.fresh_label();
            self.e(&cat5("%", &vtable_ptr, " = inttoptr i64 %", &vt, " to ptr"));
            let method_ptr = self.fresh_label();
            self.e(
                &cat8("%", &method_ptr, " = getelementptr inbounds %class.", cls_name,
                    ".vtable, ptr %", &vtable_ptr, ", i32 0, i32 ", &dec_text(method_idx as u128))
            );
            let fn_ptr = self.fresh_label();
            self.e(&cat4("%", &fn_ptr, " = load ptr, ptr %", &method_ptr));
            let self_int = self.fresh_label();
            self.e(&cat5("%", &self_int, " = ptrtoint ptr %", &alloca_ptr, " to i64"));
            let call_ret = self.class_method_ret(cls_name, field);
            let list = method_arguments(&cat2("%", &self_int), args);
            let types = method_arg_types(&cat2("%", &self_int), args);
            if same(&call_ret, "void") {
                self.e(&cat7("call void (", &types, ") %", &fn_ptr, "(", &list, ")"));
                (owned("0"), owned("void"))
            } else {
                let result_tmp = self.fresh_label();
                self.e(
                    &cat11("%", &result_tmp, " = call ", &call_ret, " (", &types, ") %", &fn_ptr,
                        "(", &list, ")")
                );
                (cat2("%", &result_tmp), call_ret)
            }
        } else {
            self.call_value(o_val, args)
        }
    }

    pub(crate) fn interface_method_call(
        &mut self,
        o_val: &str,
        o_ty: &str,
        iface_name: &str,
        field: &str,
    ) -> (r: (String, String))
        ensures
            (final(self)@, (r.0@, r.1@)) == old(self)@.interface_method_call(o_val@, o_ty@,
                iface_name@, field@),
    {
        let vtable_ptr = self.fresh_label();
        self.e(&cat7("%", &vtable_ptr, " = extractvalue ", o_ty, " ", o_val, ", 1"));
        let data_val = self.fresh_label();
        self.e(&cat7("%", &data_val, " = extractvalue ", o_ty, " ", o_val, ", 0"));
        let self_int = self.fresh_label();
        self.e(&cat5("%", &self_int, " = ptrtoint ptr %", &data_val, " to i64"));
        if let Some(method_idx) = self.interface_method(iface_name, field) {
            let method_ptr = self.fresh_label();
            self.e(
                &cat6("%", &method_ptr, " = getelementptr inbounds ptr, ptr %", &vtable_ptr,
                    ", i64 ", &dec_text(method_idx as u128))
            );
            let fn_ptr = self.fresh_label();
            self.e(&cat4("%", &fn_ptr, " = load ptr, ptr %", &method_ptr));
            let call_ret = self.interface_method_ret(iface_name, field);
            if same(&call_ret, "void") {
                self.e(&cat5("call void (i64) %", &fn_ptr, "(i64 %", &self_int, ")"));
                (owned("0"), owned("void"))
            } else {
                let result_tmp = self.fresh_label();
                self.e(
                    &cat9("%", &result_tmp, " = call ", &call_ret, " (i64) %", &fn_ptr, "(i64 %",
                        &self_int, ")")
                );
                (cat2("%", &result_tmp), call_ret)
            }
        } else {
            (owned("0"), owned("i64"))
        }
    }

    pub(crate) fn object_method_call(
        &mut self,
        o_val: &str,
        o_ty: &str,
        obj_name: &str,
        field: &str,
        args: &Vec<(String, String)>,
    ) -> (r: (String, String))
        ensures
            (final(self)@, (r.0@, r.1@)) == old(self)@.object_method_call(o_val@, o_ty@, obj_name@,
                field@, pairs(args@)),
    {
        let alloca_ptr = self.fresh_label();
        self.e(&cat5("%", &alloca_ptr, " = alloca ", o_ty, ", align 8"));
        self.e(&cat6("store ", o_ty, " ", o_val, ", ptr %", &alloca_ptr));
        let self_int = self.fresh_label();
        self.e(&cat5("%", &self_int, " = ptrtoint ptr %", &alloca_ptr, " to i64"));
        let omod = self.object_module(obj_name);
        let mangled = scope_name("__obj_method", &omod, &cat3(obj_name, "_", field));
        let call_ret = self.object_method_ret(obj_name, field);
        let (list, types) = if self.object_method_self(obj_name, field) {
            let list = method_arguments(&cat2("%", &self_int), args);
            let types = method_arg_types(&cat2("%", &self_int), args);
            (list, types)
        } else {
            let list = call_arguments(args);
            let types = call_arg_types(args);
            (list, types)
        };
        if same(&call_ret, "void") {
            self.e(&cat7("call void (", &types, ") @", &mangled, "(", &list, ")"));
            (owned("0"), owned("void"))
        } else {
            let result_tmp = self.fresh_label();
            self.e(
                &cat11("%", &result_tmp, " = call ", &call_ret, " (", &types, ") @", &mangled, "(",
                    &list, ")")
            );
            (cat2("%", &result_tmp), call_ret)
        }
    }

    pub(crate) fn method_call(
        &mut self,
        o_val: &str,
        o_ty: &str,
        field: &str,
        args: &Vec<(String, String)>,
    ) -> (r: (String, String))
        ensures
            (final(self)@, (r.0@, r.1@)) == old(self)@.method_call(o_val@, o_ty@, field@,
                pairs(args@)),
    {
        if same(o_ty, "i64") && is_socket_method(field) {
            self.socket_method(o_val, field, args)
        } else if same(o_ty, "ptr") && is_list_method(field) {
            self.list_method(o_val, field, args)
        } else if same(field, "toString") {
            let ptr = self.plain_text(o_val, o_ty);
            self.load_string(&ptr)
        } else if let Some(cls_name) = strip_prefix(o_ty, "%class.") {
            self.class_method_call(o_val, o_ty, &cls_name, field, args)
        } else if let Some(iface_name) = strip_prefix(o_ty, "%iface.") {
            self.interface_method_call(o_val, o_ty, &iface_name, field)
        } else if let Some(obj_name) = strip_prefix(o_ty, "%object.") {
            self.object_method_call(o_val, o_ty, &obj_name, field, args)
        } else {
            self.call_value(o_val, args)
        }
    }
}

} // verus!
