//! Calls by name, calls of anonymous functions, and the methods of servers.

use vstd::prelude::*;

use crate::codegen::llvm::handler::{
    body_handler, embed_handler, embedded, expr_handler, generate_body_handler,
    generate_expr_handler, generate_static_handler_ir, static_handler,
};
use crate::codegen::llvm::methods::{http_verb, is_server_method, server_has, verb_of};
use crate::codegen::llvm::names::{
    arg_value, arg_value_or, call_args, call_arguments, dec_next, dec_next_text, scope_name,
    scoped_name, typed, typed_list,
};
use crate::codegen::llvm::state::{Gen, LlvmCodegen, opt_node};
use crate::scan::{begins, join, joined, strip_prefix, texts};
use crate::syntax::ast::{Expr, ExprNode, Param, TypeExpr, TypeNode};
use crate::table::{Names, Pairs, pairs};
use crate::text::{cat2, cat3, cat4, cat5, cat6, cat7, cat8, cat9, owned, same, Text};

verus! {

/// Whether the runtime implements a function of that name.
pub open spec fn builtin_name(name: Text) -> bool {
    name == "len"@ || name == "str"@ || name == "abs"@ || name == "sqrt"@ || name == "sin"@
        || name == "cos"@ || name == "floor"@ || name == "ceil"@ || name == "round"@
        || name == "pow"@ || name == "max"@ || name == "min"@ || name == "rand"@ || name == "now"@
        || name == "sleep"@ || name == "timestamp"@ || name == "fetch"@ || name == "HTTP"@
        || name == "lookup"@ || name == "Server"@ || name == "TcpStream"@ || name == "UdpSocket"@
        || name == "TcpListener"@
}

pub(crate) fn is_builtin(name: &str) -> (r: bool)
    ensures
        r == builtin_name(name@),
{
    same(name, "len") || same(name, "str") || same(name, "abs") || same(name, "sqrt") || same(name,
        "sin") || same(name, "cos") || same(name, "floor") || same(name, "ceil") || same(name,
        "round") || same(name, "pow") || same(name, "max") || same(name, "min") || same(name,
        "rand") || same(name, "now") || same(name, "sleep") || same(name, "timestamp") || same(name,
        "fetch") || same(name, "HTTP") || same(name, "lookup") || same(name, "Server") || same(name,
        "TcpStream") || same(name, "UdpSocket") || same(name, "TcpListener")
}

impl Gen {
    /// Begins an instance of a class: zero everywhere but for the method table.
    pub open spec fn begin_instance(self, name: Text) -> (Gen, Text) {
        let g = self;
        let obj_ty = "%class."@ + name;
        let (g, alloca_ptr) = g.fresh_label();
        let g = g.e("%"@ + alloca_ptr + " = alloca "@ + obj_ty + ", align 8"@);
        let g = g.e("store "@ + obj_ty + " zeroinitializer, ptr %"@ + alloca_ptr);
        let (g, vptr) = g.fresh_label();
        let g = g.e(
            "%"@ + vptr + " = getelementptr inbounds "@ + obj_ty + ", ptr %"@ + alloca_ptr
                + ", i32 0, i32 0"@
        );
        let (g, virt) = g.fresh_label();
        let g = g.e("%"@ + virt + " = ptrtoint ptr @vtable."@ + name + " to i64"@);
        let g = g.e("store i64 %"@ + virt + ", ptr %"@ + vptr);
        (g, alloca_ptr)
    }

    /// Stores a field of an instance; the fields stand behind the method table.
    pub open spec fn store_field(
        self,
        obj_ty: Text,
        alloca_ptr: Text,
        i: nat,
        fty: Text,
        val: Text,
    ) -> Gen {
        let g = self;
        let (g, fptr) = g.fresh_label();
        let g = g.e(
            "%"@ + fptr + " = getelementptr inbounds "@ + obj_ty + ", ptr %"@ + alloca_ptr
                + ", i32 0, i32 "@ + dec_next(i)
        );
        let g = g.e("store "@ + fty + " "@ + val + ", ptr %"@ + fptr);
        g
    }

    /// Reads an instance, then calls the initialiser of its class.
    pub open spec fn finish_instance(self, name: Text, alloca_ptr: Text) -> (Gen, (Text, Text)) {
        let g = self;
        let obj_ty = "%class."@ + name;
        let (g, loaded) = g.fresh_label();
        let g = g.e("%"@ + loaded + " = load "@ + obj_ty + ", ptr %"@ + alloca_ptr);
        let module = g.class_module(name);
        let mangled_init = scoped_name("__class_init"@, module, name);
        let (g, init_ptr) = g.fresh_label();
        let g = g.e("%"@ + init_ptr + " = ptrtoint ptr %"@ + alloca_ptr + " to i64"@);
        let g = g.e("call void @"@ + mangled_init + "(i64 %"@ + init_ptr + ")"@);
        (g, ("%"@ + loaded, obj_ty))
    }

    /// Calls a function by its linker name.
    pub open spec fn finish_call(
        self,
        tmp: Text,
        mangled: Text,
        fn_ret: Text,
        list: Text,
    ) -> (Gen, (Text, Text)) {
        let g = self;
        if fn_ret == "void"@ {
            let g = g.e("call void @"@ + mangled + "("@ + list + ")"@);
            (g, ("0"@, "void"@))
        } else {
            let g = g.e("%"@ + tmp + " = call "@ + fn_ret + " @"@ + mangled + "("@ + list + ")"@);
            (g, ("%"@ + tmp, fn_ret))
        }
    }

    /// A function that the runtime implements, by its name.
    pub open spec fn call_builtin(
        self,
        name: Text,
        args: Seq<(Text, Text)>,
    ) -> (Gen, (Text, Text)) {
        let g = self;
        if name == "len"@ {
            g.builtin_len(args)
        } else if name == "str"@ {
            g.builtin_str(args)
        } else if name == "abs"@ {
            g.builtin_abs(args)
        } else if name == "sqrt"@ || name == "sin"@ || name == "cos"@ || name == "floor"@
            || name == "ceil"@ || name == "round"@ {
            let (g, tmp) = g.fresh_label();
            g.real_function(tmp, name, args)
        } else if name == "pow"@ || name == "max"@ || name == "min"@ {
            let (g, tmp) = g.fresh_label();
            g.real_function2(tmp, name, args)
        } else if name == "rand"@ {
            let (g, tmp) = g.fresh_label();
            g.random_int(tmp, args)
        } else if name == "now"@ {
            g.call_string("yk_time_now()"@)
        } else if name == "sleep"@ {
            g.pause(args)
        } else if name == "timestamp"@ {
            g.call_int("yk_time_timestamp()"@)
        } else if name == "fetch"@ {
            g.builtin_fetch(args)
        } else if name == "HTTP"@ {
            g.call_int("yk_http_new()"@)
        } else if name == "lookup"@ {
            g.builtin_lookup(args)
        } else if name == "Server"@ {
            g.call_int("yk_server_new()"@)
        } else if name == "TcpStream"@ {
            g.open_at("yk_tcp_connect"@, args)
        } else if name == "UdpSocket"@ {
            g.open_at("yk_udp_bind"@, args)
        } else {
            g.open_at("yk_tcp_listen"@, args)
        }
    }

    /// Registers a route of a server.
    pub open spec fn add_route(
        self,
        handle: Text,
        method_ptr: Text,
        path_ptr: Text,
        handler_ptr: Text,
    ) -> (Gen, (Text, Text)) {
        let g = self;
        let g = g.e(
            "call void @yk_server_add_route(i64 "@ + handle + ", ptr "@ + method_ptr + ", ptr "@
                + path_ptr + ", i64 "@ + handler_ptr + ")"@
        );
        (g, ("0"@, "void"@))
    }

    /// Adds a request handler to the module; the value is its address.
    pub open spec fn add_handler_fn(self, hname: Text, ir: Text) -> (Gen, Text) {
        let g = self;
        let g = g.add_handler(embedded(ir));
        let (g, tmp) = g.fresh_label();
        let g = g.e("%"@ + tmp + " = ptrtoint ptr @"@ + hname + " to i64"@);
        (g, "%"@ + tmp)
    }

    /// Prints the arguments, one by one.
    pub open spec fn print_args(self, args: Seq<(Text, Text)>) -> Gen
        decreases args.len(),
    {
        if args.len() == 0 {
            self
        } else {
            self.print_args(args.drop_last()).print_value(args.last().0, args.last().1)
        }
    }

    /// Stores the arguments of a constructor into the fields, as far as both go.
    pub open spec fn store_fields(
        self,
        obj_ty: Text,
        alloca_ptr: Text,
        defs: Seq<(Text, Text)>,
        args: Seq<(Text, Text)>,
    ) -> Gen
        decreases defs.len(),
    {
        if defs.len() == 0 {
            self
        } else {
            let g = self.store_fields(obj_ty, alloca_ptr, defs.drop_last(), args);
            let i = (defs.len() - 1) as nat;
            if i < args.len() {
                g.store_field(obj_ty, alloca_ptr, i, defs.last().1, args[i as int].0)
            } else {
                g
            }
        }
    }

    /// Makes an instance of a class from the arguments of its constructor.
    pub open spec fn construct(self, name: Text, args: Seq<(Text, Text)>) -> (Gen, (Text, Text)) {
        let (g, alloca_ptr) = self.begin_instance(name);
        let defs = match g.class_def(name) {
            Some(list) => list,
            None => seq![],
        };
        let g = g.store_fields("%class."@ + name, alloca_ptr, defs, args);
        g.finish_instance(name, alloca_ptr)
    }

    /// An argument as it is passed to a parameter of type `pt`: a class value becomes an interface
    /// value, and a value becomes a variant of a union, where the parameter asks for it.
    pub open spec fn pass_arg(
        self,
        val: Text,
        ty: Text,
        pt: Text,
        variants: Seq<TypeExpr>,
    ) -> (Gen, Text) {
        if begins(pt, "%iface."@) && begins(ty, "%class."@) {
            let (g, v) = self.make_interface(
                pt,
                pt.skip("%iface."@.len() as int),
                val,
                ty,
                ty.skip("%class."@.len() as int),
            );
            (g, pt + " "@ + v)
        } else if pt == "%yk_variant"@ && ty != pt {
            let (g, w) = self.wrap_as_union(variants, val, ty);
            match w {
                Some(v) => (g, pt + " "@ + v),
                None => (g, ty + " "@ + val),
            }
        } else {
            (self, ty + " "@ + val)
        }
    }

    /// The arguments as they are passed to the function `mangled`, whose parameter types are `types`.
    pub open spec fn pass_args(
        self,
        mangled: Text,
        types: Seq<Text>,
        args: Seq<(Text, Text)>,
    ) -> (Gen, Seq<Text>)
        decreases args.len(),
    {
        if args.len() == 0 {
            (self, seq![])
        } else {
            let (g, list) = self.pass_args(mangled, types, args.drop_last());
            let i = args.len() - 1;
            let (val, ty) = args.last();
            if i < types.len() {
                let (g, a) = g.pass_arg(
                    val,
                    ty,
                    types[i],
                    union_at(g.params_of(mangled), i as nat),
                );
                (g, list.push(a))
            } else {
                (g, list.push(ty + " "@ + val))
            }
        }
    }

    /// Calls a function of the program.
    pub open spec fn call_function(self, name: Text, args: Seq<(Text, Text)>) -> (Gen, (Text, Text)) {
        let (g, tmp) = self.fresh_label();
        let mangled = g.mangle_name(name);
        let fn_ret = g.fn_ret_type(mangled);
        let (g, list) = match g.fn_param_types_of(mangled) {
            Some(types) => g.pass_args(mangled, types, args),
            None => (g, typed(args)),
        };
        g.finish_call(tmp, mangled, fn_ret, joined(list, ", "@))
    }

    /// A call by name: of `print`, of the runtime, of a class, or of a function of the program.
    pub open spec fn call_named(self, name: Text, args: Seq<(Text, Text)>) -> (Gen, (Text, Text)) {
        if name == "print"@ || name == "println"@ {
            (self.print_args(args), ("0"@, "void"@))
        } else if builtin_name(name) {
            self.call_builtin(name, args)
        } else if self.has_class(name) {
            self.construct(name, args)
        } else {
            self.call_function(name, args)
        }
    }

    /// Calls an anonymous function, which is put off.
    pub open spec fn call_closure(
        self,
        params: Seq<Param>,
        ret: Option<TypeNode>,
        body: ExprNode,
        args: Seq<(Text, Text)>,
    ) -> (Gen, (Text, Text)) {
        let module = self.module_name();
        let (g, n) = self.next_closure();
        let name = if module == ""@ {
            n
        } else {
            module + "."@ + n
        };
        let g = g.defer(name, params, ret, body);
        g.call_int(name + "("@ + call_args(args) + ")"@)
    }

    /// The address of a request handler that is given as an expression.
    pub open spec fn handler_pointer(
        self,
        args: Seq<(Text, Text)>,
        sources: Seq<ExprNode>,
    ) -> (Gen, Text) {
        if sources.len() <= 1 {
            (self, "0"@)
        } else {
            match sources[1].value {
                Expr::LitStr(content) => {
                    let (g, l) = self.fresh_label();
                    let hname = "__yk_handler_lit_"@ + l;
                    g.add_handler_fn(hname, static_handler(hname, content@, 200))
                },
                Expr::Ident(fn_name) => match self.body_of(fn_name@) {
                    Some(body) => {
                        let hname = "__yk_handler_fn_"@ + fn_name@;
                        match body_handler(hname, body) {
                            Some(ir) => self.add_handler_fn(hname, ir),
                            None => (self, "0"@),
                        }
                    },
                    None => (self, arg_value(args, 1, "0"@)),
                },
                Expr::FnLit(_, _, body) => {
                    let (g, l) = self.fresh_label();
                    let hname = "__yk_handler_closure_"@ + l;
                    g.add_handler_fn(hname, expr_handler(hname, *body))
                },
                Expr::Closure(_, body) => {
                    let (g, l) = self.fresh_label();
                    let hname = "__yk_handler_closure_"@ + l;
                    g.add_handler_fn(hname, expr_handler(hname, *body))
                },
                _ => (self, arg_value(args, 1, "0"@)),
            }
        }
    }

    /// A method of a server: it serves, or it gets a route.
    pub open spec fn compile_server_method(
        self,
        handle: Text,
        field: Text,
        args: Seq<(Text, Text)>,
        sources: Seq<ExprNode>,
    ) -> (Gen, (Text, Text)) {
        if field == "serve"@ {
            let (g, addr_ptr) = self.arg_ptr(args, 0);
            let g = g.e("call void @yk_server_serve(i64 "@ + handle + ", ptr "@ + addr_ptr + ")"@);
            (g, ("0"@, "void"@))
        } else if server_has(field) {
            let (g, method_slot) = self.make_string_slot(verb_of(field));
            let (g, method_ptr) = g.string_to_ptr(method_slot);
            let (g, path_ptr) = g.arg_ptr(args, 0);
            let (g, handler_ptr) = g.handler_pointer(args, sources);
            g.add_route(handle, method_ptr, path_ptr, handler_ptr)
        } else {
            (self, ("0"@, "i64"@))
        }
    }
}

/// The variants of the union type of the parameter at a position; none where it has no such type.
pub open spec fn union_at(params: Option<Seq<Param>>, i: nat) -> Seq<TypeExpr> {
    match params {
        Some(list) => if i < list.len() {
            match list[i as int].type_expr.value {
                TypeExpr::Union(variants) => variants@,
                _ => seq![],
            }
        } else {
            seq![]
        },
        None => seq![],
    }
}

impl<'a> LlvmCodegen<'a> {
    pub(crate) fn begin_instance(&mut self, name: &str) -> (r: String)
        ensures
            (final(self)@, r@) == old(self)@.begin_instance(name@),
    {
        let obj_ty = cat2("%class.", name);
        let alloca_ptr = self.fresh_label();
        self.e(&cat5("%", &alloca_ptr, " = alloca ", &obj_ty, ", align 8"));
        self.e(&cat4("store ", &obj_ty, " zeroinitializer, ptr %", &alloca_ptr));
        let vptr = self.fresh_label();
        self.e(
            &cat7("%", &vptr, " = getelementptr inbounds ", &obj_ty, ", ptr %", &alloca_ptr,
                ", i32 0, i32 0")
        );
        let virt = self.fresh_label();
        self.e(&cat5("%", &virt, " = ptrtoint ptr @vtable.", name, " to i64"));
        self.e(&cat4("store i64 %", &virt, ", ptr %", &vptr));
        alloca_ptr
    }

    pub(crate) fn store_field(
        &mut self,
        obj_ty: &str,
        alloca_ptr: &str,
        i: usize,
        fty: &str,
        val: &str,
    )
        ensures
            final(self)@ == old(self)@.store_field(obj_ty@, alloca_ptr@, i as nat, fty@, val@),
    {
        let fptr = self.fresh_label();
        self.e(
            &cat8("%", &fptr, " = getelementptr inbounds ", obj_ty, ", ptr %", alloca_ptr,
                ", i32 0, i32 ", &dec_next_text(i))
        );
        self.e(&cat6("store ", fty, " ", val, ", ptr %", &fptr));
    }

    pub(crate) fn finish_instance(&mut self, name: &str, alloca_ptr: &str) -> (r: (String, String))
        ensures
            (final(self)@, (r.0@, r.1@)) == old(self)@.finish_instance(name@, alloca_ptr@),
    {
        let obj_ty = cat2("%class.", name);
        let loaded = self.fresh_label();
        self.e(&cat6("%", &loaded, " = load ", &obj_ty, ", ptr %", alloca_ptr));
        let module = self.class_module(name);
        let mangled_init = scope_name("__class_init", &module, name);
        let init_ptr = self.fresh_label();
        self.e(&cat5("%", &init_ptr, " = ptrtoint ptr %", alloca_ptr, " to i64"));
        self.e(&cat5("call void @", &mangled_init, "(i64 %", &init_ptr, ")"));
        (cat2("%", &loaded), obj_ty)
    }

    pub(crate) fn finish_call(
        &mut self,
        tmp: &str,
        mangled: &str,
        fn_ret: &str,
        list: &str,
    ) -> (r: (String, String))
        ensures
            (final(self)@, (r.0@, r.1@)) == old(self)@.finish_call(tmp@, mangled@, fn_ret@, list@),
    {
        if same(fn_ret, "void") {
            self.e(&cat5("call void @", mangled, "(", list, ")"));
            (owned("0"), owned("void"))
        } else {
            self.e(&cat9("%", tmp, " = call ", fn_ret, " @", mangled, "(", list, ")"));
            (cat2("%", tmp), owned(fn_ret))
        }
    }

    pub(crate) fn call_builtin(
        &mut self,
        name: &str,
        args: &Vec<(String, String)>,
    ) -> (r: (String, String))
        ensures
            (final(self)@, (r.0@, r.1@)) == old(self)@.call_builtin(name@, pairs(args@)),
    {
        if same(name, "len") {
            self.builtin_len(args)
        } else if same(name, "str") {
            self.builtin_str(args)
        } else if same(name, "abs") {
            self.builtin_abs(args)
        } else if same(name, "sqrt") || same(name, "sin") || same(name, "cos") || same(name, "floor")
            || same(name, "ceil") || same(name, "round") {
            let tmp = self.fresh_label();
            self.real_function(&tmp, name, args)
        } else if same(name, "pow") || same(name, "max") || same(name, "min") {
            let tmp = self.fresh_label();
            self.real_function2(&tmp, name, args)
        } else if same(name, "rand") {
            let tmp = self.fresh_label();
            self.random_int(&tmp, args)
        } else if same(name, "now") {
            self.call_string("yk_time_now()")
        } else if same(name, "sleep") {
            self.pause(args)
        } else if same(name, "timestamp") {
            self.call_int("yk_time_timestamp()")
        } else if same(name, "fetch") {
            self.builtin_fetch(args)
        } else if same(name, "HTTP") {
            self.call_int("yk_http_new()")
        } else if same(name, "lookup") {
            self.builtin_lookup(args)
        } else if same(name, "Server") {
            self.call_int("yk_server_new()")
        } else if same(name, "TcpStream") {
            self.open_at("yk_tcp_connect", args)
        } else if same(name, "UdpSocket") {
            self.open_at("yk_udp_bind", args)
        } else {
            self.open_at("yk_tcp_listen", args)
        }
    }

    pub(crate) fn add_route(
        &mut self,
        handle: &str,
        method_ptr: &str,
        path_ptr: &str,
        handler_ptr: &str,
    ) -> (r: (String, String))
        ensures
            (final(self)@, (r.0@, r.1@)) == old(self)@.add_route(handle@, method_ptr@, path_ptr@,
                handler_ptr@),
    {
        self.e(
            &cat9("call void @yk_server_add_route(i64 ", handle, ", ptr ", method_ptr, ", ptr ",
                path_ptr, ", i64 ", handler_ptr, ")")
        );
        (owned("0"), owned("void"))
    }

    pub(crate) fn add_handler_fn(&mut self, hname: &str, ir: &str) -> (r: String)
        ensures
            (final(self)@, r@) == old(self)@.add_handler_fn(hname@, ir@),
    {
        self.add_handler(&embed_handler(ir));
        let tmp = self.fresh_label();
        self.e(&cat5("%", &tmp, " = ptrtoint ptr @", hname, " to i64"));
        cat2("%", &tmp)
    }

    fn print_args(&mut self, args: &Vec<(String, String)>)
        ensures
            final(self)@ == old(self)@.print_args(pairs(args@)),
    {
        let ghost g = self@;
        let mut i: usize = 0;
        while i < args.len()
            invariant
                i <= args@.len(),
                self@ == g.print_args(pairs(args@).take(i as int)),
            decreases args.len() - i,
        {
            self.print_value(&args[i].0, &args[i].1);
            assert(pairs(args@).take(i + 1).drop_last() == pairs(args@).take(i as int));
            i += 1;
        }
        assert(pairs(args@).take(i as int) == pairs(args@));
    }

    fn store_fields(&mut self, obj_ty: &str, alloca_ptr: &str, defs: &Pairs, args: &Vec<(String, String)>)
        ensures
            final(self)@ == old(self)@.store_fields(obj_ty@, alloca_ptr@, defs@, pairs(args@)),
    {
        let ghost g = self@;
        let mut i: usize = 0;
        while i < defs.list.len()
            invariant
                i <= defs.list@.len(),
                self@ == g.store_fields(obj_ty@, alloca_ptr@, defs@.take(i as int), pairs(args@)),
            decreases defs.list.len() - i,
        {
            assert(defs@.take(i + 1).drop_last() == defs@.take(i as int));
            assert(defs@[i as int] == (defs.list@[i as int].0@, defs.list@[i as int].1@));
            if i < args.len() {
                self.store_field(obj_ty, alloca_ptr, i, &defs.list[i].1, &args[i].0);
            }
            i += 1;
        }
        assert(defs@.take(i as int) == defs@);
    }

    fn construct(&mut self, name: &str, args: &Vec<(String, String)>) -> (r: (String, String))
        ensures
            (final(self)@, (r.0@, r.1@)) == old(self)@.construct(name@, pairs(args@)),
    {
        let alloca_ptr = self.begin_instance(name);
        let defs = match self.class_def(name) {
            Some(list) => list,
            None => Pairs::new(),
        };
        let obj_ty = cat2("%class.", name);
        self.store_fields(&obj_ty, &alloca_ptr, &defs, args);
        self.finish_instance(name, &alloca_ptr)
    }

    fn pass_arg(&mut self, val: &str, ty: &str, pt: &str, variants: Option<&'a Vec<TypeExpr>>) -> (r: String)
        ensures
            (final(self)@, r@) == old(self)@.pass_arg(val@, ty@, pt@, opt_variants(variants)),
    {
        match (strip_prefix(pt, "%iface."), strip_prefix(ty, "%class.")) {
            (Some(iface_name), Some(class_name)) => {
                let v = self.make_interface(pt, &iface_name, val, ty, &class_name);
                cat3(pt, " ", &v)
            },
            _ => {
                if same(pt, "%yk_variant") && !same(ty, pt) {
                    let w = match variants {
                        Some(list) => self.wrap_as_union(list, val, ty),
                        None => None,
                    };
                    match w {
                        Some(v) => cat3(pt, " ", &v),
                        None => cat3(ty, " ", val),
                    }
                } else {
                    cat3(ty, " ", val)
                }
            },
        }
    }

    fn pass_args(&mut self, mangled: &str, types: &Names, args: &Vec<(String, String)>) -> (r: Vec<String>)
        ensures
            (final(self)@, texts(r@)) == old(self)@.pass_args(mangled@, types@, pairs(args@)),
    {
        let ghost g = self@;
        let mut r: Vec<String> = Vec::new();
        let mut i: usize = 0;
        assert(texts(r@) == Seq::<Text>::empty());
        while i < args.len()
            invariant
                i <= args@.len(),
                (self@, texts(r@)) == g.pass_args(mangled@, types@, pairs(args@).take(i as int)),
            decreases args.len() - i,
        {
            let ghost before = r@;
            let t = if i < types.list.len() {
                let variants = union_of_param(self.params_of(mangled), i);
                assert(types@[i as int] == types.list@[i as int]@);
                self.pass_arg(&args[i].0, &args[i].1, &types.list[i], variants)
            } else {
                cat3(&args[i].1, " ", &args[i].0)
            };
            let ghost text = t@;
            r.push(t);
            assert(texts(r@) == texts(before).push(text));
            assert(pairs(args@).take(i + 1).drop_last() == pairs(args@).take(i as int));
            i += 1;
        }
        assert(pairs(args@).take(i as int) == pairs(args@));
        r
    }

    fn call_function(&mut self, name: &str, args: &Vec<(String, String)>) -> (r: (String, String))
        ensures
            (final(self)@, (r.0@, r.1@)) == old(self)@.call_function(name@, pairs(args@)),
    {
        let tmp = self.fresh_label();
        let mangled = self.mangle_name(name);
        let fn_ret = self.fn_ret_type(&mangled);
        let list = match self.fn_param_types_of(&mangled) {
            Some(types) => self.pass_args(&mangled, &types, args),
            None => typed_list(args),
        };
        self.finish_call(&tmp, &mangled, &fn_ret, &join(&list, ", "))
    }

    pub(crate) fn call_named(&mut self, name: &str, args: &Vec<(String, String)>) -> (r: (String, String))
        ensures
            (final(self)@, (r.0@, r.1@)) == old(self)@.call_named(name@, pairs(args@)),
    {
        if same(name, "print") || same(name, "println") {
            self.print_args(args);
            (owned("0"), owned("void"))
        } else if is_builtin(name) {
            self.call_builtin(name, args)
        } else if self.has_class(name) {
            self.construct(name, args)
        } else {
            self.call_function(name, args)
        }
    }

    pub(crate) fn call_closure(
        &mut self,
        params: &'a Vec<Param>,
        ret: Option<&'a TypeNode>,
        body: &'a ExprNode,
        args: &Vec<(String, String)>,
    ) -> (r: (String, String))
        ensures
            (final(self)@, (r.0@, r.1@)) == old(self)@.call_closure(
                params@,
                opt_node(ret),
                *body,
                pairs(args@),
            ),
    {
        let module = self.module_name();
        let n = self.next_closure();
        let name = if same(&module, "") {
            n
        } else {
            cat3(&module, ".", &n)
        };
        self.defer(&name, params, ret, body);
        self.call_int(&cat4(&name, "(", &call_arguments(args), ")"))
    }

    fn handler_pointer(&mut self, args: &Vec<(String, String)>, sources: &Vec<ExprNode>) -> (r: String)
        ensures
            (final(self)@, r@) == old(self)@.handler_pointer(pairs(args@), sources@),
    {
        if sources.len() <= 1 {
            owned("0")
        } else {
            match &sources[1].value {
                Expr::LitStr(content) => {
                    let l = self.fresh_label();
                    let hname = cat2("__yk_handler_lit_", &l);
                    self.add_handler_fn(&hname, &generate_static_handler_ir(&hname, content, 200))
                },
                Expr::Ident(fn_name) => match self.body_of(fn_name) {
                    Some(body) => {
                        let hname = cat2("__yk_handler_fn_", fn_name);
                        match generate_body_handler(&hname, body) {
                            Some(ir) => self.add_handler_fn(&hname, &ir),
                            None => owned("0"),
                        }
                    },
                    None => arg_value_or(args, 1, "0"),
                },
                Expr::FnLit(_, _, body) => {
                    let l = self.fresh_label();
                    let hname = cat2("__yk_handler_closure_", &l);
                    self.add_handler_fn(&hname, &generate_expr_handler(&hname, body))
                },
                Expr::Closure(_, body) => {
                    let l = self.fresh_label();
                    let hname = cat2("__yk_handler_closure_", &l);
                    self.add_handler_fn(&hname, &generate_expr_handler(&hname, body))
                },
                _ => arg_value_or(args, 1, "0"),
            }
        }
    }

    pub(crate) fn compile_server_method(
        &mut self,
        handle: &str,
        field: &str,
        args: &Vec<(String, String)>,
        sources: &Vec<ExprNode>,
    ) -> (r: (String, String))
        ensures
            (final(self)@, (r.0@, r.1@)) == old(self)@.compile_server_method(
                handle@,
                field@,
                pairs(args@),
                sources@,
            ),
    {
        if same(field, "serve") {
            let addr_ptr = self.arg_ptr(args, 0);
            self.e(&cat5("call void @yk_server_serve(i64 ", handle, ", ptr ", &addr_ptr, ")"));
            (owned("0"), owned("void"))
        } else if is_server_method(field) {
            let method_slot = self.make_string_slot(&http_verb(field));
            let method_ptr = self.string_to_ptr(&method_slot);
            let path_ptr = self.arg_ptr(args, 0);
            let handler_ptr = self.handler_pointer(args, sources);
            self.add_route(handle, &method_ptr, &path_ptr, &handler_ptr)
        } else {
            (owned("0"), owned("i64"))
        }
    }
}

/// An optional list of variants; none counts as an empty one.
pub open spec fn opt_variants(o: Option<&Vec<TypeExpr>>) -> Seq<TypeExpr> {
    match o {
        Some(list) => list@,
        None => seq![],
    }
}

/// An optional list of parameters, as the model gives it.
pub open spec fn opt_params(o: Option<&Vec<Param>>) -> Option<Seq<Param>> {
    match o {
        Some(list) => Some(list@),
        None => None,
    }
}

fn union_of_param<'b>(params: Option<&'b Vec<Param>>, i: usize) -> (r: Option<&'b Vec<TypeExpr>>)
    ensures
        opt_variants(r) == union_at(opt_params(params), i as nat),
{
    match params {
        Some(list) => {
            if i < list.len() {
                match &list[i].type_expr.value {
                    TypeExpr::Union(variants) => Some(variants),
                    _ => None,
                }
            } else {
                None
            }
        },
        None => None,
    }
}

} // verus!
