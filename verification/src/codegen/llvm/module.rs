//! Modules: what their items define, and the functions that they become.

use vstd::prelude::*;

use crate::codegen::llvm::names::{
    call_arg_types, copies, copies_text, scope_name, scoped_name, type_list, types_of,
};
use crate::codegen::llvm::state::{
    Deferred, DeferredFn, fresh_gen, Gen, lines_string, lines_text, LlvmCodegen, opt_node, Scope,
    Spawned, SpawnedExpr,
};
use crate::scan::{
    begins, behind, find, first_from, in_front, join, joined, starts_with, strip_prefix,
    strip_suffix, texts,
};
use crate::syntax::ast::{
    Import, ItemKind, ItemNode, MethodSig, Module, Param, Stmt, StmtNode, TypeNode,
};
use crate::table::{lookup, Names, Pairs, pairs, put, Table};
use crate::text::{cat11, cat2, cat3, cat4, cat5, cat6, cat7, chars_of, owned, same, Text, text_of};

verus! {

/// What every module declares of the runtime.
pub const RUNTIME_DECLARATIONS: &'static str = "declare void @yk_print_int(i64)\n\
declare void @yk_print_real(double)\n\
declare void @yk_print_bool(i1)\n\
declare void @yk_print_str_ptr(ptr)\n\
declare ptr @yk_string_from_int(i64)\n\
declare ptr @yk_string_from_real(double)\n\
declare ptr @yk_string_from_bool(i1)\n\
declare ptr @yk_string_from_complex(ptr)\n\
declare ptr @yk_string_concat_ptr(ptr, ptr)\n\
declare i64 @yk_string_len_ptr(ptr)\n\
declare void @yk_complex_set(ptr, double, double)\n\
declare double @yk_complex_real(ptr)\n\
declare double @yk_complex_imag(ptr)\n\
declare double @yk_complex_mod(ptr)\n\
declare double @yk_complex_arg(ptr)\n\
declare void @yk_complex_conj(ptr, ptr)\n\
declare void @yk_complex_add(ptr, ptr, ptr)\n\
declare void @yk_complex_sub(ptr, ptr, ptr)\n\
declare void @yk_complex_mul(ptr, ptr, ptr)\n\
declare void @yk_complex_div(ptr, ptr, ptr)\n\
declare void @yk_print_complex(ptr)\n\
declare i64 @yk_run_thread(ptr, ptr)\n\
declare i64 @yk_join_thread(i64)\n\
declare void @yk_task_set_result(i64, i64)\n\
declare i64 @yk_math_abs_i64(i64)\n\
declare double @yk_math_abs_real(double)\n\
declare double @yk_math_sqrt(double)\n\
declare double @yk_math_sin(double)\n\
declare double @yk_math_cos(double)\n\
declare double @yk_math_floor(double)\n\
declare double @yk_math_ceil(double)\n\
declare double @yk_math_round(double)\n\
declare double @yk_math_pow(double, double)\n\
declare double @yk_math_max(double, double)\n\
declare double @yk_math_min(double, double)\n\
declare i64 @yk_math_rand(i64)\n\
declare ptr @yk_time_now()\n\
declare void @yk_time_sleep(i64)\n\
declare i64 @yk_time_timestamp()\n\
declare i64 @yk_sys_pid()\n\
declare void @yk_sys_exit(i64)\n\
declare ptr @yk_sys_cwd()\n\
declare ptr @yk_sys_platform()\n\
declare ptr @yk_sys_env(ptr)\n\
declare ptr @yk_path_join(ptr, ptr)\n\
declare ptr @yk_path_dirname(ptr)\n\
declare ptr @yk_path_basename(ptr)\n\
declare ptr @yk_path_extension(ptr)\n\
declare i64 @yk_path_is_absolute(ptr)\n\
declare ptr @yk_fs_read(ptr)\n\
declare void @yk_fs_write(ptr, ptr)\n\
declare void @yk_fs_append(ptr, ptr)\n\
declare void @yk_fs_remove(ptr)\n\
declare i64 @yk_fs_exists(ptr)\n\
declare i64 @yk_fs_is_dir(ptr)\n\
declare i64 @yk_fs_is_file(ptr)\n\
declare ptr @yk_base64_encode(ptr)\n\
declare ptr @yk_base64_decode(ptr)\n\
declare ptr @yk_json_string(ptr)\n\
declare i64 @yk_re_match(ptr, ptr)\n\
declare ptr @yk_re_replace(ptr, ptr, ptr)\n\
declare ptr @yk_fetch(ptr, ptr, ptr)\n\
declare i64 @yk_server_new()\n\
declare void @yk_server_add_route(i64, ptr, ptr, i64)\n\
declare i64 @yk_tcp_connect(ptr)\n\
declare i64 @yk_tcp_send(i64, ptr)\n\
declare ptr @yk_tcp_recv(i64, i64)\n\
declare void @yk_tcp_close(i64)\n\
declare ptr @yk_dns_lookup(ptr)\n\
declare i64 @yk_tcp_listen(ptr)\n\
declare i64 @yk_tcp_accept(i64)\n\
declare i64 @yk_http_new()\n\
declare void @yk_http_request(i64, ptr, ptr, ptr)\n\
declare i32 @yk_http_status(i64)\n\
declare ptr @yk_http_body(i64)\n\
declare void @yk_http_free(i64)\n\
declare i64 @yk_udp_bind(ptr)\n\
declare i64 @yk_udp_send_to(i64, ptr, ptr)\n\
declare ptr @yk_udp_recv_from(i64, i64)\n\
declare void @yk_server_serve(i64, ptr)\n\
declare ptr @yk_list_new()\n\
declare void @yk_list_push(ptr, i64)\n\
declare i64 @yk_list_get(ptr, i64)\n\
declare i64 @yk_list_len(ptr)\n\
declare i64 @yk_list_pop(ptr)\n\
declare void @yk_list_print(ptr)\n\
declare ptr @yk_list_to_string(ptr)\n\
declare void @yk_list_sort(ptr)\n\
declare void @yk_list_reverse(ptr)\n\
declare void @yk_list_insert(ptr, i64, i64)\n\
declare void @yk_list_remove(ptr, i64)\n\
declare void @yk_list_clear(ptr)\n\
declare void @yk_print_result_val(i64, i1)\n\
declare i64 @yk_result_str_new(i64, i64)\n\
declare i64 @yk_pow_int(i64, i64)\n\
declare double @yk_pow_real(double, double)\n\
declare ptr @yk_datetime_now()\n\
declare ptr @yk_datetime_utc()\n\
declare i64 @yk_datetime_year(i64)\n\
declare i64 @yk_datetime_month(i64)\n\
declare i64 @yk_datetime_day(i64)\n\
declare i64 @yk_datetime_hour(i64)\n\
declare i64 @yk_datetime_minute(i64)\n\
declare i64 @yk_datetime_second(i64)\n\
declare ptr @yk_datetime_format(i64, ptr)\n\n";

// ---------------------------------------------------------------------------------------------
// Lists
// ---------------------------------------------------------------------------------------------
/// The items of a module, each with the module.
pub open spec fn module_items<'b>(module: &'b Module) -> Seq<(&'b Module, &'b ItemNode)> {
    Seq::new(module.items@.len(), |i: int| (module, &module.items@[i]))
}

/// The items of all modules, in order, each with its module.
pub open spec fn all_items<'b>(modules: Seq<&'b Module>) -> Seq<(&'b Module, &'b ItemNode)>
    decreases modules.len(),
{
    if modules.len() == 0 {
        seq![]
    } else {
        all_items(modules.drop_last()) + module_items(modules.last())
    }
}

fn items_of<'b>(module: &'b Module) -> (r: Vec<(&'b Module, &'b ItemNode)>)
    ensures
        r@ == module_items(module),
{
    let mut r: Vec<(&'b Module, &'b ItemNode)> = Vec::new();
    let mut i: usize = 0;
    while i < module.items.len()
        invariant
            i <= module.items@.len(),
            r@ == module_items(module).take(i as int),
        decreases module.items.len() - i,
    {
        r.push((module, &module.items[i]));
        assert(r@ == module_items(module).take(i + 1));
        i += 1;
    }
    assert(module_items(module).take(i as int) == module_items(module));
    r
}

fn items_of_all<'b>(modules: &[&'b Module]) -> (r: Vec<(&'b Module, &'b ItemNode)>)
    ensures
        r@ == all_items(modules@),
{
    let mut r: Vec<(&'b Module, &'b ItemNode)> = Vec::new();
    let mut i: usize = 0;
    while i < modules.len()
        invariant
            i <= modules@.len(),
            r@ == all_items(modules@.take(i as int)),
        decreases modules.len() - i,
    {
        let mut more = items_of(modules[i]);
        r.append(&mut more);
        assert(modules@.take(i + 1).drop_last() == modules@.take(i as int));
        i += 1;
    }
    assert(modules@.take(i as int) == modules@);
    r
}

/// Whether an item is the function `main`.
pub open spec fn is_main(item: ItemNode) -> bool {
    match item.value {
        ItemKind::Fn { name, .. } => name@ == "main"@,
        _ => false,
    }
}

/// The first `main` among the items.
pub open spec fn first_main<'b>(items: Seq<(&'b Module, &'b ItemNode)>) -> Option<&'b ItemNode>
    decreases items.len(),
{
    if items.len() == 0 {
        None
    } else if first_main(items.drop_last()) is Some {
        first_main(items.drop_last())
    } else if is_main(*items.last().1) {
        Some(items.last().1)
    } else {
        None
    }
}

fn main_item<'b>(items: &Vec<(&'b Module, &'b ItemNode)>) -> (r: Option<&'b ItemNode>)
    ensures
        r == first_main(items@),
{
    let mut found: Option<&'b ItemNode> = None;
    let mut i: usize = 0;
    while i < items.len()
        invariant
            i <= items@.len(),
            found == first_main(items@.take(i as int)),
        decreases items.len() - i,
    {
        assert(items@.take(i + 1).drop_last() == items@.take(i as int));
        if found.is_none() {
            let main = match &items[i].1.value {
                ItemKind::Fn { name, .. } => same(name, "main"),
                _ => false,
            };
            if main {
                found = Some(items[i].1);
            }
        }
        i += 1;
    }
    assert(items@.take(i as int) == items@);
    found
}

/// The alignment that a decorator `align(n)` asks for, as it is written behind a type.
pub open spec fn alignment(decorators: Seq<Text>) -> Text
    decreases decorators.len(),
{
    if decorators.len() == 0 {
        ""@
    } else {
        match align_of(decorators[0]) {
            Some(n) => ", align "@ + n,
            None => alignment(decorators.skip(1)),
        }
    }
}

/// The number in a decorator `align(n)`.
pub open spec fn align_of(decorator: Text) -> Option<Text> {
    match behind(decorator, "align("@) {
        Some(rest) => in_front(rest, ")"@),
        None => None,
    }
}

fn alignment_text(decorators: &Vec<String>) -> (r: String)
    ensures
        r@ == alignment(texts(decorators@)),
{
    let ghost all = texts(decorators@);
    let mut i: usize = 0;
    assert(all.skip(0) == all);
    while i < decorators.len()
        invariant
            all == texts(decorators@),
            i <= decorators@.len(),
            alignment(all) == alignment(all.skip(i as int)),
        decreases decorators.len() - i,
    {
        assert(all.skip(i as int)[0] == decorators@[i as int]@);
        assert(all.skip(i as int).skip(1) == all.skip(i + 1));
        match strip_prefix(&decorators[i], "align(") {
            Some(rest) => match strip_suffix(&rest, ")") {
                Some(n) => {
                    return cat2(", align ", &n);
                },
                None => {},
            },
            None => {},
        }
        i += 1;
    }
    owned("")
}

/// The functions of a method table, as they stand in it.
pub open spec fn vtable_entries(methods: Seq<(Text, Text)>) -> Seq<Text> {
    methods.map_values(|m: (Text, Text)| "ptr @"@ + m.1)
}

fn vtable_entry_list(methods: &Pairs) -> (r: Vec<String>)
    ensures
        texts(r@) == vtable_entries(methods@),
{
    let mut r: Vec<String> = Vec::new();
    let mut i: usize = 0;
    while i < methods.list.len()
        invariant
            i <= methods.list@.len(),
            texts(r@) == vtable_entries(methods@).take(i as int),
        decreases methods.list.len() - i,
    {
        let t = cat2("ptr @", &methods.list[i].1);
        let ghost before = r@;
        let ghost text = t@;
        r.push(t);
        assert(texts(r@) == texts(before).push(text));
        assert(vtable_entries(methods@).take(i + 1) == vtable_entries(methods@).take(i as int).push(text));
        i += 1;
    }
    assert(vtable_entries(methods@).take(i as int) == vtable_entries(methods@));
    r
}

/// The functions of a class for the methods of an interface that it has.
pub open spec fn interface_entries(wanted: Seq<Text>, methods: Seq<(Text, Text)>) -> Seq<Text>
    decreases wanted.len(),
{
    if wanted.len() == 0 {
        seq![]
    } else {
        let list = interface_entries(wanted.drop_last(), methods);
        match lookup(methods, wanted.last()) {
            Some(f) => list.push("ptr @"@ + f),
            None => list,
        }
    }
}

fn interface_entry_list(wanted: &Names, methods: &Pairs) -> (r: Vec<String>)
    ensures
        texts(r@) == interface_entries(wanted@, methods@),
{
    let mut r: Vec<String> = Vec::new();
    let mut i: usize = 0;
    assert(texts(r@) == Seq::<Text>::empty());
    while i < wanted.list.len()
        invariant
            i <= wanted.list@.len(),
            texts(r@) == interface_entries(wanted@.take(i as int), methods@),
        decreases wanted.list.len() - i,
    {
        assert(wanted@.take(i + 1).drop_last() == wanted@.take(i as int));
        assert(wanted@[i as int] == wanted.list@[i as int]@);
        match methods.position(&wanted.list[i]) {
            Some(k) => {
                assert(methods@[k as int] == (methods.list@[k as int].0@, methods.list@[k as int].1@));
                let t = cat2("ptr @", &methods.list[k].1);
                let ghost before = r@;
                let ghost text = t@;
                r.push(t);
                assert(texts(r@) == texts(before).push(text));
            },
            None => {},
        }
        i += 1;
    }
    assert(wanted@.take(i as int) == wanted@);
    r
}

/// The names of the methods of an interface.
pub open spec fn method_names(methods: Seq<MethodSig>) -> Seq<Text> {
    methods.map_values(|m: MethodSig| m.name@)
}

fn method_name_list(methods: &Vec<MethodSig>) -> (r: Names)
    ensures
        r@ == method_names(methods@),
{
    let mut r = Names::new();
    let mut i: usize = 0;
    while i < methods.len()
        invariant
            i <= methods@.len(),
            r@ == method_names(methods@).take(i as int),
        decreases methods.len() - i,
    {
        r.push(methods[i].name.clone());
        assert(r@ == method_names(methods@).take(i + 1));
        i += 1;
    }
    assert(method_names(methods@).take(i as int) == method_names(methods@));
    r
}

/// Whether the first parameter is the receiver.
pub open spec fn has_self(params: Seq<Param>) -> bool {
    params.len() > 0 && params[0].name@ == "self"@
}

fn takes_self(params: &Vec<Param>) -> (r: bool)
    ensures
        r == has_self(params@),
{
    params.len() > 0 && same(&params[0].name, "self")
}

/// Whether a body ends with a return.
pub open spec fn ends_with_return(body: Seq<StmtNode>) -> bool {
    body.len() > 0 && body.last().value is Return
}

fn returns_at_end(body: &Vec<StmtNode>) -> (r: bool)
    ensures
        r == ends_with_return(body@),
{
    if body.len() == 0 {
        false
    } else {
        match &body[body.len() - 1].value {
            Stmt::Return(_) => true,
            _ => false,
        }
    }
}

/// The module text with the type definitions behind the first type of the head.
pub open spec fn with_types(output: Text, types: Seq<Text>) -> Text {
    let mark = "%yk_string = type { ptr, i64 }"@;
    match first_from(output, mark, 0) {
        Some(k) => if types.len() > 0 {
            output.take((k + mark.len()) as int) + ("\n"@ + lines_text(types) + "\n"@) + output.skip(
                (k + mark.len()) as int,
            )
        } else {
            output
        },
        None => output,
    }
}

fn insert_types(output: &str, types: &Vec<String>) -> (r: String)
    ensures
        r@ == with_types(output@, texts(types@)),
{
    let mark = "%yk_string = type { ptr, i64 }";
    if types.len() == 0 {
        return owned(output);
    }
    match find(output, mark) {
        Some(k) => {
            let v = chars_of(output);
            let m = chars_of(mark);
            let end = v.len();
            let at = k + m.len();
            let front = text_of(&v, 0, at);
            let back = text_of(&v, at, end);
            assert(front@ == output@.take(at as int));
            assert(back@ == output@.skip(at as int));
            let defs = cat3("\n", &lines_string(types), "\n");
            cat3(&front, &defs, &back)
        },
        None => owned(output),
    }
}

/// The value of a field that is not set.
pub open spec fn zero_text(ty: Text) -> Text {
    if ty == "i64"@ {
        "0"@
    } else if ty == "double"@ {
        "0.0"@
    } else if ty == "i1"@ {
        "false"@
    } else if begins(ty, "%"@) {
        ty + " zeroinitializer"@
    } else {
        "0"@
    }
}

pub(crate) fn zero_of(ty: &str) -> (r: String)
    ensures
        r@ == zero_text(ty@),
{
    if same(ty, "i64") {
        owned("0")
    } else if same(ty, "double") {
        owned("0.0")
    } else if same(ty, "i1") {
        owned("false")
    } else if starts_with(ty, "%") {
        cat2(ty, " zeroinitializer")
    } else {
        owned("0")
    }
}

impl Gen {
    /// Gives a function its linker name: `main` and the functions of a module without a name keep theirs.
    pub open spec fn name_fn(self, module: Text, name: Text) -> Gen {
        let g = self;
        let g = if name == "main"@ || module == ""@ {
            let g = g.set_fn_name(name, name);
            g
        } else {
            let g = g.set_fn_name(name, module + "."@ + name);
            g
        };
        g
    }

    /// Writes the type of the method table of a class.
    pub open spec fn write_vtable_type(self, name: Text, ptrs: Text) -> Gen {
        let g = self;
        let g = g.e_raw("%class."@ + name + ".vtable = type { "@ + ptrs + " }"@);
        g
    }

    /// Writes the method table of a class.
    pub open spec fn write_vtable(self, name: Text, entries: Text) -> Gen {
        let g = self;
        let g = g.e_raw(
            "@vtable."@ + name + " = global %class."@ + name + ".vtable { "@ + entries + " }"@
        );
        g
    }

    /// Writes the method table of a class for an interface.
    pub open spec fn write_interface_vtable(
        self,
        iface: Text,
        class: Text,
        ptrs: Text,
        entries: Text,
    ) -> Gen {
        let g = self;
        let g = g.e_raw("%"@ + iface + "."@ + class + ".iface_vtable = type { "@ + ptrs + " }"@);
        let g = g.e_raw(
            "@iface_vtable."@ + iface + "."@ + class + " = global %"@ + iface + "."@ + class
                + ".iface_vtable { "@ + entries + " }"@
        );
        g
    }

    /// Writes the first line of a function, and goes one level deeper.
    pub open spec fn begin_fn(self, ret: Text, name: Text, params: Text) -> Gen {
        let g = self;
        let g = g.e_raw("define "@ + ret + " @"@ + name + "("@ + params + ") {"@);
        let n = g.deeper();
        let g = g.set_indent(n);
        g
    }

    /// Goes back to the depth that a function began at, and writes its last line.
    pub open spec fn end_fn(self, depth: nat) -> Gen {
        let g = self;
        let g = g.set_indent(depth);
        let g = g.e_raw("}"@);
        let g = g.e_raw(""@);
        g
    }

    /// The return behind the body of a function.
    pub open spec fn final_return(self, ret: Text) -> Gen {
        let g = self;
        let g = if ret == "void"@ {
            let g = g.e("ret void"@);
            g
        } else if begins(ret, "%"@) {
            let g = g.e("ret "@ + ret + " zeroinitializer"@);
            g
        } else {
            let g = g.e("ret "@ + ret + " 0"@);
            g
        };
        g
    }

    /// The return behind the body of an anonymous function that returns something.
    pub open spec fn final_value(self, ret: Text) -> Gen {
        let g = self;
        let g = if ret == "%yk_string"@ {
            let g = g.e("ret %yk_string zeroinitializer"@);
            g
        } else if ret == "double"@ {
            let g = g.e("ret double 0.0"@);
            g
        } else if ret == "i1"@ {
            let g = g.e("ret i1 false"@);
            g
        } else {
            let g = g.e("ret "@ + ret + " 0"@);
            g
        };
        g
    }

    /// The return behind the body of a method.
    pub open spec fn final_method_return(self, ret: Text) -> Gen {
        let g = self;
        let g = if ret == "void"@ {
            let g = g.e("ret void"@);
            g
        } else {
            let g = g.final_value(ret);
            g
        };
        g
    }

    /// Gives the receiver of a method a slot on the stack, and stores what `source` points to there.
    pub open spec fn store_receiver(self, name: Text, self_ty: Text, source: Text) -> Gen {
        let g = self;
        let (g, uptr) = g.fresh_label();
        let g = g.e("%"@ + uptr + " = inttoptr i64 "@ + source + " to ptr"@);
        let (g, loaded) = g.fresh_label();
        let g = g.e("%"@ + loaded + " = load "@ + self_ty + ", ptr %"@ + uptr);
        let (g, ptr) = g.bind_var(name, self_ty);
        let g = g.e(ptr + " = alloca "@ + self_ty + ", align 8"@);
        let g = g.e("store "@ + self_ty + " %"@ + loaded + ", ptr "@ + ptr);
        g
    }

    /// Clears a field of an object.
    pub open spec fn clear_field(self, obj_ty: Text, obj_name: Text, fty: Text) -> Gen {
        let g = self;
        let zero = zero_text(fty);
        let (g, ptr) = g.fresh_label();
        let g = g.e(
            "%"@ + ptr + " = getelementptr inbounds "@ + obj_ty + ", ptr @object."@ + obj_name
                + ", i32 0, i32 0"@
        );
        let g = g.e("store "@ + fty + " "@ + zero + ", ptr %"@ + ptr);
        g
    }

    /// Calls the initialiser of an object.
    pub open spec fn call_object_init(self, name: Text) -> Gen {
        let g = self;
        let module = g.object_module(name);
        let mangled = scoped_name("__obj_init"@, module, name);
        let g = g.e("call void @"@ + mangled + "()"@);
        g
    }

    /// Begins `main`: the number of arguments becomes a variable.
    pub open spec fn begin_main(self) -> Gen {
        let g = self;
        let g = g.set_fn_ret("i32"@);
        let g = g.e_raw("define i32 @main(i32 %argc, ptr %argv) {"@);
        let n = g.deeper();
        let g = g.set_indent(n);
        let (g, entry_ptr) = g.fresh_label();
        let g = g.e("%"@ + entry_ptr + " = alloca i32, align 4"@);
        let g = g.e("store i32 %argc, ptr %"@ + entry_ptr);
        let g = g.set_var_type("argc"@, "i32"@);
        let g = g.set_var_alloca("argc"@, "%"@ + entry_ptr);
        g
    }

    /// Ends `main`.
    pub open spec fn end_main(self, depth: nat) -> Gen {
        let g = self;
        let g = g.e("ret i32 0"@);
        let g = g.set_indent(depth);
        let g = g.e_raw("}"@);
        g
    }

    /// The head of the module: where it runs, and the types that every module has.
    pub open spec fn write_head(self) -> Gen {
        let g = self;
        let g = g.e_raw("; LLVM IR generated by yidi"@);
        let g = g.e_raw(
            "target datalayout = \"e-m:w-p270:32:32-p271:32:32-p272:64:64-i64:64-f80:128-n8:16:32:64-S128\""@
        );
        let g = g.e_raw("target triple = \"x86_64-pc-windows-msvc\""@);
        let g = g.e_raw(""@);
        let g = g.e_raw("%yk_string = type { ptr, i64 }"@);
        let g = g.e_raw("%yk_complex = type { double, double }"@);
        let g = g.e_raw("%yk_variant = type { i64, i64 }"@);
        let g = g.e_raw("%yk_result = type { i64, i1 }"@);
        let g = g.e_raw("%YkResponse = type { ptr, i64, i32 }"@);
        let g = g.e_raw(""@);
        g
    }

    // -----------------------------------------------------------------------------------------
    // What the items define
    // -----------------------------------------------------------------------------------------
    /// Gives a function of a module its name.
    pub open spec fn name_item(self, module: Module, item: ItemNode) -> Gen {
        match item.value {
            ItemKind::Fn { name, .. } => self.name_fn(module.name@, name@),
            _ => self,
        }
    }

    /// Records the body of a function that can be a request handler.
    pub open spec fn collect_body(self, module: Module, item: ItemNode) -> Gen {
        match item.value {
            ItemKind::Fn { name, body, .. } => if name@ != "main"@ {
                self.set_body(name@, body@)
            } else {
                self
            },
            _ => self,
        }
    }

    /// Records the imported names.
    pub open spec fn add_ffi_names(self, names: Seq<(String, Option<String>)>) -> Gen
        decreases names.len(),
    {
        if names.len() == 0 {
            self
        } else {
            self.add_ffi_names(names.drop_last()).add_ffi_module(names.last().0@)
        }
    }

    /// Records the names that are imported from Rust or C++.
    pub open spec fn add_imports(self, imports: Seq<Import>) -> Gen
        decreases imports.len(),
    {
        if imports.len() == 0 {
            self
        } else {
            let g = self.add_imports(imports.drop_last());
            if is_foreign(imports.last()) {
                g.add_ffi_names(imports.last().names@)
            } else {
                g
            }
        }
    }

    /// Records the names that the modules import from other languages.
    pub open spec fn collect_ffi(self, modules: Seq<&Module>) -> Gen
        decreases modules.len(),
    {
        if modules.len() == 0 {
            self
        } else {
            self.collect_ffi(modules.drop_last()).add_imports(modules.last().imports@)
        }
    }

    /// Defines the type of a struct.
    pub open spec fn define_struct_item(self, module: Module, item: ItemNode) -> Gen {
        match item.value {
            ItemKind::Struct { name, fields, .. } => {
                let (g, types) = self.field_types(fields@);
                let g = g.define_struct(name@, types);
                g.e_raw(
                    "%struct."@ + name@ + " = type { "@ + joined(types_of(types), ", "@) + " }"@
                        + alignment(texts(item.decorators@)),
                )
            },
            _ => self,
        }
    }

    /// Records what the methods of an interface return.
    pub open spec fn interface_rets(self, name: Text, methods: Seq<MethodSig>) -> Gen
        decreases methods.len(),
    {
        if methods.len() == 0 {
            self
        } else {
            let g = self.interface_rets(name, methods.drop_last());
            let (g, ret) = g.type_or(methods.last().ret_type, "void"@);
            g.set_interface_method_ret(name, methods.last().name@, ret)
        }
    }

    /// Defines an interface by its methods.
    pub open spec fn define_interface_item(self, module: Module, item: ItemNode) -> Gen {
        match item.value {
            ItemKind::Interface { name, methods } => {
                let g = self.define_interface(name@, method_names(methods@));
                g.interface_rets(name@, methods@)
            },
            _ => self,
        }
    }

    /// Records that a class implements interfaces.
    pub open spec fn add_impls(self, class: Text, ifaces: Seq<Text>) -> Gen
        decreases ifaces.len(),
    {
        if ifaces.len() == 0 {
            self
        } else {
            let g = self.add_impls(class, ifaces.drop_last());
            let list = match g.class_impls_of(ifaces.last()) {
                Some(l) => l,
                None => seq![],
            };
            g.set_class_impls(ifaces.last(), list.push(class))
        }
    }

    /// Keeps which interfaces a class implements.
    pub open spec fn collect_impls_of(self, module: Module, item: ItemNode) -> Gen {
        match item.value {
            ItemKind::Class { name, implements, .. } => self.add_impls(name@, texts(implements@)),
            _ => self,
        }
    }

    /// Records what the methods of an object return.
    pub open spec fn object_rets(self, name: Text, methods: Seq<ItemKind>) -> Gen
        decreases methods.len(),
    {
        if methods.len() == 0 {
            self
        } else {
            let g = self.object_rets(name, methods.drop_last());
            match methods.last() {
                ItemKind::Fn { name: mname, ret_type, .. } => {
                    let (g, ret) = g.type_or(ret_type, "i64"@);
                    g.set_object_method_ret(name, mname@, ret)
                },
                _ => g,
            }
        }
    }

    /// Defines the fields of an object.
    pub open spec fn define_object_item(self, module: Module, item: ItemNode) -> Gen {
        match item.value {
            ItemKind::Object { name, methods, fields } => {
                let (g, types) = self.field_types(fields@);
                let g = g.define_object(name@, types);
                let g = g.set_object_module(name@, module.name@);
                g.object_rets(name@, methods@)
            },
            _ => self,
        }
    }

    /// Defines the fields of a class.
    pub open spec fn define_class_item(self, module: Module, item: ItemNode) -> Gen {
        match item.value {
            ItemKind::Class { name, fields, constructor, .. } => {
                let (g, first) = self.field_types(constructor@);
                let (g, rest) = g.field_types(fields@);
                let g = g.define_class(name@, first + rest);
                g.set_class_module(name@, module.name@)
            },
            _ => self,
        }
    }

    /// The method table that a class begins with: that of its parent.
    pub open spec fn inherited(self, extends: Option<String>) -> Seq<(Text, Text)> {
        match extends {
            Some(parent) => match self.class_vtable(parent@) {
                Some(list) => list,
                None => seq![],
            },
            None => seq![],
        }
    }

    /// Defines the methods of a class, in the order of its table.
    pub open spec fn define_vtable_item(self, module: Module, item: ItemNode) -> Gen {
        match item.value {
            ItemKind::Class { name, methods, extends, .. } => self.define_vtable(
                name@,
                with_methods(self.inherited(extends), module.name@, name@, methods@),
            ),
            _ => self,
        }
    }

    // -----------------------------------------------------------------------------------------
    // What is written of the definitions
    // -----------------------------------------------------------------------------------------
    /// Writes the type of a class.
    pub open spec fn write_class(self, name: Text) -> Gen {
        match self.class_def(name) {
            Some(fields) => self.e_raw(
                "%class."@ + name + " = type { "@ + joined(seq!["i64"@] + types_of(fields), ", "@)
                    + " }"@,
            ),
            None => self,
        }
    }

    /// Writes the type of the method table of a class that has methods.
    pub open spec fn write_vtable_type_of(self, name: Text) -> Gen {
        match self.class_vtable(name) {
            Some(methods) => if methods.len() > 0 {
                self.write_vtable_type(name, copies("ptr"@, methods.len()))
            } else {
                self
            },
            None => self,
        }
    }

    /// Writes the method table of a class that has methods.
    pub open spec fn write_vtable_of(self, name: Text) -> Gen {
        match self.class_vtable(name) {
            Some(methods) => if methods.len() > 0 {
                self.write_vtable(name, joined(vtable_entries(methods), ", "@))
            } else {
                self
            },
            None => self,
        }
    }

    /// Writes the type of an interface.
    pub open spec fn write_interface(self, name: Text) -> Gen {
        self.e_raw("%iface."@ + name + " = type { ptr, ptr }"@)
    }

    /// Writes the method tables of classes for an interface.
    pub open spec fn write_impl_vtables(self, iface: Text, wanted: Seq<Text>, classes: Seq<Text>) -> Gen
        decreases classes.len(),
    {
        if classes.len() == 0 {
            self
        } else {
            let g = self.write_impl_vtables(iface, wanted, classes.drop_last());
            match g.class_vtable(classes.last()) {
                Some(methods) => {
                    let entries = interface_entries(wanted, methods);
                    if entries.len() > 0 {
                        g.write_interface_vtable(
                            iface,
                            classes.last(),
                            copies("ptr"@, entries.len()),
                            joined(entries, ", "@),
                        )
                    } else {
                        g
                    }
                },
                None => g,
            }
        }
    }

    /// Writes the method tables with which classes implement an interface.
    pub open spec fn write_interface_vtables_of(self, iface: Text) -> Gen {
        match (self.interface_def(iface), self.class_impls_of(iface)) {
            (Some(wanted), Some(classes)) => self.write_impl_vtables(iface, wanted, classes),
            _ => self,
        }
    }

    /// Writes the type of an object.
    pub open spec fn write_object(self, name: Text) -> Gen {
        match self.object_def(name) {
            Some(fields) => self.e_raw(
                "%object."@ + name + " = type { "@ + (if fields.len() == 0 {
                    "i8"@
                } else {
                    joined(types_of(fields), ", "@)
                }) + " }"@,
            ),
            None => self,
        }
    }

    /// Writes the one value of an object.
    pub open spec fn write_object_global(self, name: Text) -> Gen {
        self.e_raw("@object."@ + name + " = global %object."@ + name + " zeroinitializer"@)
    }

    /// Writes an empty line, where `names` is not empty.
    pub open spec fn gap_after(self, names: Seq<Text>) -> Gen {
        if names.len() > 0 {
            self.e_raw(""@)
        } else {
            self
        }
    }

    // -----------------------------------------------------------------------------------------
    // Functions
    // -----------------------------------------------------------------------------------------
    /// Keeps the types of a function.
    pub open spec fn collect_signature(self, module: Module, item: ItemNode) -> Gen {
        match item.value {
            ItemKind::Fn { name, params, ret_type, .. } => {
                let mangled = self.mangle_name(name@);
                let (g, ret) = self.type_or(ret_type, "void"@);
                let g = g.set_fn_ret(ret);
                let g = g.set_fn_ret_type(mangled, ret);
                let (g, types) = g.param_types(params@);
                let g = g.set_fn_param_types(mangled, types);
                g.set_params(mangled, params@)
            },
            _ => self,
        }
    }

    /// Gives the parameters slots on the stack.
    pub open spec fn store_params(self, params: Seq<Param>) -> Gen
        decreases params.len(),
    {
        if params.len() == 0 {
            self
        } else {
            let g = self.store_params(params.drop_last());
            let (g, ty) = g.type_to_llvm(params.last().type_expr.value);
            g.store_param(params.last().name@, ty, (params.len() - 1) as nat)
        }
    }

    /// Compiles a function.
    pub open spec fn compile_fn(
        self,
        name: Text,
        params: Seq<Param>,
        ret_type: Option<TypeNode>,
        body: Seq<StmtNode>,
    ) -> Gen {
        let mangled = self.mangle_name(name);
        let (g, ret) = self.type_or(ret_type, "void"@);
        let g = g.set_fn_ret(ret);
        let g = g.set_fn_ret_type(mangled, ret);
        let (g, types) = g.param_types(params);
        let g = g.set_fn_param_types(mangled, types);
        let depth = g.depth();
        let g = g.begin_fn(ret, mangled, joined(types, ", "@));
        let g = g.store_params(params);
        let g = g.compile_stmts(body);
        let g = if ends_with_return(body) {
            g
        } else {
            g.final_return(ret)
        };
        let g = g.end_fn(depth);
        g.restore(self.var_types, self.var_alloca)
    }

    /// Compiles a function.
    pub open spec fn compile_fn_item(self, module: Module, item: ItemNode) -> Gen {
        match item.value {
            ItemKind::Fn { name, params, ret_type, body, .. } => if name@ != "main"@ {
                self.compile_fn(name@, params@, ret_type, body@)
            } else {
                self
            },
            _ => self,
        }
    }

    /// The parameter types of a method: the receiver is an address.
    pub open spec fn method_param_types(self, params: Seq<Param>, with_self: bool) -> (Gen, Seq<Text>)
        decreases params.len(),
    {
        if params.len() == 0 {
            (self, seq![])
        } else {
            let (g, list) = self.method_param_types(params.drop_last(), with_self);
            if params.len() == 1 && with_self {
                (g, list.push("i64"@))
            } else {
                let (g, t) = g.type_to_llvm(params.last().type_expr.value);
                (g, list.push(t))
            }
        }
    }

    /// Gives the parameters of a method slots on the stack.
    pub open spec fn store_method_params(self, params: Seq<Param>, with_self: bool, self_ty: Text) -> Gen
        decreases params.len(),
    {
        if params.len() == 0 {
            self
        } else {
            let g = self.store_method_params(params.drop_last(), with_self, self_ty);
            if params.len() == 1 && with_self {
                g.store_receiver(params.last().name@, self_ty, "%0"@)
            } else {
                let (g, ty) = g.type_to_llvm(params.last().type_expr.value);
                g.store_param(params.last().name@, ty, (params.len() - 1) as nat)
            }
        }
    }

    /// Compiles the body of a method whose receiver has the type `self_ty`.
    pub open spec fn compile_method(
        self,
        mangled: Text,
        self_ty: Text,
        ret: Text,
        params: Seq<Param>,
        body: Seq<StmtNode>,
    ) -> Gen {
        let with_self = has_self(params);
        let (g, types) = self.method_param_types(params, with_self);
        let depth = g.depth();
        let g = g.begin_fn(ret, mangled, joined(types, ", "@));
        let g = g.store_method_params(params, with_self, self_ty);
        let g = g.compile_stmts(body);
        let g = g.final_method_return(ret);
        let g = g.restore(self.var_types, self.var_alloca);
        g.end_fn(depth)
    }

    /// Compiles a method of a class.
    pub open spec fn compile_class_method(self, class: Text, method: ItemKind, module: Text) -> Gen {
        match method {
            ItemKind::Fn { name, params, ret_type, body, .. } => {
                let mangled = scoped_name("__method"@, module, class + "_"@ + name@);
                let (g, ret) = self.type_or(ret_type, "void"@);
                let g = g.set_class_method_ret(class, name@, ret);
                g.compile_method(mangled, "%class."@ + class, ret, params@, body@)
            },
            _ => self,
        }
    }

    /// Compiles the methods of a class.
    pub open spec fn compile_methods(self, class: Text, methods: Seq<ItemKind>, module: Text) -> Gen
        decreases methods.len(),
    {
        if methods.len() == 0 {
            self
        } else {
            self.compile_methods(class, methods.drop_last(), module).compile_class_method(
                class,
                methods.last(),
                module,
            )
        }
    }

    /// Compiles the methods of a class.
    pub open spec fn compile_methods_of_class(self, module: Module, item: ItemNode) -> Gen {
        match item.value {
            ItemKind::Class { name, methods, .. } => self.compile_methods(
                name@,
                methods@,
                module.name@,
            ),
            _ => self,
        }
    }

    /// Compiles a method of an object.
    pub open spec fn compile_object_method(self, object: Text, method: ItemKind, module: Text) -> Gen {
        match method {
            ItemKind::Fn { name, params, ret_type, body, .. } => {
                let mangled = scoped_name("__obj_method"@, module, object + "_"@ + name@);
                let (g, ret) = self.type_or(ret_type, "void"@);
                let g = g.set_object_method_ret(object, name@, ret);
                let g = if has_self(params@) {
                    g.set_object_method_self(object, name@)
                } else {
                    g
                };
                g.compile_method(mangled, "%object."@ + object, ret, params@, body@)
            },
            _ => self,
        }
    }

    /// Compiles the methods of an object.
    pub open spec fn compile_all_object_methods(
        self,
        object: Text,
        methods: Seq<ItemKind>,
        module: Text,
    ) -> Gen
        decreases methods.len(),
    {
        if methods.len() == 0 {
            self
        } else {
            self.compile_all_object_methods(object, methods.drop_last(), module).compile_object_method(
                object,
                methods.last(),
                module,
            )
        }
    }

    /// Compiles the methods of an object.
    pub open spec fn compile_methods_of_object(self, module: Module, item: ItemNode) -> Gen {
        match item.value {
            ItemKind::Object { name, methods, .. } => self.compile_all_object_methods(
                name@,
                methods@,
                module.name@,
            ),
            _ => self,
        }
    }

    /// Compiles the initialiser of a class.
    pub open spec fn compile_class_init(self, class: Text, init_body: Seq<StmtNode>, module: Text) -> Gen {
        let mangled = scoped_name("__class_init"@, module, class);
        let g = self.set_fn_ret("void"@);
        let depth = g.depth();
        let g = g.begin_fn("void"@, mangled, "i64 %self_int"@);
        let g = g.store_receiver("self"@, "%class."@ + class, "%self_int"@);
        let g = g.compile_stmts(init_body);
        let g = g.e("ret void"@);
        let g = g.end_fn(depth);
        let g = g.restore(self.var_types, self.var_alloca);
        g.set_fn_ret(self.fn_ret())
    }

    /// Clears the fields of an object.
    pub open spec fn clear_fields(self, object: Text, fields: Seq<(Text, Text)>) -> Gen
        decreases fields.len(),
    {
        if fields.len() == 0 {
            self
        } else {
            self.clear_fields(object, fields.drop_last()).clear_field(
                "%object."@ + object,
                object,
                fields.last().1,
            )
        }
    }

    /// Compiles the initialiser of an object.
    pub open spec fn compile_object_init(self, object: Text, module: Text) -> Gen {
        let mangled = scoped_name("__obj_init"@, module, object);
        let depth = self.depth();
        let g = self.begin_fn("void"@, mangled, ""@);
        let fields = match g.object_def(object) {
            Some(list) => list,
            None => seq![],
        };
        let g = g.clear_fields(object, fields);
        let g = g.e("ret void"@);
        g.end_fn(depth)
    }

    /// Compiles the body that a class runs when a value of it is made.
    pub open spec fn compile_init_item(self, module: Module, item: ItemNode) -> Gen {
        match item.value {
            ItemKind::Class { name, init_body, .. } => self.compile_class_init(
                name@,
                init_body@,
                module.name@,
            ),
            ItemKind::Object { name, .. } => self.compile_object_init(name@, module.name@),
            _ => self,
        }
    }

    // -----------------------------------------------------------------------------------------
    // Passes
    // -----------------------------------------------------------------------------------------
    /// Gives every function its linker name.
    pub open spec fn name_fns(self, items: Seq<(&Module, &ItemNode)>) -> Gen
        decreases items.len(),
    {
        if items.len() == 0 {
            self
        } else {
            self.name_fns(items.drop_last()).name_item(*items.last().0, *items.last().1)
        }
    }

    /// Records the body of every function that can be a request handler.
    pub open spec fn collect_bodies(self, items: Seq<(&Module, &ItemNode)>) -> Gen
        decreases items.len(),
    {
        if items.len() == 0 {
            self
        } else {
            self.collect_bodies(items.drop_last()).collect_body(*items.last().0, *items.last().1)
        }
    }

    /// Defines every struct.
    pub open spec fn define_structs(self, items: Seq<(&Module, &ItemNode)>) -> Gen
        decreases items.len(),
    {
        if items.len() == 0 {
            self
        } else {
            self.define_structs(items.drop_last()).define_struct_item(*items.last().0, *items.last().1)
        }
    }

    /// Defines every interface.
    pub open spec fn define_interfaces(self, items: Seq<(&Module, &ItemNode)>) -> Gen
        decreases items.len(),
    {
        if items.len() == 0 {
            self
        } else {
            self.define_interfaces(items.drop_last()).define_interface_item(*items.last().0, *items.last().1)
        }
    }

    /// Records which classes implement each interface.
    pub open spec fn collect_impls(self, items: Seq<(&Module, &ItemNode)>) -> Gen
        decreases items.len(),
    {
        if items.len() == 0 {
            self
        } else {
            self.collect_impls(items.drop_last()).collect_impls_of(*items.last().0, *items.last().1)
        }
    }

    /// Defines every object.
    pub open spec fn define_objects(self, items: Seq<(&Module, &ItemNode)>) -> Gen
        decreases items.len(),
    {
        if items.len() == 0 {
            self
        } else {
            self.define_objects(items.drop_last()).define_object_item(*items.last().0, *items.last().1)
        }
    }

    /// Defines every class.
    pub open spec fn define_classes(self, items: Seq<(&Module, &ItemNode)>) -> Gen
        decreases items.len(),
    {
        if items.len() == 0 {
            self
        } else {
            self.define_classes(items.drop_last()).define_class_item(*items.last().0, *items.last().1)
        }
    }

    /// Defines the method table of every class; a parent comes before its children.
    pub open spec fn define_vtables(self, items: Seq<(&Module, &ItemNode)>) -> Gen
        decreases items.len(),
    {
        if items.len() == 0 {
            self
        } else {
            self.define_vtables(items.drop_last()).define_vtable_item(*items.last().0, *items.last().1)
        }
    }

    /// Records what every function takes and returns.
    pub open spec fn collect_signatures(self, items: Seq<(&Module, &ItemNode)>) -> Gen
        decreases items.len(),
    {
        if items.len() == 0 {
            self
        } else {
            self.collect_signatures(items.drop_last()).collect_signature(*items.last().0, *items.last().1)
        }
    }

    /// Compiles the functions, other than `main`.
    pub open spec fn compile_fns(self, items: Seq<(&Module, &ItemNode)>) -> Gen
        decreases items.len(),
    {
        if items.len() == 0 {
            self
        } else {
            self.compile_fns(items.drop_last()).compile_fn_item(*items.last().0, *items.last().1)
        }
    }

    /// Compiles the methods of the classes.
    pub open spec fn compile_class_methods(self, items: Seq<(&Module, &ItemNode)>) -> Gen
        decreases items.len(),
    {
        if items.len() == 0 {
            self
        } else {
            self.compile_class_methods(items.drop_last()).compile_methods_of_class(*items.last().0, *items.last().1)
        }
    }

    /// Compiles the initialisers of classes and objects.
    pub open spec fn compile_inits(self, items: Seq<(&Module, &ItemNode)>) -> Gen
        decreases items.len(),
    {
        if items.len() == 0 {
            self
        } else {
            self.compile_inits(items.drop_last()).compile_init_item(*items.last().0, *items.last().1)
        }
    }

    /// Compiles the methods of the objects.
    pub open spec fn compile_object_methods(self, items: Seq<(&Module, &ItemNode)>) -> Gen
        decreases items.len(),
    {
        if items.len() == 0 {
            self
        } else {
            self.compile_object_methods(items.drop_last()).compile_methods_of_object(*items.last().0, *items.last().1)
        }
    }

    /// Writes the types of the classes.
    pub open spec fn write_class_types(self, names: Seq<Text>) -> Gen
        decreases names.len(),
    {
        if names.len() == 0 {
            self
        } else {
            self.write_class_types(names.drop_last()).write_class(names.last())
        }
    }

    /// Writes the types of the method tables.
    pub open spec fn write_vtable_types(self, names: Seq<Text>) -> Gen
        decreases names.len(),
    {
        if names.len() == 0 {
            self
        } else {
            self.write_vtable_types(names.drop_last()).write_vtable_type_of(names.last())
        }
    }

    /// Writes the method tables.
    pub open spec fn write_vtables(self, names: Seq<Text>) -> Gen
        decreases names.len(),
    {
        if names.len() == 0 {
            self
        } else {
            self.write_vtables(names.drop_last()).write_vtable_of(names.last())
        }
    }

    /// Writes the types of the interfaces.
    pub open spec fn write_interface_types(self, names: Seq<Text>) -> Gen
        decreases names.len(),
    {
        if names.len() == 0 {
            self
        } else {
            self.write_interface_types(names.drop_last()).write_interface(names.last())
        }
    }

    /// Writes the method tables of the classes for the interfaces.
    pub open spec fn write_interface_vtables(self, names: Seq<Text>) -> Gen
        decreases names.len(),
    {
        if names.len() == 0 {
            self
        } else {
            self.write_interface_vtables(names.drop_last()).write_interface_vtables_of(names.last())
        }
    }

    /// Writes the types of the objects.
    pub open spec fn write_object_types(self, names: Seq<Text>) -> Gen
        decreases names.len(),
    {
        if names.len() == 0 {
            self
        } else {
            self.write_object_types(names.drop_last()).write_object(names.last())
        }
    }

    /// Writes the objects.
    pub open spec fn write_objects(self, names: Seq<Text>) -> Gen
        decreases names.len(),
    {
        if names.len() == 0 {
            self
        } else {
            self.write_objects(names.drop_last()).write_object_global(names.last())
        }
    }

    /// Calls the initialisers of the objects.
    pub open spec fn call_object_inits(self, names: Seq<Text>) -> Gen
        decreases names.len(),
    {
        if names.len() == 0 {
            self
        } else {
            self.call_object_inits(names.drop_last()).call_object_init(names.last())
        }
    }

    /// Compiles the functions and the methods of a module.
    pub open spec fn compile_module_items(self, module: &Module) -> Gen {
        let items = module_items(module);
        let g = self.set_module(module.name@);
        let g = g.compile_fns(items);
        let g = g.compile_class_methods(items);
        let g = g.compile_inits(items);
        g.compile_object_methods(items)
    }

    /// Compiles the functions and the methods of the modules.
    pub open spec fn compile_all_modules(self, modules: Seq<&Module>) -> Gen
        decreases modules.len(),
    {
        if modules.len() == 0 {
            self
        } else {
            self.compile_all_modules(modules.drop_last()).compile_module_items(modules.last())
        }
    }

    /// Binds the parameters of `main`.
    pub open spec fn bind_main_params(self, params: Seq<Param>) -> Gen
        decreases params.len(),
    {
        if params.len() == 0 {
            self
        } else {
            let g = self.bind_main_params(params.drop_last());
            let (g, ty) = g.type_to_llvm(params.last().type_expr.value);
            g.bind_var(params.last().name@, ty).0
        }
    }

    /// Compiles `main`: it initialises the objects first.
    pub open spec fn compile_main(self, params: Seq<Param>, body: Seq<StmtNode>) -> Gen {
        let depth = self.depth();
        let g = self.begin_main();
        let g = g.bind_main_params(params);
        let g = g.call_object_inits(g.object_names());
        let g = g.compile_stmts(body);
        let g = g.end_main(depth);
        g.restore(self.var_types, self.var_alloca)
    }

    /// Compiles an anonymous function.
    pub open spec fn compile_deferred(self, f: DeferredFn) -> Gen {
        let (g, ret) = self.type_or(f.ret, "i64"@);
        let g = g.set_fn_ret(ret);
        let (g, types) = g.param_types(f.params);
        let depth = g.depth();
        let g = g.begin_fn(ret, f.name, joined(types, ", "@));
        let g = g.store_params(f.params);
        let g = g.compile_return(f.body);
        let g = if ret != "void"@ {
            g.final_value(ret)
        } else {
            g
        };
        let g = g.end_fn(depth);
        g.restore(seq![], seq![])
    }

    /// Compiles anonymous functions.
    pub open spec fn compile_all_deferred(self, fns: Seq<DeferredFn>) -> Gen
        decreases fns.len(),
    {
        if fns.len() == 0 {
            self
        } else {
            self.compile_all_deferred(fns.drop_last()).compile_deferred(fns.last())
        }
    }

    /// Compiles a thread entry point.
    pub open spec fn compile_spawned(self, s: SpawnedExpr) -> Gen {
        let depth = self.depth();
        let g = self.begin_fn("void"@, s.name, "ptr %slot"@);
        let (g, (val, _)) = g.compile_expr(s.body);
        let g = g.e("store i64 "@ + val + ", ptr %slot"@);
        let g = g.e("ret void"@);
        let g = g.end_fn(depth);
        g.restore(seq![], seq![])
    }

    /// Compiles thread entry points.
    pub open spec fn compile_all_spawned(self, list: Seq<SpawnedExpr>) -> Gen
        decreases list.len(),
    {
        if list.len() == 0 {
            self
        } else {
            self.compile_all_spawned(list.drop_last()).compile_spawned(list.last())
        }
    }

    /// Everything that stands in front of the functions.
    pub open spec fn write_definitions(self, modules: Seq<&Module>) -> Gen {
        let items = all_items(modules);
        let g = self.write_head();
        let g = g.name_fns(items);
        let g = g.collect_bodies(items);
        let g = g.collect_ffi(modules);
        let g = g.define_structs(items);
        let g = g.e_raw(""@);
        let g = g.define_interfaces(items);
        let g = g.collect_impls(items);
        let g = g.define_objects(items);
        let g = g.define_classes(items);
        let g = g.clear_vtables();
        let g = g.define_vtables(items);
        let g = g.write_class_types(g.class_names());
        let g = g.e_raw(""@);
        let g = g.write_vtable_types(g.vtable_names());
        let g = g.write_vtables(g.vtable_names());
        let g = g.e_raw(""@);
        let ifaces = g.interface_names();
        let g = g.write_interface_types(ifaces);
        let g = g.gap_after(ifaces);
        let g = g.write_interface_vtables(ifaces);
        let g = g.gap_after(ifaces);
        let objects = g.object_names();
        let g = g.write_object_types(objects);
        let g = g.write_objects(objects);
        let g = g.gap_after(objects);
        g.paste(RUNTIME_DECLARATIONS@)
    }

    /// The functions of the modules, with everything that they put off.
    pub open spec fn write_functions(self, modules: Seq<&Module>) -> Gen {
        let items = all_items(modules);
        let g = self.collect_signatures(items);
        let g = g.compile_all_modules(modules);
        let g = g.set_module(""@);
        let g = match first_main(items) {
            Some(item) => match item.value {
                ItemKind::Fn { params, body, .. } => g.compile_main(params@, body@),
                _ => g,
            },
            None => g,
        };
        let (g, deferred) = g.take_deferred();
        let g = g.compile_all_deferred(deferred);
        let (g, spawned) = g.take_spawned();
        let g = g.compile_all_spawned(spawned);
        g.paste_handlers()
    }

    /// Compiles modules into the text of one LLVM module.
    pub open spec fn compile_modules(self, modules: Seq<&Module>) -> (Gen, Text) {
        let g = self.write_definitions(modules);
        let g = g.write_functions(modules);
        let (g, output) = g.take_output();
        let (g, types) = g.take_type_lines();
        (g, with_types(output, types))
    }
}

/// Whether an import comes from a language that is linked.
pub open spec fn is_foreign(import: Import) -> bool {
    match import.lang {
        Some(lang) => lang@ == "rust"@ || lang@ == "c++"@,
        None => false,
    }
}

pub(crate) fn foreign(import: &Import) -> (r: bool)
    ensures
        r == is_foreign(*import),
{
    match &import.lang {
        Some(lang) => same(lang, "rust") || same(lang, "c++"),
        None => false,
    }
}

/// The function that implements a method of a class.
pub open spec fn method_symbol(module: Text, class: Text, method: Text) -> Text {
    scoped_name("__method"@, module, class + "_"@ + method)
}

/// A method table with the methods of a class: a method that is there already is replaced in its
/// place, a new one comes behind the rest.
pub open spec fn with_methods(
    table: Seq<(Text, Text)>,
    module: Text,
    class: Text,
    methods: Seq<ItemKind>,
) -> Seq<(Text, Text)>
    decreases methods.len(),
{
    if methods.len() == 0 {
        table
    } else {
        let t = with_methods(table, module, class, methods.drop_last());
        match methods.last() {
            ItemKind::Fn { name, .. } => put(t, name@, method_symbol(module, class, name@)),
            _ => t,
        }
    }
}

fn add_methods(table: Pairs, module: &str, class: &str, methods: &Vec<ItemKind>) -> (r: Pairs)
    ensures
        r@ == with_methods(table@, module@, class@, methods@),
{
    let ghost start = table@;
    let mut r = table;
    let mut i: usize = 0;
    while i < methods.len()
        invariant
            i <= methods@.len(),
            r@ == with_methods(start, module@, class@, methods@.take(i as int)),
        decreases methods.len() - i,
    {
        match &methods[i] {
            ItemKind::Fn { name, .. } => {
                let symbol = scope_name("__method", module, &cat3(class, "_", name));
                r.put(name, &symbol);
            },
            _ => {},
        }
        assert(methods@.take(i + 1).drop_last() == methods@.take(i as int));
        i += 1;
    }
    assert(methods@.take(i as int) == methods@);
    r
}

impl<'a> LlvmCodegen<'a> {
    pub(crate) fn name_fn(&mut self, module: &str, name: &str)
        ensures
            final(self)@ == old(self)@.name_fn(module@, name@),
    {
        if same(name, "main") || same(module, "") {
            self.set_fn_name(name, name);
        } else {
            self.set_fn_name(name, &cat3(module, ".", name));
        }
    }

    pub(crate) fn write_vtable_type(&mut self, name: &str, ptrs: &str)
        ensures
            final(self)@ == old(self)@.write_vtable_type(name@, ptrs@),
    {
        self.e_raw(&cat5("%class.", name, ".vtable = type { ", ptrs, " }"));
    }

    pub(crate) fn write_vtable(&mut self, name: &str, entries: &str)
        ensures
            final(self)@ == old(self)@.write_vtable(name@, entries@),
    {
        self.e_raw(&cat7("@vtable.", name, " = global %class.", name, ".vtable { ", entries, " }"));
    }

    pub(crate) fn write_interface_vtable(
        &mut self,
        iface: &str,
        class: &str,
        ptrs: &str,
        entries: &str,
    )
        ensures
            final(self)@ == old(self)@.write_interface_vtable(iface@, class@, ptrs@, entries@),
    {
        self.e_raw(&cat7("%", iface, ".", class, ".iface_vtable = type { ", ptrs, " }"));
        self.e_raw(
            &cat11("@iface_vtable.", iface, ".", class, " = global %", iface, ".", class,
                ".iface_vtable { ", entries, " }")
        );
    }

    pub(crate) fn begin_fn(&mut self, ret: &str, name: &str, params: &str)
        ensures
            final(self)@ == old(self)@.begin_fn(ret@, name@, params@),
    {
        self.e_raw(&cat7("define ", ret, " @", name, "(", params, ") {"));
        let n: usize = self.deeper();
        self.set_indent(n);
    }

    pub(crate) fn end_fn(&mut self, depth: usize)
        ensures
            final(self)@ == old(self)@.end_fn(depth as nat),
    {
        self.set_indent(depth);
        self.e_raw("}");
        self.e_raw("");
    }

    pub(crate) fn final_return(&mut self, ret: &str)
        ensures
            final(self)@ == old(self)@.final_return(ret@),
    {
        if same(ret, "void") {
            self.e("ret void");
        } else if starts_with(ret, "%") {
            self.e(&cat3("ret ", ret, " zeroinitializer"));
        } else {
            self.e(&cat3("ret ", ret, " 0"));
        }
    }

    pub(crate) fn final_value(&mut self, ret: &str)
        ensures
            final(self)@ == old(self)@.final_value(ret@),
    {
        if same(ret, "%yk_string") {
            self.e("ret %yk_string zeroinitializer");
        } else if same(ret, "double") {
            self.e("ret double 0.0");
        } else if same(ret, "i1") {
            self.e("ret i1 false");
        } else {
            self.e(&cat3("ret ", ret, " 0"));
        }
    }

    pub(crate) fn final_method_return(&mut self, ret: &str)
        ensures
            final(self)@ == old(self)@.final_method_return(ret@),
    {
        if same(ret, "void") {
            self.e("ret void");
        } else {
            self.final_value(ret);
        }
    }

    pub(crate) fn store_receiver(&mut self, name: &str, self_ty: &str, source: &str)
        ensures
            final(self)@ == old(self)@.store_receiver(name@, self_ty@, source@),
    {
        let uptr = self.fresh_label();
        self.e(&cat5("%", &uptr, " = inttoptr i64 ", source, " to ptr"));
        let loaded = self.fresh_label();
        self.e(&cat6("%", &loaded, " = load ", self_ty, ", ptr %", &uptr));
        let ptr = self.bind_var(name, self_ty);
        self.e(&cat4(&ptr, " = alloca ", self_ty, ", align 8"));
        self.e(&cat6("store ", self_ty, " %", &loaded, ", ptr ", &ptr));
    }

    pub(crate) fn clear_field(&mut self, obj_ty: &str, obj_name: &str, fty: &str)
        ensures
            final(self)@ == old(self)@.clear_field(obj_ty@, obj_name@, fty@),
    {
        let zero = zero_of(fty);
        let ptr = self.fresh_label();
        self.e(
            &cat7("%", &ptr, " = getelementptr inbounds ", obj_ty, ", ptr @object.", obj_name,
                ", i32 0, i32 0")
        );
        self.e(&cat6("store ", fty, " ", &zero, ", ptr %", &ptr));
    }

    pub(crate) fn call_object_init(&mut self, name: &str)
        ensures
            final(self)@ == old(self)@.call_object_init(name@),
    {
        let module = self.object_module(name);
        let mangled = scope_name("__obj_init", &module, name);
        self.e(&cat3("call void @", &mangled, "()"));
    }

    pub(crate) fn begin_main(&mut self)
        ensures
            final(self)@ == old(self)@.begin_main(),
    {
        self.set_fn_ret("i32");
        self.e_raw("define i32 @main(i32 %argc, ptr %argv) {");
        let n: usize = self.deeper();
        self.set_indent(n);
        let entry_ptr = self.fresh_label();
        self.e(&cat3("%", &entry_ptr, " = alloca i32, align 4"));
        self.e(&cat2("store i32 %argc, ptr %", &entry_ptr));
        self.set_var_type("argc", "i32");
        self.set_var_alloca("argc", &cat2("%", &entry_ptr));
    }

    pub(crate) fn end_main(&mut self, depth: usize)
        ensures
            final(self)@ == old(self)@.end_main(depth as nat),
    {
        self.e("ret i32 0");
        self.set_indent(depth);
        self.e_raw("}");
    }

    pub(crate) fn write_head(&mut self)
        ensures
            final(self)@ == old(self)@.write_head(),
    {
        self.e_raw("; LLVM IR generated by yidi");
        self.e_raw(
            "target datalayout = \"e-m:w-p270:32:32-p271:32:32-p272:64:64-i64:64-f80:128-n8:16:32:64-S128\""
        );
        self.e_raw("target triple = \"x86_64-pc-windows-msvc\"");
        self.e_raw("");
        self.e_raw("%yk_string = type { ptr, i64 }");
        self.e_raw("%yk_complex = type { double, double }");
        self.e_raw("%yk_variant = type { i64, i64 }");
        self.e_raw("%yk_result = type { i64, i1 }");
        self.e_raw("%YkResponse = type { ptr, i64, i32 }");
        self.e_raw("");
    }

    fn name_item(&mut self, module: &'a Module, item: &'a ItemNode)
        ensures
            final(self)@ == old(self)@.name_item(*module, *item),
    {
        match &item.value {
            ItemKind::Fn { name, .. } => self.name_fn(&module.name, name),
            _ => {},
        }
    }

    fn collect_body(&mut self, module: &'a Module, item: &'a ItemNode)
        ensures
            final(self)@ == old(self)@.collect_body(*module, *item),
    {
        match &item.value {
            ItemKind::Fn { name, body, .. } => {
                if !same(name, "main") {
                    self.set_body(name, body);
                }
            },
            _ => {},
        }
    }

    fn add_ffi_names(&mut self, names: &'a Vec<(String, Option<String>)>)
        ensures
            final(self)@ == old(self)@.add_ffi_names(names@),
    {
        let ghost g = self@;
        let mut i: usize = 0;
        while i < names.len()
            invariant
                i <= names@.len(),
                self@ == g.add_ffi_names(names@.take(i as int)),
            decreases names.len() - i,
        {
            self.add_ffi_module(&names[i].0);
            assert(names@.take(i + 1).drop_last() == names@.take(i as int));
            i += 1;
        }
        assert(names@.take(i as int) == names@);
    }

    fn add_imports(&mut self, imports: &'a Vec<Import>)
        ensures
            final(self)@ == old(self)@.add_imports(imports@),
    {
        let ghost g = self@;
        let mut i: usize = 0;
        while i < imports.len()
            invariant
                i <= imports@.len(),
                self@ == g.add_imports(imports@.take(i as int)),
            decreases imports.len() - i,
        {
            if foreign(&imports[i]) {
                self.add_ffi_names(&imports[i].names);
            }
            assert(imports@.take(i + 1).drop_last() == imports@.take(i as int));
            i += 1;
        }
        assert(imports@.take(i as int) == imports@);
    }

    fn collect_ffi(&mut self, modules: &[&'a Module])
        ensures
            final(self)@ == old(self)@.collect_ffi(modules@),
    {
        let ghost g = self@;
        let mut i: usize = 0;
        while i < modules.len()
            invariant
                i <= modules@.len(),
                self@ == g.collect_ffi(modules@.take(i as int)),
            decreases modules.len() - i,
        {
            self.add_imports(&modules[i].imports);
            assert(modules@.take(i + 1).drop_last() == modules@.take(i as int));
            i += 1;
        }
        assert(modules@.take(i as int) == modules@);
    }

    fn define_struct_item(&mut self, module: &'a Module, item: &'a ItemNode)
        ensures
            final(self)@ == old(self)@.define_struct_item(*module, *item),
    {
        match &item.value {
            ItemKind::Struct { name, fields, .. } => {
                let types = self.field_types(fields);
                let list = call_arg_types(&types.list);
                let align = alignment_text(&item.decorators);
                self.define_struct(name, types);
                self.e_raw(&cat6("%struct.", name, " = type { ", &list, " }", &align));
            },
            _ => {},
        }
    }

    fn interface_rets(&mut self, name: &str, methods: &'a Vec<MethodSig>)
        ensures
            final(self)@ == old(self)@.interface_rets(name@, methods@),
    {
        let ghost g = self@;
        let mut i: usize = 0;
        while i < methods.len()
            invariant
                i <= methods@.len(),
                self@ == g.interface_rets(name@, methods@.take(i as int)),
            decreases methods.len() - i,
        {
            let ret = self.type_or(methods[i].ret_type.as_ref(), "void");
            self.set_interface_method_ret(name, &methods[i].name, &ret);
            assert(methods@.take(i + 1).drop_last() == methods@.take(i as int));
            i += 1;
        }
        assert(methods@.take(i as int) == methods@);
    }

    fn define_interface_item(&mut self, module: &'a Module, item: &'a ItemNode)
        ensures
            final(self)@ == old(self)@.define_interface_item(*module, *item),
    {
        match &item.value {
            ItemKind::Interface { name, methods } => {
                self.define_interface(name, method_name_list(methods));
                self.interface_rets(name, methods);
            },
            _ => {},
        }
    }

    fn add_impls(&mut self, class: &str, ifaces: &'a Vec<String>)
        ensures
            final(self)@ == old(self)@.add_impls(class@, texts(ifaces@)),
    {
        let ghost g = self@;
        let mut i: usize = 0;
        while i < ifaces.len()
            invariant
                i <= ifaces@.len(),
                self@ == g.add_impls(class@, texts(ifaces@).take(i as int)),
            decreases ifaces.len() - i,
        {
            let mut list = match self.class_impls_of(&ifaces[i]) {
                Some(l) => l,
                None => Names::new(),
            };
            list.push(owned(class));
            self.set_class_impls(&ifaces[i], list);
            assert(texts(ifaces@).take(i + 1).drop_last() == texts(ifaces@).take(i as int));
            i += 1;
        }
        assert(texts(ifaces@).take(i as int) == texts(ifaces@));
    }

    fn collect_impls_of(&mut self, module: &'a Module, item: &'a ItemNode)
        ensures
            final(self)@ == old(self)@.collect_impls_of(*module, *item),
    {
        match &item.value {
            ItemKind::Class { name, implements, .. } => self.add_impls(name, implements),
            _ => {},
        }
    }

    fn object_rets(&mut self, name: &str, methods: &'a Vec<ItemKind>)
        ensures
            final(self)@ == old(self)@.object_rets(name@, methods@),
    {
        let ghost g = self@;
        let mut i: usize = 0;
        while i < methods.len()
            invariant
                i <= methods@.len(),
                self@ == g.object_rets(name@, methods@.take(i as int)),
            decreases methods.len() - i,
        {
            match &methods[i] {
                ItemKind::Fn { name: mname, ret_type, .. } => {
                    let ret = self.type_or(ret_type.as_ref(), "i64");
                    self.set_object_method_ret(name, mname, &ret);
                },
                _ => {},
            }
            assert(methods@.take(i + 1).drop_last() == methods@.take(i as int));
            i += 1;
        }
        assert(methods@.take(i as int) == methods@);
    }

    fn define_object_item(&mut self, module: &'a Module, item: &'a ItemNode)
        ensures
            final(self)@ == old(self)@.define_object_item(*module, *item),
    {
        match &item.value {
            ItemKind::Object { name, methods, fields } => {
                let types = self.field_types(fields);
                self.define_object(name, types);
                self.set_object_module(name, &module.name);
                self.object_rets(name, methods);
            },
            _ => {},
        }
    }

    fn define_class_item(&mut self, module: &'a Module, item: &'a ItemNode)
        ensures
            final(self)@ == old(self)@.define_class_item(*module, *item),
    {
        match &item.value {
            ItemKind::Class { name, fields, constructor, .. } => {
                let first = self.field_types(constructor);
                let rest = self.field_types(fields);
                let all = both(first, rest);
                self.define_class(name, all);
                self.set_class_module(name, &module.name);
            },
            _ => {},
        }
    }

    fn inherited(&self, extends: &Option<String>) -> (r: Pairs)
        ensures
            r@ == self@.inherited(*extends),
    {
        match extends {
            Some(parent) => match self.class_vtable(parent) {
                Some(list) => list,
                None => Pairs::new(),
            },
            None => Pairs::new(),
        }
    }

    fn define_vtable_item(&mut self, module: &'a Module, item: &'a ItemNode)
        ensures
            final(self)@ == old(self)@.define_vtable_item(*module, *item),
    {
        match &item.value {
            ItemKind::Class { name, methods, extends, .. } => {
                let table = add_methods(self.inherited(extends), &module.name, name, methods);
                self.define_vtable(name, table);
            },
            _ => {},
        }
    }

    fn write_class(&mut self, name: &str)
        ensures
            final(self)@ == old(self)@.write_class(name@),
    {
        match self.class_def(name) {
            Some(fields) => {
                let mut list: Vec<String> = Vec::new();
                list.push(owned("i64"));
                let mut more = type_list(&fields.list);
                let ghost first = list@;
                let ghost rest = more@;
                list.append(&mut more);
                assert(texts(list@) == texts(first) + texts(rest));
                assert(texts(first) == seq!["i64"@]);
                self.e_raw(&cat5("%class.", name, " = type { ", &join(&list, ", "), " }"));
            },
            None => {},
        }
    }

    fn write_vtable_type_of(&mut self, name: &str)
        ensures
            final(self)@ == old(self)@.write_vtable_type_of(name@),
    {
        match self.class_vtable(name) {
            Some(methods) => {
                if methods.list.len() > 0 {
                    self.write_vtable_type(name, &copies_text("ptr", methods.list.len()));
                }
            },
            None => {},
        }
    }

    fn write_vtable_of(&mut self, name: &str)
        ensures
            final(self)@ == old(self)@.write_vtable_of(name@),
    {
        match self.class_vtable(name) {
            Some(methods) => {
                if methods.list.len() > 0 {
                    self.write_vtable(name, &join(&vtable_entry_list(&methods), ", "));
                }
            },
            None => {},
        }
    }

    fn write_interface(&mut self, name: &str)
        ensures
            final(self)@ == old(self)@.write_interface(name@),
    {
        self.e_raw(&cat3("%iface.", name, " = type { ptr, ptr }"));
    }

    fn write_impl_vtables(&mut self, iface: &str, wanted: &Names, classes: &Names)
        ensures
            final(self)@ == old(self)@.write_impl_vtables(iface@, wanted@, classes@),
    {
        let ghost g = self@;
        let mut i: usize = 0;
        while i < classes.list.len()
            invariant
                i <= classes.list@.len(),
                self@ == g.write_impl_vtables(iface@, wanted@, classes@.take(i as int)),
            decreases classes.list.len() - i,
        {
            assert(classes@.take(i + 1).drop_last() == classes@.take(i as int));
            assert(classes@[i as int] == classes.list@[i as int]@);
            match self.class_vtable(&classes.list[i]) {
                Some(methods) => {
                    let entries = interface_entry_list(wanted, &methods);
                    assert(texts(entries@).len() == entries@.len());
                    if entries.len() > 0 {
                        self.write_interface_vtable(
                            iface,
                            &classes.list[i],
                            &copies_text("ptr", entries.len()),
                            &join(&entries, ", "),
                        );
                    }
                },
                None => {},
            }
            i += 1;
        }
        assert(classes@.take(i as int) == classes@);
    }

    fn write_interface_vtables_of(&mut self, iface: &str)
        ensures
            final(self)@ == old(self)@.write_interface_vtables_of(iface@),
    {
        match self.interface_def(iface) {
            Some(wanted) => match self.class_impls_of(iface) {
                Some(classes) => self.write_impl_vtables(iface, &wanted, &classes),
                None => {},
            },
            None => {},
        }
    }

    fn write_object(&mut self, name: &str)
        ensures
            final(self)@ == old(self)@.write_object(name@),
    {
        match self.object_def(name) {
            Some(fields) => {
                let body = if fields.list.len() == 0 {
                    owned("i8")
                } else {
                    call_arg_types(&fields.list)
                };
                self.e_raw(&cat5("%object.", name, " = type { ", &body, " }"));
            },
            None => {},
        }
    }

    fn write_object_global(&mut self, name: &str)
        ensures
            final(self)@ == old(self)@.write_object_global(name@),
    {
        self.e_raw(&cat5("@object.", name, " = global %object.", name, " zeroinitializer"));
    }

    fn gap_after(&mut self, names: &Vec<String>)
        ensures
            final(self)@ == old(self)@.gap_after(texts(names@)),
    {
        if names.len() > 0 {
            self.e_raw("");
        }
    }

    fn collect_signature(&mut self, module: &'a Module, item: &'a ItemNode)
        ensures
            final(self)@ == old(self)@.collect_signature(*module, *item),
    {
        match &item.value {
            ItemKind::Fn { name, params, ret_type, .. } => {
                let mangled = self.mangle_name(name);
                let ret = self.type_or(ret_type.as_ref(), "void");
                self.set_fn_ret(&ret);
                self.set_fn_ret_type(&mangled, &ret);
                let types = self.param_types(params);
                self.set_fn_param_types(&mangled, Names { list: types });
                self.set_params(&mangled, params);
            },
            _ => {},
        }
    }

    fn store_params(&mut self, params: &'a Vec<Param>)
        ensures
            final(self)@ == old(self)@.store_params(params@),
    {
        let ghost g = self@;
        let mut i: usize = 0;
        while i < params.len()
            invariant
                i <= params@.len(),
                self@ == g.store_params(params@.take(i as int)),
            decreases params.len() - i,
        {
            let ty = self.type_to_llvm(&params[i].type_expr.value);
            self.store_param(&params[i].name, &ty, i);
            assert(params@.take(i + 1).drop_last() == params@.take(i as int));
            i += 1;
        }
        assert(params@.take(i as int) == params@);
    }

    fn compile_fn(
        &mut self,
        name: &str,
        params: &'a Vec<Param>,
        ret_type: Option<&'a TypeNode>,
        body: &'a Vec<StmtNode>,
    )
        ensures
            final(self)@ == old(self)@.compile_fn(name@, params@, opt_node(ret_type), body@),
    {
        let scope = self.scope();
        let mangled = self.mangle_name(name);
        let ret = self.type_or(ret_type, "void");
        self.set_fn_ret(&ret);
        self.set_fn_ret_type(&mangled, &ret);
        let types = self.param_types(params);
        let list = join(&types, ", ");
        self.set_fn_param_types(&mangled, Names { list: types });
        let depth = self.depth();
        self.begin_fn(&ret, &mangled, &list);
        self.store_params(params);
        self.compile_stmts(body);
        if !returns_at_end(body) {
            self.final_return(&ret);
        }
        self.end_fn(depth);
        self.restore(scope);
    }

    fn compile_fn_item(&mut self, module: &'a Module, item: &'a ItemNode)
        ensures
            final(self)@ == old(self)@.compile_fn_item(*module, *item),
    {
        match &item.value {
            ItemKind::Fn { name, params, ret_type, body, .. } => {
                if !same(name, "main") {
                    self.compile_fn(name, params, ret_type.as_ref(), body);
                }
            },
            _ => {},
        }
    }

    fn method_param_types(&mut self, params: &'a Vec<Param>, with_self: bool) -> (r: Vec<String>)
        ensures
            (final(self)@, texts(r@)) == old(self)@.method_param_types(params@, with_self),
    {
        let ghost g = self@;
        let mut r: Vec<String> = Vec::new();
        let mut i: usize = 0;
        assert(texts(r@) == Seq::<Text>::empty());
        while i < params.len()
            invariant
                i <= params@.len(),
                (self@, texts(r@)) == g.method_param_types(params@.take(i as int), with_self),
            decreases params.len() - i,
        {
            let ghost before = r@;
            let t = if i == 0 && with_self {
                owned("i64")
            } else {
                self.type_to_llvm(&params[i].type_expr.value)
            };
            let ghost text = t@;
            r.push(t);
            assert(texts(r@) == texts(before).push(text));
            assert(params@.take(i + 1).drop_last() == params@.take(i as int));
            i += 1;
        }
        assert(params@.take(i as int) == params@);
        r
    }

    fn store_method_params(&mut self, params: &'a Vec<Param>, with_self: bool, self_ty: &str)
        ensures
            final(self)@ == old(self)@.store_method_params(params@, with_self, self_ty@),
    {
        let ghost g = self@;
        let mut i: usize = 0;
        while i < params.len()
            invariant
                i <= params@.len(),
                self@ == g.store_method_params(params@.take(i as int), with_self, self_ty@),
            decreases params.len() - i,
        {
            if i == 0 && with_self {
                self.store_receiver(&params[i].name, self_ty, "%0");
            } else {
                let ty = self.type_to_llvm(&params[i].type_expr.value);
                self.store_param(&params[i].name, &ty, i);
            }
            assert(params@.take(i + 1).drop_last() == params@.take(i as int));
            i += 1;
        }
        assert(params@.take(i as int) == params@);
    }

    fn compile_method(
        &mut self,
        mangled: &str,
        self_ty: &str,
        ret: &str,
        params: &'a Vec<Param>,
        body: &'a Vec<StmtNode>,
    )
        ensures
            final(self)@ == old(self)@.compile_method(mangled@, self_ty@, ret@, params@, body@),
    {
        let scope = self.scope();
        let with_self = takes_self(params);
        let types = self.method_param_types(params, with_self);
        let depth = self.depth();
        self.begin_fn(ret, mangled, &join(&types, ", "));
        self.store_method_params(params, with_self, self_ty);
        self.compile_stmts(body);
        self.final_method_return(ret);
        self.restore(scope);
        self.end_fn(depth);
    }

    fn compile_class_method(&mut self, class: &str, method: &'a ItemKind, module: &str)
        ensures
            final(self)@ == old(self)@.compile_class_method(class@, *method, module@),
    {
        match method {
            ItemKind::Fn { name, params, ret_type, body, .. } => {
                let mangled = scope_name("__method", module, &cat3(class, "_", name));
                let ret = self.type_or(ret_type.as_ref(), "void");
                self.set_class_method_ret(class, name, &ret);
                self.compile_method(&mangled, &cat2("%class.", class), &ret, params, body);
            },
            _ => {},
        }
    }

    fn compile_methods(&mut self, class: &str, methods: &'a Vec<ItemKind>, module: &str)
        ensures
            final(self)@ == old(self)@.compile_methods(class@, methods@, module@),
    {
        let ghost g = self@;
        let mut i: usize = 0;
        while i < methods.len()
            invariant
                i <= methods@.len(),
                self@ == g.compile_methods(class@, methods@.take(i as int), module@),
            decreases methods.len() - i,
        {
            self.compile_class_method(class, &methods[i], module);
            assert(methods@.take(i + 1).drop_last() == methods@.take(i as int));
            i += 1;
        }
        assert(methods@.take(i as int) == methods@);
    }

    fn compile_methods_of_class(&mut self, module: &'a Module, item: &'a ItemNode)
        ensures
            final(self)@ == old(self)@.compile_methods_of_class(*module, *item),
    {
        match &item.value {
            ItemKind::Class { name, methods, .. } => {
                self.compile_methods(name, methods, &module.name);
            },
            _ => {},
        }
    }

    fn compile_object_method(&mut self, object: &str, method: &'a ItemKind, module: &str)
        ensures
            final(self)@ == old(self)@.compile_object_method(object@, *method, module@),
    {
        match method {
            ItemKind::Fn { name, params, ret_type, body, .. } => {
                let mangled = scope_name("__obj_method", module, &cat3(object, "_", name));
                let ret = self.type_or(ret_type.as_ref(), "void");
                self.set_object_method_ret(object, name, &ret);
                if takes_self(params) {
                    self.set_object_method_self(object, name);
                }
                self.compile_method(&mangled, &cat2("%object.", object), &ret, params, body);
            },
            _ => {},
        }
    }

    fn compile_all_object_methods(&mut self, object: &str, methods: &'a Vec<ItemKind>, module: &str)
        ensures
            final(self)@ == old(self)@.compile_all_object_methods(object@, methods@, module@),
    {
        let ghost g = self@;
        let mut i: usize = 0;
        while i < methods.len()
            invariant
                i <= methods@.len(),
                self@ == g.compile_all_object_methods(object@, methods@.take(i as int), module@),
            decreases methods.len() - i,
        {
            self.compile_object_method(object, &methods[i], module);
            assert(methods@.take(i + 1).drop_last() == methods@.take(i as int));
            i += 1;
        }
        assert(methods@.take(i as int) == methods@);
    }

    fn compile_methods_of_object(&mut self, module: &'a Module, item: &'a ItemNode)
        ensures
            final(self)@ == old(self)@.compile_methods_of_object(*module, *item),
    {
        match &item.value {
            ItemKind::Object { name, methods, .. } => {
                self.compile_all_object_methods(name, methods, &module.name);
            },
            _ => {},
        }
    }

    fn compile_class_init(&mut self, class: &str, init_body: &'a Vec<StmtNode>, module: &str)
        ensures
            final(self)@ == old(self)@.compile_class_init(class@, init_body@, module@),
    {
        let mangled = scope_name("__class_init", module, class);
        let scope = self.scope();
        let outer_ret = self.fn_ret();
        self.set_fn_ret("void");
        let depth = self.depth();
        self.begin_fn("void", &mangled, "i64 %self_int");
        self.store_receiver("self", &cat2("%class.", class), "%self_int");
        self.compile_stmts(init_body);
        self.e("ret void");
        self.end_fn(depth);
        self.restore(scope);
        self.set_fn_ret(&outer_ret);
    }

    fn clear_fields(&mut self, object: &str, fields: &Pairs)
        ensures
            final(self)@ == old(self)@.clear_fields(object@, fields@),
    {
        let ghost g = self@;
        let obj_ty = cat2("%object.", object);
        let mut i: usize = 0;
        while i < fields.list.len()
            invariant
                i <= fields.list@.len(),
                obj_ty@ == "%object."@ + object@,
                self@ == g.clear_fields(object@, fields@.take(i as int)),
            decreases fields.list.len() - i,
        {
            assert(fields@[i as int] == (fields.list@[i as int].0@, fields.list@[i as int].1@));
            self.clear_field(&obj_ty, object, &fields.list[i].1);
            assert(fields@.take(i + 1).drop_last() == fields@.take(i as int));
            i += 1;
        }
        assert(fields@.take(i as int) == fields@);
    }

    fn compile_object_init(&mut self, object: &str, module: &str)
        ensures
            final(self)@ == old(self)@.compile_object_init(object@, module@),
    {
        let mangled = scope_name("__obj_init", module, object);
        let depth = self.depth();
        self.begin_fn("void", &mangled, "");
        let fields = match self.object_def(object) {
            Some(list) => list,
            None => Pairs::new(),
        };
        self.clear_fields(object, &fields);
        self.e("ret void");
        self.end_fn(depth);
    }

    fn compile_init_item(&mut self, module: &'a Module, item: &'a ItemNode)
        ensures
            final(self)@ == old(self)@.compile_init_item(*module, *item),
    {
        match &item.value {
            ItemKind::Class { name, init_body, .. } => {
                self.compile_class_init(name, init_body, &module.name);
            },
            ItemKind::Object { name, .. } => {
                self.compile_object_init(name, &module.name);
            },
            _ => {},
        }
    }

    fn name_fns(&mut self, items: &Vec<(&'a Module, &'a ItemNode)>)
        ensures
            final(self)@ == old(self)@.name_fns(items@),
    {
        let ghost g = self@;
        let mut i: usize = 0;
        while i < items.len()
            invariant
                i <= items@.len(),
                self@ == g.name_fns(items@.take(i as int)),
            decreases items.len() - i,
        {
            self.name_item(items[i].0, items[i].1);
            assert(items@.take(i + 1).drop_last() == items@.take(i as int));
            i += 1;
        }
        assert(items@.take(i as int) == items@);
    }

    fn collect_bodies(&mut self, items: &Vec<(&'a Module, &'a ItemNode)>)
        ensures
            final(self)@ == old(self)@.collect_bodies(items@),
    {
        let ghost g = self@;
        let mut i: usize = 0;
        while i < items.len()
            invariant
                i <= items@.len(),
                self@ == g.collect_bodies(items@.take(i as int)),
            decreases items.len() - i,
        {
            self.collect_body(items[i].0, items[i].1);
            assert(items@.take(i + 1).drop_last() == items@.take(i as int));
            i += 1;
        }
        assert(items@.take(i as int) == items@);
    }

    fn define_structs(&mut self, items: &Vec<(&'a Module, &'a ItemNode)>)
        ensures
            final(self)@ == old(self)@.define_structs(items@),
    {
        let ghost g = self@;
        let mut i: usize = 0;
        while i < items.len()
            invariant
                i <= items@.len(),
                self@ == g.define_structs(items@.take(i as int)),
            decreases items.len() - i,
        {
            self.define_struct_item(items[i].0, items[i].1);
            assert(items@.take(i + 1).drop_last() == items@.take(i as int));
            i += 1;
        }
        assert(items@.take(i as int) == items@);
    }

    fn define_interfaces(&mut self, items: &Vec<(&'a Module, &'a ItemNode)>)
        ensures
            final(self)@ == old(self)@.define_interfaces(items@),
    {
        let ghost g = self@;
        let mut i: usize = 0;
        while i < items.len()
            invariant
                i <= items@.len(),
                self@ == g.define_interfaces(items@.take(i as int)),
            decreases items.len() - i,
        {
            self.define_interface_item(items[i].0, items[i].1);
            assert(items@.take(i + 1).drop_last() == items@.take(i as int));
            i += 1;
        }
        assert(items@.take(i as int) == items@);
    }

    fn collect_impls(&mut self, items: &Vec<(&'a Module, &'a ItemNode)>)
        ensures
            final(self)@ == old(self)@.collect_impls(items@),
    {
        let ghost g = self@;
        let mut i: usize = 0;
        while i < items.len()
            invariant
                i <= items@.len(),
                self@ == g.collect_impls(items@.take(i as int)),
            decreases items.len() - i,
        {
            self.collect_impls_of(items[i].0, items[i].1);
            assert(items@.take(i + 1).drop_last() == items@.take(i as int));
            i += 1;
        }
        assert(items@.take(i as int) == items@);
    }

    fn define_objects(&mut self, items: &Vec<(&'a Module, &'a ItemNode)>)
        ensures
            final(self)@ == old(self)@.define_objects(items@),
    {
        let ghost g = self@;
        let mut i: usize = 0;
        while i < items.len()
            invariant
                i <= items@.len(),
                self@ == g.define_objects(items@.take(i as int)),
            decreases items.len() - i,
        {
            self.define_object_item(items[i].0, items[i].1);
            assert(items@.take(i + 1).drop_last() == items@.take(i as int));
            i += 1;
        }
        assert(items@.take(i as int) == items@);
    }

    fn define_classes(&mut self, items: &Vec<(&'a Module, &'a ItemNode)>)
        ensures
            final(self)@ == old(self)@.define_classes(items@),
    {
        let ghost g = self@;
        let mut i: usize = 0;
        while i < items.len()
            invariant
                i <= items@.len(),
                self@ == g.define_classes(items@.take(i as int)),
            decreases items.len() - i,
        {
            self.define_class_item(items[i].0, items[i].1);
            assert(items@.take(i + 1).drop_last() == items@.take(i as int));
            i += 1;
        }
        assert(items@.take(i as int) == items@);
    }

    fn define_vtables(&mut self, items: &Vec<(&'a Module, &'a ItemNode)>)
        ensures
            final(self)@ == old(self)@.define_vtables(items@),
    {
        let ghost g = self@;
        let mut i: usize = 0;
        while i < items.len()
            invariant
                i <= items@.len(),
                self@ == g.define_vtables(items@.take(i as int)),
            decreases items.len() - i,
        {
            self.define_vtable_item(items[i].0, items[i].1);
            assert(items@.take(i + 1).drop_last() == items@.take(i as int));
            i += 1;
        }
        assert(items@.take(i as int) == items@);
    }

    fn collect_signatures(&mut self, items: &Vec<(&'a Module, &'a ItemNode)>)
        ensures
            final(self)@ == old(self)@.collect_signatures(items@),
    {
        let ghost g = self@;
        let mut i: usize = 0;
        while i < items.len()
            invariant
                i <= items@.len(),
                self@ == g.collect_signatures(items@.take(i as int)),
            decreases items.len() - i,
        {
            self.collect_signature(items[i].0, items[i].1);
            assert(items@.take(i + 1).drop_last() == items@.take(i as int));
            i += 1;
        }
        assert(items@.take(i as int) == items@);
    }

    fn compile_fns(&mut self, items: &Vec<(&'a Module, &'a ItemNode)>)
        ensures
            final(self)@ == old(self)@.compile_fns(items@),
    {
        let ghost g = self@;
        let mut i: usize = 0;
        while i < items.len()
            invariant
                i <= items@.len(),
                self@ == g.compile_fns(items@.take(i as int)),
            decreases items.len() - i,
        {
            self.compile_fn_item(items[i].0, items[i].1);
            assert(items@.take(i + 1).drop_last() == items@.take(i as int));
            i += 1;
        }
        assert(items@.take(i as int) == items@);
    }

    fn compile_class_methods(&mut self, items: &Vec<(&'a Module, &'a ItemNode)>)
        ensures
            final(self)@ == old(self)@.compile_class_methods(items@),
    {
        let ghost g = self@;
        let mut i: usize = 0;
        while i < items.len()
            invariant
                i <= items@.len(),
                self@ == g.compile_class_methods(items@.take(i as int)),
            decreases items.len() - i,
        {
            self.compile_methods_of_class(items[i].0, items[i].1);
            assert(items@.take(i + 1).drop_last() == items@.take(i as int));
            i += 1;
        }
        assert(items@.take(i as int) == items@);
    }

    fn compile_inits(&mut self, items: &Vec<(&'a Module, &'a ItemNode)>)
        ensures
            final(self)@ == old(self)@.compile_inits(items@),
    {
        let ghost g = self@;
        let mut i: usize = 0;
        while i < items.len()
            invariant
                i <= items@.len(),
                self@ == g.compile_inits(items@.take(i as int)),
            decreases items.len() - i,
        {
            self.compile_init_item(items[i].0, items[i].1);
            assert(items@.take(i + 1).drop_last() == items@.take(i as int));
            i += 1;
        }
        assert(items@.take(i as int) == items@);
    }

    fn compile_object_methods(&mut self, items: &Vec<(&'a Module, &'a ItemNode)>)
        ensures
            final(self)@ == old(self)@.compile_object_methods(items@),
    {
        let ghost g = self@;
        let mut i: usize = 0;
        while i < items.len()
            invariant
                i <= items@.len(),
                self@ == g.compile_object_methods(items@.take(i as int)),
            decreases items.len() - i,
        {
            self.compile_methods_of_object(items[i].0, items[i].1);
            assert(items@.take(i + 1).drop_last() == items@.take(i as int));
            i += 1;
        }
        assert(items@.take(i as int) == items@);
    }

    fn write_class_types(&mut self, names: &Vec<String>)
        ensures
            final(self)@ == old(self)@.write_class_types(texts(names@)),
    {
        let ghost g = self@;
        let mut i: usize = 0;
        while i < names.len()
            invariant
                i <= names@.len(),
                self@ == g.write_class_types(texts(names@).take(i as int)),
            decreases names.len() - i,
        {
            self.write_class(&names[i]);
            assert(texts(names@).take(i + 1).drop_last() == texts(names@).take(i as int));
            i += 1;
        }
        assert(texts(names@).take(i as int) == texts(names@));
    }

    fn write_vtable_types(&mut self, names: &Vec<String>)
        ensures
            final(self)@ == old(self)@.write_vtable_types(texts(names@)),
    {
        let ghost g = self@;
        let mut i: usize = 0;
        while i < names.len()
            invariant
                i <= names@.len(),
                self@ == g.write_vtable_types(texts(names@).take(i as int)),
            decreases names.len() - i,
        {
            self.write_vtable_type_of(&names[i]);
            assert(texts(names@).take(i + 1).drop_last() == texts(names@).take(i as int));
            i += 1;
        }
        assert(texts(names@).take(i as int) == texts(names@));
    }

    fn write_vtables(&mut self, names: &Vec<String>)
        ensures
            final(self)@ == old(self)@.write_vtables(texts(names@)),
    {
        let ghost g = self@;
        let mut i: usize = 0;
        while i < names.len()
            invariant
                i <= names@.len(),
                self@ == g.write_vtables(texts(names@).take(i as int)),
            decreases names.len() - i,
        {
            self.write_vtable_of(&names[i]);
            assert(texts(names@).take(i + 1).drop_last() == texts(names@).take(i as int));
            i += 1;
        }
        assert(texts(names@).take(i as int) == texts(names@));
    }

    fn write_interface_types(&mut self, names: &Vec<String>)
        ensures
            final(self)@ == old(self)@.write_interface_types(texts(names@)),
    {
        let ghost g = self@;
        let mut i: usize = 0;
        while i < names.len()
            invariant
                i <= names@.len(),
                self@ == g.write_interface_types(texts(names@).take(i as int)),
            decreases names.len() - i,
        {
            self.write_interface(&names[i]);
            assert(texts(names@).take(i + 1).drop_last() == texts(names@).take(i as int));
            i += 1;
        }
        assert(texts(names@).take(i as int) == texts(names@));
    }

    fn write_interface_vtables(&mut self, names: &Vec<String>)
        ensures
            final(self)@ == old(self)@.write_interface_vtables(texts(names@)),
    {
        let ghost g = self@;
        let mut i: usize = 0;
        while i < names.len()
            invariant
                i <= names@.len(),
                self@ == g.write_interface_vtables(texts(names@).take(i as int)),
            decreases names.len() - i,
        {
            self.write_interface_vtables_of(&names[i]);
            assert(texts(names@).take(i + 1).drop_last() == texts(names@).take(i as int));
            i += 1;
        }
        assert(texts(names@).take(i as int) == texts(names@));
    }

    fn write_object_types(&mut self, names: &Vec<String>)
        ensures
            final(self)@ == old(self)@.write_object_types(texts(names@)),
    {
        let ghost g = self@;
        let mut i: usize = 0;
        while i < names.len()
            invariant
                i <= names@.len(),
                self@ == g.write_object_types(texts(names@).take(i as int)),
            decreases names.len() - i,
        {
            self.write_object(&names[i]);
            assert(texts(names@).take(i + 1).drop_last() == texts(names@).take(i as int));
            i += 1;
        }
        assert(texts(names@).take(i as int) == texts(names@));
    }

    fn write_objects(&mut self, names: &Vec<String>)
        ensures
            final(self)@ == old(self)@.write_objects(texts(names@)),
    {
        let ghost g = self@;
        let mut i: usize = 0;
        while i < names.len()
            invariant
                i <= names@.len(),
                self@ == g.write_objects(texts(names@).take(i as int)),
            decreases names.len() - i,
        {
            self.write_object_global(&names[i]);
            assert(texts(names@).take(i + 1).drop_last() == texts(names@).take(i as int));
            i += 1;
        }
        assert(texts(names@).take(i as int) == texts(names@));
    }

    fn call_object_inits(&mut self, names: &Vec<String>)
        ensures
            final(self)@ == old(self)@.call_object_inits(texts(names@)),
    {
        let ghost g = self@;
        let mut i: usize = 0;
        while i < names.len()
            invariant
                i <= names@.len(),
                self@ == g.call_object_inits(texts(names@).take(i as int)),
            decreases names.len() - i,
        {
            self.call_object_init(&names[i]);
            assert(texts(names@).take(i + 1).drop_last() == texts(names@).take(i as int));
            i += 1;
        }
        assert(texts(names@).take(i as int) == texts(names@));
    }

    fn compile_module_items(&mut self, module: &'a Module)
        ensures
            final(self)@ == old(self)@.compile_module_items(module),
    {
        let items = items_of(module);
        self.set_module(&module.name);
        self.compile_fns(&items);
        self.compile_class_methods(&items);
        self.compile_inits(&items);
        self.compile_object_methods(&items);
    }

    fn compile_all_modules(&mut self, modules: &[&'a Module])
        ensures
            final(self)@ == old(self)@.compile_all_modules(modules@),
    {
        let ghost g = self@;
        let mut i: usize = 0;
        while i < modules.len()
            invariant
                i <= modules@.len(),
                self@ == g.compile_all_modules(modules@.take(i as int)),
            decreases modules.len() - i,
        {
            self.compile_module_items(modules[i]);
            assert(modules@.take(i + 1).drop_last() == modules@.take(i as int));
            i += 1;
        }
        assert(modules@.take(i as int) == modules@);
    }

    fn bind_main_params(&mut self, params: &'a Vec<Param>)
        ensures
            final(self)@ == old(self)@.bind_main_params(params@),
    {
        let ghost g = self@;
        let mut i: usize = 0;
        while i < params.len()
            invariant
                i <= params@.len(),
                self@ == g.bind_main_params(params@.take(i as int)),
            decreases params.len() - i,
        {
            let ty = self.type_to_llvm(&params[i].type_expr.value);
            self.bind_var(&params[i].name, &ty);
            assert(params@.take(i + 1).drop_last() == params@.take(i as int));
            i += 1;
        }
        assert(params@.take(i as int) == params@);
    }

    fn compile_main(&mut self, params: &'a Vec<Param>, body: &'a Vec<StmtNode>)
        ensures
            final(self)@ == old(self)@.compile_main(params@, body@),
    {
        let scope = self.scope();
        let depth = self.depth();
        self.begin_main();
        self.bind_main_params(params);
        let objects = self.object_names();
        self.call_object_inits(&objects);
        self.compile_stmts(body);
        self.end_main(depth);
        self.restore(scope);
    }

    fn compile_deferred(&mut self, f: &Deferred<'a>)
        ensures
            final(self)@ == old(self)@.compile_deferred(f@),
    {
        let ret = self.type_or(f.ret, "i64");
        self.set_fn_ret(&ret);
        let types = self.param_types(f.params);
        let depth = self.depth();
        self.begin_fn(&ret, &f.name, &join(&types, ", "));
        self.store_params(f.params);
        self.compile_return(f.body);
        if !same(&ret, "void") {
            self.final_value(&ret);
        }
        self.end_fn(depth);
        self.restore(Scope { types: Table::new(), slots: Table::new() });
    }

    fn compile_all_deferred(&mut self, fns: &Vec<Deferred<'a>>)
        ensures
            final(self)@ == old(self)@.compile_all_deferred(fns@.map_values(|d: Deferred<'a>| d@)),
    {
        let ghost g = self@;
        let ghost all = fns@.map_values(|d: Deferred<'a>| d@);
        let mut i: usize = 0;
        while i < fns.len()
            invariant
                all == fns@.map_values(|d: Deferred<'a>| d@),
                i <= fns@.len(),
                self@ == g.compile_all_deferred(all.take(i as int)),
            decreases fns.len() - i,
        {
            self.compile_deferred(&fns[i]);
            assert(all.take(i + 1).drop_last() == all.take(i as int));
            i += 1;
        }
        assert(all.take(i as int) == all);
    }

    fn compile_spawned(&mut self, s: &Spawned<'a>)
        ensures
            final(self)@ == old(self)@.compile_spawned(s@),
    {
        let depth = self.depth();
        self.begin_fn("void", &s.name, "ptr %slot");
        let (val, _) = self.compile_expr(s.body);
        self.e(&cat3("store i64 ", &val, ", ptr %slot"));
        self.e("ret void");
        self.end_fn(depth);
        self.restore(Scope { types: Table::new(), slots: Table::new() });
    }

    fn compile_all_spawned(&mut self, list: &Vec<Spawned<'a>>)
        ensures
            final(self)@ == old(self)@.compile_all_spawned(list@.map_values(|d: Spawned<'a>| d@)),
    {
        let ghost g = self@;
        let ghost all = list@.map_values(|d: Spawned<'a>| d@);
        let mut i: usize = 0;
        while i < list.len()
            invariant
                all == list@.map_values(|d: Spawned<'a>| d@),
                i <= list@.len(),
                self@ == g.compile_all_spawned(all.take(i as int)),
            decreases list.len() - i,
        {
            self.compile_spawned(&list[i]);
            assert(all.take(i + 1).drop_last() == all.take(i as int));
            i += 1;
        }
        assert(all.take(i as int) == all);
    }

    fn write_definitions(&mut self, modules: &[&'a Module])
        ensures
            final(self)@ == old(self)@.write_definitions(modules@),
    {
        let items = items_of_all(modules);
        self.write_head();
        self.name_fns(&items);
        self.collect_bodies(&items);
        self.collect_ffi(modules);
        self.define_structs(&items);
        self.e_raw("");
        self.define_interfaces(&items);
        self.collect_impls(&items);
        self.define_objects(&items);
        self.define_classes(&items);
        self.clear_vtables();
        self.define_vtables(&items);
        let classes = self.class_names();
        self.write_class_types(&classes);
        self.e_raw("");
        let tables = self.vtable_names();
        self.write_vtable_types(&tables);
        let tables = self.vtable_names();
        self.write_vtables(&tables);
        self.e_raw("");
        let ifaces = self.interface_names();
        self.write_interface_types(&ifaces);
        self.gap_after(&ifaces);
        self.write_interface_vtables(&ifaces);
        self.gap_after(&ifaces);
        let objects = self.object_names();
        self.write_object_types(&objects);
        self.write_objects(&objects);
        self.gap_after(&objects);
        self.paste(RUNTIME_DECLARATIONS);
    }

    fn write_functions(&mut self, modules: &[&'a Module])
        ensures
            final(self)@ == old(self)@.write_functions(modules@),
    {
        let items = items_of_all(modules);
        self.collect_signatures(&items);
        self.compile_all_modules(modules);
        self.set_module("");
        match main_item(&items) {
            Some(item) => match &item.value {
                ItemKind::Fn { params, body, .. } => self.compile_main(params, body),
                _ => {},
            },
            None => {},
        }
        let deferred = self.take_deferred();
        self.compile_all_deferred(&deferred);
        let spawned = self.take_spawned();
        self.compile_all_spawned(&spawned);
        self.paste_handlers();
    }

    /// Compiles a module into the text of an LLVM module.
    pub fn compile_module(&mut self, module: &'a Module) -> (r: String)
        ensures
            (final(self)@, r@) == old(self)@.compile_modules(seq![module]),
    {
        let modules: [&'a Module; 1] = [module];
        assert(modules@ == seq![module]);
        self.compile_modules(&modules)
    }

    /// Compiles modules into the text of one LLVM module.
    pub fn compile_modules(&mut self, modules: &[&'a Module]) -> (r: String)
        ensures
            (final(self)@, r@) == old(self)@.compile_modules(modules@),
    {
        self.write_definitions(modules);
        self.write_functions(modules);
        let output = self.take_output();
        let types = self.take_type_lines();
        insert_types(&output, &types)
    }
}

fn both(a: Pairs, b: Pairs) -> (r: Pairs)
    ensures
        r@ == a@ + b@,
{
    let mut list = a.list;
    let mut more = b.list;
    let ghost first = list@;
    let ghost rest = more@;
    list.append(&mut more);
    let r = Pairs { list };
    assert(r@ == pairs(first) + pairs(rest));
    r
}

// ---------------------------------------------------------------------------------------------
// Entry points
// ---------------------------------------------------------------------------------------------
/// The text of the LLVM module for a list of modules.
pub open spec fn llvm_text(modules: Seq<&Module>) -> Text {
    fresh_gen().compile_modules(modules).1
}

/// Compiles a module into the text of an LLVM module.
pub fn compile_to_llvm(module: &Module) -> (r: String)
    ensures
        r@ == llvm_text(seq![module]),
{
    let modules: [&Module; 1] = [module];
    assert(modules@ == seq![module]);
    compile_to_llvm_modules(&modules)
}

/// Compiles modules into the text of one LLVM module.
pub fn compile_to_llvm_modules(modules: &[&Module]) -> (r: String)
    ensures
        r@ == llvm_text(modules@),
{
    let mut codegen = LlvmCodegen::new();
    codegen.compile_modules(modules)
}

} // verus!
