//! What a module keeps: text that is written stays to the end, so every module begins with its head.

use vstd::prelude::*;

use crate::codegen::llvm::laws::{
    continues, grows, keeps_bind_var, keeps_compile_expr, keeps_compile_return,
    keeps_compile_stmts, keeps_e, keeps_e_raw, keeps_fresh_label, keeps_set_var_alloca,
    keeps_set_var_type, keeps_store_param, keeps_type_to_llvm,
};
use crate::codegen::llvm::module::{has_self, llvm_text, method_symbol, with_types};
use crate::codegen::llvm::state::{fresh_gen, handlers_text, lines_text, DeferredFn, Gen, SpawnedExpr};
use crate::scan::{
    begins, joined, lemma_begins_appended, lemma_begins_longer, lemma_begins_same, lemma_first_place, occurs_at,
};
use crate::syntax::ast::{
    ExprNode, Import, ItemKind, ItemNode, MethodSig, Module, Param, StmtNode, TypeExpr, TypeNode,
};
use crate::text::Text;

verus! {

/// `h` carries `g` on: what is written stays.
#[verifier::opaque]
pub open spec fn longer(g: Gen, h: Gen) -> bool {
    begins(h.output, g.output)
}

/// `h` carries `g` on at the same depth.
pub open spec fn extends(g: Gen, h: Gen) -> bool {
    longer(g, h) && h.indent == g.indent
}

/// What is carried on twice is carried on.
pub broadcast proof fn lemma_longer_on(a: Gen, b: Gen, c: Gen)
    requires
        #[trigger] longer(a, b),
        #[trigger] longer(b, c),
    ensures
        longer(a, c),
{
    reveal(longer);
    lemma_begins_longer(a.output, b.output, c.output);
}

/// What is left as it is is carried on.
pub broadcast proof fn lemma_longer_same(a: Gen, b: Gen)
    requires
        a.output == b.output,
    ensures
        #[trigger] longer(a, b),
{
    reveal(longer);
    lemma_begins_same(a.output);
}

/// What a function body carries on is carried on.
proof fn lemma_continues_extends(g: Gen, h: Gen)
    requires
        continues(g, h),
    ensures
        extends(g, h),
{
    reveal(longer);
    reveal(grows);
}

// ---------------------------------------------------------------------------------------------
// Steps
// ---------------------------------------------------------------------------------------------
broadcast proof fn extends_compile_stmts(g: Gen, stmts: Seq<StmtNode>)
    ensures
        extends(g, #[trigger] g.compile_stmts(stmts)),
{
    keeps_compile_stmts(g, stmts);
    lemma_continues_extends(g, g.compile_stmts(stmts));
}

broadcast proof fn extends_compile_return(g: Gen, expr: ExprNode)
    ensures
        extends(g, #[trigger] g.compile_return(expr)),
{
    keeps_compile_return(g, expr);
    lemma_continues_extends(g, g.compile_return(expr));
}

broadcast proof fn extends_compile_expr(g: Gen, expr: ExprNode)
    ensures
        extends(g, (#[trigger] g.compile_expr(expr)).0),
{
    keeps_compile_expr(g, expr);
    lemma_continues_extends(g, g.compile_expr(expr).0);
}

broadcast proof fn extends_type_to_llvm(g: Gen, te: TypeExpr)
    ensures
        extends(g, (#[trigger] g.type_to_llvm(te)).0),
{
    keeps_type_to_llvm(g, te);
    lemma_continues_extends(g, g.type_to_llvm(te).0);
}

broadcast proof fn extends_store_param(g: Gen, name: Text, ty: Text, i: nat)
    ensures
        extends(g, #[trigger] g.store_param(name, ty, i)),
{
    keeps_store_param(g, name, ty, i);
    lemma_continues_extends(g, g.store_param(name, ty, i));
}

broadcast proof fn extends_bind_var(g: Gen, name: Text, ty: Text)
    ensures
        extends(g, (#[trigger] g.bind_var(name, ty)).0),
{
    keeps_bind_var(g, name, ty);
    lemma_continues_extends(g, g.bind_var(name, ty).0);
}

broadcast proof fn extends_fresh_label(g: Gen)
    ensures
        extends(g, (#[trigger] g.fresh_label()).0),
{
    keeps_fresh_label(g);
    lemma_continues_extends(g, g.fresh_label().0);
}

broadcast proof fn extends_e(g: Gen, s: Text)
    ensures
        extends(g, #[trigger] g.e(s)),
{
    keeps_e(g, s);
    lemma_continues_extends(g, g.e(s));
}

broadcast proof fn extends_e_raw(g: Gen, s: Text)
    ensures
        extends(g, #[trigger] g.e_raw(s)),
{
    keeps_e_raw(g, s);
    lemma_continues_extends(g, g.e_raw(s));
}

broadcast proof fn extends_set_var_type(g: Gen, k: Text, v: Text)
    ensures
        extends(g, #[trigger] g.set_var_type(k, v)),
{
    keeps_set_var_type(g, k, v);
    lemma_continues_extends(g, g.set_var_type(k, v));
}

broadcast proof fn extends_set_var_alloca(g: Gen, k: Text, v: Text)
    ensures
        extends(g, #[trigger] g.set_var_alloca(k, v)),
{
    keeps_set_var_alloca(g, k, v);
    lemma_continues_extends(g, g.set_var_alloca(k, v));
}

broadcast proof fn extends_paste(g: Gen, s: Text)
    ensures
        extends(g, #[trigger] g.paste(s)),
{
    reveal(longer);
    reveal(Gen::paste);
    lemma_begins_appended(g.output, s);
}

broadcast proof fn extends_set_indent(g: Gen, n: nat)
    ensures
        longer(g, #[trigger] g.set_indent(n)),
        g.set_indent(n).indent == n,
{
    reveal(Gen::set_indent);
    lemma_longer_same(g, g.set_indent(n));
}

broadcast proof fn extends_define_struct(g: Gen, k: Text, v: Seq<(Text, Text)>)
    ensures
        extends(g, #[trigger] g.define_struct(k, v)),
{
    reveal(Gen::define_struct);
    lemma_longer_same(g, g.define_struct(k, v));
}

broadcast proof fn extends_define_class(g: Gen, k: Text, v: Seq<(Text, Text)>)
    ensures
        extends(g, #[trigger] g.define_class(k, v)),
{
    reveal(Gen::define_class);
    lemma_longer_same(g, g.define_class(k, v));
}

broadcast proof fn extends_define_vtable(g: Gen, k: Text, v: Seq<(Text, Text)>)
    ensures
        extends(g, #[trigger] g.define_vtable(k, v)),
{
    reveal(Gen::define_vtable);
    lemma_longer_same(g, g.define_vtable(k, v));
}

broadcast proof fn extends_define_object(g: Gen, k: Text, v: Seq<(Text, Text)>)
    ensures
        extends(g, #[trigger] g.define_object(k, v)),
{
    reveal(Gen::define_object);
    lemma_longer_same(g, g.define_object(k, v));
}

broadcast proof fn extends_clear_vtables(g: Gen)
    ensures
        extends(g, #[trigger] g.clear_vtables()),
{
    reveal(Gen::clear_vtables);
    lemma_longer_same(g, g.clear_vtables());
}

broadcast proof fn extends_set_class_method_ret(g: Gen, a: Text, b: Text, v: Text)
    ensures
        extends(g, #[trigger] g.set_class_method_ret(a, b, v)),
{
    reveal(Gen::set_class_method_ret);
    lemma_longer_same(g, g.set_class_method_ret(a, b, v));
}

broadcast proof fn extends_set_interface_method_ret(g: Gen, a: Text, b: Text, v: Text)
    ensures
        extends(g, #[trigger] g.set_interface_method_ret(a, b, v)),
{
    reveal(Gen::set_interface_method_ret);
    lemma_longer_same(g, g.set_interface_method_ret(a, b, v));
}

broadcast proof fn extends_set_object_method_ret(g: Gen, a: Text, b: Text, v: Text)
    ensures
        extends(g, #[trigger] g.set_object_method_ret(a, b, v)),
{
    reveal(Gen::set_object_method_ret);
    lemma_longer_same(g, g.set_object_method_ret(a, b, v));
}

broadcast proof fn extends_set_object_method_self(g: Gen, a: Text, b: Text)
    ensures
        extends(g, #[trigger] g.set_object_method_self(a, b)),
{
    reveal(Gen::set_object_method_self);
    lemma_longer_same(g, g.set_object_method_self(a, b));
}

broadcast proof fn extends_set_fn_name(g: Gen, k: Text, v: Text)
    ensures
        extends(g, #[trigger] g.set_fn_name(k, v)),
{
    reveal(Gen::set_fn_name);
    lemma_longer_same(g, g.set_fn_name(k, v));
}

broadcast proof fn extends_set_module(g: Gen, v: Text)
    ensures
        extends(g, #[trigger] g.set_module(v)),
{
    reveal(Gen::set_module);
    lemma_longer_same(g, g.set_module(v));
}

broadcast proof fn extends_add_ffi_module(g: Gen, v: Text)
    ensures
        extends(g, #[trigger] g.add_ffi_module(v)),
{
    reveal(Gen::add_ffi_module);
    lemma_longer_same(g, g.add_ffi_module(v));
}

broadcast proof fn extends_set_fn_ret(g: Gen, v: Text)
    ensures
        extends(g, #[trigger] g.set_fn_ret(v)),
{
    reveal(Gen::set_fn_ret);
    lemma_longer_same(g, g.set_fn_ret(v));
}

broadcast proof fn extends_set_fn_ret_type(g: Gen, k: Text, v: Text)
    ensures
        extends(g, #[trigger] g.set_fn_ret_type(k, v)),
{
    reveal(Gen::set_fn_ret_type);
    lemma_longer_same(g, g.set_fn_ret_type(k, v));
}

broadcast proof fn extends_set_fn_param_types(g: Gen, k: Text, v: Seq<Text>)
    ensures
        extends(g, #[trigger] g.set_fn_param_types(k, v)),
{
    reveal(Gen::set_fn_param_types);
    lemma_longer_same(g, g.set_fn_param_types(k, v));
}

broadcast proof fn extends_define_interface(g: Gen, k: Text, v: Seq<Text>)
    ensures
        extends(g, #[trigger] g.define_interface(k, v)),
{
    reveal(Gen::define_interface);
    lemma_longer_same(g, g.define_interface(k, v));
}

broadcast proof fn extends_set_class_impls(g: Gen, k: Text, v: Seq<Text>)
    ensures
        extends(g, #[trigger] g.set_class_impls(k, v)),
{
    reveal(Gen::set_class_impls);
    lemma_longer_same(g, g.set_class_impls(k, v));
}

broadcast proof fn extends_set_class_module(g: Gen, k: Text, v: Text)
    ensures
        extends(g, #[trigger] g.set_class_module(k, v)),
{
    reveal(Gen::set_class_module);
    lemma_longer_same(g, g.set_class_module(k, v));
}

broadcast proof fn extends_set_object_module(g: Gen, k: Text, v: Text)
    ensures
        extends(g, #[trigger] g.set_object_module(k, v)),
{
    reveal(Gen::set_object_module);
    lemma_longer_same(g, g.set_object_module(k, v));
}

broadcast proof fn extends_set_params(g: Gen, name: Text, params: Seq<Param>)
    ensures
        extends(g, #[trigger] g.set_params(name, params)),
{
    reveal(Gen::set_params);
    lemma_longer_same(g, g.set_params(name, params));
}

broadcast proof fn extends_set_body(g: Gen, name: Text, body: Seq<StmtNode>)
    ensures
        extends(g, #[trigger] g.set_body(name, body)),
{
    reveal(Gen::set_body);
    lemma_longer_same(g, g.set_body(name, body));
}

broadcast proof fn extends_take_deferred(g: Gen)
    ensures
        extends(g, (#[trigger] g.take_deferred()).0),
{
    reveal(Gen::take_deferred);
    lemma_longer_same(g, g.take_deferred().0);
}

broadcast proof fn extends_take_spawned(g: Gen)
    ensures
        extends(g, (#[trigger] g.take_spawned()).0),
{
    reveal(Gen::take_spawned);
    lemma_longer_same(g, g.take_spawned().0);
}

broadcast proof fn extends_restore(g: Gen, types: Seq<(Text, Text)>, slots: Seq<(Text, Text)>)
    ensures
        extends(g, #[trigger] g.restore(types, slots)),
{
    reveal(Gen::restore);
    lemma_longer_same(g, g.restore(types, slots));
}

broadcast proof fn extends_paste_handlers(g: Gen)
    ensures
        extends(g, #[trigger] g.paste_handlers()),
{
    reveal(longer);
    reveal(Gen::paste_handlers);
    lemma_begins_appended(g.output, handlers_text(g.handler_irs));
}

broadcast group group_steps {
    lemma_longer_on,
    lemma_longer_same,
    extends_compile_stmts,
    extends_compile_return,
    extends_compile_expr,
    extends_type_to_llvm,
    extends_store_param,
    extends_bind_var,
    extends_fresh_label,
    extends_e,
    extends_e_raw,
    extends_set_var_type,
    extends_set_var_alloca,
    extends_paste,
    extends_set_indent,
    extends_define_struct,
    extends_define_class,
    extends_define_vtable,
    extends_define_object,
    extends_clear_vtables,
    extends_set_class_method_ret,
    extends_set_interface_method_ret,
    extends_set_object_method_ret,
    extends_set_object_method_self,
    extends_set_fn_name,
    extends_set_module,
    extends_add_ffi_module,
    extends_set_fn_ret,
    extends_set_fn_ret_type,
    extends_set_fn_param_types,
    extends_define_interface,
    extends_set_class_impls,
    extends_set_class_module,
    extends_set_object_module,
    extends_set_params,
    extends_set_body,
    extends_take_deferred,
    extends_take_spawned,
    extends_restore,
    extends_paste_handlers,
}

// ---------------------------------------------------------------------------------------------
// Items and modules
// ---------------------------------------------------------------------------------------------
broadcast proof fn extends_type_or(g: Gen, te: Option<TypeNode>, other: Text)
    ensures
        extends(g, (#[trigger] g.type_or(te, other)).0),
{
    broadcast use group_steps;

    lemma_longer_same(g, g);
}

broadcast proof fn extends_param_types(g: Gen, params: Seq<Param>)
    ensures
        extends(g, (#[trigger] g.param_types(params)).0),
    decreases params.len(),
{
    broadcast use group_steps;

    lemma_longer_same(g, g);
    if params.len() > 0 {
        extends_param_types(g, params.drop_last());
    }
}

broadcast proof fn extends_field_types(g: Gen, fields: Seq<Param>)
    ensures
        extends(g, (#[trigger] g.field_types(fields)).0),
    decreases fields.len(),
{
    broadcast use group_steps;

    lemma_longer_same(g, g);
    if fields.len() > 0 {
        extends_field_types(g, fields.drop_last());
    }
}

broadcast proof fn extends_name_fn(g: Gen, module: Text, name: Text)
    ensures
        extends(g, #[trigger] g.name_fn(module, name)),
{
    broadcast use group_steps;

    lemma_longer_same(g, g);
}

broadcast proof fn extends_write_vtable_type(g: Gen, name: Text, ptrs: Text)
    ensures
        extends(g, #[trigger] g.write_vtable_type(name, ptrs)),
{
    broadcast use group_steps;

    lemma_longer_same(g, g);
}

broadcast proof fn extends_write_vtable(g: Gen, name: Text, entries: Text)
    ensures
        extends(g, #[trigger] g.write_vtable(name, entries)),
{
    broadcast use group_steps;

    lemma_longer_same(g, g);
}

broadcast proof fn extends_write_interface_vtable(
    g: Gen,
    iface: Text,
    class: Text,
    ptrs: Text,
    entries: Text,
)
    ensures
        extends(g, #[trigger] g.write_interface_vtable(iface, class, ptrs, entries)),
{
    broadcast use group_steps;

    lemma_longer_same(g, g);
}

broadcast proof fn extends_begin_fn(g: Gen, ret: Text, name: Text, params: Text)
    ensures
        longer(g, #[trigger] g.begin_fn(ret, name, params)),
{
    broadcast use group_steps;

    lemma_longer_same(g, g);
}

broadcast proof fn extends_end_fn(g: Gen, depth: nat)
    ensures
        longer(g, #[trigger] g.end_fn(depth)),
        g.end_fn(depth).indent == depth,
{
    broadcast use group_steps;

    lemma_longer_same(g, g);
}

broadcast proof fn extends_final_return(g: Gen, ret: Text)
    ensures
        extends(g, #[trigger] g.final_return(ret)),
{
    broadcast use group_steps;

    lemma_longer_same(g, g);
}

broadcast proof fn extends_final_value(g: Gen, ret: Text)
    ensures
        extends(g, #[trigger] g.final_value(ret)),
{
    broadcast use group_steps;

    lemma_longer_same(g, g);
}

broadcast proof fn extends_final_method_return(g: Gen, ret: Text)
    ensures
        extends(g, #[trigger] g.final_method_return(ret)),
{
    broadcast use {group_steps, extends_final_value};

    lemma_longer_same(g, g);
}

broadcast proof fn extends_store_receiver(g: Gen, name: Text, self_ty: Text, source: Text)
    ensures
        extends(g, #[trigger] g.store_receiver(name, self_ty, source)),
{
    broadcast use group_steps;

    lemma_longer_same(g, g);
}

broadcast proof fn extends_clear_field(g: Gen, obj_ty: Text, obj_name: Text, fty: Text)
    ensures
        extends(g, #[trigger] g.clear_field(obj_ty, obj_name, fty)),
{
    broadcast use group_steps;

    lemma_longer_same(g, g);
}

broadcast proof fn extends_call_object_init(g: Gen, name: Text)
    ensures
        extends(g, #[trigger] g.call_object_init(name)),
{
    broadcast use group_steps;

    lemma_longer_same(g, g);
}

broadcast proof fn extends_begin_main(g: Gen)
    ensures
        longer(g, #[trigger] g.begin_main()),
{
    broadcast use group_steps;

    lemma_longer_same(g, g);
}

broadcast proof fn extends_end_main(g: Gen, depth: nat)
    ensures
        longer(g, #[trigger] g.end_main(depth)),
        g.end_main(depth).indent == depth,
{
    broadcast use group_steps;

    lemma_longer_same(g, g);
}

broadcast proof fn extends_write_head(g: Gen)
    ensures
        extends(g, #[trigger] g.write_head()),
{
    broadcast use group_steps;

    lemma_longer_same(g, g);
}

broadcast proof fn extends_name_item(g: Gen, module: Module, item: ItemNode)
    ensures
        extends(g, #[trigger] g.name_item(module, item)),
{
    broadcast use {group_steps, extends_name_fn};

    lemma_longer_same(g, g);
}

broadcast proof fn extends_collect_body(g: Gen, module: Module, item: ItemNode)
    ensures
        extends(g, #[trigger] g.collect_body(module, item)),
{
    broadcast use group_steps;

    lemma_longer_same(g, g);
}

broadcast proof fn extends_add_ffi_names(g: Gen, names: Seq<(String, Option<String>)>)
    ensures
        extends(g, #[trigger] g.add_ffi_names(names)),
    decreases names.len(),
{
    broadcast use group_steps;

    lemma_longer_same(g, g);
    if names.len() > 0 {
        extends_add_ffi_names(g, names.drop_last());
    }
}

broadcast proof fn extends_add_imports(g: Gen, imports: Seq<Import>)
    ensures
        extends(g, #[trigger] g.add_imports(imports)),
    decreases imports.len(),
{
    broadcast use {group_steps, extends_add_ffi_names};

    lemma_longer_same(g, g);
    if imports.len() > 0 {
        extends_add_imports(g, imports.drop_last());
    }
}

broadcast proof fn extends_collect_ffi(g: Gen, modules: Seq<&Module>)
    ensures
        extends(g, #[trigger] g.collect_ffi(modules)),
    decreases modules.len(),
{
    broadcast use {group_steps, extends_add_imports};

    lemma_longer_same(g, g);
    if modules.len() > 0 {
        extends_collect_ffi(g, modules.drop_last());
    }
}

broadcast proof fn extends_define_struct_item(g: Gen, module: Module, item: ItemNode)
    ensures
        extends(g, #[trigger] g.define_struct_item(module, item)),
{
    broadcast use {group_steps, extends_field_types};

    lemma_longer_same(g, g);
}

broadcast proof fn extends_interface_rets(g: Gen, name: Text, methods: Seq<MethodSig>)
    ensures
        extends(g, #[trigger] g.interface_rets(name, methods)),
    decreases methods.len(),
{
    broadcast use {group_steps, extends_type_or};

    lemma_longer_same(g, g);
    if methods.len() > 0 {
        extends_interface_rets(g, name, methods.drop_last());
    }
}

broadcast proof fn extends_define_interface_item(g: Gen, module: Module, item: ItemNode)
    ensures
        extends(g, #[trigger] g.define_interface_item(module, item)),
{
    broadcast use {group_steps, extends_interface_rets};

    lemma_longer_same(g, g);
}

broadcast proof fn extends_add_impls(g: Gen, class: Text, ifaces: Seq<Text>)
    ensures
        extends(g, #[trigger] g.add_impls(class, ifaces)),
    decreases ifaces.len(),
{
    broadcast use group_steps;

    lemma_longer_same(g, g);
    if ifaces.len() > 0 {
        extends_add_impls(g, class, ifaces.drop_last());
    }
}

broadcast proof fn extends_collect_impls_of(g: Gen, module: Module, item: ItemNode)
    ensures
        extends(g, #[trigger] g.collect_impls_of(module, item)),
{
    broadcast use {group_steps, extends_add_impls};

    lemma_longer_same(g, g);
}

broadcast proof fn extends_object_rets(g: Gen, name: Text, methods: Seq<ItemKind>)
    ensures
        extends(g, #[trigger] g.object_rets(name, methods)),
    decreases methods.len(),
{
    broadcast use {group_steps, extends_type_or};

    lemma_longer_same(g, g);
    if methods.len() > 0 {
        extends_object_rets(g, name, methods.drop_last());
    }
}

broadcast proof fn extends_define_object_item(g: Gen, module: Module, item: ItemNode)
    ensures
        extends(g, #[trigger] g.define_object_item(module, item)),
{
    broadcast use {group_steps, extends_field_types, extends_object_rets};

    lemma_longer_same(g, g);
}

broadcast proof fn extends_define_class_item(g: Gen, module: Module, item: ItemNode)
    ensures
        extends(g, #[trigger] g.define_class_item(module, item)),
{
    broadcast use {group_steps, extends_field_types};

    lemma_longer_same(g, g);
}

broadcast proof fn extends_define_vtable_item(g: Gen, module: Module, item: ItemNode)
    ensures
        extends(g, #[trigger] g.define_vtable_item(module, item)),
{
    broadcast use group_steps;

    lemma_longer_same(g, g);
}

broadcast proof fn extends_write_class(g: Gen, name: Text)
    ensures
        extends(g, #[trigger] g.write_class(name)),
{
    broadcast use group_steps;

    lemma_longer_same(g, g);
}

broadcast proof fn extends_write_vtable_type_of(g: Gen, name: Text)
    ensures
        extends(g, #[trigger] g.write_vtable_type_of(name)),
{
    broadcast use {group_steps, extends_write_vtable_type};

    lemma_longer_same(g, g);
}

broadcast proof fn extends_write_vtable_of(g: Gen, name: Text)
    ensures
        extends(g, #[trigger] g.write_vtable_of(name)),
{
    broadcast use {group_steps, extends_write_vtable};

    lemma_longer_same(g, g);
}

broadcast proof fn extends_write_interface(g: Gen, name: Text)
    ensures
        extends(g, #[trigger] g.write_interface(name)),
{
    broadcast use group_steps;

    lemma_longer_same(g, g);
}

broadcast proof fn extends_write_impl_vtables(
    g: Gen,
    iface: Text,
    wanted: Seq<Text>,
    classes: Seq<Text>,
)
    ensures
        extends(g, #[trigger] g.write_impl_vtables(iface, wanted, classes)),
    decreases classes.len(),
{
    broadcast use {group_steps, extends_write_interface_vtable};

    lemma_longer_same(g, g);
    if classes.len() > 0 {
        extends_write_impl_vtables(g, iface, wanted, classes.drop_last());
    }
}

broadcast proof fn extends_write_interface_vtables_of(g: Gen, iface: Text)
    ensures
        extends(g, #[trigger] g.write_interface_vtables_of(iface)),
{
    broadcast use {group_steps, extends_write_impl_vtables};

    lemma_longer_same(g, g);
}

broadcast proof fn extends_write_object(g: Gen, name: Text)
    ensures
        extends(g, #[trigger] g.write_object(name)),
{
    broadcast use group_steps;

    lemma_longer_same(g, g);
}

broadcast proof fn extends_write_object_global(g: Gen, name: Text)
    ensures
        extends(g, #[trigger] g.write_object_global(name)),
{
    broadcast use group_steps;

    lemma_longer_same(g, g);
}

broadcast proof fn extends_gap_after(g: Gen, names: Seq<Text>)
    ensures
        extends(g, #[trigger] g.gap_after(names)),
{
    broadcast use group_steps;

    lemma_longer_same(g, g);
}

broadcast proof fn extends_collect_signature(g: Gen, module: Module, item: ItemNode)
    ensures
        extends(g, #[trigger] g.collect_signature(module, item)),
{
    broadcast use {group_steps, extends_type_or, extends_param_types};

    lemma_longer_same(g, g);
}

broadcast proof fn extends_store_params(g: Gen, params: Seq<Param>)
    ensures
        extends(g, #[trigger] g.store_params(params)),
    decreases params.len(),
{
    broadcast use group_steps;

    lemma_longer_same(g, g);
    if params.len() > 0 {
        extends_store_params(g, params.drop_last());
    }
}

broadcast proof fn extends_compile_fn(
    g: Gen,
    name: Text,
    params: Seq<Param>,
    ret_type: Option<TypeNode>,
    body: Seq<StmtNode>,
)
    ensures
        extends(g, #[trigger] g.compile_fn(name, params, ret_type, body)),
{
    broadcast use {
        group_steps,
        extends_type_or,
        extends_param_types,
        extends_begin_fn,
        extends_store_params,
        extends_final_return,
        extends_end_fn,
    };

    lemma_longer_same(g, g);
}

broadcast proof fn extends_compile_fn_item(g: Gen, module: Module, item: ItemNode)
    ensures
        extends(g, #[trigger] g.compile_fn_item(module, item)),
{
    broadcast use {group_steps, extends_compile_fn};

    lemma_longer_same(g, g);
}

broadcast proof fn extends_method_param_types(g: Gen, params: Seq<Param>, with_self: bool)
    ensures
        extends(g, (#[trigger] g.method_param_types(params, with_self)).0),
    decreases params.len(),
{
    broadcast use group_steps;

    lemma_longer_same(g, g);
    if params.len() > 0 {
        extends_method_param_types(g, params.drop_last(), with_self);
    }
}

broadcast proof fn extends_store_method_params(
    g: Gen,
    params: Seq<Param>,
    with_self: bool,
    self_ty: Text,
)
    ensures
        extends(g, #[trigger] g.store_method_params(params, with_self, self_ty)),
    decreases params.len(),
{
    broadcast use {group_steps, extends_store_receiver};

    lemma_longer_same(g, g);
    if params.len() > 0 {
        extends_store_method_params(g, params.drop_last(), with_self, self_ty);
    }
}

broadcast proof fn extends_compile_method(
    g: Gen,
    mangled: Text,
    self_ty: Text,
    ret: Text,
    params: Seq<Param>,
    body: Seq<StmtNode>,
)
    ensures
        extends(g, #[trigger] g.compile_method(mangled, self_ty, ret, params, body)),
{
    broadcast use {
        group_steps,
        extends_method_param_types,
        extends_begin_fn,
        extends_store_method_params,
        extends_final_method_return,
        extends_end_fn,
    };

    lemma_longer_same(g, g);
}

broadcast proof fn extends_compile_class_method(g: Gen, class: Text, method: ItemKind, module: Text)
    ensures
        extends(g, #[trigger] g.compile_class_method(class, method, module)),
{
    broadcast use {group_steps, extends_type_or, extends_compile_method};

    lemma_longer_same(g, g);
}

broadcast proof fn extends_compile_methods(
    g: Gen,
    class: Text,
    methods: Seq<ItemKind>,
    module: Text,
)
    ensures
        extends(g, #[trigger] g.compile_methods(class, methods, module)),
    decreases methods.len(),
{
    broadcast use {group_steps, extends_compile_class_method};

    lemma_longer_same(g, g);
    if methods.len() > 0 {
        extends_compile_methods(g, class, methods.drop_last(), module);
    }
}

broadcast proof fn extends_compile_methods_of_class(g: Gen, module: Module, item: ItemNode)
    ensures
        extends(g, #[trigger] g.compile_methods_of_class(module, item)),
{
    broadcast use {group_steps, extends_compile_methods};

    lemma_longer_same(g, g);
}

broadcast proof fn extends_compile_object_method(
    g: Gen,
    object: Text,
    method: ItemKind,
    module: Text,
)
    ensures
        extends(g, #[trigger] g.compile_object_method(object, method, module)),
{
    broadcast use {group_steps, extends_type_or, extends_compile_method};

    lemma_longer_same(g, g);
}

broadcast proof fn extends_compile_all_object_methods(
    g: Gen,
    object: Text,
    methods: Seq<ItemKind>,
    module: Text,
)
    ensures
        extends(g, #[trigger] g.compile_all_object_methods(object, methods, module)),
    decreases methods.len(),
{
    broadcast use {group_steps, extends_compile_object_method};

    lemma_longer_same(g, g);
    if methods.len() > 0 {
        extends_compile_all_object_methods(g, object, methods.drop_last(), module);
    }
}

broadcast proof fn extends_compile_methods_of_object(g: Gen, module: Module, item: ItemNode)
    ensures
        extends(g, #[trigger] g.compile_methods_of_object(module, item)),
{
    broadcast use {group_steps, extends_compile_all_object_methods};

    lemma_longer_same(g, g);
}

broadcast proof fn extends_compile_class_init(
    g: Gen,
    class: Text,
    init_body: Seq<StmtNode>,
    module: Text,
)
    ensures
        extends(g, #[trigger] g.compile_class_init(class, init_body, module)),
{
    broadcast use {group_steps, extends_begin_fn, extends_store_receiver, extends_end_fn};

    lemma_longer_same(g, g);
}

broadcast proof fn extends_clear_fields(g: Gen, object: Text, fields: Seq<(Text, Text)>)
    ensures
        extends(g, #[trigger] g.clear_fields(object, fields)),
    decreases fields.len(),
{
    broadcast use {group_steps, extends_clear_field};

    lemma_longer_same(g, g);
    if fields.len() > 0 {
        extends_clear_fields(g, object, fields.drop_last());
    }
}

broadcast proof fn extends_compile_object_init(g: Gen, object: Text, module: Text)
    ensures
        extends(g, #[trigger] g.compile_object_init(object, module)),
{
    broadcast use {group_steps, extends_begin_fn, extends_clear_fields, extends_end_fn};

    lemma_longer_same(g, g);
}

broadcast proof fn extends_compile_init_item(g: Gen, module: Module, item: ItemNode)
    ensures
        extends(g, #[trigger] g.compile_init_item(module, item)),
{
    broadcast use {group_steps, extends_compile_class_init, extends_compile_object_init};

    lemma_longer_same(g, g);
}

broadcast proof fn extends_name_fns(g: Gen, items: Seq<(&Module, &ItemNode)>)
    ensures
        extends(g, #[trigger] g.name_fns(items)),
    decreases items.len(),
{
    broadcast use {group_steps, extends_name_item};

    lemma_longer_same(g, g);
    if items.len() > 0 {
        extends_name_fns(g, items.drop_last());
    }
}

broadcast proof fn extends_collect_bodies(g: Gen, items: Seq<(&Module, &ItemNode)>)
    ensures
        extends(g, #[trigger] g.collect_bodies(items)),
    decreases items.len(),
{
    broadcast use {group_steps, extends_collect_body};

    lemma_longer_same(g, g);
    if items.len() > 0 {
        extends_collect_bodies(g, items.drop_last());
    }
}

broadcast proof fn extends_define_structs(g: Gen, items: Seq<(&Module, &ItemNode)>)
    ensures
        extends(g, #[trigger] g.define_structs(items)),
    decreases items.len(),
{
    broadcast use {group_steps, extends_define_struct_item};

    lemma_longer_same(g, g);
    if items.len() > 0 {
        extends_define_structs(g, items.drop_last());
    }
}

broadcast proof fn extends_define_interfaces(g: Gen, items: Seq<(&Module, &ItemNode)>)
    ensures
        extends(g, #[trigger] g.define_interfaces(items)),
    decreases items.len(),
{
    broadcast use {group_steps, extends_define_interface_item};

    lemma_longer_same(g, g);
    if items.len() > 0 {
        extends_define_interfaces(g, items.drop_last());
    }
}

broadcast proof fn extends_collect_impls(g: Gen, items: Seq<(&Module, &ItemNode)>)
    ensures
        extends(g, #[trigger] g.collect_impls(items)),
    decreases items.len(),
{
    broadcast use {group_steps, extends_collect_impls_of};

    lemma_longer_same(g, g);
    if items.len() > 0 {
        extends_collect_impls(g, items.drop_last());
    }
}

broadcast proof fn extends_define_objects(g: Gen, items: Seq<(&Module, &ItemNode)>)
    ensures
        extends(g, #[trigger] g.define_objects(items)),
    decreases items.len(),
{
    broadcast use {group_steps, extends_define_object_item};

    lemma_longer_same(g, g);
    if items.len() > 0 {
        extends_define_objects(g, items.drop_last());
    }
}

broadcast proof fn extends_define_classes(g: Gen, items: Seq<(&Module, &ItemNode)>)
    ensures
        extends(g, #[trigger] g.define_classes(items)),
    decreases items.len(),
{
    broadcast use {group_steps, extends_define_class_item};

    lemma_longer_same(g, g);
    if items.len() > 0 {
        extends_define_classes(g, items.drop_last());
    }
}

broadcast proof fn extends_define_vtables(g: Gen, items: Seq<(&Module, &ItemNode)>)
    ensures
        extends(g, #[trigger] g.define_vtables(items)),
    decreases items.len(),
{
    broadcast use {group_steps, extends_define_vtable_item};

    lemma_longer_same(g, g);
    if items.len() > 0 {
        extends_define_vtables(g, items.drop_last());
    }
}

broadcast proof fn extends_collect_signatures(g: Gen, items: Seq<(&Module, &ItemNode)>)
    ensures
        extends(g, #[trigger] g.collect_signatures(items)),
    decreases items.len(),
{
    broadcast use {group_steps, extends_collect_signature};

    lemma_longer_same(g, g);
    if items.len() > 0 {
        extends_collect_signatures(g, items.drop_last());
    }
}

broadcast proof fn extends_compile_fns(g: Gen, items: Seq<(&Module, &ItemNode)>)
    ensures
        extends(g, #[trigger] g.compile_fns(items)),
    decreases items.len(),
{
    broadcast use {group_steps, extends_compile_fn_item};

    lemma_longer_same(g, g);
    if items.len() > 0 {
        extends_compile_fns(g, items.drop_last());
    }
}

broadcast proof fn extends_compile_class_methods(g: Gen, items: Seq<(&Module, &ItemNode)>)
    ensures
        extends(g, #[trigger] g.compile_class_methods(items)),
    decreases items.len(),
{
    broadcast use {group_steps, extends_compile_methods_of_class};

    lemma_longer_same(g, g);
    if items.len() > 0 {
        extends_compile_class_methods(g, items.drop_last());
    }
}

broadcast proof fn extends_compile_inits(g: Gen, items: Seq<(&Module, &ItemNode)>)
    ensures
        extends(g, #[trigger] g.compile_inits(items)),
    decreases items.len(),
{
    broadcast use {group_steps, extends_compile_init_item};

    lemma_longer_same(g, g);
    if items.len() > 0 {
        extends_compile_inits(g, items.drop_last());
    }
}

broadcast proof fn extends_compile_object_methods(g: Gen, items: Seq<(&Module, &ItemNode)>)
    ensures
        extends(g, #[trigger] g.compile_object_methods(items)),
    decreases items.len(),
{
    broadcast use {group_steps, extends_compile_methods_of_object};

    lemma_longer_same(g, g);
    if items.len() > 0 {
        extends_compile_object_methods(g, items.drop_last());
    }
}

broadcast proof fn extends_write_class_types(g: Gen, names: Seq<Text>)
    ensures
        extends(g, #[trigger] g.write_class_types(names)),
    decreases names.len(),
{
    broadcast use {group_steps, extends_write_class};

    lemma_longer_same(g, g);
    if names.len() > 0 {
        extends_write_class_types(g, names.drop_last());
    }
}

broadcast proof fn extends_write_vtable_types(g: Gen, names: Seq<Text>)
    ensures
        extends(g, #[trigger] g.write_vtable_types(names)),
    decreases names.len(),
{
    broadcast use {group_steps, extends_write_vtable_type_of};

    lemma_longer_same(g, g);
    if names.len() > 0 {
        extends_write_vtable_types(g, names.drop_last());
    }
}

broadcast proof fn extends_write_vtables(g: Gen, names: Seq<Text>)
    ensures
        extends(g, #[trigger] g.write_vtables(names)),
    decreases names.len(),
{
    broadcast use {group_steps, extends_write_vtable_of};

    lemma_longer_same(g, g);
    if names.len() > 0 {
        extends_write_vtables(g, names.drop_last());
    }
}

broadcast proof fn extends_write_interface_types(g: Gen, names: Seq<Text>)
    ensures
        extends(g, #[trigger] g.write_interface_types(names)),
    decreases names.len(),
{
    broadcast use {group_steps, extends_write_interface};

    lemma_longer_same(g, g);
    if names.len() > 0 {
        extends_write_interface_types(g, names.drop_last());
    }
}

broadcast proof fn extends_write_interface_vtables(g: Gen, names: Seq<Text>)
    ensures
        extends(g, #[trigger] g.write_interface_vtables(names)),
    decreases names.len(),
{
    broadcast use {group_steps, extends_write_interface_vtables_of};

    lemma_longer_same(g, g);
    if names.len() > 0 {
        extends_write_interface_vtables(g, names.drop_last());
    }
}

broadcast proof fn extends_write_object_types(g: Gen, names: Seq<Text>)
    ensures
        extends(g, #[trigger] g.write_object_types(names)),
    decreases names.len(),
{
    broadcast use {group_steps, extends_write_object};

    lemma_longer_same(g, g);
    if names.len() > 0 {
        extends_write_object_types(g, names.drop_last());
    }
}

broadcast proof fn extends_write_objects(g: Gen, names: Seq<Text>)
    ensures
        extends(g, #[trigger] g.write_objects(names)),
    decreases names.len(),
{
    broadcast use {group_steps, extends_write_object_global};

    lemma_longer_same(g, g);
    if names.len() > 0 {
        extends_write_objects(g, names.drop_last());
    }
}

broadcast proof fn extends_call_object_inits(g: Gen, names: Seq<Text>)
    ensures
        extends(g, #[trigger] g.call_object_inits(names)),
    decreases names.len(),
{
    broadcast use {group_steps, extends_call_object_init};

    lemma_longer_same(g, g);
    if names.len() > 0 {
        extends_call_object_inits(g, names.drop_last());
    }
}

broadcast proof fn extends_compile_module_items(g: Gen, module: &Module)
    ensures
        extends(g, #[trigger] g.compile_module_items(module)),
{
    broadcast use {
        group_steps,
        extends_compile_fns,
        extends_compile_class_methods,
        extends_compile_inits,
        extends_compile_object_methods,
    };

    lemma_longer_same(g, g);
}

broadcast proof fn extends_compile_all_modules(g: Gen, modules: Seq<&Module>)
    ensures
        extends(g, #[trigger] g.compile_all_modules(modules)),
    decreases modules.len(),
{
    broadcast use {group_steps, extends_compile_module_items};

    lemma_longer_same(g, g);
    if modules.len() > 0 {
        extends_compile_all_modules(g, modules.drop_last());
    }
}

broadcast proof fn extends_bind_main_params(g: Gen, params: Seq<Param>)
    ensures
        extends(g, #[trigger] g.bind_main_params(params)),
    decreases params.len(),
{
    broadcast use group_steps;

    lemma_longer_same(g, g);
    if params.len() > 0 {
        extends_bind_main_params(g, params.drop_last());
    }
}

broadcast proof fn extends_compile_main(g: Gen, params: Seq<Param>, body: Seq<StmtNode>)
    ensures
        extends(g, #[trigger] g.compile_main(params, body)),
{
    broadcast use {
        group_steps,
        extends_begin_main,
        extends_bind_main_params,
        extends_call_object_inits,
        extends_end_main,
    };

    lemma_longer_same(g, g);
}

broadcast proof fn extends_compile_deferred(g: Gen, f: DeferredFn)
    ensures
        extends(g, #[trigger] g.compile_deferred(f)),
{
    broadcast use {
        group_steps,
        extends_type_or,
        extends_param_types,
        extends_begin_fn,
        extends_store_params,
        extends_final_value,
        extends_end_fn,
    };

    lemma_longer_same(g, g);
}

broadcast proof fn extends_compile_all_deferred(g: Gen, fns: Seq<DeferredFn>)
    ensures
        extends(g, #[trigger] g.compile_all_deferred(fns)),
    decreases fns.len(),
{
    broadcast use {group_steps, extends_compile_deferred};

    lemma_longer_same(g, g);
    if fns.len() > 0 {
        extends_compile_all_deferred(g, fns.drop_last());
    }
}

broadcast proof fn extends_compile_spawned(g: Gen, s: SpawnedExpr)
    ensures
        extends(g, #[trigger] g.compile_spawned(s)),
{
    broadcast use {group_steps, extends_begin_fn, extends_end_fn};

    lemma_longer_same(g, g);
}

broadcast proof fn extends_compile_all_spawned(g: Gen, list: Seq<SpawnedExpr>)
    ensures
        extends(g, #[trigger] g.compile_all_spawned(list)),
    decreases list.len(),
{
    broadcast use {group_steps, extends_compile_spawned};

    lemma_longer_same(g, g);
    if list.len() > 0 {
        extends_compile_all_spawned(g, list.drop_last());
    }
}

broadcast proof fn extends_write_functions(g: Gen, modules: Seq<&Module>)
    ensures
        extends(g, #[trigger] g.write_functions(modules)),
{
    broadcast use {
        group_steps,
        extends_collect_signatures,
        extends_compile_all_modules,
        extends_compile_main,
        extends_compile_all_deferred,
        extends_compile_all_spawned,
    };

    lemma_longer_same(g, g);
}

// ---------------------------------------------------------------------------------------------
// The head
// ---------------------------------------------------------------------------------------------
/// The first lines of a module, up to its first type.
#[verifier::opaque]
pub open spec fn first_lines() -> Text {
    "; LLVM IR generated by yidi"@ + "\n"@ + ("target datalayout = \"e-m:w-p270:32:32-p271:32:32-p272:64:64-i64:64-f80:128-n8:16:32:64-S128\""@
        + "\n"@) + ("target triple = \"x86_64-pc-windows-msvc\""@ + "\n"@) + (""@ + "\n"@)
}

/// What every module begins with.
pub open spec fn module_head() -> Text {
    first_lines() + "%yk_string = type { ptr, i64 }"@
}

proof fn lemma_first_lines_hold_no_type(i: int)
    requires
        0 <= i < first_lines().len(),
    ensures
        first_lines()[i] != '%',
{
    reveal(first_lines);
    reveal_strlit("; LLVM IR generated by yidi");
    reveal_strlit(
        "target datalayout = \"e-m:w-p270:32:32-p271:32:32-p272:64:64-i64:64-f80:128-n8:16:32:64-S128\"",
    );
    reveal_strlit("target triple = \"x86_64-pc-windows-msvc\"");
    reveal_strlit("\n");
    reveal_strlit("");
    let a = "; LLVM IR generated by yidi"@;
    let b = "target datalayout = \"e-m:w-p270:32:32-p271:32:32-p272:64:64-i64:64-f80:128-n8:16:32:64-S128\""@;
    let c = "target triple = \"x86_64-pc-windows-msvc\""@;
    assert(forall|j: int| 0 <= j < a.len() ==> a[j] != '%');
    assert(forall|j: int| 0 <= j < b.len() ==> b[j] != '%');
    assert(forall|j: int| 0 <= j < c.len() ==> c[j] != '%');
}

proof fn lemma_head_is_written(g: Gen)
    requires
        g.output == ""@,
    ensures
        begins(g.write_head().output, module_head()),
{
    broadcast use group_steps;

    reveal_strlit("");
    let mark = "%yk_string = type { ptr, i64 }"@;
    let g1 = g.e_raw("; LLVM IR generated by yidi"@);
    let g2 = g1.e_raw(
        "target datalayout = \"e-m:w-p270:32:32-p271:32:32-p272:64:64-i64:64-f80:128-n8:16:32:64-S128\""@,
    );
    let g3 = g2.e_raw("target triple = \"x86_64-pc-windows-msvc\""@);
    let g4 = g3.e_raw(""@);
    let g5 = g4.e_raw(mark);
    assert(g5.output == module_head() + "\n"@) by {
        reveal(Gen::e_raw);
        reveal(first_lines);
    }
    assert(longer(g5, g.write_head()));
    assert(begins(g.write_head().output, module_head())) by {
        reveal(longer);
        lemma_begins_appended(module_head(), "\n"@);
        lemma_begins_longer(module_head(), g5.output, g.write_head().output);
    }
}

proof fn lemma_head_stays(g: Gen, modules: Seq<&Module>)
    ensures
        longer(g.write_head(), g.write_definitions(modules)),
{
    broadcast use {
        group_steps,
        extends_write_head,
        extends_name_fns,
        extends_collect_bodies,
        extends_collect_ffi,
        extends_define_structs,
        extends_define_interfaces,
        extends_collect_impls,
        extends_define_objects,
        extends_define_classes,
        extends_define_vtables,
        extends_write_class_types,
        extends_write_vtable_types,
        extends_write_vtables,
        extends_write_interface_types,
        extends_gap_after,
        extends_write_interface_vtables,
        extends_write_object_types,
        extends_write_objects,
    };
}

proof fn lemma_types_stand_behind_the_head(output: Text, types: Seq<Text>)
    requires
        begins(output, module_head()),
    ensures
        begins(with_types(output, types), module_head()),
{
    let lines = first_lines();
    let mark = "%yk_string = type { ptr, i64 }"@;
    let k = lines.len();
    let end = (k + mark.len()) as int;
    let head = output.take(end);
    assert(head == lines + mark);
    assert(output.subrange(k as int, end) == mark) by {
        assert((lines + mark).subrange(k as int, end) == mark);
        assert(output.subrange(k as int, end) == head.subrange(k as int, end));
    }
    assert forall|j: int| 0 <= j < k implies !occurs_at(output, mark, j) by {
        lemma_first_lines_hold_no_type(j);
        assert(output[j] == head[j]);
        if occurs_at(output, mark, j) {
            reveal_strlit("%yk_string = type { ptr, i64 }");
            assert(output.subrange(j, j + mark.len())[0] == mark[0]);
        }
    }
    lemma_first_place(output, mark, 0, k);
    if types.len() > 0 {
        let more = "\n"@ + lines_text(types) + "\n"@;
        let rest = output.skip(end);
        lemma_begins_appended(head, more + rest);
        assert(with_types(output, types) == head + (more + rest));
    }
}

/// The text of every module begins with its head, the types that it needs behind it.
pub proof fn lemma_module_begins_with_its_head(modules: Seq<&Module>)
    ensures
        begins(llvm_text(modules), module_head()),
{
    let g0 = fresh_gen();
    let g1 = g0.write_definitions(modules);
    let g2 = g1.write_functions(modules);
    let output = g2.take_output().1;
    lemma_head_is_written(g0);
    lemma_head_stays(g0, modules);
    extends_write_functions(g1, modules);
    lemma_longer_on(g0.write_head(), g1, g2);
    assert(begins(output, module_head())) by {
        reveal(longer);
        reveal(Gen::take_output);
        lemma_begins_longer(module_head(), g0.write_head().output, g2.output);
        lemma_begins_appended(g2.output, g2.string_constants);
        lemma_begins_longer(module_head(), g2.output, output);
    }
    lemma_types_stand_behind_the_head(output, g2.take_output().0.take_type_lines().1);
}

/// What a function declares is not seen behind it.
pub proof fn lemma_variables_stay_inside(
    g: Gen,
    name: Text,
    params: Seq<Param>,
    ret_type: Option<TypeNode>,
    body: Seq<StmtNode>,
)
    ensures
        g.compile_fn(name, params, ret_type, body).var_types == g.var_types,
        g.compile_fn(name, params, ret_type, body).var_alloca == g.var_alloca,
        g.compile_main(params, body).var_types == g.var_types,
        g.compile_main(params, body).var_alloca == g.var_alloca,
{
    reveal(Gen::restore);
}

/// The function that a method table names for a method of a class is the one that is defined for the method: what is
/// written for the method holds the first line of that function.
pub proof fn lemma_method_is_defined(g: Gen, class: Text, method: ItemKind, module: Text)
    requires
        method is Fn,
    ensures
        ({
            let h = g.compile_class_method(class, method, module);
            let ret = g.type_or(method->Fn_ret_type, "void"@).1;
            exists|a: Text| #[trigger]
                begins(
                    h.output,
                    a + ("define "@ + ret + " @"@ + method_symbol(module, class, method->Fn_name@) + "("@),
                ) && begins(a, g.output)
        }),
{
    broadcast use {
        group_steps,
        extends_type_or,
        extends_method_param_types,
        extends_store_method_params,
        extends_final_method_return,
        extends_begin_fn,
        extends_end_fn,
    };

    let name = method->Fn_name@;
    let params = method->Fn_params@;
    let mangled = method_symbol(module, class, name);
    let (g1, ret) = g.type_or(method->Fn_ret_type, "void"@);
    let g2 = g1.set_class_method_ret(class, name, ret);
    let with_self = has_self(params);
    let (g3, types) = g2.method_param_types(params, with_self);
    let list = joined(types, ", "@);
    let g4 = g3.begin_fn(ret, mangled, list);
    let g5 = g4.store_method_params(params, with_self, "%class."@ + class);
    let g6 = g5.compile_stmts(method->Fn_body@);
    let g7 = g6.final_method_return(ret);
    let g8 = g7.restore(g2.var_types, g2.var_alloca);
    let h = g8.end_fn(g3.depth());
    assert(h == g.compile_class_method(class, method, module));
    assert(longer(g, g3));
    assert(longer(g4, h));
    reveal(longer);
    reveal(Gen::e_raw);
    reveal(Gen::set_indent);
    let head = "define "@ + ret + " @"@ + mangled + "("@;
    let line = "define "@ + ret + " @"@ + mangled + "("@ + list + ") {"@;
    assert(g4.output == g3.output + (line + "\n"@));
    assert(g3.output + (line + "\n"@) == (g3.output + head) + (list + ") {"@ + "\n"@));
    lemma_begins_appended(g3.output + head, list + ") {"@ + "\n"@);
    lemma_begins_longer(g3.output + head, g4.output, h.output);
}

} // verus!
