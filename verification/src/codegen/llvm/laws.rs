//! What compiling keeps: text that is written stays, the depth is restored, and definitions do not
//! change while functions are compiled.

use vstd::prelude::*;

use crate::codegen::llvm::expr::{is_server_call, literal_place};
use crate::codegen::llvm::pattern::{field_place, names_any_field};
use crate::codegen::llvm::state::Gen;
use crate::scan::{begins, lemma_begins_appended, lemma_begins_longer, lemma_begins_same};
use crate::syntax::ast::{
    BinOp, Expr, ExprNode, MatchArm, Param, Pattern, Stmt, StmtNode, TypeExpr, TypeNode, UnOp,
};
use crate::table::slot;
use crate::text::{dec, repeated, Text};

verus! {

/// What is in `a` stays at the front of `b`.
pub open spec fn stays<A>(a: Seq<A>, b: Seq<A>) -> bool {
    a.len() <= b.len() && b.take(a.len() as int) == a
}

/// The tags of variants and the types that were defined on the way stay as they are.
pub open spec fn lists_stay(g: Gen, h: Gen) -> bool {
    &&& stays(g.variant_tags, h.variant_tags)
    &&& stays(g.nullable_types, h.nullable_types)
    &&& stays(g.tuple_types_output, h.tuple_types_output)
}

/// `h` carries `g` on: what is written stays, and what is defined stays as it is.
#[verifier::opaque]
pub open spec fn grows(g: Gen, h: Gen) -> bool {
    &&& begins(h.output, g.output)
    &&& begins(h.string_constants, g.string_constants)
    &&& lists_stay(g, h)
    &&& h.struct_defs == g.struct_defs
    &&& h.class_defs == g.class_defs
    &&& h.class_vtables == g.class_vtables
    &&& h.interface_methods == g.interface_methods
    &&& h.object_defs == g.object_defs
    &&& h.class_modules == g.class_modules
    &&& h.object_modules == g.object_modules
    &&& h.fn_name_map == g.fn_name_map
    &&& h.fn_ret_types == g.fn_ret_types
    &&& h.fn_param_types == g.fn_param_types
    &&& h.fn_params == g.fn_params
    &&& h.fn_bodies == g.fn_bodies
    &&& h.ffi_modules == g.ffi_modules
    &&& h.current_module == g.current_module
    &&& h.current_fn_ret == g.current_fn_ret
    &&& h.class_impls == g.class_impls
    &&& h.class_method_ret_types == g.class_method_ret_types
    &&& h.interface_method_ret_types == g.interface_method_ret_types
    &&& h.object_method_ret_types == g.object_method_ret_types
    &&& h.object_method_has_self == g.object_method_has_self
}

/// `h` carries `g` on, at the same depth.
pub open spec fn continues(g: Gen, h: Gen) -> bool {
    grows(g, h) && h.indent == g.indent
}

proof fn lemma_stays_longer<A>(a: Seq<A>, b: Seq<A>, c: Seq<A>)
    requires
        stays(a, b),
        stays(b, c),
    ensures
        stays(a, c),
{
    assert(c.take(a.len() as int) == b.take(a.len() as int));
}

proof fn lemma_stays_same<A>(a: Seq<A>)
    ensures
        stays(a, a),
{
    assert(a.take(a.len() as int) == a);
}

proof fn lemma_stays_pushed<A>(a: Seq<A>, x: A)
    ensures
        stays(a, a.push(x)),
{
    assert(a.push(x).take(a.len() as int) == a);
}

proof fn lemma_lists_stay(g: Gen)
    ensures
        lists_stay(g, g),
{
    lemma_stays_same(g.variant_tags);
    lemma_stays_same(g.nullable_types);
    lemma_stays_same(g.tuple_types_output);
}

/// Growth upon growth is growth.
pub broadcast proof fn lemma_grows_on(a: Gen, b: Gen, c: Gen)
    requires
        #[trigger] grows(a, b),
        #[trigger] grows(b, c),
    ensures
        grows(a, c),
{
    reveal(grows);
    lemma_begins_longer(a.output, b.output, c.output);
    lemma_begins_longer(a.string_constants, b.string_constants, c.string_constants);
    lemma_stays_longer(a.variant_tags, b.variant_tags, c.variant_tags);
    lemma_stays_longer(a.nullable_types, b.nullable_types, c.nullable_types);
    lemma_stays_longer(a.tuple_types_output, b.tuple_types_output, c.tuple_types_output);
}

/// Where nothing is done, nothing but growth happened.
pub proof fn lemma_grows_from_itself(g: Gen)
    ensures
        grows(g, g),
{
    reveal(grows);
    lemma_lists_stay(g);
    lemma_begins_same(g.output);
    lemma_begins_same(g.string_constants);
}

// ---------------------------------------------------------------------------------------------
// The primitive steps
// ---------------------------------------------------------------------------------------------
/// The step carries the generator on, as [`continues`] says.
pub broadcast proof fn keeps_e(g: Gen, s: Text)
    ensures
        continues(g, #[trigger] g.e(s)),
{
    reveal(grows);
    lemma_lists_stay(g);
    reveal(Gen::e);
    lemma_begins_appended(g.output, repeated("  "@, g.indent) + s + "\n"@);
    lemma_begins_same(g.string_constants);
}

/// The step carries the generator on, as [`continues`] says.
pub broadcast proof fn keeps_e_raw(g: Gen, s: Text)
    ensures
        continues(g, #[trigger] g.e_raw(s)),
{
    reveal(grows);
    lemma_lists_stay(g);
    reveal(Gen::e_raw);
    lemma_begins_appended(g.output, s + "\n"@);
    lemma_begins_same(g.string_constants);
}

/// The step carries the generator on, as [`continues`] says.
pub broadcast proof fn keeps_fresh_label(g: Gen)
    ensures
        continues(g, (#[trigger] g.fresh_label()).0),
{
    reveal(grows);
    lemma_lists_stay(g);
    reveal(Gen::fresh_label);
    lemma_begins_same(g.output);
    lemma_begins_same(g.string_constants);
}

broadcast proof fn keeps_next_number(g: Gen)
    ensures
        continues(g, (#[trigger] g.next_number()).0),
{
    reveal(grows);
    lemma_lists_stay(g);
    reveal(Gen::next_number);
    lemma_begins_same(g.output);
    lemma_begins_same(g.string_constants);
}

broadcast proof fn keeps_next_closure(g: Gen)
    ensures
        continues(g, (#[trigger] g.next_closure()).0),
{
    reveal(grows);
    lemma_lists_stay(g);
    reveal(Gen::next_closure);
    lemma_begins_same(g.output);
    lemma_begins_same(g.string_constants);
}

broadcast proof fn keeps_next_spawn(g: Gen)
    ensures
        continues(g, (#[trigger] g.next_spawn()).0),
{
    reveal(grows);
    lemma_lists_stay(g);
    reveal(Gen::next_spawn);
    lemma_begins_same(g.output);
    lemma_begins_same(g.string_constants);
}

broadcast proof fn keeps_next_tuple(g: Gen)
    ensures
        continues(g, (#[trigger] g.next_tuple()).0),
{
    reveal(grows);
    lemma_lists_stay(g);
    reveal(Gen::next_tuple);
    lemma_begins_same(g.output);
    lemma_begins_same(g.string_constants);
}

broadcast proof fn keeps_add_string(g: Gen, s: Text)
    ensures
        continues(g, #[trigger] g.add_string(s)),
{
    reveal(grows);
    lemma_lists_stay(g);
    reveal(Gen::add_string);
    lemma_begins_same(g.output);
    lemma_begins_appended(g.string_constants, s + "\n"@);
}

/// The step carries the generator on, as [`continues`] says.
pub broadcast proof fn keeps_set_var_type(g: Gen, k: Text, v: Text)
    ensures
        continues(g, #[trigger] g.set_var_type(k, v)),
{
    reveal(grows);
    lemma_lists_stay(g);
    reveal(Gen::set_var_type);
    lemma_begins_same(g.output);
    lemma_begins_same(g.string_constants);
}

/// The step carries the generator on, as [`continues`] says.
pub broadcast proof fn keeps_set_var_alloca(g: Gen, k: Text, v: Text)
    ensures
        continues(g, #[trigger] g.set_var_alloca(k, v)),
{
    reveal(grows);
    lemma_lists_stay(g);
    reveal(Gen::set_var_alloca);
    lemma_begins_same(g.output);
    lemma_begins_same(g.string_constants);
}

broadcast proof fn keeps_set_tuple_name(g: Gen, k: Text, v: Text)
    ensures
        continues(g, #[trigger] g.set_tuple_name(k, v)),
{
    reveal(grows);
    lemma_lists_stay(g);
    reveal(Gen::set_tuple_name);
    lemma_begins_same(g.output);
    lemma_begins_same(g.string_constants);
}

broadcast proof fn keeps_add_type_line(g: Gen, v: Text)
    ensures
        continues(g, #[trigger] g.add_type_line(v)),
{
    reveal(grows);
    lemma_lists_stay(g);
    lemma_stays_pushed(g.tuple_types_output, v);
    reveal(Gen::add_type_line);
    lemma_begins_same(g.output);
    lemma_begins_same(g.string_constants);
}

broadcast proof fn keeps_add_nullable(g: Gen, v: Text)
    ensures
        continues(g, #[trigger] g.add_nullable(v)),
{
    reveal(grows);
    lemma_lists_stay(g);
    lemma_stays_pushed(g.nullable_types, v);
    reveal(Gen::add_nullable);
    lemma_begins_same(g.output);
    lemma_begins_same(g.string_constants);
}

broadcast proof fn keeps_add_ffi_decl(g: Gen, v: Text)
    ensures
        continues(g, #[trigger] g.add_ffi_decl(v)),
{
    reveal(grows);
    lemma_lists_stay(g);
    reveal(Gen::add_ffi_decl);
    lemma_begins_same(g.output);
    lemma_begins_same(g.string_constants);
}

broadcast proof fn keeps_add_handler(g: Gen, v: Text)
    ensures
        continues(g, #[trigger] g.add_handler(v)),
{
    reveal(grows);
    lemma_lists_stay(g);
    reveal(Gen::add_handler);
    lemma_begins_same(g.output);
    lemma_begins_same(g.string_constants);
}

broadcast proof fn keeps_add_http_var(g: Gen, v: Text)
    ensures
        continues(g, #[trigger] g.add_http_var(v)),
{
    reveal(grows);
    lemma_lists_stay(g);
    reveal(Gen::add_http_var);
    lemma_begins_same(g.output);
    lemma_begins_same(g.string_constants);
}

/// The step carries the generator on, as [`continues`] says.
pub broadcast proof fn keeps_get_variant_tag(g: Gen, name: Text)
    ensures
        continues(g, (#[trigger] g.get_variant_tag(name)).0),
{
    reveal(grows);
    lemma_lists_stay(g);
    lemma_stays_pushed(g.variant_tags, (name, g.variant_tag_counter));
    reveal(Gen::get_variant_tag);
    lemma_begins_same(g.output);
    lemma_begins_same(g.string_constants);
}

broadcast proof fn keeps_set_union(g: Gen, name: Text, variants: Seq<TypeExpr>)
    ensures
        continues(g, #[trigger] g.set_union(name, variants)),
{
    reveal(grows);
    lemma_lists_stay(g);
    reveal(Gen::set_union);
    lemma_begins_same(g.output);
    lemma_begins_same(g.string_constants);
}

broadcast proof fn keeps_defer(g: Gen, name: Text, params: Seq<Param>, ret: Option<TypeNode>, body: ExprNode)
    ensures
        continues(g, #[trigger] g.defer(name, params, ret, body)),
{
    reveal(grows);
    lemma_lists_stay(g);
    reveal(Gen::defer);
    lemma_begins_same(g.output);
    lemma_begins_same(g.string_constants);
}

broadcast proof fn keeps_defer_spawn(g: Gen, name: Text, body: ExprNode)
    ensures
        continues(g, #[trigger] g.defer_spawn(name, body)),
{
    reveal(grows);
    lemma_lists_stay(g);
    reveal(Gen::defer_spawn);
    lemma_begins_same(g.output);
    lemma_begins_same(g.string_constants);
}

// ---------------------------------------------------------------------------------------------
// What is written for values, operators, calls and statements
// ---------------------------------------------------------------------------------------------
broadcast proof fn keeps_value_name(g: Gen, var: Text)
    ensures
        continues(g, (#[trigger] g.value_name(var)).0),
{
    broadcast use {lemma_grows_on, keeps_next_number};

    lemma_grows_from_itself(g);
}

broadcast proof fn keeps_make_string_slot(g: Gen, s: Text)
    ensures
        continues(g, (#[trigger] g.make_string_slot(s)).0),
{
    broadcast use {lemma_grows_on, keeps_add_string, keeps_e, keeps_fresh_label};

    lemma_grows_from_itself(g);
}

broadcast proof fn keeps_string_to_ptr(g: Gen, val: Text)
    ensures
        continues(g, (#[trigger] g.string_to_ptr(val)).0),
{
    broadcast use {lemma_grows_on, keeps_e, keeps_fresh_label};

    lemma_grows_from_itself(g);
}

broadcast proof fn keeps_complex_to_slot(g: Gen, val: Text)
    ensures
        continues(g, (#[trigger] g.complex_to_slot(val)).0),
{
    broadcast use {lemma_grows_on, keeps_e, keeps_fresh_label};

    lemma_grows_from_itself(g);
}

broadcast proof fn keeps_to_i64(g: Gen, val: Text, typ: Text)
    ensures
        continues(g, (#[trigger] g.to_i64(val, typ)).0),
{
    broadcast use {
        lemma_grows_on,
        keeps_complex_to_slot,
        keeps_e,
        keeps_fresh_label,
        keeps_string_to_ptr,
    };

    lemma_grows_from_itself(g);
}

broadcast proof fn keeps_wrap_in_nullable(
    g: Gen,
    nullable_ty: Text,
    val: Text,
    val_ty: Text,
    is_null: bool,
)
    ensures
        continues(g, (#[trigger] g.wrap_in_nullable(nullable_ty, val, val_ty, is_null)).0),
{
    broadcast use {lemma_grows_on, keeps_e, keeps_fresh_label};

    lemma_grows_from_itself(g);
}

broadcast proof fn keeps_variant_payload(g: Gen, val: Text, val_ty: Text)
    ensures
        continues(g, (#[trigger] g.variant_payload(val, val_ty)).0),
{
    broadcast use {lemma_grows_on, keeps_e, keeps_fresh_label};

    lemma_grows_from_itself(g);
}

broadcast proof fn keeps_make_variant(g: Gen, tag: i64, payload: Text)
    ensures
        continues(g, (#[trigger] g.make_variant(tag, payload)).0),
{
    broadcast use {lemma_grows_on, keeps_e, keeps_fresh_label};

    lemma_grows_from_itself(g);
}

broadcast proof fn keeps_wrap_in_variant(g: Gen, variant: Text, val: Text, val_ty: Text)
    ensures
        continues(g, (#[trigger] g.wrap_in_variant(variant, val, val_ty)).0),
{
    broadcast use {lemma_grows_on, keeps_make_variant, keeps_variant_payload};

    lemma_grows_from_itself(g);
}

broadcast proof fn keeps_load_string(g: Gen, ptr: Text)
    ensures
        continues(g, (#[trigger] g.load_string(ptr)).0),
{
    broadcast use {lemma_grows_on, keeps_e, keeps_fresh_label};

    lemma_grows_from_itself(g);
}

broadcast proof fn keeps_call_string(g: Gen, call: Text)
    ensures
        continues(g, (#[trigger] g.call_string(call)).0),
{
    broadcast use {lemma_grows_on, keeps_e, keeps_fresh_label, keeps_load_string};

    lemma_grows_from_itself(g);
}

broadcast proof fn keeps_call_int(g: Gen, call: Text)
    ensures
        continues(g, (#[trigger] g.call_int(call)).0),
{
    broadcast use {lemma_grows_on, keeps_e, keeps_fresh_label};

    lemma_grows_from_itself(g);
}

broadcast proof fn keeps_call_flag(g: Gen, call: Text)
    ensures
        continues(g, (#[trigger] g.call_flag(call)).0),
{
    broadcast use {lemma_grows_on, keeps_e, keeps_fresh_label};

    lemma_grows_from_itself(g);
}

broadcast proof fn keeps_call_ptr(g: Gen, call: Text)
    ensures
        continues(g, (#[trigger] g.call_ptr(call)).0),
{
    broadcast use {lemma_grows_on, keeps_e, keeps_fresh_label};

    lemma_grows_from_itself(g);
}

broadcast proof fn keeps_arg_ptr(g: Gen, args: Seq<(Text, Text)>, i: nat)
    ensures
        continues(g, (#[trigger] g.arg_ptr(args, i)).0),
{
    broadcast use {lemma_grows_on, keeps_string_to_ptr};

    lemma_grows_from_itself(g);
}

/// The step carries the generator on, as [`continues`] says.
pub broadcast proof fn keeps_bind_var(g: Gen, name: Text, ty: Text)
    ensures
        continues(g, (#[trigger] g.bind_var(name, ty)).0),
{
    broadcast use {lemma_grows_on, keeps_set_var_alloca, keeps_set_var_type};

    lemma_grows_from_itself(g);
}

/// The step carries the generator on, as [`continues`] says.
pub broadcast proof fn keeps_store_param(g: Gen, name: Text, ty: Text, i: nat)
    ensures
        continues(g, #[trigger] g.store_param(name, ty, i)),
{
    broadcast use {lemma_grows_on, keeps_bind_var, keeps_e};

    lemma_grows_from_itself(g);
}

broadcast proof fn keeps_load_name(g: Gen, name: Text)
    ensures
        continues(g, (#[trigger] g.load_name(name)).0),
{
    broadcast use {lemma_grows_on, keeps_e, keeps_fresh_label, keeps_value_name};

    lemma_grows_from_itself(g);
}

broadcast proof fn keeps_get_or_create_tuple_type(g: Gen, elem_types: Seq<Text>)
    ensures
        continues(g, (#[trigger] g.get_or_create_tuple_type(elem_types)).0),
{
    broadcast use {lemma_grows_on, keeps_add_type_line, keeps_next_tuple, keeps_set_tuple_name};

    lemma_grows_from_itself(g);
}

/// The step carries the generator on, as [`continues`] says.
pub broadcast proof fn keeps_define_nullable(g: Gen, inner_ty: Text)
    ensures
        continues(g, (#[trigger] g.define_nullable(inner_ty)).0),
{
    broadcast use {lemma_grows_on, keeps_add_nullable, keeps_add_type_line};

    lemma_grows_from_itself(g);
}

broadcast proof fn keeps_result_payload(g: Gen, iv: Text, it: Text)
    ensures
        continues(g, (#[trigger] g.result_payload(iv, it)).0),
{
    broadcast use {lemma_grows_on, keeps_e, keeps_fresh_label, keeps_to_i64};

    lemma_grows_from_itself(g);
}

broadcast proof fn keeps_make_result(g: Gen, iv: Text, it: Text, flag: Text)
    ensures
        continues(g, (#[trigger] g.make_result(iv, it, flag)).0),
{
    broadcast use {lemma_grows_on, keeps_e, keeps_fresh_label, keeps_result_payload};

    lemma_grows_from_itself(g);
}

broadcast proof fn keeps_make_interface(
    g: Gen,
    iface_ty: Text,
    iface_name: Text,
    val: Text,
    val_ty: Text,
    class_name: Text,
)
    ensures
        continues(g, (#[trigger] g.make_interface(iface_ty, iface_name, val, val_ty, class_name)).0),
{
    broadcast use {lemma_grows_on, keeps_e, keeps_fresh_label};

    lemma_grows_from_itself(g);
}

broadcast proof fn keeps_emit_unop(g: Gen, op: UnOp, i: Text, ty: Text)
    ensures
        continues(g, (#[trigger] g.emit_unop(op, i, ty)).0),
{
    broadcast use {lemma_grows_on, keeps_e, keeps_fresh_label};

    lemma_grows_from_itself(g);
}

broadcast proof fn keeps_int_to_real(g: Gen, val: Text, ty: Text, real_ty: Text)
    ensures
        continues(g, (#[trigger] g.int_to_real(val, ty, real_ty)).0),
{
    broadcast use {lemma_grows_on, keeps_e, keeps_fresh_label};

    lemma_grows_from_itself(g);
}

broadcast proof fn keeps_widen(g: Gen, val: Text, ty: Text, wide: Text)
    ensures
        continues(g, (#[trigger] g.widen(val, ty, wide)).0),
{
    broadcast use {lemma_grows_on, keeps_e, keeps_fresh_label};

    lemma_grows_from_itself(g);
}

broadcast proof fn keeps_store_complex(g: Gen, val: Text, ty: Text, place: Text)
    ensures
        continues(g, #[trigger] g.store_complex(val, ty, place)),
{
    broadcast use {lemma_grows_on, keeps_e, keeps_fresh_label};

    lemma_grows_from_itself(g);
}

broadcast proof fn keeps_complex_op(
    g: Gen,
    op: BinOp,
    lc: Text,
    lt: Text,
    rc: Text,
    rt: Text,
    tmp: Text,
)
    ensures
        continues(g, (#[trigger] g.complex_op(op, lc, lt, rc, rt, tmp)).0),
{
    broadcast use {lemma_grows_on, keeps_e, keeps_fresh_label, keeps_store_complex};

    lemma_grows_from_itself(g);
}

broadcast proof fn keeps_concat_strings(g: Gen, lc: Text, rc: Text, tmp: Text)
    ensures
        continues(g, (#[trigger] g.concat_strings(lc, rc, tmp)).0),
{
    broadcast use {lemma_grows_on, keeps_e, keeps_load_string, keeps_string_to_ptr};

    lemma_grows_from_itself(g);
}

broadcast proof fn keeps_arith(g: Gen, tmp: Text, instr: Text, ty: Text, lc: Text, rc: Text)
    ensures
        continues(g, (#[trigger] g.arith(tmp, instr, ty, lc, rc)).0),
{
    broadcast use {lemma_grows_on, keeps_e};

    lemma_grows_from_itself(g);
}

broadcast proof fn keeps_compare(
    g: Gen,
    tmp: Text,
    instr: Text,
    cond: Text,
    ty: Text,
    lc: Text,
    rc: Text,
)
    ensures
        continues(g, (#[trigger] g.compare(tmp, instr, cond, ty, lc, rc)).0),
{
    broadcast use {lemma_grows_on, keeps_e};

    lemma_grows_from_itself(g);
}

broadcast proof fn keeps_logical(g: Gen, tmp: Text, instr: Text, ty: Text, lc: Text, rc: Text)
    ensures
        continues(g, (#[trigger] g.logical(tmp, instr, ty, lc, rc)).0),
{
    broadcast use {lemma_grows_on, keeps_e, keeps_fresh_label};

    lemma_grows_from_itself(g);
}

broadcast proof fn keeps_power(g: Gen, tmp: Text, is_float: bool, ty: Text, lc: Text, rc: Text)
    ensures
        continues(g, (#[trigger] g.power(tmp, is_float, ty, lc, rc)).0),
{
    broadcast use {lemma_grows_on, keeps_e};

    lemma_grows_from_itself(g);
}

broadcast proof fn keeps_plain_op(
    g: Gen,
    op: BinOp,
    lc: Text,
    ty: Text,
    rc: Text,
    tmp: Text,
    target: Text,
)
    ensures
        continues(g, (#[trigger] g.plain_op(op, lc, ty, rc, tmp, target)).0),
{
    broadcast use {
        lemma_grows_on,
        keeps_arith,
        keeps_compare,
        keeps_concat_strings,
        keeps_e,
        keeps_logical,
        keeps_power,
    };

    lemma_grows_from_itself(g);
}

broadcast proof fn keeps_emit_binop(
    g: Gen,
    op: BinOp,
    lc: Text,
    lt: Text,
    rc: Text,
    rt: Text,
    target: Text,
)
    ensures
        continues(g, (#[trigger] g.emit_binop(op, lc, lt, rc, rt, target)).0),
{
    broadcast use {
        lemma_grows_on,
        keeps_complex_op,
        keeps_fresh_label,
        keeps_int_to_real,
        keeps_plain_op,
        keeps_widen,
    };

    lemma_grows_from_itself(g);
}

broadcast proof fn keeps_step_var(g: Gen, ty: Text, target: Text, real_instr: Text, int_instr: Text)
    ensures
        continues(g, (#[trigger] g.step_var(ty, target, real_instr, int_instr)).0),
{
    broadcast use {lemma_grows_on, keeps_e, keeps_fresh_label};

    lemma_grows_from_itself(g);
}

broadcast proof fn keeps_emit_index(g: Gen, o: Text, ot: Text, i: Text)
    ensures
        continues(g, (#[trigger] g.emit_index(o, ot, i)).0),
{
    broadcast use {lemma_grows_on, keeps_e, keeps_fresh_label};

    lemma_grows_from_itself(g);
}

broadcast proof fn keeps_complex_part(g: Gen, val: Text, ty: Text)
    ensures
        continues(g, (#[trigger] g.complex_part(val, ty)).0),
{
    broadcast use {lemma_grows_on, keeps_int_to_real};

    lemma_grows_from_itself(g);
}

broadcast proof fn keeps_fill_complex(g: Gen, cptr: Text, rv: Text, rt: Text, iv: Text, it: Text)
    ensures
        continues(g, (#[trigger] g.fill_complex(cptr, rv, rt, iv, it)).0),
{
    broadcast use {lemma_grows_on, keeps_complex_part, keeps_e, keeps_fresh_label};

    lemma_grows_from_itself(g);
}

broadcast proof fn keeps_emit_try(g: Gen, rv: Text, rt: Text)
    ensures
        continues(g, (#[trigger] g.emit_try(rv, rt)).0),
{
    broadcast use {lemma_grows_on, keeps_e, keeps_fresh_label};

    lemma_grows_from_itself(g);
}

broadcast proof fn keeps_convert(g: Gen, instr: Text, val: Text, ty: Text, target: Text)
    ensures
        continues(g, (#[trigger] g.convert(instr, val, ty, target)).0),
{
    broadcast use {lemma_grows_on, keeps_e, keeps_fresh_label};

    lemma_grows_from_itself(g);
}

broadcast proof fn keeps_compare_zero(g: Gen, instr: Text, ty: Text, val: Text, zero: Text)
    ensures
        continues(g, (#[trigger] g.compare_zero(instr, ty, val, zero)).0),
{
    broadcast use {lemma_grows_on, keeps_e, keeps_fresh_label};

    lemma_grows_from_itself(g);
}

broadcast proof fn keeps_emit_cast(g: Gen, val: Text, ty: Text, target: Text)
    ensures
        continues(g, (#[trigger] g.emit_cast(val, ty, target)).0),
{
    broadcast use {lemma_grows_on, keeps_compare_zero, keeps_convert};

    lemma_grows_from_itself(g);
}

broadcast proof fn keeps_extract(g: Gen, tmp: Text, ty: Text, o: Text, idx: Text, field_ty: Text)
    ensures
        continues(g, (#[trigger] g.extract(tmp, ty, o, idx, field_ty)).0),
{
    broadcast use {lemma_grows_on, keeps_e};

    lemma_grows_from_itself(g);
}

broadcast proof fn keeps_struct_field_value(
    g: Gen,
    tmp: Text,
    o: Text,
    obj_ty: Text,
    struct_name: Text,
    field: Text,
)
    ensures
        continues(g, (#[trigger] g.struct_field_value(tmp, o, obj_ty, struct_name, field)).0),
{
    broadcast use {lemma_grows_on, keeps_extract};

    lemma_grows_from_itself(g);
}

broadcast proof fn keeps_class_field_value(
    g: Gen,
    tmp: Text,
    o: Text,
    obj_ty: Text,
    class_name: Text,
    field: Text,
)
    ensures
        continues(g, (#[trigger] g.class_field_value(tmp, o, obj_ty, class_name, field)).0),
{
    broadcast use {lemma_grows_on, keeps_extract};

    lemma_grows_from_itself(g);
}

broadcast proof fn keeps_object_field_value(
    g: Gen,
    tmp: Text,
    o: Text,
    obj_ty: Text,
    obj_name: Text,
    field: Text,
)
    ensures
        continues(g, (#[trigger] g.object_field_value(tmp, o, obj_ty, obj_name, field)).0),
{
    broadcast use {lemma_grows_on, keeps_extract};

    lemma_grows_from_itself(g);
}

broadcast proof fn keeps_complex_field_value(g: Gen, tmp: Text, o: Text, field: Text)
    ensures
        continues(g, (#[trigger] g.complex_field_value(tmp, o, field)).0),
{
    broadcast use {lemma_grows_on, keeps_complex_to_slot, keeps_e, keeps_fresh_label};

    lemma_grows_from_itself(g);
}

broadcast proof fn keeps_http_status(g: Gen, o: Text)
    ensures
        continues(g, (#[trigger] g.http_status(o)).0),
{
    broadcast use {lemma_grows_on, keeps_e, keeps_fresh_label};

    lemma_grows_from_itself(g);
}

broadcast proof fn keeps_request_field(g: Gen, o: Text, ptr_offset: Text, len_offset: Text)
    ensures
        continues(g, (#[trigger] g.request_field(o, ptr_offset, len_offset)).0),
{
    broadcast use {lemma_grows_on, keeps_e, keeps_fresh_label};

    lemma_grows_from_itself(g);
}

broadcast proof fn keeps_http_method_name(g: Gen)
    ensures
        continues(g, (#[trigger] g.http_method_name()).0),
{
    broadcast use {lemma_grows_on, keeps_load_string, keeps_make_string_slot, keeps_string_to_ptr};

    lemma_grows_from_itself(g);
}

broadcast proof fn keeps_other_field_value(
    g: Gen,
    tmp: Text,
    o: Text,
    obj_ty: Text,
    field: Text,
    is_http: bool,
)
    ensures
        continues(g, (#[trigger] g.other_field_value(tmp, o, obj_ty, field, is_http)).0),
{
    broadcast use {
        lemma_grows_on,
        keeps_call_int,
        keeps_call_string,
        keeps_e,
        keeps_http_method_name,
        keeps_http_status,
        keeps_request_field,
    };

    lemma_grows_from_itself(g);
}

broadcast proof fn keeps_emit_field(g: Gen, o: Text, obj_ty: Text, field: Text, is_http: bool)
    ensures
        continues(g, (#[trigger] g.emit_field(o, obj_ty, field, is_http)).0),
{
    broadcast use {
        lemma_grows_on,
        keeps_class_field_value,
        keeps_complex_field_value,
        keeps_extract,
        keeps_fresh_label,
        keeps_object_field_value,
        keeps_other_field_value,
        keeps_struct_field_value,
    };

    lemma_grows_from_itself(g);
}

broadcast proof fn keeps_struct_access(
    g: Gen,
    name: Text,
    llvm_ty: Text,
    val: Text,
    ty: Text,
    field: Text,
)
    ensures
        continues(g, (#[trigger] g.struct_access(name, llvm_ty, val, ty, field)).0),
{
    broadcast use {lemma_grows_on, keeps_e, keeps_fresh_label};

    lemma_grows_from_itself(g);
}

broadcast proof fn keeps_compile_field_access(g: Gen, val: Text, ty: Text, field: Text)
    ensures
        continues(g, (#[trigger] g.compile_field_access(val, ty, field)).0),
{
    broadcast use {lemma_grows_on, keeps_struct_access};

    lemma_grows_from_itself(g);
}

broadcast proof fn keeps_emit_safe_call(g: Gen, obj_val: Text, obj_ty: Text, field: Text)
    ensures
        continues(g, (#[trigger] g.emit_safe_call(obj_val, obj_ty, field)).0),
{
    broadcast use {lemma_grows_on, keeps_compile_field_access, keeps_e, keeps_fresh_label};

    lemma_grows_from_itself(g);
}

broadcast proof fn keeps_print_nullable(g: Gen, av: Text, at: Text)
    ensures
        continues(g, #[trigger] g.print_nullable(av, at)),
{
    broadcast use {
        lemma_grows_on,
        keeps_e,
        keeps_fresh_label,
        keeps_make_string_slot,
        keeps_string_to_ptr,
    };

    lemma_grows_from_itself(g);
}

broadcast proof fn keeps_print_payload_string(g: Gen, payload: Text)
    ensures
        continues(g, #[trigger] g.print_payload_string(payload)),
{
    broadcast use {lemma_grows_on, keeps_e, keeps_fresh_label};

    lemma_grows_from_itself(g);
}

broadcast proof fn keeps_print_variant(g: Gen, av: Text)
    ensures
        continues(g, #[trigger] g.print_variant(av)),
{
    broadcast use {lemma_grows_on, keeps_e, keeps_fresh_label, keeps_print_payload_string};

    lemma_grows_from_itself(g);
}

broadcast proof fn keeps_print_value(g: Gen, av: Text, at: Text)
    ensures
        continues(g, #[trigger] g.print_value(av, at)),
{
    broadcast use {
        lemma_grows_on,
        keeps_e,
        keeps_fresh_label,
        keeps_print_nullable,
        keeps_print_variant,
        keeps_string_to_ptr,
    };

    lemma_grows_from_itself(g);
}

broadcast proof fn keeps_nullable_text(g: Gen, av: Text, at: Text)
    ensures
        continues(g, (#[trigger] g.nullable_text(av, at)).0),
{
    broadcast use {lemma_grows_on, keeps_e, keeps_fresh_label, keeps_make_string_slot};

    lemma_grows_from_itself(g);
}

broadcast proof fn keeps_variant_text(g: Gen, av: Text)
    ensures
        continues(g, (#[trigger] g.variant_text(av)).0),
{
    broadcast use {lemma_grows_on, keeps_e, keeps_fresh_label};

    lemma_grows_from_itself(g);
}

broadcast proof fn keeps_plain_text(g: Gen, av: Text, at: Text)
    ensures
        continues(g, (#[trigger] g.plain_text(av, at)).0),
{
    broadcast use {lemma_grows_on, keeps_call_ptr, keeps_complex_to_slot, keeps_string_to_ptr};

    lemma_grows_from_itself(g);
}

broadcast proof fn keeps_value_text(g: Gen, av: Text, at: Text)
    ensures
        continues(g, (#[trigger] g.value_text(av, at)).0),
{
    broadcast use {
        lemma_grows_on,
        keeps_load_string,
        keeps_nullable_text,
        keeps_plain_text,
        keeps_variant_text,
    };

    lemma_grows_from_itself(g);
}

broadcast proof fn keeps_builtin_len(g: Gen, args: Seq<(Text, Text)>)
    ensures
        continues(g, (#[trigger] g.builtin_len(args)).0),
{
    broadcast use {lemma_grows_on, keeps_call_int, keeps_string_to_ptr};

    lemma_grows_from_itself(g);
}

broadcast proof fn keeps_builtin_str(g: Gen, args: Seq<(Text, Text)>)
    ensures
        continues(g, (#[trigger] g.builtin_str(args)).0),
{
    broadcast use {lemma_grows_on, keeps_value_text};

    lemma_grows_from_itself(g);
}

broadcast proof fn keeps_builtin_abs(g: Gen, args: Seq<(Text, Text)>)
    ensures
        continues(g, (#[trigger] g.builtin_abs(args)).0),
{
    broadcast use {lemma_grows_on, keeps_e, keeps_fresh_label};

    lemma_grows_from_itself(g);
}

broadcast proof fn keeps_real_function(g: Gen, tmp: Text, name: Text, args: Seq<(Text, Text)>)
    ensures
        continues(g, (#[trigger] g.real_function(tmp, name, args)).0),
{
    broadcast use {lemma_grows_on, keeps_e};

    lemma_grows_from_itself(g);
}

broadcast proof fn keeps_real_function2(g: Gen, tmp: Text, name: Text, args: Seq<(Text, Text)>)
    ensures
        continues(g, (#[trigger] g.real_function2(tmp, name, args)).0),
{
    broadcast use {lemma_grows_on, keeps_e};

    lemma_grows_from_itself(g);
}

broadcast proof fn keeps_random_int(g: Gen, tmp: Text, args: Seq<(Text, Text)>)
    ensures
        continues(g, (#[trigger] g.random_int(tmp, args)).0),
{
    broadcast use {lemma_grows_on, keeps_e};

    lemma_grows_from_itself(g);
}

broadcast proof fn keeps_pause(g: Gen, args: Seq<(Text, Text)>)
    ensures
        continues(g, (#[trigger] g.pause(args)).0),
{
    broadcast use {lemma_grows_on, keeps_e};

    lemma_grows_from_itself(g);
}

broadcast proof fn keeps_string_arg(g: Gen, args: Seq<(Text, Text)>, i: nat)
    ensures
        continues(g, (#[trigger] g.string_arg(args, i)).0),
{
    broadcast use {lemma_grows_on, keeps_string_to_ptr};

    lemma_grows_from_itself(g);
}

broadcast proof fn keeps_builtin_fetch(g: Gen, args: Seq<(Text, Text)>)
    ensures
        continues(g, (#[trigger] g.builtin_fetch(args)).0),
{
    broadcast use {lemma_grows_on, keeps_call_string, keeps_string_arg, keeps_string_to_ptr};

    lemma_grows_from_itself(g);
}

broadcast proof fn keeps_builtin_lookup(g: Gen, args: Seq<(Text, Text)>)
    ensures
        continues(g, (#[trigger] g.builtin_lookup(args)).0),
{
    broadcast use {lemma_grows_on, keeps_arg_ptr, keeps_call_string};

    lemma_grows_from_itself(g);
}

broadcast proof fn keeps_open_at(g: Gen, func: Text, args: Seq<(Text, Text)>)
    ensures
        continues(g, (#[trigger] g.open_at(func, args)).0),
{
    broadcast use {lemma_grows_on, keeps_arg_ptr, keeps_call_int};

    lemma_grows_from_itself(g);
}

broadcast proof fn keeps_call_math(g: Gen, func: Text, args: Seq<(Text, Text)>)
    ensures
        continues(g, (#[trigger] g.call_math(func, args)).0),
{
    broadcast use {
        lemma_grows_on,
        keeps_e,
        keeps_fresh_label,
        keeps_random_int,
        keeps_real_function,
        keeps_real_function2,
    };

    lemma_grows_from_itself(g);
}

broadcast proof fn keeps_call_time(g: Gen, func: Text, args: Seq<(Text, Text)>)
    ensures
        continues(g, (#[trigger] g.call_time(func, args)).0),
{
    broadcast use {lemma_grows_on, keeps_call_int, keeps_call_string, keeps_pause};

    lemma_grows_from_itself(g);
}

broadcast proof fn keeps_call_sys(g: Gen, func: Text, args: Seq<(Text, Text)>)
    ensures
        continues(g, (#[trigger] g.call_sys(func, args)).0),
{
    broadcast use {
        lemma_grows_on,
        keeps_call_int,
        keeps_call_string,
        keeps_e,
        keeps_fresh_label,
        keeps_load_string,
        keeps_string_to_ptr,
    };

    lemma_grows_from_itself(g);
}

broadcast proof fn keeps_string_function(g: Gen, func: Text, args: Seq<(Text, Text)>)
    ensures
        continues(g, (#[trigger] g.string_function(func, args)).0),
{
    broadcast use {lemma_grows_on, keeps_call_string, keeps_string_to_ptr};

    lemma_grows_from_itself(g);
}

broadcast proof fn keeps_string_question(g: Gen, func: Text, args: Seq<(Text, Text)>)
    ensures
        continues(g, (#[trigger] g.string_question(func, args)).0),
{
    broadcast use {lemma_grows_on, keeps_call_flag, keeps_string_to_ptr};

    lemma_grows_from_itself(g);
}

broadcast proof fn keeps_call_path(g: Gen, func: Text, args: Seq<(Text, Text)>)
    ensures
        continues(g, (#[trigger] g.call_path(func, args)).0),
{
    broadcast use {
        lemma_grows_on,
        keeps_call_string,
        keeps_string_function,
        keeps_string_question,
        keeps_string_to_ptr,
    };

    lemma_grows_from_itself(g);
}

broadcast proof fn keeps_call_fs(g: Gen, func: Text, args: Seq<(Text, Text)>)
    ensures
        continues(g, (#[trigger] g.call_fs(func, args)).0),
{
    broadcast use {
        lemma_grows_on,
        keeps_e,
        keeps_string_function,
        keeps_string_question,
        keeps_string_to_ptr,
    };

    lemma_grows_from_itself(g);
}

broadcast proof fn keeps_call_base64(g: Gen, func: Text, args: Seq<(Text, Text)>)
    ensures
        continues(g, (#[trigger] g.call_base64(func, args)).0),
{
    broadcast use {lemma_grows_on, keeps_string_function};

    lemma_grows_from_itself(g);
}

broadcast proof fn keeps_call_json(g: Gen, func: Text, args: Seq<(Text, Text)>)
    ensures
        continues(g, (#[trigger] g.call_json(func, args)).0),
{
    broadcast use {lemma_grows_on, keeps_call_string, keeps_string_function};

    lemma_grows_from_itself(g);
}

broadcast proof fn keeps_call_re(g: Gen, func: Text, args: Seq<(Text, Text)>)
    ensures
        continues(g, (#[trigger] g.call_re(func, args)).0),
{
    broadcast use {lemma_grows_on, keeps_call_flag, keeps_call_string, keeps_string_to_ptr};

    lemma_grows_from_itself(g);
}

broadcast proof fn keeps_call_datetime(g: Gen, func: Text, args: Seq<(Text, Text)>)
    ensures
        continues(g, (#[trigger] g.call_datetime(func, args)).0),
{
    broadcast use {
        lemma_grows_on,
        keeps_call_int,
        keeps_call_string,
        keeps_e,
        keeps_fresh_label,
        keeps_string_to_ptr,
    };

    lemma_grows_from_itself(g);
}

broadcast proof fn keeps_call_ffi(g: Gen, mod_name: Text, func: Text, args: Seq<(Text, Text)>)
    ensures
        continues(g, (#[trigger] g.call_ffi(mod_name, func, args)).0),
{
    broadcast use {lemma_grows_on, keeps_add_ffi_decl, keeps_call_int, keeps_e_raw};

    lemma_grows_from_itself(g);
}

broadcast proof fn keeps_call_runtime_module(
    g: Gen,
    mod_name: Text,
    func: Text,
    args: Seq<(Text, Text)>,
)
    ensures
        continues(g, (#[trigger] g.call_runtime_module(mod_name, func, args)).0),
{
    broadcast use {
        lemma_grows_on,
        keeps_call_base64,
        keeps_call_datetime,
        keeps_call_fs,
        keeps_call_json,
        keeps_call_math,
        keeps_call_path,
        keeps_call_re,
        keeps_call_sys,
        keeps_call_time,
    };

    lemma_grows_from_itself(g);
}

broadcast proof fn keeps_http_request(g: Gen, o_val: Text, field: Text, args: Seq<(Text, Text)>)
    ensures
        continues(g, (#[trigger] g.http_request(o_val, field, args)).0),
{
    broadcast use {
        lemma_grows_on,
        keeps_arg_ptr,
        keeps_e,
        keeps_http_status,
        keeps_make_string_slot,
        keeps_string_to_ptr,
    };

    lemma_grows_from_itself(g);
}

broadcast proof fn keeps_socket_method(g: Gen, o_val: Text, field: Text, args: Seq<(Text, Text)>)
    ensures
        continues(g, (#[trigger] g.socket_method(o_val, field, args)).0),
{
    broadcast use {lemma_grows_on, keeps_arg_ptr, keeps_call_int, keeps_call_string, keeps_e};

    lemma_grows_from_itself(g);
}

broadcast proof fn keeps_pushed_value(g: Gen, pv: Text, pt: Text)
    ensures
        continues(g, (#[trigger] g.pushed_value(pv, pt)).0),
{
    broadcast use {lemma_grows_on, keeps_e, keeps_fresh_label};

    lemma_grows_from_itself(g);
}

broadcast proof fn keeps_packed_arg(g: Gen, args: Seq<(Text, Text)>, i: nat)
    ensures
        continues(g, (#[trigger] g.packed_arg(args, i)).0),
{
    broadcast use {lemma_grows_on, keeps_to_i64};

    lemma_grows_from_itself(g);
}

broadcast proof fn keeps_list_method(g: Gen, o_val: Text, field: Text, args: Seq<(Text, Text)>)
    ensures
        continues(g, (#[trigger] g.list_method(o_val, field, args)).0),
{
    broadcast use {lemma_grows_on, keeps_call_int, keeps_e, keeps_packed_arg, keeps_pushed_value};

    lemma_grows_from_itself(g);
}

broadcast proof fn keeps_call_value(g: Gen, o_val: Text, args: Seq<(Text, Text)>)
    ensures
        continues(g, (#[trigger] g.call_value(o_val, args)).0),
{
    broadcast use {lemma_grows_on, keeps_e, keeps_fresh_label};

    lemma_grows_from_itself(g);
}

broadcast proof fn keeps_class_method_call(
    g: Gen,
    o_val: Text,
    o_ty: Text,
    cls_name: Text,
    field: Text,
    args: Seq<(Text, Text)>,
)
    ensures
        continues(g, (#[trigger] g.class_method_call(o_val, o_ty, cls_name, field, args)).0),
{
    broadcast use {lemma_grows_on, keeps_call_value, keeps_e, keeps_fresh_label};

    lemma_grows_from_itself(g);
}

broadcast proof fn keeps_interface_method_call(
    g: Gen,
    o_val: Text,
    o_ty: Text,
    iface_name: Text,
    field: Text,
)
    ensures
        continues(g, (#[trigger] g.interface_method_call(o_val, o_ty, iface_name, field)).0),
{
    broadcast use {lemma_grows_on, keeps_e, keeps_fresh_label};

    lemma_grows_from_itself(g);
}

broadcast proof fn keeps_object_method_call(
    g: Gen,
    o_val: Text,
    o_ty: Text,
    obj_name: Text,
    field: Text,
    args: Seq<(Text, Text)>,
)
    ensures
        continues(g, (#[trigger] g.object_method_call(o_val, o_ty, obj_name, field, args)).0),
{
    broadcast use {lemma_grows_on, keeps_e, keeps_fresh_label};

    lemma_grows_from_itself(g);
}

broadcast proof fn keeps_method_call(
    g: Gen,
    o_val: Text,
    o_ty: Text,
    field: Text,
    args: Seq<(Text, Text)>,
)
    ensures
        continues(g, (#[trigger] g.method_call(o_val, o_ty, field, args)).0),
{
    broadcast use {
        lemma_grows_on,
        keeps_call_value,
        keeps_class_method_call,
        keeps_interface_method_call,
        keeps_list_method,
        keeps_load_string,
        keeps_object_method_call,
        keeps_plain_text,
        keeps_socket_method,
    };

    lemma_grows_from_itself(g);
}

broadcast proof fn keeps_match_string(g: Gen, val: Text, s: Text)
    ensures
        continues(g, (#[trigger] g.match_string(val, s)).0),
{
    broadcast use {lemma_grows_on, keeps_e, keeps_fresh_label, keeps_make_string_slot};

    lemma_grows_from_itself(g);
}

broadcast proof fn keeps_match_literal(g: Gen, instr: Text, val: Text, literal: Text)
    ensures
        continues(g, (#[trigger] g.match_literal(instr, val, literal)).0),
{
    broadcast use {lemma_grows_on, keeps_e, keeps_fresh_label};

    lemma_grows_from_itself(g);
}

broadcast proof fn keeps_match_tag(g: Gen, val: Text, variant: Text)
    ensures
        continues(g, (#[trigger] g.match_tag(val, variant)).0),
{
    broadcast use {lemma_grows_on, keeps_e, keeps_fresh_label};

    lemma_grows_from_itself(g);
}

broadcast proof fn keeps_bind_value(g: Gen, name: Text, val: Text, ty: Text)
    ensures
        continues(g, #[trigger] g.bind_value(name, val, ty)),
{
    broadcast use {lemma_grows_on, keeps_bind_var, keeps_e};

    lemma_grows_from_itself(g);
}

broadcast proof fn keeps_bind_element(g: Gen, name: Text, val: Text, ty: Text, idx: nat)
    ensures
        continues(g, #[trigger] g.bind_element(name, val, ty, idx)),
{
    broadcast use {lemma_grows_on, keeps_bind_var, keeps_e, keeps_fresh_label};

    lemma_grows_from_itself(g);
}

broadcast proof fn keeps_bind_rest(g: Gen, name: Text)
    ensures
        continues(g, #[trigger] g.bind_rest(name)),
{
    broadcast use {lemma_grows_on, keeps_bind_var, keeps_e};

    lemma_grows_from_itself(g);
}

broadcast proof fn keeps_variant_value(g: Gen, val: Text)
    ensures
        continues(g, (#[trigger] g.variant_value(val)).0),
{
    broadcast use {lemma_grows_on, keeps_e, keeps_fresh_label};

    lemma_grows_from_itself(g);
}

broadcast proof fn keeps_pattern_field(g: Gen, val: Text, ty: Text, idx: nat)
    ensures
        continues(g, (#[trigger] g.pattern_field(val, ty, idx)).0),
{
    broadcast use {lemma_grows_on, keeps_e, keeps_fresh_label};

    lemma_grows_from_itself(g);
}

broadcast proof fn keeps_begin_instance(g: Gen, name: Text)
    ensures
        continues(g, (#[trigger] g.begin_instance(name)).0),
{
    broadcast use {lemma_grows_on, keeps_e, keeps_fresh_label};

    lemma_grows_from_itself(g);
}

broadcast proof fn keeps_store_field(
    g: Gen,
    obj_ty: Text,
    alloca_ptr: Text,
    i: nat,
    fty: Text,
    val: Text,
)
    ensures
        continues(g, #[trigger] g.store_field(obj_ty, alloca_ptr, i, fty, val)),
{
    broadcast use {lemma_grows_on, keeps_e, keeps_fresh_label};

    lemma_grows_from_itself(g);
}

broadcast proof fn keeps_finish_instance(g: Gen, name: Text, alloca_ptr: Text)
    ensures
        continues(g, (#[trigger] g.finish_instance(name, alloca_ptr)).0),
{
    broadcast use {lemma_grows_on, keeps_e, keeps_fresh_label};

    lemma_grows_from_itself(g);
}

broadcast proof fn keeps_finish_call(g: Gen, tmp: Text, mangled: Text, fn_ret: Text, list: Text)
    ensures
        continues(g, (#[trigger] g.finish_call(tmp, mangled, fn_ret, list)).0),
{
    broadcast use {lemma_grows_on, keeps_e};

    lemma_grows_from_itself(g);
}

broadcast proof fn keeps_call_builtin(g: Gen, name: Text, args: Seq<(Text, Text)>)
    ensures
        continues(g, (#[trigger] g.call_builtin(name, args)).0),
{
    broadcast use {
        lemma_grows_on,
        keeps_builtin_abs,
        keeps_builtin_fetch,
        keeps_builtin_len,
        keeps_builtin_lookup,
        keeps_builtin_str,
        keeps_call_int,
        keeps_call_string,
        keeps_fresh_label,
        keeps_open_at,
        keeps_pause,
        keeps_random_int,
        keeps_real_function,
        keeps_real_function2,
    };

    lemma_grows_from_itself(g);
}

broadcast proof fn keeps_add_route(
    g: Gen,
    handle: Text,
    method_ptr: Text,
    path_ptr: Text,
    handler_ptr: Text,
)
    ensures
        continues(g, (#[trigger] g.add_route(handle, method_ptr, path_ptr, handler_ptr)).0),
{
    broadcast use {lemma_grows_on, keeps_e};

    lemma_grows_from_itself(g);
}

broadcast proof fn keeps_add_handler_fn(g: Gen, hname: Text, ir: Text)
    ensures
        continues(g, (#[trigger] g.add_handler_fn(hname, ir)).0),
{
    broadcast use {lemma_grows_on, keeps_add_handler, keeps_e, keeps_fresh_label};

    lemma_grows_from_itself(g);
}

broadcast proof fn keeps_begin_value(g: Gen)
    ensures
        continues(g, (#[trigger] g.begin_value()).0),
{
    broadcast use {lemma_grows_on, keeps_e, keeps_fresh_label};

    lemma_grows_from_itself(g);
}

broadcast proof fn keeps_set_value(g: Gen, val: Text, ty: Text, ret_ptr: Text)
    ensures
        continues(g, #[trigger] g.set_value(val, ty, ret_ptr)),
{
    broadcast use {lemma_grows_on, keeps_e, keeps_e_raw, keeps_fresh_label};

    lemma_grows_from_itself(g);
}

broadcast proof fn keeps_block_value(g: Gen, ret_ptr: Text)
    ensures
        continues(g, (#[trigger] g.block_value(ret_ptr)).0),
{
    broadcast use {lemma_grows_on, keeps_e, keeps_fresh_label};

    lemma_grows_from_itself(g);
}

broadcast proof fn keeps_push_value(g: Gen, list_ptr: Text, val: Text, ty: Text)
    ensures
        continues(g, #[trigger] g.push_value(list_ptr, val, ty)),
{
    broadcast use {lemma_grows_on, keeps_e, keeps_to_i64};

    lemma_grows_from_itself(g);
}

broadcast proof fn keeps_new_list(g: Gen)
    ensures
        continues(g, (#[trigger] g.new_list()).0),
{
    broadcast use {lemma_grows_on, keeps_e, keeps_fresh_label};

    lemma_grows_from_itself(g);
}

broadcast proof fn keeps_insert_value(g: Gen, ty: Text, agg: Text, fty: Text, fval: Text, idx: Text)
    ensures
        continues(g, (#[trigger] g.insert_value(ty, agg, fty, fval, idx)).0),
{
    broadcast use {lemma_grows_on, keeps_e, keeps_fresh_label};

    lemma_grows_from_itself(g);
}

broadcast proof fn keeps_with_vtable(g: Gen, name: Text)
    ensures
        continues(g, (#[trigger] g.with_vtable(name)).0),
{
    broadcast use {lemma_grows_on, keeps_e, keeps_fresh_label};

    lemma_grows_from_itself(g);
}

broadcast proof fn keeps_insert_element(g: Gen, vty: Text, vec: Text, val: Text, idx: Text)
    ensures
        continues(g, (#[trigger] g.insert_element(vty, vec, val, idx)).0),
{
    broadcast use {lemma_grows_on, keeps_e, keeps_fresh_label};

    lemma_grows_from_itself(g);
}

broadcast proof fn keeps_insert_row(g: Gen, mty: Text, mat: Text, row: Text, idx: Text)
    ensures
        continues(g, (#[trigger] g.insert_row(mty, mat, row, idx)).0),
{
    broadcast use {lemma_grows_on, keeps_e, keeps_fresh_label};

    lemma_grows_from_itself(g);
}

broadcast proof fn keeps_closure_address(g: Gen, name: Text, params: Text)
    ensures
        continues(g, (#[trigger] g.closure_address(name, params)).0),
{
    broadcast use {lemma_grows_on, keeps_e, keeps_fresh_label};

    lemma_grows_from_itself(g);
}

broadcast proof fn keeps_start_thread(g: Gen, wrapper_name: Text)
    ensures
        continues(g, (#[trigger] g.start_thread(wrapper_name)).0),
{
    broadcast use {lemma_grows_on, keeps_begin_value, keeps_call_int};

    lemma_grows_from_itself(g);
}

broadcast proof fn keeps_complex_slot(g: Gen)
    ensures
        continues(g, (#[trigger] g.complex_slot()).0),
{
    broadcast use {lemma_grows_on, keeps_e, keeps_fresh_label};

    lemma_grows_from_itself(g);
}

broadcast proof fn keeps_merge_values(
    g: Gen,
    ty: Text,
    a_val: Text,
    a_label: Text,
    b_val: Text,
    b_label: Text,
)
    ensures
        continues(g, (#[trigger] g.merge_values(ty, a_val, a_label, b_val, b_label)).0),
{
    broadcast use {lemma_grows_on, keeps_e, keeps_fresh_label};

    lemma_grows_from_itself(g);
}

broadcast proof fn keeps_test_arm(g: Gen, cond: Text, label: Text, next: Text)
    ensures
        continues(g, #[trigger] g.test_arm(cond, label, next)),
{
    broadcast use {lemma_grows_on, keeps_e};

    lemma_grows_from_itself(g);
}

broadcast proof fn keeps_end_arm(g: Gen, val: Text, ty: Text, result_ptr: Text, merge_label: Text)
    ensures
        continues(g, #[trigger] g.end_arm(val, ty, result_ptr, merge_label)),
{
    broadcast use {lemma_grows_on, keeps_e};

    lemma_grows_from_itself(g);
}

broadcast proof fn keeps_begin_match(g: Gen, result_ty: Text)
    ensures
        continues(g, (#[trigger] g.begin_match(result_ty)).0),
{
    broadcast use {lemma_grows_on, keeps_e, keeps_fresh_label};

    lemma_grows_from_itself(g);
}

broadcast proof fn keeps_end_match(g: Gen, result_ty: Text, result_ptr: Text, merge_label: Text)
    ensures
        continues(g, (#[trigger] g.end_match(result_ty, result_ptr, merge_label)).0),
{
    broadcast use {lemma_grows_on, keeps_e, keeps_e_raw, keeps_fresh_label};

    lemma_grows_from_itself(g);
}

broadcast proof fn keeps_bind_catch(g: Gen, name: Text)
    ensures
        continues(g, #[trigger] g.bind_catch(name)),
{
    broadcast use {lemma_grows_on, keeps_begin_value, keeps_set_var_alloca, keeps_set_var_type};

    lemma_grows_from_itself(g);
}

broadcast proof fn keeps_store_truth(g: Gen, val: Text, ptr: Text)
    ensures
        continues(g, #[trigger] g.store_truth(val, ptr)),
{
    broadcast use {lemma_grows_on, keeps_e, keeps_fresh_label};

    lemma_grows_from_itself(g);
}

broadcast proof fn keeps_store_widened(g: Gen, instr: Text, val: Text, val_ty: Text, ptr: Text)
    ensures
        continues(g, #[trigger] g.store_widened(instr, val, val_ty, ptr)),
{
    broadcast use {lemma_grows_on, keeps_e, keeps_fresh_label};

    lemma_grows_from_itself(g);
}

broadcast proof fn keeps_store_declared(g: Gen, ty: Text, val: Text, val_ty: Text, ptr: Text)
    ensures
        continues(g, #[trigger] g.store_declared(ty, val, val_ty, ptr)),
{
    broadcast use {
        lemma_grows_on,
        keeps_e,
        keeps_make_interface,
        keeps_store_truth,
        keeps_store_widened,
    };

    lemma_grows_from_itself(g);
}

broadcast proof fn keeps_store_assigned(g: Gen, ty: Text, val: Text, val_ty: Text, ptr: Text)
    ensures
        continues(g, #[trigger] g.store_assigned(ty, val, val_ty, ptr)),
{
    broadcast use {lemma_grows_on, keeps_e, keeps_store_truth};

    lemma_grows_from_itself(g);
}

broadcast proof fn keeps_store_nullable(
    g: Gen,
    ty: Text,
    val: Text,
    val_ty: Text,
    is_null: bool,
    ptr: Text,
)
    ensures
        continues(g, #[trigger] g.store_nullable(ty, val, val_ty, is_null, ptr)),
{
    broadcast use {lemma_grows_on, keeps_e, keeps_wrap_in_nullable};

    lemma_grows_from_itself(g);
}

broadcast proof fn keeps_assigned_slot(g: Gen, name: Text, val_ty: Text)
    ensures
        continues(g, (#[trigger] g.assigned_slot(name, val_ty)).0),
{
    broadcast use {lemma_grows_on, keeps_e, keeps_set_var_alloca, keeps_set_var_type};

    lemma_grows_from_itself(g);
}

broadcast proof fn keeps_return_value(g: Gen, val: Text, val_ty: Text, is_null: bool)
    ensures
        continues(g, #[trigger] g.return_value(val, val_ty, is_null)),
{
    broadcast use {lemma_grows_on, keeps_e, keeps_fresh_label, keeps_wrap_in_nullable};

    lemma_grows_from_itself(g);
}

broadcast proof fn keeps_declare_index(g: Gen, name: Text)
    ensures
        continues(g, (#[trigger] g.declare_index(name)).0),
{
    broadcast use {lemma_grows_on, keeps_bind_var, keeps_e};

    lemma_grows_from_itself(g);
}

broadcast proof fn keeps_string_loop_head(
    g: Gen,
    str_val: Text,
    idx_name: Text,
    idx_ptr: Text,
    head_label: Text,
    body_label: Text,
    exit_label: Text,
)
    ensures
        continues(g, (#[trigger] g.string_loop_head(str_val, idx_name, idx_ptr, head_label, body_label, exit_label)).0),
{
    broadcast use {lemma_grows_on, keeps_e, keeps_e_raw, keeps_fresh_label, keeps_value_name};

    lemma_grows_from_itself(g);
}

broadcast proof fn keeps_bind_byte(g: Gen, var: Text, str_val: Text, idx_val: Text)
    ensures
        continues(g, #[trigger] g.bind_byte(var, str_val, idx_val)),
{
    broadcast use {lemma_grows_on, keeps_bind_value, keeps_e, keeps_fresh_label};

    lemma_grows_from_itself(g);
}

broadcast proof fn keeps_step_index(g: Gen, idx_val: Text, idx_ptr: Text)
    ensures
        continues(g, #[trigger] g.step_index(idx_val, idx_ptr)),
{
    broadcast use {lemma_grows_on, keeps_e, keeps_fresh_label};

    lemma_grows_from_itself(g);
}

broadcast proof fn keeps_range_loop_head(
    g: Gen,
    var: Text,
    ptr: Text,
    end_val: Text,
    cond_label: Text,
    body_label: Text,
    exit_label: Text,
)
    ensures
        continues(g, (#[trigger] g.range_loop_head(var, ptr, end_val, cond_label, body_label, exit_label)).0),
{
    broadcast use {lemma_grows_on, keeps_e, keeps_e_raw, keeps_value_name};

    lemma_grows_from_itself(g);
}

broadcast proof fn keeps_elvis_value(
    g: Gen,
    a_val: Text,
    a_ty: Text,
    nonnull_bb: Text,
    merge_bb: Text,
)
    ensures
        continues(g, (#[trigger] g.elvis_value(a_val, a_ty, nonnull_bb, merge_bb)).0),
{
    broadcast use {lemma_grows_on, keeps_e, keeps_fresh_label};

    lemma_grows_from_itself(g);
}

broadcast proof fn keeps_null_test(g: Gen, a_val: Text, a_ty: Text)
    ensures
        continues(g, (#[trigger] g.null_test(a_val, a_ty)).0),
{
    broadcast use {lemma_grows_on, keeps_e, keeps_fresh_label};

    lemma_grows_from_itself(g);
}

// ---------------------------------------------------------------------------------------------
// Depth
// ---------------------------------------------------------------------------------------------
broadcast proof fn grows_set_indent(g: Gen, n: nat)
    ensures
        grows(g, #[trigger] g.set_indent(n)),
        g.set_indent(n).indent == n,
{
    reveal(grows);
    lemma_lists_stay(g);
    reveal(Gen::set_indent);
    lemma_begins_same(g.output);
    lemma_begins_same(g.string_constants);
}

broadcast proof fn grows_begin_block(g: Gen, label: Text)
    ensures
        grows(g, #[trigger] g.begin_block(label)),
{
    broadcast use {lemma_grows_on, keeps_e_raw, grows_set_indent};

}

broadcast proof fn grows_end_block(g: Gen, target: Text, depth: nat)
    ensures
        grows(g, #[trigger] g.end_block(target, depth)),
        g.end_block(target, depth).indent == depth,
{
    broadcast use {lemma_grows_on, keeps_e, grows_set_indent};

}

// ---------------------------------------------------------------------------------------------
// Types
// ---------------------------------------------------------------------------------------------
broadcast proof fn keeps_tag_variants(g: Gen, variants: Seq<TypeExpr>)
    ensures
        continues(g, #[trigger] g.tag_variants(variants)),
    decreases variants.len(),
{
    broadcast use {lemma_grows_on, keeps_get_variant_tag};

    lemma_grows_from_itself(g);
    if variants.len() > 0 {
        keeps_tag_variants(g, variants.drop_last());
    }
}

/// The type of a type is found without changing what is written or defined.
pub broadcast proof fn keeps_type_to_llvm(g: Gen, te: TypeExpr)
    ensures
        continues(g, (#[trigger] g.type_to_llvm(te)).0),
    decreases te,
{
    broadcast use {lemma_grows_on, keeps_define_nullable, keeps_tag_variants};

    lemma_grows_from_itself(g);
    match te {
        TypeExpr::Vector(inner) => keeps_type_to_llvm(g, *inner),
        TypeExpr::Matrix(inner) => keeps_type_to_llvm(g, *inner),
        TypeExpr::Nullable(inner) => keeps_type_to_llvm(g, *inner),
        _ => {},
    }
}

broadcast proof fn keeps_wrap_as_union(g: Gen, variants: Seq<TypeExpr>, val: Text, val_ty: Text)
    ensures
        continues(g, (#[trigger] g.wrap_as_union(variants, val, val_ty)).0),
    decreases variants.len(),
{
    broadcast use {lemma_grows_on, keeps_type_to_llvm, keeps_wrap_in_variant};

    lemma_grows_from_itself(g);
    if variants.len() > 0 {
        let h = g.type_to_llvm(variants[0]).0;
        keeps_wrap_as_union(h, variants.skip(1), val, val_ty);
    }
}

proof fn keeps_expr_type(g: Gen, expr: ExprNode)
    ensures
        continues(g, g.expr_type_str(expr).0),
    decreases expr, 0nat,
{
    broadcast use {lemma_grows_on, keeps_type_to_llvm, keeps_get_or_create_tuple_type};

    lemma_grows_from_itself(g);
    match expr.value {
        Expr::BinOp(l, _, r) => {
            keeps_expr_type(g, *l);
            keeps_expr_type(g.expr_type_str(*l).0, *r);
        },
        Expr::UnOp(_, inner) => keeps_expr_type(g, *inner),
        Expr::TupleLit(items) => keeps_expr_types_of(g, items@),
        Expr::Field(obj, _) => keeps_expr_type(g, *obj),
        Expr::PostInc(i) => keeps_expr_type(g, *i),
        Expr::PostDec(i) => keeps_expr_type(g, *i),
        Expr::Await(inner) => keeps_expr_type(g, *inner),
        Expr::Match(_, arms) => keeps_arms_type_of(g, arms@),
        _ => {},
    }
}

proof fn keeps_arms_type_of(g: Gen, arms: Seq<MatchArm>)
    ensures
        continues(g, g.arms_type(arms).0),
    decreases arms, 1nat,
{
    lemma_grows_from_itself(g);
    if arms.len() > 0 {
        keeps_expr_type(g, arms[0].body);
    }
}

proof fn keeps_expr_types_of(g: Gen, items: Seq<ExprNode>)
    ensures
        continues(g, g.expr_types(items).0),
    decreases items, 1nat,
{
    broadcast use lemma_grows_on;

    lemma_grows_from_itself(g);
    if items.len() > 0 {
        keeps_expr_types_of(g, items.drop_last());
        keeps_expr_type(g.expr_types(items.drop_last()).0, items.last());
    }
}

broadcast proof fn keeps_expr_type_str(g: Gen, expr: ExprNode)
    ensures
        continues(g, (#[trigger] g.expr_type_str(expr)).0),
{
    keeps_expr_type(g, expr);
}

broadcast proof fn keeps_expr_types(g: Gen, items: Seq<ExprNode>)
    ensures
        continues(g, (#[trigger] g.expr_types(items)).0),
{
    keeps_expr_types_of(g, items);
}

broadcast proof fn keeps_arms_type(g: Gen, arms: Seq<MatchArm>)
    ensures
        continues(g, (#[trigger] g.arms_type(arms)).0),
{
    keeps_arms_type_of(g, arms);
}

// ---------------------------------------------------------------------------------------------
// Patterns
// ---------------------------------------------------------------------------------------------
/// The step carries the generator on, as [`continues`] says.
pub broadcast proof fn keeps_compile_pattern_match(g: Gen, pattern: Pattern, val: Text, ty: Text)
    ensures
        continues(g, (#[trigger] g.compile_pattern_match(pattern, val, ty)).0),
{
    broadcast use {lemma_grows_on, keeps_match_literal, keeps_match_string, keeps_match_tag};

    lemma_grows_from_itself(g);
}

proof fn keeps_bind(g: Gen, pattern: Pattern, val: Text, ty: Text)
    ensures
        continues(g, g.compile_pattern_bind(pattern, val, ty)),
    decreases pattern, 0nat,
{
    broadcast use {lemma_grows_on, keeps_bind_value, keeps_variant_value};

    lemma_grows_from_itself(g);
    match pattern {
        Pattern::ListDestruct(patterns) => keeps_bind_elements(g, patterns@, val, ty),
        Pattern::Destruct(fields) => {
            let defs = g.destructured(ty);
            if names_any_field(fields@, defs) {
                keeps_bind_fields(g, fields@, fields@.len(), defs, val, ty);
            } else {
                keeps_bind_all_fields(g, fields@, val, ty);
            }
        },
        Pattern::Variant(_, patterns) => if ty == "%yk_variant"@ {
            let (h, payload) = g.variant_value(val);
            keeps_bind_all(h, patterns@, payload, "i64"@);
        } else {
            keeps_bind_all(g, patterns@, val, ty);
        },
        _ => {},
    }
}

proof fn keeps_bind_all(g: Gen, patterns: Seq<Pattern>, val: Text, ty: Text)
    ensures
        continues(g, g.bind_all(patterns, val, ty)),
    decreases patterns, 1nat,
{
    broadcast use lemma_grows_on;

    lemma_grows_from_itself(g);
    if patterns.len() > 0 {
        keeps_bind_all(g, patterns.drop_last(), val, ty);
        keeps_bind(g.bind_all(patterns.drop_last(), val, ty), patterns.last(), val, ty);
    }
}

proof fn keeps_bind_elements(g: Gen, patterns: Seq<Pattern>, val: Text, ty: Text)
    ensures
        continues(g, g.bind_elements(patterns, val, ty)),
    decreases patterns, 1nat,
{
    broadcast use {lemma_grows_on, keeps_bind_element, keeps_bind_rest};

    lemma_grows_from_itself(g);
    if patterns.len() > 0 {
        keeps_bind_elements(g, patterns.drop_last(), val, ty);
        let h = g.bind_elements(patterns.drop_last(), val, ty);
        match patterns.last() {
            Pattern::Ident(_) => {},
            Pattern::Rest(_) => {},
            _ => keeps_bind(h, patterns.last(), val, ty),
        }
    }
}

proof fn keeps_bind_all_fields(g: Gen, fields: Seq<(String, Pattern)>, val: Text, ty: Text)
    ensures
        continues(g, g.bind_all_fields(fields, val, ty)),
    decreases fields, 1nat,
{
    broadcast use lemma_grows_on;

    lemma_grows_from_itself(g);
    if fields.len() > 0 {
        keeps_bind_all_fields(g, fields.drop_last(), val, ty);
        keeps_bind(g.bind_all_fields(fields.drop_last(), val, ty), fields.last().1, val, ty);
    }
}

proof fn keeps_bind_fields(
    g: Gen,
    fields: Seq<(String, Pattern)>,
    n: nat,
    defs: Seq<(Text, Text)>,
    val: Text,
    ty: Text,
)
    ensures
        continues(g, g.bind_fields(fields, n, defs, val, ty)),
    decreases fields, n + 1,
{
    broadcast use {lemma_grows_on, keeps_pattern_field};

    lemma_grows_from_itself(g);
    if n > 0 && n <= fields.len() {
        keeps_bind_fields(g, fields, (n - 1) as nat, defs, val, ty);
        let h = g.bind_fields(fields, (n - 1) as nat, defs, val, ty);
        let at = slot(defs, fields[n - 1].0@);
        let first = field_place(fields, fields[n - 1].0@);
        if at >= 0 && 0 <= first < fields.len() {
            let (k, v) = h.pattern_field(val, ty, at as nat);
            keeps_bind(k, fields[first].1, v, defs[at].1);
        }
    }
}

/// The step carries the generator on, as [`continues`] says.
pub broadcast proof fn keeps_compile_pattern_bind(g: Gen, pattern: Pattern, val: Text, ty: Text)
    ensures
        continues(g, #[trigger] g.compile_pattern_bind(pattern, val, ty)),
{
    keeps_bind(g, pattern, val, ty);
}

// ---------------------------------------------------------------------------------------------
// Calls
// ---------------------------------------------------------------------------------------------
broadcast proof fn keeps_print_args(g: Gen, args: Seq<(Text, Text)>)
    ensures
        continues(g, #[trigger] g.print_args(args)),
    decreases args.len(),
{
    broadcast use {lemma_grows_on, keeps_print_value};

    lemma_grows_from_itself(g);
    if args.len() > 0 {
        keeps_print_args(g, args.drop_last());
    }
}

broadcast proof fn keeps_store_fields(
    g: Gen,
    obj_ty: Text,
    alloca_ptr: Text,
    defs: Seq<(Text, Text)>,
    args: Seq<(Text, Text)>,
)
    ensures
        continues(g, #[trigger] g.store_fields(obj_ty, alloca_ptr, defs, args)),
    decreases defs.len(),
{
    broadcast use {lemma_grows_on, keeps_store_field};

    lemma_grows_from_itself(g);
    if defs.len() > 0 {
        keeps_store_fields(g, obj_ty, alloca_ptr, defs.drop_last(), args);
    }
}

broadcast proof fn keeps_construct(g: Gen, name: Text, args: Seq<(Text, Text)>)
    ensures
        continues(g, (#[trigger] g.construct(name, args)).0),
{
    broadcast use {
        lemma_grows_on,
        keeps_begin_instance,
        keeps_store_fields,
        keeps_finish_instance,
    };

}

broadcast proof fn keeps_pass_args(g: Gen, mangled: Text, types: Seq<Text>, args: Seq<(Text, Text)>)
    ensures
        continues(g, (#[trigger] g.pass_args(mangled, types, args)).0),
    decreases args.len(),
{
    broadcast use {lemma_grows_on, keeps_make_interface, keeps_wrap_as_union};

    lemma_grows_from_itself(g);
    if args.len() > 0 {
        keeps_pass_args(g, mangled, types, args.drop_last());
        let h = g.pass_args(mangled, types, args.drop_last()).0;
        lemma_grows_from_itself(h);
    }
}

broadcast proof fn keeps_call_function(g: Gen, name: Text, args: Seq<(Text, Text)>)
    ensures
        continues(g, (#[trigger] g.call_function(name, args)).0),
{
    broadcast use {lemma_grows_on, keeps_fresh_label, keeps_pass_args, keeps_finish_call};

}

broadcast proof fn keeps_call_named(g: Gen, name: Text, args: Seq<(Text, Text)>)
    ensures
        continues(g, (#[trigger] g.call_named(name, args)).0),
{
    broadcast use {
        lemma_grows_on,
        keeps_print_args,
        keeps_call_builtin,
        keeps_construct,
        keeps_call_function,
    };

}

broadcast proof fn keeps_call_closure(
    g: Gen,
    params: Seq<Param>,
    ret: Option<TypeNode>,
    body: ExprNode,
    args: Seq<(Text, Text)>,
)
    ensures
        continues(g, (#[trigger] g.call_closure(params, ret, body, args)).0),
{
    broadcast use {lemma_grows_on, keeps_next_closure, keeps_defer, keeps_call_int};

}

broadcast proof fn keeps_compile_server_method(
    g: Gen,
    handle: Text,
    field: Text,
    args: Seq<(Text, Text)>,
    sources: Seq<ExprNode>,
)
    ensures
        continues(g, (#[trigger] g.compile_server_method(handle, field, args, sources)).0),
{
    broadcast use {
        lemma_grows_on,
        keeps_e,
        keeps_fresh_label,
        keeps_arg_ptr,
        keeps_make_string_slot,
        keeps_string_to_ptr,
        keeps_add_handler_fn,
        keeps_add_route,
    };

    lemma_grows_from_itself(g);
    let h = g.make_string_slot(crate::codegen::llvm::methods::verb_of(field)).0;
    let (h, m) = g.make_string_slot(crate::codegen::llvm::methods::verb_of(field));
    let h = h.string_to_ptr(m).0;
    let h = h.arg_ptr(args, 0).0;
    lemma_grows_from_itself(h);
}

proof fn keeps_module_call(g: Gen, obj: ExprNode, func: Text, args: Seq<(Text, Text)>)
    ensures
        match g.module_call(obj, func, args) {
            Some(r) => continues(g, r.0),
            None => true,
        },
{
    broadcast use {lemma_grows_on, keeps_call_runtime_module, keeps_call_ffi};

}

broadcast proof fn keeps_fresh_labels(g: Gen, n: nat)
    ensures
        continues(g, (#[trigger] g.fresh_labels(n)).0),
    decreases n,
{
    broadcast use {lemma_grows_on, keeps_fresh_label};

    lemma_grows_from_itself(g);
    if n > 0 {
        keeps_fresh_labels(g, (n - 1) as nat);
    }
}

// ---------------------------------------------------------------------------------------------
// Expressions
// ---------------------------------------------------------------------------------------------
/// Compiling an expression only appends to the module text and to the string constants. It ends at
/// the depth at which it began, and changes no definition of a struct, a class, an interface, an
/// object or a function.
#[verifier::rlimit(60)]
pub proof fn keeps_compile_expr(g: Gen, expr: ExprNode)
    ensures
        continues(g, g.compile_expr(expr).0),
    decreases expr, 2nat,
{
    broadcast use {
        lemma_grows_on,
        keeps_make_string_slot,
        keeps_load_name,
        keeps_expr_type_str,
        keeps_emit_binop,
        keeps_emit_unop,
        keeps_emit_field,
        keeps_emit_index,
        keeps_call_int,
        keeps_make_result,
        keeps_step_var,
        keeps_emit_safe_call,
        keeps_emit_try,
        keeps_type_to_llvm,
        keeps_emit_cast,
    };

    lemma_grows_from_itself(g);
    match expr.value {
        Expr::BinOp(l, _, r) => {
            let g1 = g.expr_type_str(*l).0;
            keeps_compile_expr(g1, *l);
            let g2 = g1.compile_expr(*l).0.expr_type_str(*r).0;
            keeps_compile_expr(g2, *r);
        },
        Expr::UnOp(_, inner) => keeps_compile_expr(g, *inner),
        Expr::Call(_, _) => keeps_compile_call(g, expr),
        Expr::Field(obj, _) => keeps_compile_expr(g, *obj),
        Expr::Index(obj, index) => {
            keeps_compile_expr(g, *obj);
            keeps_compile_expr(g.compile_expr(*obj).0, *index);
        },
        Expr::Range(l, r) => {
            keeps_compile_expr(g, *l);
            keeps_compile_expr(g.compile_expr(*l).0, *r);
        },
        Expr::AsConst(inner) => keeps_compile_expr(g, *inner),
        Expr::Await(inner) => keeps_compile_expr(g, *inner),
        Expr::ResultOk(inner) => keeps_compile_expr(g, *inner),
        Expr::ResultErr(inner) => keeps_compile_expr(g, *inner),
        Expr::PostInc(i) => keeps_compile_expr(g, *i),
        Expr::PostDec(i) => keeps_compile_expr(g, *i),
        Expr::SafeCall(obj, _) => keeps_compile_expr(g, *obj),
        Expr::Try(inner) => keeps_compile_expr(g, *inner),
        Expr::As(inner, _) => keeps_compile_expr(g, *inner),
        Expr::LitInt(_) => {},
        Expr::LitHex(_) => {},
        Expr::LitReal(_) => {},
        Expr::LitBool(_) => {},
        Expr::LitStr(_) => {},
        Expr::LitChar(_) => {},
        Expr::LitNull => {},
        Expr::LitNone => {},
        Expr::LitSymbol(_) => {},
        Expr::Ident(_) => {},
        _ => keeps_compile_composite(g, expr),
    }
}

#[verifier::rlimit(60)]
proof fn keeps_compile_composite(g: Gen, expr: ExprNode)
    ensures
        continues(g, g.compile_composite(expr).0),
    decreases expr, 1nat,
{
    broadcast use {
        lemma_grows_on,
        keeps_begin_value,
        keeps_block_value,
        keeps_new_list,
        keeps_expr_types,
        keeps_get_or_create_tuple_type,
        keeps_next_closure,
        keeps_defer,
        keeps_closure_address,
        keeps_next_spawn,
        keeps_start_thread,
        keeps_defer_spawn,
        keeps_complex_slot,
        keeps_fill_complex,
        keeps_get_variant_tag,
        keeps_variant_payload,
        keeps_make_variant,
        keeps_bind_catch,
    };

    lemma_grows_from_itself(g);
    match expr.value {
        Expr::Block(stmts) => {
            let (g1, ret_ptr) = g.begin_value();
            keeps_block_stmts(g1, stmts@, ret_ptr);
        },
        Expr::If(_, _, _) => keeps_if_expr(g, expr),
        Expr::ListLit(items) => {
            let (g1, list_ptr) = g.new_list();
            keeps_push_items(g1, items@, list_ptr);
        },
        Expr::SetLit(items) => {
            let (g1, list_ptr) = g.new_list();
            keeps_push_items(g1, items@, list_ptr);
        },
        Expr::MapLit(pairs) => {
            let (g1, list_ptr) = g.new_list();
            keeps_push_pairs(g1, pairs@, list_ptr);
        },
        Expr::StructLit(_, _) => keeps_struct(g, expr),
        Expr::TupleLit(items) => {
            let (g1, types) = g.expr_types(items@);
            let (g2, ty) = g1.get_or_create_tuple_type(types);
            keeps_insert_items(g2, items@, ty);
        },
        Expr::VectorLit(items) => keeps_vector(g, items@),
        Expr::MatrixLit(rows) => keeps_matrix(g, rows@),
        Expr::Match(_, _) => keeps_match(g, expr),
        Expr::LitComplex(re, im) => {
            let g1 = g.complex_slot().0;
            keeps_compile_expr(g1, *re);
            keeps_compile_expr(g1.compile_expr(*re).0, *im);
        },
        Expr::Elvis(_, _) => keeps_elvis(g, expr),
        Expr::Variant(_, name, args) => {
            let g1 = g.get_variant_tag(name@).0;
            keeps_variant_args(g1, args@);
        },
        Expr::TryCatch(try_body, catch_var, catch_body) => {
            keeps_compile_stmts(g, try_body@);
            let g1 = g.compile_stmts(try_body@).bind_catch(catch_var@);
            keeps_compile_stmts(g1, catch_body@);
        },
        _ => {},
    }
}

proof fn keeps_if_expr(g: Gen, expr: ExprNode)
    ensures
        continues(g, g.compile_if_expr(expr).0),
    decreases expr, 0nat,
{
    broadcast use {
        lemma_grows_on,
        keeps_fresh_label,
        keeps_test_arm,
        grows_begin_block,
        grows_end_block,
        keeps_e_raw,
        keeps_merge_values,
    };

    lemma_grows_from_itself(g);
    match expr.value {
        Expr::If(cond, then_e, else_e) => {
            let (g1, then_label) = g.fresh_label();
            let (g2, else_label) = g1.fresh_label();
            let (g3, merge_label) = g2.fresh_label();
            keeps_compile_expr(g3, *cond);
            let (g4, (cond_val, _)) = g3.compile_expr(*cond);
            let g5 = g4.test_arm(cond_val, then_label, else_label);
            let g6 = g5.begin_block(then_label);
            keeps_compile_expr(g6, *then_e);
            let g7 = g6.compile_expr(*then_e).0.end_block(merge_label, g5.depth());
            let g8 = g7.begin_block(else_label);
            lemma_grows_from_itself(g8);
            match else_e {
                Some(ex) => keeps_compile_expr(g8, *ex),
                None => {},
            }
        },
        _ => {},
    }
}

proof fn keeps_elvis(g: Gen, expr: ExprNode)
    ensures
        continues(g, g.compile_elvis(expr).0),
    decreases expr, 0nat,
{
    broadcast use {
        lemma_grows_on,
        keeps_null_test,
        keeps_fresh_label,
        keeps_test_arm,
        keeps_e,
        keeps_elvis_value,
        keeps_merge_values,
    };

    lemma_grows_from_itself(g);
    match expr.value {
        Expr::Elvis(a, b) => {
            keeps_compile_expr(g, *a);
            let (g1, (a_val, a_ty)) = g.compile_expr(*a);
            let (g2, is_null) = g1.null_test(a_val, a_ty);
            let (g3, null_bb) = g2.fresh_label();
            let (g4, nonnull_bb) = g3.fresh_label();
            let (g5, merge_bb) = g4.fresh_label();
            let g6 = g5.test_arm("%"@ + is_null, null_bb, nonnull_bb);
            let g7 = g6.e(null_bb + ":"@);
            keeps_compile_expr(g7, *b);
        },
        _ => {},
    }
}

proof fn keeps_match(g: Gen, expr: ExprNode)
    ensures
        continues(g, g.compile_match(expr).0),
    decreases expr, 0nat,
{
    broadcast use {
        lemma_grows_on,
        keeps_arms_type,
        keeps_begin_match,
        keeps_fresh_label,
        keeps_fresh_labels,
        keeps_end_match,
    };

    lemma_grows_from_itself(g);
    match expr.value {
        Expr::Match(scrutinee, arms) => {
            keeps_compile_expr(g, *scrutinee);
            let (g1, (sv, st)) = g.compile_expr(*scrutinee);
            let (g2, result_ty) = g1.arms_type(arms@);
            let (g3, result_ptr) = g2.begin_match(result_ty);
            let (g4, merge_label) = g3.fresh_label();
            let (g5, labels) = g4.fresh_labels(arms@.len());
            keeps_arms(g5, arms@, arms@.len(), labels, merge_label, sv, st, result_ptr);
        },
        _ => {},
    }
}

proof fn keeps_arms(
    g: Gen,
    arms: Seq<MatchArm>,
    n: nat,
    labels: Seq<Text>,
    merge_label: Text,
    sv: Text,
    st: Text,
    result_ptr: Text,
)
    ensures
        continues(g, g.compile_arms(arms, n, labels, merge_label, sv, st, result_ptr)),
    decreases arms, n + 1,
{
    broadcast use {
        lemma_grows_on,
        keeps_compile_pattern_match,
        keeps_compile_pattern_bind,
        keeps_test_arm,
        keeps_e,
        keeps_e_raw,
        keeps_end_arm,
    };

    lemma_grows_from_itself(g);
    if n > 0 && n <= arms.len() {
        keeps_arms(g, arms, (n - 1) as nat, labels, merge_label, sv, st, result_ptr);
        let g1 = g.compile_arms(arms, (n - 1) as nat, labels, merge_label, sv, st, result_ptr);
        let arm = arms[n - 1];
        let label = labels[n - 1];
        let (g2, cond) = g1.compile_pattern_match(arm.pattern, sv, st);
        let g3 = match cond {
            Some(c) => g2.test_arm(
                c,
                label,
                if n < labels.len() {
                    labels[n as int]
                } else {
                    merge_label
                },
            ),
            None => g2.e("br label %"@ + label),
        };
        let g4 = g3.e_raw(label + ":"@).compile_pattern_bind(arm.pattern, sv, st);
        keeps_compile_expr(g4, arm.body);
    }
}

proof fn keeps_block_stmts(g: Gen, stmts: Seq<StmtNode>, ret_ptr: Text)
    ensures
        continues(g, g.compile_block_stmts(stmts, ret_ptr)),
    decreases stmts, 2nat,
{
    broadcast use {lemma_grows_on, keeps_set_value};

    lemma_grows_from_itself(g);
    if stmts.len() > 0 {
        keeps_block_stmts(g, stmts.drop_last(), ret_ptr);
        let h = g.compile_block_stmts(stmts.drop_last(), ret_ptr);
        match stmts.last().value {
            Stmt::Return(Some(ex)) => keeps_compile_expr(h, ex),
            Stmt::Return(None) => {},
            _ => keeps_compile_stmt(h, stmts.last()),
        }
    }
}

proof fn keeps_push_items(g: Gen, items: Seq<ExprNode>, list_ptr: Text)
    ensures
        continues(g, g.push_items(items, list_ptr)),
    decreases items, 2nat,
{
    broadcast use {lemma_grows_on, keeps_push_value};

    lemma_grows_from_itself(g);
    if items.len() > 0 {
        keeps_push_items(g, items.drop_last(), list_ptr);
        keeps_compile_expr(g.push_items(items.drop_last(), list_ptr), items.last());
    }
}

proof fn keeps_push_pairs(g: Gen, items: Seq<(ExprNode, ExprNode)>, list_ptr: Text)
    ensures
        continues(g, g.push_pairs(items, list_ptr)),
    decreases items, 2nat,
{
    broadcast use {lemma_grows_on, keeps_push_value};

    lemma_grows_from_itself(g);
    if items.len() > 0 {
        keeps_push_pairs(g, items.drop_last(), list_ptr);
        let h = g.push_pairs(items.drop_last(), list_ptr);
        keeps_compile_expr(h, items.last().0);
        let (k, (kv, kt)) = h.compile_expr(items.last().0);
        keeps_compile_expr(k.push_value(list_ptr, kv, kt), items.last().1);
    }
}

proof fn keeps_insert_items(g: Gen, items: Seq<ExprNode>, ty: Text)
    ensures
        continues(g, g.insert_items(items, ty).0),
    decreases items, 2nat,
{
    broadcast use {lemma_grows_on, keeps_insert_value};

    lemma_grows_from_itself(g);
    if items.len() > 0 {
        keeps_insert_items(g, items.drop_last(), ty);
        keeps_compile_expr(g.insert_items(items.drop_last(), ty).0, items.last());
    }
}

proof fn keeps_struct(g: Gen, expr: ExprNode)
    ensures
        continues(g, g.compile_struct(expr).0),
    decreases expr, 0nat,
{
    broadcast use {lemma_grows_on, keeps_with_vtable};

    lemma_grows_from_itself(g);
    match expr.value {
        Expr::StructLit(name, fields) => if g.has_class(name@) {
            let (h, agg) = match g.class_vtable(name@) {
                Some(methods) => if methods.len() > 0 {
                    g.with_vtable(name@)
                } else {
                    (g, "undef"@)
                },
                None => (g, "undef"@),
            };
            let defs = match h.class_def(name@) {
                Some(list) => list,
                None => seq![],
            };
            keeps_insert_fields(h, fields@, defs.len(), defs, "%class."@ + name@, agg, 1);
        } else {
            let defs = match g.struct_def(name@) {
                Some(list) => list,
                None => seq![],
            };
            keeps_insert_fields(g, fields@, defs.len(), defs, "%struct."@ + name@, "undef"@, 0);
        },
        _ => {},
    }
}

proof fn keeps_insert_fields(
    g: Gen,
    fields: Seq<(String, ExprNode)>,
    n: nat,
    defs: Seq<(Text, Text)>,
    ty: Text,
    agg: Text,
    offset: nat,
)
    ensures
        continues(g, g.insert_fields(fields, n, defs, ty, agg, offset).0),
    decreases fields, n + 1,
{
    broadcast use {lemma_grows_on, keeps_insert_value};

    lemma_grows_from_itself(g);
    if n > 0 && n <= defs.len() {
        keeps_insert_fields(g, fields, (n - 1) as nat, defs, ty, agg, offset);
        let h = g.insert_fields(fields, (n - 1) as nat, defs, ty, agg, offset).0;
        let at = literal_place(fields, defs[n - 1].0);
        if 0 <= at < fields.len() {
            keeps_compile_expr(h, fields[at].1);
        }
    }
}

proof fn keeps_vector(g: Gen, items: Seq<ExprNode>)
    ensures
        continues(g, g.compile_vector(items).0),
    decreases items, 3nat,
{
    broadcast use lemma_grows_on;

    lemma_grows_from_itself(g);
    if items.len() > 0 {
        keeps_compile_expr(g, items[0]);
        let (h, (_, ty)) = g.compile_expr(items[0]);
        keeps_elements(h, items, "<"@ + dec(items.len()) + " x "@ + ty + ">"@);
    }
}

proof fn keeps_elements(g: Gen, items: Seq<ExprNode>, vty: Text)
    ensures
        continues(g, g.insert_elements(items, vty).0),
    decreases items, 2nat,
{
    broadcast use {lemma_grows_on, keeps_insert_element};

    lemma_grows_from_itself(g);
    if items.len() > 0 {
        keeps_elements(g, items.drop_last(), vty);
        keeps_compile_expr(g.insert_elements(items.drop_last(), vty).0, items.last());
    }
}

proof fn keeps_matrix(g: Gen, rows: Seq<Vec<ExprNode>>)
    ensures
        continues(g, g.compile_matrix(rows).0),
    decreases rows, 5nat,
{
    broadcast use lemma_grows_on;

    lemma_grows_from_itself(g);
    if rows.len() > 0 && rows[0]@.len() > 0 {
        keeps_compile_expr(g, rows[0]@[0]);
        let (h, (_, ty)) = g.compile_expr(rows[0]@[0]);
        let vty = "<"@ + dec(rows[0]@.len()) + " x "@ + ty + ">"@;
        keeps_rows(h, rows, vty, "["@ + vty + " x "@ + dec(rows.len()) + "]"@);
    }
}

proof fn keeps_rows(g: Gen, rows: Seq<Vec<ExprNode>>, vty: Text, mty: Text)
    ensures
        continues(g, g.insert_rows(rows, vty, mty).0),
    decreases rows, 4nat,
{
    broadcast use {lemma_grows_on, keeps_insert_row};

    lemma_grows_from_itself(g);
    if rows.len() > 0 {
        keeps_rows(g, rows.drop_last(), vty, mty);
        keeps_elements(g.insert_rows(rows.drop_last(), vty, mty).0, rows.last()@, vty);
    }
}

proof fn keeps_variant_args(g: Gen, args: Seq<ExprNode>)
    ensures
        continues(g, g.variant_args(args).0),
    decreases args, 3nat,
{
    if args.len() == 1 {
        keeps_compile_expr(g, args[0]);
    } else {
        keeps_compile_all(g, args);
    }
}

proof fn keeps_compile_all(g: Gen, args: Seq<ExprNode>)
    ensures
        continues(g, g.compile_all(args)),
    decreases args, 2nat,
{
    broadcast use lemma_grows_on;

    lemma_grows_from_itself(g);
    if args.len() > 0 {
        keeps_compile_all(g, args.drop_last());
        keeps_compile_expr(g.compile_all(args.drop_last()), args.last());
    }
}

proof fn keeps_compile_args(g: Gen, args: Seq<ExprNode>, is_srv: bool)
    ensures
        continues(g, g.compile_args(args, is_srv).0),
    decreases args, 2nat,
{
    broadcast use lemma_grows_on;

    lemma_grows_from_itself(g);
    if args.len() > 0 {
        keeps_compile_args(g, args.drop_last(), is_srv);
        keeps_compile_expr(g.compile_args(args.drop_last(), is_srv).0, args.last());
    }
}

proof fn keeps_compile_call(g: Gen, expr: ExprNode)
    ensures
        continues(g, g.compile_call(expr).0),
    decreases expr, 0nat,
{
    broadcast use {
        lemma_grows_on,
        keeps_call_named,
        keeps_call_closure,
        keeps_http_request,
        keeps_compile_server_method,
        keeps_method_call,
    };

    lemma_grows_from_itself(g);
    match expr.value {
        Expr::Call(callee, args) => {
            keeps_compile_args(g, args@, is_server_call(*callee));
            let (h, vals) = g.compile_args(args@, is_server_call(*callee));
            match callee.value {
                Expr::Field(obj, field) => {
                    keeps_module_call(h, *obj, field@, vals);
                    keeps_compile_expr(h, *obj);
                },
                _ => {},
            }
        },
        _ => {},
    }
}

// ---------------------------------------------------------------------------------------------
// Statements
// ---------------------------------------------------------------------------------------------
broadcast proof fn keeps_store_union(
    g: Gen,
    variants: Option<Seq<TypeExpr>>,
    ty: Text,
    val: Text,
    val_ty: Text,
    ptr: Text,
)
    ensures
        continues(g, #[trigger] g.store_union(variants, ty, val, val_ty, ptr)),
{
    broadcast use {lemma_grows_on, keeps_e, keeps_wrap_as_union};

    lemma_grows_from_itself(g);
}

broadcast proof fn keeps_declare(
    g: Gen,
    name: Text,
    ty: Text,
    variants: Option<Seq<TypeExpr>>,
    val: Text,
    val_ty: Text,
    is_null: bool,
)
    ensures
        continues(g, #[trigger] g.declare(name, ty, variants, val, val_ty, is_null)),
{
    broadcast use {
        lemma_grows_on,
        keeps_bind_var,
        keeps_e,
        keeps_set_union,
        keeps_store_nullable,
        keeps_store_union,
        keeps_store_declared,
    };

}

broadcast proof fn keeps_assign(
    g: Gen,
    name: Text,
    val: Text,
    val_ty: Text,
    is_http: bool,
    is_null: bool,
)
    ensures
        continues(g, #[trigger] g.assign(name, val, val_ty, is_http, is_null)),
{
    broadcast use {
        lemma_grows_on,
        keeps_assigned_slot,
        keeps_add_http_var,
        keeps_e,
        keeps_store_nullable,
        keeps_store_union,
        keeps_store_assigned,
    };

}

/// Compiling statements only appends to what is written, ends at the depth at which it began, and
/// changes no definition.
pub proof fn keeps_compile_stmts(g: Gen, stmts: Seq<StmtNode>)
    ensures
        continues(g, g.compile_stmts(stmts)),
    decreases stmts, 2nat,
{
    broadcast use lemma_grows_on;

    lemma_grows_from_itself(g);
    if stmts.len() > 0 {
        keeps_compile_stmts(g, stmts.drop_last());
        keeps_compile_stmt(g.compile_stmts(stmts.drop_last()), stmts.last());
    }
}

/// Compiling a return only appends to what is written, ends at the depth at which it began, and
/// changes no definition.
pub proof fn keeps_compile_return(g: Gen, expr: ExprNode)
    ensures
        continues(g, g.compile_return(expr)),
    decreases expr, 3nat,
{
    broadcast use {lemma_grows_on, keeps_return_value};

    keeps_compile_expr(g, expr);
}

/// Compiling a statement only appends to what is written, ends at the depth at which it began, and
/// changes no definition.
pub proof fn keeps_compile_stmt(g: Gen, stmt: StmtNode)
    ensures
        continues(g, g.compile_stmt(stmt)),
    decreases stmt, 1nat,
{
    broadcast use {
        lemma_grows_on,
        keeps_type_to_llvm,
        keeps_expr_type_str,
        keeps_declare,
        keeps_assign,
        keeps_e,
        keeps_fresh_label,
        grows_begin_block,
        grows_end_block,
    };

    lemma_grows_from_itself(g);
    match stmt.value {
        Stmt::Decl { type_expr, value, .. } => {
            let h = match type_expr {
                Some(te) => g.type_to_llvm(te.value).0,
                None => g.expr_type_str(value).0,
            };
            keeps_compile_expr(h, value);
        },
        Stmt::Assign(_, expr) => keeps_compile_expr(g, expr),
        Stmt::Expr(e) => keeps_compile_expr(g, e),
        Stmt::Return(Some(ex)) => keeps_compile_return(g, ex),
        Stmt::Return(None) => {},
        Stmt::If(_, _, _) => keeps_if_stmt(g, stmt),
        Stmt::While(_, _) => keeps_while(g, stmt),
        Stmt::For(_, _, _, _) => keeps_for(g, stmt),
        Stmt::Loop(body) => {
            let (g1, label) = g.fresh_label();
            let g2 = g1.e("br label %"@ + label);
            keeps_compile_stmts(g2.begin_block(label), body@);
        },
        Stmt::Destruct(_, expr) => keeps_compile_expr(g, expr),
    }
}

proof fn keeps_if_stmt(g: Gen, stmt: StmtNode)
    ensures
        continues(g, g.compile_if_stmt(stmt)),
    decreases stmt, 0nat,
{
    broadcast use {
        lemma_grows_on,
        keeps_fresh_label,
        keeps_test_arm,
        grows_begin_block,
        grows_end_block,
        keeps_e_raw,
    };

    lemma_grows_from_itself(g);
    match stmt.value {
        Stmt::If(cond, then_body, else_body) => {
            let (g1, then_label) = g.fresh_label();
            let (g2, else_label) = g1.fresh_label();
            let (g3, merge_label) = g2.fresh_label();
            keeps_compile_expr(g3, cond);
            let (g4, (cond_val, _)) = g3.compile_expr(cond);
            let g5 = g4.test_arm(cond_val, then_label, else_label);
            let g6 = g5.begin_block(then_label);
            keeps_compile_stmts(g6, then_body@);
            let g7 = g6.compile_stmts(then_body@).end_block(merge_label, g5.depth());
            let g8 = g7.begin_block(else_label);
            lemma_grows_from_itself(g8);
            match else_body {
                Some(eb) => keeps_compile_stmts(g8, eb@),
                None => {},
            }
        },
        _ => {},
    }
}

proof fn keeps_while(g: Gen, stmt: StmtNode)
    ensures
        continues(g, g.compile_while(stmt)),
    decreases stmt, 0nat,
{
    broadcast use {
        lemma_grows_on,
        keeps_fresh_label,
        keeps_test_arm,
        keeps_e,
        keeps_e_raw,
        grows_begin_block,
        grows_end_block,
    };

    lemma_grows_from_itself(g);
    match stmt.value {
        Stmt::While(cond, body) => {
            let (g1, head_label) = g.fresh_label();
            let (g2, body_label) = g1.fresh_label();
            let (g3, exit_label) = g2.fresh_label();
            let g4 = g3.e("br label %"@ + head_label).e_raw(head_label + ":"@);
            keeps_compile_expr(g4, cond);
            let (g5, (cond_val, _)) = g4.compile_expr(cond);
            let g6 = g5.test_arm(cond_val, body_label, exit_label);
            keeps_compile_stmts(g6.begin_block(body_label), body@);
        },
        _ => {},
    }
}

#[verifier::rlimit(40)]
proof fn keeps_for(g: Gen, stmt: StmtNode)
    ensures
        continues(g, g.compile_for(stmt)),
    decreases stmt, 0nat,
{
    broadcast use {
        lemma_grows_on,
        keeps_expr_type_str,
        keeps_fresh_label,
        keeps_declare_index,
        keeps_string_loop_head,
        keeps_bind_byte,
        keeps_step_index,
        keeps_range_loop_head,
        keeps_e,
        keeps_e_raw,
        grows_begin_block,
        grows_end_block,
    };

    lemma_grows_from_itself(g);
    match stmt.value {
        Stmt::For(var, iter, body, _) => {
            let (h, iter_ty) = g.expr_type_str(iter);
            if iter_ty == "%yk_string"@ {
                keeps_compile_expr(h, iter);
                let (g1, (str_val, _)) = h.compile_expr(iter);
                let (g2, head_label) = g1.fresh_label();
                let (g3, body_label) = g2.fresh_label();
                let (g4, exit_label) = g3.fresh_label();
                let idx_name = var@ + "_idx"@;
                let (g5, idx_ptr) = g4.declare_index(idx_name);
                let (g6, idx_val) = g5.string_loop_head(
                    str_val,
                    idx_name,
                    idx_ptr,
                    head_label,
                    body_label,
                    exit_label,
                );
                let g7 = g6.begin_block(body_label).bind_byte(var@, str_val, idx_val);
                keeps_compile_stmts(g7, body@);
            } else {
                let (g1, init_label) = h.fresh_label();
                let (g2, cond_label) = g1.fresh_label();
                let (g3, body_label) = g2.fresh_label();
                let (g4, exit_label) = g3.fresh_label();
                keeps_compile_expr(g4, iter);
                let (g5, (end_val, _)) = g4.compile_expr(iter);
                let g6 = g5.e("br label %"@ + init_label).e_raw(init_label + ":"@);
                let (g7, ptr) = g6.declare_index(var@);
                let (g8, v) = g7.range_loop_head(
                    var@,
                    ptr,
                    end_val,
                    cond_label,
                    body_label,
                    exit_label,
                );
                keeps_compile_stmts(g8.begin_block(body_label), body@);
            }
        },
        _ => {},
    }
}

} // verus!
