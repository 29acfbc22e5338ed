//! What classes are compiled to: a child has the methods of its parent in the places where the parent has them,
//! and a call of a method reaches the function that the class of the value has for it.

use vstd::prelude::*;

use crate::codegen::llvm::laws::{grows, keeps_type_to_llvm};
use crate::codegen::llvm::module::{interface_entries, method_names, method_symbol, vtable_entries, with_methods};
use crate::codegen::llvm::names::types_of;
use crate::codegen::llvm::state::Gen;
use crate::codegen::llvm::storing::lemma_put_found;
use crate::scan::joined;
use crate::syntax::ast::{ItemKind, ItemNode, MethodSig, Module, Param};
use crate::table::{distinct, has, lemma_put, lemma_slot, lemma_slot_is, lookup, put, slot};
use crate::text::Text;

verus! {

// ---------------------------------------------------------------------------------------------
// What the items say
// ---------------------------------------------------------------------------------------------
/// The methods declare one of that name.
pub open spec fn declares(methods: Seq<ItemKind>, f: Text) -> bool {
    exists|i: int| 0 <= i < methods.len() && is_method(#[trigger] methods[i], f)
}

/// A method of that name.
pub open spec fn is_method(method: ItemKind, f: Text) -> bool {
    match method {
        ItemKind::Fn { name, .. } => name@ == f,
        _ => false,
    }
}

/// The item is a class.
pub open spec fn is_class(item: (&Module, &ItemNode)) -> bool {
    item.1.value is Class
}

/// The name of a class.
pub open spec fn class_name(item: (&Module, &ItemNode)) -> Text {
    item.1.value->Class_name@
}

/// The methods that a class declares.
pub open spec fn class_methods(item: (&Module, &ItemNode)) -> Seq<ItemKind> {
    item.1.value->Class_methods@
}

/// The class extends the other one.
pub open spec fn is_child(item: (&Module, &ItemNode), parent: (&Module, &ItemNode)) -> bool {
    match item.1.value->Class_extends {
        Some(name) => name@ == class_name(parent),
        None => false,
    }
}

/// The function of a method that a class declares.
pub open spec fn own_function(item: (&Module, &ItemNode), f: Text) -> Text {
    method_symbol(item.0.name@, class_name(item), f)
}

/// No two classes have the same name.
pub open spec fn classes_differ(items: Seq<(&Module, &ItemNode)>) -> bool {
    forall|i: int, j: int|
        0 <= i < j < items.len() && is_class(#[trigger] items[i]) && is_class(#[trigger] items[j]) ==> class_name(
            items[i],
        ) != class_name(items[j])
}

// ---------------------------------------------------------------------------------------------
// Method tables
// ---------------------------------------------------------------------------------------------
proof fn lemma_declares_last(methods: Seq<ItemKind>, f: Text)
    requires
        methods.len() > 0,
    ensures
        declares(methods, f) <==> declares(methods.drop_last(), f) || is_method(methods.last(), f),
{
    let before = methods.drop_last();
    if declares(methods, f) {
        let i = choose|i: int| 0 <= i < methods.len() && is_method(#[trigger] methods[i], f);
        if i < before.len() {
            assert(is_method(before[i], f));
        }
    }
    if declares(before, f) {
        let i = choose|i: int| 0 <= i < before.len() && is_method(#[trigger] before[i], f);
        assert(is_method(methods[i], f));
    }
    if is_method(methods.last(), f) {
        assert(is_method(methods[methods.len() - 1], f));
    }
}

/// Adding the methods of a class to a table keeps every method in its place, gives those that the class declares
/// the functions of the class, and puts new ones behind the rest.
proof fn lemma_with_methods(table: Seq<(Text, Text)>, module: Text, class: Text, methods: Seq<ItemKind>)
    requires
        distinct(table),
    ensures
        ({
            let t = with_methods(table, module, class, methods);
            &&& distinct(t)
            &&& t.len() >= table.len()
            &&& forall|j: int|
                0 <= j < table.len() ==> (#[trigger] t[j]).0 == table[j].0 && t[j].1 == (if declares(
                    methods,
                    table[j].0,
                ) {
                    method_symbol(module, class, table[j].0)
                } else {
                    table[j].1
                })
            &&& forall|j: int|
                table.len() <= j < t.len() ==> declares(methods, (#[trigger] t[j]).0) && t[j].1 == method_symbol(
                    module,
                    class,
                    t[j].0,
                )
            &&& forall|f: Text| #[trigger]
                declares(methods, f) ==> lookup(t, f) == Some(method_symbol(module, class, f))
        }),
    decreases methods.len(),
{
    if methods.len() > 0 {
        let before = methods.drop_last();
        lemma_with_methods(table, module, class, before);
        let t0 = with_methods(table, module, class, before);
        let t = with_methods(table, module, class, methods);
        assert forall|f: Text| declares(methods, f) <==> #[trigger] declares(before, f) || is_method(
            methods.last(),
            f,
        ) by {
            lemma_declares_last(methods, f);
        }
        match methods.last() {
            ItemKind::Fn { name, .. } => {
                let symbol = method_symbol(module, class, name@);
                lemma_put(t0, name@, symbol);
                lemma_slot(t0, name@);
                assert(t == put(t0, name@, symbol));
                assert forall|j: int| 0 <= j < table.len() implies (#[trigger] t[j]).0 == table[j].0 && t[j].1 == (
                if declares(methods, table[j].0) {
                    method_symbol(module, class, table[j].0)
                } else {
                    table[j].1
                }) by {
                    assert(t0[j].0 == table[j].0);
                    lemma_declares_last(methods, table[j].0);
                    if table[j].0 == name@ {
                        lemma_found_at(t0, j);
                    }
                }
                assert forall|j: int| table.len() <= j < t.len() implies declares(methods, (#[trigger] t[j]).0)
                    && t[j].1 == method_symbol(module, class, t[j].0) by {
                    lemma_declares_last(methods, t[j].0);
                    if j < t0.len() {
                        assert(declares(before, t0[j].0));
                        assert(t[j].0 == t0[j].0);
                    }
                }
                assert forall|f: Text| #[trigger] declares(methods, f) implies lookup(t, f) == Some(
                    method_symbol(module, class, f),
                ) by {
                    lemma_declares_last(methods, f);
                    if f != name@ {
                        assert(declares(before, f));
                    }
                }
            },
            _ => {
                assert(t == t0);
                assert forall|f: Text| #[trigger] declares(methods, f) implies declares(before, f) by {
                    lemma_declares_last(methods, f);
                }
                assert forall|j: int| 0 <= j < table.len() implies (#[trigger] t[j]).0 == table[j].0 && t[j].1 == (
                if declares(methods, table[j].0) {
                    method_symbol(module, class, table[j].0)
                } else {
                    table[j].1
                }) by {
                    lemma_declares_last(methods, table[j].0);
                }
                assert forall|j: int| table.len() <= j < t.len() implies declares(methods, (#[trigger] t[j]).0)
                    && t[j].1 == method_symbol(module, class, t[j].0) by {
                    lemma_declares_last(methods, t[j].0);
                }
            },
        }
    } else {
        assert forall|f: Text| #[trigger] declares(methods, f) implies false by {
        }
    }
}

proof fn lemma_found_at(t: Seq<(Text, Text)>, j: int)
    requires
        distinct(t),
        0 <= j < t.len(),
    ensures
        slot(t, t[j].0) == j,
{
    assert forall|i: int| 0 <= i < j implies (#[trigger] t[i]).0 != t[j].0 by {
    }
    lemma_slot_is(t, t[j].0, j);
}

/// The table that the items give a class.
pub open spec fn table_of(g: Gen, items: Seq<(&Module, &ItemNode)>, name: Text) -> Option<Seq<(Text, Text)>> {
    lookup(g.clear_vtables().define_vtables(items).class_vtables, name)
}

spec fn tables(g: Gen, items: Seq<(&Module, &ItemNode)>) -> Seq<(Text, Seq<(Text, Text)>)> {
    g.clear_vtables().define_vtables(items).class_vtables
}

/// The tables are kept by the names of classes, and no method stands in one twice.
proof fn lemma_tables(g: Gen, items: Seq<(&Module, &ItemNode)>)
    ensures
        distinct(tables(g, items)),
        forall|i: int|
            0 <= i < tables(g, items).len() ==> distinct((#[trigger] tables(g, items)[i]).1) && exists|k: int|
                0 <= k < items.len() && is_class(#[trigger] items[k]) && class_name(items[k]) == tables(g, items)[i].0,
    decreases items.len(),
{
    reveal(Gen::clear_vtables);
    reveal(Gen::define_vtable);
    if items.len() > 0 {
        let before = items.drop_last();
        lemma_tables(g, before);
        let g0 = g.clear_vtables().define_vtables(before);
        let item = items.last();
        let t0 = tables(g, before);
        let t = tables(g, items);
        match item.1.value {
            ItemKind::Class { name, methods, extends, .. } => {
                let list = with_methods(g0.inherited(extends), item.0.name@, name@, methods@);
                assert(t == put(t0, name@, list));
                lemma_put(t0, name@, list);
                lemma_slot(t0, name@);
                match extends {
                    Some(p) => {
                        lemma_slot(t0, p@);
                        if slot(t0, p@) >= 0 {
                            assert(distinct(t0[slot(t0, p@)].1));
                        }
                    },
                    None => {},
                }
                lemma_with_methods(g0.inherited(extends), item.0.name@, name@, methods@);
                assert forall|i: int| 0 <= i < t.len() implies distinct((#[trigger] t[i]).1) && exists|k: int|
                    0 <= k < items.len() && is_class(#[trigger] items[k]) && class_name(items[k]) == t[i].0 by {
                    if t[i].0 == name@ {
                        assert(is_class(items[items.len() - 1]));
                        if i < t0.len() {
                            lemma_slot(t0, name@);
                            if slot(t0, name@) != i {
                                assert(t[i] == t0[i]);
                                assert(distinct(t0[i].1));
                            }
                        }
                    } else {
                        assert(t[i] == t0[i]);
                        assert(distinct(t0[i].1));
                        let k = choose|k: int|
                            0 <= k < before.len() && is_class(#[trigger] before[k]) && class_name(before[k]) == t0[i].0;
                        assert(is_class(items[k]));
                    }
                }
            },
            _ => {
                assert(t == t0);
                assert forall|i: int| 0 <= i < t.len() implies distinct((#[trigger] t[i]).1) && exists|k: int|
                    0 <= k < items.len() && is_class(#[trigger] items[k]) && class_name(items[k]) == t[i].0 by {
                    assert(distinct(t0[i].1));
                    let k = choose|k: int|
                        0 <= k < before.len() && is_class(#[trigger] before[k]) && class_name(before[k]) == t0[i].0;
                    assert(is_class(items[k]));
                }
            },
        }
    }
}

/// What the items behind a class say does not change its table.
proof fn lemma_table_stays(g: Gen, items: Seq<(&Module, &ItemNode)>, k: int, n: int)
    requires
        0 <= k < n <= items.len(),
        is_class(items[k]),
        classes_differ(items),
    ensures
        table_of(g, items.take(n), class_name(items[k])) == table_of(g, items.take(k + 1), class_name(items[k])),
    decreases n,
{
    reveal(Gen::define_vtable);
    if n > k + 1 {
        lemma_table_stays(g, items, k, n - 1);
        assert(items.take(n).drop_last() == items.take(n - 1));
        let item = items[n - 1];
        assert(items.take(n).last() == item);
        let t0 = tables(g, items.take(n - 1));
        lemma_tables(g, items.take(n - 1));
        match item.1.value {
            ItemKind::Class { name, methods, extends, .. } => {
                assert(is_class(item));
                assert(class_name(items[k]) != class_name(items[n - 1]));
                let g0 = g.clear_vtables().define_vtables(items.take(n - 1));
                lemma_put(t0, name@, with_methods(g0.inherited(extends), item.0.name@, name@, methods@));
            },
            _ => {},
        }
    }
}

/// A class has a table, which begins with what it inherits.
proof fn lemma_table_is(g: Gen, items: Seq<(&Module, &ItemNode)>, k: int)
    requires
        0 <= k < items.len(),
        is_class(items[k]),
        classes_differ(items),
    ensures
        table_of(g, items, class_name(items[k])) == Some(
            with_methods(
                match items[k].1.value->Class_extends {
                    Some(p) => match table_of(g, items.take(k), p@) {
                        Some(list) => list,
                        None => seq![],
                    },
                    None => seq![],
                },
                items[k].0.name@,
                class_name(items[k]),
                class_methods(items[k]),
            ),
        ),
{
    reveal(Gen::define_vtable);
    lemma_table_stays(g, items, k, items.len() as int);
    assert(items.take(items.len() as int) == items);
    assert(items.take(k + 1).drop_last() == items.take(k));
    assert(items.take(k + 1).last() == items[k]);
    lemma_tables(g, items.take(k));
    let g0 = g.clear_vtables().define_vtables(items.take(k));
    lemma_put(
        tables(g, items.take(k)),
        class_name(items[k]),
        with_methods(
            g0.inherited(items[k].1.value->Class_extends),
            items[k].0.name@,
            class_name(items[k]),
            class_methods(items[k]),
        ),
    );
}

/// A child keeps the places of its parent: every method in the table of a class stands in the table of a class
/// that extends it, at the same place. Its function is that of the parent, unless the child declares a method of
/// that name, and then it is the child's own. Behind them stand the further methods that the child declares.
pub proof fn lemma_child_keeps_the_places(g: Gen, items: Seq<(&Module, &ItemNode)>, i: int, k: int)
    requires
        0 <= i < k < items.len(),
        is_class(items[i]),
        is_class(items[k]),
        is_child(items[k], items[i]),
        classes_differ(items),
    ensures
        ({
            let parent = table_of(g, items, class_name(items[i]));
            let child = table_of(g, items, class_name(items[k]));
            &&& parent is Some
            &&& child is Some
            &&& child->0.len() >= parent->0.len()
            &&& forall|j: int|
                0 <= j < parent->0.len() ==> (#[trigger] child->0[j]).0 == parent->0[j].0 && child->0[j].1 == (
                if declares(class_methods(items[k]), parent->0[j].0) {
                    own_function(items[k], parent->0[j].0)
                } else {
                    parent->0[j].1
                })
            &&& forall|j: int|
                parent->0.len() <= j < child->0.len() ==> declares(
                    class_methods(items[k]),
                    (#[trigger] child->0[j]).0,
                ) && child->0[j].1 == own_function(items[k], child->0[j].0)
        }),
{
    lemma_table_is(g, items, i);
    lemma_table_is(g, items, k);
    lemma_table_stays(g, items, i, k);
    lemma_table_stays(g, items, i, items.len() as int);
    assert(items.take(items.len() as int) == items);
    let parent = table_of(g, items, class_name(items[i]))->0;
    lemma_tables(g, items);
    lemma_slot(tables(g, items), class_name(items[i]));
    assert(distinct(tables(g, items)[slot(tables(g, items), class_name(items[i]))].1));
    lemma_with_methods(parent, items[k].0.name@, class_name(items[k]), class_methods(items[k]));
}

/// Every method that a class declares stands in its table, with the function of the class. A class that extends
/// nothing has no other methods.
pub proof fn lemma_class_has_its_methods(g: Gen, items: Seq<(&Module, &ItemNode)>, k: int)
    requires
        0 <= k < items.len(),
        is_class(items[k]),
        classes_differ(items),
    ensures
        ({
            let table = table_of(g, items, class_name(items[k]));
            &&& table is Some
            &&& distinct(table->0)
            &&& forall|f: Text| #[trigger]
                declares(class_methods(items[k]), f) ==> lookup(table->0, f) == Some(own_function(items[k], f))
            &&& items[k].1.value->Class_extends is None ==> forall|j: int|
                0 <= j < table->0.len() ==> declares(class_methods(items[k]), (#[trigger] table->0[j]).0)
        }),
{
    lemma_table_is(g, items, k);
    let inherited = match items[k].1.value->Class_extends {
        Some(p) => match table_of(g, items.take(k), p@) {
            Some(list) => list,
            None => seq![],
        },
        None => seq![],
    };
    lemma_tables(g, items.take(k));
    match items[k].1.value->Class_extends {
        Some(p) => {
            let t = tables(g, items.take(k));
            lemma_slot(t, p@);
            if slot(t, p@) >= 0 {
                assert(distinct(t[slot(t, p@)].1));
            }
        },
        None => {},
    }
    lemma_with_methods(inherited, items[k].0.name@, class_name(items[k]), class_methods(items[k]));
}

// ---------------------------------------------------------------------------------------------
// What is written
// ---------------------------------------------------------------------------------------------
/// A table of addresses of functions, as it is written.
pub open spec fn function_list(functions: Seq<Text>) -> Text {
    joined(Seq::new(functions.len(), |i: int| "ptr @"@ + functions[i]), ", "@)
}

/// The method table of a class is written as the addresses of the functions of its methods, in the order of the
/// table.
pub proof fn lemma_table_is_written(g: Gen, name: Text)
    requires
        g.class_vtable(name) is Some,
        g.class_vtable(name)->0.len() > 0,
    ensures
        ({
            let table = g.class_vtable(name)->0;
            g.write_vtable_of(name).output == g.output + ("@vtable."@ + name + " = global %class."@ + name
                + ".vtable { "@ + function_list(Seq::new(table.len(), |i: int| table[i].1)) + " }"@ + "\n"@)
        }),
{
    reveal(Gen::e_raw);
    let table = g.class_vtable(name)->0;
    let functions = Seq::new(table.len(), |i: int| table[i].1);
    assert(vtable_entries(table) == Seq::new(functions.len(), |i: int| "ptr @"@ + functions[i]));
}

/// A class implements an interface with the functions of its own table: where it has all methods of the interface,
/// the table for the interface holds them in the order of the interface.
pub proof fn lemma_interface_table(wanted: Seq<Text>, methods: Seq<(Text, Text)>)
    requires
        forall|i: int| 0 <= i < wanted.len() ==> has(methods, #[trigger] wanted[i]),
    ensures
        interface_entries(wanted, methods) == Seq::new(
            wanted.len(),
            |i: int| "ptr @"@ + lookup(methods, wanted[i])->0,
        ),
    decreases wanted.len(),
{
    if wanted.len() > 0 {
        let before = wanted.drop_last();
        assert forall|i: int| 0 <= i < before.len() implies has(methods, #[trigger] before[i]) by {
            assert(before[i] == wanted[i]);
        }
        lemma_interface_table(before, methods);
        assert(has(methods, wanted[wanted.len() - 1]));
    }
    assert(interface_entries(wanted, methods) =~= Seq::new(
        wanted.len(),
        |i: int| "ptr @"@ + lookup(methods, wanted[i])->0,
    ));
}

// ---------------------------------------------------------------------------------------------
// Layout
// ---------------------------------------------------------------------------------------------
proof fn lemma_field_names(g: Gen, fields: Seq<Param>)
    ensures
        g.field_types(fields).1.len() == fields.len(),
        forall|i: int| 0 <= i < fields.len() ==> (#[trigger] g.field_types(fields).1[i]).0 == fields[i].name@,
    decreases fields.len(),
{
    if fields.len() > 0 {
        lemma_field_names(g, fields.drop_last());
        assert forall|i: int| 0 <= i < fields.len() implies (#[trigger] g.field_types(fields).1[i]).0
            == fields[i].name@ by {
            if i < fields.len() - 1 {
                assert(g.field_types(fields.drop_last()).1[i].0 == fields.drop_last()[i].name@);
            }
        }
    }
}

/// A class has the parameters of its constructor for its first fields, and its declared fields behind them, in their
/// order.
pub proof fn lemma_class_layout(g: Gen, module: Module, item: ItemNode)
    requires
        item.value is Class,
    ensures
        ({
            let h = g.define_class_item(module, item);
            let fields = h.class_def(item.value->Class_name@);
            let first = item.value->Class_constructor@;
            let rest = item.value->Class_fields@;
            &&& fields is Some
            &&& fields->0.len() == first.len() + rest.len()
            &&& forall|i: int| 0 <= i < first.len() ==> (#[trigger] fields->0[i]).0 == first[i].name@
            &&& forall|i: int|
                first.len() <= i < fields->0.len() ==> (#[trigger] fields->0[i]).0 == rest[i - first.len()].name@
        }),
{
    reveal(Gen::define_class);
    reveal(Gen::set_class_module);
    let name = item.value->Class_name@;
    let first = item.value->Class_constructor@;
    let rest = item.value->Class_fields@;
    let (g1, a) = g.field_types(first);
    let (g2, b) = g1.field_types(rest);
    lemma_field_names(g, first);
    lemma_field_names(g1, rest);
    lemma_put_found(g2.class_defs, name, a + b);
}

/// A struct has its declared fields, in their order.
pub proof fn lemma_struct_layout(g: Gen, module: Module, item: ItemNode)
    requires
        item.value is Struct,
    ensures
        ({
            let h = g.define_struct_item(module, item);
            let fields = h.struct_def(item.value->Struct_name@);
            let declared = item.value->Struct_fields@;
            &&& fields is Some
            &&& fields->0.len() == declared.len()
            &&& forall|i: int| 0 <= i < declared.len() ==> (#[trigger] fields->0[i]).0 == declared[i].name@
        }),
{
    reveal(Gen::define_struct);
    reveal(Gen::e_raw);
    let declared = item.value->Struct_fields@;
    let (g1, a) = g.field_types(declared);
    lemma_field_names(g, declared);
    lemma_put_found(g1.struct_defs, item.value->Struct_name@, a);
}

/// The type of a class is written with the place of the method table first and the types of its fields behind it, in
/// their order.
pub proof fn lemma_class_type_is_written(g: Gen, name: Text)
    requires
        g.class_def(name) is Some,
    ensures
        ({
            let fields = g.class_def(name)->0;
            g.write_class(name).output == g.output + ("%class."@ + name + " = type { "@ + joined(
                Seq::new(
                    fields.len() + 1,
                    |i: int|
                        if i == 0 {
                            "i64"@
                        } else {
                            fields[i - 1].1
                        },
                ),
                ", "@,
            ) + " }"@ + "\n"@)
        }),
{
    reveal(Gen::e_raw);
    let fields = g.class_def(name)->0;
    assert(seq!["i64"@] + types_of(fields) == Seq::new(
        fields.len() + 1,
        |i: int|
            if i == 0 {
                "i64"@
            } else {
                fields[i - 1].1
            },
    ));
}

proof fn lemma_rets_keep(g: Gen, name: Text, methods: Seq<MethodSig>)
    ensures
        g.interface_rets(name, methods).interface_methods == g.interface_methods,
    decreases methods.len(),
{
    if methods.len() > 0 {
        lemma_rets_keep(g, name, methods.drop_last());
        let h = g.interface_rets(name, methods.drop_last());
        reveal(Gen::set_interface_method_ret);
        match methods.last().ret_type {
            Some(t) => {
                keeps_type_to_llvm(h, t.value);
                reveal(grows);
            },
            None => {},
        }
    }
}

/// An interface has its methods in the order in which they are declared.
pub proof fn lemma_interface_layout(g: Gen, module: Module, item: ItemNode)
    requires
        item.value is Interface,
    ensures
        ({
            let h = g.define_interface_item(module, item);
            let methods = item.value->Interface_methods@;
            h.interface_def(item.value->Interface_name@) == Some(Seq::new(methods.len(), |i: int| methods[i].name@))
        }),
{
    reveal(Gen::define_interface);
    let name = item.value->Interface_name@;
    let methods = item.value->Interface_methods@;
    let list = Seq::new(methods.len(), |i: int| methods[i].name@);
    assert(method_names(methods) == list);
    lemma_put_found(g.interface_methods, name, list);
    lemma_rets_keep(g.define_interface(name, list), name, methods);
}

/// A class that names an interface is among the classes that implement it.
pub proof fn lemma_implements(g: Gen, class: Text, ifaces: Seq<Text>, i: int)
    requires
        0 <= i < ifaces.len(),
    ensures
        ({
            let list = g.add_impls(class, ifaces).class_impls_of(ifaces[i]);
            list is Some && list->0.contains(class)
        }),
    decreases ifaces.len(),
{
    reveal(Gen::set_class_impls);
    let before = ifaces.drop_last();
    let h = g.add_impls(class, before);
    let last = ifaces.last();
    let list = match h.class_impls_of(last) {
        Some(l) => l,
        None => seq![],
    };
    let k = g.add_impls(class, ifaces);
    lemma_put_found(h.class_impls, last, list.push(class));
    assert(list.push(class).last() == class);
    assert(list.push(class)[list.len() as int] == class);
    if ifaces[i] != last {
        lemma_implements(g, class, before, i);
        assert(before[i] == ifaces[i]);
        lemma_other_key(h.class_impls, last, list.push(class), ifaces[i]);
    }
}

proof fn lemma_other_key<V>(t: Seq<(Text, V)>, k: Text, v: V, other: Text)
    requires
        other != k,
    ensures
        lookup(put(t, k, v), other) == lookup(t, other),
{
    let u = put(t, k, v);
    lemma_slot(t, k);
    lemma_slot(t, other);
    lemma_slot(u, other);
    let a = slot(t, other);
    let b = slot(u, other);
    if a >= 0 {
        assert(u[a] == t[a]);
        assert forall|j: int| 0 <= j < a implies (#[trigger] u[j]).0 != other by {
            assert(t[j].0 != other);
        }
        lemma_slot_is(u, other, a);
    } else if b >= 0 {
        if b < t.len() && b != slot(t, k) {
            assert(t[b].0 != other);
        }
    }
}

} // verus!
