//! What tells labels, tags, types and constants apart.

use vstd::prelude::*;

use crate::codegen::llvm::handler::{handler_lines, handler_text, is_module_line, static_text};
use crate::codegen::llvm::laws::{
    continues, grows, keeps_define_nullable, keeps_get_variant_tag, keeps_type_to_llvm, lemma_grows_from_itself,
    lemma_grows_on, stays,
};
use crate::codegen::llvm::names::{constant_text, nullable_name};
use crate::codegen::llvm::state::{next_tag, Gen};
use crate::scan::{joined, lemma_dec_reads_back, replaced};
use crate::syntax::ast::{type_text, TypeExpr};
use crate::table::{distinct, has, lemma_put, lemma_slot, lemma_slot_is, lookup, place, put, slot};
use crate::text::{dec, Text};

verus! {

// ---------------------------------------------------------------------------------------------
// Labels
// ---------------------------------------------------------------------------------------------
/// Labels with different numbers are different.
pub proof fn lemma_labels_differ(a: nat, b: nat)
    requires
        a != b,
    ensures
        "yk_"@ + dec(a) != "yk_"@ + dec(b),
{
    lemma_dec_reads_back(a);
    lemma_dec_reads_back(b);
    let x = "yk_"@ + dec(a);
    let y = "yk_"@ + dec(b);
    if x == y {
        assert(x.skip("yk_"@.len() as int) == dec(a));
        assert(y.skip("yk_"@.len() as int) == dec(b));
    }
}

/// Labels that are taken one after the other are all different, and taking them changes nothing but
/// the number of the next one, as long as the counter does not start again.
pub proof fn lemma_fresh_labels_differ(g: Gen, n: nat)
    requires
        g.label_counter + n <= usize::MAX,
    ensures
        g.fresh_labels(n).1.len() == n,
        g.fresh_labels(n).0 == (Gen { label_counter: g.label_counter + n, ..g }),
        forall|i: int|
            0 <= i < n ==> #[trigger] g.fresh_labels(n).1[i] == "yk_"@ + dec(
                (g.label_counter + i) as nat,
            ),
        forall|i: int, j: int|
            0 <= i < j < n ==> #[trigger] g.fresh_labels(n).1[i] != #[trigger] g.fresh_labels(n).1[j],
    decreases n,
{
    reveal(Gen::fresh_label);
    if n > 0 {
        lemma_fresh_labels_differ(g, (n - 1) as nat);
        let before = g.fresh_labels((n - 1) as nat);
        let after = g.fresh_labels(n);
        assert(after.1 == before.1.push(before.0.fresh_label().1));
        assert forall|i: int| 0 <= i < n implies #[trigger] after.1[i] == "yk_"@ + dec(
            (g.label_counter + i) as nat,
        ) by {
            if i < n - 1 {
                assert(after.1[i] == before.1[i]);
            }
        }
        assert forall|i: int, j: int| 0 <= i < j < n implies #[trigger] after.1[i]
            != #[trigger] after.1[j] by {
            lemma_labels_differ((g.label_counter + i) as nat, (g.label_counter + j) as nat);
        }
    } else {
        assert(g.fresh_labels(0).0 == (Gen { label_counter: g.label_counter + 0, ..g }));
    }
}

// ---------------------------------------------------------------------------------------------
// Tags
// ---------------------------------------------------------------------------------------------
/// Every variant has one tag, no two have the same, and all are below the next one to be given.
pub open spec fn tags_are_set(g: Gen) -> bool {
    &&& distinct(g.variant_tags)
    &&& 0 <= g.variant_tag_counter
    &&& forall|i: int|
        0 <= i < g.variant_tags.len() ==> 0 <= (#[trigger] g.variant_tags[i]).1
            < g.variant_tag_counter
    &&& forall|i: int, j: int|
        0 <= i < j < g.variant_tags.len() ==> (#[trigger] g.variant_tags[i]).1 != (
        #[trigger] g.variant_tags[j]).1
}

/// A variant keeps the tag that it was given: asking again gives the same tag and changes nothing,
/// and the other variants keep theirs. Tags stay apart as long as the counter does not start again.
pub proof fn lemma_tags_stay(g: Gen, name: Text)
    requires
        tags_are_set(g),
        g.variant_tag_counter < i64::MAX,
    ensures
        tags_are_set(g.get_variant_tag(name).0),
        g.get_variant_tag(name).0.get_variant_tag(name) == g.get_variant_tag(name),
        g.get_variant_tag(name).0.variant_name_tag(name) == g.get_variant_tag(name).1,
        forall|other: Text|
            other != name ==> #[trigger] g.get_variant_tag(name).0.variant_name_tag(other)
                == g.variant_name_tag(other),
{
    reveal(Gen::get_variant_tag);
    let t = g.variant_tags;
    let c = g.variant_tag_counter;
    let (h, tag) = g.get_variant_tag(name);
    lemma_slot(t, name);
    if slot(t, name) < 0 {
        lemma_put(t, name, c);
        assert(h.variant_tags == t.push((name, c)));
        assert(next_tag(c) == c + 1);
        assert(lookup(h.variant_tags, name) == Some(c));
        assert forall|other: Text| other != name implies #[trigger] h.variant_name_tag(other)
            == g.variant_name_tag(other) by {
            assert(lookup(put(t, name, c), other) == lookup(t, other));
        }
    }
}

/// While functions are compiled, every variant keeps the tag that it was given.
pub proof fn lemma_tags_stay_while_compiling(g: Gen, h: Gen, name: Text)
    requires
        continues(g, h),
        tags_are_set(g),
        has(g.variant_tags, name),
    ensures
        h.variant_name_tag(name) == g.variant_name_tag(name),
{
    reveal(grows);
    let t = g.variant_tags;
    let u = h.variant_tags;
    lemma_slot(t, name);
    lemma_slot(u, name);
    let i = slot(t, name);
    assert(u.take(t.len() as int)[i] == t[i]);
    assert(u[i].0 == name);
    assert forall|j: int| 0 <= j < i implies (#[trigger] u[j]).0 != name by {
        assert(u.take(t.len() as int)[j] == t[j]);
    }
    lemma_slot_is(u, name, i);
}

/// Different variants have different tags.
pub proof fn lemma_tags_differ(g: Gen, a: Text, b: Text)
    requires
        tags_are_set(g),
        a != b,
        has(g.variant_tags, a),
        has(g.variant_tags, b),
    ensures
        g.variant_name_tag(a) != g.variant_name_tag(b),
        g.variant_name_tag(a) >= 0,
{
    lemma_slot(g.variant_tags, a);
    lemma_slot(g.variant_tags, b);
    let i = slot(g.variant_tags, a);
    let j = slot(g.variant_tags, b);
    assert(g.variant_tags[i].0 == a);
    assert(g.variant_tags[j].0 == b);
    if i < j {
        assert(g.variant_tags[i].1 != g.variant_tags[j].1);
    } else {
        assert(g.variant_tags[j].1 != g.variant_tags[i].1);
    }
}

// ---------------------------------------------------------------------------------------------
// Types that are defined where they are new
// ---------------------------------------------------------------------------------------------
/// A tuple type is defined once: asking for it again gives the same name and changes nothing.
pub proof fn lemma_tuple_type_is_defined_once(g: Gen, types: Seq<Text>)
    requires
        distinct(g.tuple_type_names),
    ensures
        ({
            let (h, name) = g.get_or_create_tuple_type(types);
            h.get_or_create_tuple_type(types) == (h, name)
        }),
{
    reveal(Gen::next_tuple);
    reveal(Gen::set_tuple_name);
    reveal(Gen::add_type_line);
    let sig = joined(types, "||"@);
    let name = g.next_tuple().1;
    lemma_put(g.tuple_type_names, sig, name);
}

/// A nullable type is defined once: asking for it again gives the same name and changes nothing.
pub proof fn lemma_nullable_type_is_defined_once(g: Gen, inner: Text)
    ensures
        ({
            let (h, name) = g.define_nullable(inner);
            h.define_nullable(inner) == (h, name) && name == nullable_name(inner)
        }),
{
    reveal(Gen::add_nullable);
    reveal(Gen::add_type_line);
    let name = nullable_name(inner);
    let list = g.nullable_types;
    if place(list, name) < 0 {
        let more = list.push(name);
        assert(more.drop_last() == list);
        assert(place(more, name) == list.len());
    }
}

proof fn lemma_entries_stay(t: Seq<(Text, i64)>, u: Seq<(Text, i64)>, name: Text)
    requires
        stays(t, u),
        lookup(t, name) is Some,
    ensures
        lookup(u, name) is Some,
{
    lemma_slot(t, name);
    lemma_slot(u, name);
    let i = slot(t, name);
    assert(u.take(t.len() as int)[i] == t[i]);
    assert(u[i].0 == name);
}

proof fn lemma_place(list: Seq<Text>, name: Text)
    ensures
        place(list, name) >= 0 <==> list.contains(name),
    decreases list.len(),
{
    if list.len() > 0 {
        let front = list.drop_last();
        lemma_place(front, name);
        if front.contains(name) {
            let i = choose|i: int| 0 <= i < front.len() && front[i] == name;
            assert(list[i] == name);
        }
        if list.contains(name) && list.last() != name {
            let i = choose|i: int| 0 <= i < list.len() && list[i] == name;
            assert(front[i] == name);
        }
        if list.last() == name {
            assert(list[list.len() - 1] == name);
        }
    }
}

proof fn lemma_names_stay(t: Seq<Text>, u: Seq<Text>, name: Text)
    requires
        stays(t, u),
        place(t, name) >= 0,
    ensures
        place(u, name) >= 0,
{
    lemma_place(t, name);
    lemma_place(u, name);
    let i = choose|i: int| 0 <= i < t.len() && t[i] == name;
    assert(u.take(t.len() as int)[i] == t[i]);
    assert(u[i] == name);
}

proof fn lemma_tag_is_given(g: Gen, name: Text)
    ensures
        lookup(g.get_variant_tag(name).0.variant_tags, name) is Some,
{
    reveal(Gen::get_variant_tag);
    let t = g.variant_tags;
    lemma_slot(t, name);
    if lookup(t, name) is None {
        let u = put(t, name, g.variant_tag_counter);
        lemma_slot(u, name);
        assert(u[t.len() as int].0 == name);
    }
}

proof fn lemma_variants_stay_tagged(g: Gen, k: Gen, variants: Seq<TypeExpr>)
    requires
        grows(g.tag_variants(variants), k),
    ensures
        k.tag_variants(variants) == k,
    decreases variants.len(),
{
    broadcast use lemma_grows_on;

    if variants.len() > 0 {
        let front = variants.drop_last();
        let name = type_text(variants.last());
        let h = g.tag_variants(front);
        keeps_get_variant_tag(h, name);
        lemma_variants_stay_tagged(g, k, front);
        lemma_tag_is_given(h, name);
        assert(stays(h.get_variant_tag(name).0.variant_tags, k.variant_tags)) by {
            reveal(grows);
        }
        lemma_entries_stay(h.get_variant_tag(name).0.variant_tags, k.variant_tags, name);
        reveal(Gen::get_variant_tag);
    }
}

/// A type has one name: whatever is compiled in between, asking for it again gives the same text, and
/// defines no further type and gives no further tag.
pub proof fn lemma_type_stays(g: Gen, k: Gen, te: TypeExpr)
    requires
        grows(g.type_to_llvm(te).0, k),
    ensures
        k.type_to_llvm(te) == (k, g.type_to_llvm(te).1),
    decreases te,
{
    broadcast use lemma_grows_on;

    let (h, t) = g.type_to_llvm(te);
    keeps_type_to_llvm(g, te);
    assert(k.struct_defs == g.struct_defs && k.class_defs == g.class_defs && k.interface_methods
        == g.interface_methods && k.object_defs == g.object_defs) by {
        reveal(grows);
    }
    match te {
        TypeExpr::Vector(inner) => lemma_type_stays(g, k, *inner),
        TypeExpr::Matrix(inner) => lemma_type_stays(g, k, *inner),
        TypeExpr::Nullable(inner) => {
            let (g1, t1) = g.type_to_llvm(*inner);
            keeps_define_nullable(g1, t1);
            lemma_type_stays(g, k, *inner);
            lemma_nullable_is_defined(g1, t1);
            assert(stays(h.nullable_types, k.nullable_types)) by {
                reveal(grows);
            }
            lemma_names_stay(h.nullable_types, k.nullable_types, nullable_name(t1));
        },
        TypeExpr::Union(variants) => lemma_variants_stay_tagged(g, k, variants@),
        _ => {},
    }
}

/// Asking for a type twice in a row gives the same text, and the second time changes nothing.
pub proof fn lemma_type_is_defined_once(g: Gen, te: TypeExpr)
    ensures
        ({
            let (h, t) = g.type_to_llvm(te);
            h.type_to_llvm(te) == (h, t)
        }),
{
    lemma_grows_from_itself(g.type_to_llvm(te).0);
    lemma_type_stays(g, g.type_to_llvm(te).0, te);
}

proof fn lemma_nullable_is_defined(g: Gen, inner: Text)
    ensures
        place(g.define_nullable(inner).0.nullable_types, nullable_name(inner)) >= 0,
{
    reveal(Gen::add_nullable);
    reveal(Gen::add_type_line);
    let name = nullable_name(inner);
    if place(g.nullable_types, name) < 0 {
        let more = g.nullable_types.push(name);
        assert(more.drop_last() == g.nullable_types);
        assert(place(more, name) == g.nullable_types.len());
    }
}

// ---------------------------------------------------------------------------------------------
// Constants
// ---------------------------------------------------------------------------------------------
/// Replacing a character leaves only characters of the text, other than that one, and of what
/// replaces it.
pub proof fn lemma_replaced_holds(s: Text, c: char, with: Text, d: char)
    requires
        replaced(s, c, with).contains(d),
    ensures
        (s.contains(d) && d != c) || with.contains(d),
    decreases s.len(),
{
    if s.len() > 0 {
        let front = replaced(s.drop_last(), c, with);
        let all = replaced(s, c, with);
        let k = choose|k: int| 0 <= k < all.len() && all[k] == d;
        if k < front.len() {
            assert(front[k] == d);
            lemma_replaced_holds(s.drop_last(), c, with, d);
            if s.drop_last().contains(d) {
                let j = choose|j: int| 0 <= j < s.drop_last().len() && s.drop_last()[j] == d;
                assert(s[j] == d);
            }
        } else if s.last() == c {
            assert(with[k - front.len()] == d);
        } else {
            assert(s[s.len() - 1] == d);
        }
    } else {
        reveal_strlit("");
    }
}

/// A string constant ends where it should: its text holds no quote and no line feed.
pub proof fn lemma_constant_is_closed(s: Text)
    ensures
        !constant_text(s).contains('"'),
        !constant_text(s).contains('\n'),
{
    reveal_strlit("\\\\");
    reveal_strlit("\\0A");
    reveal_strlit("\\22");
    let a = replaced(s, '\\', "\\\\"@);
    let b = replaced(a, '\n', "\\0A"@);
    if constant_text(s).contains('"') {
        lemma_replaced_holds(b, '"', "\\22"@, '"');
    }
    if constant_text(s).contains('\n') {
        lemma_replaced_holds(b, '"', "\\22"@, '\n');
        lemma_replaced_holds(a, '\n', "\\0A"@, '\n');
    }
}

/// A constant of a handler ends where it should: its text holds no quote and no line break.
pub proof fn lemma_handler_constant_is_closed(s: Text)
    ensures
        !handler_text(s).contains('"'),
        !handler_text(s).contains('\n'),
        !handler_text(s).contains('\r'),
        !static_text(s).contains('"'),
        !static_text(s).contains('\n'),
        !static_text(s).contains('\r'),
        !static_text(s).contains('\t'),
{
    reveal_strlit("\\\\");
    reveal_strlit("\\22");
    reveal_strlit("\\0A");
    reveal_strlit("\\0D");
    reveal_strlit("\\09");
    let a = replaced(s, '\\', "\\\\"@);
    let b = replaced(a, '"', "\\22"@);
    let c = replaced(b, '\n', "\\0A"@);
    let d = handler_text(s);
    if d.contains('"') {
        lemma_replaced_holds(c, '\r', "\\0D"@, '"');
        lemma_replaced_holds(b, '\n', "\\0A"@, '"');
        lemma_replaced_holds(a, '"', "\\22"@, '"');
    }
    if d.contains('\n') {
        lemma_replaced_holds(c, '\r', "\\0D"@, '\n');
        lemma_replaced_holds(b, '\n', "\\0A"@, '\n');
    }
    if d.contains('\r') {
        lemma_replaced_holds(c, '\r', "\\0D"@, '\r');
    }
    if static_text(s).contains('"') {
        lemma_replaced_holds(d, '\t', "\\09"@, '"');
    }
    if static_text(s).contains('\n') {
        lemma_replaced_holds(d, '\t', "\\09"@, '\n');
    }
    if static_text(s).contains('\r') {
        lemma_replaced_holds(d, '\t', "\\09"@, '\r');
    }
    if static_text(s).contains('\t') {
        lemma_replaced_holds(d, '\t', "\\09"@, '\t');
    }
}

// ---------------------------------------------------------------------------------------------
// Handlers inside a module
// ---------------------------------------------------------------------------------------------
/// A handler that stands inside a module has no line that only a module of its own may have.
pub proof fn lemma_embedded_lines_fit(lines: Seq<Text>)
    ensures
        forall|i: int|
            0 <= i < handler_lines(lines).len() ==> !is_module_line(#[trigger] handler_lines(lines)[i]),
    decreases lines.len(),
{
    if lines.len() > 0 {
        lemma_embedded_lines_fit(lines.drop_last());
        let before = handler_lines(lines.drop_last());
        assert forall|i: int| 0 <= i < handler_lines(lines).len() implies !is_module_line(
            #[trigger] handler_lines(lines)[i],
        ) by {
            if i < before.len() {
                assert(handler_lines(lines)[i] == before[i]);
            }
        }
    }
}

} // verus!
