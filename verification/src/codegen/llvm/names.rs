//! Names, types and argument lists in LLVM text.

use vstd::prelude::*;

use crate::scan::{
    as_identifier, begins, behind, first_word, first_word_of, join, joined, parse_number, parsed, pieces,
    replace_char, replaced, split, starts_with, strip_prefix, texts, to_identifier, trim_start_matches,
    trimmed_start,
};
use crate::table::pairs;
use crate::text::{byte_count, byte_len, cat2, cat3, cat5, dec, dec_text, owned, same, Text};

verus! {

/// `var` with underscores for its dots.
pub open spec fn undotted(var: Text) -> Text {
    replaced(var, '.', "_"@)
}

/// Computes [`undotted`].
pub fn undot(var: &str) -> (r: String)
    ensures
        r@ == undotted(var@),
{
    replace_char(var, '.', "_")
}

/// The stack slot of a variable.
pub open spec fn alloca_name(var: Text) -> Text {
    "%"@ + undotted(var) + ".ptr"@
}

/// Computes [`alloca_name`].
pub fn alloca_of(var: &str) -> (r: String)
    ensures
        r@ == alloca_name(var@),
{
    cat3("%", &undot(var), ".ptr")
}

/// The contents of a string constant: backslashes, line feeds and quotes are escaped.
pub open spec fn constant_text(s: Text) -> Text {
    replaced(replaced(replaced(s, '\\', "\\\\"@), '\n', "\\0A"@), '"', "\\22"@)
}

/// Computes [`constant_text`].
pub fn constant_string(s: &str) -> (r: String)
    ensures
        r@ == constant_text(s@),
{
    replace_char(&replace_char(&replace_char(s, '\\', "\\\\"), '\n', "\\0A"), '"', "\\22")
}

/// How many bytes `s` takes, in decimal.
pub open spec fn size_text(s: Text) -> Text {
    dec(byte_len(s))
}

/// Computes [`size_text`].
pub fn size_string(s: &str) -> (r: String)
    ensures
        r@ == size_text(s@),
{
    dec_text(byte_count(s))
}

/// How many bytes `s` takes with a zero byte behind it, in decimal.
pub open spec fn array_size(s: Text) -> Text {
    dec(byte_len(s) + 1)
}

/// Computes [`array_size`].
pub fn array_size_string(s: &str) -> (r: String)
    ensures
        r@ == array_size(s@),
{
    dec_text(byte_count(s) + 1)
}

/// `ty` is the type of values that can be null.
pub open spec fn nullable(ty: Text) -> bool {
    begins(ty, "%__nullable_"@)
}

/// Computes [`nullable`].
pub fn is_nullable_ty(ty: &str) -> (r: bool)
    ensures
        r == nullable(ty@),
{
    starts_with(ty, "%__nullable_")
}

/// The type of values of `inner` that can be null.
pub open spec fn nullable_name(inner: Text) -> Text {
    "%__nullable_"@ + as_identifier(inner)
}

/// Computes [`nullable_name`].
pub fn nullable_of(inner: &str) -> (r: String)
    ensures
        r@ == nullable_name(inner@),
{
    cat2("%__nullable_", &to_identifier(inner))
}

/// The name of the type behind a nullable type.
pub open spec fn nullable_inner(ty: Text) -> Text {
    trimmed_start(ty, "%__nullable_"@)
}

/// Computes [`nullable_inner`].
pub fn inner_of_nullable(ty: &str) -> (r: String)
    ensures
        r@ == nullable_inner(ty@),
{
    proof {
        reveal_strlit("%__nullable_");
    }
    trim_start_matches(ty, "%__nullable_")
}

/// `ty` is the type of values of a union.
pub open spec fn union_type(ty: Text) -> bool {
    ty == "%yk_variant"@
}

/// Computes [`union_type`].
pub fn is_union_ty(ty: &str) -> (r: bool)
    ensures
        r == union_type(ty@),
{
    same(ty, "%yk_variant")
}

/// The width of an integer type in bits; any other type counts as 64 bits wide.
pub open spec fn width(ty: Text) -> nat {
    if ty == "i8"@ {
        8
    } else if ty == "i16"@ {
        16
    } else if ty == "i32"@ {
        32
    } else {
        64
    }
}

/// Computes [`width`].
pub fn int_width(ty: &str) -> (r: usize)
    ensures
        r as nat == width(ty@),
{
    if same(ty, "i8") {
        8
    } else if same(ty, "i16") {
        16
    } else if same(ty, "i32") {
        32
    } else {
        64
    }
}

/// `kind`, the module where there is one, and a name, with underscores between them.
pub open spec fn scoped_name(kind: Text, module: Text, name: Text) -> Text {
    if module == ""@ {
        kind + "_"@ + name
    } else {
        kind + "_"@ + module + "_"@ + name
    }
}

/// Computes [`scoped_name`].
pub fn scope_name(kind: &str, module: &str, name: &str) -> (r: String)
    ensures
        r@ == scoped_name(kind@, module@, name@),
{
    if same(module, "") {
        cat3(kind, "_", name)
    } else {
        cat5(kind, "_", module, "_", name)
    }
}

/// What follows the prefix `p` of `s`; empty where `s` does not begin with it.
pub open spec fn after_prefix(s: Text, p: Text) -> Text {
    match behind(s, p) {
        Some(rest) => rest,
        None => ""@,
    }
}

/// Computes [`after_prefix`].
pub fn text_after(s: &str, p: &str) -> (r: String)
    ensures
        r@ == after_prefix(s@, p@),
{
    match strip_prefix(s, p) {
        Some(rest) => rest,
        None => owned(""),
    }
}

/// The number behind the first character of an integer type; 1 where there is none.
pub open spec fn int_bits(ty: Text) -> nat {
    match parsed(after_prefix(ty, "i"@), u32::MAX as nat) {
        Some(n) => n,
        None => 1,
    }
}

/// Computes [`int_bits`].
pub fn bits_of(ty: &str) -> (r: usize)
    ensures
        r as nat == int_bits(ty@),
{
    match parse_number(&text_after(ty, "i"), u32::MAX as u64) {
        Some(n) => n as usize,
        None => 1,
    }
}

/// `word` written `n` times, with a comma between each two.
pub open spec fn copies(word: Text, n: nat) -> Text {
    joined(Seq::new(n, |i: int| word), ", "@)
}

/// Computes [`copies`].
pub fn copies_text(word: &str, n: usize) -> (r: String)
    ensures
        r@ == copies(word@, n as nat),
{
    let mut list: Vec<String> = Vec::new();
    let mut i: usize = 0;
    while i < n
        invariant
            i <= n,
            texts(list@) == Seq::new(i as nat, |k: int| word@),
        decreases n - i,
    {
        let ghost before = list@;
        list.push(owned(word));
        assert(texts(list@) == texts(before).push(word@));
        assert(texts(list@) == Seq::new((i + 1) as nat, |k: int| word@));
        i += 1;
    }
    join(&list, ", ")
}

/// `n + 1` in decimal.
pub open spec fn dec_next(n: nat) -> Text {
    dec(n + 1)
}

/// Computes [`dec_next`].
pub fn dec_next_text(n: usize) -> (r: String)
    ensures
        r@ == dec_next(n as nat),
{
    dec_text(n as u128 + 1)
}

/// The position that the name of a tuple field stands for; a name that is no number stands for the
/// first one.
pub open spec fn tuple_index(field: Text) -> nat {
    match parsed(field, usize::MAX as nat) {
        Some(n) => n,
        None => 0,
    }
}

/// Computes [`tuple_index`].
pub fn tuple_position(field: &str) -> (r: usize)
    ensures
        r as nat == tuple_index(field@),
{
    match parse_number(field, usize::MAX as u64) {
        Some(n) => n as usize,
        None => 0,
    }
}

/// The element type at a position of a tuple, whose element types are one text.
pub open spec fn tuple_element(signature: Text, i: nat) -> Text {
    let types = pieces(signature, "||"@);
    if i < types.len() {
        types[i as int]
    } else {
        "i64"@
    }
}

/// Computes [`tuple_element`].
pub fn tuple_element_type(signature: &str, i: usize) -> (r: String)
    ensures
        r@ == tuple_element(signature@, i as nat),
{
    proof {
        reveal_strlit("||");
    }
    let types = split(signature, "||");
    if i < types.len() {
        assert(texts(types@)[i as int] == types@[i as int]@);
        types[i].clone()
    } else {
        owned("i64")
    }
}

// ---------------------------------------------------------------------------------------------
// Argument lists: each argument is a value with its type
// ---------------------------------------------------------------------------------------------
/// The argument at a position.
pub open spec fn arg(args: Seq<(Text, Text)>, i: nat) -> Option<(Text, Text)> {
    if i < args.len() {
        Some(args[i as int])
    } else {
        None
    }
}

/// The argument at `i`, where there is one.
pub fn arg_at<'b>(args: &'b Vec<(String, String)>, i: usize) -> (r: Option<(&'b str, &'b str)>)
    ensures
        match r {
            Some(p) => arg(pairs(args@), i as nat) == Some((p.0@, p.1@)),
            None => arg(pairs(args@), i as nat) is None,
        },
{
    if i < args.len() {
        Some((args[i].0.as_str(), args[i].1.as_str()))
    } else {
        None
    }
}

/// The value of the argument at a position, or `other`.
pub open spec fn arg_value(args: Seq<(Text, Text)>, i: nat, other: Text) -> Text {
    if i < args.len() {
        args[i as int].0
    } else {
        other
    }
}

/// Computes [`arg_value`].
pub fn arg_value_or(args: &Vec<(String, String)>, i: usize, other: &str) -> (r: String)
    ensures
        r@ == arg_value(pairs(args@), i as nat, other@),
{
    if i < args.len() {
        args[i].0.clone()
    } else {
        owned(other)
    }
}

/// Each argument as it stands in a call: its type, a space, its value.
pub open spec fn typed(args: Seq<(Text, Text)>) -> Seq<Text> {
    args.map_values(|a: (Text, Text)| a.1 + " "@ + a.0)
}

/// The types of the arguments.
pub open spec fn types_of(args: Seq<(Text, Text)>) -> Seq<Text> {
    args.map_values(|a: (Text, Text)| a.1)
}

/// The first words of typed arguments, which are their types.
pub open spec fn leading_types(list: Seq<Text>) -> Seq<Text> {
    list.map_values(|a: Text| first_word(a, "i64"@))
}

/// Computes [`typed`].
pub fn typed_list(args: &Vec<(String, String)>) -> (r: Vec<String>)
    ensures
        texts(r@) == typed(pairs(args@)),
{
    let mut r: Vec<String> = Vec::new();
    let mut i: usize = 0;
    while i < args.len()
        invariant
            i <= args@.len(),
            texts(r@) == typed(pairs(args@)).take(i as int),
        decreases args.len() - i,
    {
        let t = cat3(&args[i].1, " ", &args[i].0);
        let ghost before = r@;
        let ghost text = t@;
        r.push(t);
        assert(texts(r@) == texts(before).push(text));
        assert(typed(pairs(args@)).take(i + 1) == typed(pairs(args@)).take(i as int).push(text));
        i += 1;
    }
    assert(typed(pairs(args@)).take(i as int) == typed(pairs(args@)));
    r
}

/// Computes [`types_of`].
pub fn type_list(args: &Vec<(String, String)>) -> (r: Vec<String>)
    ensures
        texts(r@) == types_of(pairs(args@)),
{
    let mut r: Vec<String> = Vec::new();
    let mut i: usize = 0;
    while i < args.len()
        invariant
            i <= args@.len(),
            texts(r@) == types_of(pairs(args@)).take(i as int),
        decreases args.len() - i,
    {
        let t = args[i].1.clone();
        let ghost before = r@;
        let ghost text = t@;
        r.push(t);
        assert(texts(r@) == texts(before).push(text));
        assert(types_of(pairs(args@)).take(i + 1) == types_of(pairs(args@)).take(i as int).push(text));
        i += 1;
    }
    assert(types_of(pairs(args@)).take(i as int) == types_of(pairs(args@)));
    r
}

/// Computes [`leading_types`].
pub fn leading_type_list(list: &Vec<String>) -> (r: Vec<String>)
    ensures
        texts(r@) == leading_types(texts(list@)),
{
    let mut r: Vec<String> = Vec::new();
    let mut i: usize = 0;
    while i < list.len()
        invariant
            i <= list@.len(),
            texts(r@) == leading_types(texts(list@)).take(i as int),
        decreases list.len() - i,
    {
        let t = first_word_of(&list[i], "i64");
        let ghost before = r@;
        let ghost text = t@;
        r.push(t);
        assert(texts(r@) == texts(before).push(text));
        assert(leading_types(texts(list@)).take(i + 1) == leading_types(texts(list@)).take(
            i as int,
        ).push(text));
        i += 1;
    }
    assert(leading_types(texts(list@)).take(i as int) == leading_types(texts(list@)));
    r
}

/// The arguments of a call, without the brackets.
pub open spec fn call_args(args: Seq<(Text, Text)>) -> Text {
    joined(typed(args), ", "@)
}

/// Computes [`call_args`].
pub fn call_arguments(args: &Vec<(String, String)>) -> (r: String)
    ensures
        r@ == call_args(pairs(args@)),
{
    join(&typed_list(args), ", ")
}

/// The argument types of a call, without the brackets.
pub open spec fn call_types(args: Seq<(Text, Text)>) -> Text {
    joined(types_of(args), ", "@)
}

/// Computes [`call_types`].
pub fn call_arg_types(args: &Vec<(String, String)>) -> (r: String)
    ensures
        r@ == call_types(pairs(args@)),
{
    join(&type_list(args), ", ")
}

/// The arguments of a method call: the receiver comes first.
pub open spec fn method_args(receiver: Text, args: Seq<(Text, Text)>) -> Seq<Text> {
    seq!["i64 "@ + receiver] + typed(args)
}

/// Computes [`method_args`].
pub fn method_arg_list(receiver: &str, args: &Vec<(String, String)>) -> (r: Vec<String>)
    ensures
        texts(r@) == method_args(receiver@, pairs(args@)),
{
    let mut r: Vec<String> = Vec::new();
    r.push(cat2("i64 ", receiver));
    let mut more = typed_list(args);
    let ghost first = r@;
    let ghost rest = more@;
    r.append(&mut more);
    assert(texts(r@) == texts(first) + texts(rest));
    assert(texts(first) == seq!["i64 "@ + receiver@]);
    r
}

/// The types of the arguments of a method call: the first word of each.
pub open spec fn method_types(receiver: Text, args: Seq<(Text, Text)>) -> Text {
    joined(leading_types(method_args(receiver, args)), ", "@)
}

/// Computes [`method_types`].
pub fn method_arg_types(receiver: &str, args: &Vec<(String, String)>) -> (r: String)
    ensures
        r@ == method_types(receiver@, pairs(args@)),
{
    join(&leading_type_list(&method_arg_list(receiver, args)), ", ")
}

/// The arguments of a method call as one text.
pub open spec fn method_call_args(receiver: Text, args: Seq<(Text, Text)>) -> Text {
    joined(method_args(receiver, args), ", "@)
}

/// Computes [`method_call_args`].
pub fn method_arguments(receiver: &str, args: &Vec<(String, String)>) -> (r: String)
    ensures
        r@ == method_call_args(receiver@, pairs(args@)),
{
    join(&method_arg_list(receiver, args), ", ")
}

} // verus!
