//! The state of the LLVM generator, its mathematical model, and the primitive steps on it.
//!
//! [`Gen`] is the model. Every primitive of [`LlvmCodegen`] has a spec function of the same name on
//! [`Gen`], and says that it takes the model of the state before to the model of the state after.

use vstd::prelude::*;

use crate::codegen::llvm::reply::COPY_DECLARATION;
use crate::scan::{opt_text, texts};
use crate::syntax::ast::{ExprNode, Param, StmtNode, TypeExpr, TypeNode};
use crate::table::{
    has, keys_of, lookup, lookup2, lookup_or, place, put, put2, slot, with_name, Names, Pairs, Table,
};
use crate::text::{bump, bumped, cat2, cat3, dec, dec_text, owned, repeat_text, repeated, same, Text};

verus! {

// ---------------------------------------------------------------------------------------------
// The model
// ---------------------------------------------------------------------------------------------
/// An anonymous function that is still to be written.
pub struct DeferredFn {
    pub name: Text,
    pub params: Seq<Param>,
    pub ret: Option<TypeNode>,
    pub body: ExprNode,
}

/// A thread entry point that is still to be written.
pub struct SpawnedExpr {
    pub name: Text,
    pub body: ExprNode,
}

/// The state of the generator.
pub struct Gen {
    /// The module text written so far.
    pub output: Text,
    /// How deep the next line is indented.
    pub indent: nat,
    /// The number of the next label.
    pub label_counter: nat,
    /// The definitions of the string constants, which follow the functions.
    pub string_constants: Text,
    /// The LLVM type of each variable in scope.
    pub var_types: Seq<(Text, Text)>,
    /// The stack slot of each variable in scope.
    pub var_alloca: Seq<(Text, Text)>,
    /// The fields of each struct, with their types.
    pub struct_defs: Seq<(Text, Seq<(Text, Text)>)>,
    /// The fields of each class, with their types; the constructor's parameters come first.
    pub class_defs: Seq<(Text, Seq<(Text, Text)>)>,
    /// The methods of each class, with the functions that implement them.
    pub class_vtables: Seq<(Text, Seq<(Text, Text)>)>,
    /// The return type of each method of each class.
    pub class_method_ret_types: Seq<(Text, Seq<(Text, Text)>)>,
    /// The name of the tuple type for each list of element types.
    pub tuple_type_names: Seq<(Text, Text)>,
    /// The type definitions that are to stand at the head of the module.
    pub tuple_types_output: Seq<Text>,
    /// The number of the next tuple type.
    pub tuple_counter: nat,
    /// The nullable types that are defined.
    pub nullable_types: Seq<Text>,
    /// The tag of each variant.
    pub variant_tags: Seq<(Text, i64)>,
    /// The tag of the next variant.
    pub variant_tag_counter: i64,
    /// The variants of each variable of a union type.
    pub var_union_variants: Seq<(Text, Seq<TypeExpr>)>,
    /// The anonymous functions that are still to be written.
    pub deferred_fns: Seq<DeferredFn>,
    /// The number of the next anonymous function.
    pub closure_counter: nat,
    /// The thread entry points that are still to be written.
    pub spawn_wrappers: Seq<SpawnedExpr>,
    /// The number of the next thread entry point.
    pub spawn_counter: nat,
    /// The linker name of each function.
    pub fn_name_map: Seq<(Text, Text)>,
    /// The module whose functions are being written.
    pub current_module: Text,
    /// The names that are imported from another language.
    pub ffi_modules: Seq<Text>,
    /// The foreign functions that are declared.
    pub ffi_decls: Seq<Text>,
    /// The return type of the function that is being written.
    pub current_fn_ret: Text,
    /// The return type of each function.
    pub fn_ret_types: Seq<(Text, Text)>,
    /// The parameter types of each function.
    pub fn_param_types: Seq<(Text, Seq<Text>)>,
    /// The declared parameters of each function.
    pub fn_params: Seq<(Text, Seq<Param>)>,
    /// The request handlers, which follow the functions.
    pub handler_irs: Seq<Text>,
    /// The body of each function that can be a request handler.
    pub fn_bodies: Seq<(Text, Seq<StmtNode>)>,
    /// The methods of each interface.
    pub interface_methods: Seq<(Text, Seq<Text>)>,
    /// The return type of each method of each interface.
    pub interface_method_ret_types: Seq<(Text, Seq<(Text, Text)>)>,
    /// The classes that implement each interface.
    pub class_impls: Seq<(Text, Seq<Text>)>,
    /// The module of each class.
    pub class_modules: Seq<(Text, Text)>,
    /// The fields of each object, with their types.
    pub object_defs: Seq<(Text, Seq<(Text, Text)>)>,
    /// The return type of each method of each object.
    pub object_method_ret_types: Seq<(Text, Seq<(Text, Text)>)>,
    /// The methods of objects that take the object itself.
    pub object_method_has_self: Seq<(Text, Seq<(Text, Text)>)>,
    /// The module of each object.
    pub object_modules: Seq<(Text, Text)>,
    /// The variables that hold an HTTP client.
    pub http_vars: Seq<Text>,
}

/// The state before anything is generated.
pub open spec fn fresh_gen() -> Gen {
    Gen {
        output: ""@,
        indent: 0,
        label_counter: 0,
        string_constants: ""@,
        var_types: seq![],
        var_alloca: seq![],
        struct_defs: seq![],
        class_defs: seq![],
        class_vtables: seq![],
        class_method_ret_types: seq![],
        tuple_type_names: seq![],
        tuple_types_output: seq![],
        tuple_counter: 0,
        nullable_types: seq![],
        variant_tags: seq![],
        variant_tag_counter: 0,
        var_union_variants: seq![],
        deferred_fns: seq![],
        closure_counter: 0,
        spawn_wrappers: seq![],
        spawn_counter: 0,
        fn_name_map: seq![],
        current_module: ""@,
        ffi_modules: seq![],
        ffi_decls: seq![],
        current_fn_ret: "void"@,
        fn_ret_types: seq![],
        fn_param_types: seq![],
        fn_params: seq![],
        handler_irs: seq![],
        fn_bodies: seq![],
        interface_methods: seq![],
        interface_method_ret_types: seq![],
        class_impls: seq![],
        class_modules: seq![],
        object_defs: seq![],
        object_method_ret_types: seq![],
        object_method_has_self: seq![],
        object_modules: seq![],
        http_vars: seq![],
    }
}

impl Gen {
    /// Writes a line at the current depth.
    #[verifier::opaque]
    pub open spec fn e(self, s: Text) -> Gen {
        Gen { output: self.output + (repeated("  "@, self.indent) + s + "\n"@), ..self }
    }

    /// Writes a line at the left margin.
    #[verifier::opaque]
    pub open spec fn e_raw(self, s: Text) -> Gen {
        Gen { output: self.output + (s + "\n"@), ..self }
    }

    /// Writes text as it is.
    #[verifier::opaque]
    pub open spec fn paste(self, s: Text) -> Gen {
        Gen { output: self.output + s, ..self }
    }

    /// Takes the next label.
    #[verifier::opaque]
    pub open spec fn fresh_label(self) -> (Gen, Text) {
        (Gen { label_counter: bumped(self.label_counter), ..self }, "yk_"@ + dec(self.label_counter))
    }

    /// Takes the next number.
    #[verifier::opaque]
    pub open spec fn next_number(self) -> (Gen, Text) {
        (Gen { label_counter: bumped(self.label_counter), ..self }, ""@ + dec(self.label_counter))
    }

    /// Takes the next name of an anonymous function.
    #[verifier::opaque]
    pub open spec fn next_closure(self) -> (Gen, Text) {
        (Gen { closure_counter: bumped(self.closure_counter), ..self }, "__closure_"@ + dec(self.closure_counter))
    }

    /// Takes the next name of a thread entry point.
    #[verifier::opaque]
    pub open spec fn next_spawn(self) -> (Gen, Text) {
        (Gen { spawn_counter: bumped(self.spawn_counter), ..self }, "__spawn_wrapper_"@ + dec(self.spawn_counter))
    }

    /// Takes the next name of a tuple type.
    #[verifier::opaque]
    pub open spec fn next_tuple(self) -> (Gen, Text) {
        (Gen { tuple_counter: bumped(self.tuple_counter), ..self }, "%struct.__yk_t"@ + dec(self.tuple_counter))
    }

    /// Goes to the depth `n`.
    #[verifier::opaque]
    pub open spec fn set_indent(self, n: nat) -> Gen {
        Gen { indent: n, ..self }
    }

    /// The current depth.
    pub open spec fn depth(self) -> nat {
        self.indent
    }

    /// One level deeper than the current depth.
    pub open spec fn deeper(self) -> nat {
        bumped(self.indent)
    }

    /// Writes a line of the string constants.
    #[verifier::opaque]
    pub open spec fn add_string(self, s: Text) -> Gen {
        Gen { string_constants: self.string_constants + (s + "\n"@), ..self }
    }

    /// Gives a variable its type.
    #[verifier::opaque]
    pub open spec fn set_var_type(self, k: Text, v: Text) -> Gen {
        Gen { var_types: put(self.var_types, k, v), ..self }
    }

    /// Gives a variable its stack slot.
    #[verifier::opaque]
    pub open spec fn set_var_alloca(self, k: Text, v: Text) -> Gen {
        Gen { var_alloca: put(self.var_alloca, k, v), ..self }
    }

    /// The type of a variable; one that is not in scope is an integer.
    pub open spec fn val_ty(self, k: Text) -> Text {
        lookup_or(self.var_types, k, "i64"@)
    }

    /// The stack slot of a variable.
    pub open spec fn var_slot(self, k: Text) -> Option<Text> {
        lookup(self.var_alloca, k)
    }

    /// Whether there is a struct of that name.
    pub open spec fn has_struct(self, k: Text) -> bool {
        has(self.struct_defs, k)
    }

    /// Whether there is a class of that name.
    pub open spec fn has_class(self, k: Text) -> bool {
        has(self.class_defs, k)
    }

    /// Whether there is an interface of that name.
    pub open spec fn has_interface(self, k: Text) -> bool {
        has(self.interface_methods, k)
    }

    /// Whether there is an object of that name.
    pub open spec fn has_object(self, k: Text) -> bool {
        has(self.object_defs, k)
    }

    /// Defines a struct.
    #[verifier::opaque]
    pub open spec fn define_struct(self, k: Text, v: Seq<(Text, Text)>) -> Gen {
        Gen { struct_defs: put(self.struct_defs, k, v), ..self }
    }

    /// Defines a class.
    #[verifier::opaque]
    pub open spec fn define_class(self, k: Text, v: Seq<(Text, Text)>) -> Gen {
        Gen { class_defs: put(self.class_defs, k, v), ..self }
    }

    /// Defines the method table of a class.
    #[verifier::opaque]
    pub open spec fn define_vtable(self, k: Text, v: Seq<(Text, Text)>) -> Gen {
        Gen { class_vtables: put(self.class_vtables, k, v), ..self }
    }

    /// Defines an object.
    #[verifier::opaque]
    pub open spec fn define_object(self, k: Text, v: Seq<(Text, Text)>) -> Gen {
        Gen { object_defs: put(self.object_defs, k, v), ..self }
    }

    /// Forgets the method tables.
    #[verifier::opaque]
    pub open spec fn clear_vtables(self) -> Gen {
        Gen { class_vtables: seq![], ..self }
    }

    /// The fields of a struct.
    pub open spec fn struct_def(self, k: Text) -> Option<Seq<(Text, Text)>> {
        lookup(self.struct_defs, k)
    }

    /// The fields of a class.
    pub open spec fn class_def(self, k: Text) -> Option<Seq<(Text, Text)>> {
        lookup(self.class_defs, k)
    }

    /// The method table of a class.
    pub open spec fn class_vtable(self, k: Text) -> Option<Seq<(Text, Text)>> {
        lookup(self.class_vtables, k)
    }

    /// The fields of an object.
    pub open spec fn object_def(self, k: Text) -> Option<Seq<(Text, Text)>> {
        lookup(self.object_defs, k)
    }

    /// Records what a method of a class returns.
    #[verifier::opaque]
    pub open spec fn set_class_method_ret(self, a: Text, b: Text, v: Text) -> Gen {
        Gen { class_method_ret_types: put2(self.class_method_ret_types, a, b, v), ..self }
    }

    /// What a method of a class returns.
    pub open spec fn class_method_ret(self, a: Text, b: Text) -> Text {
        match lookup2(self.class_method_ret_types, a, b) {
            Some(v) => v,
            None => "i64"@,
        }
    }

    /// Records what a method of an interface returns.
    #[verifier::opaque]
    pub open spec fn set_interface_method_ret(self, a: Text, b: Text, v: Text) -> Gen {
        Gen { interface_method_ret_types: put2(self.interface_method_ret_types, a, b, v), ..self }
    }

    /// What a method of an interface returns.
    pub open spec fn interface_method_ret(self, a: Text, b: Text) -> Text {
        match lookup2(self.interface_method_ret_types, a, b) {
            Some(v) => v,
            None => "i64"@,
        }
    }

    /// Records what a method of an object returns.
    #[verifier::opaque]
    pub open spec fn set_object_method_ret(self, a: Text, b: Text, v: Text) -> Gen {
        Gen { object_method_ret_types: put2(self.object_method_ret_types, a, b, v), ..self }
    }

    /// What a method of an object returns.
    pub open spec fn object_method_ret(self, a: Text, b: Text) -> Text {
        match lookup2(self.object_method_ret_types, a, b) {
            Some(v) => v,
            None => "i64"@,
        }
    }

    /// Records that a method of an object takes the object itself.
    #[verifier::opaque]
    pub open spec fn set_object_method_self(self, a: Text, b: Text) -> Gen {
        Gen { object_method_has_self: put2(self.object_method_has_self, a, b, ""@), ..self }
    }

    /// Whether a method of an object takes the object itself.
    pub open spec fn object_method_self(self, a: Text, b: Text) -> bool {
        lookup2(self.object_method_has_self, a, b) is Some
    }

    /// Names the tuple type of a list of element types.
    #[verifier::opaque]
    pub open spec fn set_tuple_name(self, k: Text, v: Text) -> Gen {
        Gen { tuple_type_names: put(self.tuple_type_names, k, v), ..self }
    }

    /// The tuple type of a list of element types.
    pub open spec fn tuple_name(self, k: Text) -> Option<Text> {
        lookup(self.tuple_type_names, k)
    }

    /// Adds a type definition to the head of the module.
    #[verifier::opaque]
    pub open spec fn add_type_line(self, v: Text) -> Gen {
        Gen { tuple_types_output: self.tuple_types_output.push(v), ..self }
    }

    /// Whether a nullable type is defined.
    pub open spec fn has_nullable(self, v: Text) -> bool {
        place(self.nullable_types, v) >= 0
    }

    /// Records that a nullable type is defined.
    #[verifier::opaque]
    pub open spec fn add_nullable(self, v: Text) -> Gen {
        Gen { nullable_types: with_name(self.nullable_types, v), ..self }
    }

    /// Gives a function its linker name.
    #[verifier::opaque]
    pub open spec fn set_fn_name(self, k: Text, v: Text) -> Gen {
        Gen { fn_name_map: put(self.fn_name_map, k, v), ..self }
    }

    /// The linker name of a function.
    pub open spec fn fn_name(self, k: Text) -> Option<Text> {
        lookup(self.fn_name_map, k)
    }

    /// Goes on to a module.
    #[verifier::opaque]
    pub open spec fn set_module(self, v: Text) -> Gen {
        Gen { current_module: v, ..self }
    }

    /// Records a name that comes from another language.
    #[verifier::opaque]
    pub open spec fn add_ffi_module(self, v: Text) -> Gen {
        Gen { ffi_modules: with_name(self.ffi_modules, v), ..self }
    }

    /// Whether a name comes from another language.
    pub open spec fn has_ffi_module(self, v: Text) -> bool {
        place(self.ffi_modules, v) >= 0
    }

    /// Records that a foreign function is declared.
    #[verifier::opaque]
    pub open spec fn add_ffi_decl(self, v: Text) -> Gen {
        Gen { ffi_decls: with_name(self.ffi_decls, v), ..self }
    }

    /// Whether a foreign function is declared.
    pub open spec fn has_ffi_decl(self, v: Text) -> bool {
        place(self.ffi_decls, v) >= 0
    }

    /// Goes on to a function that returns `v`.
    #[verifier::opaque]
    pub open spec fn set_fn_ret(self, v: Text) -> Gen {
        Gen { current_fn_ret: v, ..self }
    }

    /// Records what a function returns.
    #[verifier::opaque]
    pub open spec fn set_fn_ret_type(self, k: Text, v: Text) -> Gen {
        Gen { fn_ret_types: put(self.fn_ret_types, k, v), ..self }
    }

    /// What a function returns; one that is not known returns an integer.
    pub open spec fn fn_ret_type(self, k: Text) -> Text {
        lookup_or(self.fn_ret_types, k, "i64"@)
    }

    /// Records the parameter types of a function.
    #[verifier::opaque]
    pub open spec fn set_fn_param_types(self, k: Text, v: Seq<Text>) -> Gen {
        Gen { fn_param_types: put(self.fn_param_types, k, v), ..self }
    }

    /// The parameter types of a function.
    pub open spec fn fn_param_types_of(self, k: Text) -> Option<Seq<Text>> {
        lookup(self.fn_param_types, k)
    }

    /// Adds a request handler.
    #[verifier::opaque]
    pub open spec fn add_handler(self, v: Text) -> Gen {
        Gen { handler_irs: self.handler_irs.push(v), ..self }
    }

    /// Defines an interface.
    #[verifier::opaque]
    pub open spec fn define_interface(self, k: Text, v: Seq<Text>) -> Gen {
        Gen { interface_methods: put(self.interface_methods, k, v), ..self }
    }

    /// The methods of an interface.
    pub open spec fn interface_def(self, k: Text) -> Option<Seq<Text>> {
        lookup(self.interface_methods, k)
    }

    /// Records the classes that implement an interface.
    #[verifier::opaque]
    pub open spec fn set_class_impls(self, k: Text, v: Seq<Text>) -> Gen {
        Gen { class_impls: put(self.class_impls, k, v), ..self }
    }

    /// The classes that implement an interface.
    pub open spec fn class_impls_of(self, k: Text) -> Option<Seq<Text>> {
        lookup(self.class_impls, k)
    }

    /// Records the module of a class.
    #[verifier::opaque]
    pub open spec fn set_class_module(self, k: Text, v: Text) -> Gen {
        Gen { class_modules: put(self.class_modules, k, v), ..self }
    }

    /// The module of a class.
    pub open spec fn class_module(self, k: Text) -> Text {
        lookup_or(self.class_modules, k, ""@)
    }

    /// Records the module of an object.
    #[verifier::opaque]
    pub open spec fn set_object_module(self, k: Text, v: Text) -> Gen {
        Gen { object_modules: put(self.object_modules, k, v), ..self }
    }

    /// The module of an object.
    pub open spec fn object_module(self, k: Text) -> Text {
        lookup_or(self.object_modules, k, ""@)
    }

    /// Records that a variable holds an HTTP client.
    #[verifier::opaque]
    pub open spec fn add_http_var(self, v: Text) -> Gen {
        Gen { http_vars: with_name(self.http_vars, v), ..self }
    }

    /// Whether a variable holds an HTTP client.
    pub open spec fn has_http_var(self, v: Text) -> bool {
        place(self.http_vars, v) >= 0
    }

    /// The classes, in the order in which they came.
    pub open spec fn class_names(self) -> Seq<Text> {
        keys_of(self.class_defs)
    }

    /// The classes with a method table, in the order in which they came.
    pub open spec fn vtable_names(self) -> Seq<Text> {
        keys_of(self.class_vtables)
    }

    /// The interfaces, in the order in which they came.
    pub open spec fn interface_names(self) -> Seq<Text> {
        keys_of(self.interface_methods)
    }

    /// The objects, in the order in which they came.
    pub open spec fn object_names(self) -> Seq<Text> {
        keys_of(self.object_defs)
    }

    /// The return type of the function that is being written.
    pub open spec fn fn_ret(self) -> Text {
        self.current_fn_ret
    }

    /// The module whose functions are being written.
    pub open spec fn module_name(self) -> Text {
        self.current_module
    }

    /// The tag of a variant; -1 where the variant has none.
    pub open spec fn variant_name_tag(self, name: Text) -> i64 {
        lookup_or(self.variant_tags, name, -1i64)
    }

    /// The tag of a variant, which gets the next one where it has none.
    #[verifier::opaque]
    pub open spec fn get_variant_tag(self, name: Text) -> (Gen, i64) {
        match lookup(self.variant_tags, name) {
            Some(tag) => (self, tag),
            None => (
                Gen {
                    variant_tags: put(self.variant_tags, name, self.variant_tag_counter),
                    variant_tag_counter: next_tag(self.variant_tag_counter),
                    ..self
                },
                self.variant_tag_counter,
            ),
        }
    }

    /// The element types, as one text, of a tuple type.
    pub open spec fn tuple_signature(self, ty: Text) -> Option<Text> {
        key_for(self.tuple_type_names, ty)
    }

    /// The position and the type of a field of a struct.
    pub open spec fn struct_field(self, name: Text, field: Text) -> Option<(nat, Text)> {
        field_in(lookup(self.struct_defs, name), field)
    }

    /// The position and the type of a field of a class.
    pub open spec fn class_field(self, name: Text, field: Text) -> Option<(nat, Text)> {
        field_in(lookup(self.class_defs, name), field)
    }

    /// The position and the type of a field of an object.
    pub open spec fn object_field(self, name: Text, field: Text) -> Option<(nat, Text)> {
        field_in(lookup(self.object_defs, name), field)
    }

    /// The position and the function of a method of a class.
    pub open spec fn class_method(self, name: Text, method: Text) -> Option<(nat, Text)> {
        field_in(lookup(self.class_vtables, name), method)
    }

    /// The position of a method of an interface.
    pub open spec fn interface_method(self, name: Text, method: Text) -> Option<nat> {
        match lookup(self.interface_methods, name) {
            Some(list) => if place(list, method) >= 0 {
                Some(place(list, method) as nat)
            } else {
                None
            },
            None => None,
        }
    }

    /// The variants of a variable of a union type.
    pub open spec fn union_of(self, name: Text) -> Option<Seq<TypeExpr>> {
        lookup(self.var_union_variants, name)
    }

    /// Records the variants of a variable of a union type.
    #[verifier::opaque]
    pub open spec fn set_union(self, name: Text, variants: Seq<TypeExpr>) -> Gen {
        Gen { var_union_variants: put(self.var_union_variants, name, variants), ..self }
    }

    /// The declared parameters of a function.
    pub open spec fn params_of(self, name: Text) -> Option<Seq<Param>> {
        lookup(self.fn_params, name)
    }

    /// Records the declared parameters of a function.
    #[verifier::opaque]
    pub open spec fn set_params(self, name: Text, params: Seq<Param>) -> Gen {
        Gen { fn_params: put(self.fn_params, name, params), ..self }
    }

    /// The body of a function that can be a request handler.
    pub open spec fn body_of(self, name: Text) -> Option<Seq<StmtNode>> {
        lookup(self.fn_bodies, name)
    }

    /// Records the body of a function that can be a request handler.
    #[verifier::opaque]
    pub open spec fn set_body(self, name: Text, body: Seq<StmtNode>) -> Gen {
        Gen { fn_bodies: put(self.fn_bodies, name, body), ..self }
    }

    /// Puts an anonymous function off.
    #[verifier::opaque]
    pub open spec fn defer(
        self,
        name: Text,
        params: Seq<Param>,
        ret: Option<TypeNode>,
        body: ExprNode,
    ) -> Gen {
        Gen { deferred_fns: self.deferred_fns.push(DeferredFn { name, params, ret, body }), ..self }
    }

    /// Puts a thread entry point off.
    #[verifier::opaque]
    pub open spec fn defer_spawn(self, name: Text, body: ExprNode) -> Gen {
        Gen { spawn_wrappers: self.spawn_wrappers.push(SpawnedExpr { name, body }), ..self }
    }

    /// Takes the anonymous functions that were put off.
    #[verifier::opaque]
    pub open spec fn take_deferred(self) -> (Gen, Seq<DeferredFn>) {
        (Gen { deferred_fns: seq![], ..self }, self.deferred_fns)
    }

    /// Takes the thread entry points that were put off.
    #[verifier::opaque]
    pub open spec fn take_spawned(self) -> (Gen, Seq<SpawnedExpr>) {
        (Gen { spawn_wrappers: seq![], ..self }, self.spawn_wrappers)
    }

    /// Goes back to the variables of an outer scope.
    #[verifier::opaque]
    pub open spec fn restore(self, types: Seq<(Text, Text)>, slots: Seq<(Text, Text)>) -> Gen {
        Gen { var_types: types, var_alloca: slots, ..self }
    }

    /// Takes the module text, with the string constants behind it.
    #[verifier::opaque]
    pub open spec fn take_output(self) -> (Gen, Text) {
        (Gen { output: ""@, ..self }, self.output + self.string_constants)
    }

    /// Takes the type definitions that belong to the head of the module.
    #[verifier::opaque]
    pub open spec fn take_type_lines(self) -> (Gen, Seq<Text>) {
        (Gen { tuple_types_output: seq![], ..self }, self.tuple_types_output)
    }

    /// Writes the request handlers behind the functions.
    #[verifier::opaque]
    pub open spec fn paste_handlers(self) -> Gen {
        Gen { output: self.output + handlers_text(self.handler_irs), ..self }
    }
}

/// Request handlers as they stand in a module: one declaration of what they copy with, and each of
/// them. Nothing where there is none.
pub open spec fn handlers_text(handlers: Seq<Text>) -> Text {
    if handlers.len() == 0 {
        ""@
    } else {
        COPY_DECLARATION@ + "\n\n"@ + lines_text(handlers)
    }
}

/// The first key of `t` that has the value `v`.
pub open spec fn key_for(t: Seq<(Text, Text)>, v: Text) -> Option<Text>
    decreases t.len(),
{
    if t.len() == 0 {
        None
    } else if key_for(t.drop_last(), v) is Some {
        key_for(t.drop_last(), v)
    } else if t.last().1 == v {
        Some(t.last().0)
    } else {
        None
    }
}

/// The position of a name in a list of pairs, and the text that belongs to it.
pub open spec fn field_in(list: Option<Seq<(Text, Text)>>, name: Text) -> Option<(nat, Text)> {
    match list {
        Some(l) => if slot(l, name) >= 0 {
            Some((slot(l, name) as nat, l[slot(l, name)].1))
        } else {
            None
        },
        None => None,
    }
}

/// An optional place in a list, as the model gives it.
pub open spec fn opt_place(o: Option<(usize, String)>) -> Option<(nat, Text)> {
    match o {
        Some(p) => Some((p.0 as nat, p.1@)),
        None => None,
    }
}

/// An optional position, as the model gives it.
pub open spec fn opt_nat(o: Option<usize>) -> Option<nat> {
    match o {
        Some(n) => Some(n as nat),
        None => None,
    }
}

fn find_in(list: &Pairs, name: &str) -> (r: Option<(usize, String)>)
    ensures
        opt_place(r) == field_in(Some(list@), name@),
{
    match list.position(name) {
        Some(i) => {
            assert(list@[i as int] == (list.list@[i as int].0@, list.list@[i as int].1@));
            Some((i, list.list[i].1.clone()))
        },
        None => None,
    }
}

/// The tag after `tag`: after the largest one comes the smallest.
pub open spec fn next_tag(tag: i64) -> i64 {
    if tag == i64::MAX {
        i64::MIN
    } else {
        (tag + 1) as i64
    }
}

/// The texts, each with a line feed behind it.
pub open spec fn lines_text(lines: Seq<Text>) -> Text
    decreases lines.len(),
{
    if lines.len() == 0 {
        ""@
    } else {
        lines_text(lines.drop_last()) + (lines.last() + "\n"@)
    }
}

pub(crate) fn lines_string(lines: &Vec<String>) -> (r: String)
    ensures
        r@ == lines_text(texts(lines@)),
{
    let mut r = owned("");
    let mut i: usize = 0;
    while i < lines.len()
        invariant
            i <= lines@.len(),
            r@ == lines_text(texts(lines@).take(i as int)),
        decreases lines.len() - i,
    {
        r.append(&cat2(&lines[i], "\n"));
        assert(texts(lines@).take(i + 1).drop_last() == texts(lines@).take(i as int));
        i += 1;
    }
    assert(texts(lines@).take(i as int) == texts(lines@));
    r
}

// ---------------------------------------------------------------------------------------------
// What the tables hold
// ---------------------------------------------------------------------------------------------
/// The variants of a union.
pub struct Variants<'a> {
    pub list: &'a Vec<TypeExpr>,
}

impl<'a> View for Variants<'a> {
    type V = Seq<TypeExpr>;

    open spec fn view(&self) -> Seq<TypeExpr> {
        self.list@
    }
}

/// The parameters of a function.
pub struct Params<'a> {
    pub list: &'a Vec<Param>,
}

impl<'a> View for Params<'a> {
    type V = Seq<Param>;

    open spec fn view(&self) -> Seq<Param> {
        self.list@
    }
}

/// The body of a function.
pub struct Body<'a> {
    pub list: &'a Vec<StmtNode>,
}

impl<'a> View for Body<'a> {
    type V = Seq<StmtNode>;

    open spec fn view(&self) -> Seq<StmtNode> {
        self.list@
    }
}

/// An anonymous function that is still to be written.
pub struct Deferred<'a> {
    pub name: String,
    pub params: &'a Vec<Param>,
    pub ret: Option<&'a TypeNode>,
    pub body: &'a ExprNode,
}

/// An optional reference as an optional value.
pub open spec fn opt_node(o: Option<&TypeNode>) -> Option<TypeNode> {
    match o {
        Some(t) => Some(*t),
        None => None,
    }
}

impl<'a> View for Deferred<'a> {
    type V = DeferredFn;

    open spec fn view(&self) -> DeferredFn {
        DeferredFn { name: self.name@, params: self.params@, ret: opt_node(self.ret), body: *self.body }
    }
}

/// A thread entry point that is still to be written.
pub struct Spawned<'a> {
    pub name: String,
    pub body: &'a ExprNode,
}

impl<'a> View for Spawned<'a> {
    type V = SpawnedExpr;

    open spec fn view(&self) -> SpawnedExpr {
        SpawnedExpr { name: self.name@, body: *self.body }
    }
}

/// The variables in scope, put aside.
pub struct Scope {
    pub types: Table<String>,
    pub slots: Table<String>,
}

// ---------------------------------------------------------------------------------------------
// The generator
// ---------------------------------------------------------------------------------------------
/// Turns modules into the text of an LLVM module.
pub struct LlvmCodegen<'a> {
    output: String,
    indent: usize,
    label_counter: usize,
    string_constants: String,
    var_types: Table<String>,
    var_alloca: Table<String>,
    struct_defs: Table<Pairs>,
    class_defs: Table<Pairs>,
    class_vtables: Table<Pairs>,
    class_method_ret_types: Table<Pairs>,
    tuple_type_names: Table<String>,
    tuple_types_output: Names,
    tuple_counter: usize,
    nullable_types: Names,
    variant_tags: Table<i64>,
    variant_tag_counter: i64,
    var_union_variants: Table<Variants<'a>>,
    deferred_fns: Vec<Deferred<'a>>,
    closure_counter: usize,
    spawn_wrappers: Vec<Spawned<'a>>,
    spawn_counter: usize,
    fn_name_map: Table<String>,
    current_module: String,
    ffi_modules: Names,
    ffi_decls: Names,
    current_fn_ret: String,
    fn_ret_types: Table<String>,
    fn_param_types: Table<Names>,
    fn_params: Table<Params<'a>>,
    handler_irs: Names,
    fn_bodies: Table<Body<'a>>,
    interface_methods: Table<Names>,
    interface_method_ret_types: Table<Pairs>,
    class_impls: Table<Names>,
    class_modules: Table<String>,
    object_defs: Table<Pairs>,
    object_method_ret_types: Table<Pairs>,
    object_method_has_self: Table<Pairs>,
    object_modules: Table<String>,
    http_vars: Names,
}

impl<'a> View for LlvmCodegen<'a> {
    type V = Gen;

    closed spec fn view(&self) -> Gen {
        Gen {
            output: self.output@,
            indent: self.indent as nat,
            label_counter: self.label_counter as nat,
            string_constants: self.string_constants@,
            var_types: self.var_types@,
            var_alloca: self.var_alloca@,
            struct_defs: self.struct_defs@,
            class_defs: self.class_defs@,
            class_vtables: self.class_vtables@,
            class_method_ret_types: self.class_method_ret_types@,
            tuple_type_names: self.tuple_type_names@,
            tuple_types_output: self.tuple_types_output@,
            tuple_counter: self.tuple_counter as nat,
            nullable_types: self.nullable_types@,
            variant_tags: self.variant_tags@,
            variant_tag_counter: self.variant_tag_counter,
            var_union_variants: self.var_union_variants@,
            deferred_fns: self.deferred_fns@.map_values(|d: Deferred<'a>| d@),
            closure_counter: self.closure_counter as nat,
            spawn_wrappers: self.spawn_wrappers@.map_values(|d: Spawned<'a>| d@),
            spawn_counter: self.spawn_counter as nat,
            fn_name_map: self.fn_name_map@,
            current_module: self.current_module@,
            ffi_modules: self.ffi_modules@,
            ffi_decls: self.ffi_decls@,
            current_fn_ret: self.current_fn_ret@,
            fn_ret_types: self.fn_ret_types@,
            fn_param_types: self.fn_param_types@,
            fn_params: self.fn_params@,
            handler_irs: self.handler_irs@,
            fn_bodies: self.fn_bodies@,
            interface_methods: self.interface_methods@,
            interface_method_ret_types: self.interface_method_ret_types@,
            class_impls: self.class_impls@,
            class_modules: self.class_modules@,
            object_defs: self.object_defs@,
            object_method_ret_types: self.object_method_ret_types@,
            object_method_has_self: self.object_method_has_self@,
            object_modules: self.object_modules@,
            http_vars: self.http_vars@,
        }
    }
}

impl<'a> LlvmCodegen<'a> {
    /// A code generator that has written nothing yet.
    pub fn new() -> (r: Self)
        ensures
            r@ == fresh_gen(),
    {
        let r = LlvmCodegen {
            output: owned(""),
            indent: 0,
            label_counter: 0,
            string_constants: owned(""),
            var_types: Table::new(),
            var_alloca: Table::new(),
            struct_defs: Table::new(),
            class_defs: Table::new(),
            class_vtables: Table::new(),
            class_method_ret_types: Table::new(),
            tuple_type_names: Table::new(),
            tuple_types_output: Names::new(),
            tuple_counter: 0,
            nullable_types: Names::new(),
            variant_tags: Table::new(),
            variant_tag_counter: 0,
            var_union_variants: Table::new(),
            deferred_fns: Vec::new(),
            closure_counter: 0,
            spawn_wrappers: Vec::new(),
            spawn_counter: 0,
            fn_name_map: Table::new(),
            current_module: owned(""),
            ffi_modules: Names::new(),
            ffi_decls: Names::new(),
            current_fn_ret: owned("void"),
            fn_ret_types: Table::new(),
            fn_param_types: Table::new(),
            fn_params: Table::new(),
            handler_irs: Names::new(),
            fn_bodies: Table::new(),
            interface_methods: Table::new(),
            interface_method_ret_types: Table::new(),
            class_impls: Table::new(),
            class_modules: Table::new(),
            object_defs: Table::new(),
            object_method_ret_types: Table::new(),
            object_method_has_self: Table::new(),
            object_modules: Table::new(),
            http_vars: Names::new(),
        };
        assert(r@.deferred_fns == fresh_gen().deferred_fns);
        assert(r@.spawn_wrappers == fresh_gen().spawn_wrappers);
        r
    }

    pub(crate) fn e(&mut self, s: &str)
        ensures
            final(self)@ == old(self)@.e(s@),
    {
        proof {
            reveal(Gen::e);
        }
        let line = cat3(&repeat_text("  ", self.indent), s, "\n");
        self.output.append(&line);
    }

    pub(crate) fn e_raw(&mut self, s: &str)
        ensures
            final(self)@ == old(self)@.e_raw(s@),
    {
        proof {
            reveal(Gen::e_raw);
        }
        self.output.append(&cat2(s, "\n"));
    }

    pub(crate) fn paste(&mut self, s: &str)
        ensures
            final(self)@ == old(self)@.paste(s@),
    {
        proof {
            reveal(Gen::paste);
        }
        self.output.append(s);
    }

    pub(crate) fn fresh_label(&mut self) -> (r: String)
        ensures
            (final(self)@, r@) == old(self)@.fresh_label(),
    {
        proof {
            reveal(Gen::fresh_label);
        }
        let n = self.label_counter;
        self.label_counter = bump(n);
        cat2("yk_", &dec_text(n as u128))
    }

    pub(crate) fn next_number(&mut self) -> (r: String)
        ensures
            (final(self)@, r@) == old(self)@.next_number(),
    {
        proof {
            reveal(Gen::next_number);
        }
        let n = self.label_counter;
        self.label_counter = bump(n);
        cat2("", &dec_text(n as u128))
    }

    pub(crate) fn next_closure(&mut self) -> (r: String)
        ensures
            (final(self)@, r@) == old(self)@.next_closure(),
    {
        proof {
            reveal(Gen::next_closure);
        }
        let n = self.closure_counter;
        self.closure_counter = bump(n);
        cat2("__closure_", &dec_text(n as u128))
    }

    pub(crate) fn next_spawn(&mut self) -> (r: String)
        ensures
            (final(self)@, r@) == old(self)@.next_spawn(),
    {
        proof {
            reveal(Gen::next_spawn);
        }
        let n = self.spawn_counter;
        self.spawn_counter = bump(n);
        cat2("__spawn_wrapper_", &dec_text(n as u128))
    }

    pub(crate) fn next_tuple(&mut self) -> (r: String)
        ensures
            (final(self)@, r@) == old(self)@.next_tuple(),
    {
        proof {
            reveal(Gen::next_tuple);
        }
        let n = self.tuple_counter;
        self.tuple_counter = bump(n);
        cat2("%struct.__yk_t", &dec_text(n as u128))
    }

    pub(crate) fn set_indent(&mut self, n: usize)
        ensures
            final(self)@ == old(self)@.set_indent(n as nat),
    {
        proof {
            reveal(Gen::set_indent);
        }
        self.indent = n;
    }

    pub(crate) fn deeper(&self) -> (r: usize)
        ensures
            r as nat == self@.deeper(),
    {
        bump(self.indent)
    }

    pub(crate) fn depth(&self) -> (r: usize)
        ensures
            r as nat == self@.depth(),
    {
        self.indent
    }

    pub(crate) fn add_string(&mut self, s: &str)
        ensures
            final(self)@ == old(self)@.add_string(s@),
    {
        proof {
            reveal(Gen::add_string);
        }
        self.string_constants.append(&cat2(s, "\n"));
    }

    pub(crate) fn set_var_type(&mut self, k: &str, v: &str)
        ensures
            final(self)@ == old(self)@.set_var_type(k@, v@),
    {
        proof {
            reveal(Gen::set_var_type);
        }
        self.var_types.insert(k, owned(v));
    }

    pub(crate) fn set_var_alloca(&mut self, k: &str, v: &str)
        ensures
            final(self)@ == old(self)@.set_var_alloca(k@, v@),
    {
        proof {
            reveal(Gen::set_var_alloca);
        }
        self.var_alloca.insert(k, owned(v));
    }

    pub(crate) fn val_ty(&self, k: &str) -> (r: String)
        ensures
            r@ == self@.val_ty(k@),
    {
        match self.var_types.get(k) {
            Some(v) => v.clone(),
            None => owned("i64"),
        }
    }

    pub(crate) fn var_slot(&self, k: &str) -> (r: Option<String>)
        ensures
            opt_text(r) == self@.var_slot(k@),
    {
        match self.var_alloca.get(k) {
            Some(v) => Some(v.clone()),
            None => None,
        }
    }

    pub(crate) fn has_struct(&self, k: &str) -> (r: bool)
        ensures
            r == self@.has_struct(k@),
    {
        self.struct_defs.contains(k)
    }

    pub(crate) fn has_class(&self, k: &str) -> (r: bool)
        ensures
            r == self@.has_class(k@),
    {
        self.class_defs.contains(k)
    }

    pub(crate) fn has_interface(&self, k: &str) -> (r: bool)
        ensures
            r == self@.has_interface(k@),
    {
        self.interface_methods.contains(k)
    }

    pub(crate) fn has_object(&self, k: &str) -> (r: bool)
        ensures
            r == self@.has_object(k@),
    {
        self.object_defs.contains(k)
    }

    pub(crate) fn define_struct(&mut self, k: &str, v: Pairs)
        ensures
            final(self)@ == old(self)@.define_struct(k@, v@),
    {
        proof {
            reveal(Gen::define_struct);
        }
        self.struct_defs.insert(k, v);
    }

    pub(crate) fn define_class(&mut self, k: &str, v: Pairs)
        ensures
            final(self)@ == old(self)@.define_class(k@, v@),
    {
        proof {
            reveal(Gen::define_class);
        }
        self.class_defs.insert(k, v);
    }

    pub(crate) fn define_vtable(&mut self, k: &str, v: Pairs)
        ensures
            final(self)@ == old(self)@.define_vtable(k@, v@),
    {
        proof {
            reveal(Gen::define_vtable);
        }
        self.class_vtables.insert(k, v);
    }

    pub(crate) fn define_object(&mut self, k: &str, v: Pairs)
        ensures
            final(self)@ == old(self)@.define_object(k@, v@),
    {
        proof {
            reveal(Gen::define_object);
        }
        self.object_defs.insert(k, v);
    }

    pub(crate) fn clear_vtables(&mut self)
        ensures
            final(self)@ == old(self)@.clear_vtables(),
    {
        proof {
            reveal(Gen::clear_vtables);
        }
        self.class_vtables = Table::new();
    }

    pub(crate) fn struct_def(&self, k: &str) -> (r: Option<Pairs>)
        ensures
            match r {
                Some(list) => self@.struct_def(k@) == Some(list@),
                None => self@.struct_def(k@) is None,
            },
    {
        match self.struct_defs.get(k) {
            Some(list) => Some(list.copy()),
            None => None,
        }
    }

    pub(crate) fn class_def(&self, k: &str) -> (r: Option<Pairs>)
        ensures
            match r {
                Some(list) => self@.class_def(k@) == Some(list@),
                None => self@.class_def(k@) is None,
            },
    {
        match self.class_defs.get(k) {
            Some(list) => Some(list.copy()),
            None => None,
        }
    }

    pub(crate) fn class_vtable(&self, k: &str) -> (r: Option<Pairs>)
        ensures
            match r {
                Some(list) => self@.class_vtable(k@) == Some(list@),
                None => self@.class_vtable(k@) is None,
            },
    {
        match self.class_vtables.get(k) {
            Some(list) => Some(list.copy()),
            None => None,
        }
    }

    pub(crate) fn object_def(&self, k: &str) -> (r: Option<Pairs>)
        ensures
            match r {
                Some(list) => self@.object_def(k@) == Some(list@),
                None => self@.object_def(k@) is None,
            },
    {
        match self.object_defs.get(k) {
            Some(list) => Some(list.copy()),
            None => None,
        }
    }

    pub(crate) fn set_class_method_ret(&mut self, a: &str, b: &str, v: &str)
        ensures
            final(self)@ == old(self)@.set_class_method_ret(a@, b@, v@),
    {
        proof {
            reveal(Gen::set_class_method_ret);
        }
        self.class_method_ret_types.insert2(a, b, v);
    }

    pub(crate) fn class_method_ret(&self, a: &str, b: &str) -> (r: String)
        ensures
            r@ == self@.class_method_ret(a@, b@),
    {
        match self.class_method_ret_types.get2(a, b) {
            Some(v) => v,
            None => owned("i64"),
        }
    }

    pub(crate) fn set_interface_method_ret(&mut self, a: &str, b: &str, v: &str)
        ensures
            final(self)@ == old(self)@.set_interface_method_ret(a@, b@, v@),
    {
        proof {
            reveal(Gen::set_interface_method_ret);
        }
        self.interface_method_ret_types.insert2(a, b, v);
    }

    pub(crate) fn interface_method_ret(&self, a: &str, b: &str) -> (r: String)
        ensures
            r@ == self@.interface_method_ret(a@, b@),
    {
        match self.interface_method_ret_types.get2(a, b) {
            Some(v) => v,
            None => owned("i64"),
        }
    }

    pub(crate) fn set_object_method_ret(&mut self, a: &str, b: &str, v: &str)
        ensures
            final(self)@ == old(self)@.set_object_method_ret(a@, b@, v@),
    {
        proof {
            reveal(Gen::set_object_method_ret);
        }
        self.object_method_ret_types.insert2(a, b, v);
    }

    pub(crate) fn object_method_ret(&self, a: &str, b: &str) -> (r: String)
        ensures
            r@ == self@.object_method_ret(a@, b@),
    {
        match self.object_method_ret_types.get2(a, b) {
            Some(v) => v,
            None => owned("i64"),
        }
    }

    pub(crate) fn set_object_method_self(&mut self, a: &str, b: &str)
        ensures
            final(self)@ == old(self)@.set_object_method_self(a@, b@),
    {
        proof {
            reveal(Gen::set_object_method_self);
        }
        self.object_method_has_self.insert2(a, b, "");
    }

    pub(crate) fn object_method_self(&self, a: &str, b: &str) -> (r: bool)
        ensures
            r == self@.object_method_self(a@, b@),
    {
        self.object_method_has_self.get2(a, b).is_some()
    }

    pub(crate) fn set_tuple_name(&mut self, k: &str, v: &str)
        ensures
            final(self)@ == old(self)@.set_tuple_name(k@, v@),
    {
        proof {
            reveal(Gen::set_tuple_name);
        }
        self.tuple_type_names.insert(k, owned(v));
    }

    pub(crate) fn tuple_name(&self, k: &str) -> (r: Option<String>)
        ensures
            opt_text(r) == self@.tuple_name(k@),
    {
        match self.tuple_type_names.get(k) {
            Some(v) => Some(v.clone()),
            None => None,
        }
    }

    pub(crate) fn add_type_line(&mut self, v: &str)
        ensures
            final(self)@ == old(self)@.add_type_line(v@),
    {
        proof {
            reveal(Gen::add_type_line);
        }
        self.tuple_types_output.push(owned(v));
    }

    pub(crate) fn has_nullable(&self, v: &str) -> (r: bool)
        ensures
            r == self@.has_nullable(v@),
    {
        self.nullable_types.contains(v)
    }

    pub(crate) fn add_nullable(&mut self, v: &str)
        ensures
            final(self)@ == old(self)@.add_nullable(v@),
    {
        proof {
            reveal(Gen::add_nullable);
        }
        self.nullable_types.insert(v);
    }

    pub(crate) fn set_fn_name(&mut self, k: &str, v: &str)
        ensures
            final(self)@ == old(self)@.set_fn_name(k@, v@),
    {
        proof {
            reveal(Gen::set_fn_name);
        }
        self.fn_name_map.insert(k, owned(v));
    }

    pub(crate) fn fn_name(&self, k: &str) -> (r: Option<String>)
        ensures
            opt_text(r) == self@.fn_name(k@),
    {
        match self.fn_name_map.get(k) {
            Some(v) => Some(v.clone()),
            None => None,
        }
    }

    pub(crate) fn set_module(&mut self, v: &str)
        ensures
            final(self)@ == old(self)@.set_module(v@),
    {
        proof {
            reveal(Gen::set_module);
        }
        self.current_module = owned(v);
    }

    pub(crate) fn add_ffi_module(&mut self, v: &str)
        ensures
            final(self)@ == old(self)@.add_ffi_module(v@),
    {
        proof {
            reveal(Gen::add_ffi_module);
        }
        self.ffi_modules.insert(v);
    }

    pub(crate) fn has_ffi_module(&self, v: &str) -> (r: bool)
        ensures
            r == self@.has_ffi_module(v@),
    {
        self.ffi_modules.contains(v)
    }

    pub(crate) fn add_ffi_decl(&mut self, v: &str)
        ensures
            final(self)@ == old(self)@.add_ffi_decl(v@),
    {
        proof {
            reveal(Gen::add_ffi_decl);
        }
        self.ffi_decls.insert(v);
    }

    pub(crate) fn has_ffi_decl(&self, v: &str) -> (r: bool)
        ensures
            r == self@.has_ffi_decl(v@),
    {
        self.ffi_decls.contains(v)
    }

    pub(crate) fn set_fn_ret(&mut self, v: &str)
        ensures
            final(self)@ == old(self)@.set_fn_ret(v@),
    {
        proof {
            reveal(Gen::set_fn_ret);
        }
        self.current_fn_ret = owned(v);
    }

    pub(crate) fn set_fn_ret_type(&mut self, k: &str, v: &str)
        ensures
            final(self)@ == old(self)@.set_fn_ret_type(k@, v@),
    {
        proof {
            reveal(Gen::set_fn_ret_type);
        }
        self.fn_ret_types.insert(k, owned(v));
    }

    pub(crate) fn fn_ret_type(&self, k: &str) -> (r: String)
        ensures
            r@ == self@.fn_ret_type(k@),
    {
        match self.fn_ret_types.get(k) {
            Some(v) => v.clone(),
            None => owned("i64"),
        }
    }

    pub(crate) fn set_fn_param_types(&mut self, k: &str, v: Names)
        ensures
            final(self)@ == old(self)@.set_fn_param_types(k@, v@),
    {
        proof {
            reveal(Gen::set_fn_param_types);
        }
        self.fn_param_types.insert(k, v);
    }

    pub(crate) fn fn_param_types_of(&self, k: &str) -> (r: Option<Names>)
        ensures
            match r {
                Some(list) => self@.fn_param_types_of(k@) == Some(list@),
                None => self@.fn_param_types_of(k@) is None,
            },
    {
        match self.fn_param_types.get(k) {
            Some(list) => Some(list.copy()),
            None => None,
        }
    }

    pub(crate) fn add_handler(&mut self, v: &str)
        ensures
            final(self)@ == old(self)@.add_handler(v@),
    {
        proof {
            reveal(Gen::add_handler);
        }
        self.handler_irs.push(owned(v));
    }

    pub(crate) fn define_interface(&mut self, k: &str, v: Names)
        ensures
            final(self)@ == old(self)@.define_interface(k@, v@),
    {
        proof {
            reveal(Gen::define_interface);
        }
        self.interface_methods.insert(k, v);
    }

    pub(crate) fn interface_def(&self, k: &str) -> (r: Option<Names>)
        ensures
            match r {
                Some(list) => self@.interface_def(k@) == Some(list@),
                None => self@.interface_def(k@) is None,
            },
    {
        match self.interface_methods.get(k) {
            Some(list) => Some(list.copy()),
            None => None,
        }
    }

    pub(crate) fn set_class_impls(&mut self, k: &str, v: Names)
        ensures
            final(self)@ == old(self)@.set_class_impls(k@, v@),
    {
        proof {
            reveal(Gen::set_class_impls);
        }
        self.class_impls.insert(k, v);
    }

    pub(crate) fn class_impls_of(&self, k: &str) -> (r: Option<Names>)
        ensures
            match r {
                Some(list) => self@.class_impls_of(k@) == Some(list@),
                None => self@.class_impls_of(k@) is None,
            },
    {
        match self.class_impls.get(k) {
            Some(list) => Some(list.copy()),
            None => None,
        }
    }

    pub(crate) fn set_class_module(&mut self, k: &str, v: &str)
        ensures
            final(self)@ == old(self)@.set_class_module(k@, v@),
    {
        proof {
            reveal(Gen::set_class_module);
        }
        self.class_modules.insert(k, owned(v));
    }

    pub(crate) fn class_module(&self, k: &str) -> (r: String)
        ensures
            r@ == self@.class_module(k@),
    {
        match self.class_modules.get(k) {
            Some(v) => v.clone(),
            None => owned(""),
        }
    }

    pub(crate) fn set_object_module(&mut self, k: &str, v: &str)
        ensures
            final(self)@ == old(self)@.set_object_module(k@, v@),
    {
        proof {
            reveal(Gen::set_object_module);
        }
        self.object_modules.insert(k, owned(v));
    }

    pub(crate) fn object_module(&self, k: &str) -> (r: String)
        ensures
            r@ == self@.object_module(k@),
    {
        match self.object_modules.get(k) {
            Some(v) => v.clone(),
            None => owned(""),
        }
    }

    pub(crate) fn add_http_var(&mut self, v: &str)
        ensures
            final(self)@ == old(self)@.add_http_var(v@),
    {
        proof {
            reveal(Gen::add_http_var);
        }
        self.http_vars.insert(v);
    }

    pub(crate) fn has_http_var(&self, v: &str) -> (r: bool)
        ensures
            r == self@.has_http_var(v@),
    {
        self.http_vars.contains(v)
    }

    pub(crate) fn class_names(&self) -> (r: Vec<String>)
        ensures
            texts(r@) == self@.class_names(),
    {
        self.class_defs.keys()
    }

    pub(crate) fn vtable_names(&self) -> (r: Vec<String>)
        ensures
            texts(r@) == self@.vtable_names(),
    {
        self.class_vtables.keys()
    }

    pub(crate) fn interface_names(&self) -> (r: Vec<String>)
        ensures
            texts(r@) == self@.interface_names(),
    {
        self.interface_methods.keys()
    }

    pub(crate) fn object_names(&self) -> (r: Vec<String>)
        ensures
            texts(r@) == self@.object_names(),
    {
        self.object_defs.keys()
    }

    pub(crate) fn fn_ret(&self) -> (r: String)
        ensures
            r@ == self@.fn_ret(),
    {
        self.current_fn_ret.clone()
    }

    pub(crate) fn module_name(&self) -> (r: String)
        ensures
            r@ == self@.module_name(),
    {
        self.current_module.clone()
    }

    pub(crate) fn struct_field(&self, name: &str, field: &str) -> (r: Option<(usize, String)>)
        ensures
            opt_place(r) == self@.struct_field(name@, field@),
    {
        match self.struct_defs.get(name) {
            Some(list) => find_in(list, field),
            None => None,
        }
    }

    pub(crate) fn class_field(&self, name: &str, field: &str) -> (r: Option<(usize, String)>)
        ensures
            opt_place(r) == self@.class_field(name@, field@),
    {
        match self.class_defs.get(name) {
            Some(list) => find_in(list, field),
            None => None,
        }
    }

    pub(crate) fn object_field(&self, name: &str, field: &str) -> (r: Option<(usize, String)>)
        ensures
            opt_place(r) == self@.object_field(name@, field@),
    {
        match self.object_defs.get(name) {
            Some(list) => find_in(list, field),
            None => None,
        }
    }

    pub(crate) fn class_method(&self, name: &str, field: &str) -> (r: Option<(usize, String)>)
        ensures
            opt_place(r) == self@.class_method(name@, field@),
    {
        match self.class_vtables.get(name) {
            Some(list) => find_in(list, field),
            None => None,
        }
    }

    pub(crate) fn interface_method(&self, name: &str, method: &str) -> (r: Option<usize>)
        ensures
            opt_nat(r) == self@.interface_method(name@, method@),
    {
        match self.interface_methods.get(name) {
            Some(list) => list.position(method),
            None => None,
        }
    }

    pub(crate) fn tuple_signature(&self, ty: &str) -> (r: Option<String>)
        ensures
            opt_text(r) == self@.tuple_signature(ty@),
    {
        let ghost t = self.tuple_type_names@;
        let mut found: Option<String> = None;
        let mut i: usize = 0;
        while i < self.tuple_type_names.len()
            invariant
                t == self.tuple_type_names@,
                i <= t.len(),
                opt_text(found) == key_for(t.take(i as int), ty@),
            decreases t.len() - i,
        {
            assert(t.take(i + 1).drop_last() == t.take(i as int));
            if found.is_none() && same(self.tuple_type_names.value(i), ty) {
                found = Some(self.tuple_type_names.key(i).clone());
            }
            i += 1;
        }
        assert(t.take(i as int) == t);
        found
    }

    pub(crate) fn variant_name_tag(&self, name: &str) -> (r: i64)
        ensures
            r == self@.variant_name_tag(name@),
    {
        match self.variant_tags.get(name) {
            Some(tag) => *tag,
            None => -1,
        }
    }

    pub(crate) fn get_variant_tag(&mut self, name: &str) -> (r: i64)
        ensures
            (final(self)@, r) == old(self)@.get_variant_tag(name@),
    {
        proof {
            reveal(Gen::get_variant_tag);
        }
        let known: Option<i64> = match self.variant_tags.get(name) {
            Some(tag) => Some(*tag),
            None => None,
        };
        match known {
            Some(tag) => tag,
            None => {
                let tag = self.variant_tag_counter;
                self.variant_tag_counter = if tag == i64::MAX {
                    i64::MIN
                } else {
                    tag + 1
                };
                self.variant_tags.insert(name, tag);
                tag
            },
        }
    }

    pub(crate) fn union_of(&self, name: &str) -> (r: Option<&'a Vec<TypeExpr>>)
        ensures
            match r {
                Some(list) => self@.union_of(name@) == Some(list@),
                None => self@.union_of(name@) is None,
            },
    {
        match self.var_union_variants.get(name) {
            Some(v) => Some(v.list),
            None => None,
        }
    }

    pub(crate) fn set_union(&mut self, name: &str, variants: &'a Vec<TypeExpr>)
        ensures
            final(self)@ == old(self)@.set_union(name@, variants@),
    {
        proof {
            reveal(Gen::set_union);
        }
        self.var_union_variants.insert(name, Variants { list: variants });
    }

    pub(crate) fn params_of(&self, name: &str) -> (r: Option<&'a Vec<Param>>)
        ensures
            match r {
                Some(list) => self@.params_of(name@) == Some(list@),
                None => self@.params_of(name@) is None,
            },
    {
        match self.fn_params.get(name) {
            Some(v) => Some(v.list),
            None => None,
        }
    }

    pub(crate) fn set_params(&mut self, name: &str, params: &'a Vec<Param>)
        ensures
            final(self)@ == old(self)@.set_params(name@, params@),
    {
        proof {
            reveal(Gen::set_params);
        }
        self.fn_params.insert(name, Params { list: params });
    }

    pub(crate) fn body_of(&self, name: &str) -> (r: Option<&'a Vec<StmtNode>>)
        ensures
            match r {
                Some(list) => self@.body_of(name@) == Some(list@),
                None => self@.body_of(name@) is None,
            },
    {
        match self.fn_bodies.get(name) {
            Some(v) => Some(v.list),
            None => None,
        }
    }

    pub(crate) fn set_body(&mut self, name: &str, body: &'a Vec<StmtNode>)
        ensures
            final(self)@ == old(self)@.set_body(name@, body@),
    {
        proof {
            reveal(Gen::set_body);
        }
        self.fn_bodies.insert(name, Body { list: body });
    }

    pub(crate) fn defer(
        &mut self,
        name: &str,
        params: &'a Vec<Param>,
        ret: Option<&'a TypeNode>,
        body: &'a ExprNode,
    )
        ensures
            final(self)@ == old(self)@.defer(name@, params@, opt_node(ret), *body),
    {
        proof {
            reveal(Gen::defer);
        }
        let ghost before = self@.deferred_fns;
        let d = Deferred { name: owned(name), params, ret, body };
        let ghost last = d@;
        self.deferred_fns.push(d);
        assert(self@.deferred_fns == before.push(last));
    }

    pub(crate) fn defer_spawn(&mut self, name: &str, body: &'a ExprNode)
        ensures
            final(self)@ == old(self)@.defer_spawn(name@, *body),
    {
        proof {
            reveal(Gen::defer_spawn);
        }
        let ghost before = self@.spawn_wrappers;
        let d = Spawned { name: owned(name), body };
        let ghost last = d@;
        self.spawn_wrappers.push(d);
        assert(self@.spawn_wrappers == before.push(last));
    }

    pub(crate) fn take_deferred(&mut self) -> (r: Vec<Deferred<'a>>)
        ensures
            (final(self)@, r@.map_values(|d: Deferred<'a>| d@)) == old(self)@.take_deferred(),
    {
        proof {
            reveal(Gen::take_deferred);
        }
        let mut r: Vec<Deferred<'a>> = Vec::new();
        core::mem::swap(&mut r, &mut self.deferred_fns);
        assert(self@.deferred_fns == Seq::<DeferredFn>::empty());
        r
    }

    pub(crate) fn take_spawned(&mut self) -> (r: Vec<Spawned<'a>>)
        ensures
            (final(self)@, r@.map_values(|d: Spawned<'a>| d@)) == old(self)@.take_spawned(),
    {
        proof {
            reveal(Gen::take_spawned);
        }
        let mut r: Vec<Spawned<'a>> = Vec::new();
        core::mem::swap(&mut r, &mut self.spawn_wrappers);
        assert(self@.spawn_wrappers == Seq::<SpawnedExpr>::empty());
        r
    }

    /// Puts the variables in scope aside.
    pub(crate) fn scope(&self) -> (r: Scope)
        ensures
            r.types@ == self@.var_types,
            r.slots@ == self@.var_alloca,
    {
        Scope { types: self.var_types.copy(), slots: self.var_alloca.copy() }
    }

    pub(crate) fn restore(&mut self, scope: Scope)
        ensures
            final(self)@ == old(self)@.restore(scope.types@, scope.slots@),
    {
        proof {
            reveal(Gen::restore);
        }
        self.var_types = scope.types;
        self.var_alloca = scope.slots;
    }

    pub(crate) fn take_output(&mut self) -> (r: String)
        ensures
            (final(self)@, r@) == old(self)@.take_output(),
    {
        proof {
            reveal(Gen::take_output);
        }
        let mut r = self.output.clone();
        self.output = owned("");
        r.append(&self.string_constants);
        r
    }

    pub(crate) fn take_type_lines(&mut self) -> (r: Vec<String>)
        ensures
            (final(self)@, texts(r@)) == old(self)@.take_type_lines(),
    {
        proof {
            reveal(Gen::take_type_lines);
        }
        let r = self.tuple_types_output.copy();
        self.tuple_types_output = Names::new();
        r.list
    }

    pub(crate) fn paste_handlers(&mut self)
        ensures
            final(self)@ == old(self)@.paste_handlers(),
    {
        proof {
            reveal(Gen::paste_handlers);
            reveal_strlit("");
        }
        let ghost before = self.output@;
        if self.handler_irs.list.len() > 0 {
            let lines = lines_string(&self.handler_irs.list);
            self.output.append(&cat3(COPY_DECLARATION, "\n\n", &lines));
        }
        assert(before + ""@ == before);
    }
}

} // verus!
