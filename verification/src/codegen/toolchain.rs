//! From LLVM text to an executable: which tools are called, and how.

use vstd::prelude::*;

use crate::codegen::llvm::module::{foreign, is_foreign};
use crate::diagnostics::error::{err, ErrorKind, Result, YkError};
use crate::diagnostics::span::Span;
use crate::hardware::cpu::str_texts;
use crate::hardware::memory::{is_low_memory, low_memory};
use crate::hardware::HardwareInfo;
use crate::scan::{join, joined, opt_text, pieces, replace_char, replaced, split, texts, trim, trimmed};
use crate::syntax::ast::{Import, Module};
use crate::text::{
    cat11, cat16, cat2, cat3, cat4, cat6, cat7, cat9, int_dec, int_text, owned, same, Text,
};

verus! {

// ---------------------------------------------------------------------------------------------
// Checks before a build
// ---------------------------------------------------------------------------------------------
/// The imports among `imports` that cannot be compiled: those of a library that is not supported.
pub open spec fn import_errors(imports: Seq<Import>, file: Text, unsupported: Seq<Text>) -> Seq<Text>
    decreases imports.len(),
{
    if imports.len() == 0 {
        seq![]
    } else {
        let list = import_errors(imports.drop_last(), file, unsupported);
        let last = imports.last();
        if last.lang is None && unsupported.contains(last.source@) {
            list.push(
                file + ": std module '"@ + last.source@
                    + "' not supported in AOT compilation (use `run` instead)"@,
            )
        } else {
            list
        }
    }
}

/// The file of a module; a question mark where it is not known.
pub open spec fn file_of(paths: Seq<Text>, i: nat) -> Text {
    if i < paths.len() {
        paths[i as int]
    } else {
        "?"@
    }
}

/// The imports of modules that cannot be compiled.
pub open spec fn module_errors(modules: Seq<&Module>, paths: Seq<Text>, unsupported: Seq<Text>) -> Seq<Text>
    decreases modules.len(),
{
    if modules.len() == 0 {
        seq![]
    } else {
        module_errors(modules.drop_last(), paths, unsupported) + import_errors(
            modules.last().imports@,
            file_of(paths, (modules.len() - 1) as nat),
            unsupported,
        )
    }
}

proof fn lemma_all_imports_supported(imports: Seq<Import>, file: Text)
    ensures
        import_errors(imports, file, seq![]) == Seq::<Text>::empty(),
    decreases imports.len(),
{
    if imports.len() > 0 {
        lemma_all_imports_supported(imports.drop_last(), file);
    }
}

/// Where every library is supported, no import is an error.
pub proof fn lemma_all_supported(modules: Seq<&Module>, paths: Seq<Text>)
    ensures
        module_errors(modules, paths, seq![]) == Seq::<Text>::empty(),
    decreases modules.len(),
{
    if modules.len() > 0 {
        lemma_all_supported(modules.drop_last(), paths);
        lemma_all_imports_supported(
            modules.last().imports@,
            file_of(paths, (modules.len() - 1) as nat),
        );
    }
}

fn listed(names: &Vec<String>, name: &str) -> (r: bool)
    ensures
        r == texts(names@).contains(name@),
{
    let mut i: usize = 0;
    while i < names.len()
        invariant
            i <= names@.len(),
            forall|j: int| 0 <= j < i ==> texts(names@)[j] != name@,
        decreases names.len() - i,
    {
        if same(&names[i], name) {
            assert(texts(names@)[i as int] == name@);
            return true;
        }
        i += 1;
    }
    false
}

fn find_import_errors(imports: &Vec<Import>, file: &str, unsupported: &Vec<String>) -> (r: Vec<String>)
    ensures
        texts(r@) == import_errors(imports@, file@, texts(unsupported@)),
{
    let mut r: Vec<String> = Vec::new();
    let mut i: usize = 0;
    assert(texts(r@) == Seq::<Text>::empty());
    while i < imports.len()
        invariant
            i <= imports@.len(),
            texts(r@) == import_errors(imports@.take(i as int), file@, texts(unsupported@)),
        decreases imports.len() - i,
    {
        assert(imports@.take(i + 1).drop_last() == imports@.take(i as int));
        if imports[i].lang.is_none() && listed(unsupported, &imports[i].source) {
            let t = cat4(
                file,
                ": std module '",
                &imports[i].source,
                "' not supported in AOT compilation (use `run` instead)",
            );
            let ghost before = r@;
            let ghost text = t@;
            r.push(t);
            assert(texts(r@) == texts(before).push(text));
        }
        i += 1;
    }
    assert(imports@.take(i as int) == imports@);
    r
}

fn find_module_errors(modules: &[&Module], paths: &Vec<String>, unsupported: &Vec<String>) -> (r: Vec<String>)
    ensures
        texts(r@) == module_errors(modules@, texts(paths@), texts(unsupported@)),
{
    let mut r: Vec<String> = Vec::new();
    let mut i: usize = 0;
    assert(texts(r@) == Seq::<Text>::empty());
    while i < modules.len()
        invariant
            i <= modules@.len(),
            texts(r@) == module_errors(modules@.take(i as int), texts(paths@), texts(unsupported@)),
        decreases modules.len() - i,
    {
        assert(modules@.take(i + 1).drop_last() == modules@.take(i as int));
        let file = if i < paths.len() {
            assert(texts(paths@)[i as int] == paths@[i as int]@);
            paths[i].clone()
        } else {
            owned("?")
        };
        let mut more = find_import_errors(&modules[i].imports, &file, unsupported);
        let ghost before = r@;
        let ghost rest = more@;
        r.append(&mut more);
        assert(texts(r@) == texts(before) + texts(rest));
        i += 1;
    }
    assert(modules@.take(i as int) == modules@);
    r
}

/// What keeps modules from being compiled. Every library is supported, so nothing does.
pub fn validate_modules(modules: &[&Module], file_paths: &Vec<String>) -> (r: Vec<String>)
    ensures
        texts(r@) == module_errors(modules@, texts(file_paths@), seq![]),
        r@.len() == 0,
{
    let unsupported: Vec<String> = Vec::new();
    assert(texts(unsupported@) == Seq::<Text>::empty());
    let r = find_module_errors(modules, file_paths, &unsupported);
    proof {
        lemma_all_supported(modules@, texts(file_paths@));
        assert(texts(r@).len() == r@.len());
    }
    r
}

// ---------------------------------------------------------------------------------------------
// Libraries of other languages
// ---------------------------------------------------------------------------------------------
/// The import library for a foreign source: without its dots, with underscores for its slashes.
pub open spec fn ffi_lib(source: Text) -> Text {
    "yk_ffi_"@ + replaced(replaced(source, '/', "_"@), '.', ""@) + ".lib"@
}

/// The import libraries of imports.
pub open spec fn import_libs(imports: Seq<Import>) -> Seq<Text>
    decreases imports.len(),
{
    if imports.len() == 0 {
        seq![]
    } else if is_foreign(imports.last()) {
        import_libs(imports.drop_last()).push(ffi_lib(imports.last().source@))
    } else {
        import_libs(imports.drop_last())
    }
}

/// The import libraries of modules, in the order of their imports.
pub open spec fn module_libs(modules: Seq<&Module>) -> Seq<Text>
    decreases modules.len(),
{
    if modules.len() == 0 {
        seq![]
    } else {
        module_libs(modules.drop_last()) + import_libs(modules.last().imports@)
    }
}

fn find_import_libs(imports: &Vec<Import>) -> (r: Vec<String>)
    ensures
        texts(r@) == import_libs(imports@),
{
    let mut r: Vec<String> = Vec::new();
    let mut i: usize = 0;
    assert(texts(r@) == Seq::<Text>::empty());
    while i < imports.len()
        invariant
            i <= imports@.len(),
            texts(r@) == import_libs(imports@.take(i as int)),
        decreases imports.len() - i,
    {
        assert(imports@.take(i + 1).drop_last() == imports@.take(i as int));
        if foreign(&imports[i]) {
            let stem = replace_char(&replace_char(&imports[i].source, '/', "_"), '.', "");
            let t = cat3("yk_ffi_", &stem, ".lib");
            let ghost before = r@;
            let ghost text = t@;
            r.push(t);
            assert(texts(r@) == texts(before).push(text));
        }
        i += 1;
    }
    assert(imports@.take(i as int) == imports@);
    r
}

/// The import libraries that modules ask for; those that exist are linked.
pub fn ffi_lib_names(modules: &[&Module]) -> (r: Vec<String>)
    ensures
        texts(r@) == module_libs(modules@),
{
    let mut r: Vec<String> = Vec::new();
    let mut i: usize = 0;
    assert(texts(r@) == Seq::<Text>::empty());
    while i < modules.len()
        invariant
            i <= modules@.len(),
            texts(r@) == module_libs(modules@.take(i as int)),
        decreases modules.len() - i,
    {
        assert(modules@.take(i + 1).drop_last() == modules@.take(i as int));
        let mut more = find_import_libs(&modules[i].imports);
        let ghost before = r@;
        let ghost rest = more@;
        r.append(&mut more);
        assert(texts(r@) == texts(before) + texts(rest));
        i += 1;
    }
    assert(modules@.take(i as int) == modules@);
    r
}

// ---------------------------------------------------------------------------------------------
// Tools
// ---------------------------------------------------------------------------------------------
/// A place where a tool or a library can be, and whether something is there.
pub struct Candidate {
    pub path: String,
    pub exists: bool,
}

/// The first of the places at which something is.
pub open spec fn first_existing(places: Seq<Candidate>) -> Option<Text>
    decreases places.len(),
{
    if places.len() == 0 {
        None
    } else if places[0].exists {
        Some(places[0].path@)
    } else {
        first_existing(places.skip(1))
    }
}

/// The first of the places at which something is.
pub fn find_existing(places: &Vec<Candidate>) -> (r: Option<String>)
    ensures
        opt_text(r) == first_existing(places@),
{
    let mut i: usize = 0;
    assert(places@.skip(0) == places@);
    while i < places.len()
        invariant
            i <= places@.len(),
            first_existing(places@) == first_existing(places@.skip(i as int)),
        decreases places.len() - i,
    {
        assert(places@.skip(i as int)[0] == places@[i as int]);
        assert(places@.skip(i as int).skip(1) == places@.skip(i + 1));
        if places[i].exists {
            return Some(places[i].path.clone());
        }
        i += 1;
    }
    None
}

/// The platforms that differ in where tools are.
#[derive(Clone, Copy, Debug, PartialEq, Eq, Structural)]
pub enum Platform {
    Windows,
    MacOs,
    Other,
}

/// The file name of the LLVM library on a platform.
pub fn llvm_lib_name(platform: Platform) -> (r: &'static str)
    ensures
        r@ == (match platform {
            Platform::Windows => "LLVM-C.dll"@,
            Platform::MacOs => "libLLVM-C.dylib"@,
            Platform::Other => "libLLVM-C.so"@,
        }),
{
    match platform {
        Platform::Windows => "LLVM-C.dll",
        Platform::MacOs => "libLLVM-C.dylib",
        Platform::Other => "libLLVM-C.so",
    }
}

/// The directories in which the LLVM library usually is, on a platform.
pub open spec fn llvm_lib_places(platform: Platform) -> Seq<Text> {
    match platform {
        Platform::Windows => seq![
            "C:\\Program Files\\LLVM\\bin"@,
            "C:\\Program Files (x86)\\LLVM\\bin"@,
        ],
        Platform::MacOs => seq!["/usr/local/opt/llvm/lib"@, "/opt/homebrew/opt/llvm/lib"@],
        Platform::Other => seq![
            "/usr/lib/llvm-18/lib"@,
            "/usr/lib/llvm-17/lib"@,
            "/usr/lib/llvm-16/lib"@,
            "/usr/lib/x86_64-linux-gnu"@,
            "/usr/lib64"@,
            "/usr/lib"@,
        ],
    }
}

/// The directories in which the LLVM library usually is, on a platform.
pub fn llvm_lib_dirs(platform: Platform) -> (r: Vec<&'static str>)
    ensures
        str_texts(r@) == llvm_lib_places(platform),
{
    let r: Vec<&'static str> = match platform {
        Platform::Windows => vec!["C:\\Program Files\\LLVM\\bin", "C:\\Program Files (x86)\\LLVM\\bin"],
        Platform::MacOs => vec!["/usr/local/opt/llvm/lib", "/opt/homebrew/opt/llvm/lib"],
        Platform::Other => vec![
            "/usr/lib/llvm-18/lib",
            "/usr/lib/llvm-17/lib",
            "/usr/lib/llvm-16/lib",
            "/usr/lib/x86_64-linux-gnu",
            "/usr/lib64",
            "/usr/lib",
        ],
    };
    assert(str_texts(r@) == llvm_lib_places(platform));
    r
}

/// The LLVM library: the first one on the search path, else the first one where it usually is.
pub fn find_llvm_lib(in_path: &Vec<Candidate>, in_usual_places: &Vec<Candidate>) -> (r: Option<String>)
    ensures
        opt_text(r) == (match first_existing(in_path@) {
            Some(p) => Some(p),
            None => first_existing(in_usual_places@),
        }),
{
    match find_existing(in_path) {
        Some(p) => Some(p),
        None => find_existing(in_usual_places),
    }
}

/// Where clang usually is.
pub open spec fn clang_places() -> Seq<Text> {
    seq![
        "C:\\Program Files\\LLVM\\bin\\clang.exe"@,
        "C:\\Program Files (x86)\\LLVM\\bin\\clang.exe"@,
    ]
}

/// Where clang usually is.
pub fn usual_clang_places() -> (r: Vec<&'static str>)
    ensures
        str_texts(r@) == clang_places(),
{
    let r: Vec<&'static str> = vec![
        "C:\\Program Files\\LLVM\\bin\\clang.exe",
        "C:\\Program Files (x86)\\LLVM\\bin\\clang.exe",
    ];
    assert(str_texts(r@) == clang_places());
    r
}

/// Clang: the first one where it usually is, else the first one on the search path.
pub fn detect_clang(in_usual_places: &Vec<Candidate>, in_path: &Vec<Candidate>) -> (r: Option<String>)
    ensures
        opt_text(r) == (match first_existing(in_usual_places@) {
            Some(p) => Some(p),
            None => first_existing(in_path@),
        }),
{
    match find_existing(in_usual_places) {
        Some(p) => Some(p),
        None => find_existing(in_path),
    }
}

/// The script that sets the environment up, in an installation of Visual Studio.
pub open spec fn vcvars_in(installation: Text) -> Text {
    trimmed(installation) + "\\VC\\Auxiliary\\Build\\vcvars64.bat"@
}

/// The script that sets the environment up, in the installation that `vswhere` names.
pub fn vcvars_of(installation: &str) -> (r: String)
    ensures
        r@ == vcvars_in(installation@),
{
    cat2(&trim(installation), "\\VC\\Auxiliary\\Build\\vcvars64.bat")
}

/// Where the script that sets the environment up usually is.
pub open spec fn vcvars_places() -> Seq<Text> {
    seq![
        "C:\\Program Files\\Microsoft Visual Studio\\18\\Community\\VC\\Auxiliary\\Build\\vcvars64.bat"@,
        "C:\\Program Files (x86)\\Microsoft Visual Studio\\2019\\Community\\VC\\Auxiliary\\Build\\vcvars64.bat"@,
        "C:\\Program Files\\Microsoft Visual Studio\\2022\\Community\\VC\\Auxiliary\\Build\\vcvars64.bat"@,
    ]
}

/// Where the script that sets the environment up usually is.
pub fn usual_vcvars_places() -> (r: Vec<&'static str>)
    ensures
        str_texts(r@) == vcvars_places(),
{
    let r: Vec<&'static str> = vec![
        "C:\\Program Files\\Microsoft Visual Studio\\18\\Community\\VC\\Auxiliary\\Build\\vcvars64.bat",
        "C:\\Program Files (x86)\\Microsoft Visual Studio\\2019\\Community\\VC\\Auxiliary\\Build\\vcvars64.bat",
        "C:\\Program Files\\Microsoft Visual Studio\\2022\\Community\\VC\\Auxiliary\\Build\\vcvars64.bat",
    ];
    assert(str_texts(r@) == vcvars_places());
    r
}

/// The script that sets the environment up: the one of the installation that `vswhere` names, where it
/// is there, else the first one where it usually is.
pub fn detect_vcvars(named: &Option<Candidate>, in_usual_places: &Vec<Candidate>) -> (r: Option<String>)
    ensures
        opt_text(r) == (match *named {
            Some(c) => if c.exists {
                Some(c.path@)
            } else {
                first_existing(in_usual_places@)
            },
            None => first_existing(in_usual_places@),
        }),
{
    match named {
        Some(c) => {
            if c.exists {
                return Some(c.path.clone());
            }
        },
        None => {},
    }
    find_existing(in_usual_places)
}

// ---------------------------------------------------------------------------------------------
// The build script
// ---------------------------------------------------------------------------------------------
/// The files of a build.
pub struct BuildFiles {
    pub ll: String,
    pub obj: String,
    pub exe: String,
    pub runtime_c: String,
    pub runtime_obj: String,
}

/// The tools of a build, where they were found.
pub struct Tools {
    pub vcvars: Option<String>,
    pub clang: Option<String>,
}

/// The optimisation level of a build as a number.
pub fn opt_level_number(hw: &HardwareInfo) -> (r: i32)
    ensures
        r == (if low_memory(hw.memory) {
            2i32
        } else {
            3i32
        }),
{
    if is_low_memory(&hw.memory) {
        2
    } else {
        3
    }
}

/// The processor as clang names it: with a hyphen in `x86-64`.
pub open spec fn march_of(name: Text) -> Text {
    joined(pieces(name, "x86_64"@), "x86-64"@)
}

fn march_text(name: &str) -> (r: String)
    ensures
        r@ == march_of(name@),
{
    proof {
        reveal_strlit("x86_64");
    }
    join(&split(name, "x86_64"), "x86-64")
}

/// The features to compile for, with commas between them.
pub open spec fn feature_list(hw: HardwareInfo) -> Text {
    joined(hw.cpu.simd.features(), ","@)
}

/// The features to compile for, with commas between them.
pub fn llvm_feature_list(hw: &HardwareInfo) -> (r: String)
    ensures
        r@ == feature_list(*hw),
{
    let features = hw.cpu.simd.to_llvm_features();
    let mut list: Vec<String> = Vec::new();
    let mut i: usize = 0;
    while i < features.len()
        invariant
            i <= features@.len(),
            texts(list@) == str_texts(features@).take(i as int),
        decreases features.len() - i,
    {
        let ghost before = list@;
        list.push(owned(features[i]));
        assert(texts(list@) == texts(before).push(features@[i as int]@));
        assert(str_texts(features@).take(i + 1) == str_texts(features@).take(i as int).push(
            features@[i as int]@,
        ));
        i += 1;
    }
    assert(str_texts(features@).take(i as int) == str_texts(features@));
    join(&list, ",")
}

/// Libraries as they are written behind the object files, each in quotes.
pub open spec fn lib_args(libs: Seq<Text>) -> Text
    decreases libs.len(),
{
    if libs.len() == 0 {
        ""@
    } else {
        lib_args(libs.drop_last()) + (" \""@ + libs.last() + "\""@)
    }
}

fn lib_args_text(libs: &Vec<String>) -> (r: String)
    ensures
        r@ == lib_args(texts(libs@)),
{
    let mut r = owned("");
    let mut i: usize = 0;
    while i < libs.len()
        invariant
            i <= libs@.len(),
            r@ == lib_args(texts(libs@).take(i as int)),
        decreases libs.len() - i,
    {
        r.append(&cat3(" \"", &libs[i], "\""));
        assert(texts(libs@).take(i + 1).drop_last() == texts(libs@).take(i as int));
        i += 1;
    }
    assert(texts(libs@).take(i as int) == texts(libs@));
    r
}

/// The script that sets the environment up and compiles the LLVM text.
pub open spec fn compile_step(files: BuildFiles, vcvars: Text, clang: Text, hw: HardwareInfo) -> Text {
    "@echo off\r\ncall \""@ + vcvars
        + "\" x64 >nul 2>&1\r\nif errorlevel 1 exit /b 1\r\n\r\n:: Compile LLVM IR to object file (hardware-adaptive)\r\n\""@
        + clang + "\" -c \""@ + files.ll@ + "\" -o \""@ + files.obj@ + "\" -target "@ + hw.os.triple@
        + " -"@ + crate::hardware::opt_level(hw) + " -march="@ + march_of(hw.cpu.name@)
        + " -Xclang -target-feature -Xclang "@ + feature_list(hw)
        + "\r\nif errorlevel 1 exit /b 1\r\n\r\n"@
}

/// The script that compiles the runtime and links.
pub open spec fn link_step(files: BuildFiles, libs: Seq<Text>) -> Text {
    ":: Compile runtime C to object file\r\ncl.exe /nologo /TP /EHsc /std:c++17 /arch:AVX2 /c \""@
        + files.runtime_c@ + "\" /Fo:\""@ + files.runtime_obj@
        + "\" /utf-8\r\nif errorlevel 1 exit /b 1\r\n\r\n:: Link objects into executable\r\nlink.exe /nologo \""@
        + files.obj@ + "\" \""@ + files.runtime_obj@ + "\""@ + lib_args(libs) + " /OUT:\""@ + files.exe@
        + "\" /defaultlib:libcmt.lib\r\nexit /b %errorlevel%\r\n"@
}

/// The build script, or what is missing for it.
pub open spec fn build_script(
    files: BuildFiles,
    tools: Tools,
    hw: HardwareInfo,
    libs: Seq<Text>,
) -> core::result::Result<Text, Text> {
    match (opt_text(tools.vcvars), opt_text(tools.clang)) {
        (None, _) => Err(
            "Visual Studio 2019/2022/2025 not found. Install Build Tools or set PATH manually."@,
        ),
        (Some(_), None) => Err(
            "clang.exe not found. Install LLVM from https://llvm.org or add it to PATH."@,
        ),
        (Some(vcvars), Some(clang)) => Ok(
            compile_step(files, vcvars, clang, hw) + link_step(files, libs),
        ),
    }
}

/// An internal error at no particular place.
pub open spec fn internal(e: YkError, msg: Text) -> bool {
    &&& e.kind == ErrorKind::Internal
    &&& e.span.start == 0
    &&& e.span.end == 0
    &&& e.msg@ == msg
    &&& e.source is None
    &&& e.file is None
    &&& e.help is None
}

/// An internal error at no particular place.
pub(crate) fn internal_error(msg: &str) -> (r: YkError)
    ensures
        internal(r, msg@),
{
    err(ErrorKind::Internal, Span::new(0, 0), msg)
}

/// The script that turns LLVM text into an executable.
pub fn compile_to_exe(files: &BuildFiles, tools: &Tools, hw: &HardwareInfo) -> (r: Result<String>)
    ensures
        match r {
            Ok(script) => build_script(*files, *tools, *hw, seq![]) == Ok::<Text, Text>(script@),
            Err(e) => build_script(*files, *tools, *hw, seq![]) is Err && internal(
                e,
                build_script(*files, *tools, *hw, seq![])->Err_0,
            ),
        },
{
    let none: Vec<String> = Vec::new();
    assert(texts(none@) == Seq::<Text>::empty());
    compile_to_exe_with_extra_libs(files, tools, hw, &none)
}

/// The script that turns LLVM text into an executable, with further libraries.
pub fn compile_to_exe_with_extra_libs(
    files: &BuildFiles,
    tools: &Tools,
    hw: &HardwareInfo,
    extra_libs: &Vec<String>,
) -> (r: Result<String>)
    ensures
        match r {
            Ok(script) => build_script(*files, *tools, *hw, texts(extra_libs@)) == Ok::<Text, Text>(
                script@,
            ),
            Err(e) => build_script(*files, *tools, *hw, texts(extra_libs@)) is Err && internal(
                e,
                build_script(*files, *tools, *hw, texts(extra_libs@))->Err_0,
            ),
        },
{
    match (&tools.vcvars, &tools.clang) {
        (None, _) => Err(
            internal_error(
                "Visual Studio 2019/2022/2025 not found. Install Build Tools or set PATH manually.",
            ),
        ),
        (Some(_), None) => Err(
            internal_error(
                "clang.exe not found. Install LLVM from https://llvm.org or add it to PATH.",
            ),
        ),
        (Some(vcvars), Some(clang)) => {
            let first = cat16(
                "@echo off\r\ncall \"",
                vcvars,
                "\" x64 >nul 2>&1\r\nif errorlevel 1 exit /b 1\r\n\r\n:: Compile LLVM IR to object file (hardware-adaptive)\r\n\"",
                clang,
                "\" -c \"",
                &files.ll,
                "\" -o \"",
                &files.obj,
                "\" -target ",
                &hw.os.triple,
                " -",
                crate::hardware::recommended_opt_level(hw),
                " -march=",
                &march_text(&hw.cpu.name),
                " -Xclang -target-feature -Xclang ",
                &llvm_feature_list(hw),
            );
            let first = cat2(&first, "\r\nif errorlevel 1 exit /b 1\r\n\r\n");
            let second = cat11(
                ":: Compile runtime C to object file\r\ncl.exe /nologo /TP /EHsc /std:c++17 /arch:AVX2 /c \"",
                &files.runtime_c,
                "\" /Fo:\"",
                &files.runtime_obj,
                "\" /utf-8\r\nif errorlevel 1 exit /b 1\r\n\r\n:: Link objects into executable\r\nlink.exe /nologo \"",
                &files.obj,
                "\" \"",
                &files.runtime_obj,
                "\"",
                &lib_args_text(extra_libs),
                " /OUT:\"",
            );
            let second = cat3(
                &second,
                &files.exe,
                "\" /defaultlib:libcmt.lib\r\nexit /b %errorlevel%\r\n",
            );
            Ok(cat2(&first, &second))
        },
    }
}

/// What a build that failed says.
pub open spec fn failure_text(code: int, stdout: Text, stderr: Text) -> Text {
    "Compilation failed (exit="@ + int_dec(code) + "):\nSTDOUT:\n"@ + stdout + "\nSTDERR:\n"@ + stderr
}

/// The outcome of a build script: an error where it did not succeed. A script that was stopped has no
/// exit code; -1 stands for it.
pub fn build_outcome(success: bool, code: Option<i32>, stdout: &str, stderr: &str) -> (r: Result<()>)
    ensures
        r is Ok <==> success,
        !success ==> internal(
            r->Err_0,
            failure_text(
                match code {
                    Some(c) => c as int,
                    None => -1,
                },
                stdout@,
                stderr@,
            ),
        ),
{
    if success {
        Ok(())
    } else {
        let n: i64 = match code {
            Some(c) => c as i64,
            None => -1,
        };
        Err(
            internal_error(
                &cat6(
                    "Compilation failed (exit=",
                    &int_text(n),
                    "):\nSTDOUT:\n",
                    stdout,
                    "\nSTDERR:\n",
                    stderr,
                ),
            ),
        )
    }
}

/// The command that compiles the runtime on its own.
pub fn runtime_command(vcvars: &str, runtime_c: &str, runtime_obj: &str) -> (r: String)
    ensures
        r@ == "\""@ + vcvars@ + "\" x64 >nul 2>&1 && cl.exe /nologo /TP /EHsc /std:c++17 /arch:AVX2 /c \""@
            + runtime_c@ + "\" /Fo:\""@ + runtime_obj@ + "\" /utf-8"@,
{
    cat7(
        "\"",
        vcvars,
        "\" x64 >nul 2>&1 && cl.exe /nologo /TP /EHsc /std:c++17 /arch:AVX2 /c \"",
        runtime_c,
        "\" /Fo:\"",
        runtime_obj,
        "\" /utf-8",
    )
}

/// The command that links a program with the runtime.
pub fn link_command(vcvars: &str, obj: &str, runtime_obj: &str, exe: &str) -> (r: String)
    ensures
        r@ == "\""@ + vcvars@ + "\" x64 >nul 2>&1 && link.exe /nologo \""@ + obj@ + "\" \""@ + runtime_obj@
            + "\" /OUT:\""@ + exe@ + "\" /defaultlib:libcmt.lib"@,
{
    cat9(
        "\"",
        vcvars,
        "\" x64 >nul 2>&1 && link.exe /nologo \"",
        obj,
        "\" \"",
        runtime_obj,
        "\" /OUT:\"",
        exe,
        "\" /defaultlib:libcmt.lib",
    )
}

/// The script that compiles a C program.
pub fn c_build_script(vcvars: &str, c_path: &str, exe_path: &str) -> (r: String)
    ensures
        r@ == "@echo off\ncall \""@ + vcvars@
            + "\" x64 >nul 2>&1\nif errorlevel 1 exit /b 1\ncl.exe /nologo /std:c11 /O2 /utf-8 \""@ + c_path@
            + "\" /Fe:\""@ + exe_path@
            + "\" /link /defaultlib:libcmt.lib\nexit /b %errorlevel%\n"@,
{
    cat7(
        "@echo off\ncall \"",
        vcvars,
        "\" x64 >nul 2>&1\nif errorlevel 1 exit /b 1\ncl.exe /nologo /std:c11 /O2 /utf-8 \"",
        c_path,
        "\" /Fe:\"",
        exe_path,
        "\" /link /defaultlib:libcmt.lib\nexit /b %errorlevel%\n",
    )
}

// ---------------------------------------------------------------------------------------------
// What is found
// ---------------------------------------------------------------------------------------------
/// What is found is the first place at which something is: nothing is at any place before it. Nothing is found exactly
/// where nothing is at any place.
pub proof fn lemma_first_is_found(places: Seq<Candidate>)
    ensures
        match first_existing(places) {
            Some(path) => exists|i: int|
                0 <= i < places.len() && (#[trigger] places[i]).exists && places[i].path@ == path && forall|j: int|
                    0 <= j < i ==> !(#[trigger] places[j]).exists,
            None => forall|j: int| 0 <= j < places.len() ==> !(#[trigger] places[j]).exists,
        },
    decreases places.len(),
{
    if places.len() > 0 && !places[0].exists {
        let rest = places.skip(1);
        lemma_first_is_found(rest);
        assert forall|j: int| 0 < j < places.len() implies #[trigger] places[j] == rest[j - 1] by {}
        match first_existing(rest) {
            Some(path) => {
                let i = choose|i: int|
                    0 <= i < rest.len() && (#[trigger] rest[i]).exists && rest[i].path@ == path && forall|j: int|
                        0 <= j < i ==> !(#[trigger] rest[j]).exists;
                assert(places[i + 1] == rest[i]);
                assert forall|j: int| 0 <= j < i + 1 implies !(#[trigger] places[j]).exists by {
                    if j > 0 {
                        assert(places[j] == rest[j - 1]);
                    }
                }
            },
            None => {},
        }
    }
}

/// An import of a library that is not supported is an error, and nothing else is.
pub proof fn lemma_errors_are_unsupported(imports: Seq<Import>, file: Text, unsupported: Seq<Text>)
    ensures
        import_errors(imports, file, unsupported).len() > 0 <==> exists|i: int|
            0 <= i < imports.len() && (#[trigger] imports[i]).lang is None && unsupported.contains(imports[i].source@),
    decreases imports.len(),
{
    if imports.len() > 0 {
        let before = imports.drop_last();
        lemma_errors_are_unsupported(before, file, unsupported);
        if import_errors(before, file, unsupported).len() > 0 {
            let i = choose|i: int|
                0 <= i < before.len() && (#[trigger] before[i]).lang is None && unsupported.contains(before[i].source@);
            assert(imports[i] == before[i]);
        }
        if exists|i: int|
            0 <= i < imports.len() && (#[trigger] imports[i]).lang is None && unsupported.contains(imports[i].source@) {
            let i = choose|i: int|
                0 <= i < imports.len() && (#[trigger] imports[i]).lang is None && unsupported.contains(imports[i].source@);
            if i < before.len() {
                assert(before[i] == imports[i]);
            }
        }
        assert(imports[imports.len() - 1] == imports.last());
    }
}

/// Every import of Rust or C++ has its library linked.
pub proof fn lemma_foreign_is_linked(imports: Seq<Import>, i: int)
    requires
        0 <= i < imports.len(),
        imports[i].lang is Some,
        imports[i].lang->0@ == "rust"@ || imports[i].lang->0@ == "c++"@,
    ensures
        import_libs(imports).contains(ffi_lib(imports[i].source@)),
    decreases imports.len(),
{
    let before = imports.drop_last();
    let list = import_libs(before);
    let all = import_libs(imports);
    if i < before.len() {
        assert(before[i] == imports[i]);
        lemma_foreign_is_linked(before, i);
        let k = choose|k: int| 0 <= k < list.len() && list[k] == ffi_lib(imports[i].source@);
        assert(all[k] == list[k]);
    } else {
        assert(all[list.len() as int] == ffi_lib(imports[i].source@));
    }
}

} // verus!
