//! Back ends: what modules are compiled with.

use vstd::prelude::*;

use crate::codegen::toolchain::{ffi_lib_names, internal_error, module_libs, validate_modules};
use crate::codegen::llvm::module::{compile_to_llvm_modules, llvm_text};
use crate::diagnostics::error::Result;
use crate::hardware::{detect, HardwareInfo, Probe};
use crate::scan::{join, texts};
use crate::syntax::ast::Module;
use crate::text::{owned, Text};

verus! {

/// What is to be built: the LLVM text, and the import libraries to look for.
pub struct Artifact {
    pub llvm_ir: String,
    pub ffi_libs: Vec<String>,
}

/// What a back end has written down of its compilations: a word for each, and where each goes.
pub struct Record {
    pub modules: Seq<Text>,
    pub output_paths: Seq<Text>,
}

/// A back end turns modules into what is to be built.
pub trait CodegenBackend {
    /// What this back end has written down; nothing, unless it says otherwise.
    open spec fn written(&self) -> Record {
        Record { modules: seq![], output_paths: seq![] }
    }

    /// `r` is what this back end answers when it compiles modules for a machine, and `after` what it
    /// has then written down. Nothing is promised of a back end that does not say what it does.
    open spec fn built(
        &self,
        after: Record,
        modules: Seq<&Module>,
        output_path: Text,
        hw: HardwareInfo,
        r: Result<Artifact>,
    ) -> bool {
        true
    }

    /// Compiles modules for the machine that the probe tells of.
    fn compile(&mut self, modules: &[&Module], output_path: &str, probe: &Probe) -> (r: Result<Artifact>)
        ensures
            exists|hw: HardwareInfo|
                call_ensures(detect, (probe,), hw) && #[trigger] old(self).built(
                    final(self).written(),
                    modules@,
                    output_path@,
                    hw,
                    r,
                ),
    {
        let hw = detect(probe);
        self.compile_with_info(modules, output_path, &hw)
    }

    /// Compiles modules for a machine.
    fn compile_with_info(&mut self, modules: &[&Module], output_path: &str, hw: &HardwareInfo) -> (r: Result<Artifact>)
        ensures
            old(self).built(final(self).written(), modules@, output_path@, *hw, r),
    ;

    /// Compiles modules for a machine, their files being known.
    fn compile_with_paths(
        &mut self,
        modules: &[&Module],
        file_paths: &Vec<String>,
        output_path: &str,
        hw: &HardwareInfo,
    ) -> (r: Result<Artifact>)
        ensures
            old(self).built(final(self).written(), modules@, output_path@, *hw, r),
    {
        self.compile_with_info(modules, output_path, hw)
    }

    /// The name of the back end.
    fn name(&self) -> (r: &'static str);
}

/// The back end that compiles ahead of time through LLVM.
pub struct LlvmBackend;

impl CodegenBackend for LlvmBackend {
    /// The text of the modules and the libraries that they ask for, whatever the machine is.
    open spec fn built(
        &self,
        after: Record,
        modules: Seq<&Module>,
        output_path: Text,
        hw: HardwareInfo,
        r: Result<Artifact>,
    ) -> bool {
        &&& after == self.written()
        &&& r is Ok
        &&& r->Ok_0.llvm_ir@ == llvm_text(modules)
        &&& texts(r->Ok_0.ffi_libs@) == module_libs(modules)
    }

    fn compile_with_info(&mut self, modules: &[&Module], output_path: &str, hw: &HardwareInfo) -> (r: Result<Artifact>) {
        let none: Vec<String> = Vec::new();
        self.compile_with_paths(modules, &none, output_path, hw)
    }

    fn compile_with_paths(
        &mut self,
        modules: &[&Module],
        file_paths: &Vec<String>,
        output_path: &str,
        hw: &HardwareInfo,
    ) -> (r: Result<Artifact>) {
        let errors = validate_modules(modules, file_paths);
        if errors.len() > 0 {
            return Err(internal_error(&join(&errors, "\n")));
        }
        Ok(Artifact { llvm_ir: compile_to_llvm_modules(modules), ffi_libs: ffi_lib_names(modules) })
    }

    fn name(&self) -> (r: &'static str)
        ensures
            r@ == "LLVM AOT (adaptive)"@,
    {
        "LLVM AOT (adaptive)"
    }
}

/// A back end that only writes down what it is asked for.
pub struct MockBackend {
    pub modules: Vec<String>,
    pub output_paths: Vec<String>,
}

impl MockBackend {
    /// A back end that nothing was asked of yet.
    pub fn new() -> (r: Self)
        ensures
            r.modules@.len() == 0,
            r.output_paths@.len() == 0,
    {
        MockBackend { modules: Vec::new(), output_paths: Vec::new() }
    }
}

/// `after` is `before` with one more compilation written down.
pub open spec fn recorded(before: Record, after: Record, output_path: Text) -> bool {
    &&& after.modules == before.modules.push("compiled"@)
    &&& after.output_paths == before.output_paths.push(output_path)
}

impl CodegenBackend for MockBackend {
    open spec fn written(&self) -> Record {
        Record { modules: texts(self.modules@), output_paths: texts(self.output_paths@) }
    }

    /// Nothing to build, and one more compilation written down.
    open spec fn built(
        &self,
        after: Record,
        modules: Seq<&Module>,
        output_path: Text,
        hw: HardwareInfo,
        r: Result<Artifact>,
    ) -> bool {
        &&& r is Ok
        &&& r->Ok_0.llvm_ir@ == ""@
        &&& r->Ok_0.ffi_libs@.len() == 0
        &&& recorded(self.written(), after, output_path)
    }

    fn compile_with_info(&mut self, modules: &[&Module], output_path: &str, hw: &HardwareInfo) -> (r: Result<Artifact>) {
        self.modules.push(owned("compiled"));
        self.output_paths.push(owned(output_path));
        assert(texts(self.modules@) == texts(old(self).modules@).push("compiled"@));
        assert(texts(self.output_paths@) == texts(old(self).output_paths@).push(output_path@));
        Ok(Artifact { llvm_ir: owned(""), ffi_libs: Vec::new() })
    }

    fn name(&self) -> (r: &'static str)
        ensures
            r@ == "mock"@,
    {
        "mock"
    }
}

} // verus!
