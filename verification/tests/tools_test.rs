//! The command line and the tools of a build.

use yidika::cli::{execute, parse_args, watch_step, Command, Job, USAGE};
use yidika::codegen::toolchain::{
    build_outcome, c_build_script, compile_to_exe, compile_to_exe_with_extra_libs, find_existing, find_llvm_lib,
    link_command, llvm_feature_list, llvm_lib_dirs, llvm_lib_name, opt_level_number, runtime_command, BuildFiles,
    Candidate, Platform, Tools,
};
use yidika::diagnostics::error::ErrorKind;
use yidika::hardware::cpu::{CpuProbe, Registers};
use yidika::hardware::memory::reported;
use yidika::hardware::{assemble, HardwareInfo, Probe};

fn args(list: &[&str]) -> Vec<String> {
    list.iter().map(|s| s.to_string()).collect()
}

fn command(list: &[&str]) -> Command {
    parse_args(&args(list)).unwrap()
}

#[test]
fn commands_are_read() {
    assert!(matches!(command(&["yidi", "info"]), Command::Info));
    assert!(matches!(command(&["yidi", "sync", "x"]), Command::Sync));
    assert!(matches!(command(&["yidi", "install"]), Command::Sync));
    assert!(matches!(command(&["yidi", "add", "p"]), Command::Add(p) if p == "p"));
    assert!(matches!(command(&["yidi", "run", "a.yk"]), Command::Run(f, false) if f == "a.yk"));
    assert!(matches!(command(&["yidi", "build", "a.yk"]), Command::Build(f, false) if f == "a.yk"));
    assert!(
        matches!(command(&["yidi", "build", "a.yk", "--watch"]), Command::Build(f, true) if f == "a.yk")
    );
    assert!(matches!(
        command(&["yidi", "build", "a.yk", "--info", "--watch"]),
        Command::BuildWithInfo(f, true) if f == "a.yk"
    ));
}

#[test]
fn a_file_alone_is_run() {
    assert!(matches!(command(&["yidi", "test.yk"]), Command::Run(f, false) if f == "test.yk"));
    assert!(matches!(command(&["yidi", "test.yk", "--watch"]), Command::Run(f, true) if f == "test.yk"));
    assert!(matches!(command(&["yidi", "run", "test.yk", "--watch"]), Command::Run(f, true) if f == "test.yk"));
}

#[test]
fn missing_arguments_are_answered_with_the_usage() {
    assert_eq!(parse_args(&args(&["yidi"])).unwrap_err(), USAGE);
    assert_eq!(parse_args(&args(&[])).unwrap_err(), USAGE);
    assert_eq!(parse_args(&args(&["yidi", "build"])).unwrap_err(), "Usage: yidi build <file>");
    assert_eq!(parse_args(&args(&["yidi", "run"])).unwrap_err(), "Usage: yidi run <file>");
    assert_eq!(parse_args(&args(&["yidi", "add"])).unwrap_err(), "Usage: yidi add <package>");
    assert_eq!(USAGE.lines().count(), 9);
}

#[test]
fn commands_become_jobs() {
    assert!(matches!(
        execute(Command::BuildWithInfo("a".to_string(), true)),
        Job::Build { path, watch: true, show_info: true } if path == "a"
    ));
    assert!(matches!(
        execute(Command::Build("a".to_string(), false)),
        Job::Build { path, watch: false, show_info: false } if path == "a"
    ));
    assert!(matches!(
        execute(Command::Run("a".to_string(), true)),
        Job::Run { path, watch: true } if path == "a"
    ));
    assert!(matches!(execute(Command::Info), Job::ShowInfo));
    assert!(matches!(execute(Command::Sync), Job::SyncPackages));
    assert!(matches!(execute(Command::Add("p".to_string())), Job::AddPackage(p) if p == "p"));
}

#[test]
fn a_watched_file_starts_over_when_it_changes() {
    assert_eq!(watch_step(Some(5), Some(5)), (Some(5), false));
    assert_eq!(watch_step(Some(5), Some(6)), (Some(6), true));
    assert_eq!(watch_step(Some(5), Some(4)), (Some(5), false));
    assert_eq!(watch_step(None, Some(1)), (Some(1), true));
    assert_eq!(watch_step(Some(5), None), (Some(5), false));
    assert_eq!(watch_step(None, None), (None, false));
}

fn place(path: &str, exists: bool) -> Candidate {
    Candidate { path: path.to_string(), exists }
}

#[test]
fn the_first_place_that_exists_is_taken() {
    let places = vec![place("a", false), place("b", true), place("c", true)];
    assert_eq!(find_existing(&places), Some("b".to_string()));
    assert_eq!(find_existing(&vec![]), None);
    assert_eq!(find_llvm_lib(&vec![place("p", false)], &places), Some("b".to_string()));
    assert_eq!(find_llvm_lib(&vec![place("p", true)], &places), Some("p".to_string()));
    assert_eq!(find_llvm_lib(&vec![], &vec![place("u", false)]), None);
}

#[test]
fn the_llvm_library_is_named_by_the_platform() {
    assert_eq!(llvm_lib_name(Platform::Windows), "LLVM-C.dll");
    assert_eq!(llvm_lib_name(Platform::MacOs), "libLLVM-C.dylib");
    assert_eq!(llvm_lib_name(Platform::Other), "libLLVM-C.so");
    assert_eq!(llvm_lib_dirs(Platform::Windows).len(), 2);
    assert_eq!(llvm_lib_dirs(Platform::MacOs)[1], "/opt/homebrew/opt/llvm/lib");
    assert_eq!(llvm_lib_dirs(Platform::Other)[5], "/usr/lib");
}

fn machine(total: u64) -> HardwareInfo {
    let probe = Probe {
        cpu: CpuProbe {
            arch: "x86_64".to_string(),
            parallelism: Some(2),
            llvm_name: None,
            registers: Registers::Arm { sve: true },
        },
        os: "windows".to_string(),
        family: "windows".to_string(),
        wmic: None,
        lspci: None,
    };
    assemble(&probe, 0, reported(total, 0))
}

fn files() -> BuildFiles {
    BuildFiles {
        ll: "p.ll".to_string(),
        obj: "p.obj".to_string(),
        exe: "p.exe".to_string(),
        runtime_c: "rt.c".to_string(),
        runtime_obj: "rt.obj".to_string(),
    }
}

fn tools(vcvars: Option<&str>, clang: Option<&str>) -> Tools {
    Tools { vcvars: vcvars.map(|s| s.to_string()), clang: clang.map(|s| s.to_string()) }
}

#[test]
fn the_build_script_names_every_file() {
    let script = compile_to_exe_with_extra_libs(
        &files(),
        &tools(Some("vc.bat"), Some("clang.exe")),
        &machine(1),
        &args(&["a.lib", "b.lib"]),
    )
    .unwrap();
    assert_eq!(
        script,
        "@echo off\r\ncall \"vc.bat\" x64 >nul 2>&1\r\nif errorlevel 1 exit /b 1\r\n\r\n\
         :: Compile LLVM IR to object file (hardware-adaptive)\r\n\
         \"clang.exe\" -c \"p.ll\" -o \"p.obj\" -target x86_64-pc-windows -O2 -march=x86-64 \
         -Xclang -target-feature -Xclang +neon,+sve\r\nif errorlevel 1 exit /b 1\r\n\r\n\
         :: Compile runtime C to object file\r\n\
         cl.exe /nologo /TP /EHsc /std:c++17 /arch:AVX2 /c \"rt.c\" /Fo:\"rt.obj\" /utf-8\r\n\
         if errorlevel 1 exit /b 1\r\n\r\n\
         :: Link objects into executable\r\n\
         link.exe /nologo \"p.obj\" \"rt.obj\" \"a.lib\" \"b.lib\" /OUT:\"p.exe\" /defaultlib:libcmt.lib\r\n\
         exit /b %errorlevel%\r\n"
    );
    let plain = compile_to_exe(&files(), &tools(Some("vc.bat"), Some("clang.exe")), &machine(1)).unwrap();
    assert_eq!(plain, script.replace(" \"a.lib\" \"b.lib\"", ""));
}

#[test]
fn missing_tools_are_errors() {
    let e = compile_to_exe(&files(), &tools(None, Some("clang.exe")), &machine(1)).unwrap_err();
    assert_eq!(e.kind, ErrorKind::Internal);
    assert_eq!(e.msg, "Visual Studio 2019/2022/2025 not found. Install Build Tools or set PATH manually.");
    let e = compile_to_exe(&files(), &tools(Some("vc.bat"), None), &machine(1)).unwrap_err();
    assert_eq!(e.msg, "clang.exe not found. Install LLVM from https://llvm.org or add it to PATH.");
}

#[test]
fn the_outcome_of_a_build() {
    assert!(build_outcome(true, Some(0), "o", "e").is_ok());
    let e = build_outcome(false, Some(-2), "o", "e").unwrap_err();
    assert_eq!(e.msg, "Compilation failed (exit=-2):\nSTDOUT:\no\nSTDERR:\ne");
    let e = build_outcome(false, None, "", "").unwrap_err();
    assert_eq!(e.msg, "Compilation failed (exit=-1):\nSTDOUT:\n\nSTDERR:\n");
}

#[test]
fn levels_and_features_of_a_build() {
    assert_eq!(opt_level_number(&machine(1)), 2);
    assert_eq!(opt_level_number(&machine(8_000_000_000)), 3);
    assert_eq!(llvm_feature_list(&machine(1)), "+neon,+sve");
}

#[test]
fn commands_of_a_fast_build() {
    assert_eq!(
        runtime_command("vc", "rt.c", "rt.obj"),
        "\"vc\" x64 >nul 2>&1 && cl.exe /nologo /TP /EHsc /std:c++17 /arch:AVX2 /c \"rt.c\" /Fo:\"rt.obj\" /utf-8"
    );
    assert_eq!(
        link_command("vc", "p.obj", "rt.obj", "p.exe"),
        "\"vc\" x64 >nul 2>&1 && link.exe /nologo \"p.obj\" \"rt.obj\" /OUT:\"p.exe\" /defaultlib:libcmt.lib"
    );
    assert_eq!(
        c_build_script("vc", "p.c", "p.exe"),
        "@echo off\ncall \"vc\" x64 >nul 2>&1\nif errorlevel 1 exit /b 1\n\
         cl.exe /nologo /std:c11 /O2 /utf-8 \"p.c\" /Fe:\"p.exe\" /link /defaultlib:libcmt.lib\nexit /b %errorlevel%\n"
    );
}
