//! Emitting object code, and the tools around it.

use yidika::codegen::emit::{
    error_message, machine_settings, orc_error_message, Answer, Call, OrcError, Output, Session,
};
use yidika::codegen::toolchain::{
    detect_clang, detect_vcvars, usual_clang_places, usual_vcvars_places, vcvars_of, Candidate,
};
use yidika::diagnostics::error::ErrorKind;
use yidika::hardware::cpu::{CpuProbe, Registers};
use yidika::hardware::memory::reported;
use yidika::hardware::{assemble, HardwareInfo, Probe};
use yidika::socket::peer_of;

/// The calls of a session in which `at` is answered with `answer` and everything else works.
fn run(output: Output, at: Option<Call>, answer: Answer) -> (Vec<Call>, Session) {
    let mut session = Session::new(output, "x86_64-pc-windows");
    let mut calls = vec![];
    while let Some(call) = session.call() {
        calls.push(call);
        session.answer(if Some(call) == at { &answer } else { &Answer::Done });
    }
    (calls, session)
}

const FILE: Output = Output::File { runtime: false };

#[test]
fn an_emission_to_a_file_that_works() {
    let (calls, session) = run(FILE, None, Answer::Done);
    assert_eq!(
        calls,
        vec![
            Call::InitTargets,
            Call::CreateContext,
            Call::MakeText,
            Call::CreateBuffer,
            Call::ParseText,
            Call::SetTarget,
            Call::RunPasses,
            Call::FirstTarget,
            Call::CreateMachine,
            Call::SetLayout,
            Call::Emit,
            Call::DisposeMachine,
            Call::DisposeModule,
            Call::DisposeContext,
        ]
    );
    assert!(session.outcome().is_ok());
}

#[test]
fn an_emission_to_memory_that_works() {
    let (calls, session) = run(Output::Memory, None, Answer::Done);
    assert_eq!(
        calls[4..],
        [
            Call::ParseText,
            Call::DisposeBuffer,
            Call::RunPasses,
            Call::SetTarget,
            Call::FirstTarget,
            Call::CreateMachine,
            Call::SetLayout,
            Call::Emit,
            Call::WriteObject,
            Call::DisposeOutput,
            Call::DisposeMachine,
            Call::DisposeModule,
            Call::DisposeContext,
        ]
    );
    assert!(session.outcome().is_ok());
}

#[test]
fn the_runtime_is_linked_where_it_can_be() {
    let output = Output::File { runtime: true };
    let (calls, _) = run(output, None, Answer::Done);
    assert_eq!(
        calls[5..11],
        [
            Call::CreateRuntimeBuffer,
            Call::ParseRuntime,
            Call::TargetRuntime,
            Call::LinkRuntime,
            Call::DisposeRuntimeBuffer,
            Call::SetTarget,
        ]
    );
    let (calls, session) = run(output, Some(Call::CreateRuntimeBuffer), Answer::Null);
    assert_eq!(calls[5..7], [Call::CreateRuntimeBuffer, Call::SetTarget]);
    assert!(session.outcome().is_ok());
    let (calls, session) = run(output, Some(Call::ParseRuntime), Answer::Failed(None));
    assert_eq!(calls[5..9], [Call::CreateRuntimeBuffer, Call::ParseRuntime, Call::DisposeRuntimeBuffer, Call::SetTarget]);
    assert!(session.outcome().is_ok());
}

#[test]
fn a_target_is_looked_up_where_there_is_no_first_one() {
    let (calls, session) = run(FILE, Some(Call::FirstTarget), Answer::Null);
    assert!(calls.contains(&Call::TargetOfTriple));
    assert!(session.outcome().is_ok());
}

#[test]
fn every_failure_has_its_error_and_its_cleanup() {
    let message = || Answer::Failed(Some("why".to_string()));
    let cases: Vec<(Output, Call, Answer, ErrorKind, &str, Vec<Call>)> = vec![
        (FILE, Call::MakeText, Answer::Failed(None), ErrorKind::Internal, "LLVM IR contains null byte", vec![]),
        (
            FILE,
            Call::CreateBuffer,
            Answer::Null,
            ErrorKind::Internal,
            "LLVM: failed to create memory buffer",
            vec![Call::DisposeContext],
        ),
        (
            FILE,
            Call::ParseText,
            message(),
            ErrorKind::Internal,
            "LLVM IR parse failed: why",
            vec![Call::DisposeBuffer, Call::DisposeContext],
        ),
        (
            Output::Memory,
            Call::ParseText,
            Answer::Failed(None),
            ErrorKind::Internal,
            "LLVM IR parse failed: unknown error",
            vec![Call::DisposeBuffer, Call::DisposeContext],
        ),
        (
            FILE,
            Call::CreateMachine,
            Answer::Null,
            ErrorKind::Internal,
            "LLVM: failed to create target machine (architecture not supported?)",
            vec![Call::DisposeModule, Call::DisposeContext],
        ),
        (
            Output::Memory,
            Call::CreateMachine,
            Answer::Null,
            ErrorKind::Internal,
            "LLVM: failed to create target machine",
            vec![Call::DisposeModule, Call::DisposeContext],
        ),
        (
            Output::Memory,
            Call::Emit,
            message(),
            ErrorKind::Internal,
            "LLVM emit failed: why",
            vec![Call::DisposeMachine, Call::DisposeModule, Call::DisposeContext],
        ),
        (Output::Memory, Call::WriteObject, message(), ErrorKind::Io, "Failed to write obj: why", vec![]),
    ];
    for (output, at, answer, kind, text, cleanup) in cases {
        let (calls, session) = run(output, Some(at), answer);
        let place = calls.iter().position(|c| *c == at).unwrap();
        assert_eq!(calls[place + 1..], cleanup[..]);
        let e = session.outcome().unwrap_err();
        assert_eq!(e.kind, kind);
        assert_eq!(e.msg, text);
    }
}

#[test]
fn a_triple_without_a_target_is_an_error() {
    let mut session = Session::new(FILE, "t");
    let mut calls = vec![];
    while let Some(call) = session.call() {
        calls.push(call);
        session.answer(match call {
            Call::FirstTarget => &Answer::Null,
            Call::TargetOfTriple => &Answer::Failed(None),
            _ => &Answer::Done,
        });
    }
    assert_eq!(calls[calls.len() - 2..], [Call::DisposeModule, Call::DisposeContext]);
    assert_eq!(session.outcome().unwrap_err().msg, "LLVM: no target for triple 't' (unknown)");
}

#[test]
fn a_buffer_in_memory_is_not_tested() {
    let (calls, session) = run(Output::Memory, Some(Call::CreateBuffer), Answer::Null);
    assert_eq!(calls[3..5], [Call::CreateBuffer, Call::ParseText]);
    assert!(session.outcome().is_ok());
}

#[test]
fn messages_of_the_library() {
    assert_eq!(error_message(&Some("m".to_string())), "m");
    assert_eq!(error_message(&None), "unknown error");
    assert_eq!(orc_error_message(&OrcError::Absent), "");
    assert_eq!(orc_error_message(&OrcError::Asked(Some("m".to_string()))), "m");
    assert_eq!(orc_error_message(&OrcError::Asked(None)), "unknown ORC error");
    assert_eq!(orc_error_message(&OrcError::Unasked), "ORC JIT error");
}

fn machine(total: u64) -> HardwareInfo {
    let probe = Probe {
        cpu: CpuProbe {
            arch: "x86_64".to_string(),
            parallelism: None,
            llvm_name: None,
            registers: Registers::Other,
        },
        os: String::new(),
        family: String::new(),
        wmic: None,
        lspci: None,
    };
    assemble(&probe, 0, reported(total, 0))
}

#[test]
fn settings_follow_the_memory() {
    assert_eq!(machine_settings(&machine(1)), (2, 2, 0));
    assert_eq!(machine_settings(&machine(4_000_000_000)), (3, 2, 0));
}

fn place(path: &str, exists: bool) -> Candidate {
    Candidate { path: path.to_string(), exists }
}

#[test]
fn tools_are_looked_for_in_order() {
    let usual = vec![place("u", true)];
    let path = vec![place("p", true)];
    assert_eq!(detect_clang(&usual, &path), Some("u".to_string()));
    assert_eq!(detect_clang(&vec![place("u", false)], &path), Some("p".to_string()));
    assert_eq!(detect_clang(&vec![], &vec![]), None);
    assert_eq!(detect_vcvars(&Some(place("n", true)), &usual), Some("n".to_string()));
    assert_eq!(detect_vcvars(&Some(place("n", false)), &usual), Some("u".to_string()));
    assert_eq!(detect_vcvars(&None, &vec![]), None);
    assert_eq!(vcvars_of(" C:\\VS \r\n"), "C:\\VS\\VC\\Auxiliary\\Build\\vcvars64.bat");
    assert_eq!(usual_clang_places()[0], "C:\\Program Files\\LLVM\\bin\\clang.exe");
    assert_eq!(usual_vcvars_places().len(), 3);
}

#[test]
fn the_address_of_a_peer() {
    let peer = peer_of(&[2, 0, 0x1F, 0x95, 127, 0, 0, 1, 9]);
    assert_eq!(peer.port, 8085);
    assert_eq!(peer.ip, (127, 0, 0, 1));
}
