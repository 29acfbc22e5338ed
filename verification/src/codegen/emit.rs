//! Emitting object code through the LLVM library: which calls are made, in what order, and what is
//! done when one of them fails.

use vstd::prelude::*;

use crate::codegen::toolchain::opt_level_number;
use crate::diagnostics::error::{err, ErrorKind, Result, YkError};
use crate::diagnostics::span::Span;
use crate::hardware::memory::low_memory;
use crate::hardware::HardwareInfo;
use crate::scan::opt_text;
use crate::text::{cat2, cat5, owned, Text};

verus! {

// ---------------------------------------------------------------------------------------------
// Messages
// ---------------------------------------------------------------------------------------------
/// A message of the library; where there is none, that is said.
pub open spec fn message_or(message: Option<Text>, other: Text) -> Text {
    match message {
        Some(m) => m,
        None => other,
    }
}

fn message_text(message: &Option<String>, other: &str) -> (r: String)
    ensures
        r@ == message_or(opt_text(*message), other@),
{
    match message {
        Some(m) => m.clone(),
        None => owned(other),
    }
}

/// What is said of an error of the library.
pub fn error_message(message: &Option<String>) -> (r: String)
    ensures
        r@ == message_or(opt_text(*message), "unknown error"@),
{
    message_text(message, "unknown error")
}

/// What is known of an error of the just-in-time compiler.
pub enum OrcError {
    /// There is none.
    Absent,
    /// The library could be asked; what it said, where it said something.
    Asked(Option<String>),
    /// The library cannot be asked.
    Unasked,
}

/// What is said of an error of the just-in-time compiler.
pub open spec fn orc_text(error: OrcError) -> Text {
    match error {
        OrcError::Absent => ""@,
        OrcError::Asked(message) => message_or(opt_text(message), "unknown ORC error"@),
        OrcError::Unasked => "ORC JIT error"@,
    }
}

/// What is said of an error of the just-in-time compiler.
pub fn orc_error_message(error: &OrcError) -> (r: String)
    ensures
        r@ == orc_text(*error),
{
    match error {
        OrcError::Absent => owned(""),
        OrcError::Asked(message) => message_text(message, "unknown ORC error"),
        OrcError::Unasked => owned("ORC JIT error"),
    }
}

// ---------------------------------------------------------------------------------------------
// Calls
// ---------------------------------------------------------------------------------------------
/// Where the object code goes: into a file, with or without the runtime linked in, or into memory
/// first.
#[derive(Clone, Copy, Debug, PartialEq, Eq, Structural)]
pub enum Output {
    File { runtime: bool },
    Memory,
}

/// The calls that are made.
#[derive(Clone, Copy, Debug, PartialEq, Eq, Structural)]
pub enum Call {
    /// Sets the target of the machine up.
    InitTargets,
    CreateContext,
    /// Makes a text with a zero at its end of the module text.
    MakeText,
    CreateBuffer,
    ParseText,
    CreateRuntimeBuffer,
    ParseRuntime,
    /// Sets the target triple of the runtime.
    TargetRuntime,
    LinkRuntime,
    DisposeRuntimeBuffer,
    DisposeBuffer,
    /// Sets the target triple of the module.
    SetTarget,
    RunPasses,
    FirstTarget,
    TargetOfTriple,
    CreateMachine,
    SetLayout,
    Emit,
    /// Writes the object code that is in memory to its file.
    WriteObject,
    DisposeOutput,
    DisposeMachine,
    DisposeModule,
    DisposeContext,
}

/// How a call came out.
pub enum Answer {
    Done,
    /// A null came back.
    Null,
    /// It failed; with a message, where there is one.
    Failed(Option<String>),
}

/// A call that worked.
pub open spec fn worked(answer: Answer) -> bool {
    answer is Done
}

/// The message of an answer.
pub open spec fn message_of(answer: Answer) -> Option<Text> {
    match answer {
        Answer::Failed(m) => opt_text(m),
        _ => None,
    }
}

/// The call that follows one that worked.
pub open spec fn following(output: Output, call: Call) -> Option<Call> {
    match call {
        Call::InitTargets => Some(Call::CreateContext),
        Call::CreateContext => Some(Call::MakeText),
        Call::MakeText => Some(Call::CreateBuffer),
        Call::CreateBuffer => Some(Call::ParseText),
        Call::ParseText => match output {
            Output::File { runtime } => if runtime {
                Some(Call::CreateRuntimeBuffer)
            } else {
                Some(Call::SetTarget)
            },
            Output::Memory => Some(Call::DisposeBuffer),
        },
        Call::CreateRuntimeBuffer => Some(Call::ParseRuntime),
        Call::ParseRuntime => Some(Call::TargetRuntime),
        Call::TargetRuntime => Some(Call::LinkRuntime),
        Call::LinkRuntime => Some(Call::DisposeRuntimeBuffer),
        Call::DisposeRuntimeBuffer => Some(Call::SetTarget),
        Call::DisposeBuffer => Some(Call::RunPasses),
        Call::SetTarget => match output {
            Output::File { .. } => Some(Call::RunPasses),
            Output::Memory => Some(Call::FirstTarget),
        },
        Call::RunPasses => match output {
            Output::File { .. } => Some(Call::FirstTarget),
            Output::Memory => Some(Call::SetTarget),
        },
        Call::FirstTarget => Some(Call::CreateMachine),
        Call::TargetOfTriple => Some(Call::CreateMachine),
        Call::CreateMachine => Some(Call::SetLayout),
        Call::SetLayout => Some(Call::Emit),
        Call::Emit => match output {
            Output::File { .. } => Some(Call::DisposeMachine),
            Output::Memory => Some(Call::WriteObject),
        },
        Call::WriteObject => Some(Call::DisposeOutput),
        Call::DisposeOutput => Some(Call::DisposeMachine),
        Call::DisposeMachine => Some(Call::DisposeModule),
        Call::DisposeModule => Some(Call::DisposeContext),
        Call::DisposeContext => None,
    }
}

/// What follows a call that did not work, and is no error: the call that comes instead.
pub open spec fn instead(output: Output, call: Call) -> Option<Call> {
    match call {
        Call::CreateRuntimeBuffer => Some(Call::SetTarget),
        Call::ParseRuntime => Some(Call::DisposeRuntimeBuffer),
        Call::FirstTarget => Some(Call::TargetOfTriple),
        _ => following(output, call),
    }
}

/// The error of a call that did not work; none where that is no error.
pub open spec fn trouble(output: Output, call: Call, triple: Text, message: Option<Text>) -> Option<
    (ErrorKind, Text),
> {
    match call {
        Call::MakeText => Some((ErrorKind::Internal, "LLVM IR contains null byte"@)),
        Call::CreateBuffer => match output {
            Output::File { .. } => Some((ErrorKind::Internal, "LLVM: failed to create memory buffer"@)),
            Output::Memory => None,
        },
        Call::ParseText => Some(
            (ErrorKind::Internal, "LLVM IR parse failed: "@ + message_or(message, "unknown error"@)),
        ),
        Call::TargetOfTriple => Some(
            (
                ErrorKind::Internal,
                "LLVM: no target for triple '"@ + triple + "' ("@ + message_or(message, "unknown"@) + ")"@,
            ),
        ),
        Call::CreateMachine => Some(
            (
                ErrorKind::Internal,
                match output {
                    Output::File {
                        ..
                    } => "LLVM: failed to create target machine (architecture not supported?)"@,
                    Output::Memory => "LLVM: failed to create target machine"@,
                },
            ),
        ),
        Call::Emit => Some(
            (ErrorKind::Internal, "LLVM emit failed: "@ + message_or(message, "unknown error"@)),
        ),
        Call::WriteObject => Some(
            (ErrorKind::Io, "Failed to write obj: "@ + message_or(message, "unknown error"@)),
        ),
        _ => None,
    }
}

/// The first call that cleans up after an error.
pub open spec fn first_cleanup(call: Call) -> Option<Call> {
    match call {
        Call::CreateBuffer => Some(Call::DisposeContext),
        Call::ParseText => Some(Call::DisposeBuffer),
        Call::TargetOfTriple => Some(Call::DisposeModule),
        Call::CreateMachine => Some(Call::DisposeModule),
        Call::Emit => Some(Call::DisposeMachine),
        _ => None,
    }
}

/// The call that follows one that cleans up after an error.
pub open spec fn next_cleanup(call: Call) -> Option<Call> {
    match call {
        Call::DisposeMachine => Some(Call::DisposeModule),
        Call::DisposeModule => Some(Call::DisposeContext),
        Call::DisposeBuffer => Some(Call::DisposeContext),
        _ => None,
    }
}

// ---------------------------------------------------------------------------------------------
// Sessions
// ---------------------------------------------------------------------------------------------
/// Where an emission stands: the call to make, and the error, where there was one.
pub struct Stage {
    pub output: Output,
    pub triple: Text,
    pub call: Option<Call>,
    pub failure: Option<(ErrorKind, Text)>,
}

impl Stage {
    /// Where an emission stands at its beginning.
    pub open spec fn first(output: Output, triple: Text) -> Stage {
        Stage { output, triple, call: Some(Call::InitTargets), failure: None }
    }

    /// Where an emission stands after the answer to its call.
    pub open spec fn after(self, answer: Answer) -> Stage {
        match self.call {
            None => self,
            Some(call) => if self.failure is Some {
                Stage { call: next_cleanup(call), ..self }
            } else if worked(answer) {
                Stage { call: following(self.output, call), ..self }
            } else {
                match trouble(self.output, call, self.triple, message_of(answer)) {
                    Some(failure) => Stage {
                        call: first_cleanup(call),
                        failure: Some(failure),
                        ..self
                    },
                    None => Stage { call: instead(self.output, call), ..self },
                }
            },
        }
    }
}

/// An emission under way.
pub struct Session {
    output: Output,
    triple: String,
    call: Option<Call>,
    failure: Option<YkError>,
}

/// The kind and the text of an error.
pub open spec fn kind_and_text(e: Option<YkError>) -> Option<(ErrorKind, Text)> {
    match e {
        Some(e) => Some((e.kind, e.msg@)),
        None => None,
    }
}

impl View for Session {
    type V = Stage;

    closed spec fn view(&self) -> Stage {
        Stage {
            output: self.output,
            triple: self.triple@,
            call: self.call,
            failure: kind_and_text(self.failure),
        }
    }
}

fn next_call(output: Output, call: Call) -> (r: Option<Call>)
    ensures
        r == following(output, call),
{
    match call {
        Call::InitTargets => Some(Call::CreateContext),
        Call::CreateContext => Some(Call::MakeText),
        Call::MakeText => Some(Call::CreateBuffer),
        Call::CreateBuffer => Some(Call::ParseText),
        Call::ParseText => match output {
            Output::File { runtime } => if runtime {
                Some(Call::CreateRuntimeBuffer)
            } else {
                Some(Call::SetTarget)
            },
            Output::Memory => Some(Call::DisposeBuffer),
        },
        Call::CreateRuntimeBuffer => Some(Call::ParseRuntime),
        Call::ParseRuntime => Some(Call::TargetRuntime),
        Call::TargetRuntime => Some(Call::LinkRuntime),
        Call::LinkRuntime => Some(Call::DisposeRuntimeBuffer),
        Call::DisposeRuntimeBuffer => Some(Call::SetTarget),
        Call::DisposeBuffer => Some(Call::RunPasses),
        Call::SetTarget => match output {
            Output::File { .. } => Some(Call::RunPasses),
            Output::Memory => Some(Call::FirstTarget),
        },
        Call::RunPasses => match output {
            Output::File { .. } => Some(Call::FirstTarget),
            Output::Memory => Some(Call::SetTarget),
        },
        Call::FirstTarget => Some(Call::CreateMachine),
        Call::TargetOfTriple => Some(Call::CreateMachine),
        Call::CreateMachine => Some(Call::SetLayout),
        Call::SetLayout => Some(Call::Emit),
        Call::Emit => match output {
            Output::File { .. } => Some(Call::DisposeMachine),
            Output::Memory => Some(Call::WriteObject),
        },
        Call::WriteObject => Some(Call::DisposeOutput),
        Call::DisposeOutput => Some(Call::DisposeMachine),
        Call::DisposeMachine => Some(Call::DisposeModule),
        Call::DisposeModule => Some(Call::DisposeContext),
        Call::DisposeContext => None,
    }
}

fn other_call(output: Output, call: Call) -> (r: Option<Call>)
    ensures
        r == instead(output, call),
{
    match call {
        Call::CreateRuntimeBuffer => Some(Call::SetTarget),
        Call::ParseRuntime => Some(Call::DisposeRuntimeBuffer),
        Call::FirstTarget => Some(Call::TargetOfTriple),
        _ => next_call(output, call),
    }
}

fn error_at_no_place(kind: ErrorKind, msg: &str) -> (r: Option<YkError>)
    ensures
        kind_and_text(r) == Some((kind, msg@)),
        at_no_place(r),
{
    Some(err(kind, Span::new(0, 0), msg))
}

/// An error, where there is one, is at no particular place and has nothing with it.
pub open spec fn at_no_place(e: Option<YkError>) -> bool {
    match e {
        Some(e) => e.span.start == 0 && e.span.end == 0 && e.source is None && e.file is None && e.help is None,
        None => true,
    }
}

fn find_trouble(output: Output, call: Call, triple: &str, answer: &Answer) -> (r: Option<YkError>)
    ensures
        kind_and_text(r) == trouble(output, call, triple@, message_of(*answer)),
        at_no_place(r),
{
    let message: Option<String> = match answer {
        Answer::Failed(Some(m)) => Some(m.clone()),
        _ => None,
    };
    assert(opt_text(message) == message_of(*answer));
    match call {
        Call::MakeText => error_at_no_place(ErrorKind::Internal, "LLVM IR contains null byte"),
        Call::CreateBuffer => match output {
            Output::File { .. } => error_at_no_place(
                ErrorKind::Internal,
                "LLVM: failed to create memory buffer",
            ),
            Output::Memory => None,
        },
        Call::ParseText => error_at_no_place(
            ErrorKind::Internal,
            &cat2("LLVM IR parse failed: ", &error_message(&message)),
        ),
        Call::TargetOfTriple => error_at_no_place(
            ErrorKind::Internal,
            &cat5(
                "LLVM: no target for triple '",
                triple,
                "' (",
                &message_text(&message, "unknown"),
                ")",
            ),
        ),
        Call::CreateMachine => error_at_no_place(
            ErrorKind::Internal,
            match output {
                Output::File {
                    ..
                } => "LLVM: failed to create target machine (architecture not supported?)",
                Output::Memory => "LLVM: failed to create target machine",
            },
        ),
        Call::Emit => error_at_no_place(
            ErrorKind::Internal,
            &cat2("LLVM emit failed: ", &error_message(&message)),
        ),
        Call::WriteObject => error_at_no_place(
            ErrorKind::Io,
            &cat2("Failed to write obj: ", &error_message(&message)),
        ),
        _ => None,
    }
}

impl Session {
    /// The error that was met, where there was one, is at no particular place.
    pub closed spec fn well_formed(self) -> bool {
        at_no_place(self.failure)
    }

    /// Begins an emission for a target triple.
    pub fn new(output: Output, triple: &str) -> (r: Session)
        ensures
            r.well_formed(),
            r@ == Stage::first(output, triple@),
    {
        Session { output, triple: owned(triple), call: Some(Call::InitTargets), failure: None }
    }

    /// The call to make; none at the end.
    pub fn call(&self) -> (r: Option<Call>)
        ensures
            r == self@.call,
    {
        self.call
    }

    /// Takes the answer to the call.
    pub fn answer(&mut self, answer: &Answer)
        requires
            old(self).well_formed(),
        ensures
            final(self).well_formed(),
            final(self)@ == old(self)@.after(*answer),
    {
        match self.call {
            None => {},
            Some(call) => {
                if self.failure.is_some() {
                    self.call = match call {
                        Call::DisposeMachine => Some(Call::DisposeModule),
                        Call::DisposeModule => Some(Call::DisposeContext),
                        Call::DisposeBuffer => Some(Call::DisposeContext),
                        _ => None,
                    };
                } else {
                    match answer {
                        Answer::Done => {
                            self.call = next_call(self.output, call);
                        },
                        _ => {
                            self.failure = find_trouble(self.output, call, &self.triple, answer);
                            self.call = if self.failure.is_some() {
                                match call {
                                    Call::CreateBuffer => Some(Call::DisposeContext),
                                    Call::ParseText => Some(Call::DisposeBuffer),
                                    Call::TargetOfTriple => Some(Call::DisposeModule),
                                    Call::CreateMachine => Some(Call::DisposeModule),
                                    Call::Emit => Some(Call::DisposeMachine),
                                    _ => None,
                                }
                            } else {
                                other_call(self.output, call)
                            };
                        },
                    }
                }
            },
        }
    }

    /// How the emission came out.
    pub fn outcome(self) -> (r: Result<()>)
        requires
            self.well_formed(),
        ensures
            match r {
                Ok(_) => self@.failure is None,
                Err(e) => self@.failure == Some((e.kind, e.msg@)) && at_no_place(Some(e)),
            },
    {
        match self.failure {
            Some(e) => Err(e),
            None => Ok(()),
        }
    }
}

/// What the machine is compiled for: the optimisation level, and relocation and code models.
pub fn machine_settings(hw: &HardwareInfo) -> (r: (i32, i32, i32))
    ensures
        r == (
            if low_memory(hw.memory) {
                2i32
            } else {
                3i32
            },
            2i32,
            0i32,
        ),
{
    (opt_level_number(hw), 2, 0)
}

// ---------------------------------------------------------------------------------------------
// What is held
// ---------------------------------------------------------------------------------------------
/// What the library has handed out and has not got back.
pub struct Held {
    pub context: bool,
    pub runtime_buffer: bool,
    pub module: bool,
    pub machine: bool,
    pub output: bool,
}

/// Nothing.
pub open spec fn nothing() -> Held {
    Held { context: false, runtime_buffer: false, module: false, machine: false, output: false }
}

/// What is held after a call.
pub open spec fn held_after(held: Held, call: Call, answer: Answer, output: Output) -> Held {
    match call {
        Call::CreateContext => Held { context: true, ..held },
        Call::ParseText => Held { module: worked(answer), ..held },
        Call::CreateRuntimeBuffer => Held { runtime_buffer: worked(answer), ..held },
        Call::DisposeRuntimeBuffer => Held { runtime_buffer: false, ..held },
        Call::CreateMachine => Held { machine: worked(answer), ..held },
        Call::Emit => Held { output: worked(answer) && output is Memory, ..held },
        Call::DisposeOutput => Held { output: false, ..held },
        Call::DisposeMachine => Held { machine: false, ..held },
        Call::DisposeModule => Held { module: false, ..held },
        Call::DisposeContext => Held { context: false, ..held },
        _ => held,
    }
}

/// What is held while a call is to be made.
pub open spec fn held_at(stage: Stage) -> Held {
    match stage.call {
        None => nothing(),
        Some(call) => {
            let failed = stage.failure is Some;
            let runtime = match call {
                Call::ParseRuntime => true,
                Call::TargetRuntime => true,
                Call::LinkRuntime => true,
                Call::DisposeRuntimeBuffer => true,
                _ => false,
            };
            let machine = match call {
                Call::SetLayout => true,
                Call::Emit => true,
                Call::WriteObject => true,
                Call::DisposeOutput => true,
                Call::DisposeMachine => true,
                _ => false,
            };
            let module = match call {
                Call::CreateRuntimeBuffer => true,
                Call::DisposeBuffer => !failed,
                Call::SetTarget => true,
                Call::RunPasses => true,
                Call::FirstTarget => true,
                Call::TargetOfTriple => true,
                Call::CreateMachine => true,
                Call::DisposeModule => true,
                _ => runtime || machine,
            };
            Held {
                context: call != Call::InitTargets && call != Call::CreateContext,
                runtime_buffer: runtime,
                module,
                machine,
                output: call == Call::WriteObject || call == Call::DisposeOutput,
            }
        },
    }
}

/// A stage that an emission can be at: the runtime is linked into files only, and memory is written
/// out only where the object code went there.
pub open spec fn reachable(stage: Stage) -> bool {
    match stage.call {
        None => true,
        Some(call) => {
            let failed = stage.failure is Some;
            let memory = stage.output is Memory;
            &&& failed ==> match call {
                Call::DisposeBuffer => true,
                Call::DisposeMachine => true,
                Call::DisposeModule => true,
                Call::DisposeContext => true,
                _ => false,
            }
            &&& match call {
                Call::CreateRuntimeBuffer => !memory,
                Call::ParseRuntime => !memory,
                Call::TargetRuntime => !memory,
                Call::LinkRuntime => !memory,
                Call::DisposeRuntimeBuffer => !memory,
                Call::DisposeBuffer => memory || failed,
                Call::WriteObject => memory,
                Call::DisposeOutput => memory,
                _ => true,
            }
        },
    }
}

/// An emission begins with nothing held.
pub proof fn lemma_nothing_is_held_at_first(output: Output, triple: Text)
    ensures
        reachable(Stage::first(output, triple)),
        held_at(Stage::first(output, triple)) == nothing(),
{
}

/// Whatever the library answers, what it hands out is held until it is given back, and all of it has
/// been given back at the end, after errors too. The exceptions are a module text with a zero byte in
/// it and an object file that cannot be written: there the emission ends at once.
pub proof fn lemma_everything_is_given_back(stage: Stage, answer: Answer)
    requires
        stage.call is Some,
        reachable(stage),
        worked(answer) || (stage.call != Some(Call::MakeText) && stage.call != Some(Call::WriteObject)),
    ensures
        reachable(stage.after(answer)),
        held_at(stage.after(answer)) == held_after(
            held_at(stage),
            stage.call->0,
            answer,
            stage.output,
        ),
        stage.after(answer).call is None ==> held_after(
            held_at(stage),
            stage.call->0,
            answer,
            stage.output,
        ) == nothing(),
{
}

/// How many calls there are at most before an emission ends.
pub open spec fn calls_left(stage: Stage) -> nat {
    match stage.call {
        None => 0,
        Some(call) => {
            let memory = stage.output is Memory;
            match call {
                Call::InitTargets => 23,
                Call::CreateContext => 22,
                Call::MakeText => 21,
                Call::CreateBuffer => 20,
                Call::ParseText => 19,
                Call::CreateRuntimeBuffer => 18,
                Call::ParseRuntime => 17,
                Call::TargetRuntime => 16,
                Call::LinkRuntime => 15,
                Call::DisposeRuntimeBuffer => 14,
                Call::DisposeBuffer => 13,
                Call::SetTarget => if memory {
                    11
                } else {
                    12
                },
                Call::RunPasses => if memory {
                    12
                } else {
                    11
                },
                Call::FirstTarget => 10,
                Call::TargetOfTriple => 9,
                Call::CreateMachine => 8,
                Call::SetLayout => 7,
                Call::Emit => 6,
                Call::WriteObject => 5,
                Call::DisposeOutput => 4,
                Call::DisposeMachine => 3,
                Call::DisposeModule => 2,
                Call::DisposeContext => 1,
            }
        },
    }
}

/// Every emission ends, whatever the library answers.
pub proof fn lemma_emission_ends(stage: Stage, answer: Answer)
    requires
        stage.call is Some,
    ensures
        calls_left(stage.after(answer)) < calls_left(stage),
{
}

/// An error that was met is reported, whatever the library answers then.
pub proof fn lemma_first_error_stays(stage: Stage, answer: Answer)
    requires
        stage.failure is Some,
    ensures
        stage.after(answer).failure == stage.failure,
{
}

} // verus!
