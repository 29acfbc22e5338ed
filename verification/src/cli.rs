//! The command line.

use vstd::prelude::*;

use crate::diagnostics::error::{help_text, YkError};
use crate::diagnostics::preview::{error_cuts, error_preview};
use crate::hardware::{HardwareInfo, Sizes};
use crate::scan::{opt_text, texts};
use crate::syntax::ast::Module;
use crate::text::{owned, same, Text};

verus! {

/// What the compiler is asked to do. The flag of a file tells whether it is watched for changes.
#[derive(Clone, Debug)]
pub enum Command {
    Run(String, bool),
    Build(String, bool),
    BuildWithInfo(String, bool),
    Add(String),
    Sync,
    Info,
}

/// A command, with texts for its strings.
pub enum Request {
    Run(Text, bool),
    Build(Text, bool),
    BuildWithInfo(Text, bool),
    Add(Text),
    Sync,
    Info,
}

impl View for Command {
    type V = Request;

    open spec fn view(&self) -> Request {
        match self {
            Command::Run(f, w) => Request::Run(f@, *w),
            Command::Build(f, w) => Request::Build(f@, *w),
            Command::BuildWithInfo(f, w) => Request::BuildWithInfo(f@, *w),
            Command::Add(p) => Request::Add(p@),
            Command::Sync => Request::Sync,
            Command::Info => Request::Info,
        }
    }
}

/// How the compiler is called.
pub const USAGE: &'static str = "Usage:\n  yidi <file>              Run a .yk file (interpreter)\n  yidi run <file>          Run a .yk file (interpreter)\n  yidi <file> --watch      Run file and watch for changes\n  yidi build <file>        Build a .yk file\n  yidi build <file> --watch Rebuild on file change\n  yidi info                Show hardware info\n  yidi add <package>        Add a dependency\n  yidi sync               Sync dependencies";

/// What the arguments ask for, the name of the program being the first of them; or how the compiler
/// is to be called, where something is missing. A first word that is no command is a file to run;
/// `install` and `sync` ask for the same.
pub open spec fn asked(args: Seq<Text>) -> core::result::Result<Request, Text> {
    let watch = args.contains("--watch"@);
    if args.len() < 2 {
        Err(USAGE@)
    } else if args[1] == "info"@ {
        Ok(Request::Info)
    } else if args[1] == "build"@ {
        if args.len() < 3 {
            Err("Usage: yidi build <file>"@)
        } else if args.contains("--info"@) {
            Ok(Request::BuildWithInfo(args[2], watch))
        } else {
            Ok(Request::Build(args[2], watch))
        }
    } else if args[1] == "run"@ {
        if args.len() < 3 {
            Err("Usage: yidi run <file>"@)
        } else {
            Ok(Request::Run(args[2], watch))
        }
    } else if args[1] == "add"@ {
        if args.len() < 3 {
            Err("Usage: yidi add <package>"@)
        } else {
            Ok(Request::Add(args[2]))
        }
    } else if args[1] == "sync"@ || args[1] == "install"@ {
        Ok(Request::Sync)
    } else {
        Ok(Request::Run(args[1], watch))
    }
}

fn mentions(args: &Vec<String>, flag: &str) -> (r: bool)
    ensures
        r == texts(args@).contains(flag@),
{
    let mut i: usize = 0;
    while i < args.len()
        invariant
            i <= args@.len(),
            forall|j: int| 0 <= j < i ==> texts(args@)[j] != flag@,
        decreases args.len() - i,
    {
        if same(&args[i], flag) {
            assert(texts(args@)[i as int] == flag@);
            return true;
        }
        i += 1;
    }
    false
}

/// Reads the arguments; the error is the text to show before giving up.
pub fn parse_args(args: &Vec<String>) -> (r: core::result::Result<Command, String>)
    ensures
        match r {
            Ok(cmd) => asked(texts(args@)) == Ok::<Request, Text>(cmd@),
            Err(usage) => asked(texts(args@)) == Err::<Request, Text>(usage@),
        },
{
    if args.len() < 2 {
        return Err(owned(USAGE));
    }
    let ghost all = texts(args@);
    assert(all[1] == args@[1]@);
    assert(args@.len() > 2 ==> all[2] == args@[2]@);
    let watch = mentions(args, "--watch");
    if same(&args[1], "info") {
        Ok(Command::Info)
    } else if same(&args[1], "build") {
        if args.len() < 3 {
            Err(owned("Usage: yidi build <file>"))
        } else if mentions(args, "--info") {
            Ok(Command::BuildWithInfo(args[2].clone(), watch))
        } else {
            Ok(Command::Build(args[2].clone(), watch))
        }
    } else if same(&args[1], "run") {
        if args.len() < 3 {
            Err(owned("Usage: yidi run <file>"))
        } else {
            Ok(Command::Run(args[2].clone(), watch))
        }
    } else if same(&args[1], "add") {
        if args.len() < 3 {
            Err(owned("Usage: yidi add <package>"))
        } else {
            Ok(Command::Add(args[2].clone()))
        }
    } else if same(&args[1], "sync") || same(&args[1], "install") {
        Ok(Command::Sync)
    } else {
        Ok(Command::Run(args[1].clone(), watch))
    }
}

/// The arguments, with `run` in front of all but the name of the program.
pub open spec fn with_run(args: Seq<Text>) -> Seq<Text> {
    seq![args[0], "run"@] + args.skip(1)
}

/// A file alone is asked for what `run` and the file are asked for.
pub proof fn lemma_file_alone_is_run(args: Seq<Text>)
    requires
        args.len() >= 2,
        args[1] != "info"@,
        args[1] != "build"@,
        args[1] != "run"@,
        args[1] != "add"@,
        args[1] != "sync"@,
        args[1] != "install"@,
    ensures
        asked(args) == asked(with_run(args)),
{
    let all = with_run(args);
    let flag = "--watch"@;
    reveal_strlit("info");
    reveal_strlit("build");
    reveal_strlit("run");
    reveal_strlit("--watch");
    assert("run"@.len() != "info"@.len());
    assert("run"@.len() != "build"@.len());
    assert("run"@.len() != flag.len());
    assert(all[1] == "run"@ && all[2] == args[1]);
    if args.contains(flag) {
        let i = choose|i: int| 0 <= i < args.len() && args[i] == flag;
        if i == 0 {
            assert(all[0] == flag);
        } else {
            assert(all[i + 1] == flag);
        }
    }
    if all.contains(flag) {
        let i = choose|i: int| 0 <= i < all.len() && all[i] == flag;
        if i == 0 {
            assert(args[0] == flag);
        } else {
            assert(args[i - 1] == flag);
        }
    }
}

/// What is done for a command.
#[derive(Clone, Debug)]
pub enum Job {
    /// Interprets a file.
    Run { path: String, watch: bool },
    /// Compiles a file, after showing the machine where `show_info` is set.
    Build { path: String, watch: bool, show_info: bool },
    ShowInfo,
    AddPackage(String),
    SyncPackages,
}

/// Chooses what is done for a command.
pub fn execute(cmd: Command) -> (r: Job)
    ensures
        r == (match cmd {
            Command::Run(path, watch) => Job::Run { path, watch },
            Command::Build(path, watch) => Job::Build { path, watch, show_info: false },
            Command::BuildWithInfo(path, watch) => Job::Build { path, watch, show_info: true },
            Command::Info => Job::ShowInfo,
            Command::Add(package) => Job::AddPackage(package),
            Command::Sync => Job::SyncPackages,
        }),
{
    match cmd {
        Command::Run(path, watch) => Job::Run { path, watch },
        Command::Build(path, watch) => Job::Build { path, watch, show_info: false },
        Command::BuildWithInfo(path, watch) => Job::Build { path, watch, show_info: true },
        Command::Info => Job::ShowInfo,
        Command::Add(package) => Job::AddPackage(package),
        Command::Sync => Job::SyncPackages,
    }
}

/// The description of a machine, its sizes being given as decimal fractions.
pub fn show_info(hw: &HardwareInfo, sizes: &Sizes) -> (r: core::result::Result<String, String>)
    ensures
        r is Ok,
        r->Ok_0@ == hw.description(*sizes),
{
    Ok(hw.to_text(sizes))
}

// ---------------------------------------------------------------------------------------------
// Files
// ---------------------------------------------------------------------------------------------
/// A file that was loaded: where it is, its text and its module.
pub struct LoadedFile {
    pub path: String,
    pub source: String,
    pub module: Module,
}

/// An error as it is reported of a file.
pub open spec fn report_text(e: YkError, source: Text, path: Text) -> Text {
    "\x1b[1;31merror["@ + e.kind.code_text() + "]\x1b[0m: "@ + e.msg@ + "\n"@ + help_text(opt_text(e.help))
        + error_preview(source, e.span, Some(path))
}

/// Reports an error of a file, with a preview of the place.
pub fn report(e: YkError, file: &LoadedFile) -> (r: String)
    requires
        error_cuts(file.source@, e.span),
    ensures
        r@ == report_text(e, file.source@, file.path@),
{
    e.with_source(&file.source).with_file(&file.path).to_text()
}

/// What comes next while files are checked.
#[derive(Debug)]
pub enum CheckStep {
    /// The file at this place is to be checked.
    Check(usize),
    /// A file was at fault: nothing is run or compiled.
    Refuse(String),
    /// No file was at fault: the program can be run or compiled.
    GoOn,
}

/// What comes next after `checked` files, the last of which may have been at fault: the last files,
/// which the others import, come first.
pub open spec fn step_of(files: nat, checked: nat, error: Option<String>) -> CheckStep {
    match error {
        Some(e) => CheckStep::Refuse(e),
        None => if checked < files {
            CheckStep::Check((files - 1 - checked) as usize)
        } else {
            CheckStep::GoOn
        },
    }
}

/// What comes next after `checked` files, the last of which may have been at fault.
pub fn check_step(files: usize, checked: usize, error: Option<String>) -> (r: CheckStep)
    ensures
        r == step_of(files as nat, checked as nat, error),
{
    match error {
        Some(e) => CheckStep::Refuse(e),
        None => if checked < files {
            CheckStep::Check(files - 1 - checked)
        } else {
            CheckStep::GoOn
        },
    }
}

/// How the checks end, after `checked` files without a fault; `faults` holds what is wrong with each
/// file, if anything is.
pub open spec fn end_of_checks(faults: Seq<Option<String>>, checked: nat) -> CheckStep
    decreases faults.len() - checked,
{
    match step_of(faults.len(), checked, None) {
        CheckStep::Check(i) => match step_of(faults.len(), checked + 1, faults[i as int]) {
            CheckStep::Refuse(e) => CheckStep::Refuse(e),
            _ => end_of_checks(faults, checked + 1),
        },
        end => end,
    }
}

/// A program is run or compiled only where no file of it is at fault. Else it is refused with the
/// fault of the last file that has one.
pub proof fn lemma_faults_refuse(faults: Seq<Option<String>>)
    requires
        faults.len() <= usize::MAX,
    ensures
        end_of_checks(faults, 0) == CheckStep::GoOn <==> forall|i: int|
            0 <= i < faults.len() ==> (#[trigger] faults[i]) is None,
        forall|i: int|
            #![trigger faults[i]]
            0 <= i < faults.len() && faults[i] is Some && (forall|j: int|
                i < j < faults.len() ==> (#[trigger] faults[j]) is None) ==> end_of_checks(faults, 0)
                == CheckStep::Refuse(faults[i]->0),
{
    lemma_checks_from(faults, 0);
}

proof fn lemma_checks_from(faults: Seq<Option<String>>, checked: nat)
    requires
        checked <= faults.len() <= usize::MAX,
        forall|i: int| faults.len() - checked <= i < faults.len() ==> (#[trigger] faults[i]) is None,
    ensures
        end_of_checks(faults, checked) == CheckStep::GoOn <==> forall|i: int|
            0 <= i < faults.len() ==> (#[trigger] faults[i]) is None,
        forall|i: int|
            #![trigger faults[i]]
            0 <= i < faults.len() && faults[i] is Some && (forall|j: int|
                i < j < faults.len() ==> (#[trigger] faults[j]) is None) ==> end_of_checks(faults, checked)
                == CheckStep::Refuse(faults[i]->0),
    decreases faults.len() - checked,
{
    if checked < faults.len() {
        let at = faults.len() - 1 - checked;
        if faults[at] is None {
            lemma_checks_from(faults, checked + 1);
        } else {
            assert(end_of_checks(faults, checked) == CheckStep::Refuse(faults[at]->0));
        }
    }
}

/// One look at a watched file: `last` is when it was last seen to change, `seen` when it changed now,
/// where that can be told. The answer is what to remember, and whether to start over: where the file
/// changed since, or its last change was not known.
pub fn watch_step(last: Option<u128>, seen: Option<u128>) -> (r: (Option<u128>, bool))
    ensures
        r.1 <==> (seen is Some && (last is None || seen->0 > last->0)),
        r.0 == (if r.1 {
            seen
        } else {
            last
        }),
{
    match seen {
        Some(now) => {
            let newer = match last {
                Some(then) => now > then,
                None => true,
            };
            if newer {
                (Some(now), true)
            } else {
                (last, false)
            }
        },
        None => (last, false),
    }
}

/// What each command asks for: `build` compiles the file behind it, after showing the machine where `--info` is among the
/// arguments, `run` interprets it, `add` takes the package behind it, and `sync`, `install` and `info` take nothing. A
/// file is watched exactly where `--watch` is among the arguments.
pub proof fn lemma_commands(args: Seq<Text>)
    ensures
        ({
            let word = args[1];
            let watch = args.contains("--watch"@);
            let show = args.contains("--info"@);
            &&& asked(args) is Err <==> args.len() < 2 || args.len() == 2 && (word == "build"@ || word == "run"@ || word
                == "add"@)
            &&& args.len() > 2 && word == "build"@ && !show ==> asked(args) == Ok::<Request, Text>(
                Request::Build(args[2], watch),
            )
            &&& args.len() > 2 && word == "build"@ && show ==> asked(args) == Ok::<Request, Text>(
                Request::BuildWithInfo(args[2], watch),
            )
            &&& args.len() > 2 && word == "run"@ ==> asked(args) == Ok::<Request, Text>(Request::Run(args[2], watch))
            &&& args.len() > 2 && word == "add"@ ==> asked(args) == Ok::<Request, Text>(Request::Add(args[2]))
            &&& args.len() > 1 && (word == "sync"@ || word == "install"@) ==> asked(args) == Ok::<Request, Text>(
                Request::Sync,
            )
            &&& args.len() > 1 && word == "info"@ ==> asked(args) == Ok::<Request, Text>(Request::Info)
        }),
{
    reveal_strlit("info");
    reveal_strlit("build");
    reveal_strlit("run");
    reveal_strlit("add");
    reveal_strlit("sync");
    reveal_strlit("install");
    assert("info"@[0] == 'i' && "sync"@[0] == 's');
    assert("run"@[0] == 'r' && "add"@[0] == 'a');
    assert("info"@.len() == 4 && "build"@.len() == 5 && "run"@.len() == 3 && "add"@.len() == 3 && "sync"@.len() == 4
        && "install"@.len() == 7);
}

} // verus!
