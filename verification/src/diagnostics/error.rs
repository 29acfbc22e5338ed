//! Errors and warnings.

use vstd::prelude::*;

use crate::diagnostics::preview::{
    error_can_be_shown, error_cuts, error_preview, preview_error, preview_warning,
    warning_can_be_shown, warning_cuts, warning_preview,
};
use crate::diagnostics::span::Span;
use crate::scan::opt_text;
use crate::text::{cat2, cat3, cat7, dec, dec_text, owned, Text};

verus! {

/// What kind of error it is.
#[derive(Clone, Copy, Debug, PartialEq, Eq, PartialOrd, Ord, Structural)]
pub enum ErrorKind {
    Syntax,
    UnexpectedToken,
    MissingToken,
    InvalidLiteral,
    TypeError,
    MismatchedType,
    IncompatibleTypes,
    CannotInferType,
    NameError,
    UndefinedName,
    NameAlreadyDefined,
    DuplicateDefinition,
    Io,
    FileNotFound,
    PermissionDenied,
    Internal,
    CompilerBug,
    JitError,
    Runtime,
    DivisionByZero,
    IndexOutOfBounds,
    NullDereference,
    UseAfterMove,
    UseAfterFree,
    BorrowError,
    MutableBorrowWhileShared,
    SharedBorrowWhileMutable,
    MoveWhileBorrowed,
    UninitializedVariable,
    UnreachableCode,
    MissingReturn,
    InvalidOperation,
    InvalidCast,
}

impl ErrorKind {
    /// The code that stands for the kind.
    pub open spec fn code_text(self) -> Text {
        match self {
            ErrorKind::Syntax => "E0001"@,
            ErrorKind::UnexpectedToken => "E0002"@,
            ErrorKind::MissingToken => "E0003"@,
            ErrorKind::InvalidLiteral => "E0004"@,
            ErrorKind::TypeError => "E0101"@,
            ErrorKind::MismatchedType => "E0102"@,
            ErrorKind::IncompatibleTypes => "E0103"@,
            ErrorKind::CannotInferType => "E0104"@,
            ErrorKind::NameError => "E0201"@,
            ErrorKind::UndefinedName => "E0202"@,
            ErrorKind::NameAlreadyDefined => "E0203"@,
            ErrorKind::DuplicateDefinition => "E0204"@,
            ErrorKind::Io => "E0301"@,
            ErrorKind::FileNotFound => "E0302"@,
            ErrorKind::PermissionDenied => "E0303"@,
            ErrorKind::Internal => "E0901"@,
            ErrorKind::CompilerBug => "E0902"@,
            ErrorKind::JitError => "E0903"@,
            ErrorKind::Runtime => "E1001"@,
            ErrorKind::DivisionByZero => "E1002"@,
            ErrorKind::IndexOutOfBounds => "E1003"@,
            ErrorKind::NullDereference => "E1004"@,
            ErrorKind::UseAfterMove => "E1005"@,
            ErrorKind::UseAfterFree => "E1006"@,
            ErrorKind::BorrowError => "E1007"@,
            ErrorKind::MutableBorrowWhileShared => "E1008"@,
            ErrorKind::SharedBorrowWhileMutable => "E1009"@,
            ErrorKind::MoveWhileBorrowed => "E1010"@,
            ErrorKind::UninitializedVariable => "E1011"@,
            ErrorKind::UnreachableCode => "E1012"@,
            ErrorKind::MissingReturn => "E1013"@,
            ErrorKind::InvalidOperation => "E1014"@,
            ErrorKind::InvalidCast => "E1015"@,
        }
    }

    /// The code that stands for the kind.
    pub fn code(&self) -> (r: &'static str)
        ensures
            r@ == self.code_text(),
    {
        match self {
            ErrorKind::Syntax => "E0001",
            ErrorKind::UnexpectedToken => "E0002",
            ErrorKind::MissingToken => "E0003",
            ErrorKind::InvalidLiteral => "E0004",
            ErrorKind::TypeError => "E0101",
            ErrorKind::MismatchedType => "E0102",
            ErrorKind::IncompatibleTypes => "E0103",
            ErrorKind::CannotInferType => "E0104",
            ErrorKind::NameError => "E0201",
            ErrorKind::UndefinedName => "E0202",
            ErrorKind::NameAlreadyDefined => "E0203",
            ErrorKind::DuplicateDefinition => "E0204",
            ErrorKind::Io => "E0301",
            ErrorKind::FileNotFound => "E0302",
            ErrorKind::PermissionDenied => "E0303",
            ErrorKind::Internal => "E0901",
            ErrorKind::CompilerBug => "E0902",
            ErrorKind::JitError => "E0903",
            ErrorKind::Runtime => "E1001",
            ErrorKind::DivisionByZero => "E1002",
            ErrorKind::IndexOutOfBounds => "E1003",
            ErrorKind::NullDereference => "E1004",
            ErrorKind::UseAfterMove => "E1005",
            ErrorKind::UseAfterFree => "E1006",
            ErrorKind::BorrowError => "E1007",
            ErrorKind::MutableBorrowWhileShared => "E1008",
            ErrorKind::SharedBorrowWhileMutable => "E1009",
            ErrorKind::MoveWhileBorrowed => "E1010",
            ErrorKind::UninitializedVariable => "E1011",
            ErrorKind::UnreachableCode => "E1012",
            ErrorKind::MissingReturn => "E1013",
            ErrorKind::InvalidOperation => "E1014",
            ErrorKind::InvalidCast => "E1015",
        }
    }
}

/// What kind of warning it is.
#[derive(Clone, Copy, Debug, PartialEq, Eq, PartialOrd, Ord, Structural)]
pub enum WarningKind {
    DeadCode,
    UnusedVariable,
    UnusedParameter,
    UnusedImport,
    UnusedFunction,
    UnusedType,
    ShadowedVariable,
    RedundantCast,
    RedundantClone,
    RedundantReturn,
    TrivialComparison,
    PossibleOverflow,
    ImplicitConversion,
    Deprecated,
    Experimental,
    Style,
    NamingConvention,
}

impl WarningKind {
    /// The code that stands for the kind.
    pub open spec fn code_text(self) -> Text {
        match self {
            WarningKind::DeadCode => "W0001"@,
            WarningKind::UnusedVariable => "W0002"@,
            WarningKind::UnusedParameter => "W0003"@,
            WarningKind::UnusedImport => "W0004"@,
            WarningKind::UnusedFunction => "W0005"@,
            WarningKind::UnusedType => "W0006"@,
            WarningKind::ShadowedVariable => "W0007"@,
            WarningKind::RedundantCast => "W0008"@,
            WarningKind::RedundantClone => "W0009"@,
            WarningKind::RedundantReturn => "W0010"@,
            WarningKind::TrivialComparison => "W0011"@,
            WarningKind::PossibleOverflow => "W0012"@,
            WarningKind::ImplicitConversion => "W0013"@,
            WarningKind::Deprecated => "W0014"@,
            WarningKind::Experimental => "W0015"@,
            WarningKind::Style => "W0016"@,
            WarningKind::NamingConvention => "W0017"@,
        }
    }

    /// The code that stands for the kind.
    pub fn code(&self) -> (r: &'static str)
        ensures
            r@ == self.code_text(),
    {
        match self {
            WarningKind::DeadCode => "W0001",
            WarningKind::UnusedVariable => "W0002",
            WarningKind::UnusedParameter => "W0003",
            WarningKind::UnusedImport => "W0004",
            WarningKind::UnusedFunction => "W0005",
            WarningKind::UnusedType => "W0006",
            WarningKind::ShadowedVariable => "W0007",
            WarningKind::RedundantCast => "W0008",
            WarningKind::RedundantClone => "W0009",
            WarningKind::RedundantReturn => "W0010",
            WarningKind::TrivialComparison => "W0011",
            WarningKind::PossibleOverflow => "W0012",
            WarningKind::ImplicitConversion => "W0013",
            WarningKind::Deprecated => "W0014",
            WarningKind::Experimental => "W0015",
            WarningKind::Style => "W0016",
            WarningKind::NamingConvention => "W0017",
        }
    }
}

/// The number in a code of one letter and four digits.
pub open spec fn code_number(code: Text) -> int {
    1000 * (code[1] as int - '0' as int) + 100 * (code[2] as int - '0' as int) + 10 * (code[3] as int
        - '0' as int) + (code[4] as int - '0' as int)
}

spec fn error_number(kind: ErrorKind) -> int {
    match kind {
        ErrorKind::Syntax => 1,
        ErrorKind::UnexpectedToken => 2,
        ErrorKind::MissingToken => 3,
        ErrorKind::InvalidLiteral => 4,
        ErrorKind::TypeError => 101,
        ErrorKind::MismatchedType => 102,
        ErrorKind::IncompatibleTypes => 103,
        ErrorKind::CannotInferType => 104,
        ErrorKind::NameError => 201,
        ErrorKind::UndefinedName => 202,
        ErrorKind::NameAlreadyDefined => 203,
        ErrorKind::DuplicateDefinition => 204,
        ErrorKind::Io => 301,
        ErrorKind::FileNotFound => 302,
        ErrorKind::PermissionDenied => 303,
        ErrorKind::Internal => 901,
        ErrorKind::CompilerBug => 902,
        ErrorKind::JitError => 903,
        ErrorKind::Runtime => 1001,
        ErrorKind::DivisionByZero => 1002,
        ErrorKind::IndexOutOfBounds => 1003,
        ErrorKind::NullDereference => 1004,
        ErrorKind::UseAfterMove => 1005,
        ErrorKind::UseAfterFree => 1006,
        ErrorKind::BorrowError => 1007,
        ErrorKind::MutableBorrowWhileShared => 1008,
        ErrorKind::SharedBorrowWhileMutable => 1009,
        ErrorKind::MoveWhileBorrowed => 1010,
        ErrorKind::UninitializedVariable => 1011,
        ErrorKind::UnreachableCode => 1012,
        ErrorKind::MissingReturn => 1013,
        ErrorKind::InvalidOperation => 1014,
        ErrorKind::InvalidCast => 1015,
    }
}

proof fn lemma_error_code_is_its_number(kind: ErrorKind)
    ensures
        code_number(kind.code_text()) == error_number(kind),
{
    match kind {
        ErrorKind::Syntax => {
            reveal_strlit("E0001");
        },
        ErrorKind::UnexpectedToken => {
            reveal_strlit("E0002");
        },
        ErrorKind::MissingToken => {
            reveal_strlit("E0003");
        },
        ErrorKind::InvalidLiteral => {
            reveal_strlit("E0004");
        },
        ErrorKind::TypeError => {
            reveal_strlit("E0101");
        },
        ErrorKind::MismatchedType => {
            reveal_strlit("E0102");
        },
        ErrorKind::IncompatibleTypes => {
            reveal_strlit("E0103");
        },
        ErrorKind::CannotInferType => {
            reveal_strlit("E0104");
        },
        ErrorKind::NameError => {
            reveal_strlit("E0201");
        },
        ErrorKind::UndefinedName => {
            reveal_strlit("E0202");
        },
        ErrorKind::NameAlreadyDefined => {
            reveal_strlit("E0203");
        },
        ErrorKind::DuplicateDefinition => {
            reveal_strlit("E0204");
        },
        ErrorKind::Io => {
            reveal_strlit("E0301");
        },
        ErrorKind::FileNotFound => {
            reveal_strlit("E0302");
        },
        ErrorKind::PermissionDenied => {
            reveal_strlit("E0303");
        },
        ErrorKind::Internal => {
            reveal_strlit("E0901");
        },
        ErrorKind::CompilerBug => {
            reveal_strlit("E0902");
        },
        ErrorKind::JitError => {
            reveal_strlit("E0903");
        },
        ErrorKind::Runtime => {
            reveal_strlit("E1001");
        },
        ErrorKind::DivisionByZero => {
            reveal_strlit("E1002");
        },
        ErrorKind::IndexOutOfBounds => {
            reveal_strlit("E1003");
        },
        ErrorKind::NullDereference => {
            reveal_strlit("E1004");
        },
        ErrorKind::UseAfterMove => {
            reveal_strlit("E1005");
        },
        ErrorKind::UseAfterFree => {
            reveal_strlit("E1006");
        },
        ErrorKind::BorrowError => {
            reveal_strlit("E1007");
        },
        ErrorKind::MutableBorrowWhileShared => {
            reveal_strlit("E1008");
        },
        ErrorKind::SharedBorrowWhileMutable => {
            reveal_strlit("E1009");
        },
        ErrorKind::MoveWhileBorrowed => {
            reveal_strlit("E1010");
        },
        ErrorKind::UninitializedVariable => {
            reveal_strlit("E1011");
        },
        ErrorKind::UnreachableCode => {
            reveal_strlit("E1012");
        },
        ErrorKind::MissingReturn => {
            reveal_strlit("E1013");
        },
        ErrorKind::InvalidOperation => {
            reveal_strlit("E1014");
        },
        ErrorKind::InvalidCast => {
            reveal_strlit("E1015");
        },
    }
}

/// Different kinds of errors have different codes.
pub proof fn lemma_error_codes_differ(a: ErrorKind, b: ErrorKind)
    ensures
        a.code_text() == b.code_text() ==> a == b,
{
    lemma_error_code_is_its_number(a);
    lemma_error_code_is_its_number(b);
}

spec fn warning_number(kind: WarningKind) -> int {
    match kind {
        WarningKind::DeadCode => 1,
        WarningKind::UnusedVariable => 2,
        WarningKind::UnusedParameter => 3,
        WarningKind::UnusedImport => 4,
        WarningKind::UnusedFunction => 5,
        WarningKind::UnusedType => 6,
        WarningKind::ShadowedVariable => 7,
        WarningKind::RedundantCast => 8,
        WarningKind::RedundantClone => 9,
        WarningKind::RedundantReturn => 10,
        WarningKind::TrivialComparison => 11,
        WarningKind::PossibleOverflow => 12,
        WarningKind::ImplicitConversion => 13,
        WarningKind::Deprecated => 14,
        WarningKind::Experimental => 15,
        WarningKind::Style => 16,
        WarningKind::NamingConvention => 17,
    }
}

proof fn lemma_warning_code_is_its_number(kind: WarningKind)
    ensures
        code_number(kind.code_text()) == warning_number(kind),
{
    match kind {
        WarningKind::DeadCode => {
            reveal_strlit("W0001");
        },
        WarningKind::UnusedVariable => {
            reveal_strlit("W0002");
        },
        WarningKind::UnusedParameter => {
            reveal_strlit("W0003");
        },
        WarningKind::UnusedImport => {
            reveal_strlit("W0004");
        },
        WarningKind::UnusedFunction => {
            reveal_strlit("W0005");
        },
        WarningKind::UnusedType => {
            reveal_strlit("W0006");
        },
        WarningKind::ShadowedVariable => {
            reveal_strlit("W0007");
        },
        WarningKind::RedundantCast => {
            reveal_strlit("W0008");
        },
        WarningKind::RedundantClone => {
            reveal_strlit("W0009");
        },
        WarningKind::RedundantReturn => {
            reveal_strlit("W0010");
        },
        WarningKind::TrivialComparison => {
            reveal_strlit("W0011");
        },
        WarningKind::PossibleOverflow => {
            reveal_strlit("W0012");
        },
        WarningKind::ImplicitConversion => {
            reveal_strlit("W0013");
        },
        WarningKind::Deprecated => {
            reveal_strlit("W0014");
        },
        WarningKind::Experimental => {
            reveal_strlit("W0015");
        },
        WarningKind::Style => {
            reveal_strlit("W0016");
        },
        WarningKind::NamingConvention => {
            reveal_strlit("W0017");
        },
    }
}

/// Different kinds of warnings have different codes.
pub proof fn lemma_warning_codes_differ(a: WarningKind, b: WarningKind)
    ensures
        a.code_text() == b.code_text() ==> a == b,
{
    lemma_warning_code_is_its_number(a);
    lemma_warning_code_is_its_number(b);
}

/// The line with a hint; empty where there is none.
pub open spec fn help_text(help: Option<Text>) -> Text {
    match help {
        Some(h) => "  \x1b[1;36mhelp\x1b[0m: "@ + h + "\n"@,
        None => ""@,
    }
}

fn help_line(help: &Option<String>) -> (r: String)
    ensures
        r@ == help_text(opt_text(*help)),
{
    match help {
        Some(h) => cat3("  \x1b[1;36mhelp\x1b[0m: ", h, "\n"),
        None => owned(""),
    }
}

/// An error, with its place and what belongs to it.
#[derive(Clone, Debug)]
pub struct YkError {
    pub kind: ErrorKind,
    pub span: Span,
    pub msg: String,
    pub source: Option<String>,
    pub file: Option<String>,
    pub help: Option<String>,
}

impl YkError {
    /// The place can be shown in the source, where there is one.
    pub open spec fn showable(self) -> bool {
        match self.source {
            Some(src) => error_cuts(src@, self.span),
            None => true,
        }
    }

    /// Whether the place can be shown in the source, where there is one.
    pub fn can_be_shown(&self) -> (r: bool)
        ensures
            r == self.showable(),
    {
        match &self.source {
            Some(src) => error_can_be_shown(src, self.span),
            None => true,
        }
    }

    /// The error as it is shown: its code and message, its help, and a preview of its source.
    pub open spec fn shown(self) -> Text {
        "\x1b[1;31merror["@ + self.kind.code_text() + "]\x1b[0m: "@ + self.msg@ + "\n"@ + help_text(
            opt_text(self.help),
        ) + (match self.source {
            Some(src) => error_preview(src@, self.span, opt_text(self.file)),
            None => ""@,
        })
    }

    /// The error as it is shown.
    pub fn to_text(&self) -> (r: String)
        requires
            self.showable(),
        ensures
            r@ == self.shown(),
    {
        let help = help_line(&self.help);
        let preview = match &self.source {
            Some(src) => preview_error(src, self.span, &self.file),
            None => owned(""),
        };
        cat7("\x1b[1;31merror[", self.kind.code(), "]\x1b[0m: ", &self.msg, "\n", &help, &preview)
    }

    /// The error, with the text that it is about.
    pub fn with_source(self, source: &str) -> (r: Self)
        ensures
            opt_text(r.source) == Some(source@),
            r == (YkError { source: r.source, ..self }),
    {
        let mut r = self;
        r.source = Some(owned(source));
        r
    }

    /// The error, with the file that it is about.
    pub fn with_file(self, file: &str) -> (r: Self)
        ensures
            opt_text(r.file) == Some(file@),
            r == (YkError { file: r.file, ..self }),
    {
        let mut r = self;
        r.file = Some(owned(file));
        r
    }

    /// The error, with a hint.
    pub fn with_help(self, help: &str) -> (r: Self)
        ensures
            opt_text(r.help) == Some(help@),
            r == (YkError { help: r.help, ..self }),
    {
        let mut r = self;
        r.help = Some(owned(help));
        r
    }
}

/// An error without a source, a file or a hint.
pub fn err(kind: ErrorKind, span: Span, msg: &str) -> (r: YkError)
    ensures
        r.kind == kind,
        r.span == span,
        r.msg@ == msg@,
        r.source is None,
        r.file is None,
        r.help is None,
{
    YkError { kind, span, msg: owned(msg), source: None, file: None, help: None }
}

/// A warning, with its place and what belongs to it.
#[derive(Clone, Debug)]
pub struct YkWarning {
    pub kind: WarningKind,
    pub span: Span,
    pub msg: String,
    pub source: Option<String>,
    pub file: Option<String>,
    pub help: Option<String>,
}

impl YkWarning {
    /// The place can be shown in the source, where there is one.
    pub open spec fn showable(self) -> bool {
        match self.source {
            Some(src) => warning_cuts(src@, self.span),
            None => true,
        }
    }

    /// Whether the place can be shown in the source, where there is one.
    pub fn can_be_shown(&self) -> (r: bool)
        ensures
            r == self.showable(),
    {
        match &self.source {
            Some(src) => warning_can_be_shown(src, self.span),
            None => true,
        }
    }

    /// The warning as it is shown: its code and message, its help, and a preview of its source.
    pub open spec fn shown(self) -> Text {
        "\x1b[1;33mwarning["@ + self.kind.code_text() + "]\x1b[0m: "@ + self.msg@ + "\n"@ + help_text(
            opt_text(self.help),
        ) + (match self.source {
            Some(src) => warning_preview(src@, self.span, opt_text(self.file)),
            None => ""@,
        })
    }

    /// The warning as it is shown.
    pub fn to_text(&self) -> (r: String)
        requires
            self.showable(),
        ensures
            r@ == self.shown(),
    {
        let help = help_line(&self.help);
        let preview = match &self.source {
            Some(src) => preview_warning(src, self.span, &self.file),
            None => owned(""),
        };
        cat7("\x1b[1;33mwarning[", self.kind.code(), "]\x1b[0m: ", &self.msg, "\n", &help, &preview)
    }

    /// The warning, with the text that it is about.
    pub fn with_source(self, source: &str) -> (r: Self)
        ensures
            opt_text(r.source) == Some(source@),
            r == (YkWarning { source: r.source, ..self }),
    {
        let mut r = self;
        r.source = Some(owned(source));
        r
    }

    /// The warning, with the file that it is about.
    pub fn with_file(self, file: &str) -> (r: Self)
        ensures
            opt_text(r.file) == Some(file@),
            r == (YkWarning { file: r.file, ..self }),
    {
        let mut r = self;
        r.file = Some(owned(file));
        r
    }

    /// The warning, with a hint.
    pub fn with_help(self, help: &str) -> (r: Self)
        ensures
            opt_text(r.help) == Some(help@),
            r == (YkWarning { help: r.help, ..self }),
    {
        let mut r = self;
        r.help = Some(owned(help));
        r
    }
}

/// A warning without a source, a file or a hint.
pub fn warn(kind: WarningKind, span: Span, msg: &str) -> (r: YkWarning)
    ensures
        r.kind == kind,
        r.span == span,
        r.msg@ == msg@,
        r.source is None,
        r.file is None,
        r.help is None,
{
    YkWarning { kind, span, msg: owned(msg), source: None, file: None, help: None }
}

/// What is returned where an error may come.
pub type Result<T> = core::result::Result<T, YkError>;

// ---------------------------------------------------------------------------------------------
// Collecting
// ---------------------------------------------------------------------------------------------
/// The errors and warnings of a compilation. Warnings count as errors unless that is switched off.
#[derive(Clone, Debug)]
pub struct Diagnostics {
    errors: Vec<YkError>,
    warnings: Vec<YkWarning>,
    treat_warnings_as_errors: bool,
}

/// The errors and the warnings, in the order in which they came, and whether warnings count as errors.
pub struct Findings {
    pub errors: Seq<YkError>,
    pub warnings: Seq<YkWarning>,
    pub strict: bool,
}

impl View for Diagnostics {
    type V = Findings;

    closed spec fn view(&self) -> Findings {
        Findings {
            errors: self.errors@,
            warnings: self.warnings@,
            strict: self.treat_warnings_as_errors,
        }
    }
}

impl Findings {
    /// Whether the compilation has failed.
    pub open spec fn failed(self) -> bool {
        self.errors.len() > 0 || (self.strict && self.warnings.len() > 0)
    }

    /// The last line of a report; none where the compilation has not failed.
    pub open spec fn verdict(self) -> Option<Text> {
        if self.errors.len() > 0 {
            Some(
                "\x1b[31;1merror:\x1b[0m aborting due to "@ + dec(self.errors.len())
                    + " previous error(s)"@,
            )
        } else if self.strict && self.warnings.len() > 0 {
            Some(
                "\x1b[31;1merror:\x1b[0m aborting due to "@ + dec(self.warnings.len())
                    + " warning(s) treated as errors"@,
            )
        } else {
            None
        }
    }
}

/// An error that stands for a warning.
pub open spec fn stands_for(e: YkError, w: YkWarning) -> bool {
    &&& e.kind == ErrorKind::TypeError
    &&& e.span == w.span
    &&& e.msg@ == "warning treated as error: "@ + w.msg@
    &&& e.source is None
    &&& e.file is None
    &&& e.help is None
}

impl Diagnostics {
    /// Nothing found yet; warnings count as errors.
    pub fn new() -> (r: Self)
        ensures
            r@ == (Findings { errors: seq![], warnings: seq![], strict: true }),
    {
        Diagnostics { errors: Vec::new(), warnings: Vec::new(), treat_warnings_as_errors: true }
    }

    /// Nothing found yet; warnings count as errors.
    pub fn new_strict() -> (r: Self)
        ensures
            r@ == (Findings { errors: seq![], warnings: seq![], strict: true }),
    {
        Self::new()
    }

    /// Sets whether warnings count as errors.
    pub fn set_treat_warnings_as_errors(&mut self, value: bool)
        ensures
            final(self)@ == (Findings { strict: value, ..old(self)@ }),
    {
        self.treat_warnings_as_errors = value;
    }

    /// Adds an error.
    pub fn add_error(&mut self, error: YkError)
        ensures
            final(self)@ == old(self)@.with_error(error),
    {
        self.errors.push(error);
    }

    /// Adds a warning.
    pub fn add_warning(&mut self, warning: YkWarning)
        ensures
            final(self)@ == old(self)@.with_warning(warning),
    {
        self.warnings.push(warning);
    }

    /// Whether there are errors, or warnings that count as errors.
    pub fn has_errors(&self) -> (r: bool)
        ensures
            r == self@.failed(),
    {
        self.errors.len() > 0 || (self.treat_warnings_as_errors && self.warnings.len() > 0)
    }

    /// Whether there are warnings.
    pub fn has_warnings(&self) -> (r: bool)
        ensures
            r == (self@.warnings.len() > 0),
    {
        self.warnings.len() > 0
    }

    /// The errors, in the order in which they came.
    pub fn errors(&self) -> (r: &[YkError])
        ensures
            r@ == self@.errors,
    {
        self.errors.as_slice()
    }

    /// The warnings, in the order in which they came.
    pub fn warnings(&self) -> (r: &[YkWarning])
        ensures
            r@ == self@.warnings,
    {
        self.warnings.as_slice()
    }

    /// The first error, or an error that stands for the first warning, where the compilation has failed.
    pub fn into_result(self) -> (r: Result<()>)
        ensures
            r is Err <==> self@.failed(),
            self@.errors.len() > 0 ==> r == Err::<(), YkError>(self@.errors[0]),
            self@.errors.len() == 0 && self@.failed() ==> stands_for(r->Err_0, self@.warnings[0]),
    {
        let strict = self.treat_warnings_as_errors;
        let mut errors = self.errors;
        if errors.len() > 0 {
            return Err(errors.remove(0));
        }
        if strict && self.warnings.len() > 0 {
            let w = &self.warnings[0];
            return Err(
                err(ErrorKind::TypeError, w.span, &cat2("warning treated as error: ", &w.msg)),
            );
        }
        Ok(())
    }

    /// The last line of a report; none where the compilation has not failed.
    pub fn verdict(&self) -> (r: Option<String>)
        ensures
            opt_text(r) == self@.verdict(),
    {
        if self.errors.len() > 0 {
            Some(
                cat3(
                    "\x1b[31;1merror:\x1b[0m aborting due to ",
                    &dec_text(self.errors.len() as u128),
                    " previous error(s)",
                ),
            )
        } else if self.treat_warnings_as_errors && self.warnings.len() > 0 {
            Some(
                cat3(
                    "\x1b[31;1merror:\x1b[0m aborting due to ",
                    &dec_text(self.warnings.len() as u128),
                    " warning(s) treated as errors",
                ),
            )
        } else {
            None
        }
    }
}

impl Findings {
    /// The findings, with one more error.
    pub open spec fn with_error(self, e: YkError) -> Findings {
        Findings { errors: self.errors.push(e), ..self }
    }

    /// The findings, with one more warning.
    pub open spec fn with_warning(self, w: YkWarning) -> Findings {
        Findings { warnings: self.warnings.push(w), ..self }
    }
}

/// An error makes a compilation fail, and a warning does where warnings count as errors; a
/// compilation that has failed stays failed whatever is found.
pub proof fn lemma_findings_fail(f: Findings, e: YkError, w: YkWarning)
    ensures
        f.with_error(e).failed(),
        f.strict ==> f.with_warning(w).failed(),
        !f.strict ==> f.with_warning(w).failed() == f.failed(),
        f.failed() ==> f.with_warning(w).failed(),
{
}

/// There is a last line of a report exactly where the compilation has failed.
pub proof fn lemma_verdict_where_failed(f: Findings)
    ensures
        f.verdict() is Some <==> f.failed(),
{
}

} // verus!
