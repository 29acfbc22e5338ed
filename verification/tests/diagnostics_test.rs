//! Errors and warnings.

use yidika::cli::{check_step, report, CheckStep, LoadedFile};
use yidika::diagnostics::error::{err, warn, Diagnostics, ErrorKind, WarningKind};
use yidika::diagnostics::preview::error_can_be_shown;
use yidika::diagnostics::span::Span;
use yidika::syntax::ast::Module;

#[test]
fn every_kind_of_error_has_its_code() {
    let codes = [
        (ErrorKind::Syntax, "E0001"),
        (ErrorKind::UnexpectedToken, "E0002"),
        (ErrorKind::MissingToken, "E0003"),
        (ErrorKind::InvalidLiteral, "E0004"),
        (ErrorKind::TypeError, "E0101"),
        (ErrorKind::MismatchedType, "E0102"),
        (ErrorKind::IncompatibleTypes, "E0103"),
        (ErrorKind::CannotInferType, "E0104"),
        (ErrorKind::NameError, "E0201"),
        (ErrorKind::UndefinedName, "E0202"),
        (ErrorKind::NameAlreadyDefined, "E0203"),
        (ErrorKind::DuplicateDefinition, "E0204"),
        (ErrorKind::Io, "E0301"),
        (ErrorKind::FileNotFound, "E0302"),
        (ErrorKind::PermissionDenied, "E0303"),
        (ErrorKind::Internal, "E0901"),
        (ErrorKind::CompilerBug, "E0902"),
        (ErrorKind::JitError, "E0903"),
        (ErrorKind::Runtime, "E1001"),
        (ErrorKind::DivisionByZero, "E1002"),
        (ErrorKind::IndexOutOfBounds, "E1003"),
        (ErrorKind::NullDereference, "E1004"),
        (ErrorKind::UseAfterMove, "E1005"),
        (ErrorKind::UseAfterFree, "E1006"),
        (ErrorKind::BorrowError, "E1007"),
        (ErrorKind::MutableBorrowWhileShared, "E1008"),
        (ErrorKind::SharedBorrowWhileMutable, "E1009"),
        (ErrorKind::MoveWhileBorrowed, "E1010"),
        (ErrorKind::UninitializedVariable, "E1011"),
        (ErrorKind::UnreachableCode, "E1012"),
        (ErrorKind::MissingReturn, "E1013"),
        (ErrorKind::InvalidOperation, "E1014"),
        (ErrorKind::InvalidCast, "E1015"),
    ];
    for (kind, code) in codes {
        assert_eq!(kind.code(), code);
        assert_eq!(
            err(kind, Span::new(0, 0), "m").to_text(),
            format!("\x1b[1;31merror[{}]\x1b[0m: m\n", code)
        );
    }
}

#[test]
fn every_kind_of_warning_has_its_code() {
    let kinds = [
        WarningKind::DeadCode,
        WarningKind::UnusedVariable,
        WarningKind::UnusedParameter,
        WarningKind::UnusedImport,
        WarningKind::UnusedFunction,
        WarningKind::UnusedType,
        WarningKind::ShadowedVariable,
        WarningKind::RedundantCast,
        WarningKind::RedundantClone,
        WarningKind::RedundantReturn,
        WarningKind::TrivialComparison,
        WarningKind::PossibleOverflow,
        WarningKind::ImplicitConversion,
        WarningKind::Deprecated,
        WarningKind::Experimental,
        WarningKind::Style,
        WarningKind::NamingConvention,
    ];
    for (i, kind) in kinds.iter().enumerate() {
        let code = format!("W{:04}", i + 1);
        assert_eq!(kind.code(), code);
        assert_eq!(
            warn(*kind, Span::new(0, 0), "m").with_help("h").to_text(),
            format!("\x1b[1;33mwarning[{}]\x1b[0m: m\n  \x1b[1;36mhelp\x1b[0m: h\n", code)
        );
    }
}

#[test]
fn an_error_shows_the_block_that_it_is_in() {
    let src = "fn a() {}\nfn main() {\n    x = bad;\n}\n";
    let start = src.find("bad").unwrap();
    let e = err(ErrorKind::UndefinedName, Span::new(start, start + 3), "no such name")
        .with_source(src)
        .with_file("m.yk")
        .with_help("declare it");
    assert!(e.can_be_shown());
    assert_eq!(
        e.to_text(),
        "\x1b[1;31merror[E0202]\x1b[0m: no such name\n\
         \x20 \x1b[1;36mhelp\x1b[0m: declare it\n\
         \x20 \x1b[1;34mfile\x1b[0m: m.yk\n\
         \x20 \x1b[1;34m-->\x1b[0m m.yk:3:9\n\
         \x20  \x1b[1;34m|\x1b[0m\n\
         \x20   2 \x1b[1;34m|\x1b[0m \n\
         \x20   3 \x1b[1;34m|\x1b[0m     x = bad;\n\
         \x20  \x1b[1;34m|\x1b[0m         \x1b[1;31m^^^\x1b[0m\n\
         \x20   4 \x1b[1;34m|\x1b[0m }\n\
         \x20   5 \x1b[1;34m|\x1b[0m \n\
         \x20  \x1b[1;34m|\x1b[0m\n"
    );
}

#[test]
fn an_error_without_a_file_has_no_place() {
    let e = err(ErrorKind::Syntax, Span::new(0, 0), "m").with_source("ab");
    assert_eq!(
        e.to_text(),
        "\x1b[1;31merror[E0001]\x1b[0m: m\n\
         \x20  \x1b[1;34m|\x1b[0m\n\
         \x20   1 \x1b[1;34m|\x1b[0m ab\n\
         \x20  \x1b[1;34m|\x1b[0m \x1b[1;31m^\x1b[0m\n\
         \x20  \x1b[1;34m|\x1b[0m\n"
    );
}

#[test]
fn a_warning_shows_its_line() {
    let src = "one\ntwo three\nfour";
    let start = src.find("three").unwrap();
    let w = warn(WarningKind::UnusedVariable, Span::new(start, src.len()), "unused")
        .with_source(src)
        .with_file("m.yk");
    assert!(w.can_be_shown());
    assert_eq!(
        w.to_text(),
        "\x1b[1;33mwarning[W0002]\x1b[0m: unused\n\
         \x20 \x1b[1;34m-->\x1b[0m m.yk:2:5\n\
         \x20  \x1b[1;34m|\x1b[0m\n\
         \x20   2 \x1b[1;34m|\x1b[0m two three\n\
         \x20  \x1b[1;34m|\x1b[0m     \x1b[1;33m^^^^^\x1b[0m\n\
         \x20  \x1b[1;34m|\x1b[0m\n"
    );
}

#[test]
fn places_inside_a_character_cannot_be_shown() {
    assert!(error_can_be_shown("aé", Span::new(1, 3)));
    assert!(!error_can_be_shown("aé", Span::new(2, 3)));
    assert!(!error_can_be_shown("a", Span::new(2, 3)));
    let e = err(ErrorKind::Syntax, Span::new(2, 3), "m");
    assert!(e.can_be_shown());
    assert!(!e.with_source("aé").can_be_shown());
}

#[test]
fn a_report_names_the_file() {
    let file = LoadedFile {
        path: "lib.yk".to_string(),
        source: "x".to_string(),
        module: Module {
            name: String::new(),
            span: Span::new(0, 0),
            imports: vec![],
            exports: vec![],
            items: vec![],
        },
    };
    let e = err(ErrorKind::TypeError, Span::new(0, 1), "wrong");
    let text = report(e.clone(), &file);
    assert_eq!(text, e.with_source("x").with_file("lib.yk").to_text());
    assert!(text.contains("lib.yk:1:1"));
}

#[test]
fn files_are_checked_from_the_last_on() {
    assert!(matches!(check_step(3, 0, None), CheckStep::Check(2)));
    assert!(matches!(check_step(3, 2, None), CheckStep::Check(0)));
    assert!(matches!(check_step(3, 3, None), CheckStep::GoOn));
    assert!(matches!(check_step(0, 0, None), CheckStep::GoOn));
    for checked in 1..4 {
        let step = check_step(3, checked, Some("wrong".to_string()));
        assert!(matches!(step, CheckStep::Refuse(e) if e == "wrong"));
    }
}

#[test]
fn errors_and_warnings_are_collected_in_order() {
    let mut d = Diagnostics::new();
    assert!(!d.has_errors() && !d.has_warnings());
    assert_eq!(d.verdict(), None);
    assert!(d.clone().into_result().is_ok());
    d.add_error(err(ErrorKind::Syntax, Span::new(1, 2), "first"));
    d.add_error(err(ErrorKind::Io, Span::new(3, 4), "second"));
    d.add_warning(warn(WarningKind::Style, Span::new(5, 6), "third"));
    assert_eq!(d.errors().len(), 2);
    assert_eq!(d.errors()[1].msg, "second");
    assert_eq!(d.warnings()[0].msg, "third");
    assert_eq!(
        d.verdict().unwrap(),
        "\x1b[31;1merror:\x1b[0m aborting due to 2 previous error(s)"
    );
    let e = d.into_result().unwrap_err();
    assert_eq!(e.msg, "first");
    assert_eq!(e.kind, ErrorKind::Syntax);
}

#[test]
fn warnings_count_as_errors_unless_switched_off() {
    let mut d = Diagnostics::new_strict();
    d.add_warning(warn(WarningKind::DeadCode, Span::new(7, 9), "dead"));
    assert!(d.has_errors() && d.has_warnings());
    assert_eq!(
        d.verdict().unwrap(),
        "\x1b[31;1merror:\x1b[0m aborting due to 1 warning(s) treated as errors"
    );
    let e = d.clone().into_result().unwrap_err();
    assert_eq!(e.kind, ErrorKind::TypeError);
    assert_eq!(e.msg, "warning treated as error: dead");
    assert_eq!(e.span, Span::new(7, 9));
    d.set_treat_warnings_as_errors(false);
    assert!(!d.has_errors() && d.has_warnings());
    assert_eq!(d.verdict(), None);
    assert!(d.into_result().is_ok());
}
