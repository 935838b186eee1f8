use python_mixin::diag::{Diag, DiagKind, Level};
use python_mixin::expand::{finish, prepare};
use python_mixin::options::Options;
use python_mixin::render::{command_name, synthetic_name, u64_to_decimal};
use python_mixin::run::{RunOutcome, classify};
use python_mixin::set_once::SetOnce;
use python_mixin::splice::{Expansion, QueryKind};
use python_mixin::staging::{staged_contents, staged_rel_name};
use python_mixin::tokens::{Delim, Span, Token, TokenKind, TokenTree};

fn sp(lo: usize, hi: usize) -> Span {
    Span { lo, hi }
}

fn ident(s: &str, lo: usize, hi: usize) -> Token {
    Token { kind: TokenKind::Ident(s.to_string()), span: sp(lo, hi) }
}

fn eq(lo: usize, hi: usize) -> Token {
    Token { kind: TokenKind::Eq, span: sp(lo, hi) }
}

fn comma(lo: usize, hi: usize) -> Token {
    Token { kind: TokenKind::Comma, span: sp(lo, hi) }
}

fn litstr(s: &str, lo: usize, hi: usize) -> Token {
    Token { kind: TokenKind::LitStr(s.to_string()), span: sp(lo, hi) }
}

fn is_error(d: &Diag) -> bool {
    d.level == Level::Error
}

#[test]
fn duplicate_version_names_both_occurrences() {
    // { version = "2", version = "3" }: error at the second entry, note at
    // the first, and the first value stands.
    let toks = vec![
        ident("version", 10, 17),
        eq(18, 19),
        litstr("2", 20, 23),
        comma(23, 24),
        ident("version", 25, 32),
        eq(33, 34),
        litstr("3", 35, 38),
    ];
    let (options, diags) = Options::parse(&toks);
    assert_eq!(options.version, "2");
    assert_eq!(diags.len(), 2);
    assert_eq!(diags[0].level, Level::Error);
    assert!(matches!(diags[0].kind, DiagKind::VersionAlreadySet));
    assert_eq!(diags[0].span, sp(25, 38));
    assert_eq!(diags[1].level, Level::Note);
    assert!(matches!(diags[1].kind, DiagKind::FirstSetHere));
    assert_eq!(diags[1].span, sp(10, 23));
}

#[test]
fn unknown_options_resynchronise() {
    // { bad = "x", another_bad }: both unknown names are reported.
    let toks = vec![
        ident("bad", 2, 5),
        eq(6, 7),
        litstr("x", 8, 11),
        comma(11, 12),
        ident("another_bad", 13, 24),
    ];
    let (options, diags) = Options::parse(&toks);
    assert_eq!(options.version, "");
    assert_eq!(diags.len(), 2);
    assert!(matches!(&diags[0].kind, DiagKind::UnknownOption(n) if n == "bad"));
    assert_eq!(diags[0].span, sp(2, 5));
    assert!(matches!(&diags[1].kind, DiagKind::UnknownOption(n) if n == "another_bad"));
    assert_eq!(diags[1].span, sp(13, 24));
    assert!(diags.iter().all(is_error));
}

#[test]
fn unknown_option_does_not_block_version() {
    // An unknown entry before a valid one: the valid one is still honoured.
    let toks = vec![
        ident("bad", 2, 5),
        eq(6, 7),
        litstr("x", 8, 11),
        comma(11, 12),
        ident("version", 13, 20),
        eq(21, 22),
        litstr("3", 23, 26),
    ];
    let (options, diags) = Options::parse(&toks);
    assert_eq!(options.version, "3");
    assert_eq!(diags.len(), 1);
    assert!(matches!(&diags[0].kind, DiagKind::UnknownOption(n) if n == "bad"));
}

#[test]
fn empty_option_block_defaults() {
    let (options, diags) = Options::parse(&Vec::new());
    assert_eq!(options.version, "");
    assert!(diags.is_empty());
}

#[test]
fn malformed_entry_is_reported() {
    // `version` without `=` ends the scan with an error at the stray token.
    let toks = vec![ident("version", 2, 9), litstr("3", 10, 13)];
    let (options, diags) = Options::parse(&toks);
    assert_eq!(options.version, "");
    assert_eq!(diags.len(), 1);
    assert!(matches!(diags[0].kind, DiagKind::ExpectedEq));
    assert_eq!(diags[0].span, sp(10, 13));
}

#[test]
fn missing_payload_is_reported_at_invocation() {
    let p = prepare(Vec::new(), sp(40, 80));
    assert!(p.payload.is_none());
    assert_eq!(p.diags.len(), 1);
    assert!(matches!(p.diags[0].kind, DiagKind::ExpectedStringLiteral));
    assert_eq!(p.diags[0].span, sp(40, 80));
    assert_eq!(p.options.version, "");
}

#[test]
fn two_payload_literals_are_rejected() {
    let tts = vec![
        TokenTree::Leaf(litstr("print(1)", 10, 20)),
        TokenTree::Leaf(litstr("print(2)", 21, 31)),
    ];
    let p = prepare(tts, sp(0, 32));
    assert!(p.payload.is_none());
    assert!(matches!(p.diags[0].kind, DiagKind::ExpectedStringLiteral));
}

#[test]
fn option_errors_do_not_stop_the_pipeline() {
    // A bad option block still yields a record and the payload.
    let tts = vec![
        TokenTree::Group(Delim::Brace, sp(1, 20), vec![ident("bad", 2, 5)]),
        TokenTree::Leaf(litstr("print(7)", 21, 31)),
    ];
    let p = prepare(tts, sp(0, 32));
    assert_eq!(p.diags.len(), 1);
    assert!(matches!(&p.diags[0].kind, DiagKind::UnknownOption(n) if n == "bad"));
    assert_eq!(p.payload.expect("payload still extracted").code, "print(7)");
}

#[test]
fn staged_contents_align_lines() {
    // First line 3: exactly two leading newlines, then the payload verbatim.
    assert_eq!(staged_contents("print(1 + 2)", 3), b"\n\nprint(1 + 2)".to_vec());
    // First line 1: no padding at all.
    assert_eq!(staged_contents("raise ValueError()", 1), b"raise ValueError()".to_vec());
    // A payload that itself starts with a newline keeps it after the padding.
    assert_eq!(staged_contents("\nx = 1", 2), b"\n\nx = 1".to_vec());
}

#[test]
fn staged_name_keeps_relative_paths() {
    assert_eq!(staged_rel_name("tests/basic.rs"), "tests/basic.rs");
    assert_eq!(staged_rel_name("lib.rs"), "lib.rs");
}

#[test]
fn staged_name_reduces_absolute_paths_to_basename() {
    assert_eq!(staged_rel_name("/home/user/project/src/lib.rs"), "lib.rs");
    assert_eq!(staged_rel_name("/main.rs"), "main.rs");
}

#[test]
fn command_names_follow_version() {
    assert_eq!(command_name(""), "python");
    assert_eq!(command_name("3"), "python3");
    assert_eq!(command_name("2.7"), "python2.7");
}

#[test]
fn synthetic_names_carry_file_and_line() {
    assert_eq!(synthetic_name("src/lib.rs", 7), "<src/lib.rs:7 python_mixin!>");
    assert_eq!(synthetic_name("a.rs", 120), "<a.rs:120 python_mixin!>");
}

#[test]
fn decimal_rendering_is_exact() {
    assert_eq!(u64_to_decimal(0), "0");
    assert_eq!(u64_to_decimal(9), "9");
    assert_eq!(u64_to_decimal(10), "10");
    assert_eq!(u64_to_decimal(1234567890), "1234567890");
    assert_eq!(u64_to_decimal(u64::MAX), "18446744073709551615");
}

#[test]
fn failure_with_stderr_reports_error_and_note() {
    // An uncaught exception: the error names the exit state, the note carries
    // stderr verbatim, and nothing is spliced.
    let stderr = b"Traceback (most recent call last):\nValueError".to_vec();
    let outcome =
        RunOutcome { success: false, code: Some(1), stdout: b"junk".to_vec(), stderr };
    let (diags, proceed) = classify(&outcome, sp(5, 9));
    assert!(!proceed);
    assert_eq!(diags.len(), 2);
    assert_eq!(diags[0].level, Level::Error);
    assert!(matches!(diags[0].kind, DiagKind::ExecutionFailed(Some(1))));
    match &diags[1].kind {
        DiagKind::StderrContent(bytes) => {
            let text = String::from_utf8(bytes.clone()).unwrap();
            assert!(text.contains("ValueError"));
        },
        _ => panic!("expected the stderr note"),
    }
    let (fdiags, expansion) = finish(outcome, sp(5, 9), "<x>".to_string());
    assert!(expansion.is_none());
    assert_eq!(fdiags.len(), 2);
}

#[test]
fn failure_without_stderr_notes_the_silence() {
    let outcome =
        RunOutcome { success: false, code: None, stdout: Vec::new(), stderr: Vec::new() };
    let (diags, proceed) = classify(&outcome, sp(5, 9));
    assert!(!proceed);
    assert_eq!(diags.len(), 2);
    assert!(matches!(diags[0].kind, DiagKind::ExecutionFailed(None)));
    assert!(matches!(diags[1].kind, DiagKind::NoStderrOutput));
}

#[test]
fn stderr_on_success_warns_and_splices() {
    let outcome = RunOutcome {
        success: true,
        code: Some(0),
        stdout: b"()".to_vec(),
        stderr: b"this is on stderr".to_vec(),
    };
    let (diags, expansion) = finish(outcome, sp(5, 9), "<x>".to_string());
    assert_eq!(diags.len(), 2);
    assert_eq!(diags[0].level, Level::Warning);
    assert!(matches!(diags[0].kind, DiagKind::RanWithStderr));
    assert_eq!(diags[1].level, Level::Note);
    assert!(matches!(&diags[1].kind, DiagKind::StderrContent(b) if b == b"this is on stderr"));
    assert!(diags.iter().all(|d| d.level != Level::Error));
    let mut e = expansion.expect("a warning does not abort");
    assert_eq!(e.query(QueryKind::Expression).unwrap(), "()");
}

#[test]
fn invalid_utf8_output_aborts() {
    let outcome = RunOutcome {
        success: true,
        code: Some(0),
        stdout: vec![0xff, 0xfe, 0x01],
        stderr: Vec::new(),
    };
    let (diags, expansion) = finish(outcome, sp(5, 9), "<x>".to_string());
    assert!(expansion.is_none());
    assert_eq!(diags.len(), 1);
    assert_eq!(diags[0].level, Level::Error);
    assert!(matches!(diags[0].kind, DiagKind::InvalidUtf8));
}

#[test]
fn adapter_is_single_use() {
    let mut e = Expansion::new("3".to_string(), "<a.rs:1 python_mixin!>".to_string());
    assert_eq!(e.name(), "<a.rs:1 python_mixin!>");
    assert_eq!(e.query(QueryKind::Expression).unwrap(), "3");
    assert!(e.query(QueryKind::Expression).is_none());
    assert!(e.query(QueryKind::Items).is_none());
}

#[test]
fn set_once_keeps_the_first_value() {
    let mut cell: SetOnce<(String, Span)> = SetOnce::new();
    assert!(cell.set(("2".to_string(), sp(1, 2))).is_ok());
    match cell.set(("3".to_string(), sp(7, 8))) {
        Ok(()) => panic!("second set must be refused"),
        Err(prior) => {
            assert_eq!(prior.0, "2");
            assert_eq!(prior.1, sp(1, 2));
        },
    }
    assert_eq!(cell.get(), Some(("2".to_string(), sp(1, 2))));
}

#[test]
fn set_once_empty_yields_nothing() {
    let cell: SetOnce<u32> = SetOnce::new();
    assert_eq!(cell.get(), None);
}
