use python_mixin::expand::{Payload, Prepared, finish, prepare, stage_plan};
use python_mixin::render::{command_name, synthetic_name};
use python_mixin::run::RunOutcome;
use python_mixin::splice::QueryKind;
use python_mixin::staging::staged_contents;
use python_mixin::tokens::{Delim, Span, Token, TokenKind, TokenTree};

fn sp(lo: usize, hi: usize) -> Span {
    Span { lo, hi }
}

fn leaf_str(s: &str, lo: usize, hi: usize) -> TokenTree {
    TokenTree::Leaf(Token { kind: TokenKind::LitStr(s.to_string()), span: sp(lo, hi) })
}

fn ident(s: &str, lo: usize, hi: usize) -> Token {
    Token { kind: TokenKind::Ident(s.to_string()), span: sp(lo, hi) }
}

fn eq(lo: usize, hi: usize) -> Token {
    Token { kind: TokenKind::Eq, span: sp(lo, hi) }
}

fn litstr(s: &str, lo: usize, hi: usize) -> Token {
    Token { kind: TokenKind::LitStr(s.to_string()), span: sp(lo, hi) }
}

fn prepare_ok(tts: Vec<TokenTree>, invocation: Span) -> (Prepared, Payload) {
    let p = prepare(tts, invocation);
    assert!(p.diags.is_empty());
    let payload = match &p.payload {
        Some(pl) => Payload { code: pl.code.clone(), span: pl.span },
        None => panic!("expected a payload"),
    };
    (p, payload)
}

#[test]
fn smoke() {
    // Bare payload, default version: runs under the plain `python` command.
    let tts = vec![leaf_str("print(1 + 2)", 15, 29)];
    let (p, payload) = prepare_ok(tts, sp(0, 30));
    assert_eq!(payload.code, "print(1 + 2)");
    assert_eq!(command_name(p.options.version.as_str()), "python");
    // With `{version = "2.7"}`: the executable is `python2.7`.
    let tts = vec![
        TokenTree::Group(
            Delim::Brace,
            sp(14, 31),
            vec![ident("version", 15, 22), eq(23, 24), litstr("2.7", 25, 30)],
        ),
        leaf_str("print 1 + 2", 32, 45),
    ];
    let (p, payload) = prepare_ok(tts, sp(0, 46));
    assert_eq!(p.options.version, "2.7");
    assert_eq!(command_name(p.options.version.as_str()), "python2.7");
    assert_eq!(payload.code, "print 1 + 2");
}

#[test]
fn can_use_macro() {
    // Host-side textual macros assemble the payload before the engine sees
    // it: the engine receives the already-resolved literal.
    let assembled = format!("{}{}{}", "x = ", "1 + 2", "\nprint(x)");
    let tts = vec![leaf_str(&assembled, 20, 60)];
    let (_, payload) = prepare_ok(tts, sp(0, 61));
    assert_eq!(payload.code, "x = 1 + 2\nprint(x)");
}

#[test]
fn items() {
    let code = "\nfor i in range(0, 3):\n    print('fn f%d() -> i32 { %d }' % (i, i + 1))\n";
    let invocation = sp(500, 590);
    let plan = stage_plan(code, 24, "tests/basic.rs", "");
    assert_eq!(plan.command, "python");
    // The interpreter prints three item definitions; they are spliced
    // verbatim in item position.
    let stdout = b"fn f0() -> i32 { 1 }\nfn f1() -> i32 { 2 }\nfn f2() -> i32 { 3 }\n".to_vec();
    let outcome = RunOutcome { success: true, code: Some(0), stdout, stderr: Vec::new() };
    let (diags, expansion) = finish(outcome, invocation, plan.synthetic);
    assert!(diags.is_empty());
    let mut e = expansion.expect("successful run splices");
    let src = e.query(QueryKind::Items).expect("fresh adapter answers").clone();
    assert!(src.contains("fn f0() -> i32 { 1 }"));
    assert!(src.contains("fn f1() -> i32 { 2 }"));
    assert!(src.contains("fn f2() -> i32 { 3 }"));
}

#[test]
fn methods() {
    let code = "\nfor i in range(0, 3):\n    print('fn f%d(&self) -> i32 { %d }' % (i, i + 1))\n    ";
    let invocation = sp(700, 800);
    let first_line = 39;
    let contents = staged_contents(code, first_line);
    // Line alignment: 38 leading newlines, then the payload bytes.
    assert_eq!(&contents[..38], vec![b'\n'; 38].as_slice());
    assert_eq!(&contents[38..], code.as_bytes());
    let stdout =
        b"fn f0(&self) -> i32 { 1 }\nfn f1(&self) -> i32 { 2 }\nfn f2(&self) -> i32 { 3 }\n"
        .to_vec();
    let outcome = RunOutcome { success: true, code: Some(0), stdout, stderr: Vec::new() };
    let synthetic = synthetic_name("tests/basic.rs", first_line);
    let (diags, expansion) = finish(outcome, invocation, synthetic);
    assert!(diags.is_empty());
    let mut e = expansion.expect("successful run splices");
    let src = e.query(QueryKind::MethodBody).expect("fresh adapter answers").clone();
    assert!(src.contains("fn f0(&self) -> i32 { 1 }"));
    assert!(src.contains("fn f1(&self) -> i32 { 2 }"));
    assert!(src.contains("fn f2(&self) -> i32 { 3 }"));
}
