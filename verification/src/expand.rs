//! The expansion pipeline. An invocation's token trees are split into the
//! optional brace-delimited option block and the payload; the option block is
//! parsed and the payload resolved to a single string literal. The staging
//! plan then fixes everything the interpreter run needs: the staged file's
//! relative name and contents, the interpreter command, and the synthetic
//! filename for re-parsing. Once the interpreter has run, the finish step
//! classifies its outcome and, when it proceeds, decodes stdout into the
//! re-splice adapter. Performing the disk writes and the process launch is the
//! host side's business; every decision in between is made here.

use vstd::prelude::*;
use vstd::string::*;
use vstd::utf8::{decode_utf8, valid_utf8};
use crate::diag::{Diag, DiagKind, DiagKindV, Level, diag_views, error_at, has_error};
use crate::options::{Options, parse_options_spec, version_value};
use crate::render::{command_name, command_name_spec, synthetic_name, synthetic_name_spec};
use crate::run::{RunOutcome, classify, classify_diags};
use crate::splice::{Expansion, decode_stdout};
use crate::staging::{staged_bytes, staged_contents, staged_rel_name, staged_rel_name_spec};
use crate::tokens::{
    Delim, Span, Token, TokenKind, TokenKindV, TokenTree, TokenTreeV, TokenV, token_views,
    tree_views,
};

verus! {

/// The embedded program's source and the span of its literal, kept for line
/// alignment.
pub struct Payload {
    pub code: String,
    pub span: Span,
}

/// The option block of an invocation: the tokens inside a brace-delimited
/// group standing first, or nothing.
pub open spec fn option_block(tts: Seq<TokenTreeV>) -> Seq<TokenV> {
    if tts.len() > 0 && tts[0] matches TokenTreeV::Group(Delim::Brace, _, _) {
        tts[0]->Group_2
    } else {
        Seq::empty()
    }
}

/// The trees left for the payload once the option block is taken off.
pub open spec fn payload_trees(tts: Seq<TokenTreeV>) -> Seq<TokenTreeV> {
    if tts.len() > 0 && tts[0] matches TokenTreeV::Group(Delim::Brace, _, _) {
        tts.drop_first()
    } else {
        tts
    }
}

/// The payload the remaining trees resolve to: exactly one string literal, or
/// nothing.
pub open spec fn payload_of(rest: Seq<TokenTreeV>) -> Option<(Seq<char>, Span)> {
    if rest.len() == 1 {
        match rest[0] {
            TokenTreeV::Leaf(t) => match t.kind {
                TokenKindV::LitStr(s) => Some((s, t.span)),
                _ => None,
            },
            _ => None,
        }
    } else {
        None
    }
}

/// What the front half of expansion settles before any I/O: the validated
/// options, the payload when there is one, and the diagnostics so far.
pub struct Prepared {
    pub options: Options,
    pub payload: Option<Payload>,
    pub diags: Vec<Diag>,
}

/// Split the invocation and validate it: parse the option block and resolve
/// the payload, reporting a missing or malformed payload at the invocation
/// span. Even with errors reported, the options record is produced, so the
/// pipeline can go on and surface more diagnostics in the same compilation.
pub fn prepare(tts: Vec<TokenTree>, invocation_span: Span) -> (r: Prepared)
    ensures
        ({
            let tv = tree_views(tts@);
            let o = parse_options_spec(option_block(tv));
            &&& r.options.version@ == version_value(o.version)
            &&& match payload_of(payload_trees(tv)) {
                Some(p) => r.payload matches Some(pl) && pl.code@ == p.0 && pl.span == p.1
                    && diag_views(r.diags@) == o.diags,
                None => r.payload is None && diag_views(r.diags@) == o.diags.push(
                    error_at(invocation_span, DiagKindV::ExpectedStringLiteral),
                ),
            }
        }),
{
    let ghost tv = tree_views(tts@);
    let mut tts = tts;
    let option_toks: Vec<Token> = if tts.len() > 0 && matches!(
        &tts[0],
        TokenTree::Group(Delim::Brace, _, _),
    ) {
        proof {
            assert(tv[0] == tts@[0]@);
        }
        let first = tts.remove(0);
        proof {
            assert(tree_views(tts@) =~= tv.drop_first());
        }
        match first {
            TokenTree::Group(_, _, toks) => toks,
            TokenTree::Leaf(_) => Vec::new(),
        }
    } else {
        proof {
            if tts@.len() > 0 {
                assert(tv[0] == tts@[0]@);
            }
            assert(token_views(Seq::<Token>::empty()) =~= Seq::<TokenV>::empty());
        }
        Vec::new()
    };
    proof {
        assert(token_views(option_toks@) == option_block(tv));
        assert(tree_views(tts@) == payload_trees(tv));
    }
    let (options, mut diags) = Options::parse(&option_toks);
    let ghost odiags = diag_views(diags@);

    let mut payload: Option<Payload> = None;
    if tts.len() == 1 {
        proof {
            assert(tree_views(tts@)[0] == tts@[0]@);
        }
        if let TokenTree::Leaf(t) = &tts[0] {
            if let TokenKind::LitStr(s) = &t.kind {
                payload = Some(Payload { code: s.clone(), span: t.span });
            }
        }
    }
    proof {
        if tree_views(tts@).len() > 0 {
            assert(tree_views(tts@)[0] == tts@[0]@);
        }
    }
    if payload.is_none() {
        diags.push(
            Diag {
                level: Level::Error,
                span: invocation_span,
                kind: DiagKind::ExpectedStringLiteral,
            },
        );
        proof {
            assert(diag_views(diags@) =~= odiags.push(
                error_at(invocation_span, DiagKindV::ExpectedStringLiteral),
            ));
        }
    }
    Prepared { options, payload, diags }
}

/// Everything an interpreter run needs, fixed before any I/O: where the staged
/// file goes under the scratch directory, what it holds, which executable to
/// run on it, and the synthetic filename for re-parsing the output.
pub struct StagePlan {
    pub rel_name: String,
    pub contents: Vec<u8>,
    pub command: String,
    pub synthetic: String,
}

/// Lay out the run for a payload starting on host line `first_line` of
/// `filename`, under the `version` option's value.
pub fn stage_plan(code: &str, first_line: u64, filename: &str, version: &str) -> (r: StagePlan)
    requires
        1 <= first_line,
    ensures
        r.rel_name@ == staged_rel_name_spec(filename@),
        r.contents@ == staged_bytes(code.spec_bytes(), first_line as nat),
        r.command@ == command_name_spec(version@),
        r.synthetic@ == synthetic_name_spec(filename@, first_line as nat),
{
    let rel_name = staged_rel_name(filename).to_owned();
    let contents = staged_contents(code, first_line);
    let command = command_name(version);
    let synthetic = synthetic_name(filename, first_line);
    StagePlan { rel_name, contents, command, synthetic }
}

/// Close the expansion once the interpreter has run: classify the outcome, and
/// when it proceeds, decode the captured stdout into the re-splice adapter
/// under the synthetic filename. Output is spliced only when no error was
/// emitted: a failed run, or stdout that is not UTF-8, yields diagnostics and
/// no adapter, and the captured stdout of a failed run is discarded unread.
pub fn finish(outcome: RunOutcome, invocation_span: Span, synthetic: String) -> (r: (
    Vec<Diag>,
    Option<Expansion>,
))
    ensures
        ({
            let cd = classify_diags(outcome.success, outcome.code, outcome.stderr@, invocation_span);
            &&& !outcome.success ==> r.1 is None && diag_views(r.0@) == cd
            &&& outcome.success && valid_utf8(outcome.stdout@) ==> (r.1 matches Some(e)
                && e.source_view() == decode_utf8(outcome.stdout@) && e.name_view() == synthetic@
                && e.state_view() is Fresh && diag_views(r.0@) == cd)
            &&& outcome.success && !valid_utf8(outcome.stdout@) ==> r.1 is None && diag_views(r.0@)
                == cd.push(error_at(invocation_span, DiagKindV::InvalidUtf8))
            &&& r.1 is Some ==> !has_error(diag_views(r.0@))
        }),
{
    let (mut diags, proceed) = classify(&outcome, invocation_span);
    if !proceed {
        return (diags, None);
    }
    let ghost cd = diag_views(diags@);
    let stdout = outcome.stdout;
    match decode_stdout(stdout) {
        Some(source) => {
            proof {
                crate::run::lemma_stderr_on_success_warns(
                    outcome.code,
                    outcome.stderr@,
                    invocation_span,
                );
            }
            (diags, Some(Expansion::new(source, synthetic)))
        },
        None => {
            diags.push(
                Diag { level: Level::Error, span: invocation_span, kind: DiagKind::InvalidUtf8 },
            );
            proof {
                assert(diag_views(diags@) =~= cd.push(
                    error_at(invocation_span, DiagKindV::InvalidUtf8),
                ));
            }
            (diags, None)
        },
    }
}

} // verus!
