//! The option parser: it consumes the invocation's brace-delimited option
//! block, a comma-separated list of `name = "value"` entries, and produces a
//! validated `Options` record together with the diagnostics to report.
//!
//! The grammar is `Options := (Entry (',' Entry)* ','?)?` with
//! `Entry := Ident '=' StringLiteral`. The only recognised option is
//! `version`. A duplicate `version` is an error at the later entry with a note
//! at the earlier one, and parsing continues. An unknown option name is an
//! error at the identifier, after which the parser skips forward to the next
//! comma so later entries are still checked. A malformed entry (no identifier,
//! missing `=`, missing string value, missing comma) is an error at the
//! offending position and ends the scan of the block. Whatever was reported,
//! a record is always produced, with the default (empty) version when none was
//! set, so the rest of the pipeline can run and surface further diagnostics.

use vstd::prelude::*;
use vstd::string::*;
use crate::diag::{Diag, DiagKind, DiagKindV, DiagV, Level, diag_views, error_at, note_at};
use crate::set_once::SetOnce;
use crate::tokens::{Span, Token, TokenKind, TokenKindV, TokenV, token_views};

verus! {

/// The validated configuration of one invocation.
pub struct Options {
    /// Appended to the interpreter command prefix to pick the executable;
    /// defaults to the empty string.
    pub version: String,
}

/// Mathematical model of the parser's result: the `version` slot with the
/// span of the entry that set it, and the diagnostics in order of emission.
pub struct ParseOutcomeV {
    pub version: Option<(Seq<char>, Span)>,
    pub diags: Seq<DiagV>,
}

/// The span of token `i`, or `fallback` when the stream ends before `i`.
pub open spec fn span_or(toks: Seq<TokenV>, i: int, fallback: Span) -> Span {
    if 0 <= i < toks.len() {
        toks[i].span
    } else {
        fallback
    }
}

/// Parsing state at the start of an entry (or at end of stream).
pub open spec fn parse_from(
    toks: Seq<TokenV>,
    i: int,
    version: Option<(Seq<char>, Span)>,
    diags: Seq<DiagV>,
) -> ParseOutcomeV
    decreases toks.len() - i, 2int,
{
    if i < 0 || i >= toks.len() {
        ParseOutcomeV { version, diags }
    } else {
        match toks[i].kind {
            TokenKindV::Ident(name) => {
                let ident_span = toks[i].span;
                if name == "version"@ {
                    if i + 1 < toks.len() && toks[i + 1].kind is Eq {
                        if i + 2 < toks.len() && toks[i + 2].kind is LitStr {
                            let value = toks[i + 2].kind->LitStr_0;
                            let entry_span = Span { lo: ident_span.lo, hi: toks[i + 2].span.hi };
                            if version is None {
                                separator_from(toks, i + 3, Some((value, entry_span)), diags)
                            } else {
                                separator_from(
                                    toks,
                                    i + 3,
                                    version,
                                    diags.push(error_at(entry_span, DiagKindV::VersionAlreadySet))
                                        .push(note_at((version->0).1, DiagKindV::FirstSetHere)),
                                )
                            }
                        } else {
                            ParseOutcomeV {
                                version,
                                diags: diags.push(
                                    error_at(
                                        span_or(toks, i + 2, ident_span),
                                        DiagKindV::ExpectedStringValue,
                                    ),
                                ),
                            }
                        }
                    } else {
                        ParseOutcomeV {
                            version,
                            diags: diags.push(
                                error_at(span_or(toks, i + 1, ident_span), DiagKindV::ExpectedEq),
                            ),
                        }
                    }
                } else {
                    skip_entry(
                        toks,
                        i + 1,
                        version,
                        diags.push(error_at(ident_span, DiagKindV::UnknownOption(name))),
                    )
                }
            },
            _ => {
                ParseOutcomeV {
                    version,
                    diags: diags.push(error_at(toks[i].span, DiagKindV::ExpectedOptionName)),
                }
            },
        }
    }
}

/// Parsing state while resynchronising after an unknown option: tokens are
/// discarded up to the next comma (which is consumed) or the end of stream.
pub open spec fn skip_entry(
    toks: Seq<TokenV>,
    i: int,
    version: Option<(Seq<char>, Span)>,
    diags: Seq<DiagV>,
) -> ParseOutcomeV
    decreases toks.len() - i, 0int,
{
    if i < 0 || i >= toks.len() {
        ParseOutcomeV { version, diags }
    } else if toks[i].kind is Comma {
        parse_from(toks, i + 1, version, diags)
    } else {
        skip_entry(toks, i + 1, version, diags)
    }
}

/// Parsing state between entries: a comma continues, end of stream finishes,
/// anything else is an error that ends the scan.
pub open spec fn separator_from(
    toks: Seq<TokenV>,
    i: int,
    version: Option<(Seq<char>, Span)>,
    diags: Seq<DiagV>,
) -> ParseOutcomeV
    decreases toks.len() - i, 1int,
{
    if i < 0 || i >= toks.len() {
        ParseOutcomeV { version, diags }
    } else if toks[i].kind is Comma {
        parse_from(toks, i + 1, version, diags)
    } else {
        ParseOutcomeV {
            version,
            diags: diags.push(error_at(toks[i].span, DiagKindV::ExpectedComma)),
        }
    }
}

/// What parsing an option block yields.
pub open spec fn parse_options_spec(toks: Seq<TokenV>) -> ParseOutcomeV {
    parse_from(toks, 0, None, Seq::empty())
}

/// The version string an outcome settles on: the value of the slot, or the
/// default empty string.
pub open spec fn version_value(slot: Option<(Seq<char>, Span)>) -> Seq<char> {
    match slot {
        Some(p) => p.0,
        None => Seq::empty(),
    }
}

/// The model of the cell's content.
pub open spec fn slot_view(slot: Option<(String, Span)>) -> Option<(Seq<char>, Span)> {
    match slot {
        Some(p) => Some((p.0@, p.1)),
        None => None,
    }
}

impl Options {
    /// Parse the tokens of the option block into an `Options` record plus the
    /// diagnostics to report, exactly as `parse_options_spec` lays down.
    pub fn parse(toks: &Vec<Token>) -> (r: (Options, Vec<Diag>))
        ensures
            ({
                let o = parse_options_spec(token_views(toks@));
                r.0.version@ == version_value(o.version) && diag_views(r.1@) == o.diags
            }),
    {
        let ghost tv = token_views(toks@);
        let key: String = String::from_str("version");
        let mut version: SetOnce<(String, Span)> = SetOnce::new();
        let mut diags: Vec<Diag> = Vec::new();
        let mut i: usize = 0;
        proof {
            assert(diag_views(diags@) =~= Seq::<DiagV>::empty());
        }
        while i < toks.len()
            invariant
                i <= toks.len(),
                tv == token_views(toks@),
                tv.len() == toks@.len(),
                key@ == "version"@,
                parse_from(tv, i as int, slot_view(version@), diag_views(diags@))
                    == parse_options_spec(tv),
            decreases toks.len() - i,
        {
            let ghost entry_diags = diag_views(diags@);
            let ghost entry_i = i as int;
            proof {
                assert(tv[entry_i] == toks@[entry_i]@);
            }
            let ident_span = toks[i].span;
            match &toks[i].kind {
                TokenKind::Ident(name) => {
                    let is_version = name.eq(&key);
                    i = i + 1;
                    if is_version {
                        let mut eq_ok = false;
                        if i < toks.len() {
                            proof {
                                assert(tv[i as int] == toks@[i as int]@);
                            }
                            if let TokenKind::Eq = &toks[i].kind {
                                eq_ok = true;
                            }
                        }
                        if !eq_ok {
                            let sp = if i < toks.len() {
                                toks[i].span
                            } else {
                                ident_span
                            };
                            diags.push(
                                Diag { level: Level::Error, span: sp, kind: DiagKind::ExpectedEq },
                            );
                            proof {
                                assert(diag_views(diags@) =~= entry_diags.push(
                                    error_at(sp, DiagKindV::ExpectedEq),
                                ));
                            }
                            return Self::conclude(version, diags);
                        }
                        i = i + 1;
                        let mut value: Option<String> = None;
                        if i < toks.len() {
                            proof {
                                assert(tv[i as int] == toks@[i as int]@);
                            }
                            if let TokenKind::LitStr(s) = &toks[i].kind {
                                value = Some(s.clone());
                            }
                        }
                        match value {
                            Some(s) => {
                                let entry_span = Span { lo: ident_span.lo, hi: toks[i].span.hi };
                                i = i + 1;
                                match version.set((s, entry_span)) {
                                    Ok(_) => {},
                                    Err(prev) => {
                                        let first_span = prev.1;
                                        diags.push(
                                            Diag {
                                                level: Level::Error,
                                                span: entry_span,
                                                kind: DiagKind::VersionAlreadySet,
                                            },
                                        );
                                        diags.push(
                                            Diag {
                                                level: Level::Note,
                                                span: first_span,
                                                kind: DiagKind::FirstSetHere,
                                            },
                                        );
                                        proof {
                                            assert(diag_views(diags@) =~= entry_diags.push(
                                                error_at(entry_span, DiagKindV::VersionAlreadySet),
                                            ).push(note_at(first_span, DiagKindV::FirstSetHere)));
                                        }
                                    },
                                }
                                proof {
                                    assert(separator_from(
                                        tv,
                                        i as int,
                                        slot_view(version@),
                                        diag_views(diags@),
                                    ) == parse_options_spec(tv));
                                }
                            },
                            None => {
                                let sp = if i < toks.len() {
                                    toks[i].span
                                } else {
                                    ident_span
                                };
                                diags.push(
                                    Diag {
                                        level: Level::Error,
                                        span: sp,
                                        kind: DiagKind::ExpectedStringValue,
                                    },
                                );
                                proof {
                                    assert(diag_views(diags@) =~= entry_diags.push(
                                        error_at(sp, DiagKindV::ExpectedStringValue),
                                    ));
                                }
                                return Self::conclude(version, diags);
                            },
                        }
                    } else {
                        diags.push(
                            Diag {
                                level: Level::Error,
                                span: ident_span,
                                kind: DiagKind::UnknownOption(name.clone()),
                            },
                        );
                        proof {
                            assert(diag_views(diags@) =~= entry_diags.push(
                                error_at(ident_span, DiagKindV::UnknownOption(name@)),
                            ));
                        }
                        // Resynchronise: discard tokens up to the next comma.
                        while i < toks.len() && !matches!(&toks[i].kind, TokenKind::Comma)
                            invariant
                                entry_i < i as int,
                                i <= toks.len(),
                                tv == token_views(toks@),
                                tv.len() == toks@.len(),
                                skip_entry(tv, i as int, slot_view(version@), diag_views(diags@))
                                    == parse_options_spec(tv),
                            decreases toks.len() - i,
                        {
                            proof {
                                assert(tv[i as int] == toks@[i as int]@);
                            }
                            i = i + 1;
                        }
                        // At a comma or at the end: consuming the separator here
                        // is exactly what the skipping state does.
                        if i < toks.len() {
                            proof {
                                assert(tv[i as int] == toks@[i as int]@);
                            }
                            i = i + 1;
                        }
                        continue ;
                    }
                },
                _ => {
                    diags.push(
                        Diag {
                            level: Level::Error,
                            span: ident_span,
                            kind: DiagKind::ExpectedOptionName,
                        },
                    );
                    proof {
                        assert(diag_views(diags@) =~= entry_diags.push(
                            error_at(ident_span, DiagKindV::ExpectedOptionName),
                        ));
                    }
                    return Self::conclude(version, diags);
                },
            }
            // Between entries: end of stream finishes, a comma continues,
            // anything else ends the scan with an error.
            if i == toks.len() {
                return Self::conclude(version, diags);
            }
            proof {
                assert(tv[i as int] == toks@[i as int]@);
            }
            if let TokenKind::Comma = &toks[i].kind {
                i = i + 1;
            } else {
                let sp = toks[i].span;
                let ghost pre = diag_views(diags@);
                diags.push(Diag { level: Level::Error, span: sp, kind: DiagKind::ExpectedComma });
                proof {
                    assert(diag_views(diags@) =~= pre.push(
                        error_at(sp, DiagKindV::ExpectedComma),
                    ));
                }
                return Self::conclude(version, diags);
            }
        }
        Self::conclude(version, diags)
    }

    /// Close the scan: the record with the slot's value or the default.
    fn conclude(version: SetOnce<(String, Span)>, diags: Vec<Diag>) -> (r: (Options, Vec<Diag>))
        ensures
            r.0.version@ == version_value(slot_view(version@)),
            r.1@ == diags@,
    {
        let v = match version.get() {
            Some(p) => p.0,
            None => String::new(),
        };
        proof {
            assert(v@ =~= version_value(slot_view(version@)));
        }
        (Options { version: v }, diags)
    }
}

} // verus!
