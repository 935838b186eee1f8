//! Laws of the option parser, proved from its functional specification.

use vstd::prelude::*;
use crate::diag::{DiagKindV, error_at, note_at};
use crate::options::{
    ParseOutcomeV, parse_from, parse_options_spec, separator_from, skip_entry, version_value,
};
use crate::tokens::{Span, TokenKindV, TokenV};

verus! {

/// Once the `version` slot is set, no later entry overwrites it: parsing from
/// any point with a filled slot ends with that same slot.
pub proof fn lemma_version_write_once(
    toks: Seq<TokenV>,
    i: int,
    p: (Seq<char>, Span),
    diags: Seq<crate::diag::DiagV>,
)
    ensures
        parse_from(toks, i, Some(p), diags).version == Some(p),
    decreases toks.len() - i, 2int,
{
    if i < 0 || i >= toks.len() {
    } else {
        match toks[i].kind {
            TokenKindV::Ident(name) => {
                if name == "version"@ {
                    if i + 1 < toks.len() && toks[i + 1].kind is Eq && i + 2 < toks.len() && toks[i
                        + 2].kind is LitStr {
                        let entry_span = Span { lo: toks[i].span.lo, hi: toks[i + 2].span.hi };
                        lemma_version_write_once_separator(
                            toks,
                            i + 3,
                            p,
                            diags.push(error_at(entry_span, DiagKindV::VersionAlreadySet)).push(
                                note_at(p.1, DiagKindV::FirstSetHere),
                            ),
                        );
                    }
                } else {
                    lemma_version_write_once_skip(
                        toks,
                        i + 1,
                        p,
                        diags.push(error_at(toks[i].span, DiagKindV::UnknownOption(name))),
                    );
                }
            },
            _ => {},
        }
    }
}

proof fn lemma_version_write_once_skip(
    toks: Seq<TokenV>,
    i: int,
    p: (Seq<char>, Span),
    diags: Seq<crate::diag::DiagV>,
)
    ensures
        skip_entry(toks, i, Some(p), diags).version == Some(p),
    decreases toks.len() - i, 0int,
{
    if i < 0 || i >= toks.len() {
    } else if toks[i].kind is Comma {
        lemma_version_write_once(toks, i + 1, p, diags);
    } else {
        lemma_version_write_once_skip(toks, i + 1, p, diags);
    }
}

proof fn lemma_version_write_once_separator(
    toks: Seq<TokenV>,
    i: int,
    p: (Seq<char>, Span),
    diags: Seq<crate::diag::DiagV>,
)
    ensures
        separator_from(toks, i, Some(p), diags).version == Some(p),
    decreases toks.len() - i, 1int,
{
    if 0 <= i < toks.len() && toks[i].kind is Comma {
        lemma_version_write_once(toks, i + 1, p, diags);
    }
}

/// When no token of the block is the identifier `version`, the slot is never
/// written: parsing leaves it as it came.
pub proof fn lemma_version_untouched(
    toks: Seq<TokenV>,
    i: int,
    slot: Option<(Seq<char>, Span)>,
    diags: Seq<crate::diag::DiagV>,
)
    requires
        forall|k: int|
            i <= k < toks.len() ==> !(toks[k].kind == TokenKindV::Ident("version"@)),
    ensures
        parse_from(toks, i, slot, diags).version == slot,
    decreases toks.len() - i, 2int,
{
    if i < 0 || i >= toks.len() {
    } else {
        match toks[i].kind {
            TokenKindV::Ident(name) => {
                assert(!(toks[i].kind == TokenKindV::Ident("version"@)));
                lemma_version_untouched_skip(
                    toks,
                    i + 1,
                    slot,
                    diags.push(error_at(toks[i].span, DiagKindV::UnknownOption(name))),
                );
            },
            _ => {},
        }
    }
}

proof fn lemma_version_untouched_skip(
    toks: Seq<TokenV>,
    i: int,
    slot: Option<(Seq<char>, Span)>,
    diags: Seq<crate::diag::DiagV>,
)
    requires
        forall|k: int|
            i <= k < toks.len() ==> !(toks[k].kind == TokenKindV::Ident("version"@)),
    ensures
        skip_entry(toks, i, slot, diags).version == slot,
    decreases toks.len() - i, 0int,
{
    if i < 0 || i >= toks.len() {
    } else if toks[i].kind is Comma {
        lemma_version_untouched(toks, i + 1, slot, diags);
    } else {
        lemma_version_untouched_skip(toks, i + 1, slot, diags);
    }
}

/// Zero `version` entries yield the default: an option block without the
/// identifier `version` settles on the empty version string, so the
/// interpreter is named by the bare command prefix.
pub proof fn lemma_version_default(toks: Seq<TokenV>)
    requires
        forall|k: int|
            0 <= k < toks.len() ==> !(toks[k].kind == TokenKindV::Ident("version"@)),
    ensures
        parse_options_spec(toks).version is None,
        version_value(parse_options_spec(toks).version) == Seq::<char>::empty(),
    decreases toks.len(),
{
    lemma_version_untouched(toks, 0, None, Seq::empty());
}

/// Diagnostics only accumulate: whatever parsing adds, the diagnostics it was
/// handed stay in place at the front, in their order.
pub proof fn lemma_diags_accumulate(
    toks: Seq<TokenV>,
    i: int,
    slot: Option<(Seq<char>, Span)>,
    diags: Seq<crate::diag::DiagV>,
)
    ensures
        ({
            let r = parse_from(toks, i, slot, diags);
            r.diags.len() >= diags.len() && r.diags.take(diags.len() as int) == diags
        }),
    decreases toks.len() - i, 2int,
{
    let r = parse_from(toks, i, slot, diags);
    if i < 0 || i >= toks.len() {
        assert(r.diags.take(diags.len() as int) =~= diags);
    } else {
        match toks[i].kind {
            TokenKindV::Ident(name) => {
                if name == "version"@ {
                    if i + 1 < toks.len() && toks[i + 1].kind is Eq {
                        if i + 2 < toks.len() && toks[i + 2].kind is LitStr {
                            let value = toks[i + 2].kind->LitStr_0;
                            let entry_span = Span { lo: toks[i].span.lo, hi: toks[i + 2].span.hi };
                            let d2 = if slot is None {
                                diags
                            } else {
                                diags.push(error_at(entry_span, DiagKindV::VersionAlreadySet)).push(
                                    note_at((slot->0).1, DiagKindV::FirstSetHere),
                                )
                            };
                            let s2 = if slot is None {
                                Some((value, entry_span))
                            } else {
                                slot
                            };
                            lemma_diags_accumulate_separator(toks, i + 3, s2, d2);
                            assert(r.diags.take(diags.len() as int) =~= diags);
                        } else {
                            assert(r.diags.take(diags.len() as int) =~= diags);
                        }
                    } else {
                        assert(r.diags.take(diags.len() as int) =~= diags);
                    }
                } else {
                    lemma_diags_accumulate_skip(
                        toks,
                        i + 1,
                        slot,
                        diags.push(error_at(toks[i].span, DiagKindV::UnknownOption(name))),
                    );
                    assert(r.diags.take(diags.len() as int) =~= diags);
                }
            },
            _ => {
                assert(r.diags.take(diags.len() as int) =~= diags);
            },
        }
    }
}

proof fn lemma_diags_accumulate_skip(
    toks: Seq<TokenV>,
    i: int,
    slot: Option<(Seq<char>, Span)>,
    diags: Seq<crate::diag::DiagV>,
)
    ensures
        ({
            let r = skip_entry(toks, i, slot, diags);
            r.diags.len() >= diags.len() && r.diags.take(diags.len() as int) == diags
        }),
    decreases toks.len() - i, 0int,
{
    let r = skip_entry(toks, i, slot, diags);
    if i < 0 || i >= toks.len() {
        assert(r.diags.take(diags.len() as int) =~= diags);
    } else if toks[i].kind is Comma {
        lemma_diags_accumulate(toks, i + 1, slot, diags);
    } else {
        lemma_diags_accumulate_skip(toks, i + 1, slot, diags);
    }
}

proof fn lemma_diags_accumulate_separator(
    toks: Seq<TokenV>,
    i: int,
    slot: Option<(Seq<char>, Span)>,
    diags: Seq<crate::diag::DiagV>,
)
    ensures
        ({
            let r = separator_from(toks, i, slot, diags);
            r.diags.len() >= diags.len() && r.diags.take(diags.len() as int) == diags
        }),
    decreases toks.len() - i, 1int,
{
    let r = separator_from(toks, i, slot, diags);
    if 0 <= i < toks.len() && toks[i].kind is Comma {
        lemma_diags_accumulate(toks, i + 1, slot, diags);
    } else {
        assert(r.diags.take(diags.len() as int) =~= diags);
    }
}

/// A second `version` entry is a hard error naming both occurrences: parsing
/// an entry `version = "…"` while the slot is already set leaves the slot on
/// its first value, and reports an error at the new entry followed by a note
/// at the entry that set the slot.
pub proof fn lemma_duplicate_version_names_both(
    toks: Seq<TokenV>,
    i: int,
    p: (Seq<char>, Span),
    diags: Seq<crate::diag::DiagV>,
)
    requires
        0 <= i,
        i + 2 < toks.len(),
        toks[i].kind == TokenKindV::Ident("version"@),
        toks[i + 1].kind is Eq,
        toks[i + 2].kind is LitStr,
    ensures
        ({
            let entry_span = Span { lo: toks[i].span.lo, hi: toks[i + 2].span.hi };
            let r = parse_from(toks, i, Some(p), diags);
            &&& r.version == Some(p)
            &&& r.diags.len() >= diags.len() + 2
            &&& r.diags[diags.len() as int] == error_at(entry_span, DiagKindV::VersionAlreadySet)
            &&& r.diags[diags.len() as int + 1] == note_at(p.1, DiagKindV::FirstSetHere)
        }),
{
    let entry_span = Span { lo: toks[i].span.lo, hi: toks[i + 2].span.hi };
    let d2 = diags.push(error_at(entry_span, DiagKindV::VersionAlreadySet)).push(
        note_at(p.1, DiagKindV::FirstSetHere),
    );
    lemma_version_write_once(toks, i, p, diags);
    lemma_diags_accumulate_separator(toks, i + 3, Some(p), d2);
    let r = parse_from(toks, i, Some(p), diags);
    assert(r == separator_from(toks, i + 3, Some(p), d2));
    assert(r.diags[diags.len() as int] == r.diags.take(d2.len() as int)[diags.len() as int]);
    assert(r.diags[diags.len() as int + 1] == r.diags.take(d2.len() as int)[diags.len() as int + 1]);
}

/// The index of the first comma at or after `i`, or the stream's length when
/// there is none.
pub open spec fn next_comma(toks: Seq<TokenV>, i: int) -> int
    decreases toks.len() - i,
{
    if i < 0 || i >= toks.len() {
        toks.len() as int
    } else if toks[i].kind is Comma {
        i
    } else {
        next_comma(toks, i + 1)
    }
}

/// Resynchronising scans exactly to the next comma: from any point, the
/// skipping state resumes entry parsing right after the first comma it finds,
/// or finishes when the block ends first, reporting nothing further and
/// leaving the slot alone.
pub proof fn lemma_skip_scans_to_comma(
    toks: Seq<TokenV>,
    i: int,
    slot: Option<(Seq<char>, Span)>,
    diags: Seq<crate::diag::DiagV>,
)
    requires
        0 <= i,
    ensures
        ({
            let j = next_comma(toks, i);
            skip_entry(toks, i, slot, diags) == if j < toks.len() {
                parse_from(toks, j + 1, slot, diags)
            } else {
                ParseOutcomeV { version: slot, diags }
            }
        }),
    decreases toks.len() - i,
{
    if i >= toks.len() {
    } else if toks[i].kind is Comma {
    } else {
        lemma_skip_scans_to_comma(toks, i + 1, slot, diags);
    }
}

/// Unknown option resilience: an entry starting with an unrecognised
/// identifier adds exactly one error, naming that identifier, and parsing
/// resumes at the token after the next comma with the slot untouched — later
/// entries in the same block are still checked.
pub proof fn lemma_unknown_option_resilience(
    toks: Seq<TokenV>,
    i: int,
    slot: Option<(Seq<char>, Span)>,
    diags: Seq<crate::diag::DiagV>,
    name: Seq<char>,
)
    requires
        0 <= i < toks.len(),
        toks[i].kind == TokenKindV::Ident(name),
        name != "version"@,
    ensures
        ({
            let j = next_comma(toks, i + 1);
            let reported = diags.push(error_at(toks[i].span, DiagKindV::UnknownOption(name)));
            parse_from(toks, i, slot, diags) == if j < toks.len() {
                parse_from(toks, j + 1, slot, reported)
            } else {
                ParseOutcomeV { version: slot, diags: reported }
            }
        }),
{
    lemma_skip_scans_to_comma(
        toks,
        i + 1,
        slot,
        diags.push(error_at(toks[i].span, DiagKindV::UnknownOption(name))),
    );
}

} // verus!
