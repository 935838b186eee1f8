//! The diagnostic classifier: it maps the interpreter's termination state and
//! captured stderr onto the diagnostics to emit and the decision whether to
//! proceed to splicing. A failed run is an error with a note carrying stderr
//! (or saying there was none) and never proceeds; a successful run with output
//! on stderr proceeds under a warning plus a note; a clean run proceeds
//! silently. Captured stdout is consumed only when the classifier proceeds.

use vstd::prelude::*;
use crate::diag::{
    Diag, DiagKind, DiagKindV, DiagV, Level, diag_views, error_at, has_error, note_at, warning_at,
};
use crate::tokens::Span;

verus! {

/// What came back from running the interpreter on the staged file: whether it
/// exited successfully, its exit code when it had one, and the two captured
/// output streams.
pub struct RunOutcome {
    pub success: bool,
    pub code: Option<i32>,
    pub stdout: Vec<u8>,
    pub stderr: Vec<u8>,
}

/// The diagnostics a termination state maps to, in order of emission.
pub open spec fn classify_diags(success: bool, code: Option<i32>, stderr: Seq<u8>, sp: Span) -> Seq<
    DiagV,
> {
    if !success {
        seq![
            error_at(sp, DiagKindV::ExecutionFailed(code)),
            if stderr.len() == 0 {
                note_at(sp, DiagKindV::NoStderrOutput)
            } else {
                note_at(sp, DiagKindV::StderrContent(stderr))
            },
        ]
    } else if stderr.len() != 0 {
        seq![warning_at(sp, DiagKindV::RanWithStderr), note_at(sp, DiagKindV::StderrContent(stderr))]
    } else {
        Seq::empty()
    }
}

/// Whether a termination state proceeds to splicing: exactly the successful
/// ones.
pub open spec fn classify_proceeds(success: bool) -> bool {
    success
}

/// Classify a run: the diagnostics to emit at the invocation span `sp`, and
/// whether expansion proceeds to splicing the captured stdout.
pub fn classify(outcome: &RunOutcome, sp: Span) -> (r: (Vec<Diag>, bool))
    ensures
        diag_views(r.0@) == classify_diags(outcome.success, outcome.code, outcome.stderr@, sp),
        r.1 == classify_proceeds(outcome.success),
{
    let mut diags: Vec<Diag> = Vec::new();
    if !outcome.success {
        diags.push(
            Diag { level: Level::Error, span: sp, kind: DiagKind::ExecutionFailed(outcome.code) },
        );
        if outcome.stderr.is_empty() {
            diags.push(Diag { level: Level::Note, span: sp, kind: DiagKind::NoStderrOutput });
        } else {
            diags.push(
                Diag {
                    level: Level::Note,
                    span: sp,
                    kind: DiagKind::StderrContent(clone_bytes(&outcome.stderr)),
                },
            );
        }
        proof {
            assert(diag_views(diags@) =~= classify_diags(
                outcome.success,
                outcome.code,
                outcome.stderr@,
                sp,
            ));
        }
        (diags, false)
    } else {
        if !outcome.stderr.is_empty() {
            diags.push(Diag { level: Level::Warning, span: sp, kind: DiagKind::RanWithStderr });
            diags.push(
                Diag {
                    level: Level::Note,
                    span: sp,
                    kind: DiagKind::StderrContent(clone_bytes(&outcome.stderr)),
                },
            );
        }
        proof {
            assert(diag_views(diags@) =~= classify_diags(
                outcome.success,
                outcome.code,
                outcome.stderr@,
                sp,
            ));
        }
        (diags, true)
    }
}

/// A copy of a byte vector.
fn clone_bytes(b: &Vec<u8>) -> (r: Vec<u8>)
    ensures
        r@ == b@,
{
    let mut out: Vec<u8> = Vec::new();
    let mut i: usize = 0;
    while i < b.len()
        invariant
            i <= b@.len(),
            out@ == b@.take(i as int),
        decreases b@.len() - i,
    {
        out.push(b[i]);
        i = i + 1;
        proof {
            assert(out@ =~= b@.take(i as int));
        }
    }
    proof {
        assert(b@.take(b@.len() as int) =~= b@);
    }
    out
}

/// Stderr on success warns, never errs: the diagnostics of any successful run
/// contain no error, and when stderr was non-empty they are exactly a warning
/// followed by a note carrying the stderr bytes verbatim.
pub proof fn lemma_stderr_on_success_warns(code: Option<i32>, stderr: Seq<u8>, sp: Span)
    ensures
        !has_error(classify_diags(true, code, stderr, sp)),
        stderr.len() != 0 ==> classify_diags(true, code, stderr, sp) == seq![
            warning_at(sp, DiagKindV::RanWithStderr),
            note_at(sp, DiagKindV::StderrContent(stderr)),
        ],
{
    let ds = classify_diags(true, code, stderr, sp);
    assert forall|i: int| 0 <= i < ds.len() implies !(ds[i].level is Error) by {
        if stderr.len() != 0 {
            assert(ds[0].level is Warning && ds[1].level is Note);
        }
    }
}

/// A failed run is isolated: it never proceeds to splicing, and what it emits
/// is an error at the invocation span followed by a note that carries the
/// stderr bytes verbatim, or says there were none.
pub proof fn lemma_failure_is_reported(code: Option<i32>, stderr: Seq<u8>, sp: Span)
    ensures
        !classify_proceeds(false),
        has_error(classify_diags(false, code, stderr, sp)),
        classify_diags(false, code, stderr, sp)[0] == error_at(
            sp,
            DiagKindV::ExecutionFailed(code),
        ),
        stderr.len() != 0 ==> classify_diags(false, code, stderr, sp)[1] == note_at(
            sp,
            DiagKindV::StderrContent(stderr),
        ),
        stderr.len() == 0 ==> classify_diags(false, code, stderr, sp)[1] == note_at(
            sp,
            DiagKindV::NoStderrOutput,
        ),
{
    let ds = classify_diags(false, code, stderr, sp);
    assert(ds[0].level is Error);
}

} // verus!
