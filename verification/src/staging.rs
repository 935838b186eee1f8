//! The staging writer's contents and path policy. A payload whose first token
//! sits on host-source line `L` is materialised as `L − 1` newline bytes
//! followed by the payload bytes, so a line number the interpreter reports for
//! the staged file is the host-source line number of the same payload line.
//! The staged file's path under the scratch directory mirrors the host source
//! file: an absolute host filename is reduced to its basename, a relative one
//! is kept as it is.

use vstd::prelude::*;
use vstd::string::*;

verus! {

/// `n` newline bytes.
pub open spec fn newline_prefix(n: nat) -> Seq<u8> {
    Seq::new(n, |i: int| 10u8)
}

/// The staged file's contents for a payload whose first token lies on host
/// line `first_line`.
pub open spec fn staged_bytes(payload: Seq<u8>, first_line: nat) -> Seq<u8>
    recommends
        first_line >= 1,
{
    newline_prefix((first_line - 1) as nat) + payload
}

/// How many newline bytes `bytes` holds.
pub open spec fn count_newlines(bytes: Seq<u8>) -> int
    decreases bytes.len(),
{
    if bytes.len() == 0 {
        0
    } else {
        count_newlines(bytes.drop_last()) + if bytes.last() == 10u8 {
            1int
        } else {
            0int
        }
    }
}

/// The 1-based line number on which byte offset `off` lies.
pub open spec fn line_of(bytes: Seq<u8>, off: int) -> int {
    1 + count_newlines(bytes.take(off))
}

/// Newline counts add over concatenation.
pub proof fn lemma_count_newlines_concat(a: Seq<u8>, b: Seq<u8>)
    ensures
        count_newlines(a + b) == count_newlines(a) + count_newlines(b),
    decreases b.len(),
{
    if b.len() == 0 {
        assert(a + b =~= a);
    } else {
        assert((a + b).drop_last() =~= a + b.drop_last());
        lemma_count_newlines_concat(a, b.drop_last());
    }
}

/// A run of `n` newlines holds `n` newlines.
pub proof fn lemma_count_newline_prefix(n: nat)
    ensures
        count_newlines(newline_prefix(n)) == n,
    decreases n,
{
    if n == 0 {
        assert(newline_prefix(0) =~= Seq::<u8>::empty());
    } else {
        assert(newline_prefix(n).drop_last() =~= newline_prefix((n - 1) as nat));
        lemma_count_newline_prefix((n - 1) as nat);
    }
}

/// Line alignment: the staged file opens with exactly `first_line − 1` newline
/// bytes and then the payload verbatim, and the byte at payload offset `j`
/// lies in the staged file on absolute line `first_line + k − 1` where `k` is
/// its line within the payload — so a line the interpreter reports for the
/// staged file is the host-source line of the same payload position.
pub proof fn lemma_line_alignment(payload: Seq<u8>, first_line: nat, j: int)
    requires
        1 <= first_line,
        0 <= j <= payload.len(),
    ensures
        staged_bytes(payload, first_line).take(first_line - 1) == newline_prefix(
            (first_line - 1) as nat,
        ),
        count_newlines(staged_bytes(payload, first_line).take(first_line - 1)) == first_line - 1,
        staged_bytes(payload, first_line).skip(first_line - 1) == payload,
        line_of(staged_bytes(payload, first_line), first_line - 1 + j) == first_line + line_of(
            payload,
            j,
        ) - 1,
{
    let pre = newline_prefix((first_line - 1) as nat);
    let staged = staged_bytes(payload, first_line);
    assert(staged.take(first_line - 1) =~= pre);
    assert(staged.skip(first_line - 1) =~= payload);
    assert(staged.take(first_line - 1 + j) =~= pre + payload.take(j));
    lemma_count_newlines_concat(pre, payload.take(j));
    lemma_count_newline_prefix((first_line - 1) as nat);
}

/// The staged file's contents: `first_line − 1` newline bytes, then the
/// payload's bytes.
pub fn staged_contents(code: &str, first_line: u64) -> (r: Vec<u8>)
    requires
        1 <= first_line,
    ensures
        r@ == staged_bytes(code.spec_bytes(), first_line as nat),
{
    let mut out: Vec<u8> = Vec::new();
    let mut k: u64 = 1;
    proof {
        assert(out@ =~= newline_prefix((k - 1) as nat));
    }
    while k < first_line
        invariant
            1 <= k <= first_line,
            out@ == newline_prefix((k - 1) as nat),
        decreases first_line - k,
    {
        out.push(10u8);
        k = k + 1;
        proof {
            assert(out@ =~= newline_prefix((k - 1) as nat));
        }
    }
    let bytes: Vec<u8> = code.as_bytes_vec();
    let n = bytes.len();
    let mut j: usize = 0;
    while j < n
        invariant
            j <= n,
            n == bytes@.len(),
            bytes@ == code.spec_bytes(),
            out@ == newline_prefix((first_line - 1) as nat) + bytes@.take(j as int),
        decreases n - j,
    {
        out.push(bytes[j]);
        j = j + 1;
        proof {
            assert(out@ =~= newline_prefix((first_line - 1) as nat) + bytes@.take(j as int));
        }
    }
    proof {
        assert(bytes@.take(n as int) =~= bytes@);
    }
    out
}

/// Whether the host filename is absolute.
pub open spec fn is_absolute(filename: Seq<char>) -> bool {
    filename.len() > 0 && filename[0] == '/'
}

/// The index just after the last `/` of `f`, or `0` when `f` has none.
pub open spec fn after_last_slash(f: Seq<char>) -> int
    decreases f.len(),
{
    if f.len() == 0 {
        0
    } else if f.last() == '/' {
        f.len() as int
    } else {
        after_last_slash(f.drop_last())
    }
}

/// `after_last_slash` stays within the string.
pub proof fn lemma_after_last_slash_bound(f: Seq<char>)
    ensures
        0 <= after_last_slash(f) <= f.len(),
    decreases f.len(),
{
    if f.len() > 0 && f.last() != '/' {
        lemma_after_last_slash_bound(f.drop_last());
    }
}

/// The staged file's name under the scratch directory: the basename of an
/// absolute host filename, the whole of a relative one.
pub open spec fn staged_rel_name_spec(f: Seq<char>) -> Seq<char> {
    if is_absolute(f) {
        f.skip(after_last_slash(f))
    } else {
        f
    }
}

/// The staged file's name for the given host filename.
pub fn staged_rel_name(filename: &str) -> (r: &str)
    ensures
        r@ == staged_rel_name_spec(filename@),
{
    let n = filename.unicode_len();
    if n == 0 || filename.get_char(0) != '/' {
        return filename;
    }
    let mut start: usize = 0;
    let mut j: usize = 0;
    proof {
        assert(filename@.take(0) =~= Seq::<char>::empty());
    }
    while j < n
        invariant
            0 <= start <= j <= n,
            n == filename@.len(),
            start == after_last_slash(filename@.take(j as int)),
        decreases n - j,
    {
        let c = filename.get_char(j);
        proof {
            assert(filename@.take(j + 1).drop_last() =~= filename@.take(j as int));
            assert(filename@.take(j + 1).last() == filename@[j as int]);
        }
        if c == '/' {
            start = j + 1;
        }
        j = j + 1;
        proof {
            lemma_after_last_slash_bound(filename@.take(j as int));
        }
    }
    proof {
        assert(filename@.take(n as int) =~= filename@);
    }
    let r = filename.substring_char(start, n);
    proof {
        assert(r@ =~= filename@.skip(after_last_slash(filename@)));
    }
    r
}

} // verus!
