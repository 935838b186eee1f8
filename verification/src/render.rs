//! Names the engine renders: the interpreter command (the literal prefix
//! `python` with the `version` option appended, no separator) and the synthetic
//! filename `<HOST_FILENAME>:<LINE> python_mixin!>` under which the captured
//! output is re-parsed, so downstream parse errors point back to the
//! invocation.

use vstd::prelude::*;
use vstd::string::*;

verus! {

/// The digit character for `d`.
pub open spec fn digit_char(d: nat) -> char
    recommends
        d < 10,
{
    ((d + 48) as u8) as char
}

/// The decimal numeral of `n`, most significant digit first.
pub open spec fn decimal_digits(n: nat) -> Seq<char>
    decreases n,
{
    if n < 10 {
        seq![digit_char(n)]
    } else {
        decimal_digits(n / 10).push(digit_char(n % 10))
    }
}

/// Relies on `String::push`: appends the given character to the end of the
/// string.
#[verifier::external_body]
fn push_char(s: &mut String, c: char)
    ensures
        final(s)@ == old(s)@.push(c),
{
    s.push(c);
}

/// The decimal numeral of `n`.
pub fn u64_to_decimal(n: u64) -> (r: String)
    ensures
        r@ == decimal_digits(n as nat),
    decreases n,
{
    let c = ((n % 10) as u8 + 48) as char;
    proof {
        assert(c == digit_char((n % 10) as nat));
    }
    if n < 10 {
        let mut s = String::new();
        push_char(&mut s, c);
        proof {
            assert(s@ =~= decimal_digits(n as nat));
        }
        s
    } else {
        let mut s = u64_to_decimal(n / 10);
        push_char(&mut s, c);
        s
    }
}

/// The executable name the interpreter driver runs: the literal prefix
/// `python` with the version string appended, no separator.
pub open spec fn command_name_spec(version: Seq<char>) -> Seq<char> {
    "python"@ + version
}

/// The interpreter command for a `version` option value.
pub fn command_name(version: &str) -> (r: String)
    ensures
        r@ == command_name_spec(version@),
{
    String::from_str("python").concat(version)
}

/// The synthetic filename under which the captured output is re-parsed.
pub open spec fn synthetic_name_spec(filename: Seq<char>, first_line: nat) -> Seq<char> {
    "<"@ + filename + ":"@ + decimal_digits(first_line) + " python_mixin!>"@
}

/// The synthetic filename for an invocation in `filename` whose payload starts
/// on line `first_line`.
pub fn synthetic_name(filename: &str, first_line: u64) -> (r: String)
    ensures
        r@ == synthetic_name_spec(filename@, first_line as nat),
{
    let mut s = String::from_str("<");
    s.append(filename);
    s.append(":");
    let num = u64_to_decimal(first_line);
    s.append(num.as_str());
    s.append(" python_mixin!>");
    proof {
        assert(s@ =~= synthetic_name_spec(filename@, first_line as nat));
    }
    s
}

} // verus!
