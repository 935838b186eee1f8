//! The re-splice adapter: the captured stdout, decoded as UTF-8, wrapped
//! together with the synthetic filename under which the host re-parses it in
//! the invocation's syntactic position. The adapter is single-use: it answers
//! the host's one query — for an expression, items, statements, a pattern, a
//! type, or a method body, whatever the call site admits — and is drained
//! afterwards.

use vstd::prelude::*;
use vstd::utf8::{decode_utf8, encode_utf8, encode_utf8_decode_utf8, encode_utf8_valid_utf8,
    valid_utf8};

verus! {

/// Splice transparency, as far as the engine decides it: when the interpreter
/// writes host-language source text to stdout, its bytes decode successfully
/// and to exactly that text, so the host re-parses the printed source
/// verbatim — combined with `Expansion::query`, which hands the decoded text
/// out unchanged.
pub proof fn lemma_splice_transparency(source: Seq<char>)
    ensures
        valid_utf8(encode_utf8(source)),
        decode_utf8(encode_utf8(source)) == source,
{
    encode_utf8_valid_utf8(source);
    encode_utf8_decode_utf8(source);
}

/// The shape the host asks the spliced content to take.
#[derive(Clone, Copy, PartialEq, Eq, Structural, Debug)]
pub enum QueryKind {
    Expression,
    Items,
    Statements,
    Pattern,
    Type,
    MethodBody,
}

/// Where the adapter stands: untouched, answering its one query, or drained.
pub enum AdapterState {
    Fresh,
    Queried(QueryKind),
    Drained,
}

/// Relies on `String::from_utf8`: it returns the string of the given bytes
/// exactly when they are valid UTF-8, and its error value otherwise.
#[verifier::external_body]
fn string_from_utf8(bytes: Vec<u8>) -> (r: Option<String>)
    ensures
        r is Some <==> valid_utf8(bytes@),
        r is Some ==> r->0@ == decode_utf8(bytes@),
{
    String::from_utf8(bytes).ok()
}

/// The decoding of captured stdout, when it is valid UTF-8.
pub fn decode_stdout(stdout: Vec<u8>) -> (r: Option<String>)
    ensures
        r is Some <==> valid_utf8(stdout@),
        r is Some ==> r->0@ == decode_utf8(stdout@),
{
    string_from_utf8(stdout)
}

/// The re-splice adapter. It owns the decoded output and the synthetic
/// filename until the host has drawn its content.
pub struct Expansion {
    source: String,
    name: String,
    state: AdapterState,
}

impl Expansion {
    /// The text the host re-parses.
    pub closed spec fn source_view(&self) -> Seq<char> {
        self.source@
    }

    /// The synthetic filename the text is parsed under.
    pub closed spec fn name_view(&self) -> Seq<char> {
        self.name@
    }

    /// The adapter's state.
    pub closed spec fn state_view(&self) -> AdapterState {
        self.state
    }

    /// A fresh adapter over the decoded output and its synthetic filename.
    pub fn new(source: String, name: String) -> (r: Expansion)
        ensures
            r.source_view() == source@,
            r.name_view() == name@,
            r.state_view() is Fresh,
    {
        Expansion { source, name, state: AdapterState::Fresh }
    }

    /// The synthetic filename, readable at any state.
    pub fn name(&self) -> (r: &String)
        ensures
            r@ == self.name_view(),
    {
        &self.name
    }

    /// Answer the host's query: a fresh adapter hands out its content verbatim
    /// and remembers the requested shape; afterwards it is drained and yields
    /// nothing.
    pub fn query(&mut self, kind: QueryKind) -> (r: Option<&String>)
        ensures
            final(self).source_view() == old(self).source_view(),
            final(self).name_view() == old(self).name_view(),
            old(self).state_view() is Fresh ==> r is Some && r->0@ == old(self).source_view()
                && final(self).state_view() == AdapterState::Queried(kind),
            !(old(self).state_view() is Fresh) ==> r is None && final(self).state_view()
                is Drained,
    {
        match self.state {
            AdapterState::Fresh => {
                self.state = AdapterState::Queried(kind);
                Some(&self.source)
            },
            _ => {
                self.state = AdapterState::Drained;
                None
            },
        }
    }
}

} // verus!
