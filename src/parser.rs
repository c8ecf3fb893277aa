//! The parser interface that the text primitives implement, and the outcome
//! model their contracts are stated in.

use vstd::prelude::*;
use crate::character::Character;
use crate::stream::Stream;

verus! {

/// Why a parse failed.
#[derive(Clone, Copy, Debug, PartialEq, Eq, Structural)]
pub enum ErrorKind {
    /// A one-or-more primitive matched no character.
    EmptyMatch,
    /// A keyword's identifier differs from the keyword.
    Mismatch,
    /// No branch of a choice matched.
    NoBranch,
}

/// A failed parse: its kind and the span of input it refers to.
#[derive(Clone, Copy, Debug, PartialEq, Eq, Structural)]
pub struct ParseError {
    pub kind: ErrorKind,
    pub start: usize,
    pub end: usize,
}

/// What a parser does with the rest of the input: how many units it consumes,
/// and either a value or an error whose span is given relative to the start.
pub enum Step<V> {
    Done { len: nat, value: V },
    Fail { len: nat, kind: ErrorKind, start: nat, end: nat },
}

/// `r` and a move of the stream from `from` to `to` are what `step` describes.
pub open spec fn reports<O: View>(
    step: Step<O::V>,
    from: nat,
    to: nat,
    r: Result<O, ParseError>,
) -> bool {
    match step {
        Step::Done { len, value } => to == from + len && r is Ok && r->Ok_0@ == value,
        Step::Fail { len, kind, start, end } => {
            &&& to == from + len
            &&& r is Err
            &&& r->Err_0.kind == kind
            &&& r->Err_0.start == from + start
            &&& r->Err_0.end == from + end
        },
    }
}

/// A pattern that consumes a prefix of a stream and yields a value or an error.
pub trait Parser<C: Character, O: View> {
    /// The parser is well formed.
    spec fn inv(&self) -> bool;

    /// What the parser does on the units not consumed yet.
    spec fn step(&self, rest: Seq<C>) -> Step<O::V>;

    /// Runs the parser on `stream`.
    fn parse(&self, stream: &mut Stream<C>) -> (r: Result<O, ParseError>)
        requires
            self.inv(),
            old(stream).wf(),
        ensures
            final(stream).wf(),
            final(stream).input() == old(stream).input(),
            reports(self.step(old(stream).rest()), old(stream).pos(), final(stream).pos(), r),
    ;
}

/// The first `n` units of `s` satisfy `p`, and the unit after them, if any, does not.
pub open spec fn run_ends_at<C>(s: Seq<C>, n: int, p: spec_fn(C) -> bool) -> bool {
    &&& 0 <= n <= s.len()
    &&& forall|i: int| 0 <= i < n ==> #[trigger] p(s[i])
    &&& n == s.len() || !p(s[n])
}

/// The length of the longest prefix of `s` whose units satisfy `p`.
pub open spec fn run_len<C>(s: Seq<C>, p: spec_fn(C) -> bool) -> nat {
    (choose|n: int| run_ends_at(s, n, p)) as nat
}

/// A run that ends at `n` is the longest run.
pub proof fn lemma_run_len<C>(s: Seq<C>, n: int, p: spec_fn(C) -> bool)
    requires
        run_ends_at(s, n, p),
    ensures
        run_len(s, p) == n,
{
    let m = choose|m: int| run_ends_at(s, m, p);
    if m < n {
        assert(p(s[m]));
    } else if n < m {
        assert(p(s[n]));
    }
}

/// Runs the parser from the start of `input`, returning the result and the
/// number of units consumed.
pub fn parse_all<C: Character, O: View, P: Parser<C, O>>(p: &P, input: Vec<C>) -> (r: (
    Result<O, ParseError>,
    usize,
))
    requires
        p.inv(),
    ensures
        reports(p.step(input@), 0, r.1 as nat, r.0),
{
    let mut s = Stream::new(input);
    proof {
        assert(s.rest() =~= input@);
    }
    let r = p.parse(&mut s);
    (r, s.position())
}

} // verus!
