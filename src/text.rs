//! Lexical primitives: whitespace, newlines, digits, integers, identifiers and
//! keywords.

use vstd::prelude::*;
use crate::character::{ascii_alnum, ascii_alpha, is_digit_in, valid_radix, Character};
use crate::parser::{lemma_run_len, run_len, ErrorKind, ParseError, Parser, Step};
use crate::stream::Stream;
use core::marker::PhantomData;

verus! {

/// The whitespace test of a character type, as a predicate.
pub open spec fn ws<C: Character>() -> spec_fn(C) -> bool {
    |c: C| c.spec_whitespace()
}

/// A parser that accepts (and ignores) any number of whitespace characters.
pub struct Padding<C> {
    pub marker: PhantomData<C>,
}

/// Returns the parser that skips whitespace.
pub fn whitespace<C: Character>() -> (r: Padding<C>) {
    Padding { marker: PhantomData }
}

impl<C: Character> Parser<C, ()> for Padding<C> {
    open spec fn inv(&self) -> bool {
        true
    }

    open spec fn step(&self, rest: Seq<C>) -> Step<()> {
        Step::Done { len: run_len(rest, ws::<C>()), value: () }
    }

    fn parse(&self, stream: &mut Stream<C>) -> (r: Result<(), ParseError>) {
        let ghost start = stream.pos();
        let ghost rest = stream.rest();
        loop
            invariant
                stream.wf(),
                stream.input() == old(stream).input(),
                start == old(stream).pos(),
                rest == old(stream).rest(),
                start <= stream.pos(),
                forall|i: int|
                    start <= i < stream.pos() ==> (#[trigger] stream.input()[i]).spec_whitespace(),
            ensures
                stream.wf(),
                stream.input() == old(stream).input(),
                start <= stream.pos(),
                forall|i: int|
                    start <= i < stream.pos() ==> (#[trigger] stream.input()[i]).spec_whitespace(),
                stream.pos() == stream.input().len() || !stream.input()[stream.pos() as int].spec_whitespace(),
            decreases stream.input().len() - stream.pos(),
        {
            let cp = stream.save();
            match stream.next() {
                Some(c) => {
                    if !c.is_whitespace() {
                        stream.revert(cp);
                        break ;
                    }
                },
                None => {
                    stream.revert(cp);
                    break ;
                },
            }
        }
        proof {
            let n = stream.pos() - start;
            assert forall|i: int| 0 <= i < n implies #[trigger] ws::<C>()(rest[i]) by {
                assert(stream.input()[start + i].spec_whitespace());
            }
            lemma_run_len(rest, n, ws::<C>());
        }
        Ok(())
    }
}

/// `c` may start an identifier: an ASCII letter or an underscore.
pub open spec fn ident_start(c: char) -> bool {
    ascii_alpha(c) || c == '_'
}

/// `c` may continue an identifier: an ASCII letter or digit, or an underscore.
pub open spec fn ident_char(c: char) -> bool {
    ascii_alnum(c) || c == '_'
}

/// The digit test under `radix`, as a predicate.
pub open spec fn digit<C: Character>(radix: u32) -> spec_fn(C) -> bool {
    |c: C| is_digit_in(c.spec_char(), radix)
}

/// The identifier-character test, as a predicate.
pub open spec fn word<C: Character>() -> spec_fn(C) -> bool {
    |c: C| ident_char(c.spec_char())
}

/// The width of the span that names the unit at the front of `rest`: one unit,
/// or none at the end of the input.
pub open spec fn front_width<C>(rest: Seq<C>) -> nat {
    if rest.len() > 0 {
        1
    } else {
        0
    }
}

/// A failure that consumes nothing and names the unit at the front of `rest`.
pub open spec fn fail_here<C, V>(rest: Seq<C>, kind: ErrorKind) -> Step<V> {
    Step::Fail { len: 0, kind, start: 0, end: front_width(rest) }
}

/// A class of characters that a run collects.
#[derive(Clone, Copy)]
enum Class {
    Digit(u32),
    Word,
}

spec fn class_pred<C: Character>(class: Class) -> spec_fn(C) -> bool {
    match class {
        Class::Digit(radix) => digit::<C>(radix),
        Class::Word => word::<C>(),
    }
}

spec fn class_inv(class: Class) -> bool {
    match class {
        Class::Digit(radix) => valid_radix(radix),
        Class::Word => true,
    }
}

fn ascii_alpha_exec(c: char) -> (r: bool)
    ensures
        r == ascii_alpha(c),
{
    let n = c as u32;
    (0x41 <= n && n <= 0x5a) || (0x61 <= n && n <= 0x7a)
}

fn ident_start_exec(c: char) -> (r: bool)
    ensures
        r == ident_start(c),
{
    ascii_alpha_exec(c) || c == '_'
}

fn ident_char_exec(c: char) -> (r: bool)
    ensures
        r == ident_char(c),
{
    let n = c as u32;
    ascii_alpha_exec(c) || (0x30 <= n && n <= 0x39) || c == '_'
}

fn class_has<C: Character>(class: Class, c: &C) -> (r: bool)
    requires
        class_inv(class),
    ensures
        r == class_pred::<C>(class)(*c),
{
    match class {
        Class::Digit(radix) => c.is_digit(radix),
        Class::Word => ident_char_exec(c.to_char()),
    }
}

/// Consumes and collects the longest run of characters of `class`.
fn collect_while<C: Character>(stream: &mut Stream<C>, class: Class) -> (r: C::Collection)
    requires
        old(stream).wf(),
        class_inv(class),
    ensures
        final(stream).wf(),
        final(stream).input() == old(stream).input(),
        final(stream).pos() == old(stream).pos() + run_len(old(stream).rest(), class_pred::<C>(class)),
        r@ == old(stream).rest().take(run_len(old(stream).rest(), class_pred::<C>(class)) as int),
{
    let ghost start = stream.pos();
    let ghost rest = stream.rest();
    let mut out = C::empty_collection();
    loop
        invariant
            stream.wf(),
            stream.input() == old(stream).input(),
            start == old(stream).pos(),
            rest == old(stream).rest(),
            class_inv(class),
            start <= stream.pos(),
            out@ == stream.input().subrange(start as int, stream.pos() as int),
            forall|i: int|
                start <= i < stream.pos() ==> #[trigger] class_pred::<C>(class)(stream.input()[i]),
        ensures
            stream.wf(),
            stream.input() == old(stream).input(),
            start <= stream.pos(),
            out@ == stream.input().subrange(start as int, stream.pos() as int),
            forall|i: int|
                start <= i < stream.pos() ==> #[trigger] class_pred::<C>(class)(stream.input()[i]),
            stream.pos() == stream.input().len() || !class_pred::<C>(class)(stream.input()[stream.pos() as int]),
        decreases stream.input().len() - stream.pos(),
    {
        let cp = stream.save();
        match stream.next() {
            Some(c) => {
                if class_has(class, &c) {
                    c.push_onto(&mut out);
                } else {
                    stream.revert(cp);
                    break ;
                }
            },
            None => {
                stream.revert(cp);
                break ;
            },
        }
    }
    proof {
        let n = stream.pos() - start;
        assert forall|i: int| 0 <= i < n implies #[trigger] class_pred::<C>(class)(rest[i]) by {
            assert(class_pred::<C>(class)(stream.input()[start + i]));
        }
        lemma_run_len(rest, n, class_pred::<C>(class));
        assert(out@ =~= rest.take(n));
    }
    out
}

/// Reads the next unit without consuming it.
fn peek<C: Character>(stream: &mut Stream<C>) -> (r: Option<C>)
    requires
        old(stream).wf(),
    ensures
        final(stream).wf(),
        final(stream).input() == old(stream).input(),
        final(stream).pos() == old(stream).pos(),
        r == (if old(stream).rest().len() > 0 {
            Some(old(stream).rest()[0])
        } else {
            None
        }),
{
    let cp = stream.save();
    let r = stream.next();
    stream.revert(cp);
    r
}

/// Parses one or more digits under a radix.
pub struct Digits<C> {
    pub radix: u32,
    pub marker: PhantomData<C>,
}

/// Returns the parser that accepts one or more digits under `radix`.
pub fn digits<C: Character>(radix: u32) -> (r: Digits<C>)
    requires
        valid_radix(radix),
    ensures
        r.radix == radix,
{
    Digits { radix, marker: PhantomData }
}

impl<C: Character> Parser<C, C::Collection> for Digits<C> {
    open spec fn inv(&self) -> bool {
        valid_radix(self.radix)
    }

    open spec fn step(&self, rest: Seq<C>) -> Step<Seq<C>> {
        let n = run_len(rest, digit::<C>(self.radix));
        if n == 0 {
            fail_here(rest, ErrorKind::EmptyMatch)
        } else {
            Step::Done { len: n, value: rest.take(n as int) }
        }
    }

    fn parse(&self, stream: &mut Stream<C>) -> (r: Result<C::Collection, ParseError>) {
        let at = stream.position();
        let front = peek(stream);
        let out = collect_while(stream, Class::Digit(self.radix));
        if stream.position() == at {
            let end = if front.is_some() {
                at + 1
            } else {
                at
            };
            Err(ParseError { kind: ErrorKind::EmptyMatch, start: at, end })
        } else {
            Ok(out)
        }
    }
}

/// Parses a canonical non-negative integer under a radix: a non-zero digit
/// followed by any digits, or the single zero digit.
pub struct Int<C> {
    pub radix: u32,
    pub marker: PhantomData<C>,
}

/// Returns the parser that accepts a canonical integer under `radix`.
pub fn integer<C: Character>(radix: u32) -> (r: Int<C>)
    requires
        valid_radix(radix),
    ensures
        r.radix == radix,
{
    Int { radix, marker: PhantomData }
}

impl<C: Character> Parser<C, C::Collection> for Int<C> {
    open spec fn inv(&self) -> bool {
        valid_radix(self.radix)
    }

    open spec fn step(&self, rest: Seq<C>) -> Step<Seq<C>> {
        if rest.len() > 0 && is_digit_in(rest[0].spec_char(), self.radix) && rest[0]
            != C::spec_zero() {
            let n = run_len(rest, digit::<C>(self.radix));
            Step::Done { len: n, value: rest.take(n as int) }
        } else if rest.len() > 0 && rest[0] == C::spec_zero() {
            Step::Done { len: 1, value: seq![C::spec_zero()] }
        } else {
            fail_here(rest, ErrorKind::NoBranch)
        }
    }

    fn parse(&self, stream: &mut Stream<C>) -> (r: Result<C::Collection, ParseError>) {
        let at = stream.position();
        let zero = C::digit_zero();
        match peek(stream) {
            Some(c) => {
                if c.is_digit(self.radix) && !c.same(&zero) {
                    Ok(collect_while(stream, Class::Digit(self.radix)))
                } else if c.same(&zero) {
                    let _ = stream.next();
                    let mut out = C::empty_collection();
                    zero.push_onto(&mut out);
                    proof {
                        assert(out@ =~= seq![C::spec_zero()]);
                    }
                    Ok(out)
                } else {
                    Err(ParseError { kind: ErrorKind::NoBranch, start: at, end: at + 1 })
                }
            },
            None => Err(ParseError { kind: ErrorKind::NoBranch, start: at, end: at }),
        }
    }
}

/// Parses a C-style identifier: `[a-zA-Z_][a-zA-Z0-9_]*`.
pub struct Ident<C> {
    pub marker: PhantomData<C>,
}

/// Returns the parser that accepts an identifier.
pub fn ident<C: Character>() -> (r: Ident<C>) {
    Ident { marker: PhantomData }
}

/// What the identifier parser does on `rest`.
pub open spec fn ident_step<C: Character>(rest: Seq<C>) -> Step<Seq<C>> {
    if rest.len() > 0 && ident_start(rest[0].spec_char()) {
        let n = run_len(rest, word::<C>());
        Step::Done { len: n, value: rest.take(n as int) }
    } else {
        fail_here(rest, ErrorKind::EmptyMatch)
    }
}

impl<C: Character> Parser<C, C::Collection> for Ident<C> {
    open spec fn inv(&self) -> bool {
        true
    }

    open spec fn step(&self, rest: Seq<C>) -> Step<Seq<C>> {
        ident_step(rest)
    }

    fn parse(&self, stream: &mut Stream<C>) -> (r: Result<C::Collection, ParseError>) {
        let at = stream.position();
        match peek(stream) {
            Some(c) => {
                if ident_start_exec(c.to_char()) {
                    Ok(collect_while(stream, Class::Word))
                } else {
                    Err(ParseError { kind: ErrorKind::EmptyMatch, start: at, end: at + 1 })
                }
            },
            None => Err(ParseError { kind: ErrorKind::EmptyMatch, start: at, end: at }),
        }
    }
}

/// Matches one identifier that equals a given word exactly.
pub struct Keyword<C: Character> {
    pub word: C::Collection,
}

/// Returns the parser that accepts exactly the identifier `word`; a longer
/// identifier that starts with it does not match.
pub fn keyword<C: Character>(word: C::Collection) -> (r: Keyword<C>)
    ensures
        r.word@ == word@,
{
    Keyword { word }
}

impl<C: Character> Parser<C, ()> for Keyword<C> {
    open spec fn inv(&self) -> bool {
        true
    }

    open spec fn step(&self, rest: Seq<C>) -> Step<()> {
        match ident_step(rest) {
            Step::Done { len, value } => if value == self.word@ {
                Step::Done { len, value: () }
            } else {
                Step::Fail { len, kind: ErrorKind::Mismatch, start: 0, end: len }
            },
            Step::Fail { len, kind, start, end } => Step::Fail { len, kind, start, end },
        }
    }

    fn parse(&self, stream: &mut Stream<C>) -> (r: Result<(), ParseError>) {
        let at = stream.position();
        let parsed = Parser::<C, C::Collection>::parse(&ident::<C>(), stream);
        match parsed {
            Ok(name) => {
                if C::same_text(&name, &self.word) {
                    Ok(())
                } else {
                    // The error does not name the expected word.
                    Err(ParseError { kind: ErrorKind::Mismatch, start: at, end: stream.position() })
                }
            },
            Err(e) => Err(e),
        }
    }
}

/// `c` ends a line on its own.
pub open spec fn line_break(c: char) -> bool {
    c == '\n' || c == '\x0B' || c == '\x0C' || c == '\r' || c == '\u{85}' || c == '\u{2028}' || c
        == '\u{2029}'
}

/// Matches one line terminator: CRLF, or one of the single line-break codepoints.
#[derive(Clone, Copy)]
pub struct Newline {
}

/// Returns the parser that accepts one line terminator.
pub fn newline() -> (r: Newline) {
    Newline {  }
}

impl Parser<char, ()> for Newline {
    open spec fn inv(&self) -> bool {
        true
    }

    open spec fn step(&self, rest: Seq<char>) -> Step<()> {
        if rest.len() >= 2 && rest[0] == '\r' && rest[1] == '\n' {
            Step::Done { len: 2, value: () }
        } else if rest.len() >= 1 && line_break(rest[0]) {
            Step::Done { len: 1, value: () }
        } else {
            fail_here(rest, ErrorKind::NoBranch)
        }
    }

    fn parse(&self, stream: &mut Stream<char>) -> (r: Result<(), ParseError>) {
        let at = stream.position();
        match peek(stream) {
            Some(c) => {
                if c == '\r' {
                    let _ = stream.next();
                    if peek(stream) == Some('\n') {
                        let _ = stream.next();
                    }
                    Ok(())
                } else if c == '\n' || c == '\x0B' || c == '\x0C' || c == '\u{85}' || c
                    == '\u{2028}' || c == '\u{2029}' {
                    let _ = stream.next();
                    Ok(())
                } else {
                    Err(ParseError { kind: ErrorKind::NoBranch, start: at, end: at + 1 })
                }
            },
            None => Err(ParseError { kind: ErrorKind::NoBranch, start: at, end: at }),
        }
    }
}

/// Runs an inner pattern with whitespace skipped before and after it.
pub struct Padded<P> {
    pub inner: P,
}

impl<C: Character, O: View, P: Parser<C, O>> Parser<C, O> for Padded<P> {
    open spec fn inv(&self) -> bool {
        self.inner.inv()
    }

    open spec fn step(&self, rest: Seq<C>) -> Step<O::V> {
        let a = run_len(rest, ws::<C>());
        match self.inner.step(rest.skip(a as int)) {
            Step::Done { len, value } => {
                let b = run_len(rest.skip((a + len) as int), ws::<C>());
                Step::Done { len: a + len + b, value }
            },
            Step::Fail { len, kind, start, end } => Step::Fail {
                len: a + len,
                kind,
                start: a + start,
                end: a + end,
            },
        }
    }

    fn parse(&self, stream: &mut Stream<C>) -> (r: Result<O, ParseError>) {
        let ghost s0 = *stream;
        let _ = Parser::<C, ()>::parse(&whitespace::<C>(), stream);
        proof {
            assert(stream.rest() =~= s0.rest().skip(stream.pos() - s0.pos()));
        }
        let r = self.inner.parse(stream);
        match r {
            Ok(v) => {
                proof {
                    assert(stream.rest() =~= s0.rest().skip(stream.pos() - s0.pos()));
                }
                let _ = Parser::<C, ()>::parse(&whitespace::<C>(), stream);
                Ok(v)
            },
            Err(e) => Err(e),
        }
    }
}

/// Text-specific operations on any parser.
pub trait TextParser<C: Character, O: View>: Parser<C, O> + Sized {
    /// Parses the pattern, allowing whitespace both before and after.
    fn padded(self) -> (r: Padded<Self>)
        ensures
            r.inner == self,
    ;
}

impl<C: Character, O: View, P: Parser<C, O>> TextParser<C, O> for P {
    fn padded(self) -> (r: Padded<P>) {
        Padded { inner: self }
    }
}

} // verus!
