//! Properties that hold of the text primitives on every input.

use vstd::prelude::*;
use crate::character::{is_digit_in, Character};
use crate::parser::{lemma_run_len, run_ends_at, run_len, Parser, Step};
use crate::text::{digit, ident_char, ident_start, word, ws, Ident, Int, Padded, Padding};

verus! {

/// Every sequence has a longest prefix whose units satisfy `p`.
pub proof fn lemma_run_exists<C>(s: Seq<C>, p: spec_fn(C) -> bool)
    ensures
        run_ends_at(s, run_len(s, p) as int, p),
    decreases s.len(),
{
    if s.len() == 0 || !p(s[0]) {
        lemma_run_len(s, 0, p);
    } else {
        let t = s.drop_first();
        lemma_run_exists(t, p);
        let m = run_len(t, p) as int;
        assert forall|i: int| 0 <= i < m + 1 implies #[trigger] p(s[i]) by {
            if i > 0 {
                assert(s[i] == t[i - 1]);
            }
        }
        if m + 1 < s.len() {
            assert(s[m + 1] == t[m]);
        }
        lemma_run_len(s, m + 1, p);
    }
}

/// Skipping whitespace always succeeds and consumes exactly the longest
/// whitespace prefix of the input: nothing when the input is empty or starts
/// with another character.
pub proof fn lemma_whitespace_maximal<C: Character>(p: Padding<C>, s: Seq<C>)
    ensures
        p.step(s) is Done,
        ({
            let n = p.step(s)->Done_len;
            &&& n <= s.len()
            &&& forall|i: int| 0 <= i < n ==> (#[trigger] s[i]).spec_whitespace()
            &&& n == s.len() || !s[n as int].spec_whitespace()
            &&& (s.len() == 0 || !s[0].spec_whitespace()) ==> n == 0
        }),
{
    lemma_run_exists(s, ws::<C>());
    let n = run_len(s, ws::<C>());
    assert forall|i: int| 0 <= i < n implies (#[trigger] s[i]).spec_whitespace() by {
        assert(ws::<C>()(s[i]));
    }
}

/// A whitespace-only sequence is skipped whole.
proof fn lemma_all_whitespace<C: Character>(s: Seq<C>)
    requires
        forall|i: int| 0 <= i < s.len() ==> (#[trigger] s[i]).spec_whitespace(),
    ensures
        run_len(s, ws::<C>()) == s.len(),
{
    assert forall|i: int| 0 <= i < s.len() implies #[trigger] ws::<C>()(s[i]) by {
        assert(s[i].spec_whitespace());
    }
    lemma_run_len(s, s.len() as int, ws::<C>());
}

/// Padding does not change what a pattern yields: on `ws1 + s + ws2`, with
/// `ws1` and `ws2` whitespace only, the padded pattern consumes everything and
/// yields what the pattern yields on `s`. The pattern must consume all of `s`,
/// behave the same on `s + ws2` as on `s`, and `s` must not start with
/// whitespace (else the leading skip would take part of it).
pub proof fn lemma_padded_transparent<C: Character, O: View, P: Parser<C, O>>(
    p: P,
    ws1: Seq<C>,
    s: Seq<C>,
    ws2: Seq<C>,
    v: O::V,
)
    requires
        forall|i: int| 0 <= i < ws1.len() ==> (#[trigger] ws1[i]).spec_whitespace(),
        forall|i: int| 0 <= i < ws2.len() ==> (#[trigger] ws2[i]).spec_whitespace(),
        s.len() == 0 || !s[0].spec_whitespace(),
        p.step(s) == (Step::Done { len: s.len(), value: v }),
        p.step(s + ws2) == p.step(s),
    ensures
        (Padded { inner: p }).step(ws1 + s + ws2) == (Step::Done {
            len: ws1.len() + s.len() + ws2.len(),
            value: v,
        }),
{
    let input = ws1 + s + ws2;
    let k = ws1.len() as int;
    if s.len() == 0 {
        // The leading skip takes `ws1 + ws2` whole.
        assert forall|i: int| 0 <= i < input.len() implies (#[trigger] input[i]).spec_whitespace() by {
            if i < k {
                assert(input[i] == ws1[i]);
            } else {
                assert(input[i] == ws2[i - k]);
            }
        }
        lemma_all_whitespace(input);
        assert(input.skip(input.len() as int) =~= s);
        lemma_run_len(s, 0, ws::<C>());
    } else {
        assert forall|i: int| 0 <= i < k implies #[trigger] ws::<C>()(input[i]) by {
            assert(input[i] == ws1[i]);
        }
        assert(input[k] == s[0]);
        lemma_run_len(input, k, ws::<C>());
        assert(input.skip(k) =~= s + ws2);
        assert(input.skip(k + s.len()) =~= ws2);
        lemma_all_whitespace(ws2);
    }
}

/// A digit string under the parser's radix with no redundant leading zero is one integer,
/// returned whole; one that starts with zero and is longer than one digit is
/// not: only its leading zero is taken.
pub proof fn lemma_integer_canonical<C: Character>(p: Int<C>, s: Seq<C>)
    requires
        p.inv(),
        s.len() >= 1,
        forall|i: int| 0 <= i < s.len() ==> is_digit_in((#[trigger] s[i]).spec_char(), p.radix),
    ensures
        (s[0] != C::spec_zero() || s.len() == 1) ==> p.step(s) == (Step::Done { len: s.len(), value: s }),
        (s[0] == C::spec_zero() && s.len() > 1) ==> p.step(s)
            == (Step::Done { len: 1, value: seq![C::spec_zero()] }),
{
    if s[0] != C::spec_zero() {
        assert forall|i: int| 0 <= i < s.len() implies #[trigger] digit::<C>(p.radix)(s[i]) by {
            assert(is_digit_in(s[i].spec_char(), p.radix));
        }
        lemma_run_len(s, s.len() as int, digit::<C>(p.radix));
        assert(s.take(s.len() as int) =~= s);
    } else if s.len() == 1 {
        assert(s =~= seq![C::spec_zero()]);
    }
}

/// A string that matches `[a-zA-Z_][a-zA-Z0-9_]*` is one identifier, returned
/// whole; an empty string, or one that starts with a digit, is refused without
/// consuming anything.
pub proof fn lemma_ident_full<C: Character>(p: Ident<C>, s: Seq<C>)
    ensures
        (s.len() >= 1 && ident_start(s[0].spec_char()) && forall|i: int|
            0 <= i < s.len() ==> ident_char((#[trigger] s[i]).spec_char()))
            ==> p.step(s) == (Step::Done { len: s.len(), value: s }),
        (s.len() == 0 || is_digit_in(s[0].spec_char(), 10)) ==> p.step(s) is Fail && p.step(s)->Fail_len == 0,
{
    if s.len() >= 1 && ident_start(s[0].spec_char()) && forall|i: int|
        0 <= i < s.len() ==> ident_char((#[trigger] s[i]).spec_char()) {
        assert forall|i: int| 0 <= i < s.len() implies #[trigger] word::<C>()(s[i]) by {
            assert(ident_char(s[i].spec_char()));
        }
        lemma_run_len(s, s.len() as int, word::<C>());
        assert(s.take(s.len() as int) =~= s);
    }
}

} // verus!
