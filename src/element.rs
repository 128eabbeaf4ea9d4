//! Element patterns: the dots and dashes that spell one symbol.
use vstd::arithmetic::power2::{lemma_pow2_unfold, pow2};
use vstd::prelude::*;

use crate::text::push_char;

verus! {

/// The longest pattern in the codec table has this many elements.
pub const MAX_PATTERN_LEN: usize = 9;

/// An ordered sequence of elements: `false` is a short element (dot),
/// `true` a long one (dash). The word space has the empty pattern.
#[derive(Debug, Default, Hash, PartialEq, Eq, Clone)]
pub struct ElementString(pub Vec<bool>);

impl View for ElementString {
    type V = Seq<bool>;

    open spec fn view(&self) -> Seq<bool> {
        self.0@
    }
}

/// The code of a pattern: its elements read as binary digits (dash = 1)
/// behind a leading 1, so that patterns of any length stay apart.
pub open spec fn pattern_code(p: Seq<bool>) -> nat
    decreases p.len(),
{
    if p.len() == 0 {
        1
    } else {
        2 * pattern_code(p.drop_last()) + if p.last() {
            1nat
        } else {
            0nat
        }
    }
}

/// The pattern that a code stands for: the inverse of `pattern_code`.
pub open spec fn pattern_of_code(code: nat) -> Seq<bool>
    decreases code,
{
    if code <= 1 {
        seq![]
    } else {
        pattern_of_code(code / 2).push(code % 2 == 1)
    }
}

/// The dot string of a pattern; the empty pattern reads as a word break.
pub open spec fn dot_string(p: Seq<bool>) -> Seq<char> {
    if p.len() == 0 {
        seq![' ', '/', ' ']
    } else {
        p.map_values(|e: bool| if e { '-' } else { '.' })
    }
}

pub proof fn lemma_pattern_code_round_trip(p: Seq<bool>)
    ensures
        pattern_code(p) >= 1,
        pattern_of_code(pattern_code(p)) == p,
    decreases p.len(),
{
    if p.len() > 0 {
        lemma_pattern_code_round_trip(p.drop_last());
        let c = pattern_code(p);
        assert(c / 2 == pattern_code(p.drop_last()));
        assert(p == p.drop_last().push(p.last()));
    }
}

pub proof fn lemma_code_pattern_round_trip(code: nat)
    requires
        code >= 1,
    ensures
        pattern_code(pattern_of_code(code)) == code,
    decreases code,
{
    if code > 1 {
        lemma_code_pattern_round_trip(code / 2);
        let p = pattern_of_code(code);
        assert(p.drop_last() == pattern_of_code(code / 2));
    }
}

/// A code below `2^(k + 1)` stands for a pattern of at most `k` elements.
pub proof fn lemma_pattern_of_code_len(code: nat, k: nat)
    requires
        code < pow2(k + 1),
    ensures
        pattern_of_code(code).len() <= k,
    decreases code,
{
    if code > 1 {
        lemma_pow2_unfold(k + 1);
        if k == 0 {
            assert(pow2(0) == 1) by {
                vstd::arithmetic::power2::lemma_pow2(0);
                vstd::arithmetic::power::lemma_pow0(2);
            }
        } else {
            lemma_pattern_of_code_len(code / 2, (k - 1) as nat);
        }
    }
}

/// The pattern of a code, element by element.
pub fn pattern_from_code(code: u32) -> (r: Vec<bool>)
    ensures
        r@ == pattern_of_code(code as nat),
    decreases code,
{
    if code <= 1 {
        Vec::new()
    } else {
        let mut r = pattern_from_code(code / 2);
        r.push(code % 2 == 1);
        r
    }
}

/// The longest pattern whose code fits in 32 bits.
pub const MAX_CODED_LEN: usize = 31;

/// The code of a pattern of at most `MAX_CODED_LEN` elements.
pub fn code_of_pattern(p: &Vec<bool>) -> (r: u32)
    requires
        p@.len() <= MAX_CODED_LEN,
    ensures
        r as nat == pattern_code(p@),
        (r as nat) < pow2((p@.len() + 1) as nat),
{
    let n = p.len();
    let mut code: u32 = 1;
    let mut i: usize = 0;
    proof {
        assert(p@.take(0) == Seq::<bool>::empty());
        vstd::arithmetic::power2::lemma2_to64();
    }
    while i < n
        invariant
            n == p@.len(),
            n <= MAX_CODED_LEN,
            i <= n,
            code as nat == pattern_code(p@.take(i as int)),
            (code as nat) < pow2((i + 1) as nat),
            pow2(32) == 0x1_0000_0000,
        decreases n - i,
    {
        proof {
            lemma_pow2_unfold((i + 2) as nat);
            if i + 2 < 32 {
                vstd::arithmetic::power2::lemma_pow2_strictly_increases((i + 2) as nat, 32);
            }
            assert(p@.take(i + 1).drop_last() == p@.take(i as int));
        }
        let bit: u32 = if p[i] { 1 } else { 0 };
        code = 2 * code + bit;
        i = i + 1;
    }
    proof {
        assert(p@.take(n as int) == p@);
    }
    code
}

impl ElementString {
    /// The pattern in dots and dashes; the empty pattern (the word space)
    /// reads ` / `.
    pub fn to_dot_string(&self) -> (r: String)
        ensures
            r@ == dot_string(self@),
    {
        let mut r = String::new();
        if self.0.len() == 0 {
            push_char(&mut r, ' ');
            push_char(&mut r, '/');
            push_char(&mut r, ' ');
            return r;
        }
        let mut i: usize = 0;
        while i < self.0.len()
            invariant
                i <= self@.len(),
                r@ == self@.take(i as int).map_values(|e: bool| if e { '-' } else { '.' }),
            decreases self@.len() - i,
        {
            let c = if self.0[i] { '-' } else { '.' };
            push_char(&mut r, c);
            i = i + 1;
            assert(self@.take(i as int).map_values(|e: bool| if e { '-' } else { '.' })
                =~= self@.take(i - 1).map_values(|e: bool| if e { '-' } else { '.' }).push(c));
        }
        assert(self@.take(i as int) == self@);
        r
    }
}

} // verus!
