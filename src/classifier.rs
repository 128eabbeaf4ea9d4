//! Timed signals to symbols.
use vstd::prelude::*;

use crate::element::ElementString;
use crate::symbol::{lemma_pattern_injective, symbol_of_pattern, CwString, CwSymbol};
use crate::timing::{Signal, TimingProfile};

verus! {

/// The symbols that `signals` spell, where the elements in `pending` have
/// been read already and wait for their symbol to end.
///
/// An on signal adds a dash if it lasts `long` or more, else a dot. An off
/// signal of `break_gap` or more ends the pending symbol; if it is longer
/// than `word_gap` and a later on signal follows, a word space comes after
/// it. A shorter silence separates elements and yields nothing. Elements
/// still pending at the end are dropped.
pub open spec fn classify_from(
    pending: Seq<bool>,
    signals: Seq<Signal>,
    p: TimingProfile,
) -> Seq<CwSymbol>
    decreases signals.len(),
{
    if signals.len() == 0 {
        seq![]
    } else {
        let s = signals[0];
        let rest = signals.drop_first();
        if s.on {
            classify_from(pending.push(s.duration >= p.long), rest, p)
        } else if s.duration >= p.break_gap {
            seq![symbol_of_pattern(pending)] + word_space(s.duration > p.word_gap && has_on(rest))
                + classify_from(seq![], rest, p)
        } else {
            classify_from(pending, rest, p)
        }
    }
}

/// Some signal of `signals` is an on signal.
pub open spec fn has_on(signals: Seq<Signal>) -> bool {
    exists|k: int| 0 <= k < signals.len() && #[trigger] signals[k].on
}

/// One word space, or none.
pub open spec fn word_space(b: bool) -> Seq<CwSymbol> {
    if b {
        seq![CwSymbol::Space]
    } else {
        seq![]
    }
}

/// The symbols that a captured signal sequence spells.
pub open spec fn classify(signals: Seq<Signal>, p: TimingProfile) -> Seq<CwSymbol> {
    classify_from(seq![], signals, p)
}

/// Each symbol is what its own pattern spells.
pub proof fn lemma_symbol_of_own_pattern(s: CwSymbol)
    ensures
        symbol_of_pattern(s.pattern()) == s,
{
    let t = choose|t: CwSymbol| #[trigger] t.pattern() == s.pattern();
    lemma_pattern_injective(s, t);
}

/// A pulse of exactly `long` reads as a dash, one a millisecond shorter as a
/// dot.
pub proof fn lemma_threshold_boundary(
    p: TimingProfile,
    pending: Seq<bool>,
    rest: Seq<Signal>,
)
    requires
        p.long > 0,
    ensures
        classify_from(pending, seq![Signal { on: true, duration: p.long }] + rest, p)
            == classify_from(pending.push(true), rest, p),
        classify_from(pending, seq![Signal { on: true, duration: (p.long - 1) as u32 }] + rest, p)
            == classify_from(pending.push(false), rest, p),
{
    assert((seq![Signal { on: true, duration: p.long }] + rest).drop_first() == rest);
    assert((seq![Signal { on: true, duration: (p.long - 1) as u32 }] + rest).drop_first() == rest);
}

/// A silence of exactly `break_gap` ends the pending symbol; one a
/// millisecond shorter leaves it pending and yields nothing.
pub proof fn lemma_break_boundary(p: TimingProfile, pending: Seq<bool>, rest: Seq<Signal>)
    requires
        p.break_gap > 0,
    ensures
        classify_from(pending, seq![Signal { on: false, duration: p.break_gap }] + rest, p)
            == seq![symbol_of_pattern(pending)] + word_space(
            p.break_gap > p.word_gap && has_on(rest),
        ) + classify(rest, p),
        classify_from(pending, seq![Signal { on: false, duration: (p.break_gap - 1) as u32 }] + rest, p)
            == classify_from(pending, rest, p),
{
    assert((seq![Signal { on: false, duration: p.break_gap }] + rest).drop_first() == rest);
    assert((seq![Signal { on: false, duration: (p.break_gap - 1) as u32 }] + rest).drop_first()
        == rest);
}

/// Before a later on signal, a silence that ends a symbol adds exactly one
/// word space when it is longer than `word_gap`, and none when it is not.
pub proof fn lemma_word_space(
    p: TimingProfile,
    pending: Seq<bool>,
    gap: u32,
    rest: Seq<Signal>,
)
    requires
        gap >= p.break_gap,
        has_on(rest),
    ensures
        gap > p.word_gap ==> classify_from(pending, seq![Signal { on: false, duration: gap }] + rest, p)
            == seq![symbol_of_pattern(pending), CwSymbol::Space] + classify(rest, p),
        gap <= p.word_gap ==> classify_from(pending, seq![Signal { on: false, duration: gap }] + rest, p)
            == seq![symbol_of_pattern(pending)] + classify(rest, p),
{
    assert((seq![Signal { on: false, duration: gap }] + rest).drop_first() == rest);
    assert(seq![symbol_of_pattern(pending)] + seq![CwSymbol::Space] == seq![
        symbol_of_pattern(pending),
        CwSymbol::Space,
    ]);
    assert(seq![symbol_of_pattern(pending)] + Seq::<CwSymbol>::empty() == seq![symbol_of_pattern(pending)]);
}

/// Decodes one finished capture. Never fails: a pattern that is not in the
/// codec table comes out as `Invalid`. A silence after which no key is
/// pressed again, such as the closing silence of a capture, ends its symbol
/// but marks no word boundary.
pub fn signals_to_symbols(signals: &Vec<Signal>, profile: &TimingProfile) -> (r: CwString)
    ensures
        r@ == classify(signals@, *profile),
{
    let p = *profile;
    let mut elements = ElementString(Vec::new());
    let mut symbols: Vec<CwSymbol> = Vec::new();
    let n = signals.len();
    // one past the last on signal, or zero where there is none
    let mut end: usize = n;
    while end > 0 && !signals[end - 1].on
        invariant
            n == signals@.len(),
            end <= n,
            forall|k: int| end <= k < n ==> !(#[trigger] signals@[k]).on,
        decreases end,
    {
        end = end - 1;
    }
    let mut i: usize = 0;
    proof {
        assert(signals@.skip(0) == signals@);
    }
    while i < n
        invariant
            n == signals@.len(),
            i <= n,
            end <= n,
            end == 0 || signals@[end - 1].on,
            forall|k: int| end <= k < n ==> !(#[trigger] signals@[k]).on,
            symbols@ + classify_from(elements@, signals@.skip(i as int), p) == classify(
                signals@,
                p,
            ),
        decreases n - i,
    {
        let signal = signals[i];
        let ghost before = symbols@;
        let ghost pending = elements@;
        proof {
            assert(signals@.skip(i as int)[0] == signal);
            assert(signals@.skip(i as int).drop_first() == signals@.skip(i + 1));
        }
        if signal.on {
            elements.0.push(signal.duration >= p.long);
        } else if signal.duration >= p.break_gap {
            symbols.push(CwSymbol::from_elements(&elements));
            elements.0.clear();
            if signal.duration > p.word_gap && i + 1 < end {
                symbols.push(CwSymbol::Space);
            }
            proof {
                let rest = signals@.skip(i + 1);
                if i + 1 < end {
                    assert(rest[end - 1 - (i + 1)].on);
                } else {
                    assert forall|k: int| 0 <= k < rest.len() implies !(#[trigger] rest[k]).on by {
                        assert(rest[k] == signals@[i + 1 + k]);
                    }
                }
                assert((i + 1 < end) == has_on(rest));
                assert(elements@ == Seq::<bool>::empty());
                assert(symbols@ == before + seq![symbol_of_pattern(pending)] + word_space(
                    signal.duration > p.word_gap && has_on(rest),
                ));
                assert(before + (seq![symbol_of_pattern(pending)] + word_space(
                    signal.duration > p.word_gap && has_on(rest),
                ) + classify_from(seq![], rest, p)) == symbols@ + classify_from(
                    elements@,
                    rest,
                    p,
                ));
            }
        }
        i = i + 1;
    }
    proof {
        assert(signals@.skip(n as int).len() == 0);
        assert(symbols@ + seq![] == symbols@);
    }
    CwString(symbols)
}

} // verus!
