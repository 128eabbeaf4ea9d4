//! Symbols to timed signals.
use vstd::prelude::*;

use crate::classifier::{classify, classify_from, lemma_symbol_of_own_pattern, word_space};
use crate::element::pattern_of_code;
use crate::symbol::{lemma_code_positive, CwString, CwSymbol};
use crate::timing::{Signal, TimingProfile};

verus! {

/// How long the line is on for one element.
pub open spec fn element_duration(dash: bool, p: TimingProfile) -> u32 {
    if dash {
        p.long
    } else {
        p.unit
    }
}

/// The signals of one symbol's pattern: each element is followed by a gap
/// of one unit, except the last, which is followed by the symbol break.
pub open spec fn symbol_signals(pattern: Seq<bool>, p: TimingProfile) -> Seq<Signal> {
    Seq::new(
        2 * pattern.len(),
        |k: int|
            if k % 2 == 0 {
                Signal { on: true, duration: element_duration(pattern[k / 2], p) }
            } else if k == 2 * pattern.len() - 1 {
                Signal { on: false, duration: p.break_gap }
            } else {
                Signal { on: false, duration: p.unit }
            },
    )
}

/// `signals` with one more symbol after it. The word space takes the place
/// of a silence that ends `signals`.
pub open spec fn append_symbol(signals: Seq<Signal>, symbol: CwSymbol, p: TimingProfile) -> Seq<
    Signal,
> {
    if symbol == CwSymbol::Space {
        let kept = if signals.len() > 0 && !signals.last().on {
            signals.drop_last()
        } else {
            signals
        };
        kept.push(Signal { on: false, duration: p.word_gap })
    } else {
        signals + symbol_signals(symbol.pattern(), p)
    }
}

/// The signals that play `symbols`.
pub open spec fn generate(symbols: Seq<CwSymbol>, p: TimingProfile) -> Seq<Signal>
    decreases symbols.len(),
{
    if symbols.len() == 0 {
        seq![]
    } else {
        append_symbol(generate(symbols.drop_last(), p), symbols.last(), p)
    }
}

/// No two silences follow each other.
pub open spec fn no_double_off(signals: Seq<Signal>) -> bool {
    forall|k: int| 0 <= k < signals.len() - 1 ==> #[trigger] signals[k].on || signals[k + 1].on
}

/// Every symbol but the word space has at least one element.
pub proof fn lemma_pattern_nonempty(s: CwSymbol)
    requires
        s != CwSymbol::Space,
    ensures
        s.pattern().len() > 0,
{
    lemma_code_positive(s);
    assert(s.code() > 1);
    assert(s.pattern() == pattern_of_code((s.code() / 2) as nat).push(s.code() % 2 == 1));
}

proof fn lemma_append_no_double_off(signals: Seq<Signal>, symbol: CwSymbol, p: TimingProfile)
    requires
        no_double_off(signals),
    ensures
        no_double_off(append_symbol(signals, symbol, p)),
{
    let r = append_symbol(signals, symbol, p);
    if symbol == CwSymbol::Space {
        let kept = if signals.len() > 0 && !signals.last().on {
            signals.drop_last()
        } else {
            signals
        };
        assert forall|k: int| 0 <= k < r.len() - 1 implies #[trigger] r[k].on || r[k + 1].on by {
            if k == r.len() - 2 {
                if signals.len() > 0 && !signals.last().on {
                    assert(signals[k] == r[k]);
                    assert(signals[k].on || signals[k + 1].on);
                } else {
                    assert(r[k] == signals.last());
                }
            } else {
                assert(r[k] == signals[k] && r[k + 1] == signals[k + 1]);
            }
        }
    } else {
        lemma_pattern_nonempty(symbol);
        let s = symbol_signals(symbol.pattern(), p);
        assert forall|k: int| 0 <= k < r.len() - 1 implies #[trigger] r[k].on || r[k + 1].on by {
            if k < signals.len() - 1 {
                assert(r[k] == signals[k] && r[k + 1] == signals[k + 1]);
            } else if k == signals.len() - 1 {
                assert(r[k + 1] == s[0]);
            } else {
                let j = k - signals.len();
                assert(r[k] == s[j] && r[k + 1] == s[j + 1]);
                if j % 2 == 1 {
                    assert((j + 1) % 2 == 0);
                }
            }
        }
    }
}

pub proof fn lemma_generate_no_double_off(symbols: Seq<CwSymbol>, p: TimingProfile)
    ensures
        no_double_off(generate(symbols, p)),
    decreases symbols.len(),
{
    if symbols.len() > 0 {
        lemma_generate_no_double_off(symbols.drop_last(), p);
        lemma_append_no_double_off(generate(symbols.drop_last(), p), symbols.last(), p);
    }
}

proof fn lemma_classify_symbol_signals(pattern: Seq<bool>, p: TimingProfile, j: int)
    requires
        0 <= j < pattern.len(),
        p.unit < p.long,
        p.unit < p.break_gap,
        p.break_gap <= p.word_gap,
    ensures
        classify_from(pattern.take(j), symbol_signals(pattern, p).skip(2 * j), p) == seq![
            crate::symbol::symbol_of_pattern(pattern),
        ],
    decreases pattern.len() - j,
{
    let all = symbol_signals(pattern, p);
    let n = pattern.len();
    let t = all.skip(2 * j);
    let u = all.skip(2 * j + 1);
    let d = element_duration(pattern[j], p);
    assert((2 * j) % 2 == 0 && (2 * j) / 2 == j);
    assert((2 * j + 1) % 2 == 1);
    assert(t[0] == Signal { on: true, duration: d });
    assert((d >= p.long) == pattern[j]);
    assert(t.drop_first() == u);
    assert(pattern.take(j).push(pattern[j]) == pattern.take(j + 1));
    assert(classify_from(pattern.take(j), t, p) == classify_from(pattern.take(j + 1), u, p));
    assert(u[0] == all[2 * j + 1]);
    assert(u.drop_first() == all.skip(2 * j + 2));
    if j == n - 1 {
        assert(u[0] == Signal { on: false, duration: p.break_gap });
        assert(pattern.take(j + 1) == pattern);
        assert(u.drop_first().len() == 0);
        assert(classify_from(pattern, u, p) == seq![crate::symbol::symbol_of_pattern(pattern)]
            + word_space(false) + classify_from(seq![], u.drop_first(), p));
        assert(seq![crate::symbol::symbol_of_pattern(pattern)] + word_space(false) + Seq::<
            CwSymbol,
        >::empty() == seq![crate::symbol::symbol_of_pattern(pattern)]);
    } else {
        assert(u[0] == Signal { on: false, duration: p.unit });
        assert(classify_from(pattern.take(j + 1), u, p) == classify_from(
            pattern.take(j + 1),
            u.drop_first(),
            p,
        ));
        lemma_classify_symbol_signals(pattern, p, j + 1);
    }
}

/// Decoding the signals of one symbol gives that symbol back, and playing
/// the result again gives the same signals. This needs a dot shorter than a
/// dash, the gap between elements shorter than the symbol break, and the
/// symbol break no longer than the word space.
pub proof fn lemma_round_trip(s: CwSymbol, p: TimingProfile)
    requires
        p.unit < p.long,
        p.unit < p.break_gap,
        p.break_gap <= p.word_gap,
    ensures
        classify(generate(seq![s], p), p) == seq![s],
        generate(classify(generate(seq![s], p), p), p) == generate(seq![s], p),
{
    assert(seq![s].drop_last() == Seq::<CwSymbol>::empty());
    lemma_symbol_of_own_pattern(s);
    let g = generate(seq![s], p);
    assert(generate(Seq::<CwSymbol>::empty(), p) == Seq::<Signal>::empty());
    assert(g == append_symbol(Seq::<Signal>::empty(), s, p));
    if s == CwSymbol::Space {
        assert(s.pattern() == Seq::<bool>::empty());
        assert(g =~= seq![Signal { on: false, duration: p.word_gap }]);
        assert(g.drop_first().len() == 0);
        assert(classify(g, p) == seq![s] + word_space(false) + classify_from(
            seq![],
            g.drop_first(),
            p,
        ));
        assert(seq![s] + word_space(false) + Seq::<CwSymbol>::empty() == seq![s]);
    } else {
        lemma_pattern_nonempty(s);
        let all = symbol_signals(s.pattern(), p);
        assert(g == Seq::<Signal>::empty() + all);
        assert(Seq::<Signal>::empty() + all == all);
        assert(all.skip(0) == all);
        assert(s.pattern().take(0) == Seq::<bool>::empty());
        lemma_classify_symbol_signals(s.pattern(), p, 0);
    }
}

/// Expands symbols into the signals that play them.
pub fn symbols_to_signals(symbols: &CwString, profile: &TimingProfile) -> (r: Vec<Signal>)
    ensures
        r@ == generate(symbols@, *profile),
        no_double_off(r@),
{
    let p = *profile;
    let mut signals: Vec<Signal> = Vec::new();
    let n = symbols.0.len();
    let mut i: usize = 0;
    while i < n
        invariant
            n == symbols@.len(),
            i <= n,
            signals@ == generate(symbols@.take(i as int), p),
        decreases n - i,
    {
        let symbol = symbols.0[i];
        let ghost base = signals@;
        proof {
            assert(symbols@.take(i + 1).drop_last() == symbols@.take(i as int));
            assert(symbols@.take(i + 1).last() == symbol);
        }
        if symbol == CwSymbol::Space {
            if signals.len() > 0 && !signals[signals.len() - 1].on {
                signals.pop();
            }
            signals.push(Signal { on: false, duration: p.word_gap });
        } else {
            let elements = symbol.elements();
            let m = elements.0.len();
            proof {
                lemma_pattern_nonempty(symbol);
            }
            let mut j: usize = 0;
            while j < m
                invariant
                    m == elements@.len(),
                    elements@ == symbol.pattern(),
                    j <= m,
                    signals@ == base + Seq::new(
                        2 * j as nat,
                        |k: int|
                            if k % 2 == 0 {
                                Signal { on: true, duration: element_duration(elements@[k / 2], p) }
                            } else {
                                Signal { on: false, duration: p.unit }
                            },
                    ),
                decreases m - j,
            {
                let dash = elements.0[j];
                let duration = if dash {
                    p.long
                } else {
                    p.unit
                };
                signals.push(Signal { on: true, duration });
                signals.push(Signal { on: false, duration: p.unit });
                j = j + 1;
                assert(signals@ =~= base + Seq::new(
                    2 * j as nat,
                    |k: int|
                        if k % 2 == 0 {
                            Signal { on: true, duration: element_duration(elements@[k / 2], p) }
                        } else {
                            Signal { on: false, duration: p.unit }
                        },
                ));
            }
            signals.pop();
            signals.push(Signal { on: false, duration: p.break_gap });
            assert(signals@ =~= base + symbol_signals(symbol.pattern(), p));
        }
        i = i + 1;
    }
    proof {
        assert(symbols@.take(n as int) == symbols@);
        lemma_generate_no_double_off(symbols@, p);
    }
    signals
}

} // verus!
