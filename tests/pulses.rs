use cwos::classifier::signals_to_symbols;
use cwos::element::code_of_pattern;
use cwos::generator::symbols_to_signals;
use cwos::symbol::{CwString, CwSymbol};
use cwos::timing::{Signal, TimingProfile};
use cwos::symbol::CwSymbol::{Space, A, B, C, D, E, F, G, H, I, J, K, L, M, N, O, P, Q, R, S, T, U, V, W, X, Y, Z, _0, _1, _2, _3, _4, _5, _6, _7, _8, _9, Period, Comma, Question, Exclamation, Slash, ParenthesisOpen, ParenthesisClose, Ampersand, Colon, Semicolon, Equals, Plus, Minus, Dollar, At, Invalid, Correction, Start, End, NewLine, SOS};

fn profile() -> TimingProfile {
    TimingProfile { unit: 60, long: 180, break_gap: 180, word_gap: 420 }
}

fn on(duration: u32) -> Signal {
    Signal { on: true, duration }
}

fn off(duration: u32) -> Signal {
    Signal { on: false, duration }
}

fn decode(signals: Vec<Signal>) -> Vec<CwSymbol> {
    signals_to_symbols(&signals, &profile()).0
}

#[test]
fn a_pulse_of_exactly_long_is_a_dash() {
    assert_eq!(decode(vec![on(180), off(180)]), vec![CwSymbol::T]);
    assert_eq!(decode(vec![on(179), off(180)]), vec![CwSymbol::E]);
    assert_eq!(decode(vec![on(0), off(180)]), vec![CwSymbol::E]);
}

#[test]
fn a_silence_of_exactly_break_gap_ends_the_symbol() {
    assert_eq!(decode(vec![on(60), off(180), on(60), off(180)]), vec![E, E]);
    assert_eq!(decode(vec![on(60), off(179), on(60), off(180)]), vec![I]);
}

#[test]
fn a_silence_longer_than_word_gap_adds_one_word_space() {
    assert_eq!(
        decode(vec![on(60), off(421), on(60), off(180)]),
        vec![E, Space, E]
    );
    assert_eq!(decode(vec![on(60), off(420), on(60), off(180)]), vec![E, E]);
    assert_eq!(decode(vec![on(60), off(300), on(180), off(180)]), vec![E, T]);
}

#[test]
fn the_closing_silence_adds_no_word_space() {
    assert_eq!(decode(vec![on(60), off(3000)]), vec![CwSymbol::E]);
}

#[test]
fn leading_and_unfinished_signals() {
    assert_eq!(decode(vec![off(100), on(60), off(180)]), vec![E]);
    assert_eq!(decode(vec![on(60), off(180), on(60)]), vec![E]);
    assert_eq!(decode(vec![]), Vec::<CwSymbol>::new());
}

#[test]
fn unknown_patterns_decode_as_invalid() {
    let six_dashes = vec![
        on(200), off(60), on(200), off(60), on(200), off(60),
        on(200), off(60), on(200), off(60), on(200), off(180),
    ];
    assert_eq!(decode(six_dashes), vec![CwSymbol::Invalid]);
}

#[test]
fn generated_signals_of_a_few_texts() {
    let p = profile();
    assert_eq!(symbols_to_signals(&CwString(vec![E]), &p), vec![on(60), off(180)]);
    assert_eq!(
        symbols_to_signals(&CwString(vec![A]), &p),
        vec![on(60), off(60), on(180), off(180)]
    );
    assert_eq!(
        symbols_to_signals(&CwString(vec![E, Space, T]), &p),
        vec![on(60), off(420), on(180), off(180)]
    );
    assert_eq!(
        symbols_to_signals(&CwString(vec![Space, Space]), &p),
        vec![off(420)]
    );
    assert_eq!(symbols_to_signals(&CwString(vec![]), &p), Vec::<Signal>::new());
}

#[test]
fn farnsworth_spacing_in_generated_signals() {
    let p = TimingProfile { unit: 50, long: 150, break_gap: 300, word_gap: 700 };
    assert_eq!(
        symbols_to_signals(&CwString(vec![CwSymbol::I, CwSymbol::Space]), &p),
        vec![on(50), off(50), on(50), off(700)]
    );
}

#[test]
fn every_symbol_survives_generation_and_decoding() {
    let all = vec![
        Space, A, B, C, D, E, F, G, H, I, J, K, L, M, N, O, P, Q, R, S, T, U, V, W, X, Y, Z, _0,
        _1, _2, _3, _4, _5, _6, _7, _8, _9, Period, Comma, Question, Exclamation, Slash,
        ParenthesisOpen, ParenthesisClose, Ampersand, Colon, Semicolon, Equals, Plus, Minus,
        Dollar, At, Invalid, Correction, Start, End, NewLine, SOS,
    ];
    let p = profile();
    for s in all {
        let signals = symbols_to_signals(&CwString(vec![s]), &p);
        let back = signals_to_symbols(&signals, &p);
        assert_eq!(back, CwString(vec![s]));
        assert_eq!(symbols_to_signals(&back, &p), signals);
    }
}

#[test]
fn a_word_round_trips() {
    let p = profile();
    let text = CwString(vec![C, Q, Space, D, E]);
    let signals = symbols_to_signals(&text, &p);
    // the word space plays for exactly `word_gap`, which a listener with the
    // same profile reads as a symbol break only
    assert_eq!(signals_to_symbols(&signals, &p), CwString(vec![C, Q, D, E]));
    let listener = TimingProfile { unit: 60, long: 180, break_gap: 180, word_gap: 400 };
    assert_eq!(signals_to_symbols(&signals, &listener), text);
}

#[test]
fn a_short_silence_after_the_last_long_one_changes_nothing() {
    let p = TimingProfile { unit: 1, long: 3, break_gap: 3, word_gap: 7 };
    let closed = vec![on(1), off(8)];
    let with_tail = vec![on(1), off(8), off(0)];
    assert_eq!(signals_to_symbols(&closed, &p).0, vec![E]);
    assert_eq!(signals_to_symbols(&with_tail, &p).0, vec![E]);
    assert_eq!(decode(vec![on(60), off(3000), off(0)]), vec![E]);
    assert_eq!(decode(vec![on(60), off(500), off(100)]), vec![E]);
}

#[test]
fn a_word_space_needs_a_later_key_press() {
    assert_eq!(
        decode(vec![on(60), off(500), off(100), on(60), off(180)]),
        vec![E, Space, E]
    );
    assert_eq!(decode(vec![off(100), on(60), off(500), on(180), off(3000), off(50)]), vec![E, Space, T]);
}

#[test]
fn codes_of_long_patterns_fit() {
    assert_eq!(code_of_pattern(&vec![true; 31]), u32::MAX);
    assert_eq!(code_of_pattern(&vec![false, false, false]), 8);
    assert_eq!(code_of_pattern(&vec![]), 1);
}
