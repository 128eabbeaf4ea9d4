use cwos::element::ElementString;
use cwos::symbol::{CwString, CwSymbol, Group, UnknownCharacter};
use cwos::symbol::CwSymbol::{Space, A, B, C, D, E, F, G, H, I, J, K, L, M, N, O, P, Q, R, S, T, U, V, W, X, Y, Z, _0, _1, _2, _3, _4, _5, _6, _7, _8, _9, Period, Comma, Question, Exclamation, Slash, ParenthesisOpen, ParenthesisClose, Ampersand, Colon, Semicolon, Equals, Plus, Minus, Dollar, At, Invalid, Correction, Start, End, NewLine, SOS};

fn all_symbols() -> Vec<CwSymbol> {
    vec![
        Space, A, B, C, D, E, F, G, H, I, J, K, L, M, N, O, P, Q, R, S, T, U, V, W, X, Y, Z, _0,
        _1, _2, _3, _4, _5, _6, _7, _8, _9, Period, Comma, Question, Exclamation, Slash,
        ParenthesisOpen, ParenthesisClose, Ampersand, Colon, Semicolon, Equals, Plus, Minus,
        Dollar, At, Invalid, Correction, Start, End, NewLine, SOS,
    ]
}

#[test]
fn every_symbol_is_found_by_its_pattern_and_its_character() {
    for s in all_symbols() {
        assert_eq!(CwSymbol::from_elements(&s.elements()), s);
        assert_eq!(CwSymbol::from_char(s.character()), Ok(s));
    }
}

#[test]
fn patterns_and_characters_are_all_distinct() {
    let all = all_symbols();
    for (i, a) in all.iter().enumerate() {
        for b in all.iter().skip(i + 1) {
            assert_ne!(a.elements(), b.elements());
            assert_ne!(a.character(), b.character());
        }
    }
}

#[test]
fn elements_of_some_symbols() {
    assert_eq!(CwSymbol::A.elements(), ElementString(vec![false, true]));
    assert_eq!(CwSymbol::_0.elements(), ElementString(vec![true; 5]));
    assert_eq!(CwSymbol::Space.elements(), ElementString(vec![]));
    assert_eq!(
        CwSymbol::SOS.elements(),
        ElementString(vec![false, false, false, true, true, true, false, false, false])
    );
}

#[test]
fn from_elements_of_unknown_patterns_is_invalid() {
    assert_eq!(
        CwSymbol::from_elements(&ElementString(vec![true; 6])),
        CwSymbol::Invalid
    );
    assert_eq!(
        CwSymbol::from_elements(&ElementString(vec![false; 10])),
        CwSymbol::Invalid
    );
    assert_eq!(
        CwSymbol::from_elements(&ElementString(vec![false; 8])),
        CwSymbol::Correction
    );
    assert_eq!(
        CwSymbol::from_elements(&ElementString(vec![])),
        CwSymbol::Space
    );
}

#[test]
fn from_char_folds_case_and_rejects_unknown_characters() {
    assert_eq!(CwSymbol::from_char('q'), Ok(CwSymbol::Q));
    assert_eq!(CwSymbol::from_char('Q'), Ok(CwSymbol::Q));
    assert_eq!(CwSymbol::from_char('\n'), Ok(CwSymbol::NewLine));
    assert_eq!(CwSymbol::from_char('~'), Ok(CwSymbol::Invalid));
    assert_eq!(
        CwSymbol::from_char('_'),
        Err(UnknownCharacter { character: '_' })
    );
    assert_eq!(
        CwSymbol::from_char('ß'),
        Err(UnknownCharacter { character: 'ß' })
    );
}

#[test]
fn characters_and_groups() {
    assert_eq!(CwSymbol::Period.character(), '.');
    assert_eq!(CwSymbol::Space.character(), ' ');
    assert_eq!(CwSymbol::_7.character(), '7');
    assert_eq!(CwSymbol::Period.group(), Group::Special);
    assert_eq!(CwSymbol::_5.group(), Group::Number);
    assert_eq!(CwSymbol::W.group(), Group::Letter);
    assert_eq!(CwSymbol::Space.group(), Group::Void);
    assert_eq!(CwSymbol::SOS.group(), Group::Prosign);
    assert_eq!(CwSymbol::default(), CwSymbol::Space);
}

#[test]
fn symbol_spec_row() {
    let row = CwSymbol::K.spec();
    assert_eq!(row.character(), 'K');
    assert_eq!(row.elements(), ElementString(vec![true, false, true]));
    assert_eq!(row.group(), Group::Letter);
    assert_eq!(row.symbol(), CwSymbol::K);
}

#[test]
fn dot_strings() {
    assert_eq!(CwSymbol::A.elements().to_dot_string(), ".-");
    assert_eq!(CwSymbol::Question.elements().to_dot_string(), "..--..");
    assert_eq!(ElementString(vec![]).to_dot_string(), " / ");
}

#[test]
fn pulses_from_dots_and_dashes() {
    assert_eq!(CwSymbol::pulses_from_str("-.-"), vec![true, false, true]);
    assert_eq!(CwSymbol::pulses_from_str(""), Vec::<bool>::new());
    assert_eq!(
        CwSymbol::from_elements(&ElementString(CwSymbol::pulses_from_str("...-.-"))),
        CwSymbol::End
    );
}

#[test]
fn normalized_trims_blanks_at_both_ends() {
    let s = CwString(vec![Space, NewLine, H, Space, I, Space]);
    assert_eq!(s.normalized(), CwString(vec![H, Space, I]));
    let blank = CwString(vec![Space, NewLine, Space]);
    assert_eq!(blank.normalized(), CwString(vec![]));
    let plain = CwString(vec![E, C]);
    assert_eq!(plain.normalized(), CwString(vec![E, C]));
}
