use cwos::converter::SymbolConverter;
use cwos::element::ElementString;
use cwos::symbol::UnknownCharacter;

#[test]
fn test_char_converter_encode_decode() {
    let conv = SymbolConverter::new();

    let message = "HELLO WORLD!";
    let encoded = conv.encode(message).unwrap();

    assert!(!encoded.is_empty(), "encoded message should not be empty");

    let decoded = conv.decode(&encoded);

    assert_eq!(
        decoded, message,
        "decoded message should match the original"
    );

    println!("{:?}\n{}", encoded, decoded);
}

#[test]
fn encode_gives_each_pattern_and_the_word_space() {
    let conv = SymbolConverter::new();
    let encoded = conv.encode("E t").unwrap();
    assert_eq!(
        encoded,
        vec![
            ElementString(vec![false]),
            ElementString(vec![]),
            ElementString(vec![true]),
        ]
    );
}

#[test]
fn decode_upper_cases_lower_case_text() {
    let conv = SymbolConverter::new();
    let encoded = conv.encode("sos, 73").unwrap();
    assert_eq!(conv.decode(&encoded), "SOS, 73");
}

#[test]
fn encode_reports_the_first_unknown_character() {
    let conv = SymbolConverter::new();
    assert_eq!(
        conv.encode("ab_c\"d"),
        Err(UnknownCharacter { character: '_' })
    );
    assert_eq!(conv.encode("é"), Err(UnknownCharacter { character: 'é' }));
}

#[test]
fn decode_marks_unknown_patterns_as_invalid() {
    let conv = SymbolConverter::new();
    let patterns = vec![
        ElementString(vec![true, true, true, true, true, true]),
        ElementString(vec![false, true]),
    ];
    assert_eq!(conv.decode(&patterns), "~A");
}

#[test]
fn empty_text_encodes_to_nothing() {
    let conv = SymbolConverter::new();
    let encoded = conv.encode("").unwrap();
    assert!(encoded.is_empty());
    assert_eq!(conv.decode(&encoded), "");
}
