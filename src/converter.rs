//! Text to element patterns and back, through the codec table.
use vstd::prelude::*;
use vstd::string::StrSliceExecFns;

use crate::classifier::lemma_symbol_of_own_pattern;
use crate::element::ElementString;
use crate::symbol::{ascii_upper, symbol_of_char, symbol_of_pattern, CwSymbol, UnknownCharacter};
use crate::text::push_char;

verus! {

/// Every character of `text` is in the codec table.
pub open spec fn all_known(text: Seq<char>) -> bool {
    forall|i: int| 0 <= i < text.len() ==> #[trigger] symbol_of_char(text[i]) is Some
}

/// The pattern of each character of a text whose characters are all known.
pub open spec fn encoded(text: Seq<char>) -> Seq<Seq<bool>> {
    text.map_values(|c: char| symbol_of_char(c)->0.pattern())
}

/// The character of the symbol that each pattern spells.
pub open spec fn decoded(patterns: Seq<Seq<bool>>) -> Seq<char> {
    patterns.map_values(|p: Seq<bool>| symbol_of_pattern(p).spec_character())
}

/// Encodes and decodes whole texts; the word space is the empty pattern.
#[derive(Clone, Copy, Debug, Default)]
pub struct SymbolConverter {}

impl SymbolConverter {
    pub fn new() -> (r: SymbolConverter) {
        SymbolConverter {  }
    }

    /// The pattern of each character, or the first character that has none.
    pub fn encode(&self, text: &str) -> (r: Result<Vec<ElementString>, UnknownCharacter>)
        ensures
            r is Ok <==> all_known(text@),
            r matches Ok(v) ==> v@.map_values(|e: ElementString| e@) == encoded(text@),
            r matches Err(e) ==> exists|i: int|
                0 <= i < text@.len() && symbol_of_char(#[trigger] text@[i]) is None && e.character
                    == text@[i] && all_known(text@.take(i)),
    {
        let n = text.unicode_len();
        let mut patterns: Vec<ElementString> = Vec::new();
        let mut i: usize = 0;
        while i < n
            invariant
                n == text@.len(),
                i <= n,
                all_known(text@.take(i as int)),
                patterns@.len() == i,
                patterns@.map_values(|e: ElementString| e@) == encoded(text@.take(i as int)),
            decreases n - i,
        {
            let c = text.get_char(i);
            match CwSymbol::from_char(c) {
                Ok(symbol) => {
                    let ghost before = patterns@;
                    patterns.push(symbol.elements());
                    proof {
                        assert(symbol_of_char(c) == Some(symbol));
                        assert(text@.take(i + 1) == text@.take(i as int).push(c));
                        assert(patterns@ == before.push(patterns@[i as int]));
                        assert(before.map_values(|e: ElementString| e@) == encoded(
                            text@.take(i as int),
                        ));
                        let ghost now = text@.take(i + 1);
                        assert forall|k: int| 0 <= k <= i implies #[trigger] patterns@[k]@
                            == symbol_of_char(now[k])->0.pattern() by {
                            if k < i {
                                assert(before.map_values(|e: ElementString| e@)[k] == encoded(
                                    text@.take(i as int),
                                )[k]);
                            }
                        }
                        assert(patterns@.map_values(|e: ElementString| e@) =~= encoded(now));
                    }
                },
                Err(e) => {
                    proof {
                        assert(!all_known(text@));
                    }
                    return Err(e);
                },
            }
            i = i + 1;
        }
        proof {
            assert(text@.take(n as int) == text@);
        }
        Ok(patterns)
    }

    /// The character of each pattern's symbol; a pattern outside the table
    /// gives the character of `Invalid`.
    pub fn decode(&self, patterns: &Vec<ElementString>) -> (r: String)
        ensures
            r@ == decoded(patterns@.map_values(|e: ElementString| e@)),
    {
        let mut r = String::new();
        let n = patterns.len();
        let mut i: usize = 0;
        while i < n
            invariant
                n == patterns@.len(),
                i <= n,
                r@ == decoded(patterns@.take(i as int).map_values(|e: ElementString| e@)),
            decreases n - i,
        {
            let c = CwSymbol::from_elements(&patterns[i]).character();
            push_char(&mut r, c);
            proof {
                assert(patterns@.take(i + 1) == patterns@.take(i as int).push(patterns@[i as int]));
                assert(r@ =~= decoded(patterns@.take(i + 1).map_values(|e: ElementString| e@)));
            }
            i = i + 1;
        }
        proof {
            assert(patterns@.take(n as int) == patterns@);
        }
        r
    }
}

/// Decoding the encoding of a text gives the text back in upper case.
pub proof fn lemma_text_round_trip(text: Seq<char>)
    requires
        all_known(text),
    ensures
        decoded(encoded(text)) == text.map_values(|c: char| ascii_upper(c)),
{
    assert forall|i: int| 0 <= i < text.len() implies decoded(encoded(text))[i] == ascii_upper(
        #[trigger] text[i],
    ) by {
        assert(symbol_of_char(text[i]) is Some);
        let s = symbol_of_char(text[i])->0;
        lemma_symbol_of_own_pattern(s);
    }
    assert(decoded(encoded(text)) =~= text.map_values(|c: char| ascii_upper(c)));
}

} // verus!
