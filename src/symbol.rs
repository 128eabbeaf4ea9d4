//! The codec table: each symbol with its character, its element pattern and
//! its group, and the lookups by symbol, by pattern and by character.
use vstd::prelude::*;
use vstd::string::StrSliceExecFns;

use crate::element::{
    code_of_pattern, lemma_code_pattern_round_trip, lemma_pattern_code_round_trip,
    lemma_pattern_of_code_len, pattern_code, pattern_from_code, pattern_of_code, ElementString,
    MAX_PATTERN_LEN,
};

verus! {

/// The kind of a symbol.
#[derive(Clone, Copy, Debug, PartialEq, Eq, Structural)]
pub enum Group {
    Letter,
    Number,
    Special,
    Prosign,
    Void,
}

/// One unit of plain text: a letter, a digit, a punctuation mark, the word
/// space or a prosign. `Invalid` stands for a pattern that no entry has.
#[derive(Clone, Copy, Debug, Hash, PartialEq, Eq, Structural)]
pub enum CwSymbol {
    Space,
    A,
    B,
    C,
    D,
    E,
    F,
    G,
    H,
    I,
    J,
    K,
    L,
    M,
    N,
    O,
    P,
    Q,
    R,
    S,
    T,
    U,
    V,
    W,
    X,
    Y,
    Z,
    _0,
    _1,
    _2,
    _3,
    _4,
    _5,
    _6,
    _7,
    _8,
    _9,
    Period,
    Comma,
    Question,
    Exclamation,
    Slash,
    ParenthesisOpen,
    ParenthesisClose,
    Ampersand,
    Colon,
    Semicolon,
    Equals,
    Plus,
    Minus,
    Dollar,
    At,
    Invalid,
    Correction,
    Start,
    End,
    NewLine,
    SOS,
}

impl Default for CwSymbol {
    fn default() -> (r: Self)
        ensures
            r == CwSymbol::Space,
    {
        CwSymbol::Space
    }
}

/// A sequence of symbols.
#[derive(Clone, Debug, Default, PartialEq, Eq)]
pub struct CwString(pub Vec<CwSymbol>);

impl View for CwString {
    type V = Seq<CwSymbol>;

    open spec fn view(&self) -> Seq<CwSymbol> {
        self.0@
    }
}

/// A symbol that `str::trim` would take for white space.
pub open spec fn is_blank(s: CwSymbol) -> bool {
    s == CwSymbol::Space || s == CwSymbol::NewLine
}

pub open spec fn trim_start(s: Seq<CwSymbol>) -> Seq<CwSymbol>
    decreases s.len(),
{
    if s.len() > 0 && is_blank(s[0]) {
        trim_start(s.drop_first())
    } else {
        s
    }
}

pub open spec fn trim_end(s: Seq<CwSymbol>) -> Seq<CwSymbol>
    decreases s.len(),
{
    if s.len() > 0 && is_blank(s.last()) {
        trim_end(s.drop_last())
    } else {
        s
    }
}

/// `s` without its leading and trailing word spaces and new lines.
pub open spec fn trimmed(s: Seq<CwSymbol>) -> Seq<CwSymbol> {
    trim_end(trim_start(s))
}

impl CwString {
    /// The text without leading and trailing blanks.
    pub fn normalized(&self) -> (r: CwString)
        ensures
            r@ == trimmed(self@),
    {
        let n = self.0.len();
        let mut start: usize = 0;
        proof {
            assert(self@.skip(0) == self@);
        }
        while start < n && (self.0[start] == CwSymbol::Space || self.0[start] == CwSymbol::NewLine)
            invariant
                n == self@.len(),
                start <= n,
                trim_start(self@) == trim_start(self@.skip(start as int)),
            decreases n - start,
        {
            proof {
                assert(self@.skip(start as int).drop_first() == self@.skip(start + 1));
            }
            start = start + 1;
        }
        let mut end: usize = n;
        proof {
            assert(self@.subrange(start as int, n as int) == self@.skip(start as int));
        }
        while end > start && (self.0[end - 1] == CwSymbol::Space || self.0[end - 1]
            == CwSymbol::NewLine)
            invariant
                n == self@.len(),
                start <= end <= n,
                trim_start(self@) == self@.skip(start as int),
                trim_end(self@.skip(start as int)) == trim_end(
                    self@.subrange(start as int, end as int),
                ),
            decreases end - start,
        {
            proof {
                assert(self@.subrange(start as int, end as int).drop_last() == self@.subrange(
                    start as int,
                    end - 1,
                ));
            }
            end = end - 1;
        }
        let mut r: Vec<CwSymbol> = Vec::new();
        let mut k: usize = start;
        while k < end
            invariant
                n == self@.len(),
                start <= k <= end <= n,
                r@ == self@.subrange(start as int, k as int),
            decreases end - k,
        {
            r.push(self.0[k]);
            k = k + 1;
            proof {
                assert(r@ == self@.subrange(start as int, k as int));
            }
        }
        CwString(r)
    }
}

/// A character that has no entry in the codec table.
#[derive(Clone, Copy, Debug, PartialEq, Eq, Structural)]
pub struct UnknownCharacter {
    pub character: char,
}

/// ASCII upper case; any other character is kept as it is.
pub open spec fn ascii_upper(c: char) -> char {
    if 'a' <= c && c <= 'z' {
        ((c as u32 - 32) as u8) as char
    } else {
        c
    }
}

pub fn to_ascii_upper(c: char) -> (r: char)
    ensures
        r == ascii_upper(c),
{
    if 'a' <= c && c <= 'z' {
        ((c as u32 - 32) as u8) as char
    } else {
        c
    }
}

/// The symbol that a pattern spells; `Invalid` where no entry has it.
pub open spec fn symbol_of_pattern(p: Seq<bool>) -> CwSymbol {
    if exists|s: CwSymbol| #[trigger] s.pattern() == p {
        choose|s: CwSymbol| #[trigger] s.pattern() == p
    } else {
        CwSymbol::Invalid
    }
}

/// The symbol that a character (of either case) writes, if any.
pub open spec fn symbol_of_char(c: char) -> Option<CwSymbol> {
    if exists|s: CwSymbol| #[trigger] s.spec_character() == ascii_upper(c) {
        Some(choose|s: CwSymbol| #[trigger] s.spec_character() == ascii_upper(c))
    } else {
        None
    }
}

/// One row of the codec table.
#[derive(Clone, Copy, Debug, PartialEq, Eq, Structural)]
pub struct SymbolSpec {
    pub character: char,
    /// The element pattern, as `pattern_code` gives it.
    pub code: u32,
    pub group: Group,
    pub symbol: CwSymbol,
}

impl SymbolSpec {
    pub fn character(&self) -> (r: char)
        ensures
            r == self.character,
    {
        self.character
    }

    pub fn elements(&self) -> (r: ElementString)
        ensures
            r@ == pattern_of_code(self.code as nat),
    {
        ElementString(pattern_from_code(self.code))
    }

    pub fn group(&self) -> (r: Group)
        ensures
            r == self.group,
    {
        self.group
    }

    pub fn symbol(&self) -> (r: CwSymbol)
        ensures
            r == self.symbol,
    {
        self.symbol
    }
}

impl CwSymbol {
    /// The symbol's row: its character, the code of its pattern, its group.
    pub open spec fn row(self) -> (char, u32, Group) {
        match self {
            CwSymbol::Space => (' ', 0b1, Group::Void),  // word space
            CwSymbol::A => ('A', 0b1_01, Group::Letter),  // .-
            CwSymbol::B => ('B', 0b1_1000, Group::Letter),  // -...
            CwSymbol::C => ('C', 0b1_1010, Group::Letter),  // -.-.
            CwSymbol::D => ('D', 0b1_100, Group::Letter),  // -..
            CwSymbol::E => ('E', 0b1_0, Group::Letter),  // .
            CwSymbol::F => ('F', 0b1_0010, Group::Letter),  // ..-.
            CwSymbol::G => ('G', 0b1_110, Group::Letter),  // --.
            CwSymbol::H => ('H', 0b1_0000, Group::Letter),  // ....
            CwSymbol::I => ('I', 0b1_00, Group::Letter),  // ..
            CwSymbol::J => ('J', 0b1_0111, Group::Letter),  // .---
            CwSymbol::K => ('K', 0b1_101, Group::Letter),  // -.-
            CwSymbol::L => ('L', 0b1_0100, Group::Letter),  // .-..
            CwSymbol::M => ('M', 0b1_11, Group::Letter),  // --
            CwSymbol::N => ('N', 0b1_10, Group::Letter),  // -.
            CwSymbol::O => ('O', 0b1_111, Group::Letter),  // ---
            CwSymbol::P => ('P', 0b1_0110, Group::Letter),  // .--.
            CwSymbol::Q => ('Q', 0b1_1101, Group::Letter),  // --.-
            CwSymbol::R => ('R', 0b1_010, Group::Letter),  // .-.
            CwSymbol::S => ('S', 0b1_000, Group::Letter),  // ...
            CwSymbol::T => ('T', 0b1_1, Group::Letter),  // -
            CwSymbol::U => ('U', 0b1_001, Group::Letter),  // ..-
            CwSymbol::V => ('V', 0b1_0001, Group::Letter),  // ...-
            CwSymbol::W => ('W', 0b1_011, Group::Letter),  // .--
            CwSymbol::X => ('X', 0b1_1001, Group::Letter),  // -..-
            CwSymbol::Y => ('Y', 0b1_1011, Group::Letter),  // -.--
            CwSymbol::Z => ('Z', 0b1_1100, Group::Letter),  // --..
            CwSymbol::_0 => ('0', 0b1_11111, Group::Number),  // -----
            CwSymbol::_1 => ('1', 0b1_01111, Group::Number),  // .----
            CwSymbol::_2 => ('2', 0b1_00111, Group::Number),  // ..---
            CwSymbol::_3 => ('3', 0b1_00011, Group::Number),  // ...--
            CwSymbol::_4 => ('4', 0b1_00001, Group::Number),  // ....-
            CwSymbol::_5 => ('5', 0b1_00000, Group::Number),  // .....
            CwSymbol::_6 => ('6', 0b1_10000, Group::Number),  // -....
            CwSymbol::_7 => ('7', 0b1_11000, Group::Number),  // --...
            CwSymbol::_8 => ('8', 0b1_11100, Group::Number),  // ---..
            CwSymbol::_9 => ('9', 0b1_11110, Group::Number),  // ----.
            CwSymbol::Period => ('.', 0b1_010101, Group::Special),  // .-.-.-
            CwSymbol::Comma => (',', 0b1_110011, Group::Special),  // --..--
            CwSymbol::Question => ('?', 0b1_001100, Group::Special),  // ..--..
            CwSymbol::Exclamation => ('!', 0b1_101011, Group::Special),  // -.-.--
            CwSymbol::Slash => ('/', 0b1_10010, Group::Special),  // -..-.
            CwSymbol::ParenthesisOpen => ('(', 0b1_10110, Group::Special),  // -.--.  [KN] go ahead
            CwSymbol::ParenthesisClose => (')', 0b1_101101, Group::Special),  // -.--.-
            CwSymbol::Ampersand => ('&', 0b1_01000, Group::Special),  // .-...  [AS] wait
            CwSymbol::Colon => (':', 0b1_111000, Group::Special),  // ---...
            CwSymbol::Semicolon => (';', 0b1_101010, Group::Special),  // -.-.-.
            CwSymbol::Equals => ('=', 0b1_10001, Group::Special),  // -...-
            CwSymbol::Plus => ('+', 0b1_01010, Group::Special),  // .-.-.
            CwSymbol::Minus => ('-', 0b1_100001, Group::Special),  // -....-
            CwSymbol::Dollar => ('$', 0b1_0001001, Group::Special),  // ...-..-
            CwSymbol::At => ('@', 0b1_011010, Group::Special),  // .--.-.
            CwSymbol::Invalid => ('~', 0b1_0101010, Group::Prosign),  // .-.-.-.  stands for any pattern outside the table
            CwSymbol::Correction => ('*', 0b1_00000000, Group::Prosign),  // ........  [HH] error / correction
            CwSymbol::Start => ('^', 0b1_10101, Group::Prosign),  // -.-.-  [CT] commencing transmission
            CwSymbol::End => ('#', 0b1_000101, Group::Prosign),  // ...-.-  [VA] end of contact
            CwSymbol::NewLine => ('\n', 0b1_0101, Group::Prosign),  // .-.-  [RT] carriage return
            CwSymbol::SOS => ('%', 0b1_000111000, Group::Prosign),  // ...---...  [SOS]
        }
    }

    pub open spec fn spec_character(&self) -> char {
        self.row().0
    }

    pub open spec fn code(self) -> u32 {
        self.row().1
    }

    pub open spec fn spec_group(&self) -> Group {
        self.row().2
    }

    pub open spec fn pattern(self) -> Seq<bool> {
        pattern_of_code(self.code() as nat)
    }

    fn table_row(&self) -> (r: (char, u32, Group))
        ensures
            r == self.row(),
    {
        match self {
            CwSymbol::Space => (' ', 0b1, Group::Void),  // word space
            CwSymbol::A => ('A', 0b1_01, Group::Letter),  // .-
            CwSymbol::B => ('B', 0b1_1000, Group::Letter),  // -...
            CwSymbol::C => ('C', 0b1_1010, Group::Letter),  // -.-.
            CwSymbol::D => ('D', 0b1_100, Group::Letter),  // -..
            CwSymbol::E => ('E', 0b1_0, Group::Letter),  // .
            CwSymbol::F => ('F', 0b1_0010, Group::Letter),  // ..-.
            CwSymbol::G => ('G', 0b1_110, Group::Letter),  // --.
            CwSymbol::H => ('H', 0b1_0000, Group::Letter),  // ....
            CwSymbol::I => ('I', 0b1_00, Group::Letter),  // ..
            CwSymbol::J => ('J', 0b1_0111, Group::Letter),  // .---
            CwSymbol::K => ('K', 0b1_101, Group::Letter),  // -.-
            CwSymbol::L => ('L', 0b1_0100, Group::Letter),  // .-..
            CwSymbol::M => ('M', 0b1_11, Group::Letter),  // --
            CwSymbol::N => ('N', 0b1_10, Group::Letter),  // -.
            CwSymbol::O => ('O', 0b1_111, Group::Letter),  // ---
            CwSymbol::P => ('P', 0b1_0110, Group::Letter),  // .--.
            CwSymbol::Q => ('Q', 0b1_1101, Group::Letter),  // --.-
            CwSymbol::R => ('R', 0b1_010, Group::Letter),  // .-.
            CwSymbol::S => ('S', 0b1_000, Group::Letter),  // ...
            CwSymbol::T => ('T', 0b1_1, Group::Letter),  // -
            CwSymbol::U => ('U', 0b1_001, Group::Letter),  // ..-
            CwSymbol::V => ('V', 0b1_0001, Group::Letter),  // ...-
            CwSymbol::W => ('W', 0b1_011, Group::Letter),  // .--
            CwSymbol::X => ('X', 0b1_1001, Group::Letter),  // -..-
            CwSymbol::Y => ('Y', 0b1_1011, Group::Letter),  // -.--
            CwSymbol::Z => ('Z', 0b1_1100, Group::Letter),  // --..
            CwSymbol::_0 => ('0', 0b1_11111, Group::Number),  // -----
            CwSymbol::_1 => ('1', 0b1_01111, Group::Number),  // .----
            CwSymbol::_2 => ('2', 0b1_00111, Group::Number),  // ..---
            CwSymbol::_3 => ('3', 0b1_00011, Group::Number),  // ...--
            CwSymbol::_4 => ('4', 0b1_00001, Group::Number),  // ....-
            CwSymbol::_5 => ('5', 0b1_00000, Group::Number),  // .....
            CwSymbol::_6 => ('6', 0b1_10000, Group::Number),  // -....
            CwSymbol::_7 => ('7', 0b1_11000, Group::Number),  // --...
            CwSymbol::_8 => ('8', 0b1_11100, Group::Number),  // ---..
            CwSymbol::_9 => ('9', 0b1_11110, Group::Number),  // ----.
            CwSymbol::Period => ('.', 0b1_010101, Group::Special),  // .-.-.-
            CwSymbol::Comma => (',', 0b1_110011, Group::Special),  // --..--
            CwSymbol::Question => ('?', 0b1_001100, Group::Special),  // ..--..
            CwSymbol::Exclamation => ('!', 0b1_101011, Group::Special),  // -.-.--
            CwSymbol::Slash => ('/', 0b1_10010, Group::Special),  // -..-.
            CwSymbol::ParenthesisOpen => ('(', 0b1_10110, Group::Special),  // -.--.  [KN] go ahead
            CwSymbol::ParenthesisClose => (')', 0b1_101101, Group::Special),  // -.--.-
            CwSymbol::Ampersand => ('&', 0b1_01000, Group::Special),  // .-...  [AS] wait
            CwSymbol::Colon => (':', 0b1_111000, Group::Special),  // ---...
            CwSymbol::Semicolon => (';', 0b1_101010, Group::Special),  // -.-.-.
            CwSymbol::Equals => ('=', 0b1_10001, Group::Special),  // -...-
            CwSymbol::Plus => ('+', 0b1_01010, Group::Special),  // .-.-.
            CwSymbol::Minus => ('-', 0b1_100001, Group::Special),  // -....-
            CwSymbol::Dollar => ('$', 0b1_0001001, Group::Special),  // ...-..-
            CwSymbol::At => ('@', 0b1_011010, Group::Special),  // .--.-.
            CwSymbol::Invalid => ('~', 0b1_0101010, Group::Prosign),  // .-.-.-.  stands for any pattern outside the table
            CwSymbol::Correction => ('*', 0b1_00000000, Group::Prosign),  // ........  [HH] error / correction
            CwSymbol::Start => ('^', 0b1_10101, Group::Prosign),  // -.-.-  [CT] commencing transmission
            CwSymbol::End => ('#', 0b1_000101, Group::Prosign),  // ...-.-  [VA] end of contact
            CwSymbol::NewLine => ('\n', 0b1_0101, Group::Prosign),  // .-.-  [RT] carriage return
            CwSymbol::SOS => ('%', 0b1_000111000, Group::Prosign),  // ...---...  [SOS]
        }
    }

    /// The table row of this symbol.
    pub fn spec(&self) -> (r: SymbolSpec)
        ensures
            r.character == self.spec_character(),
            r.code == self.code(),
            r.group == self.spec_group(),
            r.symbol == *self,
    {
        let (character, code, group) = self.table_row();
        SymbolSpec { character, code, group, symbol: *self }
    }

    #[verifier::when_used_as_spec(spec_character)]
    pub fn character(&self) -> (r: char)
        ensures
            r == self.spec_character(),
    {
        self.spec().character()
    }

    /// The element pattern of this symbol.
    pub fn elements(&self) -> (r: ElementString)
        ensures
            r@ == self.pattern(),
    {
        self.spec().elements()
    }

    #[verifier::when_used_as_spec(spec_group)]
    pub fn group(&self) -> (r: Group)
        ensures
            r == self.spec_group(),
    {
        self.spec().group()
    }

    fn from_code(code: u32) -> (r: Option<CwSymbol>)
        ensures
            match r {
                Some(s) => s.code() == code,
                None => forall|s: CwSymbol| #[trigger] s.code() != code,
            },
    {
        match code {
            0b1 => Some(CwSymbol::Space),
            0b1_01 => Some(CwSymbol::A),
            0b1_1000 => Some(CwSymbol::B),
            0b1_1010 => Some(CwSymbol::C),
            0b1_100 => Some(CwSymbol::D),
            0b1_0 => Some(CwSymbol::E),
            0b1_0010 => Some(CwSymbol::F),
            0b1_110 => Some(CwSymbol::G),
            0b1_0000 => Some(CwSymbol::H),
            0b1_00 => Some(CwSymbol::I),
            0b1_0111 => Some(CwSymbol::J),
            0b1_101 => Some(CwSymbol::K),
            0b1_0100 => Some(CwSymbol::L),
            0b1_11 => Some(CwSymbol::M),
            0b1_10 => Some(CwSymbol::N),
            0b1_111 => Some(CwSymbol::O),
            0b1_0110 => Some(CwSymbol::P),
            0b1_1101 => Some(CwSymbol::Q),
            0b1_010 => Some(CwSymbol::R),
            0b1_000 => Some(CwSymbol::S),
            0b1_1 => Some(CwSymbol::T),
            0b1_001 => Some(CwSymbol::U),
            0b1_0001 => Some(CwSymbol::V),
            0b1_011 => Some(CwSymbol::W),
            0b1_1001 => Some(CwSymbol::X),
            0b1_1011 => Some(CwSymbol::Y),
            0b1_1100 => Some(CwSymbol::Z),
            0b1_11111 => Some(CwSymbol::_0),
            0b1_01111 => Some(CwSymbol::_1),
            0b1_00111 => Some(CwSymbol::_2),
            0b1_00011 => Some(CwSymbol::_3),
            0b1_00001 => Some(CwSymbol::_4),
            0b1_00000 => Some(CwSymbol::_5),
            0b1_10000 => Some(CwSymbol::_6),
            0b1_11000 => Some(CwSymbol::_7),
            0b1_11100 => Some(CwSymbol::_8),
            0b1_11110 => Some(CwSymbol::_9),
            0b1_010101 => Some(CwSymbol::Period),
            0b1_110011 => Some(CwSymbol::Comma),
            0b1_001100 => Some(CwSymbol::Question),
            0b1_101011 => Some(CwSymbol::Exclamation),
            0b1_10010 => Some(CwSymbol::Slash),
            0b1_10110 => Some(CwSymbol::ParenthesisOpen),
            0b1_101101 => Some(CwSymbol::ParenthesisClose),
            0b1_01000 => Some(CwSymbol::Ampersand),
            0b1_111000 => Some(CwSymbol::Colon),
            0b1_101010 => Some(CwSymbol::Semicolon),
            0b1_10001 => Some(CwSymbol::Equals),
            0b1_01010 => Some(CwSymbol::Plus),
            0b1_100001 => Some(CwSymbol::Minus),
            0b1_0001001 => Some(CwSymbol::Dollar),
            0b1_011010 => Some(CwSymbol::At),
            0b1_0101010 => Some(CwSymbol::Invalid),
            0b1_00000000 => Some(CwSymbol::Correction),
            0b1_10101 => Some(CwSymbol::Start),
            0b1_000101 => Some(CwSymbol::End),
            0b1_0101 => Some(CwSymbol::NewLine),
            0b1_000111000 => Some(CwSymbol::SOS),
            _ => None,
        }
    }

    /// The symbol that `elements` spells, or `Invalid`.
    pub fn from_elements(elements: &ElementString) -> (r: CwSymbol)
        ensures
            r == symbol_of_pattern(elements@),
    {
        let p = Ghost(elements@);
        if elements.0.len() > MAX_PATTERN_LEN {
            proof {
                assert forall|s: CwSymbol| #[trigger] s.pattern() != p@ by {
                    lemma_pattern_len(s);
                }
            }
            return CwSymbol::Invalid;
        }
        let code = code_of_pattern(&elements.0);
        proof {
            lemma_pattern_code_round_trip(p@);
        }
        match Self::from_code(code) {
            Some(s) => {
                proof {
                    assert(s.pattern() == p@);
                    let t = choose|t: CwSymbol| #[trigger] t.pattern() == p@;
                    lemma_pattern_injective(s, t);
                }
                s
            },
            None => {
                proof {
                    assert forall|s: CwSymbol| #[trigger] s.pattern() != p@ by {
                        lemma_code_positive(s);
                        lemma_code_pattern_round_trip(s.code() as nat);
                    }
                }
                CwSymbol::Invalid
            },
        }
    }

    /// The elements written in dots and dashes.
    pub fn pulses_from_str(pulse_str: &str) -> (r: Vec<bool>)
        requires
            forall|i: int|
                0 <= i < pulse_str@.len() ==> #[trigger] pulse_str@[i] == '.' || pulse_str@[i]
                    == '-',
        ensures
            r@ == pulse_str@.map_values(|c: char| c == '-'),
    {
        let n = pulse_str.unicode_len();
        let mut pulses: Vec<bool> = Vec::new();
        let mut i: usize = 0;
        while i < n
            invariant
                n == pulse_str@.len(),
                i <= n,
                pulses@ == pulse_str@.take(i as int).map_values(|c: char| c == '-'),
            decreases n - i,
        {
            let c = pulse_str.get_char(i);
            pulses.push(c == '-');
            i = i + 1;
            assert(pulses@ =~= pulse_str@.take(i as int).map_values(|c: char| c == '-'));
        }
        assert(pulse_str@.take(n as int) == pulse_str@);
        pulses
    }

    /// The symbol that `c` writes, in either case.
    pub fn from_char(c: char) -> (r: Result<CwSymbol, UnknownCharacter>)
        ensures
            r == match symbol_of_char(c) {
                Some(s) => Ok::<CwSymbol, UnknownCharacter>(s),
                None => Err(UnknownCharacter { character: c }),
            },
    {
        let upper = to_ascii_upper(c);
        let r = match upper {
            ' ' => Ok(CwSymbol::Space),
            'A' => Ok(CwSymbol::A),
            'B' => Ok(CwSymbol::B),
            'C' => Ok(CwSymbol::C),
            'D' => Ok(CwSymbol::D),
            'E' => Ok(CwSymbol::E),
            'F' => Ok(CwSymbol::F),
            'G' => Ok(CwSymbol::G),
            'H' => Ok(CwSymbol::H),
            'I' => Ok(CwSymbol::I),
            'J' => Ok(CwSymbol::J),
            'K' => Ok(CwSymbol::K),
            'L' => Ok(CwSymbol::L),
            'M' => Ok(CwSymbol::M),
            'N' => Ok(CwSymbol::N),
            'O' => Ok(CwSymbol::O),
            'P' => Ok(CwSymbol::P),
            'Q' => Ok(CwSymbol::Q),
            'R' => Ok(CwSymbol::R),
            'S' => Ok(CwSymbol::S),
            'T' => Ok(CwSymbol::T),
            'U' => Ok(CwSymbol::U),
            'V' => Ok(CwSymbol::V),
            'W' => Ok(CwSymbol::W),
            'X' => Ok(CwSymbol::X),
            'Y' => Ok(CwSymbol::Y),
            'Z' => Ok(CwSymbol::Z),
            '0' => Ok(CwSymbol::_0),
            '1' => Ok(CwSymbol::_1),
            '2' => Ok(CwSymbol::_2),
            '3' => Ok(CwSymbol::_3),
            '4' => Ok(CwSymbol::_4),
            '5' => Ok(CwSymbol::_5),
            '6' => Ok(CwSymbol::_6),
            '7' => Ok(CwSymbol::_7),
            '8' => Ok(CwSymbol::_8),
            '9' => Ok(CwSymbol::_9),
            '.' => Ok(CwSymbol::Period),
            ',' => Ok(CwSymbol::Comma),
            '?' => Ok(CwSymbol::Question),
            '!' => Ok(CwSymbol::Exclamation),
            '/' => Ok(CwSymbol::Slash),
            '(' => Ok(CwSymbol::ParenthesisOpen),
            ')' => Ok(CwSymbol::ParenthesisClose),
            '&' => Ok(CwSymbol::Ampersand),
            ':' => Ok(CwSymbol::Colon),
            ';' => Ok(CwSymbol::Semicolon),
            '=' => Ok(CwSymbol::Equals),
            '+' => Ok(CwSymbol::Plus),
            '-' => Ok(CwSymbol::Minus),
            '$' => Ok(CwSymbol::Dollar),
            '@' => Ok(CwSymbol::At),
            '~' => Ok(CwSymbol::Invalid),
            '*' => Ok(CwSymbol::Correction),
            '^' => Ok(CwSymbol::Start),
            '#' => Ok(CwSymbol::End),
            '\n' => Ok(CwSymbol::NewLine),
            '%' => Ok(CwSymbol::SOS),
            _ => Err(UnknownCharacter { character: c }),
        };
        proof {
            if let Ok(s) = r {
                assert(s.spec_character() == upper);
                let t = choose|t: CwSymbol| #[trigger] t.spec_character() == upper;
                lemma_character_injective(s, t);
            }
        }
        r
    }
}

pub proof fn lemma_code_positive(s: CwSymbol)
    ensures
        1 <= s.code() < 1024,
{
}

pub proof fn lemma_code_injective(a: CwSymbol, b: CwSymbol)
    requires
        a.code() == b.code(),
    ensures
        a == b,
{
}

pub proof fn lemma_character_injective(a: CwSymbol, b: CwSymbol)
    requires
        a.spec_character() == b.spec_character(),
    ensures
        a == b,
{
}

/// No pattern in the table is longer than `MAX_PATTERN_LEN`.
pub proof fn lemma_pattern_len(s: CwSymbol)
    ensures
        s.pattern().len() <= MAX_PATTERN_LEN,
{
    vstd::arithmetic::power2::lemma2_to64();
    lemma_pattern_of_code_len(s.code() as nat, 9);
}

pub proof fn lemma_pattern_injective(a: CwSymbol, b: CwSymbol)
    requires
        a.pattern() == b.pattern(),
    ensures
        a == b,
{
    lemma_code_positive(a);
    lemma_code_positive(b);
    lemma_code_pattern_round_trip(a.code() as nat);
    lemma_code_pattern_round_trip(b.code() as nat);
    lemma_code_injective(a, b);
}

} // verus!
