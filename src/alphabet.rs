use vstd::prelude::*;

verus! {

/// One element of a Morse transmission: a key-down element or a gap.
#[derive(Copy, Clone, Debug, PartialEq, Eq, Structural)]
pub enum CWAlphabet {
    Dot,
    Dash,
    LetterSpace,
    WordSpace,
}

/// The Morse code of a character: its elements followed by a letter gap for a
/// letter or digit, a single word gap for anything else.
pub open spec fn morse_code(c: char) -> Seq<CWAlphabet> {
    match c {
        'A' => seq![CWAlphabet::Dot, CWAlphabet::Dash, CWAlphabet::LetterSpace],
        'B' => seq![CWAlphabet::Dash, CWAlphabet::Dot, CWAlphabet::Dot, CWAlphabet::Dot, CWAlphabet::LetterSpace],
        'C' => seq![CWAlphabet::Dash, CWAlphabet::Dot, CWAlphabet::Dash, CWAlphabet::Dot, CWAlphabet::LetterSpace],
        'D' => seq![CWAlphabet::Dash, CWAlphabet::Dot, CWAlphabet::Dot, CWAlphabet::LetterSpace],
        'E' => seq![CWAlphabet::Dot, CWAlphabet::LetterSpace],
        'F' => seq![CWAlphabet::Dot, CWAlphabet::Dot, CWAlphabet::Dash, CWAlphabet::Dot, CWAlphabet::LetterSpace],
        'G' => seq![CWAlphabet::Dash, CWAlphabet::Dash, CWAlphabet::Dot, CWAlphabet::LetterSpace],
        'H' => seq![CWAlphabet::Dot, CWAlphabet::Dot, CWAlphabet::Dot, CWAlphabet::Dot, CWAlphabet::LetterSpace],
        'I' => seq![CWAlphabet::Dot, CWAlphabet::Dot, CWAlphabet::LetterSpace],
        'J' => seq![CWAlphabet::Dot, CWAlphabet::Dash, CWAlphabet::Dash, CWAlphabet::Dash, CWAlphabet::LetterSpace],
        'K' => seq![CWAlphabet::Dash, CWAlphabet::Dot, CWAlphabet::Dash, CWAlphabet::LetterSpace],
        'L' => seq![CWAlphabet::Dot, CWAlphabet::Dash, CWAlphabet::Dot, CWAlphabet::Dot, CWAlphabet::LetterSpace],
        'M' => seq![CWAlphabet::Dash, CWAlphabet::Dash, CWAlphabet::LetterSpace],
        'N' => seq![CWAlphabet::Dash, CWAlphabet::Dot, CWAlphabet::LetterSpace],
        'O' => seq![CWAlphabet::Dash, CWAlphabet::Dash, CWAlphabet::Dash, CWAlphabet::LetterSpace],
        'P' => seq![CWAlphabet::Dot, CWAlphabet::Dash, CWAlphabet::Dash, CWAlphabet::Dot, CWAlphabet::LetterSpace],
        'Q' => seq![CWAlphabet::Dash, CWAlphabet::Dash, CWAlphabet::Dot, CWAlphabet::Dash, CWAlphabet::LetterSpace],
        'R' => seq![CWAlphabet::Dot, CWAlphabet::Dash, CWAlphabet::Dot, CWAlphabet::LetterSpace],
        'S' => seq![CWAlphabet::Dot, CWAlphabet::Dot, CWAlphabet::Dot, CWAlphabet::LetterSpace],
        'T' => seq![CWAlphabet::Dash, CWAlphabet::LetterSpace],
        'U' => seq![CWAlphabet::Dot, CWAlphabet::Dot, CWAlphabet::Dash, CWAlphabet::LetterSpace],
        'V' => seq![CWAlphabet::Dot, CWAlphabet::Dot, CWAlphabet::Dot, CWAlphabet::Dash, CWAlphabet::LetterSpace],
        'W' => seq![CWAlphabet::Dot, CWAlphabet::Dash, CWAlphabet::Dash, CWAlphabet::LetterSpace],
        'X' => seq![CWAlphabet::Dash, CWAlphabet::Dot, CWAlphabet::Dot, CWAlphabet::Dash, CWAlphabet::LetterSpace],
        'Y' => seq![CWAlphabet::Dash, CWAlphabet::Dot, CWAlphabet::Dash, CWAlphabet::Dash, CWAlphabet::LetterSpace],
        'Z' => seq![CWAlphabet::Dash, CWAlphabet::Dash, CWAlphabet::Dot, CWAlphabet::Dot, CWAlphabet::LetterSpace],
        '0' => seq![CWAlphabet::Dash, CWAlphabet::Dash, CWAlphabet::Dash, CWAlphabet::Dash, CWAlphabet::Dash, CWAlphabet::LetterSpace],
        '1' => seq![CWAlphabet::Dot, CWAlphabet::Dash, CWAlphabet::Dash, CWAlphabet::Dash, CWAlphabet::Dash, CWAlphabet::LetterSpace],
        '2' => seq![CWAlphabet::Dot, CWAlphabet::Dot, CWAlphabet::Dash, CWAlphabet::Dash, CWAlphabet::Dash, CWAlphabet::LetterSpace],
        '3' => seq![CWAlphabet::Dot, CWAlphabet::Dot, CWAlphabet::Dot, CWAlphabet::Dash, CWAlphabet::Dash, CWAlphabet::LetterSpace],
        '4' => seq![CWAlphabet::Dot, CWAlphabet::Dot, CWAlphabet::Dot, CWAlphabet::Dot, CWAlphabet::Dash, CWAlphabet::LetterSpace],
        '5' => seq![CWAlphabet::Dot, CWAlphabet::Dot, CWAlphabet::Dot, CWAlphabet::Dot, CWAlphabet::Dot, CWAlphabet::LetterSpace],
        '6' => seq![CWAlphabet::Dash, CWAlphabet::Dot, CWAlphabet::Dot, CWAlphabet::Dot, CWAlphabet::Dot, CWAlphabet::LetterSpace],
        '7' => seq![CWAlphabet::Dash, CWAlphabet::Dash, CWAlphabet::Dot, CWAlphabet::Dot, CWAlphabet::Dot, CWAlphabet::LetterSpace],
        '8' => seq![CWAlphabet::Dash, CWAlphabet::Dash, CWAlphabet::Dash, CWAlphabet::Dot, CWAlphabet::Dot, CWAlphabet::LetterSpace],
        '9' => seq![CWAlphabet::Dash, CWAlphabet::Dash, CWAlphabet::Dash, CWAlphabet::Dash, CWAlphabet::Dot, CWAlphabet::LetterSpace],
        _ => seq![CWAlphabet::WordSpace],
    }
}

/// The characters that have a code of their own: upper-case letters and digits.
pub open spec fn is_recognized(c: char) -> bool {
    ('A' <= c && c <= 'Z') || ('0' <= c && c <= '9')
}

/// Every letter and digit has a non-empty code ending in a letter gap; every
/// other character is a single word gap.
pub proof fn lemma_code_shape(c: char)
    ensures
        is_recognized(c) ==> morse_code(c).len() > 0 && morse_code(c).last() == CWAlphabet::LetterSpace,
        !is_recognized(c) ==> morse_code(c) == seq![CWAlphabet::WordSpace],
{
}

/// How an element is written in dot-dash notation.
pub open spec fn notation_of(s: CWAlphabet) -> Seq<char> {
    match s {
        CWAlphabet::Dot => seq!['.'],
        CWAlphabet::Dash => seq!['-'],
        CWAlphabet::LetterSpace => seq![' '],
        CWAlphabet::WordSpace => seq![' ', '/', ' '],
    }
}

impl CWAlphabet {
    /// The element in dot-dash notation: a word gap reads " / ".
    pub fn notation(&self) -> (r: &'static str)
        ensures
            r@ == notation_of(*self),
    {
        match self {
            CWAlphabet::Dot => {
                proof {
                    reveal_strlit(".");
                }
                "."
            },
            CWAlphabet::Dash => {
                proof {
                    reveal_strlit("-");
                }
                "-"
            },
            CWAlphabet::LetterSpace => {
                proof {
                    reveal_strlit(" ");
                }
                " "
            },
            CWAlphabet::WordSpace => {
                proof {
                    reveal_strlit(" / ");
                }
                " / "
            },
        }
    }
}

/// Encodes one character. Letters must be upper case; every other character
/// becomes a word gap.
pub fn morse(i: &char) -> (r: Vec<CWAlphabet>)
    ensures
        r@ == morse_code(*i),
{
    match i {
        'A' => vec![CWAlphabet::Dot, CWAlphabet::Dash, CWAlphabet::LetterSpace],
        'B' => vec![CWAlphabet::Dash, CWAlphabet::Dot, CWAlphabet::Dot, CWAlphabet::Dot, CWAlphabet::LetterSpace],
        'C' => vec![CWAlphabet::Dash, CWAlphabet::Dot, CWAlphabet::Dash, CWAlphabet::Dot, CWAlphabet::LetterSpace],
        'D' => vec![CWAlphabet::Dash, CWAlphabet::Dot, CWAlphabet::Dot, CWAlphabet::LetterSpace],
        'E' => vec![CWAlphabet::Dot, CWAlphabet::LetterSpace],
        'F' => vec![CWAlphabet::Dot, CWAlphabet::Dot, CWAlphabet::Dash, CWAlphabet::Dot, CWAlphabet::LetterSpace],
        'G' => vec![CWAlphabet::Dash, CWAlphabet::Dash, CWAlphabet::Dot, CWAlphabet::LetterSpace],
        'H' => vec![CWAlphabet::Dot, CWAlphabet::Dot, CWAlphabet::Dot, CWAlphabet::Dot, CWAlphabet::LetterSpace],
        'I' => vec![CWAlphabet::Dot, CWAlphabet::Dot, CWAlphabet::LetterSpace],
        'J' => vec![CWAlphabet::Dot, CWAlphabet::Dash, CWAlphabet::Dash, CWAlphabet::Dash, CWAlphabet::LetterSpace],
        'K' => vec![CWAlphabet::Dash, CWAlphabet::Dot, CWAlphabet::Dash, CWAlphabet::LetterSpace],
        'L' => vec![CWAlphabet::Dot, CWAlphabet::Dash, CWAlphabet::Dot, CWAlphabet::Dot, CWAlphabet::LetterSpace],
        'M' => vec![CWAlphabet::Dash, CWAlphabet::Dash, CWAlphabet::LetterSpace],
        'N' => vec![CWAlphabet::Dash, CWAlphabet::Dot, CWAlphabet::LetterSpace],
        'O' => vec![CWAlphabet::Dash, CWAlphabet::Dash, CWAlphabet::Dash, CWAlphabet::LetterSpace],
        'P' => vec![CWAlphabet::Dot, CWAlphabet::Dash, CWAlphabet::Dash, CWAlphabet::Dot, CWAlphabet::LetterSpace],
        'Q' => vec![CWAlphabet::Dash, CWAlphabet::Dash, CWAlphabet::Dot, CWAlphabet::Dash, CWAlphabet::LetterSpace],
        'R' => vec![CWAlphabet::Dot, CWAlphabet::Dash, CWAlphabet::Dot, CWAlphabet::LetterSpace],
        'S' => vec![CWAlphabet::Dot, CWAlphabet::Dot, CWAlphabet::Dot, CWAlphabet::LetterSpace],
        'T' => vec![CWAlphabet::Dash, CWAlphabet::LetterSpace],
        'U' => vec![CWAlphabet::Dot, CWAlphabet::Dot, CWAlphabet::Dash, CWAlphabet::LetterSpace],
        'V' => vec![CWAlphabet::Dot, CWAlphabet::Dot, CWAlphabet::Dot, CWAlphabet::Dash, CWAlphabet::LetterSpace],
        'W' => vec![CWAlphabet::Dot, CWAlphabet::Dash, CWAlphabet::Dash, CWAlphabet::LetterSpace],
        'X' => vec![CWAlphabet::Dash, CWAlphabet::Dot, CWAlphabet::Dot, CWAlphabet::Dash, CWAlphabet::LetterSpace],
        'Y' => vec![CWAlphabet::Dash, CWAlphabet::Dot, CWAlphabet::Dash, CWAlphabet::Dash, CWAlphabet::LetterSpace],
        'Z' => vec![CWAlphabet::Dash, CWAlphabet::Dash, CWAlphabet::Dot, CWAlphabet::Dot, CWAlphabet::LetterSpace],
        '0' => vec![CWAlphabet::Dash, CWAlphabet::Dash, CWAlphabet::Dash, CWAlphabet::Dash, CWAlphabet::Dash, CWAlphabet::LetterSpace],
        '1' => vec![CWAlphabet::Dot, CWAlphabet::Dash, CWAlphabet::Dash, CWAlphabet::Dash, CWAlphabet::Dash, CWAlphabet::LetterSpace],
        '2' => vec![CWAlphabet::Dot, CWAlphabet::Dot, CWAlphabet::Dash, CWAlphabet::Dash, CWAlphabet::Dash, CWAlphabet::LetterSpace],
        '3' => vec![CWAlphabet::Dot, CWAlphabet::Dot, CWAlphabet::Dot, CWAlphabet::Dash, CWAlphabet::Dash, CWAlphabet::LetterSpace],
        '4' => vec![CWAlphabet::Dot, CWAlphabet::Dot, CWAlphabet::Dot, CWAlphabet::Dot, CWAlphabet::Dash, CWAlphabet::LetterSpace],
        '5' => vec![CWAlphabet::Dot, CWAlphabet::Dot, CWAlphabet::Dot, CWAlphabet::Dot, CWAlphabet::Dot, CWAlphabet::LetterSpace],
        '6' => vec![CWAlphabet::Dash, CWAlphabet::Dot, CWAlphabet::Dot, CWAlphabet::Dot, CWAlphabet::Dot, CWAlphabet::LetterSpace],
        '7' => vec![CWAlphabet::Dash, CWAlphabet::Dash, CWAlphabet::Dot, CWAlphabet::Dot, CWAlphabet::Dot, CWAlphabet::LetterSpace],
        '8' => vec![CWAlphabet::Dash, CWAlphabet::Dash, CWAlphabet::Dash, CWAlphabet::Dot, CWAlphabet::Dot, CWAlphabet::LetterSpace],
        '9' => vec![CWAlphabet::Dash, CWAlphabet::Dash, CWAlphabet::Dash, CWAlphabet::Dash, CWAlphabet::Dot, CWAlphabet::LetterSpace],
        _ => vec![CWAlphabet::WordSpace],
    }
}

/// What `str::to_uppercase` makes of a text.
pub uninterp spec fn upper_of(s: Seq<char>) -> Seq<char>;

/// Relies on `str::to_uppercase`: the characters of the upper-case form of
/// `s`, which depend on `s` alone; an empty text stays empty.
#[verifier::external_body]
pub(crate) fn uppercase_chars(s: &str) -> (r: Vec<char>)
    ensures
        r@ == upper_of(s@),
        s@.len() == 0 ==> r@.len() == 0,
{
    s.to_uppercase().chars().collect()
}

} // verus!
