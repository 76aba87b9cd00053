use vstd::prelude::*;

use crate::compose::{final_decomposition, vowel_decomposition};

verus! {

/// A jamo produced by a key of the two-beolsik layout.
#[derive(Clone, Copy, Debug, PartialEq, Eq, Structural)]
pub enum Jamo {
    Consonant(char),
    Vowel(char),
}

/// The jamo printed on an unshifted key of the two-beolsik layout.
pub open spec fn base_jamo(key: char) -> Option<Jamo> {
    match key {
        'r' => Some(Jamo::Consonant('ㄱ')),
        's' => Some(Jamo::Consonant('ㄴ')),
        'e' => Some(Jamo::Consonant('ㄷ')),
        'f' => Some(Jamo::Consonant('ㄹ')),
        'a' => Some(Jamo::Consonant('ㅁ')),
        'q' => Some(Jamo::Consonant('ㅂ')),
        't' => Some(Jamo::Consonant('ㅅ')),
        'd' => Some(Jamo::Consonant('ㅇ')),
        'w' => Some(Jamo::Consonant('ㅈ')),
        'c' => Some(Jamo::Consonant('ㅊ')),
        'z' => Some(Jamo::Consonant('ㅋ')),
        'x' => Some(Jamo::Consonant('ㅌ')),
        'v' => Some(Jamo::Consonant('ㅍ')),
        'g' => Some(Jamo::Consonant('ㅎ')),
        'k' => Some(Jamo::Vowel('ㅏ')),
        'o' => Some(Jamo::Vowel('ㅐ')),
        'i' => Some(Jamo::Vowel('ㅑ')),
        'j' => Some(Jamo::Vowel('ㅓ')),
        'p' => Some(Jamo::Vowel('ㅔ')),
        'u' => Some(Jamo::Vowel('ㅕ')),
        'h' => Some(Jamo::Vowel('ㅗ')),
        'y' => Some(Jamo::Vowel('ㅛ')),
        'n' => Some(Jamo::Vowel('ㅜ')),
        'b' => Some(Jamo::Vowel('ㅠ')),
        'm' => Some(Jamo::Vowel('ㅡ')),
        'l' => Some(Jamo::Vowel('ㅣ')),
        _ => None,
    }
}

/// The jamo that the shifted key changes to, for the keys whose shifted
/// jamo differs from the unshifted one (the tense consonants and two vowels).
pub open spec fn shifted_jamo(key: char) -> Option<Jamo> {
    match key {
        'R' => Some(Jamo::Consonant('ㄲ')),
        'E' => Some(Jamo::Consonant('ㄸ')),
        'Q' => Some(Jamo::Consonant('ㅃ')),
        'T' => Some(Jamo::Consonant('ㅆ')),
        'W' => Some(Jamo::Consonant('ㅉ')),
        'O' => Some(Jamo::Vowel('ㅒ')),
        'P' => Some(Jamo::Vowel('ㅖ')),
        _ => None,
    }
}

pub open spec fn is_ascii_upper(c: char) -> bool {
    'A' <= c <= 'Z'
}

pub open spec fn ascii_lower_of(c: char) -> char {
    ((c as u32) + 32) as char
}

/// The two-beolsik layout: an uppercase letter gives its shifted jamo where the
/// layout has one and otherwise the jamo of the lowercase key; other keys give
/// nothing.
pub open spec fn spec_map_key(key: char) -> Option<Jamo> {
    if is_ascii_upper(key) {
        match shifted_jamo(key) {
            Some(j) => Some(j),
            None => base_jamo(ascii_lower_of(key)),
        }
    } else {
        base_jamo(key)
    }
}

/// The jamo of a key are simple ones: no consonant key gives a compound final
/// and no vowel key gives a compound vowel.
pub proof fn lemma_key_jamo_are_simple(key: char)
    ensures
        spec_map_key(key) matches Some(Jamo::Consonant(c)) ==> final_decomposition(c) is None,
        spec_map_key(key) matches Some(Jamo::Vowel(v)) ==> vowel_decomposition(v) is None,
{
}

/// The two-beolsik layout (KS X 5002), key by key along the rows of the
/// keyboard: consonants on the left hand, vowels on the right. Shift gives
/// the tense consonants ㅃ ㅉ ㄸ ㄲ ㅆ on Q W E R T and the vowels ㅒ ㅖ on O P;
/// every other uppercase letter gives the jamo of its lowercase key, and keys
/// that are not letters give no jamo.
pub proof fn lemma_two_beolsik_layout(key: char)
    ensures
        spec_map_key('q') == Some(Jamo::Consonant('ㅂ')),
        spec_map_key('w') == Some(Jamo::Consonant('ㅈ')),
        spec_map_key('e') == Some(Jamo::Consonant('ㄷ')),
        spec_map_key('r') == Some(Jamo::Consonant('ㄱ')),
        spec_map_key('t') == Some(Jamo::Consonant('ㅅ')),
        spec_map_key('y') == Some(Jamo::Vowel('ㅛ')),
        spec_map_key('u') == Some(Jamo::Vowel('ㅕ')),
        spec_map_key('i') == Some(Jamo::Vowel('ㅑ')),
        spec_map_key('o') == Some(Jamo::Vowel('ㅐ')),
        spec_map_key('p') == Some(Jamo::Vowel('ㅔ')),
        spec_map_key('Q') == Some(Jamo::Consonant('ㅃ')),
        spec_map_key('W') == Some(Jamo::Consonant('ㅉ')),
        spec_map_key('E') == Some(Jamo::Consonant('ㄸ')),
        spec_map_key('R') == Some(Jamo::Consonant('ㄲ')),
        spec_map_key('T') == Some(Jamo::Consonant('ㅆ')),
        spec_map_key('Y') == Some(Jamo::Vowel('ㅛ')),
        spec_map_key('U') == Some(Jamo::Vowel('ㅕ')),
        spec_map_key('I') == Some(Jamo::Vowel('ㅑ')),
        spec_map_key('O') == Some(Jamo::Vowel('ㅒ')),
        spec_map_key('P') == Some(Jamo::Vowel('ㅖ')),
        spec_map_key('a') == Some(Jamo::Consonant('ㅁ')),
        spec_map_key('s') == Some(Jamo::Consonant('ㄴ')),
        spec_map_key('d') == Some(Jamo::Consonant('ㅇ')),
        spec_map_key('f') == Some(Jamo::Consonant('ㄹ')),
        spec_map_key('g') == Some(Jamo::Consonant('ㅎ')),
        spec_map_key('h') == Some(Jamo::Vowel('ㅗ')),
        spec_map_key('j') == Some(Jamo::Vowel('ㅓ')),
        spec_map_key('k') == Some(Jamo::Vowel('ㅏ')),
        spec_map_key('l') == Some(Jamo::Vowel('ㅣ')),
        spec_map_key('A') == Some(Jamo::Consonant('ㅁ')),
        spec_map_key('S') == Some(Jamo::Consonant('ㄴ')),
        spec_map_key('D') == Some(Jamo::Consonant('ㅇ')),
        spec_map_key('F') == Some(Jamo::Consonant('ㄹ')),
        spec_map_key('G') == Some(Jamo::Consonant('ㅎ')),
        spec_map_key('H') == Some(Jamo::Vowel('ㅗ')),
        spec_map_key('J') == Some(Jamo::Vowel('ㅓ')),
        spec_map_key('K') == Some(Jamo::Vowel('ㅏ')),
        spec_map_key('L') == Some(Jamo::Vowel('ㅣ')),
        spec_map_key('z') == Some(Jamo::Consonant('ㅋ')),
        spec_map_key('x') == Some(Jamo::Consonant('ㅌ')),
        spec_map_key('c') == Some(Jamo::Consonant('ㅊ')),
        spec_map_key('v') == Some(Jamo::Consonant('ㅍ')),
        spec_map_key('b') == Some(Jamo::Vowel('ㅠ')),
        spec_map_key('n') == Some(Jamo::Vowel('ㅜ')),
        spec_map_key('m') == Some(Jamo::Vowel('ㅡ')),
        spec_map_key('Z') == Some(Jamo::Consonant('ㅋ')),
        spec_map_key('X') == Some(Jamo::Consonant('ㅌ')),
        spec_map_key('C') == Some(Jamo::Consonant('ㅊ')),
        spec_map_key('V') == Some(Jamo::Consonant('ㅍ')),
        spec_map_key('B') == Some(Jamo::Vowel('ㅠ')),
        spec_map_key('N') == Some(Jamo::Vowel('ㅜ')),
        spec_map_key('M') == Some(Jamo::Vowel('ㅡ')),
        !('a' <= key <= 'z' || 'A' <= key <= 'Z') ==> spec_map_key(key) is None,
{
}

pub fn map_key(key: char) -> (r: Option<Jamo>)
    ensures
        r == spec_map_key(key),
{
    let jamo = match key {
        'r' => Jamo::Consonant('ㄱ'),
        'R' => Jamo::Consonant('ㄲ'),
        's' | 'S' => Jamo::Consonant('ㄴ'),
        'e' => Jamo::Consonant('ㄷ'),
        'E' => Jamo::Consonant('ㄸ'),
        'f' | 'F' => Jamo::Consonant('ㄹ'),
        'a' | 'A' => Jamo::Consonant('ㅁ'),
        'q' => Jamo::Consonant('ㅂ'),
        'Q' => Jamo::Consonant('ㅃ'),
        't' => Jamo::Consonant('ㅅ'),
        'T' => Jamo::Consonant('ㅆ'),
        'd' | 'D' => Jamo::Consonant('ㅇ'),
        'w' => Jamo::Consonant('ㅈ'),
        'W' => Jamo::Consonant('ㅉ'),
        'c' | 'C' => Jamo::Consonant('ㅊ'),
        'z' | 'Z' => Jamo::Consonant('ㅋ'),
        'x' | 'X' => Jamo::Consonant('ㅌ'),
        'v' | 'V' => Jamo::Consonant('ㅍ'),
        'g' | 'G' => Jamo::Consonant('ㅎ'),
        'k' | 'K' => Jamo::Vowel('ㅏ'),
        'o' => Jamo::Vowel('ㅐ'),
        'i' | 'I' => Jamo::Vowel('ㅑ'),
        'O' => Jamo::Vowel('ㅒ'),
        'j' | 'J' => Jamo::Vowel('ㅓ'),
        'p' => Jamo::Vowel('ㅔ'),
        'u' | 'U' => Jamo::Vowel('ㅕ'),
        'P' => Jamo::Vowel('ㅖ'),
        'h' | 'H' => Jamo::Vowel('ㅗ'),
        'y' | 'Y' => Jamo::Vowel('ㅛ'),
        'n' | 'N' => Jamo::Vowel('ㅜ'),
        'b' | 'B' => Jamo::Vowel('ㅠ'),
        'm' | 'M' => Jamo::Vowel('ㅡ'),
        'l' | 'L' => Jamo::Vowel('ㅣ'),
        _ => return None,
    };
    Some(jamo)
}

} // verus!
