use vstd::prelude::*;

verus! {

/// Initial consonants (choseong) in Unicode syllable order.
pub const CHOSEONG: [char; 19] = [
    'ㄱ', 'ㄲ', 'ㄴ', 'ㄷ', 'ㄸ', 'ㄹ', 'ㅁ', 'ㅂ', 'ㅃ', 'ㅅ', 'ㅆ', 'ㅇ', 'ㅈ', 'ㅉ', 'ㅊ', 'ㅋ',
    'ㅌ', 'ㅍ', 'ㅎ',
];

/// Medial vowels (jungseong) in Unicode syllable order.
pub const JUNGSEONG: [char; 21] = [
    'ㅏ', 'ㅐ', 'ㅑ', 'ㅒ', 'ㅓ', 'ㅔ', 'ㅕ', 'ㅖ', 'ㅗ', 'ㅘ', 'ㅙ', 'ㅚ', 'ㅛ', 'ㅜ', 'ㅝ', 'ㅞ',
    'ㅟ', 'ㅠ', 'ㅡ', 'ㅢ', 'ㅣ',
];

/// Final consonants (jongseong) in Unicode syllable order. Final index 0 means
/// "no final consonant", so the consonant at position `k` here has final index `k + 1`.
pub const JONGSEONG: [char; 27] = [
    'ㄱ', 'ㄲ', 'ㄳ', 'ㄴ', 'ㄵ', 'ㄶ', 'ㄷ', 'ㄹ', 'ㄺ', 'ㄻ', 'ㄼ', 'ㄽ', 'ㄾ', 'ㄿ', 'ㅀ', 'ㅁ',
    'ㅂ', 'ㅄ', 'ㅅ', 'ㅆ', 'ㅇ', 'ㅈ', 'ㅊ', 'ㅋ', 'ㅌ', 'ㅍ', 'ㅎ',
];

/// `i` is the first position at which `x` occurs in `s`.
pub open spec fn is_first_index<T>(s: Seq<T>, x: T, i: int) -> bool {
    &&& 0 <= i < s.len()
    &&& s[i] == x
    &&& forall|j: int| 0 <= j < i ==> s[j] != x
}

/// The first position of `x` in `s`, if `x` occurs in `s`.
pub open spec fn position_of<T>(s: Seq<T>, x: T) -> Option<int> {
    if exists|i: int| is_first_index(s, x, i) {
        Some(choose|i: int| is_first_index(s, x, i))
    } else {
        None
    }
}

/// `position_of` gives the first position where `x` occurs.
pub proof fn lemma_position_of_first<T>(s: Seq<T>, x: T, i: int)
    requires
        is_first_index(s, x, i),
    ensures
        position_of(s, x) == Some(i),
{
    let k = choose|k: int| is_first_index(s, x, k);
    assert(is_first_index(s, x, k));
    if k < i {
        assert(s[k] != x);
    } else if i < k {
        assert(s[i] != x);
    }
}

/// The initial consonants, as listed in `CHOSEONG`.
pub open spec fn is_initial_jamo(c: char) -> bool {
    match c {
        'ㄱ' | 'ㄲ' | 'ㄴ' | 'ㄷ' | 'ㄸ' | 'ㄹ' | 'ㅁ' | 'ㅂ'
        | 'ㅃ' | 'ㅅ' | 'ㅆ' | 'ㅇ' | 'ㅈ' | 'ㅉ' | 'ㅊ' | 'ㅋ'
        | 'ㅌ' | 'ㅍ' | 'ㅎ' => true,
        _ => false,
    }
}

/// The vowels, as listed in `JUNGSEONG`.
pub open spec fn is_vowel_jamo(c: char) -> bool {
    match c {
        'ㅏ' | 'ㅐ' | 'ㅑ' | 'ㅒ' | 'ㅓ' | 'ㅔ' | 'ㅕ' | 'ㅖ'
        | 'ㅗ' | 'ㅘ' | 'ㅙ' | 'ㅚ' | 'ㅛ' | 'ㅜ' | 'ㅝ' | 'ㅞ'
        | 'ㅟ' | 'ㅠ' | 'ㅡ' | 'ㅢ' | 'ㅣ' => true,
        _ => false,
    }
}

/// The final consonants, as listed in `JONGSEONG`.
pub open spec fn is_final_jamo(c: char) -> bool {
    match c {
        'ㄱ' | 'ㄲ' | 'ㄳ' | 'ㄴ' | 'ㄵ' | 'ㄶ' | 'ㄷ' | 'ㄹ'
        | 'ㄺ' | 'ㄻ' | 'ㄼ' | 'ㄽ' | 'ㄾ' | 'ㄿ' | 'ㅀ' | 'ㅁ'
        | 'ㅂ' | 'ㅄ' | 'ㅅ' | 'ㅆ' | 'ㅇ' | 'ㅈ' | 'ㅊ' | 'ㅋ'
        | 'ㅌ' | 'ㅍ' | 'ㅎ' => true,
        _ => false,
    }
}

proof fn lemma_position_exists<T>(s: Seq<T>, x: T, k: int)
    requires
        0 <= k < s.len(),
        s[k] == x,
    ensures
        position_of(s, x) is Some,
    decreases k,
{
    if exists|j: int| 0 <= j < k && s[j] == x {
        let j = choose|j: int| 0 <= j < k && s[j] == x;
        lemma_position_exists(s, x, j);
    } else {
        assert(is_first_index(s, x, k));
    }
}

/// The entries of the three tables, one by one.
proof fn lemma_table_entries()
    ensures
        CHOSEONG@.len() == 19,
        CHOSEONG@[0] == 'ㄱ',
        CHOSEONG@[1] == 'ㄲ',
        CHOSEONG@[2] == 'ㄴ',
        CHOSEONG@[3] == 'ㄷ',
        CHOSEONG@[4] == 'ㄸ',
        CHOSEONG@[5] == 'ㄹ',
        CHOSEONG@[6] == 'ㅁ',
        CHOSEONG@[7] == 'ㅂ',
        CHOSEONG@[8] == 'ㅃ',
        CHOSEONG@[9] == 'ㅅ',
        CHOSEONG@[10] == 'ㅆ',
        CHOSEONG@[11] == 'ㅇ',
        CHOSEONG@[12] == 'ㅈ',
        CHOSEONG@[13] == 'ㅉ',
        CHOSEONG@[14] == 'ㅊ',
        CHOSEONG@[15] == 'ㅋ',
        CHOSEONG@[16] == 'ㅌ',
        CHOSEONG@[17] == 'ㅍ',
        CHOSEONG@[18] == 'ㅎ',
        JUNGSEONG@.len() == 21,
        JUNGSEONG@[0] == 'ㅏ',
        JUNGSEONG@[1] == 'ㅐ',
        JUNGSEONG@[2] == 'ㅑ',
        JUNGSEONG@[3] == 'ㅒ',
        JUNGSEONG@[4] == 'ㅓ',
        JUNGSEONG@[5] == 'ㅔ',
        JUNGSEONG@[6] == 'ㅕ',
        JUNGSEONG@[7] == 'ㅖ',
        JUNGSEONG@[8] == 'ㅗ',
        JUNGSEONG@[9] == 'ㅘ',
        JUNGSEONG@[10] == 'ㅙ',
        JUNGSEONG@[11] == 'ㅚ',
        JUNGSEONG@[12] == 'ㅛ',
        JUNGSEONG@[13] == 'ㅜ',
        JUNGSEONG@[14] == 'ㅝ',
        JUNGSEONG@[15] == 'ㅞ',
        JUNGSEONG@[16] == 'ㅟ',
        JUNGSEONG@[17] == 'ㅠ',
        JUNGSEONG@[18] == 'ㅡ',
        JUNGSEONG@[19] == 'ㅢ',
        JUNGSEONG@[20] == 'ㅣ',
        JONGSEONG@.len() == 27,
        JONGSEONG@[0] == 'ㄱ',
        JONGSEONG@[1] == 'ㄲ',
        JONGSEONG@[2] == 'ㄳ',
        JONGSEONG@[3] == 'ㄴ',
        JONGSEONG@[4] == 'ㄵ',
        JONGSEONG@[5] == 'ㄶ',
        JONGSEONG@[6] == 'ㄷ',
        JONGSEONG@[7] == 'ㄹ',
        JONGSEONG@[8] == 'ㄺ',
        JONGSEONG@[9] == 'ㄻ',
        JONGSEONG@[10] == 'ㄼ',
        JONGSEONG@[11] == 'ㄽ',
        JONGSEONG@[12] == 'ㄾ',
        JONGSEONG@[13] == 'ㄿ',
        JONGSEONG@[14] == 'ㅀ',
        JONGSEONG@[15] == 'ㅁ',
        JONGSEONG@[16] == 'ㅂ',
        JONGSEONG@[17] == 'ㅄ',
        JONGSEONG@[18] == 'ㅅ',
        JONGSEONG@[19] == 'ㅆ',
        JONGSEONG@[20] == 'ㅇ',
        JONGSEONG@[21] == 'ㅈ',
        JONGSEONG@[22] == 'ㅊ',
        JONGSEONG@[23] == 'ㅋ',
        JONGSEONG@[24] == 'ㅌ',
        JONGSEONG@[25] == 'ㅍ',
        JONGSEONG@[26] == 'ㅎ',
{
}

/// A jamo has an index in its table exactly when it is listed there.
pub proof fn lemma_table_membership(c: char)
    ensures
        spec_choseong_index(c) is Some <==> is_initial_jamo(c),
        spec_jungseong_index(c) is Some <==> is_vowel_jamo(c),
        spec_jongseong_index(c) is Some <==> is_final_jamo(c),
{
    lemma_table_entries();
    if let Some(k) = position_of(CHOSEONG@, c) {
        assert(is_first_index(CHOSEONG@, c, k));
        assert(k == 0 || k == 1 || k == 2 || k == 3 || k == 4 || k == 5 || k == 6 || k == 7 || k == 8 || k == 9 || k == 10 || k == 11 || k == 12 || k == 13 || k == 14 || k == 15 || k == 16 || k == 17 || k == 18);
    }
    if let Some(k) = position_of(JUNGSEONG@, c) {
        assert(is_first_index(JUNGSEONG@, c, k));
        assert(k == 0 || k == 1 || k == 2 || k == 3 || k == 4 || k == 5 || k == 6 || k == 7 || k == 8 || k == 9 || k == 10 || k == 11 || k == 12 || k == 13 || k == 14 || k == 15 || k == 16 || k == 17 || k == 18 || k == 19 || k == 20);
    }
    if let Some(k) = position_of(JONGSEONG@, c) {
        assert(is_first_index(JONGSEONG@, c, k));
        assert(k == 0 || k == 1 || k == 2 || k == 3 || k == 4 || k == 5 || k == 6 || k == 7 || k == 8 || k == 9 || k == 10 || k == 11 || k == 12 || k == 13 || k == 14 || k == 15 || k == 16 || k == 17 || k == 18 || k == 19 || k == 20 || k == 21 || k == 22 || k == 23 || k == 24 || k == 25 || k == 26);
    }
    if is_initial_jamo(c) {
        let k = choose|k: int| 0 <= k < 19 && CHOSEONG@[k] == c;
        lemma_position_exists(CHOSEONG@, c, k);
    }
    if is_vowel_jamo(c) {
        let k = choose|k: int| 0 <= k < 21 && JUNGSEONG@[k] == c;
        lemma_position_exists(JUNGSEONG@, c, k);
    }
    if is_final_jamo(c) {
        let k = choose|k: int| 0 <= k < 27 && JONGSEONG@[k] == c;
        lemma_position_exists(JONGSEONG@, c, k);
    }
}

/// Index of an initial consonant in the choseong table.
pub open spec fn spec_choseong_index(jamo: char) -> Option<int> {
    position_of(CHOSEONG@, jamo)
}

/// Index of a vowel in the jungseong table.
pub open spec fn spec_jungseong_index(jamo: char) -> Option<int> {
    position_of(JUNGSEONG@, jamo)
}

/// Final index of a final consonant (1-based; 0 stands for "no final").
pub open spec fn spec_jongseong_index(jamo: char) -> Option<int> {
    match position_of(JONGSEONG@, jamo) {
        Some(k) => Some(k + 1),
        None => None,
    }
}

/// The code point of the precomposed syllable with the given jamo indices.
pub open spec fn syllable_code(l: int, v: int, t: int) -> int {
    0xAC00 + (l * 21 + v) * 28 + t
}

/// The precomposed syllable for an initial, a vowel and an optional final,
/// when each of them belongs to its table.
pub open spec fn spec_compose_syllable(initial: char, vowel: char, final_jamo: Option<char>) -> Option<char> {
    let t = match final_jamo {
        Some(c) => spec_jongseong_index(c),
        None => Some(0int),
    };
    match (spec_choseong_index(initial), spec_jungseong_index(vowel), t) {
        (Some(l), Some(v), Some(t)) => Some(syllable_code(l, v, t) as char),
        _ => None,
    }
}

/// A Hangul character: a compatibility jamo (U+3131 to U+318E) or a
/// precomposed syllable (U+AC00 to U+D7A3).
pub open spec fn is_hangul(c: char) -> bool {
    (0x3131 <= (c as u32) <= 0x318E) || (0xAC00 <= (c as u32) <= 0xD7A3)
}

/// Text made of Hangul characters only.
pub open spec fn hangul_text(t: Seq<char>) -> bool {
    forall|i: int| 0 <= i < t.len() ==> is_hangul(#[trigger] t[i])
}

/// Every composed syllable lies in the Hangul Syllables block, U+AC00 to U+D7A3.
pub proof fn lemma_composed_syllables_are_hangul(initial: char, vowel: char, final_jamo: Option<char>)
    ensures
        spec_compose_syllable(initial, vowel, final_jamo) matches Some(c) ==> 0xAC00 <= (c as u32)
            <= 0xD7A3,
{
    let t = match final_jamo {
        Some(c) => spec_jongseong_index(c),
        None => Some(0int),
    };
    if let (Some(l), Some(v), Some(t)) = (spec_choseong_index(initial), spec_jungseong_index(vowel), t) {
        let k = syllable_code(l, v, t);
        assert(0 <= (l * 21 + v) * 28 + t <= 11171) by (nonlinear_arith)
            requires
                0 <= l < 19,
                0 <= v < 21,
                0 <= t < 28,
        ;
        assert((k as char) as u32 == k);
    }
}

/// The syllables follow the Unicode Standard's arrangement (section 3.12):
/// the syllable of the initial at index `l`, the vowel at index `v` and the
/// final at index `t` (0 for none) is U+AC00 + 588 l + 28 v + t, so the
/// finals count in ones, the vowels in steps of 28 and the initials in steps
/// of 588 = 21 × 28.
pub proof fn lemma_syllable_arrangement(initial: char, vowel: char, final_jamo: Option<char>)
    ensures
        spec_compose_syllable(initial, vowel, final_jamo) matches Some(c) ==> {
            let t: int = match final_jamo {
                Some(f) => spec_jongseong_index(f)->0,
                None => 0,
            };
            c as u32 == 0xAC00 + 588 * spec_choseong_index(initial)->0 + 28 * spec_jungseong_index(
                vowel,
            )->0 + t
        },
{
    if let Some(c) = spec_compose_syllable(initial, vowel, final_jamo) {
        lemma_composed_syllables_are_hangul(initial, vowel, final_jamo);
        let l = spec_choseong_index(initial)->0;
        let v = spec_jungseong_index(vowel)->0;
        let t: int = match final_jamo {
            Some(f) => spec_jongseong_index(f)->0,
            None => 0,
        };
        assert((l * 21 + v) * 28 + t == 588 * l + 28 * v + t) by (nonlinear_arith);
        assert(0 <= (l * 21 + v) * 28 + t <= 11171) by (nonlinear_arith)
            requires
                0 <= l < 19,
                0 <= v < 21,
                0 <= t < 28,
        ;
        assert((syllable_code(l, v, t) as char) as u32 == syllable_code(l, v, t));
    }
}

proof fn lemma_position_of_is_first<T>(s: Seq<T>, x: T)
    ensures
        position_of(s, x) matches Some(i) ==> is_first_index(s, x, i),
{
}

/// A syllable determines the jamo it is composed of: different initials,
/// vowels or finals never compose into the same syllable.
pub proof fn lemma_compose_syllable_injective(
    i1: char,
    v1: char,
    f1: Option<char>,
    i2: char,
    v2: char,
    f2: Option<char>,
)
    requires
        spec_compose_syllable(i1, v1, f1) is Some,
        spec_compose_syllable(i1, v1, f1) == spec_compose_syllable(i2, v2, f2),
    ensures
        i1 == i2,
        v1 == v2,
        f1 == f2,
{
    lemma_position_of_is_first(CHOSEONG@, i1);
    lemma_position_of_is_first(CHOSEONG@, i2);
    lemma_position_of_is_first(JUNGSEONG@, v1);
    lemma_position_of_is_first(JUNGSEONG@, v2);
    if let Some(c) = f1 {
        lemma_position_of_is_first(JONGSEONG@, c);
    }
    if let Some(c) = f2 {
        lemma_position_of_is_first(JONGSEONG@, c);
    }
    let l1 = spec_choseong_index(i1)->0;
    let l2 = spec_choseong_index(i2)->0;
    let m1 = spec_jungseong_index(v1)->0;
    let m2 = spec_jungseong_index(v2)->0;
    let t1: int = match f1 {
        Some(c) => spec_jongseong_index(c)->0,
        None => 0,
    };
    let t2: int = match f2 {
        Some(c) => spec_jongseong_index(c)->0,
        None => 0,
    };
    let k1 = syllable_code(l1, m1, t1);
    let k2 = syllable_code(l2, m2, t2);
    lemma_composed_syllables_are_hangul(i1, v1, f1);
    assert(0 <= (l1 * 21 + m1) * 28 + t1 <= 11171 && 0 <= (l2 * 21 + m2) * 28 + t2 <= 11171) by (nonlinear_arith)
        requires
            0 <= l1 < 19,
            0 <= m1 < 21,
            0 <= t1 < 28,
            0 <= l2 < 19,
            0 <= m2 < 21,
            0 <= t2 < 28,
    ;
    assert((k1 as char) as u32 == k1);
    assert((k2 as char) as u32 == k2);
    assert(k1 == k2);
    assert(l1 == l2 && m1 == m2 && t1 == t2) by (nonlinear_arith)
        requires
            0 <= l1 < 19,
            0 <= m1 < 21,
            0 <= t1 < 28,
            0 <= l2 < 19,
            0 <= m2 < 21,
            0 <= t2 < 28,
            (l1 * 21 + m1) * 28 + t1 == (l2 * 21 + m2) * 28 + t2,
    ;
}

fn position_in(table: &[char], jamo: char) -> (r: Option<usize>)
    ensures
        match r {
            Some(i) => position_of(table@, jamo) == Some(i as int),
            None => position_of(table@, jamo) is None,
        },
{
    let mut i: usize = 0;
    while i < table.len()
        invariant
            i <= table@.len(),
            forall|j: int| 0 <= j < i ==> table@[j] != jamo,
        decreases table@.len() - i,
    {
        if table[i] == jamo {
            proof {
                lemma_position_of_first(table@, jamo, i as int);
            }
            return Some(i);
        }
        i = i + 1;
    }
    None
}

pub fn choseong_index(jamo: char) -> (r: Option<usize>)
    ensures
        r matches Some(i) ==> spec_choseong_index(jamo) == Some(i as int),
        r is None ==> spec_choseong_index(jamo) is None,
{
    position_in(&CHOSEONG, jamo)
}

pub fn jungseong_index(jamo: char) -> (r: Option<usize>)
    ensures
        r matches Some(i) ==> spec_jungseong_index(jamo) == Some(i as int),
        r is None ==> spec_jungseong_index(jamo) is None,
{
    position_in(&JUNGSEONG, jamo)
}

pub fn jongseong_index(jamo: char) -> (r: Option<usize>)
    ensures
        r matches Some(i) ==> spec_jongseong_index(jamo) == Some(i as int),
        r is None ==> spec_jongseong_index(jamo) is None,
{
    match position_in(&JONGSEONG, jamo) {
        Some(k) => Some(k + 1),
        None => None,
    }
}

fn syllable_from_code(code: u32) -> (r: Option<char>)
    requires
        0xAC00 <= code < 0xD800,
    ensures
        r == Some(code as char),
{
    let res = char::from_u32(code);
    match res {
        Some(ch) => {
            assert((code as char) as u32 == code);
            proof {
                crate::text::lemma_char_code_injective(ch, code as char);
            }
        },
        None => {},
    }
    res
}

pub fn compose_syllable(initial: char, vowel: char, final_jamo: Option<char>) -> (r: Option<char>)
    ensures
        r == spec_compose_syllable(initial, vowel, final_jamo),
{
    let l = choseong_index(initial)?;
    let v = jungseong_index(vowel)?;
    let t = match final_jamo {
        Some(c) => jongseong_index(c)?,
        None => 0,
    };
    assert(l < 19 && v < 21 && t < 28);
    let lv: u32 = l as u32 * 21 + v as u32;
    assert(lv * 28 + t <= 11171) by (nonlinear_arith)
        requires
            lv <= 398,
            t < 28,
    ;
    let code: u32 = 0xAC00 + (lv * 28 + t as u32);
    assert(code == syllable_code(l as int, v as int, t as int));
    syllable_from_code(code)
}

} // verus!
