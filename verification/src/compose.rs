use vstd::prelude::*;

verus! {

/// The compound vowel that `left` followed by `right` forms, if any.
pub open spec fn vowel_combination(left: char, right: char) -> Option<char> {
    match (left, right) {
        ('ㅗ', 'ㅏ') => Some('ㅘ'),
        ('ㅗ', 'ㅐ') => Some('ㅙ'),
        ('ㅗ', 'ㅣ') => Some('ㅚ'),
        ('ㅜ', 'ㅓ') => Some('ㅝ'),
        ('ㅜ', 'ㅔ') => Some('ㅞ'),
        ('ㅜ', 'ㅣ') => Some('ㅟ'),
        ('ㅡ', 'ㅣ') => Some('ㅢ'),
        _ => None,
    }
}

/// The compound final consonant that `left` followed by `right` forms, if any.
pub open spec fn final_combination(left: char, right: char) -> Option<char> {
    match (left, right) {
        ('ㄱ', 'ㅅ') => Some('ㄳ'),
        ('ㄴ', 'ㅈ') => Some('ㄵ'),
        ('ㄴ', 'ㅎ') => Some('ㄶ'),
        ('ㄹ', 'ㄱ') => Some('ㄺ'),
        ('ㄹ', 'ㅁ') => Some('ㄻ'),
        ('ㄹ', 'ㅂ') => Some('ㄼ'),
        ('ㄹ', 'ㅅ') => Some('ㄽ'),
        ('ㄹ', 'ㅌ') => Some('ㄾ'),
        ('ㄹ', 'ㅍ') => Some('ㄿ'),
        ('ㄹ', 'ㅎ') => Some('ㅀ'),
        ('ㅂ', 'ㅅ') => Some('ㅄ'),
        _ => None,
    }
}

/// The pair a compound vowel splits into: the inverse of `vowel_combination`.
pub open spec fn vowel_decomposition(vowel: char) -> Option<(char, char)> {
    if exists|l: char, r: char| vowel_combination(l, r) == Some(vowel) {
        Some(choose|p: (char, char)| vowel_combination(p.0, p.1) == Some(vowel))
    } else {
        None
    }
}

/// The pair a compound final splits into: the inverse of `final_combination`.
pub open spec fn final_decomposition(final_jamo: char) -> Option<(char, char)> {
    if exists|l: char, r: char| final_combination(l, r) == Some(final_jamo) {
        Some(choose|p: (char, char)| final_combination(p.0, p.1) == Some(final_jamo))
    } else {
        None
    }
}

/// Two vowel pairs that combine to the same compound are the same pair.
pub proof fn lemma_vowel_combination_injective(l1: char, r1: char, l2: char, r2: char)
    requires
        vowel_combination(l1, r1) is Some,
        vowel_combination(l1, r1) == vowel_combination(l2, r2),
    ensures
        l1 == l2 && r1 == r2,
{
}

/// Two final pairs that combine to the same compound are the same pair.
pub proof fn lemma_final_combination_injective(l1: char, r1: char, l2: char, r2: char)
    requires
        final_combination(l1, r1) is Some,
        final_combination(l1, r1) == final_combination(l2, r2),
    ensures
        l1 == l2 && r1 == r2,
{
}

proof fn lemma_vowel_decomposition_of(l: char, r: char)
    requires
        vowel_combination(l, r) is Some,
    ensures
        vowel_decomposition(vowel_combination(l, r)->0) == Some((l, r)),
{
    let c = vowel_combination(l, r)->0;
    assert(vowel_combination((l, r).0, (l, r).1) == Some(c));
    let p = choose|p: (char, char)| vowel_combination(p.0, p.1) == Some(c);
    lemma_vowel_combination_injective(l, r, p.0, p.1);
}

proof fn lemma_final_decomposition_of(l: char, r: char)
    requires
        final_combination(l, r) is Some,
    ensures
        final_decomposition(final_combination(l, r)->0) == Some((l, r)),
{
    let c = final_combination(l, r)->0;
    assert(final_combination((l, r).0, (l, r).1) == Some(c));
    let p = choose|p: (char, char)| final_combination(p.0, p.1) == Some(c);
    lemma_final_combination_injective(l, r, p.0, p.1);
}

/// Splitting a combined vowel gives back the pair it was combined from, and
/// combining the halves of a split vowel gives back the vowel.
pub proof fn lemma_vowel_round_trip(left: char, right: char, vowel: char)
    ensures
        vowel_combination(left, right) == Some(vowel) ==> vowel_decomposition(vowel) == Some((left, right)),
        vowel_decomposition(vowel) matches Some(p) ==> vowel_combination(p.0, p.1) == Some(vowel),
{
    if vowel_combination(left, right) == Some(vowel) {
        lemma_vowel_decomposition_of(left, right);
    }
}

/// Splitting a combined final gives back the pair it was combined from, and
/// combining the halves of a split final gives back the final.
pub proof fn lemma_final_round_trip(left: char, right: char, final_jamo: char)
    ensures
        final_combination(left, right) == Some(final_jamo) ==> final_decomposition(final_jamo) == Some((left, right)),
        final_decomposition(final_jamo) matches Some(p) ==> final_combination(p.0, p.1) == Some(final_jamo),
{
    if final_combination(left, right) == Some(final_jamo) {
        lemma_final_decomposition_of(left, right);
    }
}

/// The compound vowels are those of Unicode's Hangul compatibility jamo,
/// each formed from the two jamo it is named after, and no other pair
/// combines:
/// - U+3158 HANGUL LETTER WA: U+3157 then U+314F
/// - U+3159 HANGUL LETTER WAE: U+3157 then U+3150
/// - U+315A HANGUL LETTER OE: U+3157 then U+3163
/// - U+315D HANGUL LETTER WEO: U+315C then U+3153
/// - U+315E HANGUL LETTER WE: U+315C then U+3154
/// - U+315F HANGUL LETTER WI: U+315C then U+3163
/// - U+3162 HANGUL LETTER YI: U+3161 then U+3163
pub proof fn lemma_compound_vowels_by_code_point(left: char, right: char)
    ensures
        vowel_combination(left, right) is Some ==> {
            ||| left as u32 == 0x3157 && right as u32 == 0x314F
            ||| left as u32 == 0x3157 && right as u32 == 0x3150
            ||| left as u32 == 0x3157 && right as u32 == 0x3163
            ||| left as u32 == 0x315C && right as u32 == 0x3153
            ||| left as u32 == 0x315C && right as u32 == 0x3154
            ||| left as u32 == 0x315C && right as u32 == 0x3163
            ||| left as u32 == 0x3161 && right as u32 == 0x3163
        },
        left as u32 == 0x3157 && right as u32 == 0x314F ==> (vowel_combination(left, right) matches Some(c)
            && c as u32 == 0x3158),
        left as u32 == 0x3157 && right as u32 == 0x3150 ==> (vowel_combination(left, right) matches Some(c)
            && c as u32 == 0x3159),
        left as u32 == 0x3157 && right as u32 == 0x3163 ==> (vowel_combination(left, right) matches Some(c)
            && c as u32 == 0x315A),
        left as u32 == 0x315C && right as u32 == 0x3153 ==> (vowel_combination(left, right) matches Some(c)
            && c as u32 == 0x315D),
        left as u32 == 0x315C && right as u32 == 0x3154 ==> (vowel_combination(left, right) matches Some(c)
            && c as u32 == 0x315E),
        left as u32 == 0x315C && right as u32 == 0x3163 ==> (vowel_combination(left, right) matches Some(c)
            && c as u32 == 0x315F),
        left as u32 == 0x3161 && right as u32 == 0x3163 ==> (vowel_combination(left, right) matches Some(c)
            && c as u32 == 0x3162),
{
}

/// The compound final consonants are those of Unicode's Hangul compatibility jamo,
/// each formed from the two jamo it is named after, and no other pair
/// combines:
/// - U+3133 HANGUL LETTER KIYEOK-SIOS: U+3131 then U+3145
/// - U+3135 HANGUL LETTER NIEUN-CIEUC: U+3134 then U+3148
/// - U+3136 HANGUL LETTER NIEUN-HIEUH: U+3134 then U+314E
/// - U+313A HANGUL LETTER RIEUL-KIYEOK: U+3139 then U+3131
/// - U+313B HANGUL LETTER RIEUL-MIEUM: U+3139 then U+3141
/// - U+313C HANGUL LETTER RIEUL-PIEUP: U+3139 then U+3142
/// - U+313D HANGUL LETTER RIEUL-SIOS: U+3139 then U+3145
/// - U+313E HANGUL LETTER RIEUL-THIEUTH: U+3139 then U+314C
/// - U+313F HANGUL LETTER RIEUL-PHIEUPH: U+3139 then U+314D
/// - U+3140 HANGUL LETTER RIEUL-HIEUH: U+3139 then U+314E
/// - U+3144 HANGUL LETTER PIEUP-SIOS: U+3142 then U+3145
pub proof fn lemma_compound_finals_by_code_point(left: char, right: char)
    ensures
        final_combination(left, right) is Some ==> {
            ||| left as u32 == 0x3131 && right as u32 == 0x3145
            ||| left as u32 == 0x3134 && right as u32 == 0x3148
            ||| left as u32 == 0x3134 && right as u32 == 0x314E
            ||| left as u32 == 0x3139 && right as u32 == 0x3131
            ||| left as u32 == 0x3139 && right as u32 == 0x3141
            ||| left as u32 == 0x3139 && right as u32 == 0x3142
            ||| left as u32 == 0x3139 && right as u32 == 0x3145
            ||| left as u32 == 0x3139 && right as u32 == 0x314C
            ||| left as u32 == 0x3139 && right as u32 == 0x314D
            ||| left as u32 == 0x3139 && right as u32 == 0x314E
            ||| left as u32 == 0x3142 && right as u32 == 0x3145
        },
        left as u32 == 0x3131 && right as u32 == 0x3145 ==> (final_combination(left, right) matches Some(c)
            && c as u32 == 0x3133),
        left as u32 == 0x3134 && right as u32 == 0x3148 ==> (final_combination(left, right) matches Some(c)
            && c as u32 == 0x3135),
        left as u32 == 0x3134 && right as u32 == 0x314E ==> (final_combination(left, right) matches Some(c)
            && c as u32 == 0x3136),
        left as u32 == 0x3139 && right as u32 == 0x3131 ==> (final_combination(left, right) matches Some(c)
            && c as u32 == 0x313A),
        left as u32 == 0x3139 && right as u32 == 0x3141 ==> (final_combination(left, right) matches Some(c)
            && c as u32 == 0x313B),
        left as u32 == 0x3139 && right as u32 == 0x3142 ==> (final_combination(left, right) matches Some(c)
            && c as u32 == 0x313C),
        left as u32 == 0x3139 && right as u32 == 0x3145 ==> (final_combination(left, right) matches Some(c)
            && c as u32 == 0x313D),
        left as u32 == 0x3139 && right as u32 == 0x314C ==> (final_combination(left, right) matches Some(c)
            && c as u32 == 0x313E),
        left as u32 == 0x3139 && right as u32 == 0x314D ==> (final_combination(left, right) matches Some(c)
            && c as u32 == 0x313F),
        left as u32 == 0x3139 && right as u32 == 0x314E ==> (final_combination(left, right) matches Some(c)
            && c as u32 == 0x3140),
        left as u32 == 0x3142 && right as u32 == 0x3145 ==> (final_combination(left, right) matches Some(c)
            && c as u32 == 0x3144),
{
}

pub fn combine_vowel(left: char, right: char) -> (r: Option<char>)
    ensures
        r == vowel_combination(left, right),
{
    match (left, right) {
        ('ㅗ', 'ㅏ') => Some('ㅘ'),
        ('ㅗ', 'ㅐ') => Some('ㅙ'),
        ('ㅗ', 'ㅣ') => Some('ㅚ'),
        ('ㅜ', 'ㅓ') => Some('ㅝ'),
        ('ㅜ', 'ㅔ') => Some('ㅞ'),
        ('ㅜ', 'ㅣ') => Some('ㅟ'),
        ('ㅡ', 'ㅣ') => Some('ㅢ'),
        _ => None,
    }
}

pub fn decompose_vowel(vowel: char) -> (r: Option<(char, char)>)
    ensures
        r == vowel_decomposition(vowel),
{
    let r = match vowel {
        'ㅘ' => Some(('ㅗ', 'ㅏ')),
        'ㅙ' => Some(('ㅗ', 'ㅐ')),
        'ㅚ' => Some(('ㅗ', 'ㅣ')),
        'ㅝ' => Some(('ㅜ', 'ㅓ')),
        'ㅞ' => Some(('ㅜ', 'ㅔ')),
        'ㅟ' => Some(('ㅜ', 'ㅣ')),
        'ㅢ' => Some(('ㅡ', 'ㅣ')),
        _ => None,
    };
    proof {
        match r {
            Some(p) => lemma_vowel_decomposition_of(p.0, p.1),
            None => {
                assert(!exists|l: char, r: char| vowel_combination(l, r) == Some(vowel));
            },
        }
    }
    r
}

pub fn combine_final(left: char, right: char) -> (r: Option<char>)
    ensures
        r == final_combination(left, right),
{
    match (left, right) {
        ('ㄱ', 'ㅅ') => Some('ㄳ'),
        ('ㄴ', 'ㅈ') => Some('ㄵ'),
        ('ㄴ', 'ㅎ') => Some('ㄶ'),
        ('ㄹ', 'ㄱ') => Some('ㄺ'),
        ('ㄹ', 'ㅁ') => Some('ㄻ'),
        ('ㄹ', 'ㅂ') => Some('ㄼ'),
        ('ㄹ', 'ㅅ') => Some('ㄽ'),
        ('ㄹ', 'ㅌ') => Some('ㄾ'),
        ('ㄹ', 'ㅍ') => Some('ㄿ'),
        ('ㄹ', 'ㅎ') => Some('ㅀ'),
        ('ㅂ', 'ㅅ') => Some('ㅄ'),
        _ => None,
    }
}

pub fn decompose_final(final_jamo: char) -> (r: Option<(char, char)>)
    ensures
        r == final_decomposition(final_jamo),
{
    let r = match final_jamo {
        'ㄳ' => Some(('ㄱ', 'ㅅ')),
        'ㄵ' => Some(('ㄴ', 'ㅈ')),
        'ㄶ' => Some(('ㄴ', 'ㅎ')),
        'ㄺ' => Some(('ㄹ', 'ㄱ')),
        'ㄻ' => Some(('ㄹ', 'ㅁ')),
        'ㄼ' => Some(('ㄹ', 'ㅂ')),
        'ㄽ' => Some(('ㄹ', 'ㅅ')),
        'ㄾ' => Some(('ㄹ', 'ㅌ')),
        'ㄿ' => Some(('ㄹ', 'ㅍ')),
        'ㅀ' => Some(('ㄹ', 'ㅎ')),
        'ㅄ' => Some(('ㅂ', 'ㅅ')),
        _ => None,
    };
    proof {
        match r {
            Some(p) => lemma_final_decomposition_of(p.0, p.1),
            None => {
                assert(!exists|l: char, r: char| final_combination(l, r) == Some(final_jamo));
            },
        }
    }
    r
}

} // verus!
