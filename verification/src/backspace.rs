use vstd::prelude::*;

use crate::compose::{decompose_final, decompose_vowel};
use crate::composer::{lemma_view_is_fields, spec_backspace, HangulComposer, InputResult};

verus! {

/// Removes the last jamo typed into `composer`: the second half of a compound
/// final or vowel, else the final, the vowel, or the initial.
pub fn backspace(composer: &mut HangulComposer) -> (r: InputResult)
    ensures
        (final(composer)@, r@) == spec_backspace(old(composer)@),
{
    proof {
        lemma_view_is_fields(*composer);
    }
    if let Some(final_jamo) = composer.final_jamo {
        composer.final_jamo = match decompose_final(final_jamo) {
            Some((left, _)) => Some(left),
            None => None,
        };
        proof {
            lemma_view_is_fields(*composer);
        }
        return composer.changed();
    }
    if let Some(vowel) = composer.vowel {
        composer.vowel = match decompose_vowel(vowel) {
            Some((left, _)) => Some(left),
            None => None,
        };
        proof {
            lemma_view_is_fields(*composer);
        }
        return composer.changed();
    }
    if composer.initial.take().is_some() {
        proof {
            lemma_view_is_fields(*composer);
        }
        return InputResult::Clear;
    }
    proof {
        lemma_view_is_fields(*composer);
    }
    InputResult::Clear
}

} // verus!
