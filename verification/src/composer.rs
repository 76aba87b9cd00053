use vstd::prelude::*;

use crate::compose::{
    combine_final, combine_vowel, decompose_final, final_combination, final_decomposition,
    vowel_combination, vowel_decomposition,
};
use crate::compose::{lemma_final_round_trip, lemma_vowel_round_trip};
use crate::keymap_2beolsik::{lemma_key_jamo_are_simple, map_key, spec_map_key, Jamo};
use crate::syllable::{
    compose_syllable, hangul_text, is_final_jamo, is_hangul, is_initial_jamo, is_vowel_jamo,
    jongseong_index, lemma_composed_syllables_are_hangul, lemma_table_membership,
    spec_compose_syllable, spec_jongseong_index,
};

verus! {

/// What a key press or a backspace did to the composition.
#[derive(Clone, Debug, Eq, PartialEq)]
pub enum InputResult {
    PreeditChanged { preedit: String },
    Commit { text: String },
    CommitAndPreedit { commit: String, preedit: String },
    Clear,
}

/// `InputResult` with its texts as character sequences.
pub enum InputResultView {
    PreeditChanged(Seq<char>),
    Commit(Seq<char>),
    CommitAndPreedit(Seq<char>, Seq<char>),
    Clear,
}

impl View for InputResult {
    type V = InputResultView;

    open spec fn view(&self) -> InputResultView {
        match self {
            InputResult::PreeditChanged { preedit } => InputResultView::PreeditChanged(preedit@),
            InputResult::Commit { text } => InputResultView::Commit(text@),
            InputResult::CommitAndPreedit { commit, preedit } => InputResultView::CommitAndPreedit(
                commit@,
                preedit@,
            ),
            InputResult::Clear => InputResultView::Clear,
        }
    }
}

/// The syllable under composition: initial consonant, vowel and final consonant.
pub struct ComposerView {
    pub initial: Option<char>,
    pub vowel: Option<char>,
    pub final_jamo: Option<char>,
}

/// Composes two-beolsik key presses into one Hangul syllable at a time.
#[derive(Clone, Debug)]
pub struct HangulComposer {
    pub(crate) initial: Option<char>,
    pub(crate) vowel: Option<char>,
    pub(crate) final_jamo: Option<char>,
}

impl View for HangulComposer {
    type V = ComposerView;

    closed spec fn view(&self) -> ComposerView {
        ComposerView { initial: self.initial, vowel: self.vowel, final_jamo: self.final_jamo }
    }
}

pub open spec fn empty_composition() -> ComposerView {
    ComposerView { initial: None, vowel: None, final_jamo: None }
}

/// The shapes a composition can take: nothing, a lone consonant, a lone vowel,
/// or an initial with a vowel and maybe a final.
pub open spec fn composition_wf(s: ComposerView) -> bool {
    match (s.initial, s.vowel, s.final_jamo) {
        (None, None, None) => true,
        (Some(_), None, None) => true,
        (None, Some(_), None) => true,
        (Some(_), Some(_), _) => true,
        _ => false,
    }
}

/// The text shown for a composition: the composed syllable, or the lone jamo.
pub open spec fn spec_preedit(s: ComposerView) -> Seq<char> {
    match (s.initial, s.vowel, s.final_jamo) {
        (Some(i), Some(v), f) => seq![
            match spec_compose_syllable(i, v, f) {
                Some(c) => c,
                None => i,
            },
        ],
        (Some(i), None, None) => seq![i],
        (None, Some(v), None) => seq![v],
        _ => Seq::empty(),
    }
}

/// The result that reports the composition `s` after it changed in place.
pub open spec fn spec_changed(s: ComposerView) -> InputResultView {
    if spec_preedit(s).len() == 0 {
        InputResultView::Clear
    } else {
        InputResultView::PreeditChanged(spec_preedit(s))
    }
}

/// The outcome of giving up the composition `done` and starting `next`:
/// the text of `done` is committed and `next` is shown.
pub open spec fn start_new(done: ComposerView, next: ComposerView) -> (ComposerView, InputResultView) {
    (next, InputResultView::CommitAndPreedit(spec_preedit(done), spec_preedit(next)))
}

pub open spec fn only_initial(c: char) -> ComposerView {
    ComposerView { initial: Some(c), vowel: None, final_jamo: None }
}

pub open spec fn with_final(s: ComposerView, f: Option<char>) -> ComposerView {
    ComposerView { final_jamo: f, ..s }
}

pub open spec fn with_vowel(s: ComposerView, v: Option<char>) -> ComposerView {
    ComposerView { vowel: v, ..s }
}

pub open spec fn changed_to(n: ComposerView) -> (ComposerView, InputResultView) {
    (n, spec_changed(n))
}

/// A consonant key: it starts the syllable, becomes or extends the final, or
/// (when it cannot) commits the syllable and starts a new one.
pub open spec fn spec_input_consonant(s: ComposerView, c: char) -> (ComposerView, InputResultView) {
    match (s.initial, s.vowel, s.final_jamo) {
        (None, None, None) => changed_to(only_initial(c)),
        (Some(_), None, None) => start_new(s, only_initial(c)),
        (None, Some(_), None) => start_new(s, only_initial(c)),
        (Some(_), Some(_), None) => if spec_jongseong_index(c) is Some {
            changed_to(with_final(s, Some(c)))
        } else {
            start_new(s, only_initial(c))
        },
        (Some(_), Some(_), Some(f)) => match final_combination(f, c) {
            Some(combined) => changed_to(with_final(s, Some(combined))),
            None => start_new(s, only_initial(c)),
        },
        _ => changed_to(s),
    }
}

/// A vowel key: it joins the syllable, combines with its vowel, takes the final
/// (or the second half of a compound final) as the next initial, or commits
/// the syllable and stands alone.
pub open spec fn spec_input_vowel(s: ComposerView, v: char) -> (ComposerView, InputResultView) {
    let lone = ComposerView { initial: None, vowel: Some(v), final_jamo: None };
    match (s.initial, s.vowel, s.final_jamo) {
        (None, None, None) => changed_to(with_vowel(s, Some(v))),
        (Some(_), None, None) => changed_to(with_vowel(s, Some(v))),
        (_, Some(current), None) => match vowel_combination(current, v) {
            Some(combined) => changed_to(with_vowel(s, Some(combined))),
            None => start_new(s, lone),
        },
        (Some(_), Some(_), Some(f)) => {
            let (remaining, moved) = match final_decomposition(f) {
                Some(p) => (Some(p.0), p.1),
                None => (None, f),
            };
            start_new(
                with_final(s, remaining),
                ComposerView { initial: Some(moved), vowel: Some(v), final_jamo: None },
            )
        },
        _ => changed_to(s),
    }
}

/// A key: a jamo key goes to the composition; any other key commits the
/// composition followed by the key itself.
pub open spec fn spec_input_key(s: ComposerView, key: char) -> (ComposerView, InputResultView) {
    match spec_map_key(key) {
        Some(Jamo::Consonant(c)) => spec_input_consonant(s, c),
        Some(Jamo::Vowel(v)) => spec_input_vowel(s, v),
        None => (empty_composition(), InputResultView::Commit(spec_preedit(s).push(key))),
    }
}

/// Backspace removes the last jamo typed: the second half of a compound final
/// or vowel, else the final, the vowel, or the initial.
pub open spec fn spec_backspace(s: ComposerView) -> (ComposerView, InputResultView) {
    match s.final_jamo {
        Some(f) => changed_to(
            with_final(
                s,
                match final_decomposition(f) {
                    Some(p) => Some(p.0),
                    None => None,
                },
            ),
        ),
        None => match s.vowel {
            Some(v) => changed_to(
                with_vowel(
                    s,
                    match vowel_decomposition(v) {
                        Some(p) => Some(p.0),
                        None => None,
                    },
                ),
            ),
            None => (ComposerView { initial: None, ..s }, InputResultView::Clear),
        },
    }
}

/// What a result of the composer commits.
pub open spec fn committed_by(r: InputResultView) -> Seq<char> {
    match r {
        InputResultView::Commit(t) => t,
        InputResultView::CommitAndPreedit(c, _) => c,
        _ => Seq::empty(),
    }
}

/// What `commit` hands out: the shown text, when there is any.
pub open spec fn spec_commit_text(s: ComposerView) -> Option<Seq<char>> {
    if spec_preedit(s).len() == 0 {
        None
    } else {
        Some(spec_preedit(s))
    }
}

/// Every key and every backspace keeps a composition in one of its shapes.
pub proof fn lemma_steps_keep_composition_wf(s: ComposerView, key: char)
    requires
        composition_wf(s),
    ensures
        composition_wf(spec_input_key(s, key).0),
        composition_wf(spec_backspace(s).0),
{
}

/// Something is shown exactly when something is composed, and it is one character.
pub proof fn lemma_preedit_shows_composition(s: ComposerView)
    requires
        composition_wf(s),
    ensures
        (spec_preedit(s).len() == 0) == (s == empty_composition()),
        spec_preedit(s).len() <= 1,
{
}

/// A key that only changed the composition is undone by one backspace: the
/// composition returns to what it was before the key.
pub proof fn lemma_backspace_undoes_key(s: ComposerView, key: char)
    requires
        composition_wf(s),
        spec_input_key(s, key).1 is PreeditChanged,
    ensures
        spec_backspace(spec_input_key(s, key).0).0 == s,
{
    lemma_key_jamo_are_simple(key);
    match spec_map_key(key) {
        Some(Jamo::Consonant(c)) => {
            if let Some(f) = s.final_jamo {
                if let Some(combined) = final_combination(f, c) {
                    lemma_final_round_trip(f, c, combined);
                }
            }
        },
        Some(Jamo::Vowel(v)) => {
            if let Some(current) = s.vowel {
                if let Some(combined) = vowel_combination(current, v) {
                    lemma_vowel_round_trip(current, v, combined);
                }
            }
        },
        None => {},
    }
}

/// The view of a composer is its three fields.
pub(crate) proof fn lemma_view_is_fields(c: HangulComposer)
    ensures
        c@ == (ComposerView { initial: c.initial, vowel: c.vowel, final_jamo: c.final_jamo }),
{
}

/// Every jamo held by the composition is a Hangul character.
pub open spec fn composition_is_hangul(s: ComposerView) -> bool {
    &&& (s.initial matches Some(c) ==> is_hangul(c))
    &&& (s.vowel matches Some(c) ==> is_hangul(c))
    &&& (s.final_jamo matches Some(c) ==> is_hangul(c))
}

/// Every text of a result is Hangul.
pub open spec fn result_is_hangul(r: InputResultView) -> bool {
    match r {
        InputResultView::PreeditChanged(p) => hangul_text(p),
        InputResultView::Commit(t) => hangul_text(t),
        InputResultView::CommitAndPreedit(c, p) => hangul_text(c) && hangul_text(p),
        InputResultView::Clear => true,
    }
}

/// The text shown for a Hangul composition is Hangul.
pub proof fn lemma_preedit_is_hangul(s: ComposerView)
    requires
        composition_is_hangul(s),
    ensures
        hangul_text(spec_preedit(s)),
{
    if let (Some(i), Some(v)) = (s.initial, s.vowel) {
        lemma_composed_syllables_are_hangul(i, v, s.final_jamo);
    }
}

/// A composition of Hangul jamo stays Hangul through the keys of the layout,
/// and everything they make it show or commit is Hangul: a key of the layout
/// never lets its Latin letter through.
pub proof fn lemma_layout_keys_give_hangul(s: ComposerView, key: char)
    requires
        composition_is_hangul(s),
        spec_map_key(key) is Some,
    ensures
        composition_is_hangul(spec_input_key(s, key).0),
        result_is_hangul(spec_input_key(s, key).1),
{
    lemma_preedit_is_hangul(s);
    if let Some(f) = s.final_jamo {
        if let Some(p) = final_decomposition(f) {
            lemma_final_round_trip(p.0, p.1, f);
        }
    }
    let n = spec_input_key(s, key).0;
    assert(composition_is_hangul(n));
    lemma_preedit_is_hangul(n);
    if let Some(f) = s.final_jamo {
        if let Some(p) = final_decomposition(f) {
            lemma_preedit_is_hangul(with_final(s, Some(p.0)));
        }
        lemma_preedit_is_hangul(with_final(s, None));
    }
}

/// Backspace keeps a Hangul composition Hangul, and what it shows is Hangul.
pub proof fn lemma_backspace_keeps_hangul(s: ComposerView)
    requires
        composition_is_hangul(s),
    ensures
        composition_is_hangul(spec_backspace(s).0),
        result_is_hangul(spec_backspace(s).1),
{
    if let Some(f) = s.final_jamo {
        if let Some(p) = final_decomposition(f) {
            lemma_final_round_trip(p.0, p.1, f);
        }
    }
    if let Some(v) = s.vowel {
        if let Some(p) = vowel_decomposition(v) {
            lemma_vowel_round_trip(p.0, p.1, v);
        }
    }
    let b = spec_backspace(s).0;
    assert(composition_is_hangul(b));
    lemma_preedit_is_hangul(b);
}

/// A layout key always leaves a syllable or a jamo under composition: it
/// never gives `Commit` or `Clear`. Either the composition changed in place,
/// or one character was committed; either way the preedit reported is the
/// new composition's, one character long.
pub proof fn lemma_layout_key_leaves_preedit(s: ComposerView, key: char)
    requires
        composition_wf(s),
        spec_map_key(key) is Some,
    ensures
        ({
            let (n, r) = spec_input_key(s, key);
            match r {
                InputResultView::PreeditChanged(p) => p == spec_preedit(n) && p.len() == 1,
                InputResultView::CommitAndPreedit(c, p) => p == spec_preedit(n) && p.len() == 1
                    && c.len() == 1,
                _ => false,
            }
        }),
{
    if let Some(f) = s.final_jamo {
        if let Some(p) = final_decomposition(f) {
            lemma_final_round_trip(p.0, p.1, f);
        }
    }
}

/// A composition that typing can reach: one of its shapes, each jamo from
/// its table (initials from `CHOSEONG`, vowels from `JUNGSEONG`, finals from
/// `JONGSEONG`; see `lemma_table_membership`).
pub open spec fn composition_reachable(s: ComposerView) -> bool {
    &&& composition_wf(s)
    &&& (s.initial matches Some(c) ==> is_initial_jamo(c))
    &&& (s.vowel matches Some(c) ==> is_vowel_jamo(c))
    &&& (s.final_jamo matches Some(c) ==> is_final_jamo(c))
}

/// What a composition can show: nothing, or one character that is an
/// initial of `CHOSEONG`, a vowel of `JUNGSEONG` or a precomposed syllable.
pub open spec fn preedit_shape(p: Seq<char>) -> bool {
    ||| p.len() == 0
    ||| p.len() == 1 && (is_initial_jamo(p[0]) || is_vowel_jamo(p[0]) || (0xAC00 <= (p[0] as u32)
        <= 0xD7A3))
}

proof fn lemma_compound_finals_split(f: char)
    ensures
        final_decomposition(f) is None ==> !is_final_jamo(f) || is_initial_jamo(f),
{
    assert(final_combination('ㄱ', 'ㅅ') == Some('ㄳ'));
    assert(final_combination('ㄴ', 'ㅈ') == Some('ㄵ'));
    assert(final_combination('ㄴ', 'ㅎ') == Some('ㄶ'));
    assert(final_combination('ㄹ', 'ㄱ') == Some('ㄺ'));
    assert(final_combination('ㄹ', 'ㅁ') == Some('ㄻ'));
    assert(final_combination('ㄹ', 'ㅂ') == Some('ㄼ'));
    assert(final_combination('ㄹ', 'ㅅ') == Some('ㄽ'));
    assert(final_combination('ㄹ', 'ㅌ') == Some('ㄾ'));
    assert(final_combination('ㄹ', 'ㅍ') == Some('ㄿ'));
    assert(final_combination('ㄹ', 'ㅎ') == Some('ㅀ'));
    assert(final_combination('ㅂ', 'ㅅ') == Some('ㅄ'));
}

/// Compositions that typing reaches stay reachable through every key, every
/// backspace, and commit or reset (which leave the empty composition). What
/// such a composition shows is nothing or one table jamo or syllable, and
/// when it has an initial and a vowel they always compose into a syllable.
pub proof fn lemma_reachable_compositions(s: ComposerView, key: char)
    requires
        composition_reachable(s),
    ensures
        composition_reachable(empty_composition()),
        composition_reachable(spec_input_key(s, key).0),
        composition_reachable(spec_backspace(s).0),
        preedit_shape(spec_preedit(s)),
        (s.initial, s.vowel) matches (Some(i), Some(v)) ==> spec_compose_syllable(i, v, s.final_jamo) is Some,
{
    if let Some(i) = s.initial {
        lemma_table_membership(i);
    }
    if let Some(v) = s.vowel {
        lemma_table_membership(v);
        if let Some(p) = vowel_decomposition(v) {
            lemma_vowel_round_trip(p.0, p.1, v);
        }
    }
    if let Some(f) = s.final_jamo {
        lemma_table_membership(f);
        lemma_compound_finals_split(f);
        if let Some(p) = final_decomposition(f) {
            lemma_final_round_trip(p.0, p.1, f);
        }
    }
    if let Some(Jamo::Consonant(c)) = spec_map_key(key) {
        lemma_table_membership(c);
    }
    if let (Some(i), Some(v)) = (s.initial, s.vowel) {
        lemma_composed_syllables_are_hangul(i, v, s.final_jamo);
    }
}

fn string_of_char(c: char) -> (s: String)
    ensures
        s@ == seq![c],
{
    let mut s = String::new();
    s.push(c);
    s
}

impl Default for HangulComposer {
    fn default() -> (r: Self)
        ensures
            r@ == empty_composition(),
    {
        HangulComposer { initial: None, vowel: None, final_jamo: None }
    }
}

impl HangulComposer {
    pub fn new() -> (r: Self)
        ensures
            r@ == empty_composition(),
    {
        HangulComposer { initial: None, vowel: None, final_jamo: None }
    }

    pub fn input_key(&mut self, key: char) -> (r: InputResult)
        ensures
            (final(self)@, r@) == spec_input_key(old(self)@, key),
    {
        match map_key(key) {
            Some(Jamo::Consonant(c)) => self.input_consonant(c),
            Some(Jamo::Vowel(v)) => self.input_vowel(v),
            None => {
                let mut text = match self.commit() {
                    Some(t) => t,
                    None => String::new(),
                };
                text.push(key);
                InputResult::Commit { text }
            },
        }
    }

    pub fn backspace(&mut self) -> (r: InputResult)
        ensures
            (final(self)@, r@) == spec_backspace(old(self)@),
    {
        crate::backspace::backspace(self)
    }

    pub fn commit(&mut self) -> (r: Option<String>)
        ensures
            final(self)@ == empty_composition(),
            match r {
                Some(t) => spec_commit_text(old(self)@) == Some(t@),
                None => spec_commit_text(old(self)@) is None,
            },
    {
        let text = self.preedit();
        self.reset();
        if text.as_str().is_empty() {
            None
        } else {
            Some(text)
        }
    }

    pub fn preedit(&self) -> (r: String)
        ensures
            r@ == spec_preedit(self@),
    {
        match (self.initial, self.vowel, self.final_jamo) {
            (Some(i), Some(v), f) => {
                let c = match compose_syllable(i, v, f) {
                    Some(c) => c,
                    None => i,
                };
                string_of_char(c)
            },
            (Some(i), None, None) => string_of_char(i),
            (None, Some(v), None) => string_of_char(v),
            _ => String::new(),
        }
    }

    pub fn reset(&mut self)
        ensures
            final(self)@ == empty_composition(),
    {
        self.initial = None;
        self.vowel = None;
        self.final_jamo = None;
    }

    pub(crate) fn changed(&self) -> (r: InputResult)
        ensures
            r@ == spec_changed(self@),
    {
        let preedit = self.preedit();
        if preedit.as_str().is_empty() {
            InputResult::Clear
        } else {
            InputResult::PreeditChanged { preedit }
        }
    }

    /// Commits the current syllable and starts a new one with `c` as its initial.
    fn start_with_initial(&mut self, c: char) -> (r: InputResult)
        ensures
            (final(self)@, r@) == start_new(old(self)@, only_initial(c)),
    {
        let commit = match self.commit() {
            Some(t) => t,
            None => String::new(),
        };
        self.initial = Some(c);
        InputResult::CommitAndPreedit { commit, preedit: self.preedit() }
    }

    fn input_consonant(&mut self, c: char) -> (r: InputResult)
        ensures
            (final(self)@, r@) == spec_input_consonant(old(self)@, c),
    {
        match (self.initial, self.vowel, self.final_jamo) {
            (None, None, None) => {
                self.initial = Some(c);
                self.changed()
            },
            (Some(_), None, None) | (None, Some(_), None) => self.start_with_initial(c),
            (Some(_), Some(_), None) => {
                if jongseong_index(c).is_some() {
                    self.final_jamo = Some(c);
                    self.changed()
                } else {
                    self.start_with_initial(c)
                }
            },
            (Some(_), Some(_), Some(f)) => {
                if let Some(combined) = combine_final(f, c) {
                    self.final_jamo = Some(combined);
                    self.changed()
                } else {
                    self.start_with_initial(c)
                }
            },
            _ => self.changed(),
        }
    }

    fn input_vowel(&mut self, v: char) -> (r: InputResult)
        ensures
            (final(self)@, r@) == spec_input_vowel(old(self)@, v),
    {
        match (self.initial, self.vowel, self.final_jamo) {
            (None, None, None) => {
                self.vowel = Some(v);
                self.changed()
            },
            (Some(_), None, None) => {
                self.vowel = Some(v);
                self.changed()
            },
            (None, Some(current), None) | (Some(_), Some(current), None) => {
                if let Some(combined) = combine_vowel(current, v) {
                    self.vowel = Some(combined);
                    self.changed()
                } else {
                    let commit = match self.commit() {
                        Some(t) => t,
                        None => String::new(),
                    };
                    self.vowel = Some(v);
                    InputResult::CommitAndPreedit { commit, preedit: self.preedit() }
                }
            },
            (Some(_), Some(_), Some(f)) => {
                let (remaining_final, moved_initial) = match decompose_final(f) {
                    Some((left, right)) => (Some(left), right),
                    None => (None, f),
                };
                self.final_jamo = remaining_final;
                let commit = match self.commit() {
                    Some(t) => t,
                    None => String::new(),
                };
                self.initial = Some(moved_initial);
                self.vowel = Some(v);
                InputResult::CommitAndPreedit { commit, preedit: self.preedit() }
            },
            _ => self.changed(),
        }
    }
}

} // verus!
