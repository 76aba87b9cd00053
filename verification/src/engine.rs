use vstd::prelude::*;

use crate::composer::{
    committed_by, composition_is_hangul, composition_wf, empty_composition,
    lemma_layout_key_leaves_preedit, lemma_preedit_shows_composition, lemma_backspace_keeps_hangul,
    lemma_layout_keys_give_hangul, lemma_preedit_is_hangul, spec_backspace, spec_commit_text,
    spec_input_key, spec_preedit, ComposerView, HangulComposer, InputResult, InputResultView,
};
use crate::config::{DeleteMode, RenderMode};
use crate::keymap_2beolsik::spec_map_key;
use crate::keys::{
    ascii_letter, ascii_symbol_or_digit, has_command_modifier, has_mask, is_ascii_alphabetic_code,
    is_modifier_key, spec_ascii_letter, spec_ascii_symbol_or_digit, spec_has_command_modifier,
    spec_is_modifier_key, IBUS_CAP_SURROUNDING_TEXT, IBUS_CONTROL_MASK, IBUS_MOD1_MASK,
    IBUS_RELEASE_MASK, IBUS_SHIFT_MASK,
    KEYCODE_BACKSPACE, KEY_BACKSPACE, KEY_CAPS_LOCK, KEY_DOWN, KEY_ESCAPE, KEY_LEFT, KEY_RETURN,
    KEY_RIGHT, KEY_SPACE, KEY_TAB, KEY_UP,
};
use crate::state::{held, tapped, InputMode, ModeState};
use crate::syllable::{
    compose_syllable, hangul_text, is_hangul, lemma_composed_syllables_are_hangul,
    spec_compose_syllable,
};
use crate::text::chars_of;

verus! {

/// A request to the input-method framework.
pub enum IbusAction {
    CommitText(String),
    UpdatePreedit(String),
    ClearPreedit,
    ForwardKeyEvent { keyval: u32, keycode: u32, modifiers: u32 },
    DeleteSurroundingText { offset_from_cursor: i32, nchars: u32 },
}

/// `IbusAction` with its texts as character sequences.
pub enum ActionView {
    CommitText(Seq<char>),
    UpdatePreedit(Seq<char>),
    ClearPreedit,
    ForwardKeyEvent(u32, u32, u32),
    DeleteSurroundingText(i32, u32),
}

impl View for IbusAction {
    type V = ActionView;

    open spec fn view(&self) -> ActionView {
        match self {
            IbusAction::CommitText(t) => ActionView::CommitText(t@),
            IbusAction::UpdatePreedit(t) => ActionView::UpdatePreedit(t@),
            IbusAction::ClearPreedit => ActionView::ClearPreedit,
            IbusAction::ForwardKeyEvent { keyval, keycode, modifiers } => ActionView::ForwardKeyEvent(
                *keyval,
                *keycode,
                *modifiers,
            ),
            IbusAction::DeleteSurroundingText { offset_from_cursor, nchars } =>
                ActionView::DeleteSurroundingText(*offset_from_cursor, *nchars),
        }
    }
}

pub open spec fn actions_view(actions: Seq<IbusAction>) -> Seq<ActionView> {
    actions.map_values(|a: IbusAction| a@)
}

/// Why a composition is committed.
#[derive(Clone, Copy, Debug, Eq, PartialEq, Structural)]
pub enum CommitTrigger {
    CapsLock,
    Command,
    Enter,
    Space,
    Tab,
    Arrow,
    Symbol,
    Other,
    FocusOut,
}

/// The state of an engine: the composition, the input mode, how text is shown
/// and deleted, the text already shown in the application, and the
/// capabilities of the client.
pub struct EngineView {
    pub composer: ComposerView,
    pub mode: InputMode,
    pub render_mode: RenderMode,
    pub rendered_text: Seq<char>,
    pub delete_mode: DeleteMode,
    pub capabilities: u32,
}

/// The state of one input context of the engine.
pub struct EngineState {
    composer: HangulComposer,
    modes: ModeState,
    render_mode: RenderMode,
    rendered_text: String,
    delete_mode: DeleteMode,
    capabilities: u32,
}

impl View for EngineState {
    type V = EngineView;

    closed spec fn view(&self) -> EngineView {
        EngineView {
            composer: self.composer@,
            mode: self.modes@,
            render_mode: self.render_mode,
            rendered_text: self.rendered_text@,
            delete_mode: self.delete_mode,
            capabilities: self.capabilities,
        }
    }
}

/// What processing a key event did.
pub struct KeyEventOutcome {
    /// Whether the engine consumed the key.
    pub handled: bool,
    /// The requests to the framework, in order.
    pub actions: Vec<IbusAction>,
}

// ---------------------------------------------------------------------------
// The model
// ---------------------------------------------------------------------------

pub open spec fn supports_surrounding(capabilities: u32) -> bool {
    has_mask(capabilities, IBUS_CAP_SURROUNDING_TEXT)
}

/// Showing text in place needs the surrounding text to delete it safely;
/// without it the engine shows a delayed preview instead.
pub open spec fn spec_effective_render_mode(e: EngineView) -> RenderMode {
    if e.render_mode == RenderMode::VisibleTail && e.delete_mode == DeleteMode::Surrounding
        && !supports_surrounding(e.capabilities) {
        RenderMode::DelayedPreview
    } else {
        e.render_mode
    }
}

/// A lone vowel is shown with the silent initial ㅇ; other characters as they are.
pub open spec fn tail_char(c: char) -> char {
    match spec_compose_syllable('ㅇ', c, None) {
        Some(s) => s,
        None => c,
    }
}

/// The text as it is inserted into the application.
pub open spec fn visible_tail(text: Seq<char>) -> Seq<char> {
    text.map_values(|c: char| tail_char(c))
}

pub open spec fn with_composer(e: EngineView, c: ComposerView) -> EngineView {
    EngineView { composer: c, ..e }
}

pub open spec fn with_rendered(e: EngineView, t: Seq<char>) -> EngineView {
    EngineView { rendered_text: t, ..e }
}

pub open spec fn cleared(e: EngineView) -> EngineView {
    with_rendered(e, Seq::empty())
}

pub open spec fn backspace_press() -> ActionView {
    ActionView::ForwardKeyEvent(KEY_BACKSPACE, KEYCODE_BACKSPACE, 0)
}

pub open spec fn backspace_release() -> ActionView {
    ActionView::ForwardKeyEvent(KEY_BACKSPACE, KEYCODE_BACKSPACE, IBUS_RELEASE_MASK)
}

/// `n` presses of Backspace.
pub open spec fn backspace_presses(n: nat) -> Seq<ActionView> {
    Seq::new(n, |i: int| backspace_press())
}

/// `n` presses of Backspace, each followed by its release.
pub open spec fn backspace_pairs(n: nat) -> Seq<ActionView>
    decreases n,
{
    if n == 0 {
        Seq::empty()
    } else {
        backspace_pairs((n - 1) as nat).push(backspace_press()).push(backspace_release())
    }
}

/// Committing text that is not shown yet: its visible form, when not empty.
pub open spec fn commit_delayed_actions(text: Seq<char>) -> Seq<ActionView> {
    if visible_tail(text).len() == 0 {
        Seq::empty()
    } else {
        seq![ActionView::CommitText(visible_tail(text))]
    }
}

pub open spec fn optional_delayed_commit(text: Option<Seq<char>>) -> Seq<ActionView> {
    match text {
        Some(t) => commit_delayed_actions(t),
        None => Seq::empty(),
    }
}

/// Inserting the visible form of `text` and remembering it as shown.
pub open spec fn spec_render_tail(e: EngineView, text: Seq<char>) -> (EngineView, Seq<ActionView>) {
    let t = visible_tail(text);
    if t.len() == 0 {
        (cleared(e), Seq::empty())
    } else {
        (with_rendered(e, t), seq![ActionView::CommitText(t)])
    }
}

/// Taking back the text shown in the application. With surrounding-text
/// deletion this is refused (nothing changes) unless the text before the
/// cursor ends with the shown text, which `matches` tells.
pub open spec fn spec_delete_rendered(e: EngineView, matches: bool) -> (EngineView, Seq<ActionView>, bool) {
    let count = e.rendered_text.len();
    if count == 0 {
        (cleared(e), Seq::empty(), true)
    } else {
        match e.delete_mode {
            DeleteMode::Backspace => (cleared(e), backspace_presses(count), true),
            DeleteMode::BackspacePair => (cleared(e), backspace_pairs(count), true),
            DeleteMode::Surrounding => if matches {
                (
                    cleared(e),
                    seq![
                        ActionView::DeleteSurroundingText(
                            0i32.wrapping_sub(count as i32),
                            count as u32,
                        ),
                    ],
                    true,
                )
            } else {
                (e, Seq::empty(), false)
            },
        }
    }
}

/// Accepting the composition: its text is committed in the way the render
/// mode needs, and the composition and the shown text are cleared.
pub open spec fn spec_commit_composition(e: EngineView) -> (EngineView, Seq<ActionView>) {
    let done = with_composer(cleared(e), empty_composition());
    let text = spec_commit_text(e.composer);
    match spec_effective_render_mode(e) {
        RenderMode::VisibleTail => (done, seq![ActionView::ClearPreedit]),
        RenderMode::Preedit => (
            done,
            match text {
                Some(t) => seq![ActionView::CommitText(t)],
                None => Seq::empty(),
            } + seq![ActionView::ClearPreedit],
        ),
        RenderMode::Delayed => (done, optional_delayed_commit(text)),
        RenderMode::Safe => (done, optional_delayed_commit(text)),
        RenderMode::DelayedPreview => (
            done,
            optional_delayed_commit(text) + seq![ActionView::ClearPreedit],
        ),
    }
}

/// Showing a composer result as a preedit.
pub open spec fn preedit_result_actions(r: InputResultView) -> Seq<ActionView> {
    match r {
        InputResultView::PreeditChanged(p) => seq![ActionView::UpdatePreedit(p)],
        InputResultView::Commit(t) => seq![ActionView::CommitText(t), ActionView::ClearPreedit],
        InputResultView::CommitAndPreedit(c, p) => seq![
            ActionView::CommitText(c),
            ActionView::UpdatePreedit(p),
        ],
        InputResultView::Clear => seq![ActionView::ClearPreedit],
    }
}

/// A letter in visible-tail mode: the shown tail is taken back, the letter is
/// composed, and the new tail is inserted. When the tail cannot be taken back
/// the letter is only composed.
pub open spec fn spec_visible_tail_key(e: EngineView, key: char, matches: bool) -> (EngineView, Seq<ActionView>) {
    let (e1, deleted, ok) = spec_delete_rendered(e, matches);
    let (c, r) = spec_input_key(e1.composer, key);
    let e2 = with_composer(e1, c);
    if !ok {
        (e2, deleted)
    } else {
        match r {
            InputResultView::PreeditChanged(p) => {
                let (e3, a) = spec_render_tail(e2, p);
                (e3, deleted + a)
            },
            InputResultView::Commit(t) => (
                cleared(e2),
                deleted + seq![
                    ActionView::CommitText(visible_tail(t)),
                    ActionView::ClearPreedit,
                ],
            ),
            InputResultView::CommitAndPreedit(cm, p) => {
                let (e3, a) = spec_render_tail(e2, p);
                (e3, deleted + seq![ActionView::CommitText(visible_tail(cm))] + a)
            },
            InputResultView::Clear => (cleared(e2), deleted + seq![ActionView::ClearPreedit]),
        }
    }
}

/// A letter in delayed mode: only completed syllables are committed.
pub open spec fn spec_delayed_key(e: EngineView, key: char) -> (EngineView, Seq<ActionView>) {
    let (c, r) = spec_input_key(e.composer, key);
    (
        cleared(with_composer(e, c)),
        match r {
            InputResultView::Commit(t) => commit_delayed_actions(t),
            InputResultView::CommitAndPreedit(cm, _) => commit_delayed_actions(cm),
            _ => Seq::empty(),
        },
    )
}

/// A letter in delayed-preview mode: completed syllables are committed and the
/// syllable under composition is previewed.
pub open spec fn spec_delayed_preview_key(e: EngineView, key: char) -> (EngineView, Seq<ActionView>) {
    let (c, r) = spec_input_key(e.composer, key);
    (
        cleared(with_composer(e, c)),
        match r {
            InputResultView::PreeditChanged(p) => seq![ActionView::UpdatePreedit(visible_tail(p))],
            InputResultView::Commit(t) => commit_delayed_actions(t) + seq![ActionView::ClearPreedit],
            InputResultView::CommitAndPreedit(cm, p) => commit_delayed_actions(cm) + seq![
                ActionView::UpdatePreedit(visible_tail(p)),
            ],
            InputResultView::Clear => seq![ActionView::ClearPreedit],
        },
    )
}

pub open spec fn ascii_upper(c: char) -> char {
    if 'a' <= c <= 'z' {
        ((c as u32) - 32) as char
    } else {
        c
    }
}

pub open spec fn ascii_lower(c: char) -> char {
    if 'A' <= c <= 'Z' {
        ((c as u32) + 32) as char
    } else {
        c
    }
}

/// In Korean mode the case of a letter comes from Shift alone (Caps Lock is
/// ignored), and Shift with a shortcut modifier does not count.
pub open spec fn spec_ko_key(ch: char, modifiers: u32) -> char {
    if has_mask(modifiers, IBUS_SHIFT_MASK) && !spec_has_command_modifier(modifiers) {
        ascii_upper(ch)
    } else {
        ascii_lower(ch)
    }
}

/// In English mode a letter is uppercase exactly when Shift is held.
pub open spec fn spec_en_key(ch: char, modifiers: u32) -> char {
    if has_mask(modifiers, IBUS_SHIFT_MASK) {
        ascii_upper(ch)
    } else {
        ascii_lower(ch)
    }
}

/// Keys that end a composition in Korean mode and then go to the application.
pub open spec fn spec_commit_trigger(keyval: u32) -> Option<CommitTrigger> {
    if keyval == KEY_RETURN {
        Some(CommitTrigger::Enter)
    } else if keyval == KEY_SPACE {
        Some(CommitTrigger::Space)
    } else if keyval == KEY_TAB {
        Some(CommitTrigger::Tab)
    } else if keyval == KEY_LEFT || keyval == KEY_UP || keyval == KEY_RIGHT || keyval == KEY_DOWN {
        Some(CommitTrigger::Arrow)
    } else if spec_ascii_symbol_or_digit(keyval) is Some {
        Some(CommitTrigger::Symbol)
    } else {
        None
    }
}

/// Tab and the arrow keys.
pub open spec fn is_navigation_key(keyval: u32) -> bool {
    keyval == KEY_TAB || keyval == KEY_LEFT || keyval == KEY_UP || keyval == KEY_RIGHT || keyval
        == KEY_DOWN
}

/// English mode: letters are committed with their case from Shift, Tab and the
/// arrow keys are forwarded, shortcuts and other keys go to the application.
pub open spec fn spec_process_en(keyval: u32, keycode: u32, modifiers: u32) -> (Seq<ActionView>, bool) {
    if spec_has_command_modifier(modifiers) {
        (Seq::empty(), false)
    } else {
        match spec_ascii_letter(keyval) {
            Some(ch) => (seq![ActionView::CommitText(seq![spec_en_key(ch, modifiers)])], true),
            None => if is_navigation_key(keyval) {
                (seq![ActionView::ForwardKeyEvent(keyval, keycode, modifiers)], true)
            } else {
                (Seq::empty(), false)
            },
        }
    }
}

/// Korean mode: letters are composed and consumed; shortcuts, commit triggers
/// and other keys accept the composition and go to the application.
pub open spec fn spec_process_ko(e: EngineView, keyval: u32, modifiers: u32, matches: bool) -> (EngineView, Seq<ActionView>, bool) {
    if spec_has_command_modifier(modifiers) {
        if spec_effective_render_mode(e) != RenderMode::Preedit {
            let (e1, a) = spec_commit_composition(e);
            (e1, a, false)
        } else {
            (e, Seq::empty(), false)
        }
    } else if spec_commit_trigger(keyval) is Some {
        let (e1, a) = spec_commit_composition(e);
        (e1, a, false)
    } else {
        match spec_ascii_letter(keyval) {
            None => {
                let (e1, a) = spec_commit_composition(e);
                (e1, a, false)
            },
            Some(ch) => {
                let key = spec_ko_key(ch, modifiers);
                match spec_effective_render_mode(e) {
                    RenderMode::Preedit => {
                        let (c, r) = spec_input_key(e.composer, key);
                        (with_composer(e, c), preedit_result_actions(r), true)
                    },
                    RenderMode::VisibleTail => {
                        let (e1, a) = spec_visible_tail_key(e, key, matches);
                        (e1, a, true)
                    },
                    RenderMode::Delayed => {
                        let (e1, a) = spec_delayed_key(e, key);
                        (e1, a, true)
                    },
                    RenderMode::DelayedPreview => {
                        let (e1, a) = spec_delayed_preview_key(e, key);
                        (e1, a, true)
                    },
                    RenderMode::Safe => {
                        let (c, _) = spec_input_key(e.composer, key);
                        (with_composer(e, c), Seq::empty(), true)
                    },
                }
            },
        }
    }
}

/// Backspace: it edits the composition when there is one, in the way the
/// render mode needs, and otherwise goes to the application.
pub open spec fn spec_process_backspace(e: EngineView, matches: bool) -> (EngineView, Seq<ActionView>, bool) {
    let preedit_empty = spec_preedit(e.composer).len() == 0;
    match spec_effective_render_mode(e) {
        RenderMode::Preedit => if !preedit_empty {
            let (e1, a) = spec_commit_composition(e);
            (e1, a, false)
        } else {
            (e, Seq::empty(), false)
        },
        RenderMode::VisibleTail => if e.rendered_text.len() == 0 && preedit_empty {
            (e, Seq::empty(), false)
        } else {
            let (e1, deleted, ok) = spec_delete_rendered(e, matches);
            if !ok {
                (with_composer(cleared(e1), empty_composition()), deleted, true)
            } else {
                let (c, r) = spec_backspace(e1.composer);
                let e2 = with_composer(e1, c);
                match r {
                    InputResultView::PreeditChanged(p) => {
                        let (e3, a) = spec_render_tail(e2, p);
                        (e3, deleted + a, true)
                    },
                    InputResultView::Clear => (cleared(e2), deleted, true),
                    InputResultView::Commit(t) => (
                        e2,
                        deleted + seq![ActionView::CommitText(visible_tail(t))],
                        true,
                    ),
                    InputResultView::CommitAndPreedit(cm, p) => {
                        let (e3, a) = spec_render_tail(e2, p);
                        (e3, deleted + seq![ActionView::CommitText(visible_tail(cm))] + a, true)
                    },
                }
            }
        },
        RenderMode::Delayed => if preedit_empty {
            (e, Seq::empty(), false)
        } else {
            (with_composer(e, spec_backspace(e.composer).0), Seq::empty(), true)
        },
        RenderMode::Safe => if preedit_empty {
            (e, Seq::empty(), false)
        } else {
            (with_composer(e, spec_backspace(e.composer).0), Seq::empty(), true)
        },
        RenderMode::DelayedPreview => if preedit_empty {
            (e, Seq::empty(), false)
        } else {
            (
                with_composer(cleared(e), empty_composition()),
                optional_delayed_commit(spec_commit_text(e.composer)) + seq![
                    ActionView::ClearPreedit,
                    backspace_press(),
                ],
                true,
            )
        },
    }
}

/// Escape: it drops the composition when there is one (taking back shown
/// text), and otherwise goes to the application.
pub open spec fn spec_process_escape(e: EngineView, matches: bool) -> (EngineView, Seq<ActionView>, bool) {
    let preedit_empty = spec_preedit(e.composer).len() == 0;
    match spec_effective_render_mode(e) {
        RenderMode::Preedit => if preedit_empty {
            (e, Seq::empty(), false)
        } else {
            (with_composer(e, empty_composition()), seq![ActionView::ClearPreedit], true)
        },
        RenderMode::VisibleTail => if e.rendered_text.len() == 0 && preedit_empty {
            (e, Seq::empty(), false)
        } else {
            let (e1, deleted, ok) = spec_delete_rendered(e, matches);
            let done = with_composer(cleared(e1), empty_composition());
            if !ok {
                (done, deleted, true)
            } else {
                (done, deleted.push(ActionView::ClearPreedit), true)
            }
        },
        RenderMode::Delayed => if preedit_empty {
            (e, Seq::empty(), false)
        } else {
            (with_composer(e, empty_composition()), Seq::empty(), true)
        },
        RenderMode::Safe => if preedit_empty {
            (e, Seq::empty(), false)
        } else {
            (with_composer(e, empty_composition()), Seq::empty(), true)
        },
        RenderMode::DelayedPreview => if preedit_empty {
            (e, Seq::empty(), false)
        } else {
            (with_composer(e, empty_composition()), seq![ActionView::ClearPreedit], true)
        },
    }
}

/// One key event: the new state, the requests to the framework, and whether
/// the key was consumed. `matches` answers whether the text before the cursor
/// ends with the shown text, where that is asked.
pub open spec fn spec_process_key_event(
    e: EngineView,
    keyval: u32,
    keycode: u32,
    modifiers: u32,
    matches: bool,
) -> (EngineView, Seq<ActionView>, bool) {
    if has_mask(modifiers, IBUS_RELEASE_MASK) {
        (e, Seq::empty(), keyval == KEY_CAPS_LOCK)
    } else if keyval == KEY_CAPS_LOCK {
        let (e1, a) = spec_commit_composition(e);
        let mode = if has_mask(modifiers, IBUS_SHIFT_MASK) {
            held(e.mode)
        } else {
            tapped(e.mode)
        };
        (EngineView { mode, ..e1 }, a.push(ActionView::ClearPreedit), true)
    } else if spec_is_modifier_key(keyval) {
        (e, Seq::empty(), false)
    } else if keyval == KEY_ESCAPE {
        spec_process_escape(e, matches)
    } else if keyval == KEY_BACKSPACE {
        spec_process_backspace(e, matches)
    } else {
        match e.mode {
            InputMode::Ko => spec_process_ko(e, keyval, modifiers, matches),
            _ => {
                let (a, handled) = spec_process_en(keyval, keycode, modifiers);
                (e, a, handled)
            },
        }
    }
}

/// Whether processing the key event asks if the text before the cursor ends
/// with the shown text.
pub open spec fn spec_surrounding_check_needed(e: EngineView, keyval: u32, modifiers: u32) -> bool {
    &&& e.delete_mode == DeleteMode::Surrounding
    &&& e.rendered_text.len() > 0
    &&& spec_effective_render_mode(e) == RenderMode::VisibleTail
    &&& !has_mask(modifiers, IBUS_RELEASE_MASK)
    &&& keyval != KEY_CAPS_LOCK
    &&& !spec_is_modifier_key(keyval)
    &&& (keyval == KEY_ESCAPE || keyval == KEY_BACKSPACE || (e.mode == InputMode::Ko
        && !spec_has_command_modifier(modifiers) && spec_commit_trigger(keyval) is None
        && spec_ascii_letter(keyval) is Some))
}

// ---------------------------------------------------------------------------
// The engine
// ---------------------------------------------------------------------------

fn emit(out: &mut Vec<IbusAction>, action: IbusAction)
    ensures
        actions_view(final(out)@) == actions_view(old(out)@).push(action@),
{
    let ghost before = out@;
    out.push(action);
    proof {
        assert(actions_view(out@) =~= actions_view(before).push(action@));
    }
}

fn commit_text_action(out: &mut Vec<IbusAction>, text: String)
    ensures
        actions_view(final(out)@) == actions_view(old(out)@).push(ActionView::CommitText(text@)),
{
    emit(out, IbusAction::CommitText(text));
}

fn tail_char_of(ch: char) -> (r: char)
    ensures
        r == tail_char(ch),
{
    match compose_syllable('ㅇ', ch, None) {
        Some(c) => c,
        None => ch,
    }
}

/// The text as it is inserted into the application: lone vowels get the
/// silent initial ㅇ.
pub fn visible_tail_text(text: &str) -> (r: String)
    ensures
        r@ == visible_tail(text@),
{
    let chars = chars_of(text);
    let mut r = String::new();
    let mut i: usize = 0;
    while i < chars.len()
        invariant
            i <= chars@.len(),
            chars@ == text@,
            r@ == visible_tail(text@).take(i as int),
        decreases chars@.len() - i,
    {
        let c = tail_char_of(chars[i]);
        r.push(c);
        proof {
            assert(visible_tail(text@).take(i + 1) =~= visible_tail(text@).take(i as int).push(c));
        }
        i = i + 1;
    }
    proof {
        assert(visible_tail(text@).take(chars@.len() as int) =~= visible_tail(text@));
    }
    r
}

fn to_ascii_upper(ch: char) -> (r: char)
    ensures
        r == ascii_upper(ch),
{
    let code = ch as u32;
    if 0x61 <= code && code <= 0x7A {
        let up = ((code - 32) as u8) as char;
        proof {
            crate::text::lemma_char_code_injective(up, ((ch as u32) - 32) as char);
        }
        up
    } else {
        ch
    }
}

fn to_ascii_lower(ch: char) -> (r: char)
    ensures
        r == ascii_lower(ch),
{
    let code = ch as u32;
    if 0x41 <= code && code <= 0x5A {
        let low = ((code + 32) as u8) as char;
        proof {
            crate::text::lemma_char_code_injective(low, ((ch as u32) + 32) as char);
        }
        low
    } else {
        ch
    }
}

/// The letter composed in Korean mode for a key and its modifiers.
pub fn ko_key_for_modifiers(ch: char, modifiers: u32) -> (r: char)
    ensures
        r == spec_ko_key(ch, modifiers),
{
    if modifiers & IBUS_SHIFT_MASK != 0 && !has_command_modifier(modifiers) {
        to_ascii_upper(ch)
    } else {
        to_ascii_lower(ch)
    }
}

/// The letter committed in English mode for a key and its modifiers.
pub fn en_key_for_modifiers(ch: char, modifiers: u32) -> (r: char)
    ensures
        r == spec_en_key(ch, modifiers),
{
    if modifiers & IBUS_SHIFT_MASK != 0 {
        to_ascii_upper(ch)
    } else {
        to_ascii_lower(ch)
    }
}

/// Which kind of commit-triggering key a key value is, if any.
pub fn commit_trigger(keyval: u32) -> (r: Option<CommitTrigger>)
    ensures
        r == spec_commit_trigger(keyval),
{
    if keyval == KEY_RETURN {
        Some(CommitTrigger::Enter)
    } else if keyval == KEY_SPACE {
        Some(CommitTrigger::Space)
    } else if keyval == KEY_TAB {
        Some(CommitTrigger::Tab)
    } else if keyval == KEY_LEFT || keyval == KEY_UP || keyval == KEY_RIGHT || keyval == KEY_DOWN {
        Some(CommitTrigger::Arrow)
    } else if ascii_symbol_or_digit(keyval).is_some() {
        Some(CommitTrigger::Symbol)
    } else {
        None
    }
}

fn process_en(out: &mut Vec<IbusAction>, keyval: u32, keycode: u32, modifiers: u32) -> (handled: bool)
    ensures
        actions_view(final(out)@) == actions_view(old(out)@) + spec_process_en(keyval, keycode, modifiers).0,
        handled == spec_process_en(keyval, keycode, modifiers).1,
{
    let ghost before = actions_view(out@);
    if has_command_modifier(modifiers) {
        assert(actions_view(out@) =~= before + Seq::empty());
        return false;
    }
    if let Some(ch) = ascii_letter(keyval) {
        let mut text = String::new();
        text.push(en_key_for_modifiers(ch, modifiers));
        commit_text_action(out, text);
        assert(actions_view(out@) =~= before + spec_process_en(keyval, keycode, modifiers).0);
        return true;
    }
    if keyval == KEY_TAB || keyval == KEY_LEFT || keyval == KEY_UP || keyval == KEY_RIGHT || keyval
        == KEY_DOWN {
        emit(out, IbusAction::ForwardKeyEvent { keyval, keycode, modifiers });
        assert(actions_view(out@) =~= before + spec_process_en(keyval, keycode, modifiers).0);
        return true;
    }
    assert(actions_view(out@) =~= before + Seq::empty());
    false
}

impl EngineState {
    /// A fresh engine in Korean mode with nothing composed or shown.
    pub fn new(render_mode: RenderMode, delete_mode: DeleteMode, capabilities: u32) -> (r: Self)
        ensures
            r@ == (EngineView {
                composer: empty_composition(),
                mode: InputMode::Ko,
                render_mode,
                rendered_text: Seq::empty(),
                delete_mode,
                capabilities,
            }),
    {
        EngineState {
            composer: HangulComposer::new(),
            modes: ModeState::new(),
            render_mode,
            rendered_text: String::new(),
            delete_mode,
            capabilities,
        }
    }

    pub fn composer(&self) -> (r: &HangulComposer)
        ensures
            r@ == self@.composer,
    {
        &self.composer
    }

    pub fn modes(&self) -> (r: &ModeState)
        ensures
            r@ == self@.mode,
    {
        &self.modes
    }

    /// The text the engine inserted into the application and may still replace.
    pub fn rendered_text(&self) -> (r: &str)
        ensures
            r@ == self@.rendered_text,
    {
        self.rendered_text.as_str()
    }

    pub fn render_mode(&self) -> (r: RenderMode)
        ensures
            r == self@.render_mode,
    {
        self.render_mode
    }

    pub fn delete_mode(&self) -> (r: DeleteMode)
        ensures
            r == self@.delete_mode,
    {
        self.delete_mode
    }

    pub fn capabilities(&self) -> (r: u32)
        ensures
            r == self@.capabilities,
    {
        self.capabilities
    }

    pub fn set_render_mode(&mut self, render_mode: RenderMode)
        ensures
            final(self)@ == (EngineView { render_mode, ..old(self)@ }),
    {
        self.render_mode = render_mode;
    }

    pub fn set_delete_mode(&mut self, delete_mode: DeleteMode)
        ensures
            final(self)@ == (EngineView { delete_mode, ..old(self)@ }),
    {
        self.delete_mode = delete_mode;
    }

    pub fn set_capabilities(&mut self, capabilities: u32)
        ensures
            final(self)@ == (EngineView { capabilities, ..old(self)@ }),
    {
        self.capabilities = capabilities;
    }

    /// Whether the client can report the text around the cursor.
    pub fn supports_surrounding_text(&self) -> (r: bool)
        ensures
            r == supports_surrounding(self@.capabilities),
    {
        self.capabilities & IBUS_CAP_SURROUNDING_TEXT != 0
    }

    pub fn effective_render_mode(&self) -> (r: RenderMode)
        ensures
            r == spec_effective_render_mode(self@),
    {
        if self.render_mode == RenderMode::VisibleTail && self.delete_mode == DeleteMode::Surrounding
            && !self.supports_surrounding_text() {
            RenderMode::DelayedPreview
        } else {
            self.render_mode
        }
    }

    fn clear_rendered(&mut self)
        ensures
            final(self)@ == cleared(old(self)@),
    {
        self.rendered_text = String::new();
    }

    fn render_tail(&mut self, out: &mut Vec<IbusAction>, text: &str)
        ensures
            final(self)@ == spec_render_tail(old(self)@, text@).0,
            actions_view(final(out)@) == actions_view(old(out)@) + spec_render_tail(
                old(self)@,
                text@,
            ).1,
    {
        let ghost before = actions_view(out@);
        let text = visible_tail_text(text);
        if text.as_str().is_empty() {
            self.clear_rendered();
            assert(actions_view(out@) =~= before + Seq::empty());
            return;
        }
        commit_text_action(out, text.clone());
        self.rendered_text = text;
        assert(actions_view(out@) =~= before + seq![ActionView::CommitText(text@)]);
    }

    fn commit_delayed_text(out: &mut Vec<IbusAction>, text: &str)
        ensures
            actions_view(final(out)@) == actions_view(old(out)@) + commit_delayed_actions(text@),
    {
        let ghost before = actions_view(out@);
        let tail = visible_tail_text(text);
        if tail.as_str().is_empty() {
            assert(actions_view(out@) =~= before + Seq::empty());
            return;
        }
        commit_text_action(out, tail);
        assert(actions_view(out@) =~= before + commit_delayed_actions(text@));
    }

    fn delete_rendered_text(&mut self, out: &mut Vec<IbusAction>, matches: bool) -> (ok: bool)
        ensures
            final(self)@ == spec_delete_rendered(old(self)@, matches).0,
            actions_view(final(out)@) == actions_view(old(out)@) + spec_delete_rendered(
                old(self)@,
                matches,
            ).1,
            ok == spec_delete_rendered(old(self)@, matches).2,
    {
        let ghost before = actions_view(out@);
        let count = self.rendered_text.as_str().unicode_len();
        if count == 0 {
            self.clear_rendered();
            assert(actions_view(out@) =~= before + Seq::empty());
            return true;
        }
        match self.delete_mode {
            DeleteMode::Backspace => {
                let mut i: usize = 0;
                while i < count
                    invariant
                        i <= count,
                        actions_view(out@) == before + backspace_presses(i as nat),
                    decreases count - i,
                {
                    emit(
                        out,
                        IbusAction::ForwardKeyEvent {
                            keyval: KEY_BACKSPACE,
                            keycode: KEYCODE_BACKSPACE,
                            modifiers: 0,
                        },
                    );
                    assert(backspace_presses((i + 1) as nat) =~= backspace_presses(i as nat).push(
                        backspace_press(),
                    ));
                    i = i + 1;
                }
            },
            DeleteMode::BackspacePair => {
                let mut i: usize = 0;
                while i < count
                    invariant
                        i <= count,
                        actions_view(out@) == before + backspace_pairs(i as nat),
                    decreases count - i,
                {
                    emit(
                        out,
                        IbusAction::ForwardKeyEvent {
                            keyval: KEY_BACKSPACE,
                            keycode: KEYCODE_BACKSPACE,
                            modifiers: 0,
                        },
                    );
                    emit(
                        out,
                        IbusAction::ForwardKeyEvent {
                            keyval: KEY_BACKSPACE,
                            keycode: KEYCODE_BACKSPACE,
                            modifiers: IBUS_RELEASE_MASK,
                        },
                    );
                    assert(backspace_pairs((i + 1) as nat) == backspace_pairs(i as nat).push(
                        backspace_press(),
                    ).push(backspace_release()));
                    assert(actions_view(out@) =~= before + backspace_pairs((i + 1) as nat));
                    i = i + 1;
                }
            },
            DeleteMode::Surrounding => {
                if !matches {
                    assert(actions_view(out@) =~= before + Seq::empty());
                    return false;
                }
                emit(
                    out,
                    IbusAction::DeleteSurroundingText {
                        offset_from_cursor: 0i32.wrapping_sub(count as i32),
                        nchars: count as u32,
                    },
                );
                assert(actions_view(out@) =~= before + spec_delete_rendered(old(self)@, matches).1);
            },
        }
        self.clear_rendered();
        true
    }

    fn commit_composition(&mut self, out: &mut Vec<IbusAction>, trigger: CommitTrigger)
        ensures
            final(self)@ == spec_commit_composition(old(self)@).0,
            actions_view(final(out)@) == actions_view(old(out)@) + spec_commit_composition(
                old(self)@,
            ).1,
    {
        let ghost before = actions_view(out@);
        let ghost e = self@;
        match self.effective_render_mode() {
            RenderMode::VisibleTail => {
                self.composer.reset();
                self.clear_rendered();
                emit(out, IbusAction::ClearPreedit);
                assert(actions_view(out@) =~= before + spec_commit_composition(e).1);
            },
            RenderMode::Preedit => {
                if let Some(text) = self.composer.commit() {
                    commit_text_action(out, text);
                }
                emit(out, IbusAction::ClearPreedit);
                self.clear_rendered();
                assert(actions_view(out@) =~= before + spec_commit_composition(e).1);
            },
            RenderMode::Delayed | RenderMode::Safe => {
                if let Some(text) = self.composer.commit() {
                    Self::commit_delayed_text(out, text.as_str());
                } else {
                    assert(actions_view(out@) =~= before + Seq::empty());
                }
                self.clear_rendered();
            },
            RenderMode::DelayedPreview => {
                if let Some(text) = self.composer.commit() {
                    Self::commit_delayed_text(out, text.as_str());
                } else {
                    assert(actions_view(out@) =~= before + Seq::empty());
                }
                emit(out, IbusAction::ClearPreedit);
                self.clear_rendered();
                assert(actions_view(out@) =~= before + spec_commit_composition(e).1);
            },
        }
    }

    fn apply_preedit_result(out: &mut Vec<IbusAction>, result: InputResult)
        ensures
            actions_view(final(out)@) == actions_view(old(out)@) + preedit_result_actions(result@),
    {
        let ghost before = actions_view(out@);
        let ghost r = result@;
        match result {
            InputResult::PreeditChanged { preedit } => emit(out, IbusAction::UpdatePreedit(preedit)),
            InputResult::Commit { text } => {
                commit_text_action(out, text);
                emit(out, IbusAction::ClearPreedit);
            },
            InputResult::CommitAndPreedit { commit, preedit } => {
                commit_text_action(out, commit);
                emit(out, IbusAction::UpdatePreedit(preedit));
            },
            InputResult::Clear => emit(out, IbusAction::ClearPreedit),
        }
        assert(actions_view(out@) =~= before + preedit_result_actions(r));
    }

    fn apply_visible_tail_key(&mut self, out: &mut Vec<IbusAction>, key: char, matches: bool)
        ensures
            final(self)@ == spec_visible_tail_key(old(self)@, key, matches).0,
            actions_view(final(out)@) == actions_view(old(out)@) + spec_visible_tail_key(
                old(self)@,
                key,
                matches,
            ).1,
    {
        let ghost before = actions_view(out@);
        let ghost e = self@;
        if !self.delete_rendered_text(out, matches) {
            let _ = self.composer.input_key(key);
            return;
        }
        let ghost deleted = actions_view(out@);
        let result = self.composer.input_key(key);
        match result {
            InputResult::PreeditChanged { preedit } => {
                self.render_tail(out, preedit.as_str());
                assert(actions_view(out@) =~= before + spec_visible_tail_key(e, key, matches).1);
            },
            InputResult::Commit { text } => {
                let text = visible_tail_text(text.as_str());
                commit_text_action(out, text);
                self.clear_rendered();
                emit(out, IbusAction::ClearPreedit);
                assert(actions_view(out@) =~= before + spec_visible_tail_key(e, key, matches).1);
            },
            InputResult::CommitAndPreedit { commit, preedit } => {
                let commit = visible_tail_text(commit.as_str());
                commit_text_action(out, commit);
                self.render_tail(out, preedit.as_str());
                assert(actions_view(out@) =~= before + spec_visible_tail_key(e, key, matches).1);
            },
            InputResult::Clear => {
                self.clear_rendered();
                emit(out, IbusAction::ClearPreedit);
                assert(actions_view(out@) =~= before + spec_visible_tail_key(e, key, matches).1);
            },
        }
    }

    fn apply_delayed_key(&mut self, out: &mut Vec<IbusAction>, key: char)
        ensures
            final(self)@ == spec_delayed_key(old(self)@, key).0,
            actions_view(final(out)@) == actions_view(old(out)@) + spec_delayed_key(old(self)@, key).1,
    {
        let ghost before = actions_view(out@);
        let result = self.composer.input_key(key);
        match result {
            InputResult::PreeditChanged { .. } => {
                assert(actions_view(out@) =~= before + Seq::empty());
            },
            InputResult::Commit { text } => {
                Self::commit_delayed_text(out, text.as_str());
            },
            InputResult::CommitAndPreedit { commit, .. } => {
                Self::commit_delayed_text(out, commit.as_str());
            },
            InputResult::Clear => {
                assert(actions_view(out@) =~= before + Seq::empty());
            },
        }
        self.clear_rendered();
    }

    fn apply_delayed_preview_key(&mut self, out: &mut Vec<IbusAction>, key: char)
        ensures
            final(self)@ == spec_delayed_preview_key(old(self)@, key).0,
            actions_view(final(out)@) == actions_view(old(out)@) + spec_delayed_preview_key(
                old(self)@,
                key,
            ).1,
    {
        let ghost before = actions_view(out@);
        let ghost e = self@;
        let result = self.composer.input_key(key);
        match result {
            InputResult::PreeditChanged { preedit } => {
                emit(out, IbusAction::UpdatePreedit(visible_tail_text(preedit.as_str())));
                assert(actions_view(out@) =~= before + spec_delayed_preview_key(e, key).1);
            },
            InputResult::Commit { text } => {
                Self::commit_delayed_text(out, text.as_str());
                emit(out, IbusAction::ClearPreedit);
                assert(actions_view(out@) =~= before + spec_delayed_preview_key(e, key).1);
            },
            InputResult::CommitAndPreedit { commit, preedit } => {
                Self::commit_delayed_text(out, commit.as_str());
                emit(out, IbusAction::UpdatePreedit(visible_tail_text(preedit.as_str())));
                assert(actions_view(out@) =~= before + spec_delayed_preview_key(e, key).1);
            },
            InputResult::Clear => {
                emit(out, IbusAction::ClearPreedit);
                assert(actions_view(out@) =~= before + spec_delayed_preview_key(e, key).1);
            },
        }
        self.clear_rendered();
    }

    fn process_ko(&mut self, out: &mut Vec<IbusAction>, keyval: u32, modifiers: u32, matches: bool) -> (handled: bool)
        ensures
            final(self)@ == spec_process_ko(old(self)@, keyval, modifiers, matches).0,
            actions_view(final(out)@) == actions_view(old(out)@) + spec_process_ko(
                old(self)@,
                keyval,
                modifiers,
                matches,
            ).1,
            handled == spec_process_ko(old(self)@, keyval, modifiers, matches).2,
    {
        let ghost before = actions_view(out@);
        if has_command_modifier(modifiers) {
            if self.effective_render_mode() != RenderMode::Preedit {
                self.commit_composition(out, CommitTrigger::Command);
            } else {
                assert(actions_view(out@) =~= before + Seq::empty());
            }
            return false;
        }
        if let Some(trigger) = commit_trigger(keyval) {
            self.commit_composition(out, trigger);
            return false;
        }
        let ch = match ascii_letter(keyval) {
            Some(ch) => ch,
            None => {
                self.commit_composition(out, CommitTrigger::Other);
                return false;
            },
        };
        let key = ko_key_for_modifiers(ch, modifiers);
        match self.effective_render_mode() {
            RenderMode::Preedit => {
                let result = self.composer.input_key(key);
                Self::apply_preedit_result(out, result);
            },
            RenderMode::VisibleTail => self.apply_visible_tail_key(out, key, matches),
            RenderMode::Delayed => self.apply_delayed_key(out, key),
            RenderMode::DelayedPreview => self.apply_delayed_preview_key(out, key),
            RenderMode::Safe => {
                let _ = self.composer.input_key(key);
                assert(actions_view(out@) =~= before + Seq::empty());
            },
        }
        true
    }

    fn process_backspace(&mut self, out: &mut Vec<IbusAction>, matches: bool) -> (handled: bool)
        ensures
            final(self)@ == spec_process_backspace(old(self)@, matches).0,
            actions_view(final(out)@) == actions_view(old(out)@) + spec_process_backspace(
                old(self)@,
                matches,
            ).1,
            handled == spec_process_backspace(old(self)@, matches).2,
    {
        let ghost before = actions_view(out@);
        let ghost e = self@;
        let preedit_empty = self.composer.preedit().as_str().is_empty();
        match self.effective_render_mode() {
            RenderMode::Preedit => {
                if !preedit_empty {
                    self.commit_composition(out, CommitTrigger::Other);
                } else {
                    assert(actions_view(out@) =~= before + Seq::empty());
                }
                false
            },
            RenderMode::VisibleTail => {
                if self.rendered_text.as_str().is_empty() && preedit_empty {
                    assert(actions_view(out@) =~= before + Seq::empty());
                    return false;
                }
                if !self.delete_rendered_text(out, matches) {
                    self.composer.reset();
                    self.clear_rendered();
                    return true;
                }
                let result = self.composer.backspace();
                match result {
                    InputResult::PreeditChanged { preedit } => {
                        self.render_tail(out, preedit.as_str());
                    },
                    InputResult::Clear => self.clear_rendered(),
                    InputResult::Commit { text } => {
                        commit_text_action(out, visible_tail_text(text.as_str()));
                    },
                    InputResult::CommitAndPreedit { commit, preedit } => {
                        commit_text_action(out, visible_tail_text(commit.as_str()));
                        self.render_tail(out, preedit.as_str());
                    },
                }
                assert(actions_view(out@) =~= before + spec_process_backspace(e, matches).1);
                true
            },
            RenderMode::Delayed | RenderMode::Safe => {
                if preedit_empty {
                    assert(actions_view(out@) =~= before + Seq::empty());
                    return false;
                }
                let _ = self.composer.backspace();
                assert(actions_view(out@) =~= before + Seq::empty());
                true
            },
            RenderMode::DelayedPreview => {
                if preedit_empty {
                    assert(actions_view(out@) =~= before + Seq::empty());
                    return false;
                }
                if let Some(text) = self.composer.commit() {
                    Self::commit_delayed_text(out, text.as_str());
                } else {
                    assert(actions_view(out@) =~= before + Seq::empty());
                }
                emit(out, IbusAction::ClearPreedit);
                self.clear_rendered();
                emit(
                    out,
                    IbusAction::ForwardKeyEvent {
                        keyval: KEY_BACKSPACE,
                        keycode: KEYCODE_BACKSPACE,
                        modifiers: 0,
                    },
                );
                assert(actions_view(out@) =~= before + spec_process_backspace(e, matches).1);
                true
            },
        }
    }

    fn process_escape(&mut self, out: &mut Vec<IbusAction>, matches: bool) -> (handled: bool)
        ensures
            final(self)@ == spec_process_escape(old(self)@, matches).0,
            actions_view(final(out)@) == actions_view(old(out)@) + spec_process_escape(
                old(self)@,
                matches,
            ).1,
            handled == spec_process_escape(old(self)@, matches).2,
    {
        let ghost before = actions_view(out@);
        let ghost e = self@;
        let preedit_empty = self.composer.preedit().as_str().is_empty();
        match self.effective_render_mode() {
            RenderMode::Preedit | RenderMode::DelayedPreview => {
                if preedit_empty {
                    assert(actions_view(out@) =~= before + Seq::empty());
                    return false;
                }
                self.composer.reset();
                emit(out, IbusAction::ClearPreedit);
                assert(actions_view(out@) =~= before + spec_process_escape(e, matches).1);
                true
            },
            RenderMode::VisibleTail => {
                if self.rendered_text.as_str().is_empty() && preedit_empty {
                    assert(actions_view(out@) =~= before + Seq::empty());
                    return false;
                }
                if !self.delete_rendered_text(out, matches) {
                    self.composer.reset();
                    self.clear_rendered();
                    return true;
                }
                self.composer.reset();
                self.clear_rendered();
                emit(out, IbusAction::ClearPreedit);
                true
            },
            RenderMode::Delayed | RenderMode::Safe => {
                if preedit_empty {
                    assert(actions_view(out@) =~= before + Seq::empty());
                    return false;
                }
                self.composer.reset();
                assert(actions_view(out@) =~= before + Seq::empty());
                true
            },
        }
    }

    /// Whether `process_key_event` for this key asks if the text before the
    /// cursor ends with the shown text (`rendered_text`).
    pub fn needs_surrounding_check(&self, keyval: u32, modifiers: u32) -> (r: bool)
        ensures
            r == spec_surrounding_check_needed(self@, keyval, modifiers),
    {
        if self.delete_mode != DeleteMode::Surrounding || self.rendered_text.as_str().is_empty()
            || self.effective_render_mode() != RenderMode::VisibleTail {
            return false;
        }
        if modifiers & IBUS_RELEASE_MASK != 0 || keyval == KEY_CAPS_LOCK || is_modifier_key(keyval) {
            return false;
        }
        if keyval == KEY_ESCAPE || keyval == KEY_BACKSPACE {
            return true;
        }
        self.modes.mode() == InputMode::Ko && !has_command_modifier(modifiers) && commit_trigger(
            keyval,
        ).is_none() && ascii_letter(keyval).is_some()
    }

    /// Processes one key event. `surrounding_matches` tells whether the text
    /// before the cursor ends with `rendered_text`; it is only used where
    /// `needs_surrounding_check` says so.
    pub fn process_key_event(
        &mut self,
        keyval: u32,
        keycode: u32,
        modifiers: u32,
        surrounding_matches: bool,
    ) -> (r: KeyEventOutcome)
        ensures
            final(self)@ == spec_process_key_event(
                old(self)@,
                keyval,
                keycode,
                modifiers,
                surrounding_matches,
            ).0,
            actions_view(r.actions@) == spec_process_key_event(
                old(self)@,
                keyval,
                keycode,
                modifiers,
                surrounding_matches,
            ).1,
            r.handled == spec_process_key_event(
                old(self)@,
                keyval,
                keycode,
                modifiers,
                surrounding_matches,
            ).2,
    {
        let mut out: Vec<IbusAction> = Vec::new();
        proof {
            assert(actions_view(out@) =~= Seq::empty());
        }
        let handled = self.process_key_event_into(&mut out, keyval, keycode, modifiers, surrounding_matches);
        KeyEventOutcome { handled, actions: out }
    }

    fn process_key_event_into(
        &mut self,
        out: &mut Vec<IbusAction>,
        keyval: u32,
        keycode: u32,
        modifiers: u32,
        matches: bool,
    ) -> (handled: bool)
        requires
            actions_view(old(out)@) == Seq::<ActionView>::empty(),
        ensures
            final(self)@ == spec_process_key_event(old(self)@, keyval, keycode, modifiers, matches).0,
            actions_view(final(out)@) == spec_process_key_event(
                old(self)@,
                keyval,
                keycode,
                modifiers,
                matches,
            ).1,
            handled == spec_process_key_event(old(self)@, keyval, keycode, modifiers, matches).2,
    {
        let ghost e = self@;
        if modifiers & IBUS_RELEASE_MASK != 0 {
            return keyval == KEY_CAPS_LOCK;
        }
        if keyval == KEY_CAPS_LOCK {
            self.commit_composition(out, CommitTrigger::CapsLock);
            if modifiers & IBUS_SHIFT_MASK != 0 {
                self.modes.shift_caps();
            } else {
                self.modes.caps_tap();
            }
            emit(out, IbusAction::ClearPreedit);
            proof {
                assert(actions_view(out@) =~= spec_process_key_event(e, keyval, keycode, modifiers, matches).1);
            }
            return true;
        }
        if is_modifier_key(keyval) {
            return false;
        }
        if keyval == KEY_ESCAPE {
            let h = self.process_escape(out, matches);
            proof {
                assert(actions_view(out@) =~= spec_process_key_event(e, keyval, keycode, modifiers, matches).1);
            }
            return h;
        }
        if keyval == KEY_BACKSPACE {
            let h = self.process_backspace(out, matches);
            proof {
                assert(actions_view(out@) =~= spec_process_key_event(e, keyval, keycode, modifiers, matches).1);
            }
            return h;
        }
        let h = match self.modes.mode() {
            InputMode::En | InputMode::EnCaps => process_en(out, keyval, keycode, modifiers),
            InputMode::Ko => self.process_ko(out, keyval, modifiers, matches),
        };
        proof {
            assert(actions_view(out@) =~= spec_process_key_event(e, keyval, keycode, modifiers, matches).1);
        }
        h
    }

    /// Accepts the composition when the input context loses focus or is reset.
    pub fn reset_state(&mut self) -> (actions: Vec<IbusAction>)
        ensures
            final(self)@ == spec_commit_composition(old(self)@).0,
            actions_view(actions@) == spec_commit_composition(old(self)@).1,
    {
        let mut out: Vec<IbusAction> = Vec::new();
        proof {
            assert(actions_view(out@) =~= Seq::empty());
        }
        self.commit_composition(&mut out, CommitTrigger::FocusOut);
        proof {
            assert(actions_view(out@) =~= Seq::empty() + spec_commit_composition(old(self)@).1);
        }
        out
    }
}

// ---------------------------------------------------------------------------
// Laws
// ---------------------------------------------------------------------------

/// The answer about the surrounding text matters only where the engine asks
/// for it: elsewhere both answers give the same outcome.
pub proof fn lemma_surrounding_answer_only_where_asked(e: EngineView, keyval: u32, keycode: u32, modifiers: u32)
    requires
        !spec_surrounding_check_needed(e, keyval, modifiers),
    ensures
        spec_process_key_event(e, keyval, keycode, modifiers, true) == spec_process_key_event(
            e,
            keyval,
            keycode,
            modifiers,
            false,
        ),
{
}

/// Caps Lock accepts the composition, switches the mode (Shift + Caps Lock as
/// a hold, Caps Lock alone as a tap), hides the preedit and is consumed.
pub proof fn lemma_caps_lock_switches_mode(e: EngineView, keycode: u32, modifiers: u32, matches: bool)
    requires
        !has_mask(modifiers, IBUS_RELEASE_MASK),
    ensures
        ({
            let (e1, a, handled) = spec_process_key_event(e, KEY_CAPS_LOCK, keycode, modifiers, matches);
            &&& handled
            &&& e1.composer == empty_composition()
            &&& e1.rendered_text.len() == 0
            &&& e1.mode == (if has_mask(modifiers, IBUS_SHIFT_MASK) {
                held(e.mode)
            } else {
                tapped(e.mode)
            })
            &&& a.len() > 0 && a.last() == ActionView::ClearPreedit
        }),
{
}

/// In Korean mode a key that ends a composition (Return, Space, Tab, arrows,
/// symbols, digits) accepts the composition, leaves nothing composed or shown,
/// and goes on to the application.
pub proof fn lemma_commit_trigger_accepts_composition(e: EngineView, keyval: u32, keycode: u32, modifiers: u32, matches: bool)
    requires
        e.mode == InputMode::Ko,
        !has_mask(modifiers, IBUS_RELEASE_MASK),
        spec_commit_trigger(keyval) is Some,
    ensures
        ({
            let (e1, a, handled) = spec_process_key_event(e, keyval, keycode, modifiers, matches);
            &&& !handled
            &&& spec_has_command_modifier(modifiers) && spec_effective_render_mode(e) == RenderMode::Preedit
                || (e1.composer == empty_composition() && e1.rendered_text.len() == 0)
        }),
{
}

/// In Korean mode a letter without Control or Alt is always consumed: the raw
/// key never reaches the application.
pub proof fn lemma_letters_are_consumed_in_korean_mode(e: EngineView, keyval: u32, keycode: u32, modifiers: u32, matches: bool)
    requires
        e.mode == InputMode::Ko,
        !has_mask(modifiers, IBUS_RELEASE_MASK),
        !spec_has_command_modifier(modifiers),
        spec_ascii_letter(keyval) is Some,
    ensures
        spec_process_key_event(e, keyval, keycode, modifiers, matches).2,
{
}

/// Delayed and safe modes never show a preedit.
pub proof fn lemma_delayed_modes_show_no_preedit(e: EngineView, keyval: u32, keycode: u32, modifiers: u32, matches: bool, i: int)
    requires
        spec_effective_render_mode(e) == RenderMode::Delayed || spec_effective_render_mode(e)
            == RenderMode::Safe,
        0 <= i < spec_process_key_event(e, keyval, keycode, modifiers, matches).1.len(),
    ensures
        !(spec_process_key_event(e, keyval, keycode, modifiers, matches).1[i] is UpdatePreedit),
{
}

/// Modifier keys alone change nothing and go to the application.
pub proof fn lemma_modifier_keys_pass_through(e: EngineView, keyval: u32, keycode: u32, modifiers: u32, matches: bool)
    requires
        spec_is_modifier_key(keyval),
    ensures
        spec_process_key_event(e, keyval, keycode, modifiers, matches) == (e, Seq::<ActionView>::empty(), false),
{
}

/// The text shown in the application is at most one character (the syllable
/// under composition), whatever key comes.
pub proof fn lemma_rendered_text_is_one_syllable(e: EngineView, keyval: u32, keycode: u32, modifiers: u32, matches: bool)
    requires
        e.rendered_text.len() <= 1,
    ensures
        spec_process_key_event(e, keyval, keycode, modifiers, matches).0.rendered_text.len() <= 1,
{
}

/// Taking back one shown character through the surrounding text deletes
/// exactly the one character before the cursor.
pub proof fn lemma_surrounding_delete_is_exact(e: EngineView)
    requires
        e.rendered_text.len() == 1,
        e.delete_mode == DeleteMode::Surrounding,
    ensures
        spec_delete_rendered(e, true).1 == seq![ActionView::DeleteSurroundingText(-1i32, 1u32)],
        spec_delete_rendered(e, true).0.rendered_text.len() == 0,
{
    assert(0i32.wrapping_sub(1i32) == -1);
}

/// Every character the engine holds, composed or shown, is Hangul.
pub open spec fn engine_is_hangul(e: EngineView) -> bool {
    composition_is_hangul(e.composer) && hangul_text(e.rendered_text)
}

/// The text a request carries, if any, is Hangul.
pub open spec fn action_is_hangul(a: ActionView) -> bool {
    match a {
        ActionView::CommitText(t) => hangul_text(t),
        ActionView::UpdatePreedit(t) => hangul_text(t),
        _ => true,
    }
}

pub open spec fn actions_are_hangul(a: Seq<ActionView>) -> bool {
    forall|i: int| 0 <= i < a.len() ==> action_is_hangul(#[trigger] a[i])
}

proof fn lemma_concat_hangul(a: Seq<ActionView>, b: Seq<ActionView>)
    requires
        actions_are_hangul(a),
        actions_are_hangul(b),
    ensures
        actions_are_hangul(a + b),
{
    assert forall|i: int| 0 <= i < (a + b).len() implies action_is_hangul(#[trigger] (a + b)[i]) by {
        if i < a.len() {
            assert((a + b)[i] == a[i]);
        } else {
            assert((a + b)[i] == b[i - a.len()]);
        }
    }
}

proof fn lemma_tail_is_hangul(t: Seq<char>)
    requires
        hangul_text(t),
    ensures
        hangul_text(visible_tail(t)),
{
    assert forall|i: int| 0 <= i < visible_tail(t).len() implies is_hangul(#[trigger] visible_tail(t)[i]) by {
        lemma_composed_syllables_are_hangul('ㅇ', t[i], None);
    }
}

proof fn lemma_letters_are_layout_keys(ch: char, modifiers: u32)
    requires
        is_ascii_alphabetic_code(ch as u32),
    ensures
        spec_map_key(spec_ko_key(ch, modifiers)) is Some,
{
}

proof fn lemma_commit_composition_hangul(e: EngineView)
    requires
        engine_is_hangul(e),
    ensures
        engine_is_hangul(spec_commit_composition(e).0),
        actions_are_hangul(spec_commit_composition(e).1),
{
    lemma_preedit_is_hangul(e.composer);
    lemma_tail_is_hangul(spec_preedit(e.composer));
    let a = spec_commit_composition(e).1;
    assert(actions_are_hangul(a)) by {
        assert forall|i: int| 0 <= i < a.len() implies action_is_hangul(#[trigger] a[i]) by {
            if spec_effective_render_mode(e) == RenderMode::DelayedPreview {
                lemma_concat_hangul(optional_delayed_commit(spec_commit_text(e.composer)), seq![ActionView::ClearPreedit]);
            }
            if spec_effective_render_mode(e) == RenderMode::Preedit {
                let c = match spec_commit_text(e.composer) {
                    Some(t) => seq![ActionView::CommitText(t)],
                    None => Seq::empty(),
                };
                lemma_concat_hangul(c, seq![ActionView::ClearPreedit]);
            }
        }
    }
}

proof fn lemma_delete_rendered_hangul(e: EngineView, matches: bool)
    requires
        engine_is_hangul(e),
    ensures
        engine_is_hangul(spec_delete_rendered(e, matches).0),
        actions_are_hangul(spec_delete_rendered(e, matches).1),
{
    let n = e.rendered_text.len();
    if e.delete_mode == DeleteMode::BackspacePair {
        lemma_backspace_pairs_hangul(n);
    }
}

proof fn lemma_backspace_pairs_hangul(n: nat)
    ensures
        actions_are_hangul(backspace_pairs(n)),
    decreases n,
{
    if n > 0 {
        lemma_backspace_pairs_hangul((n - 1) as nat);
        let p = backspace_pairs((n - 1) as nat);
        assert forall|i: int| 0 <= i < backspace_pairs(n).len() implies action_is_hangul(
            #[trigger] backspace_pairs(n)[i],
        ) by {
            if i < p.len() {
                assert(backspace_pairs(n)[i] == p[i]);
            }
        }
    }
}

proof fn lemma_render_tail_hangul(e: EngineView, t: Seq<char>)
    requires
        engine_is_hangul(e),
        hangul_text(t),
    ensures
        engine_is_hangul(spec_render_tail(e, t).0),
        actions_are_hangul(spec_render_tail(e, t).1),
{
    lemma_tail_is_hangul(t);
}

proof fn lemma_letter_hangul(e: EngineView, key: char, matches: bool)
    requires
        engine_is_hangul(e),
        spec_map_key(key) is Some,
    ensures
        engine_is_hangul(spec_visible_tail_key(e, key, matches).0),
        actions_are_hangul(spec_visible_tail_key(e, key, matches).1),
        engine_is_hangul(spec_delayed_key(e, key).0),
        actions_are_hangul(spec_delayed_key(e, key).1),
        engine_is_hangul(spec_delayed_preview_key(e, key).0),
        actions_are_hangul(spec_delayed_preview_key(e, key).1),
        composition_is_hangul(spec_input_key(e.composer, key).0),
        actions_are_hangul(preedit_result_actions(spec_input_key(e.composer, key).1)),
{
    lemma_layout_keys_give_hangul(e.composer, key);
    let (c, r) = spec_input_key(e.composer, key);
    match r {
        InputResultView::PreeditChanged(p) => lemma_tail_is_hangul(p),
        InputResultView::Commit(t) => lemma_tail_is_hangul(t),
        InputResultView::CommitAndPreedit(cm, p) => {
            lemma_tail_is_hangul(cm);
            lemma_tail_is_hangul(p);
        },
        InputResultView::Clear => {},
    }
    // visible tail
    let (e1, deleted, ok) = spec_delete_rendered(e, matches);
    lemma_delete_rendered_hangul(e, matches);
    assert(e1.composer == e.composer);
    lemma_layout_keys_give_hangul(e1.composer, key);
    let e2 = with_composer(e1, c);
    assert(engine_is_hangul(e2));
    if ok {
        match r {
            InputResultView::PreeditChanged(p) => {
                lemma_render_tail_hangul(e2, p);
                lemma_concat_hangul(deleted, spec_render_tail(e2, p).1);
            },
            InputResultView::Commit(t) => {
                lemma_concat_hangul(
                    deleted,
                    seq![ActionView::CommitText(visible_tail(t)), ActionView::ClearPreedit],
                );
            },
            InputResultView::CommitAndPreedit(cm, p) => {
                lemma_render_tail_hangul(e2, p);
                let first = deleted + seq![ActionView::CommitText(visible_tail(cm))];
                lemma_concat_hangul(deleted, seq![ActionView::CommitText(visible_tail(cm))]);
                lemma_concat_hangul(first, spec_render_tail(e2, p).1);
            },
            InputResultView::Clear => {
                lemma_concat_hangul(deleted, seq![ActionView::ClearPreedit]);
            },
        }
    }
    // delayed preview
    match r {
        InputResultView::Commit(t) => {
            lemma_concat_hangul(commit_delayed_actions(t), seq![ActionView::ClearPreedit]);
        },
        InputResultView::CommitAndPreedit(cm, p) => {
            lemma_concat_hangul(
                commit_delayed_actions(cm),
                seq![ActionView::UpdatePreedit(visible_tail(p))],
            );
        },
        _ => {},
    }
}

proof fn lemma_backspace_escape_hangul(e: EngineView, matches: bool)
    requires
        engine_is_hangul(e),
    ensures
        engine_is_hangul(spec_process_backspace(e, matches).0),
        actions_are_hangul(spec_process_backspace(e, matches).1),
        engine_is_hangul(spec_process_escape(e, matches).0),
        actions_are_hangul(spec_process_escape(e, matches).1),
{
    lemma_commit_composition_hangul(e);
    lemma_delete_rendered_hangul(e, matches);
    lemma_preedit_is_hangul(e.composer);
    lemma_tail_is_hangul(spec_preedit(e.composer));
    let (e1, deleted, ok) = spec_delete_rendered(e, matches);
    assert(e1.composer == e.composer);
    lemma_backspace_keeps_hangul(e1.composer);
    let (c, r) = spec_backspace(e1.composer);
    let e2 = with_composer(e1, c);
    assert(engine_is_hangul(e2));
    match r {
        InputResultView::PreeditChanged(p) => {
            lemma_render_tail_hangul(e2, p);
            lemma_concat_hangul(deleted, spec_render_tail(e2, p).1);
        },
        InputResultView::Commit(t) => {
            lemma_tail_is_hangul(t);
            lemma_concat_hangul(deleted, seq![ActionView::CommitText(visible_tail(t))]);
        },
        InputResultView::CommitAndPreedit(cm, p) => {
            lemma_tail_is_hangul(cm);
            lemma_render_tail_hangul(e2, p);
            lemma_concat_hangul(deleted, seq![ActionView::CommitText(visible_tail(cm))]);
            lemma_concat_hangul(
                deleted + seq![ActionView::CommitText(visible_tail(cm))],
                spec_render_tail(e2, p).1,
            );
        },
        InputResultView::Clear => {},
    }
    lemma_concat_hangul(
        optional_delayed_commit(spec_commit_text(e.composer)),
        seq![ActionView::ClearPreedit, backspace_press()],
    );
    assert(actions_are_hangul(deleted.push(ActionView::ClearPreedit))) by {
        lemma_concat_hangul(deleted, seq![ActionView::ClearPreedit]);
        assert(deleted.push(ActionView::ClearPreedit) =~= deleted + seq![ActionView::ClearPreedit]);
    }
}

/// In Korean mode no raw Latin key reaches the application as text: every
/// text the engine commits or shows is Hangul, whatever key comes. In every
/// mode the engine keeps holding Hangul only, so this holds for good from a
/// fresh engine on.
pub proof fn lemma_korean_mode_sends_only_hangul(
    e: EngineView,
    keyval: u32,
    keycode: u32,
    modifiers: u32,
    matches: bool,
)
    requires
        engine_is_hangul(e),
    ensures
        engine_is_hangul(spec_process_key_event(e, keyval, keycode, modifiers, matches).0),
        e.mode == InputMode::Ko ==> actions_are_hangul(
            spec_process_key_event(e, keyval, keycode, modifiers, matches).1,
        ),
{
    lemma_commit_composition_hangul(e);
    lemma_backspace_escape_hangul(e, matches);
    let (e1, a) = spec_commit_composition(e);
    assert(actions_are_hangul(a.push(ActionView::ClearPreedit))) by {
        lemma_concat_hangul(a, seq![ActionView::ClearPreedit]);
        assert(a.push(ActionView::ClearPreedit) =~= a + seq![ActionView::ClearPreedit]);
    }
    if let Some(ch) = spec_ascii_letter(keyval) {
        lemma_letters_are_layout_keys(ch, modifiers);
        lemma_letter_hangul(e, spec_ko_key(ch, modifiers), matches);
    }
}

/// No request in the list commits text.
pub open spec fn commits_nothing(a: Seq<ActionView>) -> bool {
    forall|i: int| 0 <= i < a.len() ==> !(#[trigger] a[i] is CommitText)
}

/// In Korean mode a key that ends the composition (Return, Space, Tab, an
/// arrow, a symbol or a digit) right after another one commits nothing: the
/// text is never committed twice. In visible-tail mode, where the text is
/// already in the application, not even the first one commits it again.
pub proof fn lemma_no_duplicate_commit(
    e: EngineView,
    k1: u32,
    c1: u32,
    m1: u32,
    k2: u32,
    c2: u32,
    m2: u32,
    matches1: bool,
    matches2: bool,
)
    requires
        e.mode == InputMode::Ko,
        !has_mask(m1, IBUS_RELEASE_MASK),
        !has_mask(m2, IBUS_RELEASE_MASK),
        !spec_has_command_modifier(m1),
        spec_commit_trigger(k1) is Some,
        spec_commit_trigger(k2) is Some,
    ensures
        ({
            let (e1, a1, h1) = spec_process_key_event(e, k1, c1, m1, matches1);
            let (e2, a2, h2) = spec_process_key_event(e1, k2, c2, m2, matches2);
            &&& !h1 && !h2
            &&& commits_nothing(a2)
            &&& spec_effective_render_mode(e) == RenderMode::VisibleTail ==> commits_nothing(a1)
        }),
{
    let (e1, a1, h1) = spec_process_key_event(e, k1, c1, m1, matches1);
    assert(e1 == spec_commit_composition(e).0);
    assert(spec_effective_render_mode(e1) == spec_effective_render_mode(e));
    assert(spec_commit_text(e1.composer) is None);
}

/// The case of a letter's key value never matters, in either mode: Caps Lock
/// or an uppercase key value alone gives the same letter as the lowercase key;
/// only the Shift modifier (without Control or Alt, in Korean mode) makes it
/// uppercase.
pub proof fn lemma_case_comes_from_shift(ch: char, modifiers: u32)
    requires
        is_ascii_alphabetic_code(ch as u32),
    ensures
        spec_ko_key(ascii_upper(ch), modifiers) == spec_ko_key(ascii_lower(ch), modifiers),
        spec_en_key(ascii_upper(ch), modifiers) == spec_en_key(ascii_lower(ch), modifiers),
{
    let u = ascii_upper(ch);
    let l = ascii_lower(ch);
    assert(ascii_upper(u) == u && ascii_lower(u) == l && ascii_upper(l) == u && ascii_lower(l) == l) by {
        if 'a' <= ch <= 'z' {
            assert((((ch as u32) - 32) as char) as u32 == (ch as u32) - 32);
        } else {
            assert((((ch as u32) + 32) as char) as u32 == (ch as u32) + 32);
        }
    }
}

/// What an application does with one request, as a text field does: a
/// commit inserts its text at the cursor, a Backspace press (not its release)
/// deletes the character before the cursor, and deleting the `n` characters
/// right before the cursor deletes them. Preedit requests and other keys
/// leave the text as it is.
pub open spec fn text_after_action(text: Seq<char>, a: ActionView) -> Seq<char> {
    match a {
        ActionView::CommitText(t) => text + t,
        ActionView::ForwardKeyEvent(keyval, _, modifiers) => if keyval == KEY_BACKSPACE && !has_mask(
            modifiers,
            IBUS_RELEASE_MASK,
        ) && text.len() > 0 {
            text.drop_last()
        } else {
            text
        },
        ActionView::DeleteSurroundingText(offset, n) => if offset as int == -(n as int) && n
            <= text.len() {
            text.take(text.len() - n)
        } else {
            text
        },
        _ => text,
    }
}

/// The application's text after the requests, in order.
pub open spec fn text_after(text: Seq<char>, actions: Seq<ActionView>) -> Seq<char>
    decreases actions.len(),
{
    if actions.len() == 0 {
        text
    } else {
        text_after_action(text_after(text, actions.drop_last()), actions.last())
    }
}

proof fn lemma_text_after_concat(text: Seq<char>, a: Seq<ActionView>, b: Seq<ActionView>)
    ensures
        text_after(text, a + b) == text_after(text_after(text, a), b),
    decreases b.len(),
{
    if b.len() == 0 {
        assert(a + b =~= a);
    } else {
        lemma_text_after_concat(text, a, b.drop_last());
        assert((a + b).drop_last() =~= a + b.drop_last());
        assert((a + b).last() == b.last());
    }
}

/// In visible-tail mode the engine shows the syllable under composition in
/// the application itself: the text it shows is the visible form of the
/// preedit, and the application's text ends with it.
pub open spec fn tail_tracks(e: EngineView, text: Seq<char>) -> bool {
    &&& e.rendered_text == visible_tail(spec_preedit(e.composer))
    &&& e.rendered_text.is_suffix_of(text)
}

proof fn lemma_delete_rendered_from_text(e: EngineView, text: Seq<char>)
    requires
        e.rendered_text.len() <= 1,
        e.rendered_text.is_suffix_of(text),
    ensures
        spec_delete_rendered(e, true).2,
        spec_delete_rendered(e, true).0 == cleared(e),
        text_after(text, spec_delete_rendered(e, true).1) == text.take(
            text.len() - e.rendered_text.len(),
        ),
{
    let n = e.rendered_text.len();
    let a = spec_delete_rendered(e, true).1;
    assert(!has_mask(0, IBUS_RELEASE_MASK) && has_mask(IBUS_RELEASE_MASK, IBUS_RELEASE_MASK)) by (bit_vector);
    if n == 0 {
        assert(text.take(text.len() as int) =~= text);
    } else {
        assert(text.len() >= 1);
        assert(text.drop_last() =~= text.take(text.len() - 1));
        match e.delete_mode {
            DeleteMode::Backspace => {
                assert(a =~= seq![backspace_press()]);
                assert(a.drop_last() =~= Seq::<ActionView>::empty());
                assert(text_after(text, a.drop_last()) == text);
                assert(text_after_action(text, backspace_press()) == text.drop_last());
            },
            DeleteMode::BackspacePair => {
                assert(backspace_pairs(0) =~= Seq::<ActionView>::empty());
                assert(a =~= seq![backspace_press(), backspace_release()]);
                assert(a.drop_last() =~= seq![backspace_press()]);
                assert(a.drop_last().drop_last() =~= Seq::<ActionView>::empty());
                assert(text_after(text, a.drop_last().drop_last()) == text);
                assert(text_after(text, a.drop_last()) == text.drop_last());
                assert(text_after_action(text.drop_last(), backspace_release()) == text.drop_last());
            },
            DeleteMode::Surrounding => {
                assert(0i32.wrapping_sub(1i32) == -1);
                assert((n as i32) == 1i32);
                assert(a == seq![ActionView::DeleteSurroundingText(-1i32, 1u32)]);
                assert(a.drop_last() =~= Seq::<ActionView>::empty());
                assert(text_after(text, a.drop_last()) == text);
            },
        }
    }
}

/// In visible-tail mode a letter keeps the engine in step with the
/// application. When the shown text is the visible form of the preedit and
/// the application's text ends with it (so the application answers that it
/// does), the letter takes the shown text back, inserts what the composer
/// committed and then the new syllable: afterwards the shown text is again
/// the visible form of the new preedit, and the application's text is what it
/// was without the old shown text, followed by the committed text and the new
/// shown text.
pub proof fn lemma_visible_tail_tracks_application(
    e: EngineView,
    keyval: u32,
    keycode: u32,
    modifiers: u32,
    text: Seq<char>,
)
    requires
        e.mode == InputMode::Ko,
        spec_effective_render_mode(e) == RenderMode::VisibleTail,
        composition_wf(e.composer),
        tail_tracks(e, text),
        !has_mask(modifiers, IBUS_RELEASE_MASK),
        !spec_has_command_modifier(modifiers),
        spec_ascii_letter(keyval) is Some,
    ensures
        ({
            let key = spec_ko_key(spec_ascii_letter(keyval)->0, modifiers);
            let (e1, a, handled) = spec_process_key_event(e, keyval, keycode, modifiers, true);
            &&& handled
            &&& tail_tracks(e1, text_after(text, a))
            &&& text_after(text, a) == text.take(text.len() - e.rendered_text.len()) + visible_tail(
                committed_by(spec_input_key(e.composer, key).1),
            ) + e1.rendered_text
        }),
{
    let ch = spec_ascii_letter(keyval)->0;
    let key = spec_ko_key(ch, modifiers);
    lemma_letters_are_layout_keys(ch, modifiers);
    lemma_preedit_shows_composition(e.composer);
    lemma_delete_rendered_from_text(e, text);
    let (e1, deleted, ok) = spec_delete_rendered(e, true);
    let base = text.take(text.len() - e.rendered_text.len());
    lemma_layout_key_leaves_preedit(e1.composer, key);
    let (c, r) = spec_input_key(e1.composer, key);
    let e2 = with_composer(e1, c);
    assert(spec_commit_trigger(keyval) is None);
    assert(spec_process_key_event(e, keyval, keycode, modifiers, true) == ({
        let (ev, av) = spec_visible_tail_key(e, key, true);
        (ev, av, true)
    }));
    match r {
        InputResultView::PreeditChanged(p) => {
            let (e3, shown) = spec_render_tail(e2, p);
            assert(visible_tail(p).len() == 1);
            assert(shown == seq![ActionView::CommitText(visible_tail(p))]);
            assert(spec_visible_tail_key(e, key, true) == (e3, deleted + shown));
            lemma_text_after_concat(text, deleted, shown);
            assert(shown.drop_last() =~= Seq::<ActionView>::empty());
            assert(text_after(base, shown.drop_last()) == base);
            assert(text_after(base, shown) == base + visible_tail(p));
            assert(visible_tail(Seq::<char>::empty()) =~= Seq::<char>::empty());
            assert(base + Seq::<char>::empty() + visible_tail(p) =~= base + visible_tail(p));
            let whole = base + visible_tail(p);
            assert(visible_tail(p).is_suffix_of(whole)) by {
                assert(whole.subrange(whole.len() - visible_tail(p).len(), whole.len() as int) =~= visible_tail(p));
            }
        },
        InputResultView::CommitAndPreedit(cm, p) => {
            let (e3, shown) = spec_render_tail(e2, p);
            let committed = seq![ActionView::CommitText(visible_tail(cm))];
            assert(visible_tail(p).len() == 1);
            assert(shown == seq![ActionView::CommitText(visible_tail(p))]);
            assert(spec_visible_tail_key(e, key, true) == (e3, deleted + committed + shown));
            lemma_text_after_concat(text, deleted, committed);
            lemma_text_after_concat(text, deleted + committed, shown);
            assert(committed.drop_last() =~= Seq::<ActionView>::empty());
            assert(shown.drop_last() =~= Seq::<ActionView>::empty());
            assert(text_after(base, committed.drop_last()) == base);
            assert(text_after(base, committed) == base + visible_tail(cm));
            let mid = base + visible_tail(cm);
            assert(text_after(mid, shown.drop_last()) == mid);
            assert(text_after(mid, shown) == mid + visible_tail(p));
            let whole = mid + visible_tail(p);
            assert(visible_tail(p).is_suffix_of(whole)) by {
                assert(whole.subrange(whole.len() - visible_tail(p).len(), whole.len() as int) =~= visible_tail(p));
            }
        },
        _ => {},
    }
}

/// In Korean mode a key that ends the composition (Return, Space, Tab, an
/// arrow, a symbol or a digit, or any key with Control or Alt outside preedit
/// mode) hands the composition's text to the application before the key goes
/// on: in preedit mode as it is, in the delayed modes in its visible form (a
/// lone vowel with the silent initial ㅇ), while in visible-tail mode the text
/// is already there and nothing is committed again. Afterwards nothing is
/// composed or shown, and the key is not consumed.
pub proof fn lemma_ending_key_sends_composition(
    e: EngineView,
    keyval: u32,
    keycode: u32,
    modifiers: u32,
    matches: bool,
)
    requires
        e.mode == InputMode::Ko,
        !has_mask(modifiers, IBUS_RELEASE_MASK),
        keyval != KEY_CAPS_LOCK && keyval != KEY_ESCAPE && keyval != KEY_BACKSPACE,
        !spec_is_modifier_key(keyval),
        (spec_has_command_modifier(modifiers) && spec_effective_render_mode(e) != RenderMode::Preedit)
            || (!spec_has_command_modifier(modifiers) && spec_commit_trigger(keyval) is Some),
    ensures
        ({
            let (e1, a, handled) = spec_process_key_event(e, keyval, keycode, modifiers, matches);
            let p = spec_preedit(e.composer);
            let mode = spec_effective_render_mode(e);
            &&& !handled
            &&& e1.composer == empty_composition()
            &&& e1.rendered_text.len() == 0
            &&& e1.mode == InputMode::Ko
            &&& p.len() > 0 && mode == RenderMode::Preedit ==> a.contains(ActionView::CommitText(p))
            &&& p.len() > 0 && mode != RenderMode::Preedit && mode != RenderMode::VisibleTail
                ==> a.contains(ActionView::CommitText(visible_tail(p)))
            &&& mode == RenderMode::VisibleTail ==> commits_nothing(a)
        }),
{
    let p = spec_preedit(e.composer);
    let a = spec_commit_composition(e).1;
    assert(spec_process_key_event(e, keyval, keycode, modifiers, matches) == ({
        let (e1, a1) = spec_commit_composition(e);
        (e1, a1, false)
    }));
    if p.len() > 0 {
        assert(visible_tail(p).len() == p.len());
        assert(a[0] == ActionView::CommitText(if spec_effective_render_mode(e) == RenderMode::Preedit {
            p
        } else {
            visible_tail(p)
        }) || spec_effective_render_mode(e) == RenderMode::VisibleTail);
    }
}

/// A key with Control or Alt in Korean mode, outside preedit mode, does to
/// the engine and the application exactly what Return does: the shortcut
/// accepts the composition, then goes to the application.
pub proof fn lemma_shortcut_accepts_like_return(
    e: EngineView,
    keyval: u32,
    keycode: u32,
    modifiers: u32,
    matches: bool,
)
    requires
        e.mode == InputMode::Ko,
        !has_mask(modifiers, IBUS_RELEASE_MASK),
        keyval != KEY_CAPS_LOCK && keyval != KEY_ESCAPE && keyval != KEY_BACKSPACE,
        !spec_is_modifier_key(keyval),
        spec_has_command_modifier(modifiers),
        spec_effective_render_mode(e) != RenderMode::Preedit,
    ensures
        spec_process_key_event(e, keyval, keycode, modifiers, matches) == spec_process_key_event(
            e,
            KEY_RETURN,
            keycode,
            0,
            matches,
        ),
{
    assert(!has_mask(0, IBUS_RELEASE_MASK) && !has_mask(0, IBUS_CONTROL_MASK) && !has_mask(
        0,
        IBUS_MOD1_MASK,
    )) by (bit_vector);
}

/// In Korean mode a letter goes to the composer, and the application sees
/// its result according to the mode: in preedit mode it receives exactly the
/// text the composer committed and its preedit shows the composer's syllable;
/// in delayed-preview mode it receives the visible form of the committed text
/// and its preedit shows the visible form of the syllable; in delayed mode it
/// receives the visible form of the committed text and no preedit at all; in
/// safe mode it receives nothing. The key is always consumed.
pub proof fn lemma_letter_outcome_by_mode(
    e: EngineView,
    keyval: u32,
    keycode: u32,
    modifiers: u32,
    matches: bool,
    text: Seq<char>,
)
    requires
        e.mode == InputMode::Ko,
        !has_mask(modifiers, IBUS_RELEASE_MASK),
        !spec_has_command_modifier(modifiers),
        spec_ascii_letter(keyval) is Some,
        composition_wf(e.composer),
        spec_effective_render_mode(e) != RenderMode::VisibleTail,
    ensures
        ({
            let key = spec_ko_key(spec_ascii_letter(keyval)->0, modifiers);
            let (c, r) = spec_input_key(e.composer, key);
            let (e1, a, handled) = spec_process_key_event(e, keyval, keycode, modifiers, matches);
            let mode = spec_effective_render_mode(e);
            &&& handled
            &&& e1.composer == c
            &&& mode == RenderMode::Preedit ==> text_after(text, a) == text + committed_by(r)
                && a.last() == ActionView::UpdatePreedit(spec_preedit(c))
            &&& mode == RenderMode::DelayedPreview ==> text_after(text, a) == text + visible_tail(
                committed_by(r),
            ) && a.last() == ActionView::UpdatePreedit(visible_tail(spec_preedit(c)))
            &&& mode == RenderMode::Delayed ==> text_after(text, a) == text + visible_tail(
                committed_by(r),
            ) && forall|i: int| 0 <= i < a.len() ==> !(#[trigger] a[i] is UpdatePreedit)
            &&& mode == RenderMode::Safe ==> a.len() == 0
        }),
{
    let ch = spec_ascii_letter(keyval)->0;
    let key = spec_ko_key(ch, modifiers);
    lemma_letters_are_layout_keys(ch, modifiers);
    lemma_layout_key_leaves_preedit(e.composer, key);
    let (c, r) = spec_input_key(e.composer, key);
    let (e1, a, handled) = spec_process_key_event(e, keyval, keycode, modifiers, matches);
    assert(spec_commit_trigger(keyval) is None);
    assert(visible_tail(Seq::<char>::empty()) =~= Seq::<char>::empty());
    assert(text + Seq::<char>::empty() =~= text);
    match r {
        InputResultView::PreeditChanged(p) => {
            assert(a.len() <= 1);
            assert(committed_by(r) =~= Seq::<char>::empty());
            if a.len() == 1 {
                assert(a.drop_last() =~= Seq::<ActionView>::empty());
                assert(text_after(text, a.drop_last()) == text);
                assert(a[0] is UpdatePreedit);
            } else {
                assert(a =~= Seq::<ActionView>::empty());
            }
        },
        InputResultView::CommitAndPreedit(cm, p) => {
            assert(visible_tail(cm).len() == 1);
            if spec_effective_render_mode(e) != RenderMode::Safe {
                if spec_effective_render_mode(e) == RenderMode::Delayed {
                    assert(a == seq![ActionView::CommitText(visible_tail(cm))]);
                    assert(a.drop_last() =~= Seq::<ActionView>::empty());
                    assert(text_after(text, a.drop_last()) == text);
                } else {
                    let first = if spec_effective_render_mode(e) == RenderMode::Preedit {
                        cm
                    } else {
                        visible_tail(cm)
                    };
                    assert(a.len() == 2 && a[0] == ActionView::CommitText(first));
                    assert(a.drop_last() =~= seq![ActionView::CommitText(first)]);
                    assert(a.drop_last().drop_last() =~= Seq::<ActionView>::empty());
                    assert(text_after(text, a.drop_last().drop_last()) == text);
                    assert(a.drop_last().last() == ActionView::CommitText(first));
                    assert(text_after(text, a.drop_last()) == text + first);
                }
            }
        },
        _ => {},
    }
}

} // verus!
