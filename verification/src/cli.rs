use vstd::prelude::*;

use crate::composer::{
    committed_by, empty_composition, spec_input_key, spec_preedit, ComposerView, HangulComposer,
    InputResult, InputResultView,
};
use crate::keymap_2beolsik::spec_map_key;
use crate::text::{chars_of, push_str, str_equals};

verus! {

/// Options of `korean setup`.
pub struct SetupOptions {
    pub caps_switch: bool,
    pub quiet: bool,
}

impl Default for SetupOptions {
    fn default() -> (r: Self)
        ensures
            !r.caps_switch && !r.quiet,
    {
        SetupOptions { caps_switch: false, quiet: false }
    }
}

pub open spec fn is_setup_option(arg: Seq<char>) -> bool {
    arg == "--caps-switch"@ || arg == "--quiet"@
}

/// The options the arguments ask for; the first argument that is not an
/// option is reported as `Unknown setup option: <arg>`.
pub open spec fn spec_parse_setup_options(args: Seq<Seq<char>>) -> Result<(bool, bool), Seq<char>> {
    if forall|i: int| 0 <= i < args.len() ==> is_setup_option(#[trigger] args[i]) {
        Ok((args.contains("--caps-switch"@), args.contains("--quiet"@)))
    } else {
        let i = choose|i: int|
            0 <= i < args.len() && !is_setup_option(args[i]) && forall|j: int|
                0 <= j < i ==> is_setup_option(#[trigger] args[j]);
        Err("Unknown setup option: "@ + args[i])
    }
}

pub open spec fn arg_views(args: Seq<String>) -> Seq<Seq<char>> {
    args.map_values(|a: String| a@)
}

proof fn lemma_contains_push(s: Seq<Seq<char>>, x: Seq<char>, y: Seq<char>)
    ensures
        s.push(x).contains(y) == (s.contains(y) || x == y),
{
    if s.contains(y) {
        let k = choose|k: int| 0 <= k < s.len() && s[k] == y;
        assert(s.push(x)[k] == y);
    }
    if x == y {
        assert(s.push(x)[s.len() as int] == y);
    }
    if s.push(x).contains(y) {
        let k = choose|k: int| 0 <= k < s.len() + 1 && s.push(x)[k] == y;
        if k < s.len() {
            assert(s[k] == y);
        }
    }
}

/// Reads the options of `korean setup`.
pub fn parse_setup_options(args: Vec<String>) -> (r: Result<SetupOptions, String>)
    ensures
        match (r, spec_parse_setup_options(arg_views(args@))) {
            (Ok(o), Ok((caps_switch, quiet))) => o.caps_switch == caps_switch && o.quiet == quiet,
            (Err(m), Err(expected)) => m@ == expected,
            _ => false,
        },
{
    let ghost a = arg_views(args@);
    let mut options = SetupOptions::default();
    let mut i: usize = 0;
    while i < args.len()
        invariant
            i <= args@.len(),
            a == arg_views(args@),
            forall|j: int| 0 <= j < i ==> is_setup_option(#[trigger] a[j]),
            options.caps_switch == a.take(i as int).contains("--caps-switch"@),
            options.quiet == a.take(i as int).contains("--quiet"@),
        decreases args@.len() - i,
    {
        let arg = args[i].as_str();
        proof {
            assert(a.take(i + 1) =~= a.take(i as int).push(a[i as int]));
            lemma_contains_push(a.take(i as int), a[i as int], "--caps-switch"@);
            lemma_contains_push(a.take(i as int), a[i as int], "--quiet"@);
            reveal_strlit("--caps-switch");
            reveal_strlit("--quiet");
            assert("--caps-switch"@.len() != "--quiet"@.len());
        }
        if str_equals(arg, "--caps-switch") {
            options.caps_switch = true;
        } else if str_equals(arg, "--quiet") {
            options.quiet = true;
        } else {
            let mut message = "Unknown setup option: ".to_owned();
            push_str(&mut message, arg);
            proof {
                let first = |x: int|
                    0 <= x < a.len() && !is_setup_option(a[x]) && forall|j: int|
                        0 <= j < x ==> is_setup_option(#[trigger] a[j]);
                assert(first(i as int));
                let x = choose|x: int|
                    0 <= x < a.len() && !is_setup_option(a[x]) && forall|j: int|
                        0 <= j < x ==> is_setup_option(#[trigger] a[j]);
                assert(first(x));
                if x < i {
                    assert(is_setup_option(a[x]));
                } else if i < x {
                    assert(is_setup_option(a[i as int]));
                }
            }
            return Err(message);
        }
        i = i + 1;
    }
    assert(a.take(args@.len() as int) =~= a);
    Ok(options)
}

/// Reads the options of `korean start`: those of `korean setup`, except that
/// `korean start` always makes Caps Lock the GNOME input-source switch key.
pub fn parse_start_options(args: Vec<String>) -> (r: Result<SetupOptions, String>)
    ensures
        match (r, spec_parse_setup_options(arg_views(args@))) {
            (Ok(o), Ok((_, quiet))) => o.caps_switch && o.quiet == quiet,
            (Err(m), Err(expected)) => m@ == expected,
            _ => false,
        },
{
    match parse_setup_options(args) {
        Ok(options) => Ok(SetupOptions { caps_switch: true, quiet: options.quiet }),
        Err(message) => Err(message),
    }
}

/// The composition and the committed text after typing `keys` into a fresh composer.
pub open spec fn typed(keys: Seq<char>) -> (ComposerView, Seq<char>)
    decreases keys.len(),
{
    if keys.len() == 0 {
        (empty_composition(), Seq::empty())
    } else {
        let (c, committed) = typed(keys.drop_last());
        let (c2, r) = spec_input_key(c, keys.last());
        (c2, committed + committed_by(r))
    }
}

/// The text on screen after typing `keys`: what was committed, then the preedit.
pub open spec fn shown_after(keys: Seq<char>) -> Seq<char> {
    typed(keys).1 + spec_preedit(typed(keys).0)
}

/// Nothing typed disappears from the screen: a key that is not on the layout
/// (a digit, a space, punctuation) commits what was composed and then itself,
/// so the screen gains exactly that key; and whatever key comes, the text
/// committed so far stays at the front of what is on screen.
pub proof fn lemma_typed_text_stays(keys: Seq<char>, key: char)
    ensures
        spec_map_key(key) is None ==> shown_after(keys.push(key)) == shown_after(keys).push(key),
        typed(keys).1.is_prefix_of(typed(keys.push(key)).1),
        typed(keys).1.is_prefix_of(shown_after(keys.push(key))),
{
    let next = keys.push(key);
    assert(next.drop_last() =~= keys);
    assert(next.last() == key);
    let (c, committed) = typed(keys);
    let (c2, r) = spec_input_key(c, key);
    assert(typed(next) == (c2, committed + committed_by(r)));
    if spec_map_key(key) is None {
        assert(spec_preedit(c2) =~= Seq::<char>::empty());
        assert(shown_after(next) =~= (committed + spec_preedit(c)).push(key));
    }
    assert(committed.is_prefix_of(committed + committed_by(r))) by {
        assert((committed + committed_by(r)).subrange(0, committed.len() as int) =~= committed);
    }
    assert(committed.is_prefix_of(shown_after(next))) by {
        assert(shown_after(next).subrange(0, committed.len() as int) =~= committed);
    }
}

/// The transcript of typing keys into a fresh composer: the text on screen
/// after each key, and the text once the composition is committed.
pub struct Simulation {
    pub shown: Vec<String>,
    pub final_text: String,
}

/// Types `input` into a fresh composer, recording after each key the text on
/// screen, and commits at the end.
pub fn simulate(input: &str) -> (r: Simulation)
    ensures
        r.shown@.len() == input@.len(),
        forall|i: int|
            0 <= i < input@.len() ==> #[trigger] r.shown@[i]@ == shown_after(input@.take(i + 1)),
        r.final_text@ == shown_after(input@),
{
    let keys = chars_of(input);
    let mut composer = HangulComposer::new();
    let mut committed = String::new();
    let mut steps: Vec<String> = Vec::new();
    let mut i: usize = 0;
    assert(input@.take(0) =~= Seq::<char>::empty());
    while i < keys.len()
        invariant
            i <= keys@.len(),
            keys@ == input@,
            (composer@, committed@) == typed(input@.take(i as int)),
            steps@.len() == i,
            forall|j: int| 0 <= j < i ==> #[trigger] steps@[j]@ == shown_after(input@.take(j + 1)),
        decreases keys@.len() - i,
    {
        let ch = keys[i];
        proof {
            assert(input@.take(i + 1).drop_last() =~= input@.take(i as int));
        }
        let shown = type_key(&mut composer, &mut committed, ch);
        steps.push(shown);
        i = i + 1;
    }
    assert(input@.take(keys@.len() as int) =~= input@);
    let mut final_text = committed;
    if let Some(text) = composer.commit() {
        push_str(&mut final_text, text.as_str());
    } else {
        assert(final_text@ =~= final_text@ + Seq::<char>::empty());
    }
    Simulation { shown: steps, final_text }
}

/// Types one key, adding what it commits to `committed`; returns the text on
/// screen afterwards.
fn type_key(composer: &mut HangulComposer, committed: &mut String, ch: char) -> (shown: String)
    ensures
        (final(composer)@, final(committed)@) == ({
            let (c, r) = spec_input_key(old(composer)@, ch);
            (c, old(committed)@ + committed_by(r))
        }),
        shown@ == final(committed)@ + spec_preedit(final(composer)@),
{
    let result = composer.input_key(ch);
    match result {
        InputResult::Commit { text } => push_str(committed, text.as_str()),
        InputResult::CommitAndPreedit { commit, .. } => push_str(committed, commit.as_str()),
        _ => {
            assert(committed@ =~= committed@ + Seq::<char>::empty());
        },
    }
    let mut shown = committed.clone();
    push_str(&mut shown, composer.preedit().as_str());
    shown
}

} // verus!
