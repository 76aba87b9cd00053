use vstd::prelude::*;

verus! {

/// Which kind of text a key produces.
#[derive(Clone, Copy, Debug, Eq, PartialEq, Structural)]
pub enum InputMode {
    En,
    Ko,
    EnCaps,
}

/// The mode after a tap of Caps Lock: it switches between English and Korean,
/// and leaves caps-lock English for Korean.
pub open spec fn tapped(mode: InputMode) -> InputMode {
    match mode {
        InputMode::En => InputMode::Ko,
        InputMode::Ko => InputMode::En,
        InputMode::EnCaps => InputMode::Ko,
    }
}

/// The mode after Caps Lock is held: it enters caps-lock English, and leaves it
/// for plain English.
pub open spec fn held(mode: InputMode) -> InputMode {
    match mode {
        InputMode::En => InputMode::EnCaps,
        InputMode::EnCaps => InputMode::En,
        InputMode::Ko => InputMode::EnCaps,
    }
}

/// The input mode of an engine.
#[derive(Clone, Debug)]
pub struct ModeState {
    mode: InputMode,
}

impl View for ModeState {
    type V = InputMode;

    closed spec fn view(&self) -> InputMode {
        self.mode
    }
}

impl Default for ModeState {
    fn default() -> (r: Self)
        ensures
            r@ == InputMode::Ko,
    {
        ModeState { mode: InputMode::Ko }
    }
}

impl ModeState {
    pub fn new() -> (r: Self)
        ensures
            r@ == InputMode::Ko,
    {
        ModeState { mode: InputMode::Ko }
    }

    pub fn mode(&self) -> (r: InputMode)
        ensures
            r == self@,
    {
        self.mode
    }

    pub fn set_mode(&mut self, mode: InputMode)
        ensures
            final(self)@ == mode,
    {
        self.mode = mode;
    }

    pub fn caps_tap(&mut self) -> (r: InputMode)
        ensures
            final(self)@ == tapped(old(self)@),
            r == final(self)@,
    {
        self.mode = match self.mode {
            InputMode::En => InputMode::Ko,
            InputMode::Ko => InputMode::En,
            InputMode::EnCaps => InputMode::Ko,
        };
        self.mode
    }

    pub fn caps_hold(&mut self) -> (r: InputMode)
        ensures
            final(self)@ == held(old(self)@),
            r == final(self)@,
    {
        self.mode = match self.mode {
            InputMode::En => InputMode::EnCaps,
            InputMode::EnCaps => InputMode::En,
            InputMode::Ko => InputMode::EnCaps,
        };
        self.mode
    }

    /// Shift + Caps Lock acts as holding Caps Lock.
    pub fn shift_caps(&mut self) -> (r: InputMode)
        ensures
            final(self)@ == held(old(self)@),
            r == final(self)@,
    {
        self.caps_hold()
    }
}

/// Two taps of Caps Lock come back to the mode they started from, except from
/// caps-lock English, which two taps turn into English.
pub proof fn lemma_two_taps(mode: InputMode)
    ensures
        mode != InputMode::EnCaps ==> tapped(tapped(mode)) == mode,
        mode == InputMode::EnCaps ==> tapped(tapped(mode)) == InputMode::En,
{
}

/// Holding Caps Lock twice comes back to English from English and to caps-lock
/// English from caps-lock English; from Korean it ends in English.
pub proof fn lemma_two_holds(mode: InputMode)
    ensures
        mode != InputMode::Ko ==> held(held(mode)) == mode,
        mode == InputMode::Ko ==> held(held(mode)) == InputMode::En,
{
}

/// A tap always ends in or out of Korean: Korean after any English mode, English after Korean.
pub proof fn lemma_tap_toggles_korean(mode: InputMode)
    ensures
        (tapped(mode) == InputMode::Ko) == (mode != InputMode::Ko),
        held(mode) != InputMode::Ko,
{
}

} // verus!
