use vstd::prelude::*;

use crate::text::str_equals;

verus! {

/// How composed text is shown to the application.
#[derive(Clone, Copy, Debug, Eq, PartialEq, Structural)]
pub enum RenderMode {
    VisibleTail,
    Delayed,
    DelayedPreview,
    Preedit,
    Safe,
}

/// How text already inserted into the application is taken back.
#[derive(Clone, Copy, Debug, Eq, PartialEq, Structural)]
pub enum DeleteMode {
    Backspace,
    BackspacePair,
    Surrounding,
}

/// The render mode a setting names; unset or unknown settings give
/// `DelayedPreview`.
pub open spec fn spec_render_mode_from_setting(value: Option<Seq<char>>) -> RenderMode {
    match value {
        Some(v) => if v == "preedit"@ {
            RenderMode::Preedit
        } else if v == "safe"@ {
            RenderMode::Safe
        } else if v == "delayed"@ {
            RenderMode::Delayed
        } else if v == "delayed_preview"@ {
            RenderMode::DelayedPreview
        } else if v == "visible_tail"@ {
            RenderMode::VisibleTail
        } else {
            RenderMode::DelayedPreview
        },
        None => RenderMode::DelayedPreview,
    }
}

/// The delete mode a setting names; unset or unknown settings give
/// `Surrounding`.
pub open spec fn spec_delete_mode_from_setting(value: Option<Seq<char>>) -> DeleteMode {
    match value {
        Some(v) => if v == "surrounding"@ {
            DeleteMode::Surrounding
        } else if v == "backspace_press"@ {
            DeleteMode::Backspace
        } else if v == "backspace_pair"@ {
            DeleteMode::BackspacePair
        } else {
            DeleteMode::Surrounding
        },
        None => DeleteMode::Surrounding,
    }
}

pub open spec fn setting_view(value: Option<&str>) -> Option<Seq<char>> {
    match value {
        Some(s) => Some(s@),
        None => None,
    }
}

/// Each render mode is chosen by its own name (`preedit`, `safe`, `delayed`,
/// `delayed_preview`, `visible_tail`); each delete mode by its own name
/// (`surrounding`, `backspace_press`, `backspace_pair`). An unset setting, or
/// any other value, gives delayed preview and surrounding-text deletion.
pub proof fn lemma_settings_by_name(value: Option<Seq<char>>)
    ensures
        spec_render_mode_from_setting(Some("preedit"@)) == RenderMode::Preedit,
        spec_render_mode_from_setting(Some("safe"@)) == RenderMode::Safe,
        spec_render_mode_from_setting(Some("delayed"@)) == RenderMode::Delayed,
        spec_render_mode_from_setting(Some("delayed_preview"@)) == RenderMode::DelayedPreview,
        spec_render_mode_from_setting(Some("visible_tail"@)) == RenderMode::VisibleTail,
        spec_delete_mode_from_setting(Some("surrounding"@)) == DeleteMode::Surrounding,
        spec_delete_mode_from_setting(Some("backspace_press"@)) == DeleteMode::Backspace,
        spec_delete_mode_from_setting(Some("backspace_pair"@)) == DeleteMode::BackspacePair,
        !(value == Some("preedit"@) || value == Some("safe"@) || value == Some("delayed"@) || value
            == Some("visible_tail"@)) ==> spec_render_mode_from_setting(value)
            == RenderMode::DelayedPreview,
        !(value == Some("backspace_press"@) || value == Some("backspace_pair"@))
            ==> spec_delete_mode_from_setting(value) == DeleteMode::Surrounding,
{
    reveal_strlit("preedit");
    reveal_strlit("safe");
    reveal_strlit("delayed");
    reveal_strlit("delayed_preview");
    reveal_strlit("visible_tail");
    reveal_strlit("surrounding");
    reveal_strlit("backspace_press");
    reveal_strlit("backspace_pair");
    assert("preedit"@.len() == 7);
    assert("safe"@.len() == 4);
    assert("delayed"@.len() == 7);
    assert("delayed_preview"@.len() == 15);
    assert("visible_tail"@.len() == 12);
    assert("surrounding"@.len() == 11);
    assert("backspace_press"@.len() == 15);
    assert("backspace_pair"@.len() == 14);
    assert("delayed"@[0] != "preedit"@[0]);
}

impl RenderMode {
    /// The render mode for the value of the render-mode setting, if it is set.
    pub fn from_setting(value: Option<&str>) -> (r: Self)
        ensures
            r == spec_render_mode_from_setting(setting_view(value)),
    {
        match value {
            Some(v) => {
                if str_equals(v, "preedit") {
                    RenderMode::Preedit
                } else if str_equals(v, "safe") {
                    RenderMode::Safe
                } else if str_equals(v, "delayed") {
                    RenderMode::Delayed
                } else if str_equals(v, "delayed_preview") {
                    RenderMode::DelayedPreview
                } else if str_equals(v, "visible_tail") {
                    RenderMode::VisibleTail
                } else {
                    RenderMode::DelayedPreview
                }
            },
            None => RenderMode::DelayedPreview,
        }
    }
}

impl DeleteMode {
    /// The delete mode for the value of the delete-mode setting, if it is set.
    pub fn from_setting(value: Option<&str>) -> (r: Self)
        ensures
            r == spec_delete_mode_from_setting(setting_view(value)),
    {
        match value {
            Some(v) => {
                if str_equals(v, "surrounding") {
                    DeleteMode::Surrounding
                } else if str_equals(v, "backspace_press") {
                    DeleteMode::Backspace
                } else if str_equals(v, "backspace_pair") {
                    DeleteMode::BackspacePair
                } else {
                    DeleteMode::Surrounding
                }
            },
            None => DeleteMode::Surrounding,
        }
    }
}

} // verus!
