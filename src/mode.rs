use crate::text::str_eq;
use vstd::prelude::*;
use vstd::string::*;

verus! {

/// What the keyboard currently drives.
#[derive(Clone, Copy, Debug, PartialEq, Eq, Structural, Hash, Default)]
pub enum Mode {
    #[default]
    Input,
    ActiveInput,
    ActiveViewer,
    ModelSelector,
    ConversationManager,
}

/// The panels of the screen.
#[derive(Clone, Copy, Debug, PartialEq, Eq, Structural, Hash)]
pub enum AppPanel {
    Input,
    Viewer,
    ModelSelector,
    ConversationManager,
}

/// The mode a name stands for.
pub open spec fn mode_named(s: Seq<char>) -> Option<Mode> {
    if s == "Input"@ {
        Some(Mode::Input)
    } else if s == "ActiveInput"@ {
        Some(Mode::ActiveInput)
    } else if s == "ActiveViewer"@ {
        Some(Mode::ActiveViewer)
    } else if s == "ModelSelector"@ {
        Some(Mode::ModelSelector)
    } else if s == "ConversationManager"@ {
        Some(Mode::ConversationManager)
    } else {
        None
    }
}

impl Mode {
    /// The mode named `s`, if any.
    pub fn from_name(s: &str) -> (r: Option<Mode>)
        ensures
            r == mode_named(s@),
    {
        if str_eq(s, "Input") {
            Some(Mode::Input)
        } else if str_eq(s, "ActiveInput") {
            Some(Mode::ActiveInput)
        } else if str_eq(s, "ActiveViewer") {
            Some(Mode::ActiveViewer)
        } else if str_eq(s, "ModelSelector") {
            Some(Mode::ModelSelector)
        } else if str_eq(s, "ConversationManager") {
            Some(Mode::ConversationManager)
        } else {
            None
        }
    }
}

/// The key help shown in a mode.
pub open spec fn keymap_text(mode: Mode) -> Seq<char> {
    match mode {
        Mode::Input => " i: insert; v: focus viewer; j: scroll down; k: scroll up; m: change model; c: change convo; q: quit; "@,
        Mode::ActiveInput => " enter: send message; ctrl+n: new line; esc: exit input mode; "@,
        Mode::ActiveViewer => " j: select next; k: select prev; c: copy; esc: exit scroll mode; "@,
        Mode::ModelSelector => " j: select next; k: select prev; enter: select model; m: close; "@,
        Mode::ConversationManager => " j: select next; k: select prev; n: new convo; enter: load convo; d: delete convo; esc: close panel; "@,
    }
}

/// The key help shown in `mode`.
pub fn keymap_for(mode: Mode) -> (r: String)
    ensures
        r@ == keymap_text(mode),
{
    match mode {
            Mode::Input => String::from_str(" i: insert; v: focus viewer; j: scroll down; k: scroll up; m: change model; c: change convo; q: quit; "),
            Mode::ActiveInput => String::from_str(" enter: send message; ctrl+n: new line; esc: exit input mode; "),
            Mode::ActiveViewer => String::from_str(" j: select next; k: select prev; c: copy; esc: exit scroll mode; "),
            Mode::ModelSelector => String::from_str(" j: select next; k: select prev; enter: select model; m: close; "),
            Mode::ConversationManager => String::from_str(" j: select next; k: select prev; n: new convo; enter: load convo; d: delete convo; esc: close panel; "),
    }
}

} // verus!
