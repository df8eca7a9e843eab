//! The events that flow between the completion work and the one consumer that
//! owns the conversation state.

use crate::completion::Message;
use crate::config::ModelConfig;
use crate::conversation::ConversationRecord;
use crate::mode::{mode_named, Mode};
use crate::text::{
    decimal_u16, has_prefix, parse_u16, starts_with, str_eq, strip_prefixes, strip_suffix_char, trim_end_char,
    trim_start_matches,
};
use vstd::prelude::*;

verus! {

/// One event for the consumer of the event channel.
#[derive(Clone, Debug)]
pub enum Action {
    Tick,
    Render,
    Resize(u16, u16),
    Suspend,
    Resume,
    Quit,
    Refresh,
    Error(String),
    Help,
    SendMessage(Message),
    /// A new message under a new id.
    ReceiveMessage(u128, Message),
    /// A newer value of the message under an id.
    StreamMessage(u128, Message),
    SelectNextMessage,
    SelectPreviousMessage,
    DeleteSelectedMessage,
    CopySelectedMessage,
    ToggleMaximized,
    RevertMode,
    SwitchMode(Mode),
    SelectNextInConfigList,
    SelectPreviousInConfigList,
    SwitchModel(ModelConfig),
    SwitchToSelectedItem,
    SwitchKeymap(String),
    NextTab,
    SelectPreviousConversation,
    SelectNextConversation,
    LoadSelectedConversation,
    AddConversationToManager(ConversationRecord),
    NewConversation,
    SaveConversation,
    DeleteSelectedConversation,
    SetTitle(String),
    /// Ask for a title made from the first user message.
    UpdateTitle(String),
    ScrollUp,
    ScrollDown,
    NextProvider,
    PrevProvider,
}

/// The event a bare name stands for in a key binding.
pub open spec fn unit_action(s: Seq<char>) -> Option<Action> {
    if s == "Tick"@ {
        Some(Action::Tick)
    } else if s == "Render"@ {
        Some(Action::Render)
    } else if s == "Suspend"@ {
        Some(Action::Suspend)
    } else if s == "Resume"@ {
        Some(Action::Resume)
    } else if s == "Quit"@ {
        Some(Action::Quit)
    } else if s == "Refresh"@ {
        Some(Action::Refresh)
    } else if s == "Help"@ {
        Some(Action::Help)
    } else if s == "SelectPreviousMessage"@ {
        Some(Action::SelectPreviousMessage)
    } else if s == "SelectNextMessage"@ {
        Some(Action::SelectNextMessage)
    } else if s == "DeleteSelectedMessage"@ {
        Some(Action::DeleteSelectedMessage)
    } else if s == "CopySelectedMessage"@ {
        Some(Action::CopySelectedMessage)
    } else if s == "RevertMode"@ {
        Some(Action::RevertMode)
    } else if s == "SwitchToSelectedItem"@ {
        Some(Action::SwitchToSelectedItem)
    } else if s == "SelectPreviousInConfigList"@ {
        Some(Action::SelectPreviousInConfigList)
    } else if s == "SelectNextInConfigList"@ {
        Some(Action::SelectNextInConfigList)
    } else if s == "SelectPreviousConversation"@ {
        Some(Action::SelectPreviousConversation)
    } else if s == "SelectNextConversation"@ {
        Some(Action::SelectNextConversation)
    } else if s == "LoadSelectedConversation"@ {
        Some(Action::LoadSelectedConversation)
    } else if s == "DeleteSelectedConversation"@ {
        Some(Action::DeleteSelectedConversation)
    } else if s == "NewConversation"@ {
        Some(Action::NewConversation)
    } else if s == "ScrollUp"@ {
        Some(Action::ScrollUp)
    } else if s == "ScrollDown"@ {
        Some(Action::ScrollDown)
    } else if s == "NextProvider"@ {
        Some(Action::NextProvider)
    } else if s == "PrevProvider"@ {
        Some(Action::PrevProvider)
    } else if s == "NextTab"@ {
        Some(Action::NextTab)
    } else {
        None
    }
}

fn unit_action_of(s: &str) -> (r: Option<Action>)
    ensures
        r == unit_action(s@),
{
    if str_eq(s, "Tick") {
        Some(Action::Tick)
    } else if str_eq(s, "Render") {
        Some(Action::Render)
    } else if str_eq(s, "Suspend") {
        Some(Action::Suspend)
    } else if str_eq(s, "Resume") {
        Some(Action::Resume)
    } else if str_eq(s, "Quit") {
        Some(Action::Quit)
    } else if str_eq(s, "Refresh") {
        Some(Action::Refresh)
    } else if str_eq(s, "Help") {
        Some(Action::Help)
    } else if str_eq(s, "SelectPreviousMessage") {
        Some(Action::SelectPreviousMessage)
    } else if str_eq(s, "SelectNextMessage") {
        Some(Action::SelectNextMessage)
    } else if str_eq(s, "DeleteSelectedMessage") {
        Some(Action::DeleteSelectedMessage)
    } else if str_eq(s, "CopySelectedMessage") {
        Some(Action::CopySelectedMessage)
    } else if str_eq(s, "RevertMode") {
        Some(Action::RevertMode)
    } else if str_eq(s, "SwitchToSelectedItem") {
        Some(Action::SwitchToSelectedItem)
    } else if str_eq(s, "SelectPreviousInConfigList") {
        Some(Action::SelectPreviousInConfigList)
    } else if str_eq(s, "SelectNextInConfigList") {
        Some(Action::SelectNextInConfigList)
    } else if str_eq(s, "SelectPreviousConversation") {
        Some(Action::SelectPreviousConversation)
    } else if str_eq(s, "SelectNextConversation") {
        Some(Action::SelectNextConversation)
    } else if str_eq(s, "LoadSelectedConversation") {
        Some(Action::LoadSelectedConversation)
    } else if str_eq(s, "DeleteSelectedConversation") {
        Some(Action::DeleteSelectedConversation)
    } else if str_eq(s, "NewConversation") {
        Some(Action::NewConversation)
    } else if str_eq(s, "ScrollUp") {
        Some(Action::ScrollUp)
    } else if str_eq(s, "ScrollDown") {
        Some(Action::ScrollDown)
    } else if str_eq(s, "NextProvider") {
        Some(Action::NextProvider)
    } else if str_eq(s, "PrevProvider") {
        Some(Action::PrevProvider)
    } else if str_eq(s, "NextTab") {
        Some(Action::NextTab)
    } else {
        None
    }
}

/// The whitespace-trimmed text of `s`.
pub uninterp spec fn trimmed(s: Seq<char>) -> Seq<char>;

/// Relies on `str::trim`: leading and trailing whitespace removed, which
/// depends on the text alone.
#[verifier::external_body]
fn trim_text(s: &str) -> (r: String)
    ensures
        r@ == trimmed(s@),
{
    s.trim().to_string()
}

/// The text inside `Name(...)`: every leading `Name(` and trailing `)` removed.
pub open spec fn inner_text(s: Seq<char>, open: Seq<char>) -> Seq<char> {
    strip_suffix_char(strip_prefixes(s, open), ')')
}

/// The size a `Resize(w, h)` binding holds: exactly one comma, and a
/// decimal `u16` on each side once trimmed.
pub open spec fn resize_of(inner: Seq<char>) -> Option<Action> {
    if exists|p: int| 0 <= p < inner.len() && inner[p] == ',' && forall|q: int| 0 <= q < inner.len() && q != p ==> inner[q] != ',' {
        let p = choose|p: int| 0 <= p < inner.len() && inner[p] == ',';
        match (decimal_u16(trimmed(inner.subrange(0, p))), decimal_u16(trimmed(inner.subrange(p + 1, inner.len() as int)))) {
            (Some(w), Some(h)) => Some(Action::Resize(w, h)),
            _ => None,
        }
    } else {
        None
    }
}

fn resize_from(inner: &str) -> (r: Option<Action>)
    ensures
        r == resize_of(inner@),
{
    let n = inner.unicode_len();
    let mut count: usize = 0;
    let mut pos: usize = 0;
    let mut i: usize = 0;
    while i < n
        invariant
            n == inner@.len(),
            i <= n,
            count <= i,
            count == 0 ==> forall|q: int| 0 <= q < i ==> inner@[q] != ',',
            count >= 1 ==> pos < i && inner@[pos as int] == ',',
            count == 1 ==> forall|q: int| 0 <= q < i && q != pos ==> inner@[q] != ',',
            count >= 2 ==> exists|q: int| 0 <= q < i && q != pos && inner@[q] == ',',
        decreases n - i,
    {
        if inner.get_char(i) == ',' {
            if count == 0 {
                pos = i;
            }
            if count < 2 {
                count = count + 1;
            }
        }
        i = i + 1;
    }
    if count != 1 {
        proof {
            if exists|p: int| 0 <= p < n && inner@[p] == ',' && forall|q: int| 0 <= q < n && q != p ==> inner@[q] != ',' {
                let p = choose|p: int| 0 <= p < n && inner@[p] == ',' && forall|q: int| 0 <= q < n && q != p ==> inner@[q] != ',';
                if count >= 2 {
                    let q = choose|q: int| 0 <= q < n && q != pos && inner@[q] == ',';
                    assert(pos == p || q == p);
                }
            }
        }
        return None;
    }
    proof {
        assert(forall|q: int| 0 <= q < n && q != pos ==> inner@[q] != ',');
        let p = choose|p: int| 0 <= p < inner@.len() && inner@[p] == ',';
        assert(p == pos);
    }
    let w = parse_u16(trim_text(inner.substring_char(0, pos)).as_str());
    let h = parse_u16(trim_text(inner.substring_char(pos + 1, n)).as_str());
    match (w, h) {
        (Some(w), Some(h)) => Some(Action::Resize(w, h)),
        _ => None,
    }
}

impl Action {
    /// The event a key-binding string names: a bare name (`"Quit"`),
    /// `SwitchMode(<mode>)`, `Error(<text>)` or `Resize(<w>, <h>)`; `None`
    /// for anything else.
    pub fn parse(s: &str) -> (r: Option<Action>)
        ensures
            unit_action(s@) is Some ==> r == unit_action(s@),
            unit_action(s@) is None ==> if has_prefix(s@, "SwitchMode("@) {
                r == match mode_named(inner_text(s@, "SwitchMode("@)) {
                    Some(m) => Some(Action::SwitchMode(m)),
                    None => None,
                }
            } else if has_prefix(s@, "Error("@) {
                r matches Some(Action::Error(t)) && t@ == inner_text(s@, "Error("@)
            } else if has_prefix(s@, "Resize("@) {
                r == resize_of(inner_text(s@, "Resize("@))
            } else {
                r is None
            },
    {
        let unit = unit_action_of(s);
        if unit.is_some() {
            return unit;
        }
        if starts_with(s, "SwitchMode(") {
            let inner = trim_end_char(trim_start_matches(s, "SwitchMode(").as_str(), ')');
            match Mode::from_name(inner.as_str()) {
                Some(m) => Some(Action::SwitchMode(m)),
                None => None,
            }
        } else if starts_with(s, "Error(") {
            Some(Action::Error(trim_end_char(trim_start_matches(s, "Error(").as_str(), ')')))
        } else if starts_with(s, "Resize(") {
            resize_from(trim_end_char(trim_start_matches(s, "Resize(").as_str(), ')').as_str())
        } else {
            None
        }
    }
}

} // verus!
