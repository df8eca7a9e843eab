//! The single consumer of the event channel: the one writer of the active
//! conversation and of the listing. Each event changes that state and names
//! the outside work to do, which the caller performs.

use crate::action::Action;
use crate::conversation::{
    add_spec, delete_selected_spec, record_of, Conversation, ConversationRecord, ConversationView,
};
use crate::ordered::{has_key, upsert};
use crate::manager::{metadata_of, ConversationManager, ManagerView};
use vstd::prelude::*;

verus! {

/// Outside work that handling an event calls for.
#[derive(Debug)]
pub enum Effect {
    /// Put this event on the channel.
    Emit(Action),
    /// Ask a model for a title made from this first message.
    RequestTitle(String),
    /// Write this record to the conversation's file.
    Save(ConversationRecord),
    /// Read conversation `id` from its file and open it.
    Load(u128),
    /// Delete the file with this name from the storage directory.
    DeleteFile(String),
    /// Show this error to the user.
    Report(String),
    /// Stop the event loop.
    Quit,
}

/// The active conversation and the listing of saved ones.
pub struct Session {
    pub conversation: Conversation,
    pub manager: ConversationManager,
}

impl Session {
    pub open spec fn wf(&self) -> bool {
        self.conversation.wf() && self.manager.wf()
    }

    /// A session over `manager` with a new, listed, empty conversation.
    pub fn new(manager: ConversationManager) -> (r: Session)
        requires
            manager.wf(),
        ensures
            r.wf(),
            r.conversation@.messages.len() == 0,
            r.manager@ == (ManagerView {
                entries: upsert(manager@.entries, r.conversation@.id, metadata_of(r.conversation@.id, None)),
                ..manager@
            }),
    {
        let mut manager = manager;
        let conversation = manager.new_conversation();
        Session { conversation, manager }
    }

    /// Opens a conversation read back from storage; false, changing nothing,
    /// where the record is not valid.
    pub fn open_record(&mut self, record: &ConversationRecord) -> (r: bool)
        requires
            old(self).wf(),
        ensures
            final(self).wf(),
            r == crate::conversation::record_valid(record@),
            r ==> final(self).conversation@ == crate::conversation::conversation_of(record@),
            !r ==> final(self).conversation@ == old(self).conversation@,
            final(self).manager@ == old(self).manager@,
    {
        match Conversation::from_record(record) {
            Some(c) => {
                self.conversation = c;
                true
            },
            None => false,
        }
    }

    /// Handles one event. Messages are received and replaced by id, never by
    /// position; a title is set and then saved; saving lists the conversation
    /// under its current title. A message to send is planned by
    /// `start_send`, not here.
    pub fn apply(&mut self, action: Action) -> (effects: Vec<Effect>)
        requires
            old(self).wf(),
        ensures
            final(self).wf(),
            match action {
                Action::ReceiveMessage(id, m) => {
                    &&& final(self).conversation@ == add_spec(old(self).conversation@, id, m@)
                    &&& final(self).manager@ == old(self).manager@
                    &&& effects@.len() == 0
                },
                Action::StreamMessage(id, m) => {
                    &&& final(self).conversation@ == if has_key(old(self).conversation@.messages, id) {
                        ConversationView {
                            messages: upsert(old(self).conversation@.messages, id, m@),
                            ..old(self).conversation@
                        }
                    } else {
                        old(self).conversation@
                    }
                    &&& final(self).manager@ == old(self).manager@
                    &&& effects@.len() == 0
                },
                Action::SetTitle(t) => {
                    &&& final(self).conversation@ == (ConversationView { title: Some(t@), ..old(self).conversation@ })
                    &&& final(self).manager@.entries == upsert(
                        old(self).manager@.entries,
                        old(self).conversation@.id,
                        metadata_of(old(self).conversation@.id, Some(t@)),
                    )
                    &&& effects@.len() == 1
                    &&& effects@[0] matches Effect::Emit(Action::SaveConversation)
                },
                Action::UpdateTitle(first) => {
                    &&& final(self).conversation@ == old(self).conversation@
                    &&& final(self).manager@ == old(self).manager@
                    &&& effects@.len() == 1
                    &&& (effects@[0] matches Effect::RequestTitle(f) && f@ == first@)
                },
                Action::SaveConversation => {
                    &&& final(self).conversation@ == old(self).conversation@
                    &&& final(self).manager@.entries == upsert(
                        old(self).manager@.entries,
                        old(self).conversation@.id,
                        metadata_of(old(self).conversation@.id, old(self).conversation@.title),
                    )
                    &&& effects@.len() == 1
                    &&& (effects@[0] matches Effect::Save(r) && r@ == record_of(old(self).conversation@))
                },
                Action::Error(t) => {
                    &&& final(self).conversation@ == old(self).conversation@
                    &&& final(self).manager@ == old(self).manager@
                    &&& effects@.len() == 1
                    &&& (effects@[0] matches Effect::Report(s) && s@ == t@)
                },
                Action::SelectNextMessage => {
                    &&& final(self).conversation@.messages == old(self).conversation@.messages
                    &&& final(self).conversation@.selected == match old(self).conversation@.selected {
                        Some(i) => Some(if i + 1 < old(self).conversation@.messages.len() { (i + 1) as usize } else { i }),
                        None => None,
                    }
                    &&& final(self).manager@ == old(self).manager@
                    &&& effects@.len() == 0
                },
                Action::SelectPreviousMessage => {
                    &&& final(self).conversation@.messages == old(self).conversation@.messages
                    &&& final(self).conversation@.selected == match old(self).conversation@.selected {
                        Some(i) => Some(if i > 0 { (i - 1) as usize } else { i }),
                        None => None,
                    }
                    &&& final(self).manager@ == old(self).manager@
                    &&& effects@.len() == 0
                },
                Action::DeleteSelectedMessage => {
                    &&& final(self).conversation@ == delete_selected_spec(old(self).conversation@)
                    &&& final(self).manager@ == old(self).manager@
                    &&& effects@.len() == 0
                },
                Action::NewConversation => {
                    &&& final(self).conversation@.messages.len() == 0
                    &&& final(self).conversation@.title is None
                    &&& final(self).manager@.entries == upsert(
                        old(self).manager@.entries,
                        final(self).conversation@.id,
                        metadata_of(final(self).conversation@.id, None),
                    )
                    &&& effects@.len() == 0
                },
                Action::SelectNextConversation => {
                    &&& final(self).conversation@ == old(self).conversation@
                    &&& final(self).manager@.entries == old(self).manager@.entries
                    &&& final(self).manager@.selected == if old(self).manager@.selected + 1 < old(self).manager@.entries.len() {
                        (old(self).manager@.selected + 1) as usize
                    } else {
                        old(self).manager@.selected
                    }
                    &&& effects@.len() == 0
                },
                Action::SelectPreviousConversation => {
                    &&& final(self).conversation@ == old(self).conversation@
                    &&& final(self).manager@.entries == old(self).manager@.entries
                    &&& final(self).manager@.selected == if old(self).manager@.selected > 0 {
                        (old(self).manager@.selected - 1) as usize
                    } else {
                        0
                    }
                    &&& effects@.len() == 0
                },
                Action::LoadSelectedConversation => {
                    &&& final(self).conversation@ == old(self).conversation@
                    &&& final(self).manager@.entries == old(self).manager@.entries
                    &&& if old(self).manager@.selected < old(self).manager@.entries.len() {
                        &&& effects@.len() == 1
                        &&& (effects@[0] matches Effect::Load(id) && id == old(self).manager@.entries[old(self).manager@.selected as int].0)
                        &&& final(self).manager@.active == old(self).manager@.selected
                    } else {
                        effects@.len() == 0
                    }
                },
                Action::DeleteSelectedConversation => {
                    &&& final(self).conversation@ == old(self).conversation@
                    &&& if old(self).manager@.selected < old(self).manager@.entries.len() {
                        &&& final(self).manager@.entries == old(self).manager@.entries.remove(old(self).manager@.selected as int)
                        &&& effects@.len() == 1
                        &&& (effects@[0] matches Effect::DeleteFile(p) && p@ == old(self).manager@.entries[old(self).manager@.selected as int].1.0)
                    } else {
                        &&& final(self).manager@ == old(self).manager@
                        &&& effects@.len() == 0
                    }
                },
                Action::Quit => {
                    &&& final(self).conversation@ == old(self).conversation@
                    &&& final(self).manager@ == old(self).manager@
                    &&& effects@.len() == 1
                    &&& effects@[0] is Quit
                },
                _ => {
                    &&& final(self).conversation@ == old(self).conversation@
                    &&& final(self).manager@ == old(self).manager@
                    &&& effects@.len() == 0
                },
            },
    {
        let mut effects: Vec<Effect> = Vec::new();
        match action {
            Action::ReceiveMessage(id, m) => {
                self.conversation.add_message(id, m);
            },
            Action::StreamMessage(id, m) => {
                self.conversation.replace_message(id, m);
            },
            Action::SetTitle(t) => {
                self.conversation.set_title(t);
                self.manager.update_conversation(&self.conversation);
                effects.push(Effect::Emit(Action::SaveConversation));
            },
            Action::UpdateTitle(first) => {
                effects.push(Effect::RequestTitle(first));
            },
            Action::SaveConversation => {
                self.manager.update_conversation(&self.conversation);
                effects.push(Effect::Save(self.conversation.to_record()));
            },
            Action::Error(t) => {
                effects.push(Effect::Report(t));
            },
            Action::SelectNextMessage => {
                self.conversation.select_next_message();
            },
            Action::SelectPreviousMessage => {
                self.conversation.select_prev_message();
            },
            Action::DeleteSelectedMessage => {
                self.conversation.delete_selected_message();
            },
            Action::NewConversation => {
                self.conversation = self.manager.new_conversation();
            },
            Action::SelectNextConversation => {
                self.manager.select_next_conversation();
            },
            Action::SelectPreviousConversation => {
                self.manager.select_prev_conversation();
            },
            Action::LoadSelectedConversation => {
                if let Some(id) = self.manager.load_selected_conversation() {
                    effects.push(Effect::Load(id));
                }
            },
            Action::DeleteSelectedConversation => {
                if let Some(m) = self.manager.delete_selected_conversation() {
                    effects.push(Effect::DeleteFile(m.path));
                }
            },
            Action::Quit => {
                effects.push(Effect::Quit);
            },
            _ => {},
        }
        effects
    }
}

} // verus!
