//! The index of saved conversations: what is listed, which entry is selected
//! and which is active.

use crate::conversation::Conversation;
use crate::ids::{format_uuid, uuid_text};
use crate::ordered::{
    has_key, keys_unique, lemma_key_pos, lemma_remove_unique, lemma_upsert_unique, listing_entries,
    listing_get_index, listing_insert, listing_len, listing_new, listing_shift_remove, remove_key, upsert,
};
use indexmap::IndexMap;
use vstd::prelude::*;

verus! {

/// What the listing keeps of a saved conversation: the name of its file in the
/// storage directory, and its title.
#[derive(Clone, Debug)]
pub struct ConversationMetadata {
    pub path: String,
    pub title: String,
}

impl View for ConversationMetadata {
    type V = (Seq<char>, Seq<char>);

    open spec fn view(&self) -> (Seq<char>, Seq<char>) {
        (self.path@, self.title@)
    }
}

/// The mathematical value of a [`ConversationManager`].
pub struct ManagerView {
    pub entries: Seq<(u128, (Seq<char>, Seq<char>))>,
    pub active: usize,
    pub selected: usize,
}

/// Ids are distinct and the selection is on an entry (0 when there is none).
pub open spec fn manager_wf(m: ManagerView) -> bool {
    &&& keys_unique(m.entries)
    &&& (m.entries.len() == 0 ==> m.selected == 0)
    &&& (m.entries.len() > 0 ==> m.selected < m.entries.len())
}

/// The listing entry of a conversation: its file name, and its title or, where
/// it has none, its id's text.
pub open spec fn metadata_of(id: u128, title: Option<Seq<char>>) -> (Seq<char>, Seq<char>) {
    (
        uuid_text(id) + ".json"@,
        match title {
            Some(t) => t,
            None => uuid_text(id),
        },
    )
}

/// The selection once the listing has `len` entries: kept where still in
/// range, else on the last entry, else 0.
pub open spec fn clamp_selection(selected: usize, len: nat) -> usize {
    if len == 0 {
        0
    } else if selected < len {
        selected
    } else {
        (len - 1) as usize
    }
}

/// The saved conversations, in the order they were indexed.
#[derive(Debug)]
pub struct ConversationManager {
    conversation_files: IndexMap<u128, ConversationMetadata>,
    pub active_conversation: usize,
    pub selected_conversation: usize,
}

impl View for ConversationManager {
    type V = ManagerView;

    closed spec fn view(&self) -> ManagerView {
        ManagerView {
            entries: listing_entries(self.conversation_files),
            active: self.active_conversation,
            selected: self.selected_conversation,
        }
    }
}

impl ConversationManager {
    pub open spec fn wf(&self) -> bool {
        manager_wf(self@)
    }

    /// An empty listing.
    pub fn new() -> (r: ConversationManager)
        ensures
            r.wf(),
            r@.entries == Seq::<(u128, (Seq<char>, Seq<char>))>::empty(),
            r@.active == 0,
            r@.selected == 0,
    {
        ConversationManager { conversation_files: listing_new(), active_conversation: 0, selected_conversation: 0 }
    }

    /// The number of listed conversations.
    pub fn len(&self) -> (r: usize)
        ensures
            r == self@.entries.len(),
    {
        listing_len(&self.conversation_files)
    }

    /// Lists `conversation`, or brings its entry up to date where it is listed
    /// already (after a save, or once a title is set).
    pub fn update_conversation(&mut self, conversation: &Conversation)
        requires
            old(self).wf(),
        ensures
            final(self).wf(),
            final(self)@ == (ManagerView {
                entries: upsert(old(self)@.entries, conversation@.id, metadata_of(conversation@.id, conversation@.title)),
                ..old(self)@
            }),
    {
        let metadata = ConversationMetadata { path: conversation.file_name(), title: conversation.display_title() };
        proof {
            lemma_upsert_unique(self@.entries, conversation@.id, metadata@);
        }
        listing_insert(&mut self.conversation_files, conversation.get_id(), metadata);
    }

    /// Lists `conversation`, as [`Self::update_conversation`] does.
    pub fn add_conversation(&mut self, conversation: &Conversation)
        requires
            old(self).wf(),
        ensures
            final(self).wf(),
            final(self)@ == (ManagerView {
                entries: upsert(old(self)@.entries, conversation@.id, metadata_of(conversation@.id, conversation@.title)),
                ..old(self)@
            }),
    {
        self.update_conversation(conversation)
    }

    /// Starts an empty conversation and lists it.
    pub fn new_conversation(&mut self) -> (r: Conversation)
        requires
            old(self).wf(),
        ensures
            final(self).wf(),
            r.wf(),
            r@.messages.len() == 0,
            r@.title is None,
            final(self)@ == (ManagerView {
                entries: upsert(old(self)@.entries, r@.id, metadata_of(r@.id, None)),
                ..old(self)@
            }),
    {
        let convo = Conversation::new();
        self.update_conversation(&convo);
        convo
    }

    /// The id of the listed conversation at position `i`.
    pub fn id_at(&self, i: usize) -> (r: Option<u128>)
        ensures
            r == if i < self@.entries.len() {
                Some(self@.entries[i as int].0)
            } else {
                None::<u128>
            },
    {
        if i < listing_len(&self.conversation_files) {
            Some(listing_get_index(&self.conversation_files, i).0)
        } else {
            None
        }
    }

    /// Makes the selected conversation the active one and returns its id, the
    /// one to load; `None` where nothing is listed.
    pub fn load_selected_conversation(&mut self) -> (r: Option<u128>)
        requires
            old(self).wf(),
        ensures
            final(self).wf(),
            r == if old(self)@.selected < old(self)@.entries.len() {
                Some(old(self)@.entries[old(self)@.selected as int].0)
            } else {
                None::<u128>
            },
            final(self)@ == (ManagerView {
                active: if r is Some { old(self)@.selected } else { old(self)@.active },
                ..old(self)@
            }),
    {
        let r = self.id_at(self.selected_conversation);
        if r.is_some() {
            self.activate_selected_conversation();
        }
        r
    }

    /// Makes the selected conversation the active one.
    pub fn activate_selected_conversation(&mut self)
        requires
            old(self).wf(),
        ensures
            final(self).wf(),
            final(self)@ == (ManagerView { active: old(self)@.selected, ..old(self)@ }),
    {
        self.active_conversation = self.selected_conversation;
    }

    /// Makes `conversation` the active one; false, changing nothing, where it
    /// is not listed.
    pub fn set_active_conversation(&mut self, conversation: &Conversation) -> (r: bool)
        requires
            old(self).wf(),
        ensures
            final(self).wf(),
            r == has_key(old(self)@.entries, conversation@.id),
            r ==> final(self)@.active < final(self)@.entries.len() && final(self)@.entries[final(self)@.active as int].0
                == conversation@.id,
            final(self)@.entries == old(self)@.entries,
            final(self)@.selected == old(self)@.selected,
            !r ==> final(self)@ == old(self)@,
    {
        let n = listing_len(&self.conversation_files);
        let mut i: usize = 0;
        while i < n
            invariant
                self@ == old(self)@,
                self.wf(),
                n == self@.entries.len(),
                i <= n,
                forall|j: int| 0 <= j < i ==> (#[trigger] self@.entries[j]).0 != conversation@.id,
            decreases n - i,
        {
            if listing_get_index(&self.conversation_files, i).0 == conversation.get_id() {
                self.active_conversation = i;
                return true;
            }
            i = i + 1;
        }
        false
    }

    /// Moves the selection one entry on, stopping at the last.
    pub fn select_next_conversation(&mut self)
        requires
            old(self).wf(),
        ensures
            final(self).wf(),
            final(self)@ == (ManagerView {
                selected: if old(self)@.selected + 1 < old(self)@.entries.len() {
                    (old(self)@.selected + 1) as usize
                } else {
                    old(self)@.selected
                },
                ..old(self)@
            }),
    {
        let n = listing_len(&self.conversation_files);
        if n > 0 && self.selected_conversation < n - 1 {
            self.selected_conversation = self.selected_conversation + 1;
        }
    }

    /// Moves the selection one entry back, stopping at the first.
    pub fn select_prev_conversation(&mut self)
        requires
            old(self).wf(),
        ensures
            final(self).wf(),
            final(self)@ == (ManagerView {
                selected: if old(self)@.selected > 0 {
                    (old(self)@.selected - 1) as usize
                } else {
                    0
                },
                ..old(self)@
            }),
    {
        if self.selected_conversation > 0 {
            self.selected_conversation = self.selected_conversation - 1;
        }
    }

    /// The ids' texts, in listing order.
    pub fn list_conversations(&self) -> (r: Vec<String>)
        ensures
            r@.len() == self@.entries.len(),
            forall|i: int| 0 <= i < r@.len() ==> (#[trigger] r@[i])@ == uuid_text(self@.entries[i].0),
    {
        let n = listing_len(&self.conversation_files);
        let mut r: Vec<String> = Vec::new();
        let mut i: usize = 0;
        while i < n
            invariant
                n == self@.entries.len(),
                i <= n,
                r@.len() == i,
                forall|j: int| 0 <= j < i ==> (#[trigger] r@[j])@ == uuid_text(self@.entries[j].0),
            decreases n - i,
        {
            r.push(format_uuid(listing_get_index(&self.conversation_files, i).0));
            i = i + 1;
        }
        r
    }

    /// The titles, in listing order.
    pub fn list_titles(&self) -> (r: Vec<String>)
        ensures
            r@.len() == self@.entries.len(),
            forall|i: int| 0 <= i < r@.len() ==> (#[trigger] r@[i])@ == self@.entries[i].1.1,
    {
        let n = listing_len(&self.conversation_files);
        let mut r: Vec<String> = Vec::new();
        let mut i: usize = 0;
        while i < n
            invariant
                n == self@.entries.len(),
                i <= n,
                r@.len() == i,
                forall|j: int| 0 <= j < i ==> (#[trigger] r@[j])@ == self@.entries[j].1.1,
            decreases n - i,
        {
            r.push(listing_get_index(&self.conversation_files, i).1.title.clone());
            i = i + 1;
        }
        r
    }

    /// Takes conversation `id` off the listing and returns its entry, whose
    /// file the caller deletes; `None`, changing nothing, where it is not
    /// listed. The selection stays in range.
    pub fn delete_conversation(&mut self, id: u128) -> (r: Option<ConversationMetadata>)
        requires
            old(self).wf(),
        ensures
            final(self).wf(),
            r is Some <==> has_key(old(self)@.entries, id),
            final(self)@.entries == remove_key(old(self)@.entries, id),
            final(self)@.selected == clamp_selection(old(self)@.selected, final(self)@.entries.len()),
            final(self)@.active == old(self)@.active,
            r matches Some(m) ==> m@ == old(self)@.entries[crate::ordered::key_pos(old(self)@.entries, id)].1,
    {
        proof {
            lemma_remove_unique(self@.entries, id);
        }
        let n = listing_len(&self.conversation_files);
        let mut i: usize = 0;
        while i < n
            invariant
                self@ == old(self)@,
                self.wf(),
                n == self@.entries.len(),
                i <= n,
                forall|j: int| 0 <= j < i ==> (#[trigger] self@.entries[j]).0 != id,
            decreases n - i,
        {
            let (k, m) = listing_get_index(&self.conversation_files, i);
            if k == id {
                let removed = ConversationMetadata { path: m.path.clone(), title: m.title.clone() };
                proof {
                    lemma_key_pos(self@.entries, id, i as int);
                }
                listing_shift_remove(&mut self.conversation_files, id);
                let left = listing_len(&self.conversation_files);
                if left == 0 {
                    self.selected_conversation = 0;
                } else if self.selected_conversation >= left {
                    self.selected_conversation = left - 1;
                }
                return Some(removed);
            }
            i = i + 1;
        }
        None
    }

    /// Takes the selected conversation off the listing, as
    /// [`Self::delete_conversation`] does.
    pub fn delete_selected_conversation(&mut self) -> (r: Option<ConversationMetadata>)
        requires
            old(self).wf(),
        ensures
            final(self).wf(),
            r is Some <==> old(self)@.selected < old(self)@.entries.len(),
            old(self)@.selected < old(self)@.entries.len() ==> final(self)@.entries == old(self)@.entries.remove(
                old(self)@.selected as int,
            ),
            old(self)@.selected >= old(self)@.entries.len() ==> final(self)@ == old(self)@,
            r matches Some(m) ==> m@ == old(self)@.entries[old(self)@.selected as int].1,
            final(self)@.selected == clamp_selection(old(self)@.selected, final(self)@.entries.len()),
    {
        match self.id_at(self.selected_conversation) {
            Some(id) => {
                proof {
                    lemma_key_pos(self@.entries, id, self@.selected as int);
                }
                self.delete_conversation(id)
            },
            None => None,
        }
    }
}

} // verus!
