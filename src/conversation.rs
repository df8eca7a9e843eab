//! A conversation: messages in order, keyed by id, with a selection cursor and
//! a title.

use crate::completion::{Message, MessageView};
use crate::ids::{format_uuid, time_ordered_id, random_id, uuid_text};
use crate::ordered::{
    has_key, keys_unique, lemma_key_pos, lemma_remove_unique, lemma_upsert_unique, message_entries,
    message_map_get_index, message_map_insert, message_map_len, message_map_new, message_map_shift_remove,
    remove_key, upsert,
};
use indexmap::IndexMap;
use vstd::prelude::*;
use vstd::string::*;

verus! {

pub open spec fn opt_view(t: Option<String>) -> Option<Seq<char>> {
    match t {
        Some(s) => Some(s@),
        None => None,
    }
}

/// The mathematical value of a [`Conversation`].
pub struct ConversationView {
    pub id: u128,
    pub messages: Seq<(u128, MessageView)>,
    pub selected: Option<usize>,
    pub title: Option<Seq<char>>,
}

/// The selection points at a message, and is absent only when there is none.
pub open spec fn selection_ok(len: nat, selected: Option<usize>) -> bool {
    &&& (selected is None <==> len == 0)
    &&& (selected matches Some(i) ==> i < len)
}

/// Message ids are distinct and the selection is in range.
pub open spec fn conversation_wf(c: ConversationView) -> bool {
    keys_unique(c.messages) && selection_ok(c.messages.len(), c.selected)
}

/// Appending a message (or replacing one with the same id) selects the last
/// message.
pub open spec fn add_spec(c: ConversationView, id: u128, m: MessageView) -> ConversationView {
    let messages = upsert(c.messages, id, m);
    ConversationView { messages, selected: Some((messages.len() - 1) as usize), ..c }
}

/// Where the selection goes once message `i` is deleted and `len` are left:
/// one step back, or nowhere when none are left.
pub open spec fn selection_after_delete(i: usize, len: nat) -> Option<usize> {
    if len == 0 {
        None
    } else if i > 0 {
        Some((i - 1) as usize)
    } else {
        Some(0)
    }
}

/// Deleting the selected message, if any.
pub open spec fn delete_selected_spec(c: ConversationView) -> ConversationView {
    match c.selected {
        None => c,
        Some(i) => {
            let messages = c.messages.remove(i as int);
            ConversationView { messages, selected: selection_after_delete(i, messages.len()), ..c }
        },
    }
}

/// An edit made to a conversation's messages.
pub enum Edit {
    Add(u128, MessageView),
    DeleteSelected,
}

/// Edits applied one after another.
pub open spec fn apply_edits(c: ConversationView, edits: Seq<Edit>) -> ConversationView
    decreases edits.len(),
{
    if edits.len() == 0 {
        c
    } else {
        let before = apply_edits(c, edits.drop_last());
        match edits.last() {
            Edit::Add(id, m) => add_spec(before, id, m),
            Edit::DeleteSelected => delete_selected_spec(before),
        }
    }
}

proof fn lemma_add_wf(c: ConversationView, id: u128, m: MessageView)
    requires
        conversation_wf(c),
    ensures
        conversation_wf(add_spec(c, id, m)),
{
    lemma_upsert_unique(c.messages, id, m);
}

proof fn lemma_delete_wf(c: ConversationView)
    requires
        conversation_wf(c),
    ensures
        conversation_wf(delete_selected_spec(c)),
{
    if let Some(i) = c.selected {
        let k = c.messages[i as int].0;
        lemma_key_pos(c.messages, k, i as int);
        lemma_remove_unique(c.messages, k);
        assert(remove_key(c.messages, k) == c.messages.remove(i as int));
    }
}

/// Whatever messages are added and deleted, the selection stays on a message
/// while there is one, and is absent exactly when there is none.
pub proof fn lemma_selection_invariant(c: ConversationView, edits: Seq<Edit>)
    requires
        conversation_wf(c),
    ensures
        conversation_wf(apply_edits(c, edits)),
        apply_edits(c, edits).messages.len() > 0 ==> apply_edits(c, edits).selected.unwrap() < apply_edits(c, edits).messages.len(),
        apply_edits(c, edits).selected is None <==> apply_edits(c, edits).messages.len() == 0,
    decreases edits.len(),
{
    if edits.len() > 0 {
        lemma_selection_invariant(c, edits.drop_last());
        let before = apply_edits(c, edits.drop_last());
        match edits.last() {
            Edit::Add(id, m) => lemma_add_wf(before, id, m),
            Edit::DeleteSelected => lemma_delete_wf(before),
        }
    }
}

/// Whether some message is the user's.
pub open spec fn has_user_message(messages: Seq<(u128, MessageView)>) -> bool {
    exists|i: int| 0 <= i < messages.len() && (#[trigger] messages[i]).1.role is User
}

/// The messages of a conversation, in order.
pub open spec fn message_views(messages: Seq<(u128, MessageView)>) -> Seq<MessageView> {
    messages.map_values(|e: (u128, MessageView)| e.1)
}

/// One conversation, the unit that is saved and loaded.
#[derive(Debug)]
pub struct Conversation {
    pub id: u128,
    messages: IndexMap<u128, Message>,
    selected_message: Option<usize>,
    pub title: Option<String>,
}

impl View for Conversation {
    type V = ConversationView;

    closed spec fn view(&self) -> ConversationView {
        ConversationView {
            id: self.id,
            messages: message_entries(self.messages),
            selected: self.selected_message,
            title: opt_view(self.title),
        }
    }
}

impl Conversation {
    pub open spec fn wf(&self) -> bool {
        conversation_wf(self@)
    }

    /// An empty conversation with a new time-ordered id.
    pub fn new() -> (r: Conversation)
        ensures
            r.wf(),
            r@.messages == Seq::<(u128, MessageView)>::empty(),
            r@.selected is None,
            r@.title is None,
    {
        Conversation::with_id(time_ordered_id())
    }

    /// An empty conversation with id `id`.
    pub fn with_id(id: u128) -> (r: Conversation)
        ensures
            r.wf(),
            r@.id == id,
            r@.messages == Seq::<(u128, MessageView)>::empty(),
            r@.selected is None,
            r@.title is None,
    {
        Conversation { id, messages: message_map_new(), selected_message: None, title: None }
    }

    /// The conversation's id.
    pub fn get_id(&self) -> (r: u128)
        ensures
            r == self@.id,
    {
        self.id
    }

    /// A fresh random id for a message.
    pub fn generate_message_id(&self) -> u128 {
        random_id()
    }

    /// The number of messages.
    pub fn len(&self) -> (r: usize)
        ensures
            r == self@.messages.len(),
    {
        message_map_len(&self.messages)
    }

    /// Puts `message` under `id` at the end (in place, where `id` is already
    /// there) and selects the last message.
    pub fn add_message(&mut self, id: u128, message: Message)
        requires
            old(self).wf(),
        ensures
            final(self).wf(),
            final(self)@ == add_spec(old(self)@, id, message@),
    {
        proof {
            lemma_add_wf(self@, id, message@);
        }
        message_map_insert(&mut self.messages, id, message);
        let n = message_map_len(&self.messages);
        self.selected_message = Some(n - 1);
    }

    /// Replaces the message under `id` as a whole. Returns false, changing
    /// nothing, where no message has that id.
    pub fn replace_message(&mut self, id: u128, message: Message) -> (r: bool)
        requires
            old(self).wf(),
        ensures
            final(self).wf(),
            r == has_key(old(self)@.messages, id),
            final(self)@ == if r {
                ConversationView { messages: upsert(old(self)@.messages, id, message@), ..old(self)@ }
            } else {
                old(self)@
            },
    {
        let n = message_map_len(&self.messages);
        let mut i: usize = 0;
        while i < n
            invariant
                self@ == old(self)@,
                self.wf(),
                n == self@.messages.len(),
                i <= n,
                forall|j: int| 0 <= j < i ==> (#[trigger] self@.messages[j]).0 != id,
            decreases n - i,
        {
            let (k, _) = message_map_get_index(&self.messages, i);
            if k == id {
                proof {
                    lemma_upsert_unique(self@.messages, id, message@);
                    lemma_key_pos(self@.messages, id, i as int);
                }
                message_map_insert(&mut self.messages, id, message);
                return true;
            }
            i = i + 1;
        }
        false
    }

    /// Deletes the selected message, if any, and moves the selection one step
    /// back (or clears it when no message is left).
    pub fn delete_selected_message(&mut self)
        requires
            old(self).wf(),
        ensures
            final(self).wf(),
            final(self)@ == delete_selected_spec(old(self)@),
    {
        proof {
            lemma_delete_wf(self@);
        }
        if let Some(i) = self.selected_message {
            let (k, _) = message_map_get_index(&self.messages, i);
            proof {
                lemma_key_pos(self@.messages, k, i as int);
            }
            message_map_shift_remove(&mut self.messages, k);
            let n = message_map_len(&self.messages);
            self.selected_message = if n == 0 {
                None
            } else if i > 0 {
                Some(i - 1)
            } else {
                Some(0)
            };
        }
    }

    /// The id of the selected message.
    pub fn get_selected_uuid(&self) -> (r: Option<u128>)
        requires
            self.wf(),
        ensures
            r == match self@.selected {
                Some(i) => Some(self@.messages[i as int].0),
                None => None::<u128>,
            },
    {
        match self.selected_message {
            Some(i) => Some(message_map_get_index(&self.messages, i).0),
            None => None,
        }
    }

    /// The number of messages and the selected position (0 when none is).
    pub fn get_position(&self) -> (r: (usize, usize))
        ensures
            r.0 == self@.messages.len(),
            r.1 == match self@.selected {
                Some(i) => i,
                None => 0,
            },
    {
        let n = message_map_len(&self.messages);
        match self.selected_message {
            Some(i) => (n, i),
            None => (n, 0),
        }
    }

    /// The id of the message at position `i`, if there is one.
    pub fn get_uuid_by_index(&self, i: usize) -> (r: Option<u128>)
        ensures
            r == if i < self@.messages.len() {
                Some(self@.messages[i as int].0)
            } else {
                None::<u128>
            },
    {
        if i < message_map_len(&self.messages) {
            Some(message_map_get_index(&self.messages, i).0)
        } else {
            None
        }
    }

    /// Selects the last message, or nothing when there is none.
    pub fn select_last_message(&mut self)
        requires
            old(self).wf(),
        ensures
            final(self).wf(),
            final(self)@ == (ConversationView {
                selected: if old(self)@.messages.len() == 0 {
                    None
                } else {
                    Some((old(self)@.messages.len() - 1) as usize)
                },
                ..old(self)@
            }),
    {
        let n = message_map_len(&self.messages);
        self.selected_message = if n == 0 {
            None
        } else {
            Some(n - 1)
        };
    }

    /// A copy of the selected message.
    pub fn get_selected_message(&self) -> (r: Option<Message>)
        requires
            self.wf(),
        ensures
            r is Some <==> self@.selected is Some,
            r matches Some(m) ==> m@ == self@.messages[self@.selected.unwrap() as int].1,
    {
        match self.selected_message {
            Some(i) => Some(message_map_get_index(&self.messages, i).1.duplicate()),
            None => None,
        }
    }

    /// Moves the selection one message on, stopping at the last.
    pub fn select_next_message(&mut self)
        requires
            old(self).wf(),
        ensures
            final(self).wf(),
            final(self)@ == (ConversationView {
                selected: match old(self)@.selected {
                    Some(i) => Some(if i + 1 < old(self)@.messages.len() { (i + 1) as usize } else { i }),
                    None => None,
                },
                ..old(self)@
            }),
    {
        if let Some(i) = self.selected_message {
            let n = message_map_len(&self.messages);
            if i < n - 1 {
                self.selected_message = Some(i + 1);
            }
        }
    }

    /// Moves the selection one message back, stopping at the first.
    pub fn select_prev_message(&mut self)
        requires
            old(self).wf(),
        ensures
            final(self).wf(),
            final(self)@ == (ConversationView {
                selected: match old(self)@.selected {
                    Some(i) => Some(if i > 0 { (i - 1) as usize } else { i }),
                    None => None,
                },
                ..old(self)@
            }),
    {
        if let Some(i) = self.selected_message {
            if i > 0 {
                self.selected_message = Some(i - 1);
            }
        }
    }

    /// Whether no message is the user's.
    pub fn has_no_user_messages(&self) -> (r: bool)
        ensures
            r == !has_user_message(self@.messages),
    {
        let n = message_map_len(&self.messages);
        let mut i: usize = 0;
        while i < n
            invariant
                n == self@.messages.len(),
                i <= n,
                forall|j: int| 0 <= j < i ==> !((#[trigger] self@.messages[j]).1.role is User),
            decreases n - i,
        {
            let (_, m) = message_map_get_index(&self.messages, i);
            if m.role == crate::completion::MessageRole::User {
                return false;
            }
            i = i + 1;
        }
        true
    }

    /// The id and a copy of the message at position `i`.
    pub fn message_at(&self, i: usize) -> (r: (u128, Message))
        requires
            i < self@.messages.len(),
        ensures
            r.0 == self@.messages[i as int].0,
            r.1@ == self@.messages[i as int].1,
    {
        let (k, m) = message_map_get_index(&self.messages, i);
        (k, m.duplicate())
    }

    /// Copies of all messages, in order.
    pub fn messages(&self) -> (r: Vec<Message>)
        ensures
            crate::prompt::views(r@) == message_views(self@.messages),
    {
        let n = message_map_len(&self.messages);
        let mut r: Vec<Message> = Vec::new();
        let mut i: usize = 0;
        while i < n
            invariant
                n == self@.messages.len(),
                i <= n,
                crate::prompt::views(r@) == message_views(self@.messages).take(i as int),
            decreases n - i,
        {
            let (_, m) = message_map_get_index(&self.messages, i);
            let ghost before = r@;
            r.push(m.duplicate());
            assert(message_views(self@.messages)[i as int] == self@.messages[i as int].1);
            assert(message_views(self@.messages).take(i + 1) =~= message_views(self@.messages).take(i as int).push(
                self@.messages[i as int].1,
            ));
            assert(crate::prompt::views(r@) =~= crate::prompt::views(before).push(r@[i as int]@));
            assert(crate::prompt::views(r@) =~= message_views(self@.messages).take(i + 1));
            i = i + 1;
        }
        assert(message_views(self@.messages).take(n as int) =~= message_views(self@.messages));
        r
    }

    /// Sets the title.
    pub fn set_title(&mut self, title: String)
        requires
            old(self).wf(),
        ensures
            final(self).wf(),
            final(self)@ == (ConversationView { title: Some(title@), ..old(self)@ }),
    {
        self.title = Some(title);
    }

    /// The title, or the id's text where none was set.
    pub fn display_title(&self) -> (r: String)
        ensures
            r@ == match self@.title {
                Some(t) => t,
                None => uuid_text(self@.id),
            },
    {
        match &self.title {
            Some(t) => t.clone(),
            None => format_uuid(self.id),
        }
    }

    /// The name of the file the conversation is saved in: its id and `.json`.
    pub fn file_name(&self) -> (r: String)
        ensures
            r@ == uuid_text(self@.id) + ".json"@,
    {
        let mut r = format_uuid(self.id);
        r.append(".json");
        r
    }
}

/// The saved form of a conversation: plain lists, message ids beside the
/// messages in the same order.
#[derive(Clone, Debug)]
pub struct ConversationRecord {
    pub id: u128,
    pub message_ids: Vec<u128>,
    pub messages: Vec<Message>,
    pub selected_message: Option<usize>,
    pub title: Option<String>,
}

/// The mathematical value of a [`ConversationRecord`].
pub struct RecordView {
    pub id: u128,
    pub ids: Seq<u128>,
    pub messages: Seq<MessageView>,
    pub selected: Option<usize>,
    pub title: Option<Seq<char>>,
}

impl View for ConversationRecord {
    type V = RecordView;

    open spec fn view(&self) -> RecordView {
        RecordView {
            id: self.id,
            ids: self.message_ids@,
            messages: crate::prompt::views(self.messages@),
            selected: self.selected_message,
            title: opt_view(self.title),
        }
    }
}

/// The record a conversation is saved as.
pub open spec fn record_of(c: ConversationView) -> RecordView {
    RecordView {
        id: c.id,
        ids: c.messages.map_values(|e: (u128, MessageView)| e.0),
        messages: message_views(c.messages),
        selected: c.selected,
        title: c.title,
    }
}

pub open spec fn ids_distinct(ids: Seq<u128>) -> bool {
    forall|i: int, j: int| 0 <= i < ids.len() && 0 <= j < ids.len() && i != j ==> ids[i] != ids[j]
}

/// A record that a conversation can be rebuilt from: one id per message, no id
/// twice.
pub open spec fn record_valid(r: RecordView) -> bool {
    r.ids.len() == r.messages.len() && ids_distinct(r.ids)
}

/// A saved selection, brought back in range: absent for no message, the last
/// message where it is absent or out of range.
pub open spec fn normalized_selection(len: nat, selected: Option<usize>) -> Option<usize> {
    if len == 0 {
        None
    } else {
        match selected {
            Some(i) => if i < len { Some(i) } else { Some((len - 1) as usize) },
            None => Some((len - 1) as usize),
        }
    }
}

/// The conversation a valid record is loaded as.
pub open spec fn conversation_of(r: RecordView) -> ConversationView {
    ConversationView {
        id: r.id,
        messages: Seq::new(r.ids.len(), |i: int| (r.ids[i], r.messages[i])),
        selected: normalized_selection(r.ids.len(), r.selected),
        title: r.title,
    }
}

/// Saving a conversation and loading the record back gives the same
/// conversation: id, messages in order under their ids, selection and title.
pub proof fn lemma_record_round_trip(c: ConversationView)
    requires
        conversation_wf(c),
    ensures
        record_valid(record_of(c)),
        conversation_of(record_of(c)) == c,
{
    let r = record_of(c);
    assert forall|i: int, j: int| 0 <= i < r.ids.len() && 0 <= j < r.ids.len() && i != j implies r.ids[i] != r.ids[j] by {
        assert(r.ids[i] == c.messages[i].0);
        assert(r.ids[j] == c.messages[j].0);
    }
    let back = conversation_of(r);
    assert(back.messages =~= c.messages);
}

fn copy_title(t: &Option<String>) -> (r: Option<String>)
    ensures
        opt_view(r) == opt_view(*t),
{
    match t {
        Some(s) => Some(s.clone()),
        None => None,
    }
}

/// Whether no id occurs twice.
fn distinct_ids(ids: &Vec<u128>) -> (r: bool)
    ensures
        r == ids_distinct(ids@),
{
    let mut i: usize = 0;
    while i < ids.len()
        invariant
            i <= ids.len(),
            forall|a: int, b: int| 0 <= a < i && 0 <= b < ids.len() && a != b ==> ids@[a] != ids@[b],
        decreases ids.len() - i,
    {
        let mut j: usize = 0;
        while j < ids.len()
            invariant
                i < ids.len(),
                j <= ids.len(),
                forall|a: int, b: int| 0 <= a < i && 0 <= b < ids.len() && a != b ==> ids@[a] != ids@[b],
                forall|b: int| 0 <= b < j && b != i ==> ids@[i as int] != ids@[b],
            decreases ids.len() - j,
        {
            if j != i && ids[i] == ids[j] {
                return false;
            }
            j = j + 1;
        }
        i = i + 1;
    }
    true
}

impl Conversation {
    /// The record this conversation is saved as.
    pub fn to_record(&self) -> (r: ConversationRecord)
        ensures
            r@ == record_of(self@),
    {
        let n = message_map_len(&self.messages);
        let mut ids: Vec<u128> = Vec::new();
        let mut messages: Vec<Message> = Vec::new();
        let mut i: usize = 0;
        while i < n
            invariant
                n == self@.messages.len(),
                i <= n,
                ids@ == self@.messages.map_values(|e: (u128, MessageView)| e.0).take(i as int),
                crate::prompt::views(messages@) == message_views(self@.messages).take(i as int),
            decreases n - i,
        {
            let (k, m) = message_map_get_index(&self.messages, i);
            let ghost before = messages@;
            ids.push(k);
            messages.push(m.duplicate());
            assert(ids@ =~= self@.messages.map_values(|e: (u128, MessageView)| e.0).take(i + 1));
            assert(crate::prompt::views(messages@) =~= crate::prompt::views(before).push(messages@[i as int]@));
            assert(crate::prompt::views(messages@) =~= message_views(self@.messages).take(i + 1));
            i = i + 1;
        }
        assert(ids@ =~= self@.messages.map_values(|e: (u128, MessageView)| e.0));
        assert(crate::prompt::views(messages@) =~= message_views(self@.messages));
        ConversationRecord {
            id: self.id,
            message_ids: ids,
            messages,
            selected_message: self.selected_message,
            title: copy_title(&self.title),
        }
    }

    /// The conversation a record holds; `None` where the record has not one id
    /// per message or repeats an id. A selection out of range is brought back
    /// in range.
    pub fn from_record(r: &ConversationRecord) -> (c: Option<Conversation>)
        ensures
            c is Some <==> record_valid(r@),
            c matches Some(c) ==> c.wf() && c@ == conversation_of(r@),
    {
        if r.message_ids.len() != r.messages.len() {
            return None;
        }
        if !distinct_ids(&r.message_ids) {
            return None;
        }
        let ghost rv = r@;
        let mut c = Conversation::with_id(r.id);
        let n = r.message_ids.len();
        let mut i: usize = 0;
        while i < n
            invariant
                rv == r@,
                record_valid(rv),
                n == rv.ids.len(),
                i <= n,
                c@.id == r.id,
                c@.selected is None,
                c@.title is None,
                c@.messages == Seq::new(i as nat, |j: int| (rv.ids[j], rv.messages[j])),
            decreases n - i,
        {
            let k = r.message_ids[i];
            proof {
                if has_key(c@.messages, k) {
                    let j = choose|j: int| 0 <= j < c@.messages.len() && (#[trigger] c@.messages[j]).0 == k;
                    assert(rv.ids[j] == rv.ids[i as int]);
                }
            }
            message_map_insert(&mut c.messages, k, r.messages[i].duplicate());
            assert(c@.messages =~= Seq::new((i + 1) as nat, |j: int| (rv.ids[j], rv.messages[j])));
            i = i + 1;
        }
        c.selected_message = if n == 0 {
            None
        } else {
            match r.selected_message {
                Some(s) => if s < n { Some(s) } else { Some(n - 1) },
                None => Some(n - 1),
            }
        };
        c.title = copy_title(&r.title);
        proof {
            assert forall|a: int, b: int|
                0 <= a < c@.messages.len() && 0 <= b < c@.messages.len() && a != b implies (#[trigger] c@.messages[a]).0
                != (#[trigger] c@.messages[b]).0 by {
                assert(c@.messages[a].0 == rv.ids[a]);
                assert(c@.messages[b].0 == rv.ids[b]);
            }
        }
        Some(c)
    }
}

} // verus!
