//! The decisions of one send-message flow. The caller runs the remote work
//! (starting the completion, polling its status, reading its event stream) and
//! hands each outcome here; what comes back is the events to emit, in order.

use crate::accumulator::{accept_spec, content_spec, done_kind, AccumulatorView, ChunkAccumulator};
use crate::action::Action;
use crate::completion::{CompletionStatus, Message, MessageRole, MessageView};
use crate::config::ModelConfigView;
use crate::conversation::{has_user_message, message_views, Conversation};
use crate::prompt::views;
use crate::providers::CompletionModel;
use crate::registry::{provider_ids, CompletionProviderLibrary};
use vstd::prelude::*;
use vstd::string::*;

verus! {

/// How many of `actions` ask for a title.
pub open spec fn title_requests(actions: Seq<Action>) -> nat
    decreases actions.len(),
{
    if actions.len() == 0 {
        0
    } else {
        title_requests(actions.drop_last()) + if actions.last() is UpdateTitle { 1nat } else { 0nat }
    }
}

/// `a` brings message `m` in under id `id`.
pub open spec fn is_receive(a: Action, id: u128, m: MessageView) -> bool {
    match a {
        Action::ReceiveMessage(i, msg) => i == id && msg@ == m,
        _ => false,
    }
}

/// `a` replaces the message under `id` with `m`.
pub open spec fn is_update(a: Action, id: u128, m: MessageView) -> bool {
    match a {
        Action::StreamMessage(i, msg) => i == id && msg@ == m,
        _ => false,
    }
}

/// The assistant's reply as it stands.
pub open spec fn reply_view(model: ModelConfigView, content: Seq<char>, status: CompletionStatus) -> MessageView {
    MessageView { role: MessageRole::Assistant, content, model, status }
}

/// The mathematical value of a [`SendFlow`].
pub struct FlowView {
    pub reply_id: u128,
    pub model: ModelConfigView,
    pub chunks: AccumulatorView,
    pub streamed: bool,
    pub finished: bool,
}

/// What the caller does after a status poll.
#[derive(Debug)]
pub enum FlowStep {
    /// Still starting: wait, then poll again.
    Wait,
    /// Read the event stream, handing each event to the flow.
    ReadStream,
    /// Emit these events; the flow is over.
    Finish(Vec<Action>),
}

/// One completion in flight, addressed by the id of the reply it fills.
pub struct SendFlow {
    reply_id: u128,
    model: CompletionModel,
    chunks: ChunkAccumulator,
    streamed: bool,
    finished: bool,
}

impl View for SendFlow {
    type V = FlowView;

    closed spec fn view(&self) -> FlowView {
        FlowView {
            reply_id: self.reply_id,
            model: self.model.model_config@,
            chunks: self.chunks@,
            streamed: self.streamed,
            finished: self.finished,
        }
    }
}

/// What sending a message starts with.
pub struct SendPlan {
    /// The events to emit first, in order.
    pub actions: Vec<Action>,
    /// The flow that runs the completion; `None` where the model could not be
    /// resolved.
    pub flow: Option<SendFlow>,
    /// The messages the completion is asked for: the conversation's, then the
    /// new one.
    pub history: Vec<Message>,
}

/// The text of the error event for a model that could not be resolved.
pub open spec fn unresolved_text() -> Seq<char> {
    "model not found"@
}

impl SendFlow {
    pub closed spec fn wf(&self) -> bool {
        self.chunks.wf()
    }

    /// The id of the reply this flow fills.
    pub fn reply_id(&self) -> (r: u128)
        ensures
            r == self@.reply_id,
    {
        self.reply_id
    }

    /// The model the completion runs on.
    pub fn model(&self) -> (r: &CompletionModel)
        ensures
            r.model_config@ == self@.model,
    {
        &self.model
    }

    /// Whether the flow is over.
    pub fn is_finished(&self) -> (r: bool)
        ensures
            r == self@.finished,
    {
        self.finished
    }

    fn reply(&self, content: String, status: CompletionStatus) -> (r: Action)
        ensures
            is_update(r, self@.reply_id, reply_view(self@.model, content@, status)),
    {
        Action::StreamMessage(
            self.reply_id,
            Message::new(MessageRole::Assistant, content, self.model.model_config.duplicate(), status),
        )
    }

    /// Takes one event of the stream: a chunk updates the reply, the "done"
    /// event completes it and asks for a save. Nothing once the flow is over.
    pub fn on_event(&mut self, kind: String, id: String, text: String) -> (r: Vec<Action>)
        requires
            old(self).wf(),
        ensures
            final(self).wf(),
            final(self)@.reply_id == old(self)@.reply_id,
            final(self)@.model == old(self)@.model,
            final(self)@.streamed == old(self)@.streamed,
            old(self)@.finished ==> final(self)@ == old(self)@ && r@.len() == 0,
            !old(self)@.finished && kind@ == done_kind() ==> {
                &&& final(self)@.finished
                &&& final(self)@.chunks == accept_spec(old(self)@.chunks, kind@, id@, text@)
                &&& r@.len() == 2
                &&& is_update(r@[0], old(self)@.reply_id, reply_view(old(self)@.model, content_spec(old(self)@.chunks), CompletionStatus::Succeeded))
                &&& r@[1] is SaveConversation
            },
            !old(self)@.finished && kind@ != done_kind() ==> {
                &&& !final(self)@.finished
                &&& final(self)@.chunks == accept_spec(old(self)@.chunks, kind@, id@, text@)
                &&& r@.len() == 1
                &&& is_update(r@[0], old(self)@.reply_id, reply_view(old(self)@.model, content_spec(final(self)@.chunks), CompletionStatus::Processing))
            },
    {
        let mut r: Vec<Action> = Vec::new();
        if self.finished {
            return r;
        }
        let done = String::from_str("done");
        let is_done = kind == done;
        self.chunks.accept(kind, id, text);
        let content = self.chunks.content();
        if is_done {
            self.finished = true;
            r.push(self.reply(content, CompletionStatus::Succeeded));
            r.push(Action::SaveConversation);
        } else {
            r.push(self.reply(content, CompletionStatus::Processing));
        }
        r
    }

    /// Takes a status poll. `Starting` waits; `Processing` (and `Succeeded`
    /// before the stream was read) reads the stream; `Succeeded` after it
    /// completes the reply with what was gathered; `Failed` and `Canceled`
    /// end the reply with what was gathered, under that status.
    pub fn on_status(&mut self, status: CompletionStatus) -> (r: FlowStep)
        requires
            old(self).wf(),
        ensures
            final(self).wf(),
            final(self)@.reply_id == old(self)@.reply_id,
            final(self)@.model == old(self)@.model,
            final(self)@.chunks == old(self)@.chunks,
            old(self)@.finished ==> final(self)@ == old(self)@ && (r matches FlowStep::Finish(v) && v@.len() == 0),
            !old(self)@.finished ==> match status {
                CompletionStatus::Starting => final(self)@ == old(self)@ && r is Wait,
                CompletionStatus::Processing => r is ReadStream && final(self)@.streamed && !final(self)@.finished,
                CompletionStatus::Succeeded => if !old(self)@.streamed {
                    r is ReadStream && final(self)@.streamed && !final(self)@.finished
                } else {
                    &&& final(self)@.finished
                    &&& r matches FlowStep::Finish(v)
                    &&& v@.len() == 2
                    &&& is_update(v@[0], old(self)@.reply_id, reply_view(old(self)@.model, content_spec(old(self)@.chunks), CompletionStatus::Succeeded))
                    &&& v@[1] is SaveConversation
                },
                _ => {
                    &&& final(self)@.finished
                    &&& r matches FlowStep::Finish(v)
                    &&& v@.len() == 1
                    &&& is_update(v@[0], old(self)@.reply_id, reply_view(old(self)@.model, content_spec(old(self)@.chunks), status))
                },
            },
    {
        if self.finished {
            return FlowStep::Finish(Vec::new());
        }
        match status {
            CompletionStatus::Starting => FlowStep::Wait,
            CompletionStatus::Processing => {
                self.streamed = true;
                FlowStep::ReadStream
            },
            CompletionStatus::Succeeded => {
                if !self.streamed {
                    self.streamed = true;
                    FlowStep::ReadStream
                } else {
                    self.finished = true;
                    let mut v: Vec<Action> = Vec::new();
                    v.push(self.reply(self.chunks.content(), CompletionStatus::Succeeded));
                    v.push(Action::SaveConversation);
                    FlowStep::Finish(v)
                }
            },
            _ => {
                self.finished = true;
                let mut v: Vec<Action> = Vec::new();
                v.push(self.reply(self.chunks.content(), status));
                FlowStep::Finish(v)
            },
        }
    }

    /// Takes a transport or decoding error: the reply ends `Failed`, showing
    /// the error text. Nothing once the flow is over.
    pub fn on_stream_error(&mut self, error: String) -> (r: Vec<Action>)
        requires
            old(self).wf(),
        ensures
            final(self).wf(),
            final(self)@.finished,
            final(self)@.reply_id == old(self)@.reply_id,
            final(self)@.model == old(self)@.model,
            final(self)@.chunks == old(self)@.chunks,
            old(self)@.finished ==> r@.len() == 0,
            !old(self)@.finished ==> r@.len() == 1 && is_update(
                r@[0],
                old(self)@.reply_id,
                reply_view(old(self)@.model, error@, CompletionStatus::Failed),
            ),
    {
        let mut r: Vec<Action> = Vec::new();
        if self.finished {
            return r;
        }
        self.finished = true;
        r.push(self.reply(error, CompletionStatus::Failed));
        r
    }
}

/// Starts sending `message` into `conversation`. Resolves the model the
/// message names; where that fails, the plan is one error event and nothing
/// more. Otherwise it takes two fresh ids, one for the message and one for the
/// reply, and opens with: the message under its id, a title request where the
/// conversation holds no user message yet, and an empty reply under the other
/// id in `Starting` state.
pub fn start_send(conversation: &Conversation, message: Message, registry: &CompletionProviderLibrary) -> (r: SendPlan)
    ensures
        !provider_ids(registry@).contains(message@.model.provider_id) ==> {
            &&& r.flow is None
            &&& r.actions@.len() == 1
            &&& r.actions@[0] matches Action::Error(t) && t@ == unresolved_text()
            &&& title_requests(r.actions@) == 0
        },
        provider_ids(registry@).contains(message@.model.provider_id) ==> {
            &&& r.flow matches Some(f) && {
                &&& f.wf()
                &&& f@.model == message@.model
                &&& f@.chunks == AccumulatorView { chunks: Seq::empty(), done: false }
                &&& !f@.streamed
                &&& !f@.finished
                &&& is_receive(r.actions@.last(), f@.reply_id, reply_view(message@.model, Seq::empty(), CompletionStatus::Starting))
            }
            &&& r.actions@.len() == if has_user_message(conversation@.messages) { 2int } else { 3int }
            &&& exists|input_id: u128| is_receive(r.actions@[0], input_id, message@)
            &&& !has_user_message(conversation@.messages) ==> (r.actions@[1] matches Action::UpdateTitle(t) && t@ == message@.content)
            &&& title_requests(r.actions@) == if has_user_message(conversation@.messages) { 0nat } else { 1nat }
            &&& conversation@.messages.len() == 0 ==> title_requests(r.actions@) == 1
            &&& views(r.history@) == message_views(conversation@.messages).push(message@)
        },
{
    let first_message = conversation.has_no_user_messages();
    let mut actions: Vec<Action> = Vec::new();
    match registry.resolve_model(&message.metadata.model_config) {
        Err(_) => {
            actions.push(Action::Error(String::from_str("model not found")));
            assert(actions@.drop_last() =~= Seq::<Action>::empty());
            assert(title_requests(actions@.drop_last()) == 0);
            SendPlan { actions, flow: None, history: Vec::new() }
        },
        Ok(model) => {
            let input_id = conversation.generate_message_id();
            let reply_id = conversation.generate_message_id();
            let mut history = conversation.messages();
            let ghost before = history@;
            history.push(message.duplicate());
            assert(views(history@) =~= views(before).push(message@));
            let placeholder = Message::new(
                MessageRole::Assistant,
                String::new(),
                model.model_config.duplicate(),
                CompletionStatus::Starting,
            );
            let content = message.content.clone();
            actions.push(Action::ReceiveMessage(input_id, message));
            if first_message {
                actions.push(Action::UpdateTitle(content));
            }
            actions.push(Action::ReceiveMessage(reply_id, placeholder));
            proof {
                let a = actions@;
                assert(is_receive(a[0], input_id, message@));
                assert(title_requests(Seq::<Action>::empty()) == 0);
                if first_message {
                    assert(a.drop_last() =~= seq![a[0], a[1]]);
                    assert(a.drop_last().drop_last() =~= seq![a[0]]);
                    assert(seq![a[0]].drop_last() =~= Seq::<Action>::empty());
                    assert(title_requests(seq![a[0]]) == 0);
                    assert(title_requests(a.drop_last()) == 1);
                } else {
                    assert(a.drop_last() =~= seq![a[0]]);
                    assert(seq![a[0]].drop_last() =~= Seq::<Action>::empty());
                    assert(title_requests(seq![a[0]]) == 0);
                }
            }
            let flow = SendFlow { reply_id, model, chunks: ChunkAccumulator::new(), streamed: false, finished: false };
            SendPlan { actions, flow: Some(flow), history }
        },
    }
}

/// What a blocking completion does after a status poll.
#[derive(Clone, Copy, Debug, PartialEq, Eq, Structural)]
pub enum BlockingStep {
    /// Not done: wait, then poll again.
    Wait,
    /// Succeeded: the whole output is there to collect.
    Collect,
    /// Failed or canceled: there is no output to use.
    GiveUp,
}

/// The step a blocking completion takes on `status`.
pub fn blocking_step(status: CompletionStatus) -> (r: BlockingStep)
    ensures
        r == match status {
            CompletionStatus::Starting | CompletionStatus::Processing => BlockingStep::Wait,
            CompletionStatus::Succeeded => BlockingStep::Collect,
            _ => BlockingStep::GiveUp,
        },
{
    match status {
        CompletionStatus::Starting | CompletionStatus::Processing => BlockingStep::Wait,
        CompletionStatus::Succeeded => BlockingStep::Collect,
        _ => BlockingStep::GiveUp,
    }
}

pub open spec fn concat_all(parts: Seq<Seq<char>>) -> Seq<char>
    decreases parts.len(),
{
    if parts.len() == 0 {
        Seq::empty()
    } else {
        concat_all(parts.drop_last()) + parts.last()
    }
}

/// The output of a completion that arrives as a list of pieces: the pieces
/// joined in order.
pub fn join_output(parts: &Vec<String>) -> (r: String)
    ensures
        r@ == concat_all(parts@.map_values(|p: String| p@)),
{
    let ghost ps = parts@.map_values(|p: String| p@);
    let mut r = String::new();
    let mut i: usize = 0;
    while i < parts.len()
        invariant
            i <= parts.len(),
            ps == parts@.map_values(|p: String| p@),
            r@ == concat_all(ps.take(i as int)),
        decreases parts.len() - i,
    {
        assert(ps.take(i + 1).drop_last() =~= ps.take(i as int));
        r.append(parts[i].as_str());
        i = i + 1;
    }
    assert(ps.take(parts.len() as int) =~= ps);
    r
}

} // verus!
