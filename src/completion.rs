use vstd::prelude::*;
use crate::config::{ModelConfig, ModelConfigView};

verus! {

/// Who wrote a message.
#[derive(Clone, Copy, Debug, PartialEq, Eq, Structural)]
pub enum MessageRole {
    System,
    User,
    Assistant,
}

/// Lifecycle of one completion. `Starting` and `Processing` are the only
/// non-terminal states.
#[derive(Clone, Copy, Debug, PartialEq, Eq, Structural)]
pub enum CompletionStatus {
    Starting,
    Processing,
    Failed,
    Canceled,
    Succeeded,
}

impl CompletionStatus {
    pub open spec fn spec_is_terminal(&self) -> bool {
        !(*self is Starting || *self is Processing)
    }

    /// True for `Succeeded`, `Failed` and `Canceled`.
    #[verifier::when_used_as_spec(spec_is_terminal)]
    pub fn is_terminal(&self) -> (r: bool)
        ensures
            r == self.spec_is_terminal(),
    {
        match self {
            CompletionStatus::Starting | CompletionStatus::Processing => false,
            _ => true,
        }
    }
}

} // verus!

verus! {

/// What a message carries besides its text: the model that produced or will
/// answer it, and the completion status.
#[derive(Clone, Debug)]
pub struct MessageMetadata {
    pub model_config: ModelConfig,
    pub status: CompletionStatus,
}

/// One message of a conversation.
#[derive(Clone, Debug)]
pub struct Message {
    pub role: MessageRole,
    pub content: String,
    pub metadata: MessageMetadata,
}

/// The mathematical value of a [`Message`].
pub struct MessageView {
    pub role: MessageRole,
    pub content: Seq<char>,
    pub model: ModelConfigView,
    pub status: CompletionStatus,
}

impl View for Message {
    type V = MessageView;

    open spec fn view(&self) -> MessageView {
        MessageView {
            role: self.role,
            content: self.content@,
            model: self.metadata.model_config@,
            status: self.metadata.status,
        }
    }
}

impl Message {
    /// A message with the given parts.
    pub fn new(role: MessageRole, content: String, model_config: ModelConfig, status: CompletionStatus) -> (r: Message)
        ensures
            r@ == (MessageView { role, content: content@, model: model_config@, status }),
    {
        Message { role, content, metadata: MessageMetadata { model_config, status } }
    }

    /// A copy with the same value.
    pub fn duplicate(&self) -> (r: Message)
        ensures
            r@ == self@,
    {
        Message {
            role: self.role,
            content: self.content.clone(),
            metadata: MessageMetadata {
                model_config: self.metadata.model_config.duplicate(),
                status: self.metadata.status,
            },
        }
    }

    /// A message written by the user, waiting for no completion.
    pub fn user_message(content: String, model_config: ModelConfig) -> (r: Message)
        ensures
            r@ == (MessageView {
                role: MessageRole::User,
                content: content@,
                model: model_config@,
                status: CompletionStatus::Succeeded,
            }),
    {
        Message::new(MessageRole::User, content, model_config, CompletionStatus::Succeeded)
    }

    /// A system instruction.
    pub fn system_message(content: String, model_config: ModelConfig) -> (r: Message)
        ensures
            r@ == (MessageView {
                role: MessageRole::System,
                content: content@,
                model: model_config@,
                status: CompletionStatus::Succeeded,
            }),
    {
        Message::new(MessageRole::System, content, model_config, CompletionStatus::Succeeded)
    }
}

/// A provider id and a model id, naming one callable model.
#[derive(Clone, Debug)]
pub struct ModelID {
    pub provider_id: String,
    pub model_id: String,
}

} // verus!
