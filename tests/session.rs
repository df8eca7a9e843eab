use archer::action::Action;
use archer::completion::{CompletionStatus, Message, MessageRole};
use archer::config::ModelConfig;
use archer::conversation::Conversation;
use archer::manager::ConversationManager;
use archer::prompt::PromptTemplateVariant;
use archer::mode::{keymap_for, Mode};
use archer::session::{Effect, Session};

fn msg(role: MessageRole, content: &str, status: CompletionStatus) -> Message {
    let cfg = ModelConfig {
        provider_id: "Replicate".to_string(),
        model_id: "meta/llama-2-70b-chat".to_string(),
        extra_args: Vec::new(),
        template: PromptTemplateVariant::Llama,
    };
    Message::new(role, content.to_string(), cfg, CompletionStatus::Succeeded).with_status(status)
}

trait WithStatus {
    fn with_status(self, status: CompletionStatus) -> Self;
}

impl WithStatus for Message {
    fn with_status(mut self, status: CompletionStatus) -> Self {
        self.metadata.status = status;
        self
    }
}

#[test]
fn updates_apply_by_id_not_by_position() {
    let mut s = Session::new(ConversationManager::new());
    assert!(s.apply(Action::ReceiveMessage(1, msg(MessageRole::User, "q1", CompletionStatus::Succeeded))).is_empty());
    s.apply(Action::ReceiveMessage(2, msg(MessageRole::Assistant, "", CompletionStatus::Starting)));
    s.apply(Action::ReceiveMessage(3, msg(MessageRole::User, "q2", CompletionStatus::Succeeded)));
    s.apply(Action::ReceiveMessage(4, msg(MessageRole::Assistant, "", CompletionStatus::Starting)));
    s.apply(Action::StreamMessage(2, msg(MessageRole::Assistant, "first", CompletionStatus::Succeeded)));
    s.apply(Action::StreamMessage(4, msg(MessageRole::Assistant, "second", CompletionStatus::Processing)));
    s.apply(Action::StreamMessage(99, msg(MessageRole::Assistant, "lost", CompletionStatus::Processing)));
    let ms = s.conversation.messages();
    assert_eq!(ms.len(), 4);
    assert_eq!(ms[1].content, "first");
    assert_eq!(ms[3].content, "second");
    assert_eq!(ms[3].metadata.status, CompletionStatus::Processing);
}

#[test]
fn title_is_set_then_saved() {
    let mut s = Session::new(ConversationManager::new());
    let effects = s.apply(Action::UpdateTitle("hello".to_string()));
    assert!(matches!(&effects[..], [Effect::RequestTitle(t)] if t == "hello"));
    let effects = s.apply(Action::SetTitle("Greeting".to_string()));
    assert!(matches!(&effects[..], [Effect::Emit(Action::SaveConversation)]));
    assert_eq!(s.conversation.title, Some("Greeting".to_string()));
    assert_eq!(s.manager.list_titles(), vec!["Greeting".to_string()]);
    let effects = s.apply(Action::SaveConversation);
    match &effects[..] {
        [Effect::Save(r)] => {
            assert_eq!(r.id, s.conversation.get_id());
            assert_eq!(r.title, Some("Greeting".to_string()));
        }
        _ => panic!("expected one save"),
    }
}

#[test]
fn conversations_are_loaded_and_deleted_through_effects() {
    let mut manager = ConversationManager::new();
    manager.add_conversation(&Conversation::with_id(5));
    let mut s = Session::new(manager);
    assert_eq!(s.manager.len(), 2);
    let effects = s.apply(Action::LoadSelectedConversation);
    assert!(matches!(&effects[..], [Effect::Load(5)]));
    let mut saved = Conversation::with_id(5);
    saved.add_message(1, msg(MessageRole::User, "kept", CompletionStatus::Succeeded));
    assert!(s.open_record(&saved.to_record()));
    assert_eq!(s.conversation.get_id(), 5);
    assert_eq!(s.conversation.messages()[0].content, "kept");
    let effects = s.apply(Action::DeleteSelectedConversation);
    assert!(matches!(&effects[..], [Effect::DeleteFile(p)] if p == "00000000-0000-0000-0000-000000000005.json"));
    assert_eq!(s.manager.len(), 1);
    assert!(matches!(&s.apply(Action::Error("boom".to_string()))[..], [Effect::Report(t)] if t == "boom"));
    assert!(matches!(&s.apply(Action::Quit)[..], [Effect::Quit]));
    assert!(s.apply(Action::Tick).is_empty());
}

#[test]
fn message_navigation_and_deletion() {
    let mut s = Session::new(ConversationManager::new());
    s.apply(Action::ReceiveMessage(1, msg(MessageRole::User, "a", CompletionStatus::Succeeded)));
    s.apply(Action::ReceiveMessage(2, msg(MessageRole::User, "b", CompletionStatus::Succeeded)));
    s.apply(Action::SelectPreviousMessage);
    assert_eq!(s.conversation.get_selected_uuid(), Some(1));
    s.apply(Action::DeleteSelectedMessage);
    assert_eq!(s.conversation.get_selected_uuid(), Some(2));
    s.apply(Action::NewConversation);
    assert_eq!(s.conversation.len(), 0);
    assert_eq!(s.manager.len(), 2);
}

#[test]
fn key_binding_strings_parse_to_actions() {
    assert!(matches!(Action::parse("Quit"), Some(Action::Quit)));
    assert!(matches!(Action::parse("NextTab"), Some(Action::NextTab)));
    assert!(matches!(Action::parse("SwitchMode(ActiveViewer)"), Some(Action::SwitchMode(Mode::ActiveViewer))));
    assert!(Action::parse("SwitchMode(Nowhere)").is_none());
    assert!(matches!(Action::parse("Error(bad thing))"), Some(Action::Error(t)) if t == "bad thing"));
    assert!(matches!(Action::parse("Resize(80, 24)"), Some(Action::Resize(80, 24))));
    assert!(matches!(Action::parse("Resize(+1,2)"), Some(Action::Resize(1, 2))));
    assert!(Action::parse("Resize(70000, 24)").is_none());
    assert!(Action::parse("Resize(1, 2, 3)").is_none());
    assert!(Action::parse("Resize(a, 2)").is_none());
    assert!(Action::parse("ToggleMaximized").is_none());
    assert!(Action::parse("").is_none());
    assert_eq!(Mode::from_name("Input"), Some(Mode::Input));
    assert_eq!(Mode::from_name("input"), None);
}

#[test]
fn template_names_parse_to_variants() {
    assert_eq!(PromptTemplateVariant::from_name("ChatML"), Some(PromptTemplateVariant::ChatML));
    assert_eq!(PromptTemplateVariant::from_name("Mistral"), Some(PromptTemplateVariant::Mistral));
    assert_eq!(PromptTemplateVariant::from_name("GPT"), None);
}

#[test]
fn key_help_follows_the_mode() {
    assert_eq!(keymap_for(Mode::ActiveInput), " enter: send message; ctrl+n: new line; esc: exit input mode; ");
    assert!(keymap_for(Mode::Input).contains("q: quit"));
}
