use archer::action::Action;
use archer::completion::{CompletionStatus, Message, MessageRole};
use archer::config::ModelConfig;
use archer::conversation::Conversation;
use archer::flow::{blocking_step, join_output, start_send, BlockingStep, FlowStep};
use archer::prompt::PromptTemplateVariant;
use archer::registry::CompletionProviderLibrary;
use archer::title::{clean_title, title_action, title_request_messages};

fn cfg(provider: &str) -> ModelConfig {
    ModelConfig {
        provider_id: provider.to_string(),
        model_id: "meta/llama-2-70b-chat".to_string(),
        extra_args: Vec::new(),
        template: PromptTemplateVariant::Llama,
    }
}

fn user(content: &str) -> Message {
    Message::user_message(content.to_string(), cfg("Replicate"))
}

fn title_requests(actions: &[Action]) -> usize {
    actions.iter().filter(|a| matches!(a, Action::UpdateTitle(_))).count()
}

fn s(x: &str) -> String {
    x.to_string()
}

#[test]
fn first_message_asks_for_one_title() {
    let registry = CompletionProviderLibrary::load(None, None);
    let empty = Conversation::with_id(1);
    let plan = start_send(&empty, user("hello"), &registry);
    assert_eq!(plan.actions.len(), 3);
    assert_eq!(title_requests(&plan.actions), 1);
    assert!(matches!(&plan.actions[1], Action::UpdateTitle(t) if t == "hello"));
    assert_eq!(plan.history.len(), 1);

    let mut busy = Conversation::with_id(2);
    busy.add_message(9, user("earlier"));
    let plan = start_send(&busy, user("again"), &registry);
    assert_eq!(plan.actions.len(), 2);
    assert_eq!(title_requests(&plan.actions), 0);
    assert_eq!(plan.history.len(), 2);
    assert_eq!(plan.history[1].content, "again");
}

#[test]
fn unresolved_model_is_an_error_event() {
    let registry = CompletionProviderLibrary::load(None, None);
    let c = Conversation::with_id(1);
    let m = Message::user_message(s("hi"), cfg("Nobody"));
    let plan = start_send(&c, m, &registry);
    assert!(plan.flow.is_none());
    assert_eq!(plan.actions.len(), 1);
    assert!(matches!(&plan.actions[0], Action::Error(t) if t == "model not found"));
}

#[test]
fn streamed_chunks_become_the_reply() {
    let registry = CompletionProviderLibrary::load(None, None);
    let c = Conversation::with_id(1);
    let plan = start_send(&c, user("hi"), &registry);
    let mut flow = plan.flow.unwrap();
    let reply = flow.reply_id();
    match plan.actions.last().unwrap() {
        Action::ReceiveMessage(id, m) => {
            assert_eq!(*id, reply);
            assert_eq!(m.role, MessageRole::Assistant);
            assert_eq!(m.content, "");
            assert_eq!(m.metadata.status, CompletionStatus::Starting);
        }
        _ => panic!("expected the reply placeholder"),
    }
    assert!(matches!(flow.on_status(CompletionStatus::Starting), FlowStep::Wait));
    assert!(matches!(flow.on_status(CompletionStatus::Processing), FlowStep::ReadStream));
    let a = flow.on_event(s("msg"), s("1"), s("Hel"));
    assert!(matches!(&a[0], Action::StreamMessage(id, m) if *id == reply && m.content == "Hel" && m.metadata.status == CompletionStatus::Processing));
    flow.on_event(s("msg"), s("2"), s("lo"));
    let a = flow.on_event(s("done"), s("3"), s(""));
    assert_eq!(a.len(), 2);
    assert!(matches!(&a[0], Action::StreamMessage(id, m) if *id == reply && m.content == "Hello" && m.metadata.status == CompletionStatus::Succeeded));
    assert!(matches!(&a[1], Action::SaveConversation));
    assert!(flow.is_finished());
    assert!(flow.on_event(s("msg"), s("4"), s("!")).is_empty());
}

#[test]
fn failure_keeps_partial_content() {
    let registry = CompletionProviderLibrary::load(None, None);
    let c = Conversation::with_id(1);
    let mut flow = start_send(&c, user("hi"), &registry).flow.unwrap();
    flow.on_status(CompletionStatus::Processing);
    flow.on_event(s("msg"), s("1"), s("partial"));
    match flow.on_status(CompletionStatus::Failed) {
        FlowStep::Finish(a) => {
            assert_eq!(a.len(), 1);
            assert!(matches!(&a[0], Action::StreamMessage(_, m) if m.content == "partial" && m.metadata.status == CompletionStatus::Failed));
        }
        _ => panic!("expected the flow to finish"),
    }
}

#[test]
fn succeeded_after_stream_completes_reply() {
    let registry = CompletionProviderLibrary::load(None, None);
    let c = Conversation::with_id(1);
    let mut flow = start_send(&c, user("hi"), &registry).flow.unwrap();
    assert!(matches!(flow.on_status(CompletionStatus::Succeeded), FlowStep::ReadStream));
    flow.on_event(s("output"), s("a"), s("text"));
    match flow.on_status(CompletionStatus::Succeeded) {
        FlowStep::Finish(a) => {
            assert_eq!(a.len(), 2);
            assert!(matches!(&a[0], Action::StreamMessage(_, m) if m.content == "text" && m.metadata.status == CompletionStatus::Succeeded));
        }
        _ => panic!("expected the flow to finish"),
    }
}

#[test]
fn stream_error_shows_error_text() {
    let registry = CompletionProviderLibrary::load(None, None);
    let c = Conversation::with_id(1);
    let mut flow = start_send(&c, user("hi"), &registry).flow.unwrap();
    let a = flow.on_stream_error(s("connection reset"));
    assert!(matches!(&a[0], Action::StreamMessage(_, m) if m.content == "connection reset" && m.metadata.status == CompletionStatus::Failed));
    assert!(flow.on_stream_error(s("again")).is_empty());
}

#[test]
fn titles_lose_their_quotes() {
    assert_eq!(clean_title("\"Hardest parts of Rust\""), "Hardest parts of Rust");
    assert_eq!(clean_title("White"), "White");
    assert_eq!(clean_title("\"\""), "");
    assert_eq!(clean_title("\"\"a\"b\"\""), "a\"b");
    assert!(matches!(title_action("\"T\""), Action::SetTitle(t) if t == "T"));
}

#[test]
fn title_request_has_system_and_user_messages() {
    let ms = title_request_messages("What is Rust?", &cfg("Replicate"));
    assert_eq!(ms.len(), 2);
    assert_eq!(ms[0].role, MessageRole::System);
    assert_eq!(ms[0].content, "You are a helpful assistant, who title user queries.");
    assert_eq!(ms[1].role, MessageRole::User);
    assert!(ms[1].content.contains("The users message is:\n\nWhat is Rust?\n\nPlease provide a title"));
}

#[test]
fn blocking_completion_waits_then_collects_or_gives_up() {
    assert_eq!(blocking_step(CompletionStatus::Starting), BlockingStep::Wait);
    assert_eq!(blocking_step(CompletionStatus::Processing), BlockingStep::Wait);
    assert_eq!(blocking_step(CompletionStatus::Succeeded), BlockingStep::Collect);
    assert_eq!(blocking_step(CompletionStatus::Failed), BlockingStep::GiveUp);
    assert_eq!(blocking_step(CompletionStatus::Canceled), BlockingStep::GiveUp);
    assert_eq!(join_output(&vec![s("Hardest "), s("parts"), s("")]), "Hardest parts");
    assert_eq!(join_output(&Vec::new()), "");
}
