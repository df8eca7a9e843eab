use archer::completion::{CompletionStatus, Message, MessageRole};
use archer::config::ModelConfig;
use archer::conversation::{Conversation, ConversationRecord};
use archer::manager::ConversationManager;
use archer::prompt::PromptTemplateVariant;

fn cfg() -> ModelConfig {
    ModelConfig {
        provider_id: "Replicate".to_string(),
        model_id: "meta/llama-2-70b-chat".to_string(),
        extra_args: Vec::new(),
        template: PromptTemplateVariant::Llama,
    }
}

fn msg(role: MessageRole, content: &str) -> Message {
    Message::new(role, content.to_string(), cfg(), CompletionStatus::Succeeded)
}

fn check_selection(c: &Conversation) {
    let (len, selected) = c.get_position();
    if len == 0 {
        assert!(c.get_selected_uuid().is_none());
    } else {
        assert!(selected < len);
        assert!(c.get_selected_uuid().is_some());
    }
}

#[test]
fn selection_follows_adds_and_deletes() {
    let mut c = Conversation::with_id(7);
    check_selection(&c);
    c.add_message(1, msg(MessageRole::User, "a"));
    check_selection(&c);
    c.add_message(2, msg(MessageRole::Assistant, "b"));
    c.add_message(3, msg(MessageRole::User, "c"));
    assert_eq!(c.get_position(), (3, 2));
    c.select_prev_message();
    c.select_prev_message();
    c.select_prev_message();
    assert_eq!(c.get_position(), (3, 0));
    c.delete_selected_message();
    check_selection(&c);
    assert_eq!(c.get_position(), (2, 0));
    assert_eq!(c.get_uuid_by_index(0), Some(2));
    c.select_next_message();
    c.select_next_message();
    assert_eq!(c.get_position(), (2, 1));
    c.delete_selected_message();
    assert_eq!(c.get_position(), (1, 0));
    c.delete_selected_message();
    assert_eq!(c.get_position(), (0, 0));
    assert!(c.get_selected_uuid().is_none());
    assert!(c.get_selected_message().is_none());
    c.delete_selected_message();
    check_selection(&c);
}

#[test]
fn replace_message_keeps_order() {
    let mut c = Conversation::with_id(1);
    c.add_message(10, msg(MessageRole::User, "q"));
    c.add_message(11, msg(MessageRole::Assistant, ""));
    assert!(c.replace_message(10, msg(MessageRole::User, "q2")));
    assert!(!c.replace_message(99, msg(MessageRole::User, "x")));
    let ms = c.messages();
    assert_eq!(ms.len(), 2);
    assert_eq!(ms[0].content, "q2");
    assert_eq!(c.message_at(1).0, 11);
    assert_eq!(c.get_selected_message().unwrap().content, "");
}

#[test]
fn user_message_detection() {
    let mut c = Conversation::with_id(1);
    assert!(c.has_no_user_messages());
    c.add_message(1, msg(MessageRole::System, "s"));
    assert!(c.has_no_user_messages());
    c.add_message(2, msg(MessageRole::User, "u"));
    assert!(!c.has_no_user_messages());
}

#[test]
fn record_round_trip_keeps_everything() {
    let mut c = Conversation::with_id(42);
    c.add_message(5, msg(MessageRole::User, "one"));
    c.add_message(3, msg(MessageRole::Assistant, "two"));
    c.select_prev_message();
    c.set_title("A title".to_string());
    let record = c.to_record();
    assert_eq!(record.message_ids, vec![5, 3]);
    let back = Conversation::from_record(&record).unwrap();
    assert_eq!(back.get_id(), 42);
    assert_eq!(back.get_position(), c.get_position());
    assert_eq!(back.title, Some("A title".to_string()));
    assert_eq!(back.get_uuid_by_index(0), Some(5));
    assert_eq!(back.get_uuid_by_index(1), Some(3));
    assert_eq!(back.messages()[1].content, "two");
}

#[test]
fn invalid_records_are_rejected() {
    let record = ConversationRecord {
        id: 1,
        message_ids: vec![1, 1],
        messages: vec![msg(MessageRole::User, "a"), msg(MessageRole::User, "b")],
        selected_message: Some(0),
        title: None,
    };
    assert!(Conversation::from_record(&record).is_none());
    let record = ConversationRecord {
        id: 1,
        message_ids: vec![1],
        messages: vec![],
        selected_message: None,
        title: None,
    };
    assert!(Conversation::from_record(&record).is_none());
    let record = ConversationRecord {
        id: 1,
        message_ids: vec![1, 2],
        messages: vec![msg(MessageRole::User, "a"), msg(MessageRole::User, "b")],
        selected_message: Some(9),
        title: None,
    };
    assert_eq!(Conversation::from_record(&record).unwrap().get_position(), (2, 1));
}

#[test]
fn titles_and_file_names_come_from_the_id() {
    let mut c = Conversation::with_id(0x0123456789abcdef0123456789abcdef);
    assert_eq!(c.file_name(), "01234567-89ab-cdef-0123-456789abcdef.json");
    assert_eq!(c.display_title(), "01234567-89ab-cdef-0123-456789abcdef");
    c.set_title("Named".to_string());
    assert_eq!(c.display_title(), "Named");
}

#[test]
fn fresh_ids_differ() {
    let c = Conversation::new();
    let d = Conversation::new();
    assert_ne!(c.get_id(), d.get_id());
    assert_ne!(c.generate_message_id(), c.generate_message_id());
}

#[test]
fn manager_lists_selects_and_deletes() {
    let mut m = ConversationManager::new();
    let mut a = Conversation::with_id(1);
    a.set_title("First".to_string());
    let b = Conversation::with_id(2);
    m.add_conversation(&a);
    m.add_conversation(&b);
    assert_eq!(m.list_titles(), vec!["First".to_string(), "00000000-0000-0000-0000-000000000002".to_string()]);
    m.select_next_conversation();
    m.select_next_conversation();
    assert_eq!(m.selected_conversation, 1);
    assert_eq!(m.load_selected_conversation(), Some(2));
    assert_eq!(m.active_conversation, 1);
    a.set_title("Renamed".to_string());
    m.update_conversation(&a);
    assert_eq!(m.list_titles()[0], "Renamed");
    let removed = m.delete_selected_conversation().unwrap();
    assert_eq!(removed.path, "00000000-0000-0000-0000-000000000002.json");
    assert_eq!(m.selected_conversation, 0);
    assert_eq!(m.len(), 1);
    m.select_prev_conversation();
    assert_eq!(m.selected_conversation, 0);
    assert!(m.delete_conversation(77).is_none());
    assert!(m.set_active_conversation(&a));
    assert!(m.delete_conversation(1).is_some());
    assert_eq!(m.load_selected_conversation(), None);
    let c = m.new_conversation();
    assert_eq!(m.list_conversations().len(), 1);
    assert_eq!(m.id_at(0), Some(c.get_id()));
}
