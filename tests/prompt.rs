use archer::completion::{CompletionStatus, Message, MessageRole};
use archer::config::ModelConfig;
use archer::prompt::{ChatMLTemplate, DeepseekTemplate, LlamaTemplate, MistralTemplate, PromptTemplateVariant, YiTemplate};

fn config(template: PromptTemplateVariant) -> ModelConfig {
    ModelConfig {
        provider_id: "Replicate".to_string(),
        model_id: "meta/llama-2-70b-chat".to_string(),
        extra_args: Vec::new(),
        template,
    }
}

fn msg(role: MessageRole, content: &str) -> Message {
    Message::new(role, content.to_string(), config(PromptTemplateVariant::ChatML), CompletionStatus::Succeeded)
}

#[test]
fn chatml_wraps_each_turn_and_collects_system_text() {
    let messages = vec![
        msg(MessageRole::System, "Be brief."),
        msg(MessageRole::User, "Hi"),
        msg(MessageRole::Assistant, "Hello"),
        msg(MessageRole::System, " Be kind."),
        msg(MessageRole::User, "Bye"),
    ];
    let r = ChatMLTemplate {}.generate_prompt(&messages);
    assert_eq!(r.system_prompt, "Be brief. Be kind.");
    assert_eq!(
        r.prompt,
        "<|im_start|>user\nHi<|im_end|>\n<|im_start|>assistant\nHello<|im_end|>\n<|im_start|>user\nBye<|im_end|>\n<|im_start|>assistant"
    );
    assert_eq!(r.prompt_template, "<|im_start|>system\n{system_prompt}<|im_end|>\n{prompt}");
    assert_eq!(
        r.full_prompt,
        "<|im_start|>system\nBe brief. Be kind.<|im_end|>\n<|im_start|>user\nHi<|im_end|>\n<|im_start|>assistant\nHello<|im_end|>\n<|im_start|>user\nBye<|im_end|>\n<|im_start|>assistant"
    );
}

#[test]
fn chatml_empty_list_is_only_the_open_turn() {
    let r = PromptTemplateVariant::ChatML.generate_prompt(&Vec::new());
    assert_eq!(r.prompt, "<|im_start|>assistant");
    assert_eq!(r.system_prompt, "");
    assert_eq!(r.full_prompt, "<|im_start|>system\n<|im_end|>\n<|im_start|>assistant");
}

#[test]
fn chatml_does_not_merge_consecutive_user_messages() {
    let messages = vec![msg(MessageRole::User, "a"), msg(MessageRole::User, "b")];
    let r = ChatMLTemplate {}.generate_prompt(&messages);
    assert_eq!(
        r.prompt,
        "<|im_start|>user\na<|im_end|>\n<|im_start|>user\nb<|im_end|>\n<|im_start|>assistant"
    );
}

#[test]
fn mistral_brackets_user_turns() {
    let messages = vec![
        msg(MessageRole::System, "sys"),
        msg(MessageRole::User, "Hi"),
        msg(MessageRole::Assistant, "Hello"),
        msg(MessageRole::User, "Bye"),
    ];
    let r = MistralTemplate {}.generate_prompt(&messages);
    assert_eq!(r.prompt, "<s>[INST] Hi [/INST]Hello</s>[INST] Bye [/INST]");
    assert_eq!(r.full_prompt, r.prompt);
    assert_eq!(r.system_prompt, "sys");
    assert_eq!(r.prompt_template, "{prompt}");
}

#[test]
fn mistral_empty_list() {
    let r = PromptTemplateVariant::Mistral.generate_prompt(&Vec::new());
    assert_eq!(r.prompt, "<s>");
}

#[test]
fn llama_repeats_start_marker_after_first_user_turn() {
    let messages = vec![
        msg(MessageRole::System, "sys"),
        msg(MessageRole::User, "Hi"),
        msg(MessageRole::Assistant, "Hello"),
        msg(MessageRole::User, "Bye"),
    ];
    let r = LlamaTemplate {}.generate_prompt(&messages);
    assert_eq!(r.prompt, "<s>[INST] Hi [/INST]Hello</s><s>[INST] Bye [/INST]");
    assert_eq!(
        r.full_prompt,
        "<s>[INST] <<SYS>>\nsys\n<</SYS>>\n\n<s>[INST] Hi [/INST]Hello</s><s>[INST] Bye [/INST]"
    );
}

#[test]
fn deepseek_merges_consecutive_same_role_messages() {
    let messages = vec![
        msg(MessageRole::User, "one"),
        msg(MessageRole::User, "two"),
        msg(MessageRole::Assistant, "three"),
    ];
    let r = DeepseekTemplate {}.generate_prompt(&messages);
    assert_eq!(r.prompt, "\n### Instruction: one\ntwo\n### Response: three");
    let messages = vec![msg(MessageRole::User, "q")];
    let r = PromptTemplateVariant::Deepseek.generate_prompt(&messages);
    assert_eq!(r.prompt, "\n### Instruction: q\n### Response: ");
}

#[test]
fn formatting_twice_gives_identical_output() {
    let messages = vec![
        msg(MessageRole::System, "s"),
        msg(MessageRole::User, "u"),
        msg(MessageRole::Assistant, "a"),
    ];
    for variant in [
        PromptTemplateVariant::ChatML,
        PromptTemplateVariant::Mistral,
        PromptTemplateVariant::Llama,
        PromptTemplateVariant::Deepseek,
        PromptTemplateVariant::Yi,
    ] {
        let a = variant.generate_prompt(&messages);
        let b = variant.generate_prompt(&messages);
        assert_eq!(a.prompt, b.prompt);
        assert_eq!(a.system_prompt, b.system_prompt);
        assert_eq!(a.prompt_template, b.prompt_template);
        assert_eq!(a.full_prompt, b.full_prompt);
    }
}

#[test]
fn yi_tags_every_message_with_its_role() {
    let messages = vec![msg(MessageRole::System, "s"), msg(MessageRole::User, "u")];
    let r = YiTemplate {}.generate_prompt(&messages);
    assert_eq!(r.prompt, "\n<im_start|>system\ns<|im_end|>\n<im_start|>user\nu<|im_end|><|im_start|>assistant");
    assert_eq!(r.system_prompt, "");
}

#[test]
fn each_variant_has_its_template() {
    let messages = vec![msg(MessageRole::User, "Hi")];
    let t = PromptTemplateVariant::Mistral.get_template();
    assert_eq!(t.generate_prompt(&messages).prompt, "<s>[INST] Hi [/INST]");
    let t = PromptTemplateVariant::ChatML.get_template();
    assert_eq!(t.generate_prompt(&messages).prompt, "<|im_start|>user\nHi<|im_end|>\n<|im_start|>assistant");
}
