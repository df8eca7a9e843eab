use crate::completion::{Message, MessageRole, MessageView};
use crate::text::str_eq;
use vstd::prelude::*;
use vstd::string::*;

verus! {

/// The prompt format a model family expects.
#[derive(Clone, Copy, Debug, PartialEq, Eq, Structural)]
pub enum PromptTemplateVariant {
    /// Role-tagged `<|im_start|>` / `<|im_end|>` turns.
    ChatML,
    /// `[INST]` brackets, system text dropped from the prompt.
    Mistral,
    /// `[INST]` brackets with a `<<SYS>>` block ahead of the first turn.
    Llama,
    /// `### Instruction:` / `### Response:` blocks; consecutive messages of one
    /// role share a block.
    Deepseek,
    /// Every message, system ones included, in a role-tagged turn.
    Yi,
}

/// What a template makes of a message list.
#[derive(Clone, Debug)]
pub struct PromptResult {
    /// The turns, ready to be placed into the template.
    pub prompt: String,
    /// The system messages, concatenated in order.
    pub system_prompt: String,
    /// The template with `{system_prompt}` and `{prompt}` placeholders.
    pub prompt_template: String,
    /// The template with both placeholders filled.
    pub full_prompt: String,
}

/// The mathematical value of a [`PromptResult`].
pub struct PromptView {
    pub prompt: Seq<char>,
    pub system_prompt: Seq<char>,
    pub prompt_template: Seq<char>,
    pub full_prompt: Seq<char>,
}

impl View for PromptResult {
    type V = PromptView;

    open spec fn view(&self) -> PromptView {
        PromptView {
            prompt: self.prompt@,
            system_prompt: self.system_prompt@,
            prompt_template: self.prompt_template@,
            full_prompt: self.full_prompt@,
        }
    }
}

pub open spec fn views(ms: Seq<Message>) -> Seq<MessageView> {
    ms.map_values(|m: Message| m@)
}

/// The contents of the system messages, in order, without separator.
pub open spec fn system_text(ms: Seq<MessageView>) -> Seq<char>
    decreases ms.len(),
{
    if ms.len() == 0 {
        Seq::empty()
    } else {
        let m = ms.last();
        system_text(ms.drop_last()) + if m.role is System { m.content } else { Seq::empty() }
    }
}

pub open spec fn chatml_turn(m: MessageView) -> Seq<char> {
    match m.role {
        MessageRole::System => Seq::empty(),
        MessageRole::User => "<|im_start|>user\n"@ + m.content + "<|im_end|>\n"@,
        MessageRole::Assistant => "<|im_start|>assistant\n"@ + m.content + "<|im_end|>\n"@,
    }
}

pub open spec fn chatml_turns(ms: Seq<MessageView>) -> Seq<char>
    decreases ms.len(),
{
    if ms.len() == 0 {
        Seq::empty()
    } else {
        chatml_turns(ms.drop_last()) + chatml_turn(ms.last())
    }
}

/// The ChatML format: each user or assistant message in its own tagged turn,
/// then an open assistant turn.
pub open spec fn chatml_prompt(ms: Seq<MessageView>) -> PromptView {
    let prompt = chatml_turns(ms) + "<|im_start|>assistant"@;
    PromptView {
        prompt,
        system_prompt: system_text(ms),
        prompt_template: "<|im_start|>system\n{system_prompt}<|im_end|>\n{prompt}"@,
        full_prompt: "<|im_start|>system\n"@ + system_text(ms) + "<|im_end|>\n"@ + prompt,
    }
}

pub open spec fn mistral_turn(m: MessageView) -> Seq<char> {
    match m.role {
        MessageRole::System => Seq::empty(),
        MessageRole::User => "[INST] "@ + m.content + " [/INST]"@,
        MessageRole::Assistant => m.content + "</s>"@,
    }
}

pub open spec fn mistral_turns(ms: Seq<MessageView>) -> Seq<char>
    decreases ms.len(),
{
    if ms.len() == 0 {
        Seq::empty()
    } else {
        mistral_turns(ms.drop_last()) + mistral_turn(ms.last())
    }
}

/// The Mistral format: `<s>`, then each user message in `[INST]` brackets and
/// each assistant message closed by `</s>`.
pub open spec fn mistral_prompt(ms: Seq<MessageView>) -> PromptView {
    let prompt = "<s>"@ + mistral_turns(ms);
    PromptView {
        prompt,
        system_prompt: system_text(ms),
        prompt_template: "{prompt}"@,
        full_prompt: prompt,
    }
}

pub open spec fn has_user(ms: Seq<MessageView>) -> bool {
    exists|i: int| 0 <= i < ms.len() && (#[trigger] ms[i]).role is User
}

pub open spec fn llama_turns(ms: Seq<MessageView>) -> Seq<char>
    decreases ms.len(),
{
    if ms.len() == 0 {
        Seq::empty()
    } else {
        let m = ms.last();
        let before = ms.drop_last();
        llama_turns(before) + match m.role {
            MessageRole::System => Seq::empty(),
            MessageRole::User => (if has_user(before) { "<s>"@ } else { Seq::empty() }) + "[INST] "@
                + m.content + " [/INST]"@,
            MessageRole::Assistant => m.content + "</s>"@,
        }
    }
}

/// The Llama format: like Mistral, with `<s>` again ahead of every user turn
/// but the first, and the system text in a `<<SYS>>` block ahead of it all.
pub open spec fn llama_prompt(ms: Seq<MessageView>) -> PromptView {
    let prompt = "<s>"@ + llama_turns(ms);
    PromptView {
        prompt,
        system_prompt: system_text(ms),
        prompt_template: "<s>[INST] <<SYS>>\n{system_prompt}\n<</SYS>>\n\n{prompt}"@,
        full_prompt: "<s>[INST] <<SYS>>\n"@ + system_text(ms) + "\n<</SYS>>\n\n"@ + prompt,
    }
}

/// The role of the last message, `System` for an empty list.
pub open spec fn last_role(ms: Seq<MessageView>) -> MessageRole {
    if ms.len() == 0 {
        MessageRole::System
    } else {
        ms.last().role
    }
}

pub open spec fn deepseek_body(ms: Seq<MessageView>) -> Seq<char>
    decreases ms.len(),
{
    if ms.len() == 0 {
        Seq::empty()
    } else {
        let m = ms.last();
        let before = ms.drop_last();
        deepseek_body(before) + if m.role == last_role(before) {
            "\n"@ + m.content
        } else {
            match m.role {
                MessageRole::System => Seq::empty(),
                MessageRole::User => "\n### Instruction: "@ + m.content,
                MessageRole::Assistant => "\n### Response: "@ + m.content,
            }
        }
    }
}

/// The Deepseek format: a message of the same role as the one before it joins
/// that block after a line break; otherwise a user message opens an
/// instruction block and an assistant message a response block. An open
/// response block ends the prompt unless the last message is the assistant's.
pub open spec fn deepseek_prompt(ms: Seq<MessageView>) -> PromptView {
    let prompt = deepseek_body(ms) + if last_role(ms) is Assistant {
        Seq::empty()
    } else {
        "\n### Response: "@
    };
    PromptView {
        prompt,
        system_prompt: Seq::empty(),
        prompt_template: "{system_prompt}{prompt}"@,
        full_prompt: prompt,
    }
}

pub open spec fn role_name(r: MessageRole) -> Seq<char> {
    match r {
        MessageRole::System => "system"@,
        MessageRole::User => "user"@,
        MessageRole::Assistant => "assistant"@,
    }
}

pub open spec fn yi_turns(ms: Seq<MessageView>) -> Seq<char>
    decreases ms.len(),
{
    if ms.len() == 0 {
        Seq::empty()
    } else {
        let m = ms.last();
        yi_turns(ms.drop_last()) + "\n<im_start|>"@ + role_name(m.role) + "\n"@ + m.content + "<|im_end|>"@
    }
}

/// The Yi format: each message on a new line after a role tag, whatever its
/// role, then an open assistant turn.
pub open spec fn yi_prompt(ms: Seq<MessageView>) -> PromptView {
    let prompt = yi_turns(ms) + "<|im_start|>assistant"@;
    PromptView { prompt, system_prompt: Seq::empty(), prompt_template: "{prompt}"@, full_prompt: prompt }
}

/// What a variant makes of a message list.
pub open spec fn format_spec(variant: PromptTemplateVariant, ms: Seq<MessageView>) -> PromptView {
    match variant {
        PromptTemplateVariant::ChatML => chatml_prompt(ms),
        PromptTemplateVariant::Mistral => mistral_prompt(ms),
        PromptTemplateVariant::Llama => llama_prompt(ms),
        PromptTemplateVariant::Deepseek => deepseek_prompt(ms),
        PromptTemplateVariant::Yi => yi_prompt(ms),
    }
}

proof fn lemma_views_step(ms: Seq<Message>, i: int)
    requires
        0 <= i < ms.len(),
    ensures
        views(ms).take(i + 1).drop_last() == views(ms).take(i),
        views(ms).take(i + 1).last() == ms[i]@,
{
    assert(views(ms).take(i + 1).drop_last() =~= views(ms).take(i));
}

proof fn lemma_views_all(ms: Seq<Message>)
    ensures
        views(ms).take(ms.len() as int) == views(ms),
{
    assert(views(ms).take(ms.len() as int) =~= views(ms));
}

/// Formats a message list in the ChatML format.
#[derive(Clone, Copy, Debug, Default)]
pub struct ChatMLTemplate {}

impl ChatMLTemplate {
    pub fn generate_prompt(&self, messages: &Vec<Message>) -> (r: PromptResult)
        ensures
            r@ == chatml_prompt(views(messages@)),
    {
        let ghost vs = views(messages@);
        let mut system_prompt = String::new();
        let mut prompt = String::new();
        let mut i: usize = 0;
        while i < messages.len()
            invariant
                i <= messages.len(),
                vs == views(messages@),
                system_prompt@ == system_text(vs.take(i as int)),
                prompt@ == chatml_turns(vs.take(i as int)),
            decreases messages.len() - i,
        {
            let m = &messages[i];
            proof {
                lemma_views_step(messages@, i as int);
            }
            match m.role {
                MessageRole::System => system_prompt.append(m.content.as_str()),
                MessageRole::User => {
                    prompt.append("<|im_start|>user\n");
                    prompt.append(m.content.as_str());
                    prompt.append("<|im_end|>\n");
                },
                MessageRole::Assistant => {
                    prompt.append("<|im_start|>assistant\n");
                    prompt.append(m.content.as_str());
                    prompt.append("<|im_end|>\n");
                },
            }
            i = i + 1;
        }
        proof {
            lemma_views_all(messages@);
        }
        prompt.append("<|im_start|>assistant");
        let mut full_prompt = String::from_str("<|im_start|>system\n");
        full_prompt.append(system_prompt.as_str());
        full_prompt.append("<|im_end|>\n");
        full_prompt.append(prompt.as_str());
        PromptResult {
            prompt,
            system_prompt,
            prompt_template: String::from_str("<|im_start|>system\n{system_prompt}<|im_end|>\n{prompt}"),
            full_prompt,
        }
    }
}

/// Formats a message list in the Mistral format.
#[derive(Clone, Copy, Debug, Default)]
pub struct MistralTemplate {}

impl MistralTemplate {
    pub fn generate_prompt(&self, messages: &Vec<Message>) -> (r: PromptResult)
        ensures
            r@ == mistral_prompt(views(messages@)),
    {
        let ghost vs = views(messages@);
        let mut system_prompt = String::new();
        let mut turns = String::new();
        let mut i: usize = 0;
        while i < messages.len()
            invariant
                i <= messages.len(),
                vs == views(messages@),
                system_prompt@ == system_text(vs.take(i as int)),
                turns@ == mistral_turns(vs.take(i as int)),
            decreases messages.len() - i,
        {
            let m = &messages[i];
            proof {
                lemma_views_step(messages@, i as int);
            }
            match m.role {
                MessageRole::System => system_prompt.append(m.content.as_str()),
                MessageRole::User => {
                    turns.append("[INST] ");
                    turns.append(m.content.as_str());
                    turns.append(" [/INST]");
                },
                MessageRole::Assistant => {
                    turns.append(m.content.as_str());
                    turns.append("</s>");
                },
            }
            i = i + 1;
        }
        proof {
            lemma_views_all(messages@);
        }
        let mut prompt = String::from_str("<s>");
        prompt.append(turns.as_str());
        let full_prompt = prompt.clone();
        PromptResult {
            prompt,
            system_prompt,
            prompt_template: String::from_str("{prompt}"),
            full_prompt,
        }
    }
}

/// Formats a message list in the Llama format.
#[derive(Clone, Copy, Debug, Default)]
pub struct LlamaTemplate {}

impl LlamaTemplate {
    pub fn generate_prompt(&self, messages: &Vec<Message>) -> (r: PromptResult)
        ensures
            r@ == llama_prompt(views(messages@)),
    {
        let ghost vs = views(messages@);
        let mut first_message = true;
        let mut system_prompt = String::new();
        let mut turns = String::new();
        let mut i: usize = 0;
        while i < messages.len()
            invariant
                i <= messages.len(),
                vs == views(messages@),
                system_prompt@ == system_text(vs.take(i as int)),
                turns@ == llama_turns(vs.take(i as int)),
                first_message == !has_user(vs.take(i as int)),
            decreases messages.len() - i,
        {
            let m = &messages[i];
            proof {
                lemma_views_step(messages@, i as int);
            }
            match m.role {
                MessageRole::System => system_prompt.append(m.content.as_str()),
                MessageRole::User => {
                    if !first_message {
                        turns.append("<s>");
                    }
                    turns.append("[INST] ");
                    turns.append(m.content.as_str());
                    turns.append(" [/INST]");
                    first_message = false;
                },
                MessageRole::Assistant => {
                    turns.append(m.content.as_str());
                    turns.append("</s>");
                },
            }
            proof {
                let next = vs.take(i + 1);
                if m.role is User {
                    assert(next[i as int].role is User);
                } else if has_user(next) {
                    let j = choose|j: int| 0 <= j < next.len() && (#[trigger] next[j]).role is User;
                    assert(vs.take(i as int)[j] == next[j]);
                }
                if has_user(vs.take(i as int)) {
                    let j = choose|j: int| 0 <= j < i && (#[trigger] vs.take(i as int)[j]).role is User;
                    assert(next[j] == vs.take(i as int)[j]);
                }
            }
            i = i + 1;
        }
        proof {
            lemma_views_all(messages@);
        }
        let mut prompt = String::from_str("<s>");
        prompt.append(turns.as_str());
        let mut full_prompt = String::from_str("<s>[INST] <<SYS>>\n");
        full_prompt.append(system_prompt.as_str());
        full_prompt.append("\n<</SYS>>\n\n");
        full_prompt.append(prompt.as_str());
        PromptResult {
            prompt,
            system_prompt,
            prompt_template: String::from_str("<s>[INST] <<SYS>>\n{system_prompt}\n<</SYS>>\n\n{prompt}"),
            full_prompt,
        }
    }
}

/// Formats a message list in the Deepseek format.
#[derive(Clone, Copy, Debug, Default)]
pub struct DeepseekTemplate {}

impl DeepseekTemplate {
    pub fn generate_prompt(&self, messages: &Vec<Message>) -> (r: PromptResult)
        ensures
            r@ == deepseek_prompt(views(messages@)),
    {
        let ghost vs = views(messages@);
        let mut prompt = String::new();
        let mut last = MessageRole::System;
        let mut i: usize = 0;
        while i < messages.len()
            invariant
                i <= messages.len(),
                vs == views(messages@),
                prompt@ == deepseek_body(vs.take(i as int)),
                last == last_role(vs.take(i as int)),
            decreases messages.len() - i,
        {
            let m = &messages[i];
            proof {
                lemma_views_step(messages@, i as int);
            }
            if m.role == last {
                prompt.append("\n");
                prompt.append(m.content.as_str());
            } else {
                match m.role {
                    MessageRole::System => {},
                    MessageRole::User => {
                        prompt.append("\n### Instruction: ");
                        prompt.append(m.content.as_str());
                    },
                    MessageRole::Assistant => {
                        prompt.append("\n### Response: ");
                        prompt.append(m.content.as_str());
                    },
                }
            }
            last = m.role;
            i = i + 1;
        }
        proof {
            lemma_views_all(messages@);
        }
        if last != MessageRole::Assistant {
            prompt.append("\n### Response: ");
        }
        let full_prompt = prompt.clone();
        PromptResult {
            prompt,
            system_prompt: String::new(),
            prompt_template: String::from_str("{system_prompt}{prompt}"),
            full_prompt,
        }
    }
}

/// Formats a message list in the Yi format.
#[derive(Clone, Copy, Debug, Default)]
pub struct YiTemplate {}

impl YiTemplate {
    pub fn generate_prompt(&self, messages: &Vec<Message>) -> (r: PromptResult)
        ensures
            r@ == yi_prompt(views(messages@)),
    {
        let ghost vs = views(messages@);
        let mut prompt = String::new();
        let mut i: usize = 0;
        while i < messages.len()
            invariant
                i <= messages.len(),
                vs == views(messages@),
                prompt@ == yi_turns(vs.take(i as int)),
            decreases messages.len() - i,
        {
            let m = &messages[i];
            proof {
                lemma_views_step(messages@, i as int);
            }
            prompt.append("\n<im_start|>");
            match m.role {
                MessageRole::System => prompt.append("system"),
                MessageRole::User => prompt.append("user"),
                MessageRole::Assistant => prompt.append("assistant"),
            }
            prompt.append("\n");
            prompt.append(m.content.as_str());
            prompt.append("<|im_end|>");
            i = i + 1;
        }
        proof {
            lemma_views_all(messages@);
        }
        prompt.append("<|im_start|>assistant");
        let full_prompt = prompt.clone();
        PromptResult { prompt, system_prompt: String::new(), prompt_template: String::from_str("{prompt}"), full_prompt }
    }
}

/// The formatter of one variant.
#[derive(Clone, Copy, Debug)]
pub enum PromptTemplate {
    ChatML(ChatMLTemplate),
    Mistral(MistralTemplate),
    Llama(LlamaTemplate),
    Deepseek(DeepseekTemplate),
    Yi(YiTemplate),
}

impl PromptTemplate {
    pub open spec fn variant_spec(&self) -> PromptTemplateVariant {
        match self {
            PromptTemplate::ChatML(_) => PromptTemplateVariant::ChatML,
            PromptTemplate::Mistral(_) => PromptTemplateVariant::Mistral,
            PromptTemplate::Llama(_) => PromptTemplateVariant::Llama,
            PromptTemplate::Deepseek(_) => PromptTemplateVariant::Deepseek,
            PromptTemplate::Yi(_) => PromptTemplateVariant::Yi,
        }
    }

    /// Formats `messages` in this template's format.
    pub fn generate_prompt(&self, messages: &Vec<Message>) -> (r: PromptResult)
        ensures
            r@ == format_spec(self.variant_spec(), views(messages@)),
    {
        match self {
            PromptTemplate::ChatML(t) => t.generate_prompt(messages),
            PromptTemplate::Mistral(t) => t.generate_prompt(messages),
            PromptTemplate::Llama(t) => t.generate_prompt(messages),
            PromptTemplate::Deepseek(t) => t.generate_prompt(messages),
            PromptTemplate::Yi(t) => t.generate_prompt(messages),
        }
    }
}

impl PromptTemplateVariant {
    /// The formatter of this variant.
    pub fn get_template(&self) -> (r: PromptTemplate)
        ensures
            r.variant_spec() == *self,
    {
        match self {
            PromptTemplateVariant::ChatML => PromptTemplate::ChatML(ChatMLTemplate {}),
            PromptTemplateVariant::Mistral => PromptTemplate::Mistral(MistralTemplate {}),
            PromptTemplateVariant::Llama => PromptTemplate::Llama(LlamaTemplate {}),
            PromptTemplateVariant::Deepseek => PromptTemplate::Deepseek(DeepseekTemplate {}),
            PromptTemplateVariant::Yi => PromptTemplate::Yi(YiTemplate {}),
        }
    }

    /// Formats `messages` the way this variant prescribes. Total: every message
    /// list, the empty one included, has a result.
    pub fn generate_prompt(&self, messages: &Vec<Message>) -> (r: PromptResult)
        ensures
            r@ == format_spec(*self, views(messages@)),
    {
        self.get_template().generate_prompt(messages)
    }
}

/// Formatting is deterministic: in any variant, message lists of equal value
/// format to identical prompts, system prompts, templates and full prompts.
pub proof fn lemma_format_deterministic(variant: PromptTemplateVariant, a: Seq<Message>, b: Seq<Message>)
    requires
        views(a) == views(b),
    ensures
        format_spec(variant, views(a)) == format_spec(variant, views(b)),
{
}

/// The variant a configuration names.
pub open spec fn variant_named(s: Seq<char>) -> Option<PromptTemplateVariant> {
    if s == "ChatML"@ {
        Some(PromptTemplateVariant::ChatML)
    } else if s == "Mistral"@ {
        Some(PromptTemplateVariant::Mistral)
    } else if s == "Llama"@ {
        Some(PromptTemplateVariant::Llama)
    } else if s == "Deepseek"@ {
        Some(PromptTemplateVariant::Deepseek)
    } else if s == "Yi"@ {
        Some(PromptTemplateVariant::Yi)
    } else {
        None
    }
}

impl PromptTemplateVariant {
    /// The variant named `s` in a configuration; `None` for an unknown name.
    pub fn from_name(s: &str) -> (r: Option<PromptTemplateVariant>)
        ensures
            r == variant_named(s@),
    {
        if str_eq(s, "ChatML") {
            Some(PromptTemplateVariant::ChatML)
        } else if str_eq(s, "Mistral") {
            Some(PromptTemplateVariant::Mistral)
        } else if str_eq(s, "Llama") {
            Some(PromptTemplateVariant::Llama)
        } else if str_eq(s, "Deepseek") {
            Some(PromptTemplateVariant::Deepseek)
        } else if str_eq(s, "Yi") {
            Some(PromptTemplateVariant::Yi)
        } else {
            None
        }
    }
}

} // verus!
