//! The secondary flow that names a conversation after its first message.

use crate::action::Action;
use crate::completion::{CompletionStatus, Message, MessageRole, MessageView};
use crate::config::ModelConfig;
use vstd::prelude::*;
use vstd::string::*;

verus! {

/// The instruction given as the system message.
pub open spec fn title_system_text() -> Seq<char> {
    "You are a helpful assistant, who title user queries."@
}

/// The text ahead of the user's message in the title request.
pub open spec fn title_head() -> Seq<char> {
    "Given a message, from the user, please produce a short title for the message.\n\nFor example if the user asked:\nWhat are the 3 hardest parts to learning rust.\n\nYou should respond with 'Hardest parts of Rust'\n\nAnother example is, if the user asked:\nWhat is the most popular car color?\n\nYou should response with 'White'\n\nPlease do not respond with anything else except the title.\n\nThe users message is:\n\n"@
}

/// The text after the user's message in the title request.
pub open spec fn title_tail() -> Seq<char> {
    "\n\nPlease provide a title for the user message above.\nPlease keep the answer succinct, less than ten words long."@
}

/// The two messages that ask a model for a title: the system instruction,
/// then the user's first message wrapped in the request.
pub fn title_request_messages(first_message: &str, model_config: &ModelConfig) -> (r: Vec<Message>)
    ensures
        r@.len() == 2,
        r@[0]@ == (MessageView {
            role: MessageRole::System,
            content: title_system_text(),
            model: model_config@,
            status: CompletionStatus::Succeeded,
        }),
        r@[1]@ == (MessageView {
            role: MessageRole::User,
            content: title_head() + first_message@ + title_tail(),
            model: model_config@,
            status: CompletionStatus::Succeeded,
        }),
{
    let mut prompt = String::from_str(
        "Given a message, from the user, please produce a short title for the message.\n\nFor example if the user asked:\nWhat are the 3 hardest parts to learning rust.\n\nYou should respond with 'Hardest parts of Rust'\n\nAnother example is, if the user asked:\nWhat is the most popular car color?\n\nYou should response with 'White'\n\nPlease do not respond with anything else except the title.\n\nThe users message is:\n\n",
    );
    prompt.append(first_message);
    prompt.append(
        "\n\nPlease provide a title for the user message above.\nPlease keep the answer succinct, less than ten words long.",
    );
    let mut r: Vec<Message> = Vec::new();
    r.push(
        Message::system_message(
            String::from_str("You are a helpful assistant, who title user queries."),
            model_config.duplicate(),
        ),
    );
    r.push(Message::user_message(prompt, model_config.duplicate()));
    r
}

/// `t` is `s` without the `"` characters at either end.
pub open spec fn unquoted(s: Seq<char>, t: Seq<char>) -> bool {
    exists|a: int, b: int|
        {
            &&& 0 <= a <= b <= s.len()
            &&& (forall|i: int| 0 <= i < a ==> s[i] == '"')
            &&& (forall|i: int| b <= i < s.len() ==> s[i] == '"')
            &&& (a < b ==> s[a] != '"' && s[b - 1] != '"')
            &&& t == s.subrange(a, b)
        }
}

/// Strips the quote characters that surround a model's answer.
pub fn clean_title(s: &str) -> (r: String)
    ensures
        unquoted(s@, r@),
{
    let n = s.unicode_len();
    let mut a: usize = 0;
    while a < n && s.get_char(a) == '"'
        invariant
            n == s@.len(),
            a <= n,
            forall|i: int| 0 <= i < a ==> s@[i] == '"',
        decreases n - a,
    {
        a = a + 1;
    }
    let mut b: usize = n;
    while b > a && s.get_char(b - 1) == '"'
        invariant
            n == s@.len(),
            a <= b <= n,
            forall|i: int| b <= i < n ==> s@[i] == '"',
            a < n ==> s@[a as int] != '"',
        decreases b,
    {
        b = b - 1;
    }
    let r = s.substring_char(a, b).to_owned();
    assert(a < b ==> s@[a as int] != '"' && s@[b - 1] != '"');
    r
}

/// The event that sets the title from a model's answer.
pub fn title_action(answer: &str) -> (r: Action)
    ensures
        r matches Action::SetTitle(t) && unquoted(answer@, t@),
{
    Action::SetTitle(clean_title(answer))
}

} // verus!
