//! Messages exchanged with the model server.

use crate::text::same_text;
use vstd::prelude::*;
use vstd::string::StringExecFns;

verus! {

#[derive(Debug, Clone)]
pub struct OllamaModel {
    pub name: String,
    pub modified_at: String,
    pub size: u64,
    pub digest: String,
    pub details: Option<ModelDetails>,
}

#[derive(Debug, Clone)]
pub struct ModelDetails {
    pub format: String,
    pub family: String,
    pub families: Option<Vec<String>>,
    pub parameter_size: String,
    pub quantization_level: String,
}

#[derive(Debug, Clone)]
pub struct OllamaModelsResponse {
    pub models: Vec<OllamaModel>,
}

#[derive(Debug, Clone)]
pub struct PullRequest {
    pub name: String,
    pub insecure: Option<bool>,
    pub stream: Option<bool>,
}

#[derive(Debug, Clone)]
pub struct ChatContextMessage {
    pub role: String,
    pub content: String,
}

#[derive(Debug, Clone)]
pub struct GenerateRequest {
    pub model: String,
    pub prompt: String,
    pub stream: Option<bool>,
    pub context: Option<Vec<i32>>,
    pub images: Option<Vec<String>>,
    pub system: Option<String>,
}

#[derive(Debug, Clone)]
pub struct GenerateResponse {
    pub model: String,
    pub created_at: String,
    pub response: String,
    pub done: bool,
    pub context: Option<Vec<i32>>,
    pub total_duration: Option<u64>,
    pub load_duration: Option<u64>,
    pub prompt_eval_count: Option<u32>,
    pub prompt_eval_duration: Option<u64>,
    pub eval_count: Option<u32>,
    pub eval_duration: Option<u64>,
}

impl PullRequest {
    /// A request to pull a model over a secure connection, with progress
    /// streamed.
    pub fn streaming(name: String) -> (r: Self)
        ensures
            r.name == name,
            r.insecure == Some(false),
            r.stream == Some(true),
    {
        PullRequest { name, insecure: Some(false), stream: Some(true) }
    }
}

impl ChatContextMessage {
    /// One line of a prompt: the role with its first letter as given, a
    /// colon and a space, the content.
    pub open spec fn spec_line(&self) -> Seq<char> {
        self.role@ + ": "@ + self.content@
    }

    /// One line of a prompt.
    pub fn line(&self) -> (r: String)
        ensures
            r@ == self.spec_line(),
    {
        self.role.clone().concat(": ").concat(self.content.as_str())
    }
}

/// What a [`ChatContextMessage`] holds.
pub struct MessageModel {
    pub role: Seq<char>,
    pub content: Seq<char>,
}

impl View for ChatContextMessage {
    type V = MessageModel;

    open spec fn view(&self) -> MessageModel {
        MessageModel { role: self.role@, content: self.content@ }
    }
}

/// The models of a list of messages, in order.
pub open spec fn message_models(messages: Seq<ChatContextMessage>) -> Seq<MessageModel> {
    Seq::new(messages.len(), |i: int| messages[i]@)
}

/// The name under which a role is shown in a prompt: the three known roles
/// with a capital, every other role as it is.
pub open spec fn spec_role_label(role: Seq<char>) -> Seq<char> {
    if role == "user"@ {
        "User"@
    } else if role == "assistant"@ {
        "Assistant"@
    } else if role == "system"@ {
        "System"@
    } else {
        role
    }
}

/// One message of the history as it stands in a prompt.
pub open spec fn spec_history_entry(m: MessageModel) -> Seq<char> {
    "**"@ + spec_role_label(m.role) + ":** "@ + m.content + "\n\n"@
}

/// The history as it stands in a prompt: its messages one after the other.
pub open spec fn spec_history(messages: Seq<MessageModel>) -> Seq<char>
    decreases messages.len(),
{
    if messages.len() == 0 {
        Seq::empty()
    } else {
        spec_history(messages.drop_last()) + spec_history_entry(messages.last())
    }
}

/// The prompt that is sent: the request alone where there is no history,
/// else the history under its heading and the request under its own.
pub open spec fn spec_prompt_with_context(
    current_prompt: Seq<char>,
    context: Option<Seq<MessageModel>>,
) -> Seq<char> {
    match context {
        Some(messages) => if messages.len() == 0 {
            current_prompt
        } else {
            "## Conversation History:\n\n"@ + spec_history(messages) + "## Current Request:\n\n"@
                + current_prompt
        },
        None => current_prompt,
    }
}

/// The prompt that is sent for a request and the conversation before it.
pub fn build_prompt_with_context(current_prompt: String, context: Option<Vec<ChatContextMessage>>) -> (r:
    String)
    ensures
        r@ == spec_prompt_with_context(
            current_prompt@,
            match context {
                Some(messages) => Some(message_models(messages@)),
                None => None,
            },
        ),
{
    match context {
        None => current_prompt,
        Some(messages) => {
            if messages.len() == 0 {
                return current_prompt;
            }
            let ghost models = message_models(messages@);
            let mut full_prompt = String::from_str("## Conversation History:\n\n");
            let mut i: usize = 0;
            assert(models.subrange(0, 0) =~= Seq::<MessageModel>::empty());
            assert(full_prompt@ =~= "## Conversation History:\n\n"@ + spec_history(
                models.subrange(0, 0),
            ));
            while i < messages.len()
                invariant
                    i <= messages.len(),
                    models == message_models(messages@),
                    full_prompt@ == "## Conversation History:\n\n"@ + spec_history(
                        models.subrange(0, i as int),
                    ),
                decreases messages.len() - i,
            {
                let message = &messages[i];
                let ghost prefix = models.subrange(0, i + 1);
                assert(prefix.drop_last() =~= models.subrange(0, i as int));
                assert(prefix.last() == message@);
                let ghost before = full_prompt@;
                full_prompt.append("**");
                if same_text(message.role.as_str(), "user") {
                    full_prompt.append("User");
                } else if same_text(message.role.as_str(), "assistant") {
                    full_prompt.append("Assistant");
                } else if same_text(message.role.as_str(), "system") {
                    full_prompt.append("System");
                } else {
                    full_prompt.append(message.role.as_str());
                }
                full_prompt.append(":** ");
                full_prompt.append(message.content.as_str());
                full_prompt.append("\n\n");
                assert(full_prompt@ =~= before + spec_history_entry(message@));
                assert(full_prompt@ =~= "## Conversation History:\n\n"@ + spec_history(prefix));
                i += 1;
            }
            assert(models.subrange(0, messages.len() as int) =~= models);
            full_prompt.append("## Current Request:\n\n");
            full_prompt.append(current_prompt.as_str());
            full_prompt
        },
    }
}

} // verus!
