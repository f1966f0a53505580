//! LLM message and response types.
use vstd::prelude::*;
use crate::analysis::engine::{clone_opt_string, CloudProvider, LlmConfig, LlmMode};
use crate::text::{contains_seq, contains_str, to_chars};
use vstd::string::StringExecFns;

pub mod cost;
pub mod fallback;
pub mod json_extract;
pub mod anthropic;
pub mod ollama;
pub mod openai_compat;
pub mod router;

verus! {

/// Token usage of one request.
#[derive(Debug, Clone, Copy, PartialEq, Eq, Structural)]
pub struct TokenUsage {
    pub prompt_tokens: u32,
    pub completion_tokens: u32,
    pub total_tokens: u32,
}

impl Default for TokenUsage {
    fn default() -> (r: Self)
        ensures
            r.prompt_tokens == 0 && r.completion_tokens == 0 && r.total_tokens == 0,
    {
        TokenUsage { prompt_tokens: 0, completion_tokens: 0, total_tokens: 0 }
    }
}

/// One LLM reply.
#[derive(Debug)]
pub struct LlmResponse {
    pub content: String,
    pub reasoning: Option<String>,
    pub usage: TokenUsage,
    pub model: String,
}

/// Role of a chat message.
#[derive(Debug, Clone, Copy, PartialEq, Eq, Structural)]
pub enum MessageRole {
    System,
    User,
    Assistant,
}

/// One chat message.
#[derive(Debug)]
pub struct ChatMessage {
    pub role: MessageRole,
    pub content: String,
}

impl Clone for LlmResponse {
    fn clone(&self) -> (r: Self)
        ensures
            r == *self,
    {
        LlmResponse {
            content: self.content.clone(),
            reasoning: clone_opt_string(&self.reasoning),
            usage: self.usage,
            model: self.model.clone(),
        }
    }
}

impl Clone for ChatMessage {
    fn clone(&self) -> (r: Self)
        ensures
            r == *self,
    {
        ChatMessage { role: self.role, content: self.content.clone() }
    }
}

/// The index of the last assistant message, if any.
pub open spec fn last_assistant(m: Seq<ChatMessage>, i: int) -> bool {
    &&& 0 <= i < m.len()
    &&& m[i].role == MessageRole::Assistant
    &&& forall|j: int| i < j < m.len() ==> (#[trigger] m[j]).role != MessageRole::Assistant
}

/// An assistant message carrying the previous reasoning: `[REASONING]…[/REASONING]` and a
/// line break in front of the original content.
pub open spec fn with_reasoning(content: Seq<char>, reasoning: Seq<char>) -> Seq<char> {
    "[REASONING]"@ + reasoning + "[/REASONING]\n"@ + content
}

/// DeepSeek reasoner models need the previous reasoning sent back: it is prepended to the
/// last assistant message, unless that message already carries it. Other messages stay.
pub fn adapt_request_for_deepseek(messages: &mut Vec<ChatMessage>, last_reasoning: Option<&str>)
    ensures
        final(messages)@.len() == old(messages)@.len(),
        last_reasoning is None ==> final(messages)@ == old(messages)@,
        last_reasoning is Some && !(exists|i: int| last_assistant(old(messages)@, i))
            ==> final(messages)@ == old(messages)@,
        forall|i: int|
            #![trigger last_assistant(old(messages)@, i)]
            last_reasoning is Some && last_assistant(old(messages)@, i) ==> {
                let m = old(messages)@[i];
                &&& contains_seq(m.content@, "[REASONING]"@) ==> final(messages)@ == old(messages)@
                &&& !contains_seq(m.content@, "[REASONING]"@) ==> final(messages)@ == old(messages)@.update(
                    i,
                    ChatMessage {
                        role: m.role,
                        content: final(messages)@[i].content,
                    },
                ) && final(messages)@[i].content@ == with_reasoning(m.content@, last_reasoning->0@)
            },
{
    let reasoning = match last_reasoning {
        Some(r) => r,
        None => return,
    };
    let mut i = messages.len();
    while i > 0
        invariant
            i <= messages@.len(),
            messages@ == old(messages)@,
            last_reasoning == Some(reasoning),
            forall|j: int| i <= j < messages@.len() ==> (#[trigger] messages@[j]).role != MessageRole::Assistant,
        decreases i,
    {
        if messages[i - 1].role == MessageRole::Assistant {
            let idx = i - 1;
            assert(last_assistant(old(messages)@, idx as int));
            proof {
                assert forall|k: int| last_assistant(old(messages)@, k) implies k == idx by {
                    if k < idx {
                        assert(old(messages)@[idx as int].role == MessageRole::Assistant);
                    }
                    if k > idx {
                        assert(messages@[k].role != MessageRole::Assistant);
                    }
                }
            }
            let cv = to_chars(messages[idx].content.as_str());
            if contains_str(&cv, "[REASONING]") {
                return;
            }
            let mut content = String::from_str("[REASONING]");
            content.append(reasoning);
            content.append("[/REASONING]\n");
            content.append(messages[idx].content.as_str());
            let role = messages[idx].role;
            messages.set(idx, ChatMessage { role, content });
            return;
        }
        i -= 1;
    }
}

/// The family of client that talks to a provider.
#[derive(Debug, Clone, Copy, PartialEq, Eq, Structural)]
pub enum ClientKind {
    /// Anthropic's messages API.
    Anthropic,
    /// OpenAI-compatible chat completions (OpenAI, DeepSeek, Qwen, GLM, MiniMax).
    OpenAICompat,
    /// A local Ollama server.
    Ollama,
}

/// The client family for a provider.
pub open spec fn client_kind_of(p: CloudProvider) -> ClientKind {
    match p {
        CloudProvider::Anthropic => ClientKind::Anthropic,
        CloudProvider::Ollama => ClientKind::Ollama,
        _ => ClientKind::OpenAICompat,
    }
}

/// Picks the client family that serves `config`'s provider.
pub fn create_client(config: &LlmConfig) -> (r: ClientKind)
    ensures
        r == client_kind_of(config.provider),
{
    match config.provider {
        CloudProvider::Anthropic => ClientKind::Anthropic,
        CloudProvider::OpenAI | CloudProvider::DeepSeek => ClientKind::OpenAICompat,
        CloudProvider::Qwen | CloudProvider::GLM | CloudProvider::MiniMax => ClientKind::OpenAICompat,
        CloudProvider::Ollama => ClientKind::Ollama,
    }
}

/// The request behind a plain text generation: one user message holding the prompt, sent
/// with a cloud Anthropic configuration whose model is `default`, without key, base URL or
/// thinking.
pub fn generation_request(prompt: &str) -> (r: (Vec<ChatMessage>, LlmConfig))
    ensures
        r.0@.len() == 1,
        r.0@[0].role == MessageRole::User,
        r.0@[0].content@ == prompt@,
        r.1.provider == CloudProvider::Anthropic,
        r.1.model@ == "default"@,
        r.1.api_key is None,
        r.1.base_url is None,
        r.1.mode == LlmMode::Cloud,
        !r.1.thinking_enabled,
{
    let mut messages: Vec<ChatMessage> = Vec::new();
    messages.push(ChatMessage { role: MessageRole::User, content: prompt.to_owned() });
    let model = "default";
    proof {
        reveal_strlit("default");
    }
    let config = LlmConfig {
        provider: CloudProvider::Anthropic,
        api_key: None,
        model: model.to_owned(),
        base_url: None,
        mode: LlmMode::Cloud,
        thinking_enabled: false,
    };
    (messages, config)
}

/// A client that answers every request with a fixed financial-health dimension report
/// (for tests).
pub struct MockLlmClient;

/// The fixed answer of [`MockLlmClient`].
pub open spec fn mock_answer() -> Seq<char> {
    "{\"dimension\":\"FinancialHealth\",\"rating\":\"B\",\"summary\":\"财务状况良好\",\"key_points\":[\"ROE稳健\",\"现金流充裕\"],\"risks\":[\"负债率偏高\"],\"opportunities\":[\"行业增长\"],\"confidence\":0.75}"@
}

impl MockLlmClient {
    /// The response to any chat: the fixed answer, no reasoning, zero usage, model `mock`.
    pub fn respond(&self) -> (r: LlmResponse)
        ensures
            r.content@ == mock_answer(),
            r.reasoning is None,
            r.usage == (TokenUsage { prompt_tokens: 0, completion_tokens: 0, total_tokens: 0 }),
            r.model@ == "mock"@,
    {
        let answer = "{\"dimension\":\"FinancialHealth\",\"rating\":\"B\",\"summary\":\"财务状况良好\",\"key_points\":[\"ROE稳健\",\"现金流充裕\"],\"risks\":[\"负债率偏高\"],\"opportunities\":[\"行业增长\"],\"confidence\":0.75}";
        let model = "mock";
        LlmResponse {
            content: answer.to_owned(),
            reasoning: None,
            usage: TokenUsage::default(),
            model: model.to_owned(),
        }
    }

    /// The provider name, `mock`.
    pub fn provider_name(&self) -> (r: &'static str)
        ensures
            r@ == "mock"@,
    {
        "mock"
    }
}

} // verus!
