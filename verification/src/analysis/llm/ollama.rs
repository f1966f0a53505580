//! What a local Ollama chat endpoint is sent, and how its replies are read.
use vstd::prelude::*;
use vstd::string::StringExecFns;
use crate::analysis::engine::LlmConfig;
use crate::analysis::llm::openai_compat::{carries, messages_to_standard_format, WireMessage};
use crate::analysis::llm::{ChatMessage, LlmResponse, TokenUsage};

verus! {

/// An Ollama chat request, as plain values: where it goes and the body fields.
#[derive(Debug)]
pub struct LocalChatRequest {
    pub url: String,
    pub model: String,
    pub messages: Vec<WireMessage>,
    pub stream: bool,
}

/// The base URL of a local configuration: its own, else `http://localhost:11434`.
pub open spec fn local_base_url(config: LlmConfig) -> Seq<char> {
    match config.base_url {
        Some(u) => u@,
        None => "http://localhost:11434"@,
    }
}

/// Plans an Ollama chat request: `<base>/api/chat`, the configured model, every message
/// with its role name and content, and no streaming.
pub fn local_chat_request(messages: &Vec<ChatMessage>, config: &LlmConfig) -> (r: LocalChatRequest)
    ensures
        r.url@ == local_base_url(*config) + "/api/chat"@,
        r.model@ == config.model@,
        r.messages@.len() == messages@.len(),
        forall|i: int| 0 <= i < r.messages@.len() ==> carries(#[trigger] r.messages@[i], messages@[i]),
        !r.stream,
{
    let mut url = match &config.base_url {
        Some(u) => u.clone(),
        None => String::from_str("http://localhost:11434"),
    };
    url.append("/api/chat");
    LocalChatRequest {
        url,
        model: config.model.clone(),
        messages: messages_to_standard_format(messages),
        stream: false,
    }
}

/// The response of an Ollama reply: its content and model, no reasoning, the prompt and
/// completion counts (missing ones as 0) and their sum.
pub fn local_chat_response(
    content: String,
    model: String,
    prompt_eval_count: Option<u32>,
    eval_count: Option<u32>,
) -> (r: LlmResponse)
    requires
        prompt_eval_count.unwrap_or(0) + eval_count.unwrap_or(0) <= u32::MAX,
    ensures
        r.content == content,
        r.model == model,
        r.reasoning is None,
        r.usage == (TokenUsage {
            prompt_tokens: prompt_eval_count.unwrap_or(0),
            completion_tokens: eval_count.unwrap_or(0),
            total_tokens: (prompt_eval_count.unwrap_or(0) + eval_count.unwrap_or(0)) as u32,
        }),
{
    let prompt_tokens = prompt_eval_count.unwrap_or(0);
    let completion_tokens = eval_count.unwrap_or(0);
    LlmResponse {
        content,
        reasoning: None,
        usage: TokenUsage { prompt_tokens, completion_tokens, total_tokens: prompt_tokens + completion_tokens },
        model,
    }
}

} // verus!
