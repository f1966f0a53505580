//! What OpenAI-compatible chat endpoints are sent, and how their replies are read.
use vstd::prelude::*;
use vstd::string::StringExecFns;
use crate::analysis::engine::{provider_base_url, CloudProvider, LlmConfig};
use crate::analysis::llm::{ChatMessage, LlmResponse, MessageRole, TokenUsage};
use crate::analysis::schemas::{structured_mode_of, StructuredOutputMode};
use vstd::utf8::is_ascii_chars;
use crate::text::{ascii_lowered, joined, lemma_joined_push, lowercase, str_is};

verus! {

/// One message as sent on the wire: role name, content and, for DeepSeek, an optional
/// separate reasoning field.
#[derive(Debug)]
pub struct WireMessage {
    pub role: &'static str,
    pub content: String,
    pub reasoning_content: Option<String>,
}

/// The wire name of a role.
pub open spec fn role_name(r: MessageRole) -> Seq<char> {
    match r {
        MessageRole::System => "system"@,
        MessageRole::User => "user"@,
        MessageRole::Assistant => "assistant"@,
    }
}

/// The wire name of a role.
pub fn role_str(r: MessageRole) -> (s: &'static str)
    ensures
        s@ == role_name(r),
{
    match r {
        MessageRole::System => "system",
        MessageRole::User => "user",
        MessageRole::Assistant => "assistant",
    }
}

/// `w` carries message `m` with its role name and content and no reasoning field.
pub open spec fn carries(w: WireMessage, m: ChatMessage) -> bool {
    &&& w.role@ == role_name(m.role)
    &&& w.content@ == m.content@
    &&& w.reasoning_content is None
}

/// The standard wire form: each message's role name and content, in order.
pub fn messages_to_standard_format(messages: &Vec<ChatMessage>) -> (r: Vec<WireMessage>)
    ensures
        r@.len() == messages@.len(),
        forall|i: int| 0 <= i < r@.len() ==> carries(#[trigger] r@[i], messages@[i]),
{
    let mut out: Vec<WireMessage> = Vec::new();
    let mut i: usize = 0;
    while i < messages.len()
        invariant
            i <= messages@.len(),
            out@.len() == i,
            forall|j: int| 0 <= j < i ==> carries(#[trigger] out@[j], messages@[j]),
        decreases messages@.len() - i,
    {
        let m = &messages[i];
        out.push(WireMessage { role: role_str(m.role), content: m.content.clone(), reasoning_content: None });
        i += 1;
    }
    out
}

/// The DeepSeek wire form. An assistant message that starts with `[REASONING]` would have
/// its reasoning moved to a separate field when splitting the content at brackets (into at
/// most three pieces) gives four pieces, which never happens: every message goes out with
/// its role name and content, as in the standard form.
pub fn messages_to_deepseek_format(messages: &Vec<ChatMessage>) -> (r: Vec<WireMessage>)
    ensures
        r@.len() == messages@.len(),
        forall|i: int| 0 <= i < r@.len() ==> carries(#[trigger] r@[i], messages@[i]),
{
    messages_to_standard_format(messages)
}


/// A chat-completions request, as plain values: where it goes, its bearer credential, and
/// the body fields (model, messages, token limit, and the optional reasoning effort and
/// JSON response format).
#[derive(Debug)]
pub struct CompletionRequest {
    pub url: String,
    pub authorization: String,
    pub model: String,
    pub messages: Vec<WireMessage>,
    pub max_tokens: u32,
    pub reasoning_effort: Option<&'static str>,
    pub json_response: bool,
}

/// The base URL a configuration talks to: its own, else the provider's default.
pub open spec fn base_url_of(config: LlmConfig) -> Seq<char> {
    match config.base_url {
        Some(u) => u@,
        None => provider_base_url(config.provider),
    }
}

/// DeepSeek with thinking enabled: reasoning effort "high" and no JSON response format.
pub open spec fn deepseek_thinking(config: LlmConfig) -> bool {
    config.thinking_enabled && config.provider == CloudProvider::DeepSeek
}

/// The base URL of a configuration.
pub fn base_url(config: &LlmConfig) -> (r: String)
    ensures
        r@ == base_url_of(*config),
{
    match &config.base_url {
        Some(u) => u.clone(),
        None => String::from_str(config.provider.default_base_url()),
    }
}

/// Plans a chat-completions request. Without an API key it fails with `API Key 未配置`.
/// Otherwise it goes to `<base>/chat/completions` with `Bearer <key>`; DeepSeek gets its
/// own message form; at most 4096 tokens; DeepSeek thinking asks for high reasoning
/// effort and no JSON format, and otherwise the JSON response format is asked for exactly
/// when the structured-output mode is native.
pub fn completion_request(messages: &Vec<ChatMessage>, config: &LlmConfig) -> (r: Result<CompletionRequest, String>)
    ensures
        config.api_key is None <==> r is Err,
        r matches Err(e) ==> e@ == "API Key 未配置"@,
        r matches Ok(q) ==> {
            &&& q.url@ == base_url_of(*config) + "/chat/completions"@
            &&& q.authorization@ == "Bearer "@ + config.api_key->0@
            &&& q.model@ == config.model@
            &&& q.messages@.len() == messages@.len()
            &&& forall|i: int| 0 <= i < q.messages@.len() ==> carries(#[trigger] q.messages@[i], messages@[i])
            &&& q.max_tokens == 4096
            &&& (q.reasoning_effort matches Some(e) ==> e@ == "high"@)
            &&& (q.reasoning_effort is Some <==> deepseek_thinking(*config))
            &&& q.json_response == (!deepseek_thinking(*config) && structured_mode_of(
                config.provider,
                lowercase(config.model@),
                config.thinking_enabled,
            ) == StructuredOutputMode::Native)
            &&& (is_ascii_chars(config.model@) ==> q.json_response == (!deepseek_thinking(*config)
                && structured_mode_of(
                config.provider,
                ascii_lowered(config.model@),
                config.thinking_enabled,
            ) == StructuredOutputMode::Native))
        },
{
    let api_key = match &config.api_key {
        Some(k) => k,
        None => {
            return Err(String::from_str("API Key 未配置"));
        },
    };
    let mut url = base_url(config);
    url.append("/chat/completions");
    let mut authorization = String::from_str("Bearer ");
    authorization.append(api_key.as_str());
    let is_deepseek = config.provider == CloudProvider::DeepSeek;
    let wire = if is_deepseek {
        messages_to_deepseek_format(messages)
    } else {
        messages_to_standard_format(messages)
    };
    let (reasoning_effort, json_response) = if config.thinking_enabled && is_deepseek {
        (Some("high"), false)
    } else {
        let mode = StructuredOutputMode::resolve(config.provider, config.model.as_str(), config.thinking_enabled);
        (None, mode == StructuredOutputMode::Native)
    };
    Ok(CompletionRequest {
        url,
        authorization,
        model: config.model.clone(),
        messages: wire,
        max_tokens: 4096,
        reasoning_effort,
        json_response,
    })
}


/// One block of a typed `content` array: its `type` and `text` where they are strings.
#[derive(Debug)]
pub struct ReplyBlock {
    pub kind: Option<String>,
    pub text: Option<String>,
}

/// The `content` of a reply message: a string, an array of typed blocks, or anything else
/// (absent, null, a number or an object).
#[derive(Debug)]
pub enum ReplyContent {
    Text(String),
    Blocks(Vec<ReplyBlock>),
    Other,
}

/// The first choice's message of a reply: its content and, where it is a string,
/// DeepSeek's `reasoning_content`.
#[derive(Debug)]
pub struct ReplyMessage {
    pub content: ReplyContent,
    pub reasoning_content: Option<String>,
}

/// The `usage` counters of a reply, each where it is a non-negative integer.
#[derive(Debug)]
pub struct ReplyUsage {
    pub prompt_tokens: Option<u64>,
    pub completion_tokens: Option<u64>,
    pub total_tokens: Option<u64>,
}

/// What the reply logic reads of a chat-completions reply: the first choice's message
/// (when there is a `choices` array with a first element holding a `message`), the usage
/// object, and the `model` where it is a string.
#[derive(Debug)]
pub struct CompletionReply {
    pub message: Option<ReplyMessage>,
    pub usage: Option<ReplyUsage>,
    pub model: Option<String>,
}

/// The texts of the blocks typed `text` that carry a text, in order.
pub open spec fn block_texts(blocks: Seq<ReplyBlock>) -> Seq<Seq<char>>
    decreases blocks.len(),
{
    if blocks.len() == 0 {
        Seq::empty()
    } else {
        let rest = block_texts(blocks.drop_last());
        let b = blocks.last();
        if b.kind matches Some(k) && k@ == "text"@ && b.text is Some {
            rest.push(b.text->0@)
        } else {
            rest
        }
    }
}

/// The normalised content of a reply: the message's string content; when that is missing
/// or empty and the content is an array of blocks, the texts of its text blocks joined by
/// line breaks; else empty.
pub open spec fn reply_content(reply: CompletionReply) -> Seq<char> {
    match reply.message {
        None => Seq::empty(),
        Some(m) => match m.content {
            ReplyContent::Text(s) => s@,
            ReplyContent::Blocks(bs) => joined(block_texts(bs@), "\n"@),
            ReplyContent::Other => Seq::empty(),
        },
    }
}

/// The reasoning of a reply: the message's `reasoning_content`.
pub open spec fn reply_reasoning(reply: CompletionReply) -> Option<Seq<char>> {
    match reply.message {
        Some(m) => match m.reasoning_content {
            Some(r) => Some(r@),
            None => None,
        },
        None => None,
    }
}

fn joined_block_texts(blocks: &Vec<ReplyBlock>) -> (r: String)
    ensures
        r@ == joined(block_texts(blocks@), "\n"@),
{
    let mut out = String::new();
    let mut found: usize = 0;
    let mut i: usize = 0;
    while i < blocks.len()
        invariant
            i <= blocks.len(),
            found == block_texts(blocks@.take(i as int)).len(),
            found <= i,
            out@ == joined(block_texts(blocks@.take(i as int)), "\n"@),
        decreases blocks.len() - i,
    {
        proof {
            assert(blocks@.take(i + 1).drop_last() =~= blocks@.take(i as int));
        }
        let b = &blocks[i];
        let is_text = match &b.kind {
            Some(k) => str_is(k.as_str(), "text"),
            None => false,
        };
        if is_text {
            match &b.text {
                Some(t) => {
                    let ghost before = out@;
                    proof {
                        lemma_joined_push(block_texts(blocks@.take(i as int)), "\n"@, t@);
                    }
                    if found > 0 {
                        out.append("\n");
                    }
                    out.append(t.as_str());
                    proof {
                        if found > 0 {
                            assert(out@ =~= before + "\n"@ + t@);
                        } else {
                            assert(out@ =~= before + t@);
                        }
                    }
                    found += 1;
                },
                None => {},
            }
        }
        i += 1;
    }
    proof {
        assert(blocks@.take(blocks.len() as int) =~= blocks@);
    }
    out
}

/// Normalises a reply: the first choice's message content (or the text of its typed
/// blocks) and DeepSeek's reasoning.
pub fn adapt_response(reply: &CompletionReply) -> (r: (String, Option<String>))
    ensures
        r.0@ == reply_content(*reply),
        match reply_reasoning(*reply) {
            Some(x) => r.1 matches Some(y) && y@ == x,
            None => r.1 is None,
        },
{
    match &reply.message {
        None => (String::new(), None),
        Some(m) => {
            let reasoning = match &m.reasoning_content {
                Some(x) => Some(x.clone()),
                None => None,
            };
            let content = match &m.content {
                ReplyContent::Text(s) => s.clone(),
                ReplyContent::Blocks(bs) => joined_block_texts(bs),
                ReplyContent::Other => String::new(),
            };
            (content, reasoning)
        },
    }
}


/// A usage counter as a `u32`: missing counts as 0, and wider values keep their low 32 bits.
pub open spec fn counter_u32(x: Option<u64>) -> u32 {
    match x {
        Some(v) => v as u32,
        None => 0,
    }
}

/// The usage of a reply: its counters, or all zero without a usage object.
pub open spec fn reply_usage(reply: CompletionReply) -> TokenUsage {
    match reply.usage {
        Some(u) => TokenUsage {
            prompt_tokens: counter_u32(u.prompt_tokens),
            completion_tokens: counter_u32(u.completion_tokens),
            total_tokens: counter_u32(u.total_tokens),
        },
        None => TokenUsage { prompt_tokens: 0, completion_tokens: 0, total_tokens: 0 },
    }
}

fn counter(x: Option<u64>) -> (r: u32)
    ensures
        r == counter_u32(x),
{
    match x {
        Some(v) => {
            #[verifier::truncate]
            (v as u32)
        },
        None => 0,
    }
}

/// The response of a chat-completions reply: the normalised content and reasoning, the
/// usage counters, and the reply's model, else the model that was asked for.
pub fn completion_response(reply: &CompletionReply, requested_model: &str) -> (r: LlmResponse)
    ensures
        r.content@ == reply_content(*reply),
        match reply_reasoning(*reply) {
            Some(x) => r.reasoning matches Some(y) && y@ == x,
            None => r.reasoning is None,
        },
        r.usage == reply_usage(*reply),
        r.model@ == match reply.model {
            Some(m) => m@,
            None => requested_model@,
        },
{
    let (content, reasoning) = adapt_response(reply);
    let usage = match &reply.usage {
        Some(u) => TokenUsage {
            prompt_tokens: counter(u.prompt_tokens),
            completion_tokens: counter(u.completion_tokens),
            total_tokens: counter(u.total_tokens),
        },
        None => TokenUsage { prompt_tokens: 0, completion_tokens: 0, total_tokens: 0 },
    };
    let model = match &reply.model {
        Some(m) => m.clone(),
        None => String::from_str(requested_model),
    };
    LlmResponse { content, reasoning, usage, model }
}

} // verus!
