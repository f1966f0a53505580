//! What the Anthropic messages endpoint is sent, and how its replies are read.
use vstd::prelude::*;
use vstd::string::StringExecFns;
use crate::analysis::engine::LlmConfig;
use crate::analysis::llm::openai_compat::{carries, role_str, WireMessage};
use crate::analysis::llm::{ChatMessage, LlmResponse, MessageRole, TokenUsage};
use crate::text::{joined, lemma_joined_push};

verus! {

/// A messages request, as plain values: the API key, and the body fields (model, token
/// limit, system text and the conversation without system messages).
#[derive(Debug)]
pub struct MessagesRequest {
    pub api_key: String,
    pub model: String,
    pub max_tokens: u32,
    pub system: String,
    pub messages: Vec<WireMessage>,
}

/// The system text: the content of the first system message, else empty.
pub open spec fn system_text(messages: Seq<ChatMessage>) -> Seq<char>
    decreases messages.len(),
{
    if messages.len() == 0 {
        Seq::empty()
    } else if messages[0].role == MessageRole::System {
        messages[0].content@
    } else {
        system_text(messages.drop_first())
    }
}

/// The conversation sent: the messages that are not system messages, in order.
pub open spec fn conversation(messages: Seq<ChatMessage>) -> Seq<ChatMessage>
    decreases messages.len(),
{
    if messages.len() == 0 {
        Seq::empty()
    } else {
        let rest = conversation(messages.drop_last());
        if messages.last().role == MessageRole::System {
            rest
        } else {
            rest.push(messages.last())
        }
    }
}

proof fn lemma_system_text_prefix(messages: Seq<ChatMessage>, i: int)
    requires
        0 <= i <= messages.len(),
        forall|j: int| 0 <= j < i ==> (#[trigger] messages[j]).role != MessageRole::System,
    ensures
        system_text(messages) == system_text(messages.subrange(i, messages.len() as int)),
    decreases i,
{
    if i > 0 {
        lemma_system_text_prefix(messages, i - 1);
        let s = messages.subrange(i - 1, messages.len() as int);
        assert(s[0] == messages[i - 1]);
        assert(s.drop_first() =~= messages.subrange(i, messages.len() as int));
    } else {
        assert(messages.subrange(0, messages.len() as int) =~= messages);
    }
}

fn first_system_text(messages: &Vec<ChatMessage>) -> (r: String)
    ensures
        r@ == system_text(messages@),
{
    let mut i: usize = 0;
    while i < messages.len()
        invariant
            i <= messages.len(),
            forall|j: int| 0 <= j < i ==> (#[trigger] messages@[j]).role != MessageRole::System,
        decreases messages.len() - i,
    {
        if messages[i].role == MessageRole::System {
            proof {
                lemma_system_text_prefix(messages@, i as int);
                assert(messages@.subrange(i as int, messages@.len() as int)[0] == messages@[i as int]);
            }
            return messages[i].content.clone();
        }
        i += 1;
    }
    proof {
        lemma_system_text_prefix(messages@, i as int);
        assert(messages@.subrange(i as int, messages@.len() as int).len() == 0);
    }
    String::new()
}

/// Plans a messages request. Without an API key it fails with `Anthropic API Key 未配置`.
/// Otherwise: the configured model, at most 4096 tokens, the first system message's text
/// as the system text, and the other messages with their role names and contents.
pub fn messages_request(messages: &Vec<ChatMessage>, config: &LlmConfig) -> (r: Result<MessagesRequest, String>)
    ensures
        config.api_key is None <==> r is Err,
        r matches Err(e) ==> e@ == "Anthropic API Key 未配置"@,
        r matches Ok(q) ==> {
            &&& q.api_key@ == config.api_key->0@
            &&& q.model@ == config.model@
            &&& q.max_tokens == 4096
            &&& q.system@ == system_text(messages@)
            &&& q.messages@.len() == conversation(messages@).len()
            &&& forall|i: int|
                0 <= i < q.messages@.len() ==> carries(#[trigger] q.messages@[i], conversation(messages@)[i])
        },
{
    let api_key = match &config.api_key {
        Some(k) => k.clone(),
        None => {
            return Err(String::from_str("Anthropic API Key 未配置"));
        },
    };
    let system = first_system_text(messages);
    let mut out: Vec<WireMessage> = Vec::new();
    let mut i: usize = 0;
    while i < messages.len()
        invariant
            i <= messages.len(),
            out@.len() == conversation(messages@.take(i as int)).len(),
            forall|j: int|
                0 <= j < out@.len() ==> carries(#[trigger] out@[j], conversation(messages@.take(i as int))[j]),
        decreases messages.len() - i,
    {
        proof {
            assert(messages@.take(i + 1).drop_last() =~= messages@.take(i as int));
        }
        let m = &messages[i];
        if m.role != MessageRole::System {
            out.push(WireMessage { role: role_str(m.role), content: m.content.clone(), reasoning_content: None });
        }
        i += 1;
    }
    proof {
        assert(messages@.take(messages.len() as int) =~= messages@);
    }
    Ok(MessagesRequest { api_key, model: config.model.clone(), max_tokens: 4096, system, messages: out })
}

/// The texts of the content blocks that carry one, in order.
pub open spec fn present_texts(texts: Seq<Option<String>>) -> Seq<Seq<char>>
    decreases texts.len(),
{
    if texts.len() == 0 {
        Seq::empty()
    } else {
        let rest = present_texts(texts.drop_last());
        match texts.last() {
            Some(t) => rest.push(t@),
            None => rest,
        }
    }
}

/// The response of a messages reply, from the texts of its content blocks, its token
/// counts and its model: the present texts joined by line breaks, no reasoning, and the
/// total usage as the sum of the counts.
pub fn messages_response(texts: &Vec<Option<String>>, input_tokens: u32, output_tokens: u32, model: String) -> (r: LlmResponse)
    requires
        input_tokens + output_tokens <= u32::MAX,
    ensures
        r.content@ == joined(present_texts(texts@), "\n"@),
        r.reasoning is None,
        r.usage == (TokenUsage {
            prompt_tokens: input_tokens,
            completion_tokens: output_tokens,
            total_tokens: (input_tokens + output_tokens) as u32,
        }),
        r.model == model,
{
    let mut out = String::new();
    let mut found: usize = 0;
    let mut i: usize = 0;
    while i < texts.len()
        invariant
            i <= texts.len(),
            found == present_texts(texts@.take(i as int)).len(),
            found <= i,
            out@ == joined(present_texts(texts@.take(i as int)), "\n"@),
        decreases texts.len() - i,
    {
        proof {
            assert(texts@.take(i + 1).drop_last() =~= texts@.take(i as int));
        }
        match &texts[i] {
            Some(t) => {
                let ghost before = out@;
                proof {
                    lemma_joined_push(present_texts(texts@.take(i as int)), "\n"@, t@);
                }
                if found > 0 {
                    out.append("\n");
                }
                out.append(t.as_str());
                proof {
                    if found > 0 {
                        assert(out@ =~= before + "\n"@ + t@);
                    } else {
                        assert(out@ =~= before + t@);
                    }
                }
                found += 1;
            },
            None => {},
        }
        i += 1;
    }
    proof {
        assert(texts@.take(texts.len() as int) =~= texts@);
    }
    LlmResponse {
        content: out,
        reasoning: None,
        usage: TokenUsage {
            prompt_tokens: input_tokens,
            completion_tokens: output_tokens,
            total_tokens: input_tokens + output_tokens,
        },
        model,
    }
}

} // verus!
