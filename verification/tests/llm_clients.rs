use tickpulse::analysis::engine::{
    has_llm_access, AnalysisDimension, CloudProvider, DimensionRating, LlmConfig, LlmMode,
};
use tickpulse::analysis::llm::json_extract::keeps_raw_reply;
use tickpulse::analysis::llm::anthropic::{messages_request, messages_response};
use tickpulse::analysis::llm::ollama::{local_chat_request, local_chat_response};
use tickpulse::analysis::llm::openai_compat::{
    adapt_response, completion_request, completion_response, messages_to_deepseek_format,
    messages_to_standard_format, CompletionReply, ReplyBlock, ReplyContent, ReplyMessage,
    ReplyUsage,
};
use tickpulse::analysis::llm::{
    create_client, generation_request, ChatMessage, ClientKind, MessageRole, MockLlmClient,
};
use tickpulse::analysis::schemas::StructuredOutputMode;

fn config(provider: CloudProvider, key: Option<&str>) -> LlmConfig {
    LlmConfig {
        provider,
        api_key: key.map(|k| k.to_string()),
        model: "m".to_string(),
        base_url: None,
        mode: LlmMode::Cloud,
        thinking_enabled: false,
    }
}

#[test]
fn client_kind_per_provider() {
    assert_eq!(create_client(&config(CloudProvider::Anthropic, None)), ClientKind::Anthropic);
    assert_eq!(create_client(&config(CloudProvider::OpenAI, None)), ClientKind::OpenAICompat);
    assert_eq!(create_client(&config(CloudProvider::DeepSeek, None)), ClientKind::OpenAICompat);
    assert_eq!(create_client(&config(CloudProvider::Qwen, None)), ClientKind::OpenAICompat);
    assert_eq!(create_client(&config(CloudProvider::GLM, None)), ClientKind::OpenAICompat);
    assert_eq!(create_client(&config(CloudProvider::MiniMax, None)), ClientKind::OpenAICompat);
    assert_eq!(create_client(&config(CloudProvider::Ollama, None)), ClientKind::Ollama);
}

#[test]
fn generation_request_shape() {
    let (messages, cfg) = generation_request("复审这份报告");
    assert_eq!(messages.len(), 1);
    assert_eq!(messages[0].role, MessageRole::User);
    assert_eq!(messages[0].content, "复审这份报告");
    assert_eq!(cfg.provider, CloudProvider::Anthropic);
    assert_eq!(cfg.model, "default");
    assert!(cfg.api_key.is_none() && cfg.base_url.is_none());
    assert_eq!(cfg.mode, LlmMode::Cloud);
    assert!(!cfg.thinking_enabled);
}

#[test]
fn mock_client_answers_fixed_report() {
    let mock = MockLlmClient;
    let r = mock.respond();
    assert!(r.content.starts_with("{\"dimension\":\"FinancialHealth\""));
    assert!(r.content.contains("\"confidence\":0.75"));
    assert!(r.reasoning.is_none());
    assert_eq!(r.usage.total_tokens, 0);
    assert_eq!(r.model, "mock");
    assert_eq!(mock.provider_name(), "mock");
}

#[test]
fn wire_messages_keep_roles_and_content() {
    let messages = vec![
        ChatMessage { role: MessageRole::System, content: "sys".to_string() },
        ChatMessage { role: MessageRole::User, content: "hi".to_string() },
        ChatMessage {
            role: MessageRole::Assistant,
            content: "[REASONING]think[/REASONING]\nanswer".to_string(),
        },
    ];
    let std_form = messages_to_standard_format(&messages);
    let ds_form = messages_to_deepseek_format(&messages);
    assert_eq!(std_form.len(), 3);
    assert_eq!(std_form[0].role, "system");
    assert_eq!(std_form[1].role, "user");
    assert_eq!(std_form[2].role, "assistant");
    assert_eq!(ds_form[2].content, "[REASONING]think[/REASONING]\nanswer");
    assert!(ds_form.iter().all(|w| w.reasoning_content.is_none()));
}

#[test]
fn llm_access_needs_key_or_ollama() {
    assert!(!has_llm_access(&config(CloudProvider::DeepSeek, None)));
    assert!(has_llm_access(&config(CloudProvider::DeepSeek, Some("k"))));
    assert!(has_llm_access(&config(CloudProvider::Ollama, None)));
}

#[test]
fn dimension_keys_round_trip() {
    for d in AnalysisDimension::all() {
        assert_eq!(AnalysisDimension::from_key(d.key()), d);
        assert_eq!(d.key(), format!("{:?}", d));
    }
    assert_eq!(AnalysisDimension::from_key("Unknown"), AnalysisDimension::IndustryTrend);
}

#[test]
fn rating_from_llm_letter() {
    assert_eq!(DimensionRating::from_letter("A"), DimensionRating::A);
    assert_eq!(DimensionRating::from_letter("B"), DimensionRating::B);
    assert_eq!(DimensionRating::from_letter("C"), DimensionRating::C);
    assert_eq!(DimensionRating::from_letter("D"), DimensionRating::D);
    assert_eq!(DimensionRating::from_letter("F"), DimensionRating::F);
    assert_eq!(DimensionRating::from_letter("A+"), DimensionRating::C);
}

#[test]
fn raw_reply_kept_only_in_raw_mode() {
    assert!(keeps_raw_reply("some analysis", StructuredOutputMode::RawText));
    assert!(!keeps_raw_reply("  \n ", StructuredOutputMode::RawText));
    assert!(!keeps_raw_reply("some analysis", StructuredOutputMode::Native));
}

fn msg(role: MessageRole, content: &str) -> ChatMessage {
    ChatMessage { role, content: content.to_string() }
}

fn reply_with(content: ReplyContent, reasoning: Option<&str>) -> CompletionReply {
    CompletionReply {
        message: Some(ReplyMessage { content, reasoning_content: reasoning.map(|r| r.to_string()) }),
        usage: None,
        model: None,
    }
}

#[test]
fn test_adapt_response_with_reasoning() {
    let response = CompletionReply {
        message: Some(ReplyMessage {
            content: ReplyContent::Text("Final answer".to_string()),
            reasoning_content: Some("Thinking process...".to_string()),
        }),
        usage: Some(ReplyUsage { prompt_tokens: Some(100), completion_tokens: Some(50), total_tokens: Some(150) }),
        model: Some("deepseek-reasoner".to_string()),
    };

    let (content, reasoning) = adapt_response(&response);

    assert_eq!(content, "Final answer");
    assert_eq!(reasoning, Some("Thinking process...".to_string()));
}

#[test]
fn typed_blocks_become_content() {
    let blocks = vec![
        ReplyBlock { kind: Some("text".to_string()), text: Some("one".to_string()) },
        ReplyBlock { kind: Some("tool_use".to_string()), text: Some("skip".to_string()) },
        ReplyBlock { kind: Some("text".to_string()), text: None },
        ReplyBlock { kind: Some("text".to_string()), text: Some("two".to_string()) },
    ];
    assert_eq!(adapt_response(&reply_with(ReplyContent::Blocks(blocks), None)), ("one\ntwo".to_string(), None));
    assert_eq!(adapt_response(&reply_with(ReplyContent::Other, Some("r"))), (String::new(), Some("r".to_string())));
    assert_eq!(adapt_response(&reply_with(ReplyContent::Text(String::new()), None)), (String::new(), None));
    let empty = CompletionReply { message: None, usage: None, model: None };
    assert_eq!(adapt_response(&empty), (String::new(), None));
}

#[test]
fn completion_response_usage_and_model() {
    let mut reply = reply_with(ReplyContent::Text("x".to_string()), None);
    let r = completion_response(&reply, "asked");
    assert_eq!(r.model, "asked");
    assert_eq!((r.usage.prompt_tokens, r.usage.completion_tokens, r.usage.total_tokens), (0, 0, 0));
    reply.model = Some("served".to_string());
    reply.usage = Some(ReplyUsage {
        prompt_tokens: Some(7),
        completion_tokens: None,
        total_tokens: Some((1u64 << 32) + 5),
    });
    let r = completion_response(&reply, "asked");
    assert_eq!(r.model, "served");
    assert_eq!(r.content, "x");
    assert_eq!((r.usage.prompt_tokens, r.usage.completion_tokens, r.usage.total_tokens), (7, 0, 5));
}

#[test]
fn completion_request_plans_body() {
    let messages = vec![msg(MessageRole::System, "s"), msg(MessageRole::User, "u")];
    assert_eq!(
        completion_request(&messages, &config(CloudProvider::OpenAI, None)).err(),
        Some("API Key 未配置".to_string())
    );
    let mut c = config(CloudProvider::OpenAI, Some("k1"));
    c.model = "gpt-4o".to_string();
    let q = completion_request(&messages, &c).unwrap();
    assert_eq!(q.url, "https://api.openai.com/v1/chat/completions");
    assert_eq!(q.authorization, "Bearer k1");
    assert_eq!(q.model, "gpt-4o");
    assert_eq!(q.max_tokens, 4096);
    assert_eq!(q.messages.len(), 2);
    assert_eq!(q.messages[0].role, "system");
    assert!(q.json_response);
    assert_eq!(q.reasoning_effort, None);

    c.model = "gpt-3.5-turbo".to_string();
    c.base_url = Some("http://proxy".to_string());
    let q = completion_request(&messages, &c).unwrap();
    assert_eq!(q.url, "http://proxy/chat/completions");
    assert!(!q.json_response);

    let mut d = config(CloudProvider::DeepSeek, Some("k2"));
    d.thinking_enabled = true;
    let q = completion_request(&messages, &d).unwrap();
    assert_eq!(q.url, "https://api.deepseek.com/v1/chat/completions");
    assert_eq!(q.reasoning_effort, Some("high"));
    assert!(!q.json_response);
}

#[test]
fn anthropic_request_splits_system() {
    let messages = vec![
        msg(MessageRole::User, "hi"),
        msg(MessageRole::System, "first"),
        msg(MessageRole::Assistant, "hello"),
        msg(MessageRole::System, "second"),
    ];
    assert_eq!(
        messages_request(&messages, &config(CloudProvider::Anthropic, None)).err(),
        Some("Anthropic API Key 未配置".to_string())
    );
    let q = messages_request(&messages, &config(CloudProvider::Anthropic, Some("ak"))).unwrap();
    assert_eq!(q.api_key, "ak");
    assert_eq!(q.system, "first");
    assert_eq!(q.max_tokens, 4096);
    let roles: Vec<&str> = q.messages.iter().map(|m| m.role).collect();
    assert_eq!(roles, vec!["user", "assistant"]);
    assert_eq!(q.messages[1].content, "hello");
    let none = messages_request(&vec![msg(MessageRole::User, "x")], &config(CloudProvider::Anthropic, Some("ak")));
    assert_eq!(none.unwrap().system, "");

    let r = messages_response(&vec![Some("a".to_string()), None, Some("b".to_string())], 3, 4, "m".to_string());
    assert_eq!(r.content, "a\nb");
    assert_eq!(r.usage.total_tokens, 7);
    assert_eq!(r.reasoning, None);
}

#[test]
fn ollama_request_and_response() {
    let mut c = config(CloudProvider::Ollama, None);
    let q = local_chat_request(&vec![msg(MessageRole::User, "x")], &c);
    assert_eq!(q.url, "http://localhost:11434/api/chat");
    assert!(!q.stream);
    c.base_url = Some("http://gpu:1".to_string());
    assert_eq!(local_chat_request(&vec![], &c).url, "http://gpu:1/api/chat");
    let r = local_chat_response("c".to_string(), "llama".to_string(), Some(2), None);
    assert_eq!((r.usage.prompt_tokens, r.usage.completion_tokens, r.usage.total_tokens), (2, 0, 2));
    assert_eq!(r.model, "llama");
}
