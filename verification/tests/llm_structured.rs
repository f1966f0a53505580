use tickpulse::analysis::engine::{CloudProvider, DualLlmConfig, LlmConfig, LlmMode, TaskComplexity};
use tickpulse::analysis::llm::cost::{adjust_for_chinese, CostEstimator};
use tickpulse::analysis::llm::fallback::FallbackConfig;
use tickpulse::analysis::llm::json_extract::{
    dimension_output_candidates, extract_by_brace_matching, extract_from_code_fence,
    extract_json_from_text,
};
use tickpulse::analysis::llm::router::LlmRouter;
use tickpulse::analysis::llm::{adapt_request_for_deepseek, ChatMessage, MessageRole};
use tickpulse::analysis::schemas::{
    supports_structured_output, supports_structured_output_for_provider, StructuredOutputMode,
    TokenBudget,
};

#[test]
fn test_adjust_for_chinese_glm() {
    let tokens = adjust_for_chinese(CloudProvider::GLM, 1600);
    assert_eq!(tokens, 1000);
}

#[test]
fn test_adjust_for_chinese_qwen() {
    let tokens = adjust_for_chinese(CloudProvider::Qwen, 1500);
    assert_eq!(tokens, 1000);
}

#[test]
fn adjust_for_chinese_rounds_down_and_saturates() {
    assert_eq!(adjust_for_chinese(CloudProvider::OpenAI, 1000), 1250);
    assert_eq!(adjust_for_chinese(CloudProvider::Ollama, 7), 7);
    assert_eq!(adjust_for_chinese(CloudProvider::DeepSeek, 10), 6);
    assert_eq!(adjust_for_chinese(CloudProvider::GLM, 9), 5);
    assert_eq!(adjust_for_chinese(CloudProvider::Anthropic, usize::MAX), u32::MAX);
}

#[test]
fn test_pricing_deepseek() {
    let (input, output) = CostEstimator::pricing_tenths(CloudProvider::DeepSeek, "deepseek-chat");
    assert!(input > 0);
    assert!(output > 0);
}

#[test]
fn test_pricing_qwen() {
    let (input, output) = CostEstimator::pricing_tenths(CloudProvider::Qwen, "qwen-plus");
    assert!(input > 0);
    assert!(output > 0);
}

#[test]
fn test_pricing_ollama_free() {
    let (input, output) = CostEstimator::pricing_tenths(CloudProvider::Ollama, "llama3");
    assert_eq!(input, 0);
    assert_eq!(output, 0);
}

#[test]
fn pricing_table_values() {
    assert_eq!(CostEstimator::pricing_tenths(CloudProvider::Anthropic, "Big-Opus-4"), (1120, 5600));
    assert_eq!(CostEstimator::pricing_tenths(CloudProvider::Anthropic, "model-sonnet-4-6"), (210, 1050));
    assert_eq!(CostEstimator::pricing_tenths(CloudProvider::Anthropic, "haiku"), (14, 70));
    assert_eq!(CostEstimator::pricing_tenths(CloudProvider::OpenAI, "GPT-4o"), (210, 630));
    assert_eq!(CostEstimator::pricing_tenths(CloudProvider::DeepSeek, "deepseek-reasoner"), (20, 80));
    assert_eq!(CostEstimator::pricing_tenths(CloudProvider::Qwen, "qwen-turbo"), (3, 6));
    assert_eq!(CostEstimator::pricing_tenths(CloudProvider::GLM, "glm-4"), (70, 140));
    assert_eq!(CostEstimator::pricing_tenths(CloudProvider::GLM, "glm-flash"), (7, 7));
}

#[test]
fn test_extract_from_code_fence() {
    let text = "Here is the analysis:\n```json\n{\"rating\": \"A\", \"summary\": \"good\"}\n```\nThat's it.";
    let result = extract_json_from_text(text);
    assert!(result.is_some());
    let json = result.unwrap();
    assert!(json.contains("\"rating\""));
    assert!(json.contains("\"summary\""));
}

#[test]
fn test_extract_from_code_fence_no_block() {
    let text = "No code fence here, just plain text.";
    assert_eq!(extract_from_code_fence(text), None);
}

#[test]
fn test_extract_by_brace_matching() {
    let text = "The result is: {\"rating\": \"B\", \"summary\": \"average\", \"key_points\": []} and more text.";
    let result = extract_by_brace_matching(text);
    assert!(result.is_some());
    let json = result.unwrap();
    assert!(json.starts_with('{'));
    assert!(json.ends_with('}'));
}

#[test]
fn test_extract_by_brace_matching_nested() {
    let text = "Result: {\"outer\": {\"inner\": 1}, \"count\": 2}";
    let result = extract_by_brace_matching(text);
    assert!(result.is_some());
}

#[test]
fn test_extract_by_brace_matching_unbalanced() {
    let text = "Broken: {\"key\": \"value\" missing close";
    assert_eq!(extract_by_brace_matching(text), None);
}

#[test]
fn test_extract_json_priority() {
    let text = "```json\n{\"a\": 1}\n```\nAlso {\"b\": 2} here.";
    let result = extract_json_from_text(text);
    assert!(result.is_some());
    assert!(result.unwrap().contains("\"a\""));
}

#[test]
fn code_fence_body_is_trimmed_and_validated() {
    assert_eq!(extract_from_code_fence("x ```json  \n {\"k\": [1, 2]}  \n``` y"), Some("{\"k\": [1, 2]}".to_string()));
    assert_eq!(extract_from_code_fence("```json   ```"), None);
    assert_eq!(extract_from_code_fence("```json {not json} ```"), None);
    assert_eq!(extract_from_code_fence("```json {\"a\": 1}"), None);
}

#[test]
fn brace_matching_takes_first_balanced_block() {
    assert_eq!(extract_by_brace_matching("a {\"x\": {\"y\": 2}} b {\"z\": 3}"), Some("{\"x\": {\"y\": 2}}".to_string()));
    assert_eq!(extract_by_brace_matching("no braces"), None);
    assert_eq!(extract_by_brace_matching("{bad json}"), None);
}

#[test]
fn fence_falls_back_to_braces() {
    let text = "```json\nnot json\n``` then {\"b\": 2}";
    assert_eq!(extract_json_from_text(text), Some("{\"b\": 2}".to_string()));
}

#[test]
fn dimension_candidates_by_mode() {
    let err = dimension_output_candidates("plain", StructuredOutputMode::RawText).unwrap_err();
    assert!(err.contains("RawText"));
    let c = dimension_output_candidates("pre {\"a\": 1} post", StructuredOutputMode::Native).unwrap();
    assert_eq!(c, vec!["pre {\"a\": 1} post".to_string(), "{\"a\": 1}".to_string()]);
    let c = dimension_output_candidates("nothing", StructuredOutputMode::TextWithJsonExtract).unwrap();
    assert_eq!(c, vec!["nothing".to_string()]);
}

#[test]
fn test_structured_output_mode_deepseek_thinking() {
    let mode = StructuredOutputMode::resolve(CloudProvider::DeepSeek, "deepseek-reasoner", true);
    assert_eq!(mode, StructuredOutputMode::TextWithJsonExtract);
}

#[test]
fn test_structured_output_mode_deepseek_no_thinking() {
    let mode = StructuredOutputMode::resolve(CloudProvider::DeepSeek, "deepseek-chat", false);
    assert_eq!(mode, StructuredOutputMode::Native);
}

#[test]
fn test_structured_output_mode_qwen() {
    let mode = StructuredOutputMode::resolve(CloudProvider::Qwen, "qwen-plus", false);
    assert_eq!(mode, StructuredOutputMode::Native);
}

#[test]
fn test_structured_output_mode_glm() {
    let mode = StructuredOutputMode::resolve(CloudProvider::GLM, "glm-4", false);
    assert_eq!(mode, StructuredOutputMode::Native);
}

#[test]
fn test_structured_output_mode_minimax() {
    let mode = StructuredOutputMode::resolve(CloudProvider::MiniMax, "MiniMax-Text-01", false);
    assert_eq!(mode, StructuredOutputMode::Native);
}

#[test]
fn structured_output_mode_other_cases() {
    assert_eq!(StructuredOutputMode::resolve(CloudProvider::Ollama, "llama3", false), StructuredOutputMode::RawText);
    assert_eq!(StructuredOutputMode::resolve(CloudProvider::OpenAI, "gpt-3.5-turbo", false), StructuredOutputMode::TextWithJsonExtract);
    assert_eq!(StructuredOutputMode::resolve(CloudProvider::DeepSeek, "deepseek-reasoner", false), StructuredOutputMode::TextWithJsonExtract);
}

#[test]
fn test_supports_structured_output() {
    assert!(!supports_structured_output("deepseek-reasoner"));
    assert!(!supports_structured_output("DEEPSEEK-REASONER"));
    assert!(supports_structured_output("gpt-4"));
    assert!(supports_structured_output("deepseek-chat"));
    assert!(supports_structured_output("qwen-plus"));
    assert!(supports_structured_output("glm-4"));
}

#[test]
fn test_supports_structured_output_for_provider() {
    assert!(supports_structured_output_for_provider(CloudProvider::Qwen, "qwen-plus"));
    assert!(supports_structured_output_for_provider(CloudProvider::GLM, "glm-4"));
    assert!(supports_structured_output_for_provider(CloudProvider::MiniMax, "MiniMax-Text-01"));
    assert!(!supports_structured_output_for_provider(CloudProvider::Ollama, "llama3"));
}

#[test]
fn test_adapt_request_for_deepseek() {
    let mut messages = vec![
        ChatMessage { role: MessageRole::User, content: "Hello".to_string() },
        ChatMessage { role: MessageRole::Assistant, content: "Hi there".to_string() },
    ];
    adapt_request_for_deepseek(&mut messages, Some("My reasoning..."));
    assert!(messages[1].content.contains("[REASONING]"));
    assert!(messages[1].content.contains("My reasoning..."));
    assert!(messages[1].content.contains("Hi there"));
}

#[test]
fn adapt_request_exact_and_idempotent() {
    let mut messages = vec![
        ChatMessage { role: MessageRole::Assistant, content: "first".to_string() },
        ChatMessage { role: MessageRole::User, content: "q".to_string() },
        ChatMessage { role: MessageRole::Assistant, content: "second".to_string() },
        ChatMessage { role: MessageRole::User, content: "q2".to_string() },
    ];
    adapt_request_for_deepseek(&mut messages, Some("why"));
    assert_eq!(messages[2].content, "[REASONING]why[/REASONING]\nsecond");
    assert_eq!(messages[0].content, "first");
    adapt_request_for_deepseek(&mut messages, Some("again"));
    assert_eq!(messages[2].content, "[REASONING]why[/REASONING]\nsecond");
    adapt_request_for_deepseek(&mut messages, None);
    assert_eq!(messages[2].content, "[REASONING]why[/REASONING]\nsecond");
}

fn make_config(provider: CloudProvider, model: &str) -> LlmConfig {
    LlmConfig {
        provider,
        api_key: Some("test-key".to_string()),
        model: model.to_string(),
        base_url: None,
        mode: LlmMode::Cloud,
        thinking_enabled: false,
    }
}

#[test]
fn test_router_config_for_complexity_quick() {
    let quick = make_config(CloudProvider::DeepSeek, "deepseek-chat");
    let _dual = DualLlmConfig::from_single(quick.clone());
    let router = LlmRouter::from_single(quick);
    let config = router.config_for_complexity(TaskComplexity::Quick);
    assert_eq!(config.model, "deepseek-chat");
}

#[test]
fn test_router_config_for_complexity_deep_fallback() {
    let quick = make_config(CloudProvider::DeepSeek, "deepseek-chat");
    let dual = DualLlmConfig::from_single(quick);
    let router = LlmRouter::from_single(dual.quick_think.clone());
    let config = router.config_for_complexity(TaskComplexity::Deep);
    assert_eq!(config.model, "deepseek-chat");
}

#[test]
fn test_router_config_for_complexity_deep_configured() {
    let quick = make_config(CloudProvider::DeepSeek, "deepseek-chat");
    let deep = make_config(CloudProvider::DeepSeek, "deepseek-reasoner");
    let dual = DualLlmConfig { quick_think: quick, deep_think: Some(deep) };
    let router = LlmRouter::new(dual, FallbackConfig::default());
    let config = router.config_for_complexity(TaskComplexity::Deep);
    assert_eq!(config.model, "deepseek-reasoner");
}

#[test]
fn test_router_structured_mode() {
    let quick = make_config(CloudProvider::Qwen, "qwen-plus");
    let dual = DualLlmConfig::from_single(quick);
    let router = LlmRouter::from_single(dual.quick_think);
    let mode = router.structured_mode(TaskComplexity::Quick);
    assert_eq!(mode, StructuredOutputMode::Native);
}

#[test]
fn test_router_structured_mode_deepseek_thinking() {
    let quick = LlmConfig {
        provider: CloudProvider::DeepSeek,
        api_key: Some("test-key".to_string()),
        model: "deepseek-reasoner".to_string(),
        base_url: None,
        mode: LlmMode::Cloud,
        thinking_enabled: true,
    };
    let dual = DualLlmConfig::from_single(quick);
    let router = LlmRouter::from_single(dual.quick_think);
    let mode = router.structured_mode(TaskComplexity::Quick);
    assert_eq!(mode, StructuredOutputMode::TextWithJsonExtract);
}

#[test]
fn router_uses_chain_only_with_several_providers() {
    let router = LlmRouter::from_single(make_config(CloudProvider::Qwen, "qwen-plus"));
    assert!(!router.uses_fallback_chain());
    let mut fb = FallbackConfig::default();
    fb.chain.push(make_config(CloudProvider::Qwen, "qwen-plus"));
    fb.chain.push(make_config(CloudProvider::Ollama, "llama3"));
    let router = LlmRouter::new(DualLlmConfig::from_single(make_config(CloudProvider::Qwen, "qwen-plus")), fb);
    assert!(router.uses_fallback_chain());
}

#[test]
fn token_budget_allocation() {
    let b = TokenBudget::default_budget();
    assert_eq!(b.total_tokens, 100_000);
    assert_eq!(b.system_prompt_tokens, 10_000);
    assert_eq!(b.debate_tokens, 20_000);
    assert_eq!(b.summary_tokens, 10_000);
    assert_eq!(b.per_dimension_tokens, 60_000 / 7);
    let z = TokenBudget::allocate(1000, 0);
    assert_eq!(z.per_dimension_tokens, 600);
    assert!(b.system_prompt_tokens + b.debate_tokens + b.summary_tokens + 7 * b.per_dimension_tokens <= b.total_tokens);
}
