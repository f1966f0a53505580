use tickpulse::analysis::engine::{CloudProvider, LlmConfig, LlmMode};
use tickpulse::analysis::llm::fallback::{
    classify_error, FallbackAction, FallbackConfig, FallbackState, LlmErrorKind,
};

#[test]
fn test_classify_error_permanent() {
    assert_eq!(classify_error("API 错误 (401): Unauthorized"), LlmErrorKind::Permanent);
    assert_eq!(classify_error("API 错误 (403): Forbidden"), LlmErrorKind::Permanent);
    assert_eq!(classify_error("API 错误 (400): Bad Request"), LlmErrorKind::Permanent);
}

#[test]
fn test_classify_error_transient() {
    assert_eq!(classify_error("API 错误 (429): Rate limit exceeded"), LlmErrorKind::Transient);
    assert_eq!(classify_error("API 错误 (500): Internal Server Error"), LlmErrorKind::Transient);
    assert_eq!(classify_error("API 错误 (502): Bad Gateway"), LlmErrorKind::Transient);
    assert_eq!(classify_error("API 错误 (503): Service Unavailable"), LlmErrorKind::Transient);
}

#[test]
fn test_classify_error_network() {
    assert_eq!(classify_error("connection refused"), LlmErrorKind::Network);
    assert_eq!(classify_error("DNS resolution failed"), LlmErrorKind::Network);
    assert_eq!(classify_error("request timeout"), LlmErrorKind::Network);
}

#[test]
fn test_classify_error_default() {
    assert_eq!(classify_error("some unknown error"), LlmErrorKind::Transient);
}

#[test]
fn test_fallback_config_default() {
    let config = FallbackConfig::default();
    assert!(config.chain.is_empty());
    assert_eq!(config.max_retries_per_provider, 2);
    assert_eq!(config.timeout_secs, 60);
}

fn config(provider: CloudProvider, model: &str) -> LlmConfig {
    LlmConfig {
        provider,
        api_key: Some("k".to_string()),
        model: model.to_string(),
        base_url: None,
        mode: LlmMode::Cloud,
        thinking_enabled: false,
    }
}

#[test]
fn fallback_from_single_holds_one_provider() {
    let c = FallbackConfig::from_single(config(CloudProvider::Qwen, "qwen-plus"));
    assert_eq!(c.chain.len(), 1);
    assert_eq!(c.chain[0].model, "qwen-plus");
    assert_eq!(c.max_retries_per_provider, 2);
}

fn call(a: &FallbackAction) -> (usize, u64) {
    match a {
        FallbackAction::Call { provider, delay_secs } => (*provider, *delay_secs),
        FallbackAction::GiveUp(m) => panic!("unexpected give-up: {}", m),
    }
}

#[test]
fn empty_chain_gives_up() {
    let (_, a) = FallbackState::start(0, 2);
    match a {
        FallbackAction::GiveUp(m) => assert_eq!(m, "降级链为空，无可用 LLM 客户端"),
        _ => panic!("expected give-up"),
    }
}

#[test]
fn transient_errors_retry_with_backoff_then_fall_back() {
    let (mut s, a) = FallbackState::start(2, 2);
    assert_eq!(call(&a), (0, 0));
    let a = s.on_failure("API 错误 (503): Service Unavailable".to_string());
    assert_eq!(call(&a), (0, 1));
    let a = s.on_failure("still failing".to_string());
    assert_eq!(call(&a), (0, 2));
    let a = s.on_failure("still failing".to_string());
    assert_eq!(call(&a), (1, 0));
    let a = s.on_failure("API 错误 (401): Unauthorized".to_string());
    match a {
        FallbackAction::GiveUp(m) => {
            assert_eq!(m, "所有供应商均失败，最后一个错误: API 错误 (401): Unauthorized")
        }
        _ => panic!("expected give-up"),
    }
}

#[test]
fn permanent_and_network_errors_skip_provider() {
    let (mut s, _) = FallbackState::start(3, 2);
    let a = s.on_failure("API 错误 (403): Forbidden".to_string());
    assert_eq!(call(&a), (1, 0));
    let a = s.on_failure("connection refused".to_string());
    assert_eq!(call(&a), (2, 0));
}

#[test]
fn retry_delays_double_up_to_sixteen_seconds() {
    let (mut s, _) = FallbackState::start(1, 7);
    let mut delays = Vec::new();
    let mut a = s.on_failure("429 rate limit".to_string());
    loop {
        match a {
            FallbackAction::Call { delay_secs, .. } => delays.push(delay_secs),
            FallbackAction::GiveUp(_) => break,
        }
        a = s.on_failure("again".to_string());
    }
    assert_eq!(delays, vec![1, 2, 4, 8, 16, 16, 16]);
}

#[test]
fn call_budget_is_providers_times_attempts() {
    let (mut s, mut a) = FallbackState::start(3, 2);
    let mut calls = 0;
    loop {
        match a {
            FallbackAction::Call { .. } => calls += 1,
            FallbackAction::GiveUp(_) => break,
        }
        a = s.on_failure("500 server error".to_string());
    }
    assert_eq!(calls, 9);
}
