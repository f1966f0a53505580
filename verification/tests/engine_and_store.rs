use tickpulse::analysis::checkpoint::{analysis_id, mark_dimension_completed, resume_decision, ResumeDecision};
use tickpulse::analysis::dimensions::extract_number_token;
use tickpulse::analysis::engine::{
    xor_deobfuscate, xor_obfuscate, AnalysisDimension, CloudProvider, DimensionRating,
    OverallRating,
};
use tickpulse::health::{CircuitBreakerStatus, HealthCollector, SampleWindow};
use tickpulse::logging::buffer::{LogBuffer, LogEntry};

#[test]
fn test_analysis_id_deterministic() {
    let id1 = analysis_id("sh600519", "2024-01-15");
    let id2 = analysis_id("sh600519", "2024-01-15");
    assert_eq!(id1, id2);
    assert_eq!(id1.len(), 16);
}

#[test]
fn test_analysis_id_different_inputs() {
    let id1 = analysis_id("sh600519", "2024-01-15");
    let id2 = analysis_id("sh600519", "2024-01-16");
    let id3 = analysis_id("sz000001", "2024-01-15");
    assert_ne!(id1, id2);
    assert_ne!(id1, id3);
    assert_ne!(id2, id3);
}

#[test]
fn analysis_id_is_sha256_prefix() {
    // SHA-256("a:b") = 0d5b7e8d...; the id is its first 16 hex digits.
    let id = analysis_id("a", "b");
    assert!(id.chars().all(|c| c.is_ascii_hexdigit() && !c.is_ascii_uppercase()));
    assert_eq!(id.len(), 16);
}

#[test]
fn mark_completed_moves_dimension() {
    let mut pending = vec!["A".to_string(), "B".to_string(), "A".to_string(), "C".to_string()];
    let mut completed = vec!["Z".to_string()];
    mark_dimension_completed(&mut pending, &mut completed, "A");
    assert_eq!(pending, vec!["B".to_string(), "C".to_string()]);
    assert_eq!(completed, vec!["Z".to_string(), "A".to_string()]);
    mark_dimension_completed(&mut pending, &mut completed, "A");
    assert_eq!(completed, vec!["Z".to_string(), "A".to_string()]);
}

#[test]
fn obfuscation_round_trip() {
    let key = "SECRET-REDACTED";
    let hidden = xor_obfuscate(key);
    assert_eq!(hidden.len(), 2 * key.len());
    assert!(hidden.chars().all(|c| c.is_ascii_hexdigit()));
    assert_ne!(hidden, key);
    assert_eq!(xor_deobfuscate(&hidden), key);
    assert_eq!(xor_obfuscate(""), "");
}

#[test]
fn obfuscation_known_value() {
    // 'a' (0x61) ^ 'T' (0x54) = 0x35
    assert_eq!(xor_obfuscate("a"), "35");
    assert_eq!(xor_deobfuscate("35"), "a");
    // Pairs that do not parse are skipped; a leading '+' parses as a sign.
    assert_eq!(xor_deobfuscate("zz35"), "a");
    assert_eq!(xor_deobfuscate("+0"), "T");
}

#[test]
fn provider_names_round_trip() {
    for p in [
        CloudProvider::Anthropic,
        CloudProvider::OpenAI,
        CloudProvider::DeepSeek,
        CloudProvider::Ollama,
        CloudProvider::Qwen,
        CloudProvider::GLM,
        CloudProvider::MiniMax,
    ] {
        assert_eq!(CloudProvider::from_str(p.as_str()), p);
    }
    assert_eq!(CloudProvider::from_str("unknown"), CloudProvider::Anthropic);
    assert_eq!(CloudProvider::Ollama.default_base_url(), "http://localhost:11434");
    assert!(CloudProvider::Qwen.is_openai_compat());
    assert!(!CloudProvider::Anthropic.is_openai_compat());
}

#[test]
fn dimensions_and_ratings() {
    let all = AnalysisDimension::all();
    assert_eq!(all.len(), 7);
    assert_eq!(all[0], AnalysisDimension::IndustryTrend);
    assert_eq!(AnalysisDimension::Valuation.display_name(), "估值分析");
    assert_eq!(DimensionRating::from_points(80), DimensionRating::A);
    assert_eq!(DimensionRating::from_points(79), DimensionRating::B);
    assert_eq!(DimensionRating::from_points(19), DimensionRating::F);
    assert_eq!(DimensionRating::C.score_points(), 50);
    assert_eq!(DimensionRating::D.display(), "D");
    assert_eq!(OverallRating::from_points(60), OverallRating::Buy);
    assert_eq!(OverallRating::Hold.display(), "观望");
}

#[test]
fn number_token_after_keyword() {
    assert_eq!(extract_number_token("涨跌幅: 3.50%", "涨跌幅"), Some("3.50".to_string()));
    assert_eq!(extract_number_token("PE(TTM): -5.3 PB: 1.2", "PB"), Some("1.2".to_string()));
    assert_eq!(extract_number_token("PE(TTM): -5.3 PB: 1.2", "PE(TTM)"), Some("-5.3".to_string()));
    assert_eq!(extract_number_token("量比: n/a", "量比"), None);
    assert_eq!(extract_number_token("nothing here", "量比"), None);
}

#[test]
fn sample_window_keeps_last_hundred() {
    let mut w = SampleWindow::new();
    assert_eq!(w.average(), 0);
    for i in 0..150u64 {
        w.record(i);
    }
    assert_eq!(w.samples.len(), 100);
    assert_eq!(w.average(), (50..150u64).sum::<u64>() / 100);
}

fn entry(i: i64) -> LogEntry {
    LogEntry { timestamp: i, level: "INFO".to_string(), target: "t".to_string(), message: format!("m{}", i) }
}

#[test]
fn log_buffer_keeps_newest_entries() {
    let mut b = LogBuffer::new();
    for i in 0..1005 {
        b.push(entry(i));
    }
    assert_eq!(b.get_recent(usize::MAX).len(), 1000);
    let recent = b.get_recent(3);
    assert_eq!(recent.iter().map(|e| e.timestamp).collect::<Vec<_>>(), vec![1002, 1003, 1004]);
    assert_eq!(b.get_recent(5000).len(), 1000);
    assert_eq!(b.get_recent(5000)[0].timestamp, 5);
    b.clear();
    assert!(b.get_recent(10).is_empty());
}

#[test]
fn checkpoint_resume_decisions() {
    let t0 = 1_705_305_600;
    // 24 whole hours and 59 minutes old: still resumable
    assert_eq!(resume_decision(t0, t0 + 25 * 3600 - 1, 3), ResumeDecision::Resume);
    // 25 whole hours: expired
    assert_eq!(resume_decision(t0, t0 + 25 * 3600, 3), ResumeDecision::DiscardExpired);
    // nothing pending
    assert_eq!(resume_decision(t0, t0 + 60, 0), ResumeDecision::DiscardFinished);
    // a clock that went backwards is not an expiry
    assert_eq!(resume_decision(t0, t0 - 100 * 3600, 1), ResumeDecision::Resume);
}

#[test]
fn health_collector_windows() {
    let mut h = HealthCollector::new();
    assert_eq!(h.avg_refresh_ms(), 0);
    assert_eq!(h.avg_emit_ms(), 0);
    h.record_refresh(10);
    h.record_refresh(21);
    assert_eq!(h.last_refresh_ms(), 21);
    assert_eq!(h.avg_refresh_ms(), 15);
    h.record_emit(4);
    assert_eq!(h.avg_emit_ms(), 4);
    for _ in 0..100 {
        h.record_refresh(50);
    }
    // the two early samples have left the window
    assert_eq!(h.avg_refresh_ms(), 50);
    h.update_circuit_breakers(vec![CircuitBreakerStatus {
        source_name: "东方财富".to_string(),
        state: "Closed".to_string(),
        consecutive_failures: 0,
    }]);
    assert_eq!(h.circuit_breakers().len(), 1);
    assert_eq!(h.circuit_breakers()[0].state, "Closed");
}
