use tickpulse::analysis::auto_trigger::{
    after_hours_analysis_due, anomaly_warrants_analysis, should_trigger_at, AnomalyType,
    AutoTriggerConfig,
};
use tickpulse::analysis::decision_memory::DecisionStatus;

#[test]
fn test_anomaly_type_should_trigger() {
    assert!(AnomalyType::LimitUpSealed.should_trigger_analysis());
    assert!(AnomalyType::VolumeRatioSpike.should_trigger_analysis());
    assert!(!AnomalyType::LimitDownSealed.should_trigger_analysis());
    assert!(!AnomalyType::LimitUpBroken.should_trigger_analysis());
}

#[test]
fn test_anomaly_type_from_str() {
    assert_eq!(
        AnomalyType::from_str("limit_up_sealed"),
        Some(AnomalyType::LimitUpSealed)
    );
    assert_eq!(
        AnomalyType::from_str("volume_ratio_spike"),
        Some(AnomalyType::VolumeRatioSpike)
    );
    assert_eq!(AnomalyType::from_str("unknown"), None);
}

#[test]
fn auto_trigger_test_default_config() {
    let config = AutoTriggerConfig::default();
    assert!(config.enable_post_market);
    assert!(config.enable_anomaly_trigger);
    assert_eq!(config.post_market_hour, 15);
    assert_eq!(config.post_market_minute, 30);
    assert_eq!(config.max_daily_analysis, 50);
}

#[test]
fn anomaly_names_round_trip() {
    for a in [
        AnomalyType::LimitUpSealed,
        AnomalyType::LimitDownSealed,
        AnomalyType::LimitUpBroken,
        AnomalyType::LimitDownBroken,
        AnomalyType::VolumeRatioSpike,
    ] {
        assert_eq!(AnomalyType::from_str(a.as_str()), Some(a));
    }
}

#[test]
fn default_config_lists_trigger_worthy_anomalies() {
    let config = AutoTriggerConfig::default();
    assert_eq!(config.anomaly_types, vec!["limit_up_sealed".to_string(), "volume_ratio_spike".to_string()]);
}

#[test]
fn anomaly_warrants_analysis_by_name() {
    assert!(anomaly_warrants_analysis("limit_up_sealed"));
    assert!(anomaly_warrants_analysis("volume_ratio_spike"));
    assert!(!anomaly_warrants_analysis("limit_down_broken"));
    assert!(!anomaly_warrants_analysis("nonsense"));
}

#[test]
fn after_hours_analysis_timing() {
    let none: Option<String> = None;
    assert!(!after_hours_analysis_due(false, 16, 0, "2024-06-03", &none));
    assert!(!after_hours_analysis_due(true, 15, 29, "2024-06-03", &none));
    assert!(after_hours_analysis_due(true, 15, 30, "2024-06-03", &none));
    assert!(after_hours_analysis_due(true, 21, 0, "2024-06-03", &none));
    let today = Some("2024-06-03".to_string());
    assert!(!after_hours_analysis_due(true, 16, 0, "2024-06-03", &today));
    let yesterday = Some("2024-06-02".to_string());
    assert!(after_hours_analysis_due(true, 16, 0, "2024-06-03", &yesterday));
}

#[test]
fn scheduler_trigger_window() {
    let none: Option<String> = None;
    assert!(!should_trigger_at(true, 15, 29, "2024-06-03", &none));
    assert!(should_trigger_at(true, 15, 30, "2024-06-03", &none));
    assert!(should_trigger_at(true, 17, 59, "2024-06-03", &none));
    assert!(!should_trigger_at(true, 18, 0, "2024-06-03", &none));
    assert!(!should_trigger_at(false, 16, 0, "2024-06-03", &none));
    let today = Some("2024-06-03".to_string());
    assert!(!should_trigger_at(true, 16, 0, "2024-06-03", &today));
}

#[test]
fn decision_status_round_trip() {
    assert_eq!(DecisionStatus::Pending.as_str(), "pending");
    assert_eq!(DecisionStatus::Reflected.as_str(), "reflected");
    assert_eq!(DecisionStatus::from_str("reflected"), DecisionStatus::Reflected);
    assert_eq!(DecisionStatus::from_str("pending"), DecisionStatus::Pending);
    assert_eq!(DecisionStatus::from_str("garbage"), DecisionStatus::Pending);
}
