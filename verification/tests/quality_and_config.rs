use tickpulse::analysis::engine::AnalysisDimension;
use tickpulse::analysis::llm::MockLlmClient;
use tickpulse::analysis::quality_gate::{
    confidence_percent, confidence_tenths_total, hard_check_summary, review_prompt, QualityGate,
    QualityGrade,
};
use tickpulse::config::{validate_secid, validate_secid_or_error};

#[test]
fn test_grade_is_acceptable() {
    assert!(QualityGrade::A.is_acceptable());
    assert!(QualityGrade::B.is_acceptable());
    assert!(QualityGrade::C.is_acceptable());
    assert!(!QualityGrade::D.is_acceptable());
    assert!(!QualityGrade::F.is_acceptable());
}

#[test]
fn test_grade_should_downgrade_weight() {
    assert!(!QualityGrade::A.should_downgrade_weight());
    assert!(!QualityGrade::B.should_downgrade_weight());
    assert!(!QualityGrade::C.should_downgrade_weight());
    assert!(QualityGrade::D.should_downgrade_weight());
    assert!(QualityGrade::F.should_downgrade_weight());
}

#[test]
fn quality_grade_from_points() {
    assert_eq!(QualityGrade::from_points(95), QualityGrade::A);
    assert_eq!(QualityGrade::from_points(90), QualityGrade::A);
    assert_eq!(QualityGrade::from_points(89), QualityGrade::B);
    assert_eq!(QualityGrade::from_points(75), QualityGrade::B);
    assert_eq!(QualityGrade::from_points(60), QualityGrade::C);
    assert_eq!(QualityGrade::from_points(40), QualityGrade::D);
    assert_eq!(QualityGrade::from_points(39), QualityGrade::F);
    assert_eq!(QualityGrade::A.display(), "A (优秀)");
    assert_eq!(QualityGrade::D.confidence_tenths(), 3);
}

#[test]
fn test_hard_check_empty_summary() {
    assert_eq!(hard_check_summary(""), QualityGrade::F);
    assert_eq!(hard_check_summary("   "), QualityGrade::F);
}

#[test]
fn test_hard_check_failure_markers() {
    assert_eq!(hard_check_summary("无法获取数据，请稍后重试"), QualityGrade::D);
    assert_eq!(hard_check_summary("I cannot retrieve the data at this time"), QualityGrade::D);
    assert_eq!(hard_check_summary("工具调用失败，请检查网络连接"), QualityGrade::D);
}

#[test]
fn test_hard_check_too_short() {
    assert_eq!(hard_check_summary("技术面分析显示股价上涨。"), QualityGrade::D);
}

#[test]
fn test_hard_check_missing_data_c_grade() {
    let summary = "技术分析结果：\n\
            1. [数据缺失: K线数据]\n\
            2. [数据缺失: MACD指标]\n\
            3. [数据缺失: 成交量]\n\
            综合判断为中性。";
    assert_eq!(hard_check_summary(summary), QualityGrade::C);
}

#[test]
fn test_hard_check_missing_data_b_grade() {
    let summary = "技术分析结果：\n\
            1. K线形态：上升趋势\n\
            2. [数据缺失: MACD指标]\n\
            3. 成交量：放量\n\
            综合判断为看多。";
    assert_eq!(hard_check_summary(summary), QualityGrade::B);
}

#[test]
fn test_hard_check_no_table_b_grade() {
    let summary = "技术分析结果显示当前趋势向上，成交量放大，MACD金叉形成，建议关注。\
            支撑位在10元附近，压力位在15元附近。";
    assert_eq!(hard_check_summary(summary), QualityGrade::B);
}

#[test]
fn test_hard_check_grade_a() {
    let summary = "技术分析结果：\n\n\
            | 指标 | 数值 | 判断 |\n\
            | --- | --- | --- |\n\
            | MACD | 金叉 | 看多 |\n\
            | KDJ | 超买区 | 谨慎 |\n\
            | 成交量 | 放量 | 确认趋势 |\n\n\
            综合判断：看多，建议逢低建仓。";
    assert_eq!(hard_check_summary(summary), QualityGrade::A);
}

#[test]
fn hard_check_length_is_counted_in_characters() {
    // 22 CJK characters (66 bytes) are still too short.
    assert_eq!(hard_check_summary("技术面偏强成交量放大均线多头排列资金持续流入"), QualityGrade::D);
    let gate = QualityGate::new(MockLlmClient);
    assert_eq!(gate.hard_check("技术面偏强成交量放大均线多头排列资金持续流入"), QualityGrade::D);
    // 50 CJK characters are long enough, but hold no table.
    assert_eq!(hard_check_summary(&"一".repeat(50)), QualityGrade::B);
    // 49 ASCII characters are too short.
    assert_eq!(hard_check_summary(&"a".repeat(49)), QualityGrade::D);
    assert_eq!(hard_check_summary("\u{3000}\t\n"), QualityGrade::F);
}

#[test]
fn test_valid_secids() {
    assert!(validate_secid("1.600519"));
    assert!(validate_secid("0.000001"));
    assert!(validate_secid("0.399006"));
    assert!(validate_secid("116.HK00700"));
    assert!(validate_secid("1.688981"));
}

#[test]
fn test_invalid_secids() {
    assert!(!validate_secid(""));
    assert!(!validate_secid("600519"));
    assert!(!validate_secid("1."));
    assert!(!validate_secid(".600519"));
    assert!(!validate_secid("1.600519<script>"));
    assert!(!validate_secid("'; DROP TABLE positions;--"));
}

#[test]
fn secid_error_message() {
    assert_eq!(validate_secid_or_error("1.600519"), Ok(()));
    assert_eq!(
        validate_secid_or_error("bad"),
        Err("非法证券ID格式: 'bad', 期望格式: 市场编号.股票代码 (如 1.600519)".to_string())
    );
    assert!(!validate_secid("1234.5"));
    assert!(!validate_secid("1.12345678901"));
    assert!(validate_secid("1.1234567890"));
}

fn grade_table(entries: &[(&str, QualityGrade)]) -> Vec<(String, QualityGrade)> {
    entries.iter().map(|(k, g)| (k.to_string(), *g)).collect()
}

#[test]
fn test_generate_quality_prompt() {
    let gate = QualityGate::new(std::sync::Arc::new(MockLlmClient));
    let grades = grade_table(&[
        ("Technical", QualityGrade::A),
        ("News", QualityGrade::D),
        ("Fundamentals", QualityGrade::B),
    ]);

    let prompt = gate.generate_quality_prompt(&grades);
    assert!(prompt.contains("数据质量门控结果"));
    assert!(prompt.contains("Technical: A (优秀)"));
    assert!(prompt.contains("News: D (较差)"));
    assert!(prompt.contains("降低权重"));
}

#[test]
fn quality_prompt_exact_text() {
    let gate = QualityGate::new(MockLlmClient);
    assert_eq!(gate.generate_quality_prompt(&Vec::new()), "");
    let grades = grade_table(&[
        ("Technical", QualityGrade::A),
        ("News", QualityGrade::D),
        ("Fundamentals", QualityGrade::F),
    ]);
    // (10 + 3 + 0) tenths over three entries: 43.33 %, shown as 43 %.
    assert_eq!(
        gate.generate_quality_prompt(&grades),
        "\n\n**数据质量门控结果**：\nTechnical: A (优秀) | News: D (较差) | Fundamentals: F (不合格)\n整体数据可信度: 43%\n\n**注意**：以下维度数据不可靠，决策时请降低权重：News, Fundamentals\n"
    );
    let good = grade_table(&[("Technical", QualityGrade::A), ("News", QualityGrade::B)]);
    let text = gate.generate_quality_prompt(&good);
    assert!(text.ends_with("整体数据可信度: 90%\n"));
    assert!(!text.contains("降低权重"));
}

#[test]
fn confidence_percent_rounds_halves_to_even() {
    let grades = grade_table(&[
        ("a", QualityGrade::A),
        ("b", QualityGrade::B),
        ("c", QualityGrade::C),
    ]);
    assert_eq!(confidence_tenths_total(&grades), 24);
    assert_eq!(confidence_percent(&grades), 80);
    // 3 tenths over four entries: 7.5 %, a half, rounded to the even 8.
    let grades = grade_table(&[
        ("a", QualityGrade::D),
        ("b", QualityGrade::F),
        ("c", QualityGrade::F),
        ("d", QualityGrade::F),
    ]);
    assert_eq!(confidence_percent(&grades), 8);
    assert_eq!(confidence_percent(&grade_table(&[("a", QualityGrade::A)])), 100);
    assert_eq!(confidence_percent(&Vec::new()), 0);
}

#[test]
fn quality_gate_assess_counts_and_reviews() {
    let gate = QualityGate::new(MockLlmClient);
    let table = "技术分析结果：\n\n| 指标 | 数值 |\n| --- | --- |\n| MACD | 金叉 |\n综合判断：看多，建议逢低建仓。";
    let reports = vec![
        (AnalysisDimension::TechnicalSignals, table.to_string()),
        (AnalysisDimension::Valuation, "无法获取数据".to_string()),
        (AnalysisDimension::FinancialHealth, String::new()),
    ];
    let a = gate.assess(&reports);
    assert_eq!(
        a.grades,
        grade_table(&[
            ("TechnicalSignals", QualityGrade::A),
            ("Valuation", QualityGrade::D),
            ("FinancialHealth", QualityGrade::F),
        ])
    );
    assert_eq!(a.failed_count, 2);
    let request = a.review_request.expect("two failures ask for a review");
    assert!(request.starts_with("你是分析质量审核员。以下维度的分析报告未通过硬检查规则。\n\n--- 维度 Valuation (第1个失败) ---\n无法获取数据\n\n--- 维度 FinancialHealth (第2个失败) ---\n\n\n请评估："));
    assert!(request.ends_with("请用2-4句话简洁回答。"));

    // A later report of the same dimension replaces its grade.
    let again = vec![
        (AnalysisDimension::Valuation, "无法获取数据".to_string()),
        (AnalysisDimension::Valuation, table.to_string()),
    ];
    let a = gate.assess(&again);
    assert_eq!(a.grades, grade_table(&[("Valuation", QualityGrade::A)]));
    assert_eq!(a.failed_count, 1);

    // No failure, or more than three, asks for no review.
    assert!(gate.assess(&vec![(AnalysisDimension::Valuation, table.to_string())]).review_request.is_none());
    let many: Vec<(AnalysisDimension, String)> =
        AnalysisDimension::all().into_iter().map(|d| (d, String::new())).collect();
    let a = gate.assess(&many);
    assert_eq!(a.failed_count, 7);
    assert!(a.review_request.is_none());
    assert_eq!(gate.hard_check(""), QualityGrade::F);
}

#[test]
fn review_prompt_numbers_failed_reports() {
    let failed = vec![(AnalysisDimension::GrowthPotential, "网络错误".to_string())];
    assert_eq!(
        review_prompt(&failed),
        "你是分析质量审核员。以下维度的分析报告未通过硬检查规则。\n\n--- 维度 GrowthPotential (第1个失败) ---\n网络错误\n\n请评估：\n1. 这些失败的报告是否仍有部分有价值信息？（是/否）\n2. 失败原因是什么？（数据缺失/工具失败/格式问题/其他）\n3. 是否建议继续进行综合决策？（继续/跳过）\n\n请用2-4句话简洁回答。"
    );
}

#[test]
fn secid_suffix_is_letters_and_digits_only() {
    assert!(!validate_secid("1.600_19"));
    assert!(!validate_secid("1.股票代码"));
    assert!(validate_secid("116.HK00700"));
    assert!(validate_secid_or_error("1.600_19").is_err());
}
