//! Analysis configuration types: providers, LLM configurations, dimensions and ratings,
//! and the XOR obfuscation used to store API keys.
use vstd::prelude::*;
use crate::text::{to_chars, eq_str, push_char, str_is};
use vstd::utf8::{encode_utf8, is_ascii_chars, is_char_boundary};
use vstd::string::StringSliceAdditionalSpecFns;

verus! {

/// Cloud (or local) LLM provider.
#[derive(Debug, Clone, Copy, PartialEq, Eq, Structural)]
pub enum CloudProvider {
    Anthropic,
    OpenAI,
    DeepSeek,
    Ollama,
    Qwen,
    GLM,
    MiniMax,
}

/// The configuration name of each provider.
pub open spec fn provider_name(p: CloudProvider) -> Seq<char> {
    match p {
        CloudProvider::Anthropic => "anthropic"@,
        CloudProvider::OpenAI => "openai"@,
        CloudProvider::DeepSeek => "deepseek"@,
        CloudProvider::Ollama => "ollama"@,
        CloudProvider::Qwen => "qwen"@,
        CloudProvider::GLM => "glm"@,
        CloudProvider::MiniMax => "minimax"@,
    }
}

/// The provider named by `s`; an unknown name selects Anthropic.
pub open spec fn provider_from_name(s: Seq<char>) -> CloudProvider {
    if s == "anthropic"@ {
        CloudProvider::Anthropic
    } else if s == "openai"@ {
        CloudProvider::OpenAI
    } else if s == "deepseek"@ {
        CloudProvider::DeepSeek
    } else if s == "ollama"@ {
        CloudProvider::Ollama
    } else if s == "qwen"@ {
        CloudProvider::Qwen
    } else if s == "glm"@ {
        CloudProvider::GLM
    } else if s == "minimax"@ {
        CloudProvider::MiniMax
    } else {
        CloudProvider::Anthropic
    }
}

/// The default API base URL of each provider.
pub open spec fn provider_base_url(p: CloudProvider) -> Seq<char> {
    match p {
        CloudProvider::Anthropic => "https://api.anthropic.com/v1"@,
        CloudProvider::OpenAI => "https://api.openai.com/v1"@,
        CloudProvider::DeepSeek => "https://api.deepseek.com/v1"@,
        CloudProvider::Ollama => "http://localhost:11434"@,
        CloudProvider::Qwen => "https://dashscope.aliyuncs.com/compatible-mode/v1"@,
        CloudProvider::GLM => "https://open.bigmodel.cn/api/paas/v4"@,
        CloudProvider::MiniMax => "https://api.minimax.chat/v1"@,
    }
}

impl CloudProvider {
    /// Parses a provider name; unknown names fall back to Anthropic.
    pub fn from_str(s: &str) -> (r: Self)
        ensures
            r == provider_from_name(s@),
    {
        let v = to_chars(s);
        if eq_str(&v, "anthropic") {
            Self::Anthropic
        } else if eq_str(&v, "openai") {
            Self::OpenAI
        } else if eq_str(&v, "deepseek") {
            Self::DeepSeek
        } else if eq_str(&v, "ollama") {
            Self::Ollama
        } else if eq_str(&v, "qwen") {
            Self::Qwen
        } else if eq_str(&v, "glm") {
            Self::GLM
        } else if eq_str(&v, "minimax") {
            Self::MiniMax
        } else {
            Self::Anthropic
        }
    }

    /// The configuration name of the provider.
    pub fn as_str(&self) -> (r: &'static str)
        ensures
            r@ == provider_name(*self),
    {
        match self {
            Self::Anthropic => "anthropic",
            Self::OpenAI => "openai",
            Self::DeepSeek => "deepseek",
            Self::Ollama => "ollama",
            Self::Qwen => "qwen",
            Self::GLM => "glm",
            Self::MiniMax => "minimax",
        }
    }

    /// The provider's default API base URL.
    pub fn default_base_url(&self) -> (r: &'static str)
        ensures
            r@ == provider_base_url(*self),
    {
        match self {
            Self::Anthropic => "https://api.anthropic.com/v1",
            Self::OpenAI => "https://api.openai.com/v1",
            Self::DeepSeek => "https://api.deepseek.com/v1",
            Self::Ollama => "http://localhost:11434",
            Self::Qwen => "https://dashscope.aliyuncs.com/compatible-mode/v1",
            Self::GLM => "https://open.bigmodel.cn/api/paas/v4",
            Self::MiniMax => "https://api.minimax.chat/v1",
        }
    }

    /// Whether the provider speaks the OpenAI-compatible chat API.
    pub fn is_openai_compat(&self) -> (r: bool)
        ensures
            r == (*self == CloudProvider::OpenAI || *self == CloudProvider::DeepSeek
                || *self == CloudProvider::Qwen || *self == CloudProvider::GLM
                || *self == CloudProvider::MiniMax),
    {
        match self {
            Self::OpenAI | Self::DeepSeek | Self::Qwen | Self::GLM | Self::MiniMax => true,
            _ => false,
        }
    }
}

/// Parsing the name of a provider gives back that provider.
pub proof fn lemma_provider_name_round_trip(p: CloudProvider)
    ensures
        provider_from_name(provider_name(p)) == p,
{
    reveal_strlit("anthropic");
    reveal_strlit("openai");
    reveal_strlit("deepseek");
    reveal_strlit("ollama");
    reveal_strlit("qwen");
    reveal_strlit("glm");
    reveal_strlit("minimax");
    let n = provider_name(p);
    if p != CloudProvider::Anthropic {
        assert(n[0] != "anthropic"@[0]);
    }
    if p != CloudProvider::OpenAI {
        assert(n[0] != "openai"@[0] || n[1] != "openai"@[1]);
    }
    if p != CloudProvider::DeepSeek {
        assert(n[0] != "deepseek"@[0]);
    }
    if p != CloudProvider::Ollama {
        assert(n[0] != "ollama"@[0] || n[1] != "ollama"@[1]);
    }
    if p != CloudProvider::Qwen {
        assert(n[0] != "qwen"@[0]);
    }
    if p != CloudProvider::GLM {
        assert(n[0] != "glm"@[0]);
    }
}

/// Local or cloud LLM deployment.
#[derive(Debug, Clone, Copy, PartialEq, Eq, Structural)]
pub enum LlmMode {
    Cloud,
    Local,
}

/// Task complexity tier, used to pick the quick or the deep model.
#[derive(Debug, Clone, Copy, PartialEq, Eq, Structural)]
pub enum TaskComplexity {
    Quick,
    Deep,
}

/// Configuration of one LLM endpoint.
#[derive(Debug)]
pub struct LlmConfig {
    pub provider: CloudProvider,
    pub api_key: Option<String>,
    pub model: String,
    pub base_url: Option<String>,
    pub mode: LlmMode,
    /// Thinking/reasoning mode; incompatible with a JSON response format.
    pub thinking_enabled: bool,
}

/// A copy of an optional string.
pub fn clone_opt_string(s: &Option<String>) -> (r: Option<String>)
    ensures
        r == *s,
{
    match s {
        Some(x) => Some(x.clone()),
        None => None,
    }
}

impl Clone for LlmConfig {
    fn clone(&self) -> (r: Self)
        ensures
            r == *self,
    {
        LlmConfig {
            provider: self.provider,
            api_key: clone_opt_string(&self.api_key),
            model: self.model.clone(),
            base_url: clone_opt_string(&self.base_url),
            mode: self.mode,
            thinking_enabled: self.thinking_enabled,
        }
    }
}

/// Quick-think and (optional) deep-think configurations.
#[derive(Debug)]
pub struct DualLlmConfig {
    pub quick_think: LlmConfig,
    pub deep_think: Option<LlmConfig>,
}

impl DualLlmConfig {
    /// The configuration used for deep-think tasks: `deep_think`, or `quick_think` when unset.
    pub fn deep_think_config(&self) -> (r: &LlmConfig)
        ensures
            *r == match self.deep_think {
                Some(d) => d,
                None => self.quick_think,
            },
    {
        match &self.deep_think {
            Some(d) => d,
            None => &self.quick_think,
        }
    }

    /// A dual configuration that uses `config` for every task.
    pub fn from_single(config: LlmConfig) -> (r: Self)
        ensures
            r.quick_think == config,
            r.deep_think is None,
    {
        DualLlmConfig { quick_think: config, deep_think: None }
    }
}

impl Clone for DualLlmConfig {
    fn clone(&self) -> (r: Self)
        ensures
            r == *self,
    {
        DualLlmConfig {
            quick_think: self.quick_think.clone(),
            deep_think: match &self.deep_think {
                Some(d) => Some(d.clone()),
                None => None,
            },
        }
    }
}

/// The dimension analysis asks an LLM only when the configuration can reach one: it has an
/// API key, or it is a local Ollama server.
pub fn has_llm_access(config: &LlmConfig) -> (r: bool)
    ensures
        r == (config.api_key is Some || config.provider == CloudProvider::Ollama),
{
    config.api_key.is_some() || config.provider == CloudProvider::Ollama
}

/// The seven analysis dimensions.
#[derive(Debug, Clone, Copy, PartialEq, Eq, Hash, Structural)]
pub enum AnalysisDimension {
    IndustryTrend,
    CompetitivePosition,
    FinancialHealth,
    ManagementQuality,
    GrowthPotential,
    Valuation,
    TechnicalSignals,
}

/// The dimensions in analysis order.
pub open spec fn all_dimensions() -> Seq<AnalysisDimension> {
    seq![
        AnalysisDimension::IndustryTrend,
        AnalysisDimension::CompetitivePosition,
        AnalysisDimension::FinancialHealth,
        AnalysisDimension::ManagementQuality,
        AnalysisDimension::GrowthPotential,
        AnalysisDimension::Valuation,
        AnalysisDimension::TechnicalSignals,
    ]
}

/// The display name of each dimension.
pub open spec fn dimension_display_name(d: AnalysisDimension) -> Seq<char> {
    match d {
        AnalysisDimension::IndustryTrend => "行业趋势"@,
        AnalysisDimension::CompetitivePosition => "竞争格局"@,
        AnalysisDimension::FinancialHealth => "财务健康"@,
        AnalysisDimension::ManagementQuality => "管理层质量"@,
        AnalysisDimension::GrowthPotential => "成长性评估"@,
        AnalysisDimension::Valuation => "估值分析"@,
        AnalysisDimension::TechnicalSignals => "技术面信号"@,
    }
}

impl AnalysisDimension {
    /// All dimensions, in analysis order.
    pub fn all() -> (r: Vec<Self>)
        ensures
            r@ == all_dimensions(),
    {
        let r = vec![
            Self::IndustryTrend,
            Self::CompetitivePosition,
            Self::FinancialHealth,
            Self::ManagementQuality,
            Self::GrowthPotential,
            Self::Valuation,
            Self::TechnicalSignals,
        ];
        assert(r@ =~= all_dimensions());
        r
    }

    /// The dimension's display name.
    pub fn display_name(&self) -> (r: &'static str)
        ensures
            r@ == dimension_display_name(*self),
    {
        match self {
            Self::IndustryTrend => "行业趋势",
            Self::CompetitivePosition => "竞争格局",
            Self::FinancialHealth => "财务健康",
            Self::ManagementQuality => "管理层质量",
            Self::GrowthPotential => "成长性评估",
            Self::Valuation => "估值分析",
            Self::TechnicalSignals => "技术面信号",
        }
    }
}

/// The key of a dimension in a report map: its variant name.
pub open spec fn dimension_key(d: AnalysisDimension) -> Seq<char> {
    match d {
        AnalysisDimension::IndustryTrend => "IndustryTrend"@,
        AnalysisDimension::CompetitivePosition => "CompetitivePosition"@,
        AnalysisDimension::FinancialHealth => "FinancialHealth"@,
        AnalysisDimension::ManagementQuality => "ManagementQuality"@,
        AnalysisDimension::GrowthPotential => "GrowthPotential"@,
        AnalysisDimension::Valuation => "Valuation"@,
        AnalysisDimension::TechnicalSignals => "TechnicalSignals"@,
    }
}

/// The dimension with key `s`; an unknown key selects the industry trend.
pub open spec fn dimension_of_key(s: Seq<char>) -> AnalysisDimension {
    if s == "CompetitivePosition"@ {
        AnalysisDimension::CompetitivePosition
    } else if s == "FinancialHealth"@ {
        AnalysisDimension::FinancialHealth
    } else if s == "ManagementQuality"@ {
        AnalysisDimension::ManagementQuality
    } else if s == "GrowthPotential"@ {
        AnalysisDimension::GrowthPotential
    } else if s == "Valuation"@ {
        AnalysisDimension::Valuation
    } else if s == "TechnicalSignals"@ {
        AnalysisDimension::TechnicalSignals
    } else {
        AnalysisDimension::IndustryTrend
    }
}

impl AnalysisDimension {
    /// The dimension's key in a report map (its variant name).
    pub fn key(&self) -> (r: &'static str)
        ensures
            r@ == dimension_key(*self),
    {
        match self {
            Self::IndustryTrend => "IndustryTrend",
            Self::CompetitivePosition => "CompetitivePosition",
            Self::FinancialHealth => "FinancialHealth",
            Self::ManagementQuality => "ManagementQuality",
            Self::GrowthPotential => "GrowthPotential",
            Self::Valuation => "Valuation",
            Self::TechnicalSignals => "TechnicalSignals",
        }
    }

    /// The dimension with key `s`; an unknown key selects the industry trend.
    pub fn from_key(s: &str) -> (r: Self)
        ensures
            r == dimension_of_key(s@),
    {
        if str_is(s, "CompetitivePosition") {
            Self::CompetitivePosition
        } else if str_is(s, "FinancialHealth") {
            Self::FinancialHealth
        } else if str_is(s, "ManagementQuality") {
            Self::ManagementQuality
        } else if str_is(s, "GrowthPotential") {
            Self::GrowthPotential
        } else if str_is(s, "Valuation") {
            Self::Valuation
        } else if str_is(s, "TechnicalSignals") {
            Self::TechnicalSignals
        } else {
            Self::IndustryTrend
        }
    }
}

/// Reading a dimension's key gives the dimension back.
pub proof fn lemma_dimension_key_round_trip(d: AnalysisDimension)
    ensures
        dimension_of_key(dimension_key(d)) == d,
{
    reveal_strlit("IndustryTrend");
    reveal_strlit("CompetitivePosition");
    reveal_strlit("FinancialHealth");
    reveal_strlit("ManagementQuality");
    reveal_strlit("GrowthPotential");
    reveal_strlit("Valuation");
    reveal_strlit("TechnicalSignals");
    let n = dimension_key(d);
    if d != AnalysisDimension::CompetitivePosition {
        assert(n[0] != "CompetitivePosition"@[0]);
    }
    if d != AnalysisDimension::FinancialHealth {
        assert(n[0] != "FinancialHealth"@[0]);
    }
    if d != AnalysisDimension::ManagementQuality {
        assert(n[0] != "ManagementQuality"@[0]);
    }
    if d != AnalysisDimension::GrowthPotential {
        assert(n[0] != "GrowthPotential"@[0]);
    }
    if d != AnalysisDimension::Valuation {
        assert(n[0] != "Valuation"@[0]);
    }
    if d != AnalysisDimension::TechnicalSignals {
        assert(n[0] != "TechnicalSignals"@[0]);
    }
}

/// Every dimension is listed by `all`, exactly once.
pub proof fn lemma_all_dimensions_complete(d: AnalysisDimension)
    ensures
        all_dimensions().contains(d),
        all_dimensions().no_duplicates(),
        all_dimensions().len() == 7,
{
    let s = all_dimensions();
    match d {
        AnalysisDimension::IndustryTrend => assert(s[0] == d),
        AnalysisDimension::CompetitivePosition => assert(s[1] == d),
        AnalysisDimension::FinancialHealth => assert(s[2] == d),
        AnalysisDimension::ManagementQuality => assert(s[3] == d),
        AnalysisDimension::GrowthPotential => assert(s[4] == d),
        AnalysisDimension::Valuation => assert(s[5] == d),
        AnalysisDimension::TechnicalSignals => assert(s[6] == d),
    }
}

/// Five-level dimension rating.
#[derive(Debug, Clone, Copy, PartialEq, Eq, Structural)]
pub enum DimensionRating {
    A,
    B,
    C,
    D,
    F,
}

/// The representative score of a rating (0-100).
pub open spec fn rating_points(r: DimensionRating) -> int {
    match r {
        DimensionRating::A => 90,
        DimensionRating::B => 70,
        DimensionRating::C => 50,
        DimensionRating::D => 30,
        DimensionRating::F => 10,
    }
}

/// The rating band of an integer score: A from 80, B from 60, C from 40, D from 20, else F.
pub open spec fn rating_of_points(score: int) -> DimensionRating {
    if score >= 80 {
        DimensionRating::A
    } else if score >= 60 {
        DimensionRating::B
    } else if score >= 40 {
        DimensionRating::C
    } else if score >= 20 {
        DimensionRating::D
    } else {
        DimensionRating::F
    }
}

impl DimensionRating {
    /// The rating letter.
    pub fn display(&self) -> (r: &'static str)
        ensures
            r@ == match *self {
                DimensionRating::A => "A"@,
                DimensionRating::B => "B"@,
                DimensionRating::C => "C"@,
                DimensionRating::D => "D"@,
                DimensionRating::F => "F"@,
            },
    {
        match self {
            Self::A => "A",
            Self::B => "B",
            Self::C => "C",
            Self::D => "D",
            Self::F => "F",
        }
    }

    /// The representative score of the rating, in whole points.
    pub fn score_points(&self) -> (r: u32)
        ensures
            r == rating_points(*self),
    {
        match self {
            Self::A => 90,
            Self::B => 70,
            Self::C => 50,
            Self::D => 30,
            Self::F => 10,
        }
    }

    /// The rating of an integer score.
    pub fn from_points(score: i64) -> (r: Self)
        ensures
            r == rating_of_points(score as int),
    {
        if score >= 80 {
            Self::A
        } else if score >= 60 {
            Self::B
        } else if score >= 40 {
            Self::C
        } else if score >= 20 {
            Self::D
        } else {
            Self::F
        }
    }
}

/// The score given to a rating letter from an LLM: A 90, B 70, C 50, D 30, F 10, and 50 for
/// anything else.
pub open spec fn letter_points(s: Seq<char>) -> int {
    if s == "A"@ {
        90
    } else if s == "B"@ {
        70
    } else if s == "C"@ {
        50
    } else if s == "D"@ {
        30
    } else if s == "F"@ {
        10
    } else {
        50
    }
}

impl DimensionRating {
    /// The rating of a letter from an LLM: the band of the letter's score.
    pub fn from_letter(s: &str) -> (r: Self)
        ensures
            r == rating_of_points(letter_points(s@)),
    {
        let points: i64 = if str_is(s, "A") {
            90
        } else if str_is(s, "B") {
            70
        } else if str_is(s, "C") {
            50
        } else if str_is(s, "D") {
            30
        } else if str_is(s, "F") {
            10
        } else {
            50
        };
        Self::from_points(points)
    }
}

/// A rating's representative score falls in that rating's band.
pub proof fn lemma_rating_points_in_band(r: DimensionRating)
    ensures
        rating_of_points(rating_points(r)) == r,
{
}

/// Overall five-level recommendation.
#[derive(Debug, Clone, Copy, PartialEq, Eq, Structural)]
pub enum OverallRating {
    StrongBuy,
    Buy,
    Hold,
    Sell,
    StrongSell,
}

impl OverallRating {
    /// The recommendation's display text.
    pub fn display(&self) -> (r: &'static str)
        ensures
            r@ == match *self {
                OverallRating::StrongBuy => "强烈推荐"@,
                OverallRating::Buy => "推荐"@,
                OverallRating::Hold => "观望"@,
                OverallRating::Sell => "回避"@,
                OverallRating::StrongSell => "强烈回避"@,
            },
    {
        match self {
            Self::StrongBuy => "强烈推荐",
            Self::Buy => "推荐",
            Self::Hold => "观望",
            Self::Sell => "回避",
            Self::StrongSell => "强烈回避",
        }
    }

    /// The recommendation of an integer score: StrongBuy from 80, Buy from 60, Hold from 40,
    /// Sell from 20, else StrongSell.
    pub fn from_points(score: i64) -> (r: Self)
        ensures
            r == (if score >= 80 {
                OverallRating::StrongBuy
            } else if score >= 60 {
                OverallRating::Buy
            } else if score >= 40 {
                OverallRating::Hold
            } else if score >= 20 {
                OverallRating::Sell
            } else {
                OverallRating::StrongSell
            }),
    {
        if score >= 80 {
            Self::StrongBuy
        } else if score >= 60 {
            Self::Buy
        } else if score >= 40 {
            Self::Hold
        } else if score >= 20 {
            Self::Sell
        } else {
            Self::StrongSell
        }
    }
}

/// The stored name of an overall rating: its variant name.
pub open spec fn overall_rating_key(r: OverallRating) -> Seq<char> {
    match r {
        OverallRating::StrongBuy => "StrongBuy"@,
        OverallRating::Buy => "Buy"@,
        OverallRating::Hold => "Hold"@,
        OverallRating::Sell => "Sell"@,
        OverallRating::StrongSell => "StrongSell"@,
    }
}

/// The overall rating stored as `s`; an unknown name reads as a hold.
pub open spec fn overall_rating_of_key(s: Seq<char>) -> OverallRating {
    if s == "StrongBuy"@ {
        OverallRating::StrongBuy
    } else if s == "Buy"@ {
        OverallRating::Buy
    } else if s == "Sell"@ {
        OverallRating::Sell
    } else if s == "StrongSell"@ {
        OverallRating::StrongSell
    } else {
        OverallRating::Hold
    }
}

impl OverallRating {
    /// The name under which the rating is stored (its variant name).
    pub fn key(&self) -> (r: &'static str)
        ensures
            r@ == overall_rating_key(*self),
    {
        match self {
            OverallRating::StrongBuy => "StrongBuy",
            OverallRating::Buy => "Buy",
            OverallRating::Hold => "Hold",
            OverallRating::Sell => "Sell",
            OverallRating::StrongSell => "StrongSell",
        }
    }

    /// The rating stored under `s`; an unknown name reads as a hold.
    pub fn from_key(s: &str) -> (r: Self)
        ensures
            r == overall_rating_of_key(s@),
    {
        if str_is(s, "StrongBuy") {
            OverallRating::StrongBuy
        } else if str_is(s, "Buy") {
            OverallRating::Buy
        } else if str_is(s, "Sell") {
            OverallRating::Sell
        } else if str_is(s, "StrongSell") {
            OverallRating::StrongSell
        } else {
            OverallRating::Hold
        }
    }
}

/// A stored overall rating reads back as itself.
pub proof fn lemma_overall_rating_key_round_trip(r: OverallRating)
    ensures
        overall_rating_of_key(overall_rating_key(r)) == r,
{
    reveal_strlit("StrongBuy");
    reveal_strlit("Buy");
    reveal_strlit("Hold");
    reveal_strlit("Sell");
    reveal_strlit("StrongSell");
    let n = overall_rating_key(r);
    if r != OverallRating::StrongBuy {
        assert(n.len() != "StrongBuy"@.len() || n[6] != "StrongBuy"@[6]);
    }
    if r != OverallRating::Buy {
        assert(n.len() != "Buy"@.len());
    }
    if r != OverallRating::Sell {
        assert(n.len() != "Sell"@.len() || n[0] != "Sell"@[0]);
    }
    if r != OverallRating::StrongSell {
        assert(n.len() != "StrongSell"@.len());
    }
}

/// The key that API keys are XOR-ed with before they are stored.
pub open spec fn obfuscation_key() -> Seq<char> {
    "TickPulse2024!Secure"@
}

/// The key byte applied to byte `i` (the key repeats every 20 bytes).
pub open spec fn key_byte(i: int) -> u8 {
    obfuscation_key()[i % 20] as u8
}

/// Lower-case hexadecimal digit of `n` (`n < 16`).
pub open spec fn hex_digit(n: u8) -> char {
    if n < 10 {
        (n + 48) as char
    } else {
        (n + 87) as char
    }
}

/// The obfuscated form of `bytes`: each byte XOR-ed with the key and written as two
/// lower-case hex digits.
pub open spec fn obfuscated(bytes: Seq<u8>) -> Seq<char> {
    Seq::new(
        2 * bytes.len(),
        |j: int|
            {
                let x = bytes[j / 2] ^ key_byte(j / 2);
                if j % 2 == 0 {
                    hex_digit(x / 16)
                } else {
                    hex_digit(x % 16)
                }
            },
    )
}

/// The value of one hexadecimal digit byte (either case), if it is one.
pub open spec fn hex_value(b: u8) -> Option<u8> {
    if 48 <= b <= 57 {
        Some((b - 48) as u8)
    } else if 97 <= b <= 102 {
        Some((b - 87) as u8)
    } else if 65 <= b <= 70 {
        Some((b - 55) as u8)
    } else {
        None
    }
}

/// What a two-byte text parses to as a base-16 `u8`: two hex digits, or `+` and one digit.
pub open spec fn pair_value(b0: u8, b1: u8) -> Option<u8> {
    if b0 == 43 {
        hex_value(b1)
    } else {
        match (hex_value(b0), hex_value(b1)) {
            (Some(h), Some(l)) => Some((h * 16 + l) as u8),
            _ => None,
        }
    }
}

/// The bytes decoded from consecutive byte pairs of `h`, skipping pairs that do not parse.
pub open spec fn decoded_pairs(h: Seq<u8>) -> Seq<u8>
    decreases h.len(),
{
    if h.len() < 2 {
        Seq::empty()
    } else {
        let rest = decoded_pairs(h.take(h.len() - 2));
        match pair_value(h[h.len() - 2], h[h.len() - 1]) {
            Some(v) => rest.push(v),
            None => rest,
        }
    }
}

/// The de-obfuscated text of the hex bytes `h`: each decoded byte XOR-ed with the key and
/// taken as the character with that code.
pub open spec fn deobfuscated(h: Seq<u8>) -> Seq<char> {
    let d = decoded_pairs(h);
    Seq::new(d.len(), |i: int| (d[i] ^ key_byte(i)) as char)
}

/// Text that can be cut into two-byte slices without splitting a character.
pub open spec fn splits_into_byte_pairs(bytes: Seq<u8>) -> bool {
    &&& bytes.len() % 2 == 0
    &&& forall|i: int| 0 <= i < bytes.len() && i % 2 == 0 ==> is_char_boundary(bytes, i)
}

fn key_chars() -> (v: Vec<char>)
    ensures
        v@ == obfuscation_key(),
        v@.len() == 20,
        is_ascii_chars(v@),
{
    let v = to_chars("TickPulse2024!Secure");
    proof {
        reveal_strlit("TickPulse2024!Secure");
    }
    v
}

fn hex_digit_exec(n: u8) -> (c: char)
    requires
        n < 16,
    ensures
        c == hex_digit(n),
{
    if n < 10 {
        (n + 48) as char
    } else {
        (n + 87) as char
    }
}

/// XOR-obfuscates an API key and writes the result as lower-case hex.
pub fn xor_obfuscate(input: &str) -> (r: String)
    ensures
        r@ == obfuscated(input.spec_bytes()),
{
    let key = key_chars();
    let bytes = input.as_bytes();
    let mut out = String::new();
    let mut i: usize = 0;
    while i < bytes.len()
        invariant
            key@ == obfuscation_key(),
            key@.len() == 20,
            bytes@ == input.spec_bytes(),
            i <= bytes@.len(),
            out@ == obfuscated(bytes@.take(i as int)),
        decreases bytes.len() - i,
    {
        let x = bytes[i] ^ (key[i % 20] as u8);
        let ghost before = out@;
        push_char(&mut out, hex_digit_exec(x / 16));
        push_char(&mut out, hex_digit_exec(x % 16));
        assert(out@ =~= obfuscated(bytes@.take(i + 1))) by {
            let t = bytes@.take(i + 1);
            assert forall|j: int| 0 <= j < 2 * (i + 1) implies #[trigger] out@[j] == obfuscated(t)[j] by {
                if j < 2 * i {
                    assert(out@[j] == before[j]);
                    assert(t[j / 2] == bytes@.take(i as int)[j / 2]);
                }
            }
        }
        i += 1;
    }
    assert(bytes@.take(bytes@.len() as int) =~= bytes@);
    out
}

fn hex_value_exec(b: u8) -> (r: Option<u8>)
    ensures
        r == hex_value(b),
{
    if 48 <= b && b <= 57 {
        Some(b - 48)
    } else if 97 <= b && b <= 102 {
        Some(b - 87)
    } else if 65 <= b && b <= 70 {
        Some(b - 55)
    } else {
        None
    }
}

fn pair_value_exec(b0: u8, b1: u8) -> (r: Option<u8>)
    ensures
        r == pair_value(b0, b1),
{
    if b0 == 43 {
        hex_value_exec(b1)
    } else {
        match (hex_value_exec(b0), hex_value_exec(b1)) {
            (Some(h), Some(l)) => Some(h * 16 + l),
            _ => None,
        }
    }
}

/// Reverses `xor_obfuscate`: decodes hex byte pairs (skipping pairs that do not parse)
/// and XORs them with the key.
pub fn xor_deobfuscate(hex: &str) -> (r: String)
    requires
        splits_into_byte_pairs(hex.spec_bytes()),
    ensures
        r@ == deobfuscated(hex.spec_bytes()),
{
    let key = key_chars();
    let bytes = hex.as_bytes();
    let mut decoded: Vec<u8> = Vec::new();
    let mut i: usize = 0;
    while i + 1 < bytes.len()
        invariant
            bytes@ == hex.spec_bytes(),
            bytes@.len() % 2 == 0,
            i % 2 == 0,
            i <= bytes@.len(),
            decoded@ == decoded_pairs(bytes@.take(i as int)),
        decreases bytes.len() - i,
    {
        let v = pair_value_exec(bytes[i], bytes[i + 1]);
        proof {
            let t = bytes@.take(i + 2);
            assert(t.take(t.len() - 2) =~= bytes@.take(i as int));
        }
        match v {
            Some(b) => decoded.push(b),
            None => {},
        }
        i += 2;
    }
    assert(bytes@.take(i as int) =~= bytes@);
    let mut out = String::new();
    let mut k: usize = 0;
    while k < decoded.len()
        invariant
            key@ == obfuscation_key(),
            key@.len() == 20,
            decoded@ == decoded_pairs(bytes@),
            bytes@ == hex.spec_bytes(),
            k <= decoded@.len(),
            out@ == deobfuscated(bytes@).take(k as int),
        decreases decoded.len() - k,
    {
        let c = (decoded[k] ^ (key[k % 20] as u8)) as char;
        push_char(&mut out, c);
        assert(out@ =~= deobfuscated(bytes@).take(k + 1));
        k += 1;
    }
    assert(out@ =~= deobfuscated(bytes@));
    out
}

proof fn lemma_hex_digit_value(n: u8)
    requires
        n < 16,
    ensures
        hex_value(hex_digit(n) as u8) == Some(n),
        hex_digit(n) as u8 != 43,
        '\0' <= hex_digit(n) <= '\u{7f}',
{
}

proof fn lemma_xor_twice(x: u8, k: u8)
    ensures
        (x ^ k) ^ k == x,
{
    assert((x ^ k) ^ k == x) by (bit_vector);
}

proof fn lemma_hex_split(x: u8)
    ensures
        x / 16 < 16,
        x % 16 < 16,
        ((x / 16) * 16 + x % 16) as u8 == x,
{
}

proof fn lemma_decoded_prefix(b: Seq<u8>, h: Seq<u8>, m: int)
    requires
        0 <= m <= b.len(),
        h.len() == 2 * b.len(),
        forall|i: int| 0 <= i < b.len() ==> #[trigger] pair_value(h[2 * i], h[2 * i + 1])
            == Some(b[i] ^ key_byte(i)),
    ensures
        decoded_pairs(h.take(2 * m)) == Seq::new(m as nat, |i: int| b[i] ^ key_byte(i)),
    decreases m,
{
    let t = h.take(2 * m);
    if m == 0 {
        assert(decoded_pairs(t) =~= Seq::new(0, |i: int| b[i] ^ key_byte(i)));
    } else {
        lemma_decoded_prefix(b, h, m - 1);
        assert(t.take(t.len() - 2) =~= h.take(2 * (m - 1)));
        assert(t[t.len() - 2] == h[2 * (m - 1)]);
        assert(t[t.len() - 1] == h[2 * (m - 1) + 1]);
        assert(pair_value(h[2 * (m - 1)], h[2 * (m - 1) + 1]) == Some(b[m - 1] ^ key_byte(m - 1)));
        assert(decoded_pairs(t) =~= Seq::new(m as nat, |i: int| b[i] ^ key_byte(i)));
    }
}

/// Storing an ASCII API key and reading it back gives the key back: the obfuscated text
/// always splits into byte pairs, and de-obfuscating it restores the original characters.
pub proof fn lemma_obfuscation_round_trip(s: Seq<char>)
    requires
        is_ascii_chars(s),
    ensures
        splits_into_byte_pairs(encode_utf8(obfuscated(encode_utf8(s)))),
        deobfuscated(encode_utf8(obfuscated(encode_utf8(s)))) == s,
{
    broadcast use vstd::utf8::group_utf8_lib;
    let b = encode_utf8(s);
    vstd::utf8::is_ascii_chars_encode_utf8(s);
    let o = obfuscated(b);
    assert forall|j: int| 0 <= j < o.len() implies '\0' <= #[trigger] o[j] <= '\u{7f}' by {
        let x = b[j / 2] ^ key_byte(j / 2);
        lemma_hex_split(x);
        lemma_hex_digit_value(x / 16);
        lemma_hex_digit_value(x % 16);
    }
    assert(is_ascii_chars(o));
    vstd::utf8::is_ascii_chars_encode_utf8(o);
    let h = encode_utf8(o);
    vstd::utf8::encode_utf8_valid_utf8(o);
    assert forall|i: int| 0 <= i < h.len() && i % 2 == 0 implies is_char_boundary(h, i) by {
        vstd::utf8::is_char_boundary_iff_not_is_continuation_byte(h, i);
        assert(o[i] as u8 == h[i]);
    }
    assert forall|i: int| 0 <= i < b.len() implies #[trigger] pair_value(h[2 * i], h[2 * i + 1])
        == Some(b[i] ^ key_byte(i)) by {
        let x = b[i] ^ key_byte(i);
        lemma_hex_split(x);
        lemma_hex_digit_value(x / 16);
        lemma_hex_digit_value(x % 16);
        assert((2 * i) / 2 == i);
        assert((2 * i + 1) / 2 == i);
        assert(o[2 * i] == hex_digit(x / 16));
        assert(o[2 * i + 1] == hex_digit(x % 16));
        assert(h[2 * i] == o[2 * i] as u8);
        assert(h[2 * i + 1] == o[2 * i + 1] as u8);
    }
    lemma_decoded_prefix(b, h, b.len() as int);
    assert(h.take(2 * (b.len() as int)) =~= h);
    let d = decoded_pairs(h);
    assert forall|i: int| 0 <= i < s.len() implies #[trigger] deobfuscated(h)[i] == s[i] by {
        lemma_xor_twice(b[i], key_byte(i));
        assert(d[i] == b[i] ^ key_byte(i));
        assert(b[i] == s[i] as u8);
    }
    assert(deobfuscated(h) =~= s);
}

} // verus!
